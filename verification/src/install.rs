//! Choosing the installer for a device.

use vstd::prelude::*;
use crate::device::{strategy_for, ConnectedDevice, ConnectedDeviceType, InstallStrategy};
use crate::error::{Error, ErrorView};

verus! {

/// The text of the failure for a device type without an installer.
pub const NO_STRATEGY: &'static str = "firmware cannot be installed on this device type";

/// One install that is about to run: the firmware file, the device it is
/// for and the installer that writes it. A job is made when the download is
/// complete and is used up by one run of its installer.
#[derive(Debug, PartialEq, Eq)]
pub struct InstallJob {
    pub path: String,
    pub device_type: ConnectedDeviceType,
    pub strategy: InstallStrategy,
}

/// Makes the job that installs the file at `path` on `device`. The
/// installer is the one of the device's type; a device in a bootloader, or
/// an unknown one, has none, and the result is `Unsupported`.
pub fn install(device: &ConnectedDevice, path: String) -> (job: Result<InstallJob, Error>)
    ensures
        match job {
            Ok(j) => {
                &&& device.device_type.strategy_of() == Some(j.strategy)
                &&& j.device_type == device.device_type
                &&& j.path@ == path@
            },
            Err(e) => {
                &&& device.device_type.strategy_of() is None
                &&& e@ == ErrorView::Unsupported(NO_STRATEGY@)
            },
        },
{
    match strategy_for(device.device_type) {
        Some(strategy) => Ok(InstallJob { path, device_type: device.device_type, strategy }),
        None => Err(Error::Unsupported(String::from_str(NO_STRATEGY))),
    }
}

} // verus!
