//! The connected device: what it is, where its firmware is published and
//! how firmware reaches it.

use vstd::prelude::*;

verus! {

/// The kinds of device that can be attached.
#[derive(Clone, Copy, Debug, PartialEq, Eq, Structural)]
pub enum ConnectedDeviceType {
    /// Four-switch Bridge controller, running its application.
    Bridge4,
    /// Six-switch Bridge controller, running its application.
    Bridge6,
    /// CLiCK relay switcher, running its application.
    Click,
    /// uLOOP loop switcher, running its application.
    ULoop,
    /// A Bridge that sits in its application bootloader.
    BridgeBootloader,
    /// A board that sits in the RP2040 ROM bootloader.
    RPBootloader,
    /// Anything else.
    Unknown,
}

/// The two ways firmware is written to a device.
#[derive(Clone, Copy, Debug, PartialEq, Eq, Structural)]
pub enum InstallStrategy {
    /// Transfer over USB Device Firmware Upgrade.
    Dfu,
    /// Copy a UF2 file onto the volume that the device presents.
    MassStorage,
}

/// One attached device.
#[derive(Debug, PartialEq, Eq)]
pub struct ConnectedDevice {
    pub id: String,
    pub vendor_id: u16,
    pub product_id: u16,
    pub description: Option<String>,
    pub serial_number: Option<String>,
    pub device_type: ConnectedDeviceType,
}

impl Clone for ConnectedDevice {
    fn clone(&self) -> (copy: Self)
        ensures
            copy == *self,
    {
        ConnectedDevice {
            id: self.id.clone(),
            vendor_id: self.vendor_id,
            product_id: self.product_id,
            description: match &self.description {
                Some(text) => Some(text.clone()),
                None => None,
            },
            serial_number: match &self.serial_number {
                Some(text) => Some(text.clone()),
                None => None,
            },
            device_type: self.device_type,
        }
    }
}

/// The repository that publishes the firmware of both Bridge models.
pub const GITHUB_BRIDGE_REPO: &'static str = "Pirate-MIDI-Features-Bug-Tracking";

/// The repository that publishes the firmware of the CLiCK.
pub const GITHUB_CLICK_REPO: &'static str = "CLiCK-Features-Bug-Tracking";

/// The repository that publishes the firmware of the uLOOP.
pub const GITHUB_ULOOP_REPO: &'static str = "uLOOP-Features-Bug-Tracking";

/// What the name of an asset for the Bridge4 holds.
pub const BRIDGE4_TAG: &'static str = "bridge4";

/// What the name of an asset for the Bridge6 holds.
pub const BRIDGE6_TAG: &'static str = "bridge6";

/// What the name of an asset for the CLiCK holds.
pub const CLICK_TAG: &'static str = "click";

/// What the name of an asset for the uLOOP holds.
pub const ULOOP_TAG: &'static str = "uloop";

impl ConnectedDeviceType {
    /// The device runs its application, so it has a release channel and an
    /// install strategy. The two bootloader states and `Unknown` have neither.
    pub open spec fn is_application(self) -> bool {
        match self {
            ConnectedDeviceType::Bridge4
            | ConnectedDeviceType::Bridge6
            | ConnectedDeviceType::Click
            | ConnectedDeviceType::ULoop => true,
            ConnectedDeviceType::BridgeBootloader
            | ConnectedDeviceType::RPBootloader
            | ConnectedDeviceType::Unknown => false,
        }
    }

    /// The repository that publishes firmware for this device type.
    pub open spec fn repository_of(self) -> Option<Seq<char>> {
        match self {
            ConnectedDeviceType::Bridge4 | ConnectedDeviceType::Bridge6 => Some(GITHUB_BRIDGE_REPO@),
            ConnectedDeviceType::Click => Some(GITHUB_CLICK_REPO@),
            ConnectedDeviceType::ULoop => Some(GITHUB_ULOOP_REPO@),
            ConnectedDeviceType::BridgeBootloader
            | ConnectedDeviceType::RPBootloader
            | ConnectedDeviceType::Unknown => None,
        }
    }

    /// The fragment that the name of an asset for this device type holds.
    pub open spec fn firmware_tag_of(self) -> Option<Seq<char>> {
        match self {
            ConnectedDeviceType::Bridge4 => Some(BRIDGE4_TAG@),
            ConnectedDeviceType::Bridge6 => Some(BRIDGE6_TAG@),
            ConnectedDeviceType::Click => Some(CLICK_TAG@),
            ConnectedDeviceType::ULoop => Some(ULOOP_TAG@),
            ConnectedDeviceType::BridgeBootloader
            | ConnectedDeviceType::RPBootloader
            | ConnectedDeviceType::Unknown => None,
        }
    }

    /// How firmware is written to this device type.
    pub open spec fn strategy_of(self) -> Option<InstallStrategy> {
        match self {
            ConnectedDeviceType::Bridge4
            | ConnectedDeviceType::Bridge6
            | ConnectedDeviceType::ULoop => Some(InstallStrategy::Dfu),
            ConnectedDeviceType::Click => Some(InstallStrategy::MassStorage),
            ConnectedDeviceType::BridgeBootloader
            | ConnectedDeviceType::RPBootloader
            | ConnectedDeviceType::Unknown => None,
        }
    }

    /// Whether the device runs its application.
    pub fn has_releases(self) -> (yes: bool)
        ensures
            yes == self.is_application(),
    {
        match self {
            ConnectedDeviceType::Bridge4
            | ConnectedDeviceType::Bridge6
            | ConnectedDeviceType::Click
            | ConnectedDeviceType::ULoop => true,
            ConnectedDeviceType::BridgeBootloader
            | ConnectedDeviceType::RPBootloader
            | ConnectedDeviceType::Unknown => false,
        }
    }

    /// The repository that publishes firmware for this device type, if it
    /// has one.
    pub fn repository(self) -> (repo: Option<&'static str>)
        ensures
            repo is Some == self.is_application(),
            match repo {
                Some(name) => self.repository_of() == Some(name@),
                None => self.repository_of() is None,
            },
    {
        match self {
            ConnectedDeviceType::Bridge4 | ConnectedDeviceType::Bridge6 => Some(GITHUB_BRIDGE_REPO),
            ConnectedDeviceType::Click => Some(GITHUB_CLICK_REPO),
            ConnectedDeviceType::ULoop => Some(GITHUB_ULOOP_REPO),
            ConnectedDeviceType::BridgeBootloader
            | ConnectedDeviceType::RPBootloader
            | ConnectedDeviceType::Unknown => None,
        }
    }

    /// The fragment that the name of an asset for this device type holds,
    /// if the type has firmware at all.
    pub fn firmware_tag(self) -> (tag: Option<&'static str>)
        ensures
            tag is Some == self.is_application(),
            match tag {
                Some(t) => self.firmware_tag_of() == Some(t@),
                None => self.firmware_tag_of() is None,
            },
    {
        match self {
            ConnectedDeviceType::Bridge4 => Some(BRIDGE4_TAG),
            ConnectedDeviceType::Bridge6 => Some(BRIDGE6_TAG),
            ConnectedDeviceType::Click => Some(CLICK_TAG),
            ConnectedDeviceType::ULoop => Some(ULOOP_TAG),
            ConnectedDeviceType::BridgeBootloader
            | ConnectedDeviceType::RPBootloader
            | ConnectedDeviceType::Unknown => None,
        }
    }
}

/// The install strategy of a device type: `Some` for every type that runs
/// its application, `None` for the bootloader states and `Unknown`.
pub fn strategy_for(device_type: ConnectedDeviceType) -> (strategy: Option<InstallStrategy>)
    ensures
        strategy == device_type.strategy_of(),
        strategy is Some == device_type.is_application(),
{
    match device_type {
        ConnectedDeviceType::Bridge4
        | ConnectedDeviceType::Bridge6
        | ConnectedDeviceType::ULoop => Some(InstallStrategy::Dfu),
        ConnectedDeviceType::Click => Some(InstallStrategy::MassStorage),
        ConnectedDeviceType::BridgeBootloader
        | ConnectedDeviceType::RPBootloader
        | ConnectedDeviceType::Unknown => None,
    }
}

/// Every device type that runs its application has exactly one install
/// strategy and exactly one repository; the others have neither.
pub proof fn lemma_dispatch_total(device_type: ConnectedDeviceType)
    ensures
        device_type.is_application() ==> (device_type.strategy_of() == Some(InstallStrategy::Dfu))
            != (device_type.strategy_of() == Some(InstallStrategy::MassStorage)),
        device_type.is_application() <==> device_type.strategy_of() is Some,
        device_type.is_application() <==> device_type.repository_of() is Some,
        device_type.is_application() <==> device_type.firmware_tag_of() is Some,
{
}

} // verus!
