//! The two installers: transfer over USB DFU, and copy onto the volume of a
//! UF2 bootloader.
//!
//! Both are step functions. The caller starts with the `Idle` state and the
//! `Begin` event, carries out the action that comes back, reports what
//! happened as the next event, and goes on until the action is `Finish`.
//! Each installer is one attempt: nothing is retried, and an event that the
//! installer did not ask for ends it with a failure.
//!
//! While the firmware moves, the caller reports each count it learns of as
//! a `Progress` event. Every step hands back, beside the action, the sample
//! to pass on to whoever watches the transfer, where there is one. The
//! samples of one install share one total, their counts never go back, and
//! the step that answers the end of a transfer hands back the sample that
//! says so.

use vstd::prelude::*;
use crate::error::{Error, ErrorView, OUT_OF_TURN};
use crate::progress::ProgressEvent;
use crate::sequence::{first_index, lemma_first_index, lemma_first_index_found, lemma_first_index_next};
use crate::text::{eq_ignore_ascii_case, join, same_ignoring_ascii_case};

verus! {

// ---------------------------------------------------------------------------
// Mass storage
// ---------------------------------------------------------------------------

/// The label of the volume that the bootloader presents.
pub const UF2_VOLUME_LABEL: &'static str = "RPI-RP2";

/// How long the volume is given to mount, in seconds.
pub const SETTLE_SECONDS: u64 = 3;

/// The size of the buffer that the copy moves the file through, in bytes.
pub const COPY_BUFFER_SIZE: usize = 512;

/// The text of the failure when no mounted disk is the target.
pub const DISK_NOT_AVAILABLE: &'static str = "target disk not available";

/// What the text of a failed copy starts with; the reason follows.
pub const UPLOAD_FAILED_PREFIX: &'static str = "upload failed with reason: ";

/// The text of the failure when the firmware path names no file.
pub const NO_FILE_NAME: &'static str = "firmware path names no file";

/// One mounted disk.
#[derive(Debug, PartialEq, Eq)]
pub struct Disk {
    pub name: String,
    pub removable: bool,
    pub mount_point: String,
}

/// A [`Disk`] over sequences of characters.
pub struct DiskView {
    pub name: Seq<char>,
    pub removable: bool,
    pub mount_point: Seq<char>,
}

impl DeepView for Disk {
    type V = DiskView;

    open spec fn deep_view(&self) -> DiskView {
        DiskView { name: self.name@, removable: self.removable, mount_point: self.mount_point@ }
    }
}

impl View for Disk {
    type V = DiskView;

    open spec fn view(&self) -> DiskView {
        self.deep_view()
    }
}

impl DiskView {
    /// The disk is the volume of the bootloader: it is removable and its
    /// label is the expected one, whatever the case of its letters.
    pub open spec fn is_target(self) -> bool {
        self.removable && same_ignoring_ascii_case(self.name, UF2_VOLUME_LABEL@)
    }
}

/// The position of the first disk that is the volume of the bootloader.
pub open spec fn target_disk(disks: Seq<DiskView>) -> Option<int> {
    first_index(disks, |d: DiskView| d.is_target())
}

/// `target_disk` gives the first disk that is the target, and none exactly
/// where no disk is.
pub proof fn lemma_target_disk(disks: Seq<DiskView>)
    ensures
        match target_disk(disks) {
            Some(i) => {
                &&& 0 <= i < disks.len()
                &&& disks[i].is_target()
                &&& forall|j: int| 0 <= j < i ==> !(#[trigger] disks[j]).is_target()
            },
            None => forall|j: int| 0 <= j < disks.len() ==> !(#[trigger] disks[j]).is_target(),
        },
{
    lemma_first_index(disks, |d: DiskView| d.is_target());
}

impl Disk {
    /// Whether this disk is the volume of the bootloader.
    pub fn is_target(&self) -> (yes: bool)
        ensures
            yes == self@.is_target(),
    {
        self.removable && eq_ignore_ascii_case(self.name.as_str(), UF2_VOLUME_LABEL)
    }
}

/// Finds the first disk that is the volume of the bootloader.
pub fn find_target_disk(disks: &Vec<Disk>) -> (found: Option<usize>)
    ensures
        match found {
            Some(i) => target_disk(disks.deep_view()) == Some(i as int),
            None => target_disk(disks.deep_view()) is None,
        },
        found matches Some(i) ==> i < disks.len(),
{
    let ghost all = disks.deep_view();
    let ghost is_target = |d: DiskView| d.is_target();
    let mut i: usize = 0;
    while i < disks.len()
        invariant
            i <= disks.len(),
            all == disks.deep_view(),
            is_target == |d: DiskView| d.is_target(),
            first_index(all.take(i as int), is_target) is None,
        decreases disks.len() - i,
    {
        proof {
            lemma_first_index_next(all, i as int, is_target);
        }
        if disks[i].is_target() {
            proof {
                lemma_first_index_found(all, i + 1, is_target);
            }
            return Some(i);
        }
        i += 1;
    }
    assert(all.take(i as int) == all);
    None
}

/// Where a mass-storage install stands.
#[derive(Clone, Copy, Debug, PartialEq, Eq, Structural)]
pub enum Uf2State {
    /// Nothing was asked yet.
    Idle,
    /// The volume is given time to mount.
    Settling,
    /// The mounted disks are being listed.
    Scanning,
    /// The file is being copied: `copied` bytes are known to be written, of
    /// `total` where the size of the file is known.
    Copying { copied: u64, total: Option<u64> },
    /// The install has ended.
    Done,
}

impl Uf2State {
    /// The state can come up in an install: the count of a copy is within
    /// the size, and is zero as long as the size is unknown.
    pub open spec fn wf(self) -> bool {
        match self {
            Uf2State::Copying { copied, total } => match total {
                Some(size) => copied <= size,
                None => copied == 0,
            },
            _ => true,
        }
    }
}

/// What the caller reports to a mass-storage install.
#[derive(Debug, PartialEq, Eq)]
pub enum Uf2Event {
    /// The install is started.
    Begin,
    /// The wait is over.
    Settled,
    /// These disks are mounted.
    Disks(Vec<Disk>),
    /// The copy goes on: `copied` bytes are written so far, of `total`.
    Progress { copied: u64, total: u64 },
    /// The copy is complete; this many bytes were written.
    Copied { bytes: u64 },
    /// The copy failed.
    CopyFailed(String),
}

/// A [`Uf2Event`] over sequences.
pub enum Uf2EventView {
    Begin,
    Settled,
    Disks(Seq<DiskView>),
    Progress { copied: u64, total: u64 },
    Copied { bytes: u64 },
    CopyFailed(Seq<char>),
}

impl View for Uf2Event {
    type V = Uf2EventView;

    open spec fn view(&self) -> Uf2EventView {
        match self {
            Uf2Event::Begin => Uf2EventView::Begin,
            Uf2Event::Settled => Uf2EventView::Settled,
            Uf2Event::Disks(disks) => Uf2EventView::Disks(disks.deep_view()),
            Uf2Event::Progress { copied, total } => Uf2EventView::Progress { copied: *copied, total: *total },
            Uf2Event::Copied { bytes } => Uf2EventView::Copied { bytes: *bytes },
            Uf2Event::CopyFailed(reason) => Uf2EventView::CopyFailed(reason@),
        }
    }
}

/// What a mass-storage install asks of the caller.
#[derive(Debug, PartialEq, Eq)]
pub enum Uf2Action {
    /// Wait this many seconds and report `Settled`.
    Wait { seconds: u64 },
    /// List the mounted disks and report `Disks`.
    ListDisks,
    /// Copy the firmware file into `directory` under `file_name`, through a
    /// buffer of `buffer_size` bytes; report `Progress` whenever the copy
    /// tells how far it is, and `Copied` or `CopyFailed` at its end.
    Copy { directory: String, file_name: String, buffer_size: usize },
    /// Go on with the copy that is under way.
    Continue,
    /// The install has ended: with the number of bytes written, or a failure.
    Finish(Result<u64, Error>),
}

/// A [`Uf2Action`] over sequences of characters.
pub enum Uf2ActionView {
    Wait { seconds: u64 },
    ListDisks,
    Copy { directory: Seq<char>, file_name: Seq<char>, buffer_size: usize },
    Continue,
    Finish(Result<u64, ErrorView>),
}

impl View for Uf2Action {
    type V = Uf2ActionView;

    open spec fn view(&self) -> Uf2ActionView {
        match self {
            Uf2Action::Wait { seconds } => Uf2ActionView::Wait { seconds: *seconds },
            Uf2Action::ListDisks => Uf2ActionView::ListDisks,
            Uf2Action::Copy { directory, file_name, buffer_size } => Uf2ActionView::Copy {
                directory: directory@,
                file_name: file_name@,
                buffer_size: *buffer_size,
            },
            Uf2Action::Continue => Uf2ActionView::Continue,
            Uf2Action::Finish(Ok(bytes)) => Uf2ActionView::Finish(Ok(*bytes)),
            Uf2Action::Finish(Err(e)) => Uf2ActionView::Finish(Err(e@)),
        }
    }
}

/// The failure that ends a mass-storage install. No sample goes with it.
pub open spec fn uf2_failed(failure: ErrorView) -> (Uf2State, Option<ProgressEvent>, Uf2ActionView) {
    (Uf2State::Done, None, Uf2ActionView::Finish(Err(failure)))
}

/// The count of a copy after `reported` bytes were reported for it: the
/// count moves to `reported` where that is further on and within `size`, to
/// `size` where `reported` is beyond it, and stays where `reported` is
/// behind it.
pub open spec fn count_after(copied: u64, size: u64, reported: u64) -> u64 {
    if reported <= copied {
        copied
    } else if reported <= size {
        reported
    } else {
        size
    }
}

/// One step of installing the firmware file named `file_name` through mass
/// storage: the next state, the sample to pass on, and the action to carry
/// out.
///
/// The wait comes first and is a single fixed delay, not a poll. Then the
/// disks are listed. Without a disk that is the target the install ends
/// with `NotFound`, whatever the file is called, and no copy is asked for.
/// With one, the file goes to the root of the first such disk under its own
/// name; a path that names no file ends the install there with an `IO`
/// failure, and no copy is asked for either.
///
/// During the copy each reported count gives a sample. The size named by
/// the first report is the total of every sample. The end of the copy gives
/// the sample that says that all of it is written.
pub open spec fn install_rpi_step(file_name: Seq<char>, state: Uf2State, event: Uf2EventView) -> (
    Uf2State,
    Option<ProgressEvent>,
    Uf2ActionView,
) {
    match (state, event) {
        (Uf2State::Idle, Uf2EventView::Begin) => (
            Uf2State::Settling,
            None,
            Uf2ActionView::Wait { seconds: SETTLE_SECONDS },
        ),
        (Uf2State::Settling, Uf2EventView::Settled) => (Uf2State::Scanning, None, Uf2ActionView::ListDisks),
        (Uf2State::Scanning, Uf2EventView::Disks(disks)) => match target_disk(disks) {
            None => uf2_failed(ErrorView::NotFound(DISK_NOT_AVAILABLE@)),
            Some(i) => if file_name.len() == 0 {
                uf2_failed(ErrorView::IO(NO_FILE_NAME@))
            } else {
                (
                    Uf2State::Copying { copied: 0, total: None },
                    None,
                    Uf2ActionView::Copy {
                        directory: disks[i].mount_point,
                        file_name,
                        buffer_size: COPY_BUFFER_SIZE,
                    },
                )
            },
        },
        (Uf2State::Copying { copied, total }, Uf2EventView::Progress { copied: reported, total: named }) => {
            let size = match total {
                Some(size) => size,
                None => named,
            };
            let count = count_after(copied, size, reported);
            (
                Uf2State::Copying { copied: count, total: Some(size) },
                Some(ProgressEvent { transferred: count, total: Some(size) }),
                Uf2ActionView::Continue,
            )
        },
        (Uf2State::Copying { copied, total }, Uf2EventView::Copied { bytes }) => {
            let size = match total {
                Some(size) => size,
                None => bytes,
            };
            (
                Uf2State::Done,
                Some(ProgressEvent { transferred: size, total: Some(size) }),
                Uf2ActionView::Finish(Ok(bytes)),
            )
        },
        (Uf2State::Copying { copied, total }, Uf2EventView::CopyFailed(reason)) => uf2_failed(
            ErrorView::IO(UPLOAD_FAILED_PREFIX@ + reason),
        ),
        _ => uf2_failed(ErrorView::Protocol(OUT_OF_TURN@)),
    }
}

fn rpi_failed(failure: Error) -> (step: (Uf2State, Option<ProgressEvent>, Uf2Action))
    ensures
        step.0 == Uf2State::Done,
        step.1 is None,
        step.2@ == Uf2ActionView::Finish(Err(failure@)),
{
    (Uf2State::Done, None, Uf2Action::Finish(Err(failure)))
}

/// Takes one step of installing the firmware file named `file_name`
/// through mass storage.
pub fn install_rpi(file_name: &str, state: Uf2State, event: Uf2Event) -> (step: (
    Uf2State,
    Option<ProgressEvent>,
    Uf2Action,
))
    ensures
        step.0 == install_rpi_step(file_name@, state, event@).0,
        step.1 == install_rpi_step(file_name@, state, event@).1,
        step.2@ == install_rpi_step(file_name@, state, event@).2,
{
    match (state, event) {
        (Uf2State::Idle, Uf2Event::Begin) => (
            Uf2State::Settling,
            None,
            Uf2Action::Wait { seconds: SETTLE_SECONDS },
        ),
        (Uf2State::Settling, Uf2Event::Settled) => (Uf2State::Scanning, None, Uf2Action::ListDisks),
        (Uf2State::Scanning, Uf2Event::Disks(disks)) => match find_target_disk(&disks) {
            None => rpi_failed(Error::NotFound(String::from_str(DISK_NOT_AVAILABLE))),
            Some(i) => if file_name.is_empty() {
                rpi_failed(Error::IO(String::from_str(NO_FILE_NAME)))
            } else {
                (
                    Uf2State::Copying { copied: 0, total: None },
                    None,
                    Uf2Action::Copy {
                        directory: disks[i].mount_point.clone(),
                        file_name: String::from_str(file_name),
                        buffer_size: COPY_BUFFER_SIZE,
                    },
                )
            },
        },
        (Uf2State::Copying { copied, total }, Uf2Event::Progress { copied: reported, total: named }) => {
            let size: u64 = match total {
                Some(size) => size,
                None => named,
            };
            let count: u64 = if reported <= copied {
                copied
            } else if reported <= size {
                reported
            } else {
                size
            };
            (
                Uf2State::Copying { copied: count, total: Some(size) },
                Some(ProgressEvent { transferred: count, total: Some(size) }),
                Uf2Action::Continue,
            )
        },
        (Uf2State::Copying { copied, total }, Uf2Event::Copied { bytes }) => {
            let size: u64 = match total {
                Some(size) => size,
                None => bytes,
            };
            (Uf2State::Done, Some(ProgressEvent::complete(size)), Uf2Action::Finish(Ok(bytes)))
        },
        (Uf2State::Copying { copied, total }, Uf2Event::CopyFailed(reason)) => rpi_failed(
            Error::IO(join(UPLOAD_FAILED_PREFIX, reason.as_str())),
        ),
        _ => rpi_failed(Error::out_of_turn()),
    }
}

// ---------------------------------------------------------------------------
// DFU
// ---------------------------------------------------------------------------

/// The vendor of the Bridge in DFU mode.
pub const USB_BRIDGE_VENDOR_ID: u16 = 0x0483;

/// The product that the Bridge shows in DFU mode.
pub const USB_BRIDGE_PRODUCT_DFU_ID: u16 = 0xDF11;

/// Where in flash the firmware starts.
pub const DFUSE_DEFAULT_ADDRESS: u32 = 0x0800_0000;

/// The interface that is claimed for the transfer.
pub const DFU_INTERFACE: u8 = 0;

/// The alternate setting of that interface.
pub const DFU_ALT_SETTING: u8 = 0;

/// What the text of the failure to open the file starts with.
pub const OPEN_FAILED_PREFIX: &'static str = "could not open firmware file: ";

/// The text of the failure when no attached device is in DFU mode.
pub const DEVICE_NOT_FOUND: &'static str = "device not found";

/// What the text of a failed listing of the attached devices starts with.
pub const ENUMERATION_FAILED_PREFIX: &'static str = "unable to list devices: ";

/// What the text of a failed connection starts with.
pub const CONNECT_FAILED_PREFIX: &'static str = "unable to connect with device: ";

/// The text of the failure when the USB link breaks during the transfer.
pub const LINK_FAILED: &'static str = "unable to download firmware to device";

/// What the text of any other failure of the transfer starts with.
pub const WRITE_FAILED_PREFIX: &'static str = "could not write firmware to device: ";

/// What the text of a failed detach starts with.
pub const DETACH_FAILED_PREFIX: &'static str = "unable to detach device: ";

/// What the text of a failed bus reset starts with.
pub const RESET_FAILED_PREFIX: &'static str = "unable to reset device: ";

/// How an attached USB device names itself.
#[derive(Clone, Copy, Debug, PartialEq, Eq, Structural)]
pub struct UsbDeviceId {
    pub vendor_id: u16,
    pub product_id: u16,
}

/// The position of the first device in `devices` with these identifiers.
pub open spec fn matching_device(devices: Seq<UsbDeviceId>, vendor_id: u16, product_id: u16) -> Option<int> {
    first_index(devices, |d: UsbDeviceId| d.vendor_id == vendor_id && d.product_id == product_id)
}

/// `matching_device` gives the first device with the identifiers, and none
/// exactly where no device has them.
pub proof fn lemma_matching_device(devices: Seq<UsbDeviceId>, vendor_id: u16, product_id: u16)
    ensures
        match matching_device(devices, vendor_id, product_id) {
            Some(i) => {
                &&& 0 <= i < devices.len()
                &&& devices[i].vendor_id == vendor_id
                &&& devices[i].product_id == product_id
                &&& forall|j: int|
                    0 <= j < i ==> !((#[trigger] devices[j]).vendor_id == vendor_id && devices[j].product_id
                        == product_id)
            },
            None => forall|j: int|
                0 <= j < devices.len() ==> !((#[trigger] devices[j]).vendor_id == vendor_id
                    && devices[j].product_id == product_id),
        },
{
    lemma_first_index(devices, |d: UsbDeviceId| d.vendor_id == vendor_id && d.product_id == product_id);
}

/// Finds the first attached device with the given identifiers.
pub fn find_device(devices: &Vec<UsbDeviceId>, vendor_id: u16, product_id: u16) -> (found: Option<usize>)
    ensures
        match found {
            Some(i) => matching_device(devices@, vendor_id, product_id) == Some(i as int),
            None => matching_device(devices@, vendor_id, product_id) is None,
        },
        found matches Some(i) ==> i < devices.len(),
{
    let ghost wanted = |d: UsbDeviceId| d.vendor_id == vendor_id && d.product_id == product_id;
    let mut i: usize = 0;
    while i < devices.len()
        invariant
            i <= devices.len(),
            wanted == |d: UsbDeviceId| d.vendor_id == vendor_id && d.product_id == product_id,
            first_index(devices@.take(i as int), wanted) is None,
        decreases devices.len() - i,
    {
        proof {
            lemma_first_index_next(devices@, i as int, wanted);
        }
        if devices[i].vendor_id == vendor_id && devices[i].product_id == product_id {
            proof {
                lemma_first_index_found(devices@, i + 1, wanted);
            }
            return Some(i);
        }
        i += 1;
    }
    assert(devices@.take(i as int) == devices@);
    None
}

/// Where a DFU install stands.
#[derive(Clone, Copy, Debug, PartialEq, Eq, Structural)]
pub enum DfuState {
    /// Nothing was asked yet.
    Idle,
    /// The firmware file is being opened.
    OpeningFile,
    /// The file holds `length` bytes; the attached devices are being listed.
    Enumerating { length: u32 },
    /// The device is being opened and its interface claimed.
    Connecting { length: u32 },
    /// The firmware is on its way to the device: `sent` of its `length`
    /// bytes are known to be there.
    Transferring { length: u32, sent: u32 },
    /// The firmware is on the device; the device is being detached.
    Detaching,
    /// The device is detached; the bus is being reset.
    Resetting,
    /// The install has ended.
    Done,
}

impl DfuState {
    /// The state can come up in an install: the count of a transfer is
    /// within the length of the file.
    pub open spec fn wf(self) -> bool {
        match self {
            DfuState::Transferring { length, sent } => sent <= length,
            _ => true,
        }
    }
}

/// What the caller reports to a DFU install.
#[derive(Debug, PartialEq, Eq)]
pub enum DfuEvent {
    /// The install is started.
    Begin,
    /// The firmware file is open and holds this many bytes.
    FileOpened { length: u64 },
    /// The firmware file could not be opened, or its length could not be
    /// read.
    FileFailed(String),
    /// These devices are attached.
    Devices(Vec<UsbDeviceId>),
    /// The attached devices could not be listed.
    EnumerationFailed(String),
    /// The device is open, its interface is claimed and the DFU session is
    /// set up.
    Connected,
    /// Opening the device, claiming the interface or setting up the session
    /// failed.
    ConnectFailed(String),
    /// The transfer goes on: a chunk of this many bytes has just been
    /// written.
    Progress { chunk: u64 },
    /// Every byte has been transferred.
    Transferred,
    /// The transfer failed on the USB link itself.
    LinkFailed,
    /// The transfer failed for another reason.
    TransferFailed(String),
    /// The device has been detached.
    Detached,
    /// The detach request failed.
    DetachFailed(String),
    /// The bus has been reset.
    ResetDone,
    /// The bus reset failed.
    ResetFailed(String),
}

/// A [`DfuEvent`] over sequences.
pub enum DfuEventView {
    Begin,
    FileOpened { length: u64 },
    FileFailed(Seq<char>),
    Devices(Seq<UsbDeviceId>),
    EnumerationFailed(Seq<char>),
    Connected,
    ConnectFailed(Seq<char>),
    Progress { chunk: u64 },
    Transferred,
    LinkFailed,
    TransferFailed(Seq<char>),
    Detached,
    DetachFailed(Seq<char>),
    ResetDone,
    ResetFailed(Seq<char>),
}

impl View for DfuEvent {
    type V = DfuEventView;

    open spec fn view(&self) -> DfuEventView {
        match self {
            DfuEvent::Begin => DfuEventView::Begin,
            DfuEvent::FileOpened { length } => DfuEventView::FileOpened { length: *length },
            DfuEvent::FileFailed(reason) => DfuEventView::FileFailed(reason@),
            DfuEvent::Devices(devices) => DfuEventView::Devices(devices@),
            DfuEvent::EnumerationFailed(reason) => DfuEventView::EnumerationFailed(reason@),
            DfuEvent::Connected => DfuEventView::Connected,
            DfuEvent::ConnectFailed(reason) => DfuEventView::ConnectFailed(reason@),
            DfuEvent::Progress { chunk } => DfuEventView::Progress { chunk: *chunk },
            DfuEvent::Transferred => DfuEventView::Transferred,
            DfuEvent::LinkFailed => DfuEventView::LinkFailed,
            DfuEvent::TransferFailed(reason) => DfuEventView::TransferFailed(reason@),
            DfuEvent::Detached => DfuEventView::Detached,
            DfuEvent::DetachFailed(reason) => DfuEventView::DetachFailed(reason@),
            DfuEvent::ResetDone => DfuEventView::ResetDone,
            DfuEvent::ResetFailed(reason) => DfuEventView::ResetFailed(reason@),
        }
    }
}

/// What a DFU install asks of the caller.
#[derive(Debug, PartialEq, Eq)]
pub enum DfuAction {
    /// Open the firmware file and report `FileOpened` or `FileFailed`.
    OpenFile,
    /// List the attached USB devices and report `Devices` or
    /// `EnumerationFailed`.
    ListDevices,
    /// Open the device at this position of the list, claim `interface`,
    /// select `alt` and report `Connected` or `ConnectFailed`.
    Connect { device: usize, interface: u8, alt: u8 },
    /// Transfer `length` bytes of the file to `address`; report `Progress`
    /// for every chunk that is written, and `Transferred`, `LinkFailed` or
    /// `TransferFailed` at the end.
    Download { length: u32, address: u32 },
    /// Go on with the transfer that is under way.
    Continue,
    /// Send the detach request and report `Detached` or `DetachFailed`.
    Detach,
    /// Reset the bus and report `ResetDone` or `ResetFailed`.
    Reset,
    /// The install has ended.
    Finish(Result<(), Error>),
}

/// A [`DfuAction`] over sequences of characters.
pub enum DfuActionView {
    OpenFile,
    ListDevices,
    Connect { device: usize, interface: u8, alt: u8 },
    Download { length: u32, address: u32 },
    Continue,
    Detach,
    Reset,
    Finish(Result<(), ErrorView>),
}

impl View for DfuAction {
    type V = DfuActionView;

    open spec fn view(&self) -> DfuActionView {
        match self {
            DfuAction::OpenFile => DfuActionView::OpenFile,
            DfuAction::ListDevices => DfuActionView::ListDevices,
            DfuAction::Connect { device, interface, alt } => DfuActionView::Connect {
                device: *device,
                interface: *interface,
                alt: *alt,
            },
            DfuAction::Download { length, address } => DfuActionView::Download {
                length: *length,
                address: *address,
            },
            DfuAction::Continue => DfuActionView::Continue,
            DfuAction::Detach => DfuActionView::Detach,
            DfuAction::Reset => DfuActionView::Reset,
            DfuAction::Finish(Ok(())) => DfuActionView::Finish(Ok(())),
            DfuAction::Finish(Err(e)) => DfuActionView::Finish(Err(e@)),
        }
    }
}

/// The failure that ends a DFU install. No sample goes with it.
pub open spec fn dfu_failed(failure: ErrorView) -> (DfuState, Option<ProgressEvent>, DfuActionView) {
    (DfuState::Done, None, DfuActionView::Finish(Err(failure)))
}

/// The count of a transfer of `length` bytes after a chunk was written:
/// the chunk is added, and a chunk that would take the count past the
/// length takes it to the length.
pub open spec fn sent_after(sent: u32, length: u32, chunk: u64) -> u32 {
    if sent <= length && chunk <= length - sent {
        (sent + chunk) as u32
    } else {
        length
    }
}

/// One step of a DFU install: the next state, the sample to pass on, and
/// the action to carry out.
///
/// The file is opened first and must fit a transfer, whose length is a
/// 32-bit number. The device is the first attached one that shows the
/// identifiers of DFU mode. The whole file is transferred once to the fixed
/// start address. After the transfer the device is detached and the bus is
/// reset; a failure of either ends the install with that failure, although
/// the firmware is on the device by then. The install succeeds only when
/// transfer, detach and reset all did.
///
/// During the transfer each chunk gives a sample, whose total is the length
/// of the file. The end of the transfer gives the sample that says that all
/// of it is sent.
pub open spec fn install_bridge_step(state: DfuState, event: DfuEventView) -> (
    DfuState,
    Option<ProgressEvent>,
    DfuActionView,
) {
    match (state, event) {
        (DfuState::Idle, DfuEventView::Begin) => (DfuState::OpeningFile, None, DfuActionView::OpenFile),
        (DfuState::OpeningFile, DfuEventView::FileFailed(reason)) => dfu_failed(
            ErrorView::IO(OPEN_FAILED_PREFIX@ + reason),
        ),
        (DfuState::OpeningFile, DfuEventView::FileOpened { length }) => if length <= u32::MAX {
            (DfuState::Enumerating { length: length as u32 }, None, DfuActionView::ListDevices)
        } else {
            dfu_failed(ErrorView::TooLarge(length))
        },
        (DfuState::Enumerating { length }, DfuEventView::EnumerationFailed(reason)) => dfu_failed(
            ErrorView::Usb(ENUMERATION_FAILED_PREFIX@ + reason),
        ),
        (DfuState::Enumerating { length }, DfuEventView::Devices(devices)) => match matching_device(
            devices,
            USB_BRIDGE_VENDOR_ID,
            USB_BRIDGE_PRODUCT_DFU_ID,
        ) {
            Some(i) => (
                DfuState::Connecting { length },
                None,
                DfuActionView::Connect {
                    device: i as usize,
                    interface: DFU_INTERFACE,
                    alt: DFU_ALT_SETTING,
                },
            ),
            None => dfu_failed(ErrorView::NotFound(DEVICE_NOT_FOUND@)),
        },
        (DfuState::Connecting { length }, DfuEventView::ConnectFailed(reason)) => dfu_failed(
            ErrorView::Usb(CONNECT_FAILED_PREFIX@ + reason),
        ),
        (DfuState::Connecting { length }, DfuEventView::Connected) => (
            DfuState::Transferring { length, sent: 0 },
            None,
            DfuActionView::Download { length, address: DFUSE_DEFAULT_ADDRESS },
        ),
        (DfuState::Transferring { length, sent }, DfuEventView::Progress { chunk }) => {
            let count = sent_after(sent, length, chunk);
            (
                DfuState::Transferring { length, sent: count },
                Some(ProgressEvent { transferred: count as u64, total: Some(length as u64) }),
                DfuActionView::Continue,
            )
        },
        (DfuState::Transferring { length, sent }, DfuEventView::LinkFailed) => dfu_failed(
            ErrorView::Usb(LINK_FAILED@),
        ),
        (DfuState::Transferring { length, sent }, DfuEventView::TransferFailed(reason)) => dfu_failed(
            ErrorView::Protocol(WRITE_FAILED_PREFIX@ + reason),
        ),
        (DfuState::Transferring { length, sent }, DfuEventView::Transferred) => (
            DfuState::Detaching,
            Some(ProgressEvent { transferred: length as u64, total: Some(length as u64) }),
            DfuActionView::Detach,
        ),
        (DfuState::Detaching, DfuEventView::DetachFailed(reason)) => dfu_failed(
            ErrorView::Usb(DETACH_FAILED_PREFIX@ + reason),
        ),
        (DfuState::Detaching, DfuEventView::Detached) => (DfuState::Resetting, None, DfuActionView::Reset),
        (DfuState::Resetting, DfuEventView::ResetFailed(reason)) => dfu_failed(
            ErrorView::Usb(RESET_FAILED_PREFIX@ + reason),
        ),
        (DfuState::Resetting, DfuEventView::ResetDone) => (
            DfuState::Done,
            None,
            DfuActionView::Finish(Ok(())),
        ),
        _ => dfu_failed(ErrorView::Protocol(OUT_OF_TURN@)),
    }
}

fn failed(failure: Error) -> (step: (DfuState, Option<ProgressEvent>, DfuAction))
    ensures
        step.0 == DfuState::Done,
        step.1 is None,
        step.2@ == DfuActionView::Finish(Err(failure@)),
{
    (DfuState::Done, None, DfuAction::Finish(Err(failure)))
}

/// Takes one step of a DFU install.
pub fn install_bridge(state: DfuState, event: DfuEvent) -> (step: (
    DfuState,
    Option<ProgressEvent>,
    DfuAction,
))
    ensures
        step.0 == install_bridge_step(state, event@).0,
        step.1 == install_bridge_step(state, event@).1,
        step.2@ == install_bridge_step(state, event@).2,
{
    match (state, event) {
        (DfuState::Idle, DfuEvent::Begin) => (DfuState::OpeningFile, None, DfuAction::OpenFile),
        (DfuState::OpeningFile, DfuEvent::FileFailed(reason)) => failed(
            Error::IO(join(OPEN_FAILED_PREFIX, reason.as_str())),
        ),
        (DfuState::OpeningFile, DfuEvent::FileOpened { length }) => if length <= u32::MAX as u64 {
            (DfuState::Enumerating { length: length as u32 }, None, DfuAction::ListDevices)
        } else {
            failed(Error::TooLarge(length))
        },
        (DfuState::Enumerating { length }, DfuEvent::EnumerationFailed(reason)) => failed(
            Error::Usb(join(ENUMERATION_FAILED_PREFIX, reason.as_str())),
        ),
        (DfuState::Enumerating { length }, DfuEvent::Devices(devices)) => match find_device(
            &devices,
            USB_BRIDGE_VENDOR_ID,
            USB_BRIDGE_PRODUCT_DFU_ID,
        ) {
            Some(i) => (
                DfuState::Connecting { length },
                None,
                DfuAction::Connect { device: i, interface: DFU_INTERFACE, alt: DFU_ALT_SETTING },
            ),
            None => failed(Error::NotFound(String::from_str(DEVICE_NOT_FOUND))),
        },
        (DfuState::Connecting { length }, DfuEvent::ConnectFailed(reason)) => failed(
            Error::Usb(join(CONNECT_FAILED_PREFIX, reason.as_str())),
        ),
        (DfuState::Connecting { length }, DfuEvent::Connected) => (
            DfuState::Transferring { length, sent: 0 },
            None,
            DfuAction::Download { length, address: DFUSE_DEFAULT_ADDRESS },
        ),
        (DfuState::Transferring { length, sent }, DfuEvent::Progress { chunk }) => {
            let count: u32 = if sent <= length && chunk <= (length - sent) as u64 {
                sent + chunk as u32
            } else {
                length
            };
            (
                DfuState::Transferring { length, sent: count },
                Some(ProgressEvent { transferred: count as u64, total: Some(length as u64) }),
                DfuAction::Continue,
            )
        },
        (DfuState::Transferring { length, sent }, DfuEvent::LinkFailed) => failed(
            Error::Usb(String::from_str(LINK_FAILED)),
        ),
        (DfuState::Transferring { length, sent }, DfuEvent::TransferFailed(reason)) => failed(
            Error::Protocol(join(WRITE_FAILED_PREFIX, reason.as_str())),
        ),
        (DfuState::Transferring { length, sent }, DfuEvent::Transferred) => (
            DfuState::Detaching,
            Some(ProgressEvent::complete(length as u64)),
            DfuAction::Detach,
        ),
        (DfuState::Detaching, DfuEvent::DetachFailed(reason)) => failed(
            Error::Usb(join(DETACH_FAILED_PREFIX, reason.as_str())),
        ),
        (DfuState::Detaching, DfuEvent::Detached) => (DfuState::Resetting, None, DfuAction::Reset),
        (DfuState::Resetting, DfuEvent::ResetFailed(reason)) => failed(
            Error::Usb(join(RESET_FAILED_PREFIX, reason.as_str())),
        ),
        (DfuState::Resetting, DfuEvent::ResetDone) => (DfuState::Done, None, DfuAction::Finish(Ok(()))),
        _ => failed(Error::out_of_turn()),
    }
}

// ---------------------------------------------------------------------------
// What holds of every install
// ---------------------------------------------------------------------------

/// The samples of a transfer are in order from the count `floor` on: each
/// names a total, the same as the one before it and as `total` where that
/// is known, and a count that is no smaller than the one before it, no
/// smaller than `floor`, and within the total.
pub open spec fn in_order(samples: Seq<ProgressEvent>, floor: u64, total: Option<u64>) -> bool
    decreases samples.len(),
{
    if samples.len() == 0 {
        true
    } else {
        let first = samples.first();
        &&& first.total is Some
        &&& total is Some ==> first.total == total
        &&& floor <= first.transferred
        &&& first.transferred <= first.total->0
        &&& in_order(samples.drop_first(), first.transferred, first.total)
    }
}

/// Of samples in order, any later one has the total of any earlier one and
/// a count that is no smaller.
pub proof fn lemma_in_order(samples: Seq<ProgressEvent>, floor: u64, total: Option<u64>, i: int, j: int)
    requires
        in_order(samples, floor, total),
        0 <= i <= j < samples.len(),
    ensures
        samples[i].total is Some,
        samples[i].total == samples[j].total,
        total is Some ==> samples[i].total == total,
        floor <= samples[i].transferred <= samples[j].transferred <= samples[j].total->0,
    decreases samples.len(),
{
    let rest = samples.drop_first();
    if i == 0 {
        if j > 0 {
            lemma_in_order(rest, samples[0].transferred, samples[0].total, j - 1, j - 1);
        }
    } else {
        lemma_in_order(rest, samples[0].transferred, samples[0].total, i - 1, j - 1);
    }
}

impl Uf2State {
    /// How far the install has come.
    pub open spec fn rank(self) -> nat {
        match self {
            Uf2State::Idle => 0,
            Uf2State::Settling => 1,
            Uf2State::Scanning => 2,
            Uf2State::Copying { .. } => 3,
            Uf2State::Done => 4,
        }
    }

    /// The count from which the samples of the rest of the install go on.
    pub open spec fn floor(self) -> u64 {
        match self {
            Uf2State::Copying { copied, .. } => copied,
            _ => 0,
        }
    }

    /// The total of the samples of the rest of the install, where it is
    /// known.
    pub open spec fn total(self) -> Option<u64> {
        match self {
            Uf2State::Copying { total, .. } => total,
            _ => None,
        }
    }
}

/// A mass-storage install never goes back: each step reaches the state that
/// comes next or ends the install, and only a report of progress leaves it
/// in the copy that is under way. The install has ended exactly when the
/// action is `Finish`, and every state it reaches is one that can come up.
pub proof fn lemma_install_rpi_advances(file_name: Seq<char>, state: Uf2State, event: Uf2EventView)
    ensures
        install_rpi_step(file_name, state, event).0 == Uf2State::Done || install_rpi_step(
            file_name,
            state,
            event,
        ).0.rank() == state.rank() + 1 || (state is Copying && event is Progress && install_rpi_step(
            file_name,
            state,
            event,
        ).0 is Copying),
        install_rpi_step(file_name, state, event).0 == Uf2State::Done <==> install_rpi_step(
            file_name,
            state,
            event,
        ).2 is Finish,
        state.wf() ==> install_rpi_step(file_name, state, event).0.wf(),
{
}

/// A copy is asked for only when the file has a name and the listed disks
/// hold the target, and then into the mount point of the first such disk,
/// under the file's own name.
pub proof fn lemma_copy_needs_target(file_name: Seq<char>, state: Uf2State, event: Uf2EventView)
    requires
        install_rpi_step(file_name, state, event).2 is Copy,
    ensures
        file_name.len() > 0,
        state == Uf2State::Scanning,
        event is Disks,
        target_disk(event->Disks_0) is Some,
        install_rpi_step(file_name, state, event).2 == (Uf2ActionView::Copy {
            directory: event->Disks_0[target_disk(
                event->Disks_0,
            )->0].mount_point,
            file_name,
            buffer_size: COPY_BUFFER_SIZE,
        }),
        install_rpi_step(file_name, state, event).0 == (Uf2State::Copying { copied: 0, total: None }),
{
}

/// For a path that names no file the install waits and lists the disks as
/// for any other. Where the target is among them it ends with an `IO`
/// failure, where it is not with `NotFound`; and no step of it asks for a
/// copy.
pub proof fn lemma_no_name_no_copy(disks: Seq<DiskView>, state: Uf2State, event: Uf2EventView)
    ensures
        install_rpi_step(Seq::<char>::empty(), Uf2State::Idle, Uf2EventView::Begin) == (
            Uf2State::Settling,
            None::<ProgressEvent>,
            Uf2ActionView::Wait { seconds: SETTLE_SECONDS },
        ),
        install_rpi_step(Seq::<char>::empty(), Uf2State::Scanning, Uf2EventView::Disks(disks)) == uf2_failed(
            if target_disk(disks) is Some {
                ErrorView::IO(NO_FILE_NAME@)
            } else {
                ErrorView::NotFound(DISK_NOT_AVAILABLE@)
            },
        ),
        !(install_rpi_step(Seq::<char>::empty(), state, event).2 is Copy),
{
}

/// Without the target among the listed disks the install ends with
/// `NotFound`, whatever the file is called, and nothing is copied then or
/// later: an ended install answers every further event with a failure.
pub proof fn lemma_no_target_no_copy(file_name: Seq<char>, disks: Seq<DiskView>, later: Uf2EventView)
    requires
        target_disk(disks) is None,
    ensures
        install_rpi_step(file_name, Uf2State::Scanning, Uf2EventView::Disks(disks)) == uf2_failed(
            ErrorView::NotFound(DISK_NOT_AVAILABLE@),
        ),
        install_rpi_step(file_name, Uf2State::Done, later) == uf2_failed(ErrorView::Protocol(OUT_OF_TURN@)),
{
}

/// A mass-storage install reports success only for a completed copy, with
/// the number of bytes that the copy reported, and hands back with it the
/// sample that says that the transfer is complete.
pub proof fn lemma_install_rpi_success(file_name: Seq<char>, state: Uf2State, event: Uf2EventView)
    ensures
        install_rpi_step(file_name, state, event).2 is Finish ==> (install_rpi_step(
            file_name,
            state,
            event,
        ).2->Finish_0 is Ok <==> state is Copying && event is Copied),
        state is Copying && event is Copied ==> {
            &&& install_rpi_step(file_name, state, event).2 == Uf2ActionView::Finish(Ok(event->Copied_bytes))
            &&& install_rpi_step(file_name, state, event).1 is Some
            &&& install_rpi_step(file_name, state, event).1->0.is_complete()
        },
{
}

/// The samples that an install hands back when it is in `state` and the
/// caller reports `events` one after the other.
pub open spec fn install_rpi_samples(file_name: Seq<char>, state: Uf2State, events: Seq<Uf2EventView>) -> Seq<
    ProgressEvent,
>
    decreases events.len(),
{
    if events.len() == 0 {
        Seq::empty()
    } else {
        let step = install_rpi_step(file_name, state, events.first());
        let rest = install_rpi_samples(file_name, step.0, events.drop_first());
        match step.1 {
            Some(sample) => seq![sample] + rest,
            None => rest,
        }
    }
}

/// Whether an install that is in `state` reports success while the caller
/// reports `events` one after the other.
pub open spec fn install_rpi_succeeds(file_name: Seq<char>, state: Uf2State, events: Seq<Uf2EventView>) -> bool
    decreases events.len(),
{
    if events.len() == 0 {
        false
    } else {
        let step = install_rpi_step(file_name, state, events.first());
        (step.2 is Finish && step.2->Finish_0 is Ok) || install_rpi_succeeds(
            file_name,
            step.0,
            events.drop_first(),
        )
    }
}

/// Whatever the caller reports, and in whatever order, the samples of a
/// mass-storage install are in order: one total, and counts that never go
/// back and stay within it. Where the install reports success there is a
/// sample, and the last one says that the transfer is complete.
pub proof fn lemma_install_rpi_samples(file_name: Seq<char>, state: Uf2State, events: Seq<Uf2EventView>)
    requires
        state.wf(),
    ensures
        in_order(install_rpi_samples(file_name, state, events), state.floor(), state.total()),
        state == Uf2State::Done ==> install_rpi_samples(file_name, state, events).len() == 0,
        install_rpi_succeeds(file_name, state, events) ==> {
            &&& install_rpi_samples(file_name, state, events).len() > 0
            &&& install_rpi_samples(file_name, state, events).last().is_complete()
        },
    decreases events.len(),
{
    if events.len() > 0 {
        let step = install_rpi_step(file_name, state, events.first());
        let rest = install_rpi_samples(file_name, step.0, events.drop_first());
        lemma_install_rpi_advances(file_name, state, events.first());
        lemma_install_rpi_samples(file_name, step.0, events.drop_first());
        match step.1 {
            Some(sample) => {
                let all = seq![sample] + rest;
                assert(all.first() == sample);
                assert(all.drop_first() =~= rest);
                assert(in_order(rest, sample.transferred, sample.total));
                if rest.len() > 0 {
                    assert(all.last() == rest.last());
                }
            },
            None => {
                if rest.len() > 0 {
                    lemma_in_order_from_lower(rest, step.0.floor(), step.0.total(), state.floor(), state.total());
                }
                assert(in_order(rest, state.floor(), state.total()));
            },
        }
    }
}

/// Samples that are in order from a count and under a total are in order
/// from every smaller count, and under no total where the first is told.
proof fn lemma_in_order_from_lower(
    samples: Seq<ProgressEvent>,
    floor: u64,
    total: Option<u64>,
    lower: u64,
    looser: Option<u64>,
)
    requires
        in_order(samples, floor, total),
        lower <= floor,
        looser is None || looser == total,
    ensures
        in_order(samples, lower, looser),
{
}

impl DfuState {
    /// How far the install has come.
    pub open spec fn rank(self) -> nat {
        match self {
            DfuState::Idle => 0,
            DfuState::OpeningFile => 1,
            DfuState::Enumerating { .. } => 2,
            DfuState::Connecting { .. } => 3,
            DfuState::Transferring { .. } => 4,
            DfuState::Detaching => 5,
            DfuState::Resetting => 6,
            DfuState::Done => 7,
        }
    }

    /// The transfer has begun: the firmware is on its way, or the install
    /// is past that.
    pub open spec fn transfer_begun(self) -> bool {
        self.rank() >= 4
    }

    /// The transfer is over: the install is past it.
    pub open spec fn transfer_over(self) -> bool {
        self.rank() >= 5
    }

    /// The count from which the samples of the rest of the install go on.
    pub open spec fn floor(self) -> u64 {
        match self {
            DfuState::Transferring { sent, .. } => sent as u64,
            _ => 0,
        }
    }

    /// The total of the samples of the rest of the install, where it is
    /// known.
    pub open spec fn total(self) -> Option<u64> {
        match self {
            DfuState::Enumerating { length } => Some(length as u64),
            DfuState::Connecting { length } => Some(length as u64),
            DfuState::Transferring { length, .. } => Some(length as u64),
            _ => None,
        }
    }
}

/// A DFU install never goes back: each step reaches the state that comes
/// next or ends the install, and only a report of progress leaves it in the
/// transfer that is under way. The install has ended exactly when the
/// action is `Finish`, and every state it reaches is one that can come up.
pub proof fn lemma_install_bridge_advances(state: DfuState, event: DfuEventView)
    ensures
        install_bridge_step(state, event).0 == DfuState::Done || install_bridge_step(state, event).0.rank()
            == state.rank() + 1 || (state is Transferring && event is Progress && install_bridge_step(
            state,
            event,
        ).0 is Transferring),
        install_bridge_step(state, event).0 == DfuState::Done <==> install_bridge_step(
            state,
            event,
        ).2 is Finish,
        state.wf() ==> install_bridge_step(state, event).0.wf(),
{
}

/// The firmware is sent only when the device has just been connected, with
/// the length of the file and the fixed start address.
pub proof fn lemma_download_needs_connection(state: DfuState, event: DfuEventView)
    requires
        install_bridge_step(state, event).2 is Download,
    ensures
        state is Connecting,
        event is Connected,
        install_bridge_step(state, event).0 == (DfuState::Transferring {
            length: state->Connecting_length,
            sent: 0,
        }),
        install_bridge_step(state, event).2 == (DfuActionView::Download {
            length: state->Connecting_length,
            address: DFUSE_DEFAULT_ADDRESS,
        }),
{
}

/// A DFU install reports success only when the bus reset succeeded, which
/// is asked for only after a successful detach, which is asked for only
/// after a successful transfer; and the step that asks for the detach hands
/// back the sample that says that the transfer is complete.
pub proof fn lemma_install_bridge_success(state: DfuState, event: DfuEventView)
    ensures
        install_bridge_step(state, event).2 == DfuActionView::Finish(Ok(())) <==> state
            == DfuState::Resetting && event is ResetDone,
        install_bridge_step(state, event).2 is Reset <==> state == DfuState::Detaching && event is Detached,
        install_bridge_step(state, event).2 is Detach <==> state is Transferring && event is Transferred,
        install_bridge_step(state, event).2 is Detach ==> {
            &&& install_bridge_step(state, event).1 is Some
            &&& install_bridge_step(state, event).1->0.is_complete()
            &&& install_bridge_step(state, event).1->0.total == Some(state->Transferring_length as u64)
        },
{
}

/// The actions that an install asks for when it is in `state` and the
/// caller reports `events` one after the other.
pub open spec fn install_bridge_run(state: DfuState, events: Seq<DfuEventView>) -> Seq<DfuActionView>
    decreases events.len(),
{
    if events.len() == 0 {
        Seq::empty()
    } else {
        let step = install_bridge_step(state, events.first());
        seq![step.2] + install_bridge_run(step.0, events.drop_first())
    }
}

/// The samples that an install hands back when it is in `state` and the
/// caller reports `events` one after the other.
pub open spec fn install_bridge_samples(state: DfuState, events: Seq<DfuEventView>) -> Seq<ProgressEvent>
    decreases events.len(),
{
    if events.len() == 0 {
        Seq::empty()
    } else {
        let step = install_bridge_step(state, events.first());
        let rest = install_bridge_samples(step.0, events.drop_first());
        match step.1 {
            Some(sample) => seq![sample] + rest,
            None => rest,
        }
    }
}

/// How many of the actions send the firmware.
pub open spec fn downloads(actions: Seq<DfuActionView>) -> nat
    decreases actions.len(),
{
    if actions.len() == 0 {
        0
    } else {
        downloads(actions.drop_last()) + if actions.last() is Download {
            1nat
        } else {
            0nat
        }
    }
}

proof fn lemma_downloads_prepend(action: DfuActionView, rest: Seq<DfuActionView>)
    ensures
        downloads(seq![action] + rest) == downloads(rest) + if action is Download {
            1nat
        } else {
            0nat
        },
    decreases rest.len(),
{
    let all = seq![action] + rest;
    if rest.len() == 0 {
        assert(all.drop_last() =~= Seq::<DfuActionView>::empty());
        assert(downloads(all.drop_last()) == 0);
    } else {
        assert(all.drop_last() =~= seq![action] + rest.drop_last());
        lemma_downloads_prepend(action, rest.drop_last());
    }
}

/// Whatever the caller reports, and in whatever order, an install sends the
/// firmware at most once; from the moment the transfer is under way it is
/// never sent again, also not when detach or reset fail.
pub proof fn lemma_firmware_sent_once(state: DfuState, events: Seq<DfuEventView>)
    ensures
        downloads(install_bridge_run(state, events)) <= 1,
        state.transfer_begun() ==> downloads(install_bridge_run(state, events)) == 0,
    decreases events.len(),
{
    if events.len() > 0 {
        let step = install_bridge_step(state, events.first());
        lemma_install_bridge_advances(state, events.first());
        lemma_firmware_sent_once(step.0, events.drop_first());
        lemma_downloads_prepend(step.2, install_bridge_run(step.0, events.drop_first()));
    }
}

/// Whether an install that is in `state` comes to the end of its transfer,
/// and so asks for the detach, while the caller reports `events` one after
/// the other.
pub open spec fn install_bridge_transfers(state: DfuState, events: Seq<DfuEventView>) -> bool
    decreases events.len(),
{
    if events.len() == 0 {
        false
    } else {
        let step = install_bridge_step(state, events.first());
        step.2 is Detach || install_bridge_transfers(step.0, events.drop_first())
    }
}

/// Whatever the caller reports, and in whatever order, the samples of a DFU
/// install are in order: one total, which is the length of the file, and
/// counts that never go back and stay within it. Once the transfer is over
/// no sample follows. Where the install comes to the end of its transfer
/// there is a sample, and the last one says that the transfer is complete.
pub proof fn lemma_install_bridge_samples(state: DfuState, events: Seq<DfuEventView>)
    requires
        state.wf(),
    ensures
        in_order(install_bridge_samples(state, events), state.floor(), state.total()),
        state.transfer_over() ==> install_bridge_samples(state, events).len() == 0,
        state.transfer_over() ==> !install_bridge_transfers(state, events),
        install_bridge_transfers(state, events) ==> {
            &&& install_bridge_samples(state, events).len() > 0
            &&& install_bridge_samples(state, events).last().is_complete()
        },
    decreases events.len(),
{
    if events.len() > 0 {
        let step = install_bridge_step(state, events.first());
        let rest = install_bridge_samples(step.0, events.drop_first());
        lemma_install_bridge_advances(state, events.first());
        lemma_install_bridge_samples(step.0, events.drop_first());
        match step.1 {
            Some(sample) => {
                let all = seq![sample] + rest;
                assert(all.first() == sample);
                assert(all.drop_first() =~= rest);
                assert(in_order(rest, sample.transferred, sample.total));
                if rest.len() > 0 {
                    assert(all.last() == rest.last());
                }
            },
            None => {
                if rest.len() > 0 {
                    lemma_in_order_from_lower(rest, step.0.floor(), step.0.total(), state.floor(), state.total());
                }
                assert(in_order(rest, state.floor(), state.total()));
            },
        }
    }
}

} // verus!
