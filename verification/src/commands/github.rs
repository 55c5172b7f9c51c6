//! The release catalog client and the asset downloader.
//!
//! Both operations are step functions. The caller starts with the `Idle`
//! state and the `Begin` event, carries out the action that comes back,
//! reports what happened as the next event, and goes on until the action is
//! `Finish`. An event that the operation did not ask for ends it with a
//! failure.

use vstd::prelude::*;
use crate::device::{ConnectedDevice, ConnectedDeviceType};
use crate::error::{Error, ErrorView, OUT_OF_TURN};
use crate::github::{
    compatible_releases, find_compatible_asset, first_compatible, lemma_first_compatible,
    lemma_usable_iff_first, lemma_usable_releases, usable_releases, Release, ReleaseView,
};
use crate::http::{
    build_headers, check_status, headers_for, status_failure, HttpRequest, HttpRequestView,
};
use crate::text::{
    decimal, decimal_string, is_digit, join, join3, lemma_decimal_digits, lemma_decimal_injective,
};

verus! {

/// Where the release catalog is reached.
pub const GITHUB_API_URL: &'static str = "https://api.github.com";

/// The owner of the firmware repositories.
pub const GITHUB_ORG: &'static str = "Pirate-MIDI";

/// The text of the failure for a device type without a release channel.
pub const NO_RELEASES: &'static str = "github releases do not exist for this device type";

/// What the text of the failure to read the clock starts with.
pub const CLOCK_FAILED_PREFIX: &'static str = "could not read the clock: ";

/// The text of the failure for a release without an asset for the device.
pub const NO_COMPATIBLE_ASSET: &'static str = "unable to find compatible asset from release!";

// ---------------------------------------------------------------------------
// Requests
// ---------------------------------------------------------------------------

/// Which page of a listing to ask for, and how many releases a page holds.
#[derive(Clone, Copy, Debug, PartialEq, Eq, Structural)]
pub struct Query {
    pub per_page: u32,
    pub page: u32,
}

/// What a query adds to the address of a listing. Without a query nothing
/// is added, and the catalog answers with one page of its own size.
pub open spec fn query_suffix(query: Option<Query>) -> Seq<char> {
    match query {
        Some(q) => "?per_page="@ + decimal(q.per_page as nat) + "&page="@ + decimal(q.page as nat),
        None => Seq::empty(),
    }
}

/// The address of the release listing of the repository `repo`.
pub open spec fn listing_url(repo: Seq<char>, query: Option<Query>) -> Seq<char> {
    GITHUB_API_URL@ + "/repos/"@ + GITHUB_ORG@ + "/"@ + repo + "/releases"@ + query_suffix(query)
}

/// The request that lists the releases of `repo`.
pub fn release_request(repo: &str, token: Option<&str>, query: Option<Query>) -> (request: HttpRequest)
    ensures
        request@.url == listing_url(repo@, query),
        request@.headers == headers_for(token.deep_view()),
{
    let mut url = String::from_str(GITHUB_API_URL);
    url.append("/repos/");
    url.append(GITHUB_ORG);
    url.append("/");
    url.append(repo);
    url.append("/releases");
    match query {
        Some(q) => {
            let per_page = decimal_string(q.per_page as u128);
            let page = decimal_string(q.page as u128);
            let ghost head = url@;
            url.append("?per_page=");
            url.append(per_page.as_str());
            url.append("&page=");
            url.append(page.as_str());
            assert(url@ == head + query_suffix(query));
        },
        None => {
            assert(url@ + query_suffix(query) == url@);
        },
    }
    HttpRequest { url, headers: build_headers(token) }
}

// ---------------------------------------------------------------------------
// Listing the releases
// ---------------------------------------------------------------------------

/// Where a listing stands.
#[derive(Clone, Copy, Debug, PartialEq, Eq, Structural)]
pub enum FetchState {
    /// Nothing was asked yet.
    Idle,
    /// The request is on its way.
    AwaitingStatus,
    /// The response is a success; its body is being read.
    AwaitingListing,
    /// The operation has ended.
    Done,
}

/// What the caller reports to a listing.
#[derive(Debug, PartialEq, Eq)]
pub enum FetchEvent {
    /// The operation is started.
    Begin,
    /// No response came: name resolution, connection or timeout failed.
    SendFailed(String),
    /// A response came, with this status.
    Status(u16),
    /// The body could not be read to its end.
    BodyFailed(String),
    /// The body was read and is not a release listing.
    Malformed(String),
    /// The body was read, and these are the releases in it, in its order.
    Listing(Vec<Release>),
}

/// A [`FetchEvent`] over sequences.
pub enum FetchEventView {
    Begin,
    SendFailed(Seq<char>),
    Status(u16),
    BodyFailed(Seq<char>),
    Malformed(Seq<char>),
    Listing(Seq<ReleaseView>),
}

impl View for FetchEvent {
    type V = FetchEventView;

    open spec fn view(&self) -> FetchEventView {
        match self {
            FetchEvent::Begin => FetchEventView::Begin,
            FetchEvent::SendFailed(reason) => FetchEventView::SendFailed(reason@),
            FetchEvent::Status(status) => FetchEventView::Status(*status),
            FetchEvent::BodyFailed(reason) => FetchEventView::BodyFailed(reason@),
            FetchEvent::Malformed(reason) => FetchEventView::Malformed(reason@),
            FetchEvent::Listing(releases) => FetchEventView::Listing(releases.deep_view()),
        }
    }
}

/// What a listing asks of the caller.
#[derive(Debug, PartialEq, Eq)]
pub enum FetchAction {
    /// Send this request and report `SendFailed` or `Status`.
    Send(HttpRequest),
    /// Read the body of the response and report `BodyFailed`, `Malformed`
    /// or `Listing`.
    ReadListing,
    /// The operation has ended with this result.
    Finish(Result<Vec<Release>, Error>),
}

/// A [`FetchAction`] over sequences.
pub enum FetchActionView {
    Send(HttpRequestView),
    ReadListing,
    Finish(Result<Seq<ReleaseView>, ErrorView>),
}

impl View for FetchAction {
    type V = FetchActionView;

    open spec fn view(&self) -> FetchActionView {
        match self {
            FetchAction::Send(request) => FetchActionView::Send(request@),
            FetchAction::ReadListing => FetchActionView::ReadListing,
            FetchAction::Finish(Ok(releases)) => FetchActionView::Finish(Ok(releases.deep_view())),
            FetchAction::Finish(Err(e)) => FetchActionView::Finish(Err(e@)),
        }
    }
}

/// One step of listing the releases of `repo` for a device of the given
/// type: the next state and the action to carry out.
pub open spec fn get_releases_step(
    device_type: ConnectedDeviceType,
    repo: Seq<char>,
    token: Option<Seq<char>>,
    state: FetchState,
    event: FetchEventView,
) -> (FetchState, FetchActionView) {
    match (state, event) {
        (FetchState::Idle, FetchEventView::Begin) => (
            FetchState::AwaitingStatus,
            FetchActionView::Send(
                HttpRequestView { url: listing_url(repo, None), headers: headers_for(token) },
            ),
        ),
        (FetchState::AwaitingStatus, FetchEventView::SendFailed(reason)) => (
            FetchState::Done,
            FetchActionView::Finish(Err(ErrorView::Transport(reason))),
        ),
        (FetchState::AwaitingStatus, FetchEventView::Status(status)) => match status_failure(status) {
            None => (FetchState::AwaitingListing, FetchActionView::ReadListing),
            Some(failure) => (FetchState::Done, FetchActionView::Finish(Err(failure))),
        },
        (FetchState::AwaitingListing, FetchEventView::BodyFailed(reason)) => (
            FetchState::Done,
            FetchActionView::Finish(Err(ErrorView::Transport(reason))),
        ),
        (FetchState::AwaitingListing, FetchEventView::Malformed(reason)) => (
            FetchState::Done,
            FetchActionView::Finish(Err(ErrorView::Parse(reason))),
        ),
        (FetchState::AwaitingListing, FetchEventView::Listing(releases)) => (
            FetchState::Done,
            FetchActionView::Finish(Ok(usable_releases(releases, device_type))),
        ),
        _ => (FetchState::Done, FetchActionView::Finish(Err(ErrorView::Protocol(OUT_OF_TURN@)))),
    }
}

/// One step of listing the releases for a device of the given type. A
/// device type without a repository ends the operation at once, whatever
/// the state and the event; no request is ever asked for.
pub open spec fn fetch_releases_step(
    device_type: ConnectedDeviceType,
    token: Option<Seq<char>>,
    state: FetchState,
    event: FetchEventView,
) -> (FetchState, FetchActionView) {
    match device_type.repository_of() {
        Some(repo) => get_releases_step(device_type, repo, token, state, event),
        None => (FetchState::Done, FetchActionView::Finish(Err(ErrorView::Unsupported(NO_RELEASES@)))),
    }
}

/// Takes one step of listing the releases of the repository `repo` that
/// `device` can use.
pub fn get_releases(
    device: &ConnectedDevice,
    repo: &str,
    token: Option<&str>,
    state: FetchState,
    event: FetchEvent,
) -> (step: (FetchState, FetchAction))
    ensures
        step.0 == get_releases_step(device.device_type, repo@, token.deep_view(), state, event@).0,
        step.1@ == get_releases_step(device.device_type, repo@, token.deep_view(), state, event@).1,
{
    match (state, event) {
        (FetchState::Idle, FetchEvent::Begin) => (
            FetchState::AwaitingStatus,
            FetchAction::Send(release_request(repo, token, None)),
        ),
        (FetchState::AwaitingStatus, FetchEvent::SendFailed(reason)) => (
            FetchState::Done,
            FetchAction::Finish(Err(Error::Transport(reason))),
        ),
        (FetchState::AwaitingStatus, FetchEvent::Status(status)) => match check_status(status) {
            Ok(()) => (FetchState::AwaitingListing, FetchAction::ReadListing),
            Err(failure) => (FetchState::Done, FetchAction::Finish(Err(failure))),
        },
        (FetchState::AwaitingListing, FetchEvent::BodyFailed(reason)) => (
            FetchState::Done,
            FetchAction::Finish(Err(Error::Transport(reason))),
        ),
        (FetchState::AwaitingListing, FetchEvent::Malformed(reason)) => (
            FetchState::Done,
            FetchAction::Finish(Err(Error::Parse(reason))),
        ),
        (FetchState::AwaitingListing, FetchEvent::Listing(releases)) => (
            FetchState::Done,
            FetchAction::Finish(Ok(compatible_releases(device, releases))),
        ),
        _ => (FetchState::Done, FetchAction::Finish(Err(Error::out_of_turn()))),
    }
}

/// Takes one step of listing the releases that `device` can use. For a
/// device in a bootloader, or an unknown one, the step ends the operation
/// with `Unsupported` and asks for no request.
pub fn fetch_releases(
    device: &ConnectedDevice,
    token: Option<&str>,
    state: FetchState,
    event: FetchEvent,
) -> (step: (FetchState, FetchAction))
    ensures
        step.0 == fetch_releases_step(device.device_type, token.deep_view(), state, event@).0,
        step.1@ == fetch_releases_step(device.device_type, token.deep_view(), state, event@).1,
{
    match device.device_type.repository() {
        Some(repo) => get_releases(device, repo, token, state, event),
        None => (
            FetchState::Done,
            FetchAction::Finish(Err(Error::Unsupported(String::from_str(NO_RELEASES)))),
        ),
    }
}

// ---------------------------------------------------------------------------
// Downloading the asset
// ---------------------------------------------------------------------------

/// The name of the local file that receives an asset: the time of the
/// download in milliseconds, a hyphen, and the asset's own name.
pub open spec fn temp_file_name_of(millis: nat, asset_name: Seq<char>) -> Seq<char> {
    decimal(millis) + seq!['-'] + asset_name
}

/// Builds the name of the local file that receives an asset.
pub fn temp_file_name(millis: u128, asset_name: &str) -> (name: String)
    ensures
        name@ == temp_file_name_of(millis as nat, asset_name@),
{
    let stamp = decimal_string(millis);
    proof {
        reveal_strlit("-");
        assert("-"@ == seq!['-']);
    }
    join3(stamp.as_str(), "-", asset_name)
}

/// A file name determines the time and the asset name it was built from.
pub proof fn lemma_temp_file_name_injective(t1: nat, n1: Seq<char>, t2: nat, n2: Seq<char>)
    requires
        temp_file_name_of(t1, n1) == temp_file_name_of(t2, n2),
    ensures
        t1 == t2,
        n1 == n2,
{
    let d1 = decimal(t1);
    let d2 = decimal(t2);
    let f1 = temp_file_name_of(t1, n1);
    let f2 = temp_file_name_of(t2, n2);
    lemma_decimal_digits(t1);
    lemma_decimal_digits(t2);
    assert(f1[d1.len() as int] == '-');
    assert(f2[d2.len() as int] == '-');
    if d1.len() < d2.len() {
        assert(f2[d1.len() as int] == d2[d1.len() as int]);
        assert(is_digit(d2[d1.len() as int]));
    } else if d2.len() < d1.len() {
        assert(f1[d2.len() as int] == d1[d2.len() as int]);
        assert(is_digit(d1[d2.len() as int]));
    } else {
        assert(d1 =~= f1.take(d1.len() as int));
        assert(d2 =~= f2.take(d2.len() as int));
        lemma_decimal_injective(t1, t2);
        assert(n1 =~= f1.skip(d1.len() as int + 1));
        assert(n2 =~= f2.skip(d2.len() as int + 1));
    }
}

/// Two downloads that differ in their time or in the name of their asset
/// are written to files of different names.
pub proof fn lemma_temp_file_names_differ(t1: nat, n1: Seq<char>, t2: nat, n2: Seq<char>)
    requires
        t1 != t2 || n1 != n2,
    ensures
        temp_file_name_of(t1, n1) != temp_file_name_of(t2, n2),
{
    if temp_file_name_of(t1, n1) == temp_file_name_of(t2, n2) {
        lemma_temp_file_name_injective(t1, n1, t2, n2);
    }
}

/// Where a download stands.
#[derive(Clone, Copy, Debug, PartialEq, Eq, Structural)]
pub enum DownloadState {
    /// Nothing was asked yet.
    Idle,
    /// The request is on its way.
    AwaitingStatus,
    /// The response is a success; its body is being read.
    AwaitingBody,
    /// The body is being written to the local file.
    Saving,
    /// The operation has ended.
    Done,
}

/// What the caller reports to a download.
#[derive(Debug, PartialEq, Eq)]
pub enum DownloadEvent {
    /// The operation is started.
    Begin,
    /// No response came.
    SendFailed(String),
    /// A response came, with this status.
    Status(u16),
    /// The body could not be read to its end.
    BodyFailed(String),
    /// The whole body is in memory; the clock then showed this many
    /// milliseconds since the Unix epoch.
    BodyRead { millis: u128 },
    /// The whole body is in memory, but the clock could not be read.
    ClockFailed(String),
    /// The local file could not be created or written.
    SaveFailed(String),
    /// Every byte of the body is written to the file at this path.
    Saved(String),
}

/// A [`DownloadEvent`] over sequences.
pub enum DownloadEventView {
    Begin,
    SendFailed(Seq<char>),
    Status(u16),
    BodyFailed(Seq<char>),
    BodyRead { millis: u128 },
    ClockFailed(Seq<char>),
    SaveFailed(Seq<char>),
    Saved(Seq<char>),
}

impl View for DownloadEvent {
    type V = DownloadEventView;

    open spec fn view(&self) -> DownloadEventView {
        match self {
            DownloadEvent::Begin => DownloadEventView::Begin,
            DownloadEvent::SendFailed(reason) => DownloadEventView::SendFailed(reason@),
            DownloadEvent::Status(status) => DownloadEventView::Status(*status),
            DownloadEvent::BodyFailed(reason) => DownloadEventView::BodyFailed(reason@),
            DownloadEvent::BodyRead { millis } => DownloadEventView::BodyRead { millis: *millis },
            DownloadEvent::ClockFailed(reason) => DownloadEventView::ClockFailed(reason@),
            DownloadEvent::SaveFailed(reason) => DownloadEventView::SaveFailed(reason@),
            DownloadEvent::Saved(path) => DownloadEventView::Saved(path@),
        }
    }
}

/// What a download asks of the caller.
#[derive(Debug, PartialEq, Eq)]
pub enum DownloadAction {
    /// Send this request and report `SendFailed` or `Status`.
    Send(HttpRequest),
    /// Read the body of the response, then the clock, and report
    /// `BodyFailed`, `ClockFailed` or `BodyRead`.
    ReadBody,
    /// Create a file of this name in the directory for temporary files,
    /// write the body to it and report `SaveFailed` or `Saved`.
    Save { file_name: String },
    /// The operation has ended: with the path of the file, or a failure.
    Finish(Result<String, Error>),
}

/// A [`DownloadAction`] over sequences.
pub enum DownloadActionView {
    Send(HttpRequestView),
    ReadBody,
    Save { file_name: Seq<char> },
    Finish(Result<Seq<char>, ErrorView>),
}

impl View for DownloadAction {
    type V = DownloadActionView;

    open spec fn view(&self) -> DownloadActionView {
        match self {
            DownloadAction::Send(request) => DownloadActionView::Send(request@),
            DownloadAction::ReadBody => DownloadActionView::ReadBody,
            DownloadAction::Save { file_name } => DownloadActionView::Save { file_name: file_name@ },
            DownloadAction::Finish(Ok(path)) => DownloadActionView::Finish(Ok(path@)),
            DownloadAction::Finish(Err(e)) => DownloadActionView::Finish(Err(e@)),
        }
    }
}

/// One step of downloading the asset of `release` that fits a device of
/// the given type. The asset is chosen anew, by the same rule, at the start
/// and when the file is named; where no asset fits, the operation ends with
/// `NotFound`.
pub open spec fn fetch_compatable_asset_step(
    device_type: ConnectedDeviceType,
    release: ReleaseView,
    token: Option<Seq<char>>,
    state: DownloadState,
    event: DownloadEventView,
) -> (DownloadState, DownloadActionView) {
    let no_asset = (
        DownloadState::Done,
        DownloadActionView::Finish(Err(ErrorView::NotFound(NO_COMPATIBLE_ASSET@))),
    );
    match (state, event) {
        (DownloadState::Idle, DownloadEventView::Begin) => match first_compatible(release.assets, device_type) {
            Some(i) => (
                DownloadState::AwaitingStatus,
                DownloadActionView::Send(
                    HttpRequestView {
                        url: release.assets[i].browser_download_url,
                        headers: headers_for(token),
                    },
                ),
            ),
            None => no_asset,
        },
        (DownloadState::AwaitingStatus, DownloadEventView::SendFailed(reason)) => (
            DownloadState::Done,
            DownloadActionView::Finish(Err(ErrorView::Transport(reason))),
        ),
        (DownloadState::AwaitingStatus, DownloadEventView::Status(status)) => match status_failure(status) {
            None => (DownloadState::AwaitingBody, DownloadActionView::ReadBody),
            Some(failure) => (DownloadState::Done, DownloadActionView::Finish(Err(failure))),
        },
        (DownloadState::AwaitingBody, DownloadEventView::BodyFailed(reason)) => (
            DownloadState::Done,
            DownloadActionView::Finish(Err(ErrorView::Transport(reason))),
        ),
        (DownloadState::AwaitingBody, DownloadEventView::BodyRead { millis }) => match first_compatible(
            release.assets,
            device_type,
        ) {
            Some(i) => (
                DownloadState::Saving,
                DownloadActionView::Save {
                    file_name: temp_file_name_of(millis as nat, release.assets[i].name),
                },
            ),
            None => no_asset,
        },
        (DownloadState::AwaitingBody, DownloadEventView::ClockFailed(reason)) => (
            DownloadState::Done,
            DownloadActionView::Finish(Err(ErrorView::IO(CLOCK_FAILED_PREFIX@ + reason))),
        ),
        (DownloadState::Saving, DownloadEventView::SaveFailed(reason)) => (
            DownloadState::Done,
            DownloadActionView::Finish(Err(ErrorView::IO(reason))),
        ),
        (DownloadState::Saving, DownloadEventView::Saved(path)) => (
            DownloadState::Done,
            DownloadActionView::Finish(Ok(path)),
        ),
        _ => (DownloadState::Done, DownloadActionView::Finish(Err(ErrorView::Protocol(OUT_OF_TURN@)))),
    }
}

fn no_compatible_asset() -> (step: (DownloadState, DownloadAction))
    ensures
        step.0 == DownloadState::Done,
        step.1@ == DownloadActionView::Finish(Err(ErrorView::NotFound(NO_COMPATIBLE_ASSET@))),
{
    (
        DownloadState::Done,
        DownloadAction::Finish(Err(Error::NotFound(String::from_str(NO_COMPATIBLE_ASSET)))),
    )
}

/// Takes one step of downloading the asset of `release` that fits `device`.
pub fn fetch_compatable_asset(
    device: &ConnectedDevice,
    release: &Release,
    token: Option<&str>,
    state: DownloadState,
    event: DownloadEvent,
) -> (step: (DownloadState, DownloadAction))
    ensures
        step.0 == fetch_compatable_asset_step(
            device.device_type,
            release@,
            token.deep_view(),
            state,
            event@,
        ).0,
        step.1@ == fetch_compatable_asset_step(
            device.device_type,
            release@,
            token.deep_view(),
            state,
            event@,
        ).1,
{
    match (state, event) {
        (DownloadState::Idle, DownloadEvent::Begin) => match find_compatible_asset(device, release) {
            Some(i) => {
                let request = HttpRequest {
                    url: release.assets[i].browser_download_url.clone(),
                    headers: build_headers(token),
                };
                (DownloadState::AwaitingStatus, DownloadAction::Send(request))
            },
            None => no_compatible_asset(),
        },
        (DownloadState::AwaitingStatus, DownloadEvent::SendFailed(reason)) => (
            DownloadState::Done,
            DownloadAction::Finish(Err(Error::Transport(reason))),
        ),
        (DownloadState::AwaitingStatus, DownloadEvent::Status(status)) => match check_status(status) {
            Ok(()) => (DownloadState::AwaitingBody, DownloadAction::ReadBody),
            Err(failure) => (DownloadState::Done, DownloadAction::Finish(Err(failure))),
        },
        (DownloadState::AwaitingBody, DownloadEvent::BodyFailed(reason)) => (
            DownloadState::Done,
            DownloadAction::Finish(Err(Error::Transport(reason))),
        ),
        (DownloadState::AwaitingBody, DownloadEvent::BodyRead { millis }) => match find_compatible_asset(
            device,
            release,
        ) {
            Some(i) => {
                let file_name = temp_file_name(millis, release.assets[i].name.as_str());
                (DownloadState::Saving, DownloadAction::Save { file_name })
            },
            None => no_compatible_asset(),
        },
        (DownloadState::AwaitingBody, DownloadEvent::ClockFailed(reason)) => (
            DownloadState::Done,
            DownloadAction::Finish(Err(Error::IO(join(CLOCK_FAILED_PREFIX, reason.as_str())))),
        ),
        (DownloadState::Saving, DownloadEvent::SaveFailed(reason)) => (
            DownloadState::Done,
            DownloadAction::Finish(Err(Error::IO(reason))),
        ),
        (DownloadState::Saving, DownloadEvent::Saved(path)) => (
            DownloadState::Done,
            DownloadAction::Finish(Ok(path)),
        ),
        _ => (DownloadState::Done, DownloadAction::Finish(Err(Error::out_of_turn()))),
    }
}

// ---------------------------------------------------------------------------
// What holds of every listing and every download
// ---------------------------------------------------------------------------

impl FetchState {
    /// How far the listing has come.
    pub open spec fn rank(self) -> nat {
        match self {
            FetchState::Idle => 0,
            FetchState::AwaitingStatus => 1,
            FetchState::AwaitingListing => 2,
            FetchState::Done => 3,
        }
    }
}

impl DownloadState {
    /// How far the download has come.
    pub open spec fn rank(self) -> nat {
        match self {
            DownloadState::Idle => 0,
            DownloadState::AwaitingStatus => 1,
            DownloadState::AwaitingBody => 2,
            DownloadState::Saving => 3,
            DownloadState::Done => 4,
        }
    }
}

/// A listing never goes back and repeats nothing: each step reaches the
/// state that comes next or ends the listing, and the listing has ended
/// exactly when the action is `Finish`.
pub proof fn lemma_fetch_releases_advances(
    device_type: ConnectedDeviceType,
    token: Option<Seq<char>>,
    state: FetchState,
    event: FetchEventView,
)
    ensures
        fetch_releases_step(device_type, token, state, event).0 == FetchState::Done || fetch_releases_step(
            device_type,
            token,
            state,
            event,
        ).0.rank() == state.rank() + 1,
        fetch_releases_step(device_type, token, state, event).0 == FetchState::Done <==> fetch_releases_step(
            device_type,
            token,
            state,
            event,
        ).1 is Finish,
{
}

/// A download never goes back and repeats nothing: each step reaches the
/// state that comes next or ends the download, and the download has ended
/// exactly when the action is `Finish`.
pub proof fn lemma_fetch_compatable_asset_advances(
    device_type: ConnectedDeviceType,
    release: ReleaseView,
    token: Option<Seq<char>>,
    state: DownloadState,
    event: DownloadEventView,
)
    ensures
        fetch_compatable_asset_step(device_type, release, token, state, event).0 == DownloadState::Done
            || fetch_compatable_asset_step(device_type, release, token, state, event).0.rank()
            == state.rank() + 1,
        fetch_compatable_asset_step(device_type, release, token, state, event).0 == DownloadState::Done
            <==> fetch_compatable_asset_step(device_type, release, token, state, event).1 is Finish,
{
}

/// For a device in a bootloader, or an unknown one, every step of a listing
/// ends it with `Unsupported`: no request is ever asked for.
pub proof fn lemma_no_listing_without_channel(
    device_type: ConnectedDeviceType,
    token: Option<Seq<char>>,
    state: FetchState,
    event: FetchEventView,
)
    requires
        !device_type.is_application(),
    ensures
        fetch_releases_step(device_type, token, state, event) == (
            FetchState::Done,
            FetchActionView::Finish(Err(ErrorView::Unsupported(NO_RELEASES@))),
        ),
{
}

/// A listing asks for a request only at its start, only for a device with a
/// repository, and then for the listing of that repository with the
/// headers of the credential.
pub proof fn lemma_listing_request(
    device_type: ConnectedDeviceType,
    token: Option<Seq<char>>,
    state: FetchState,
    event: FetchEventView,
)
    requires
        fetch_releases_step(device_type, token, state, event).1 is Send,
    ensures
        device_type.repository_of() is Some,
        state == FetchState::Idle,
        event is Begin,
        fetch_releases_step(device_type, token, state, event).1 == FetchActionView::Send(
            HttpRequestView {
                url: listing_url(device_type.repository_of()->0, None),
                headers: headers_for(token),
            },
        ),
{
}

/// Every release that a listing returns has an asset that is compatible
/// with the device, and the releases returned are those of the catalog's
/// answer that have one, in the catalog's order.
pub proof fn lemma_listed_releases_are_usable(
    device_type: ConnectedDeviceType,
    token: Option<Seq<char>>,
    state: FetchState,
    event: FetchEventView,
)
    requires
        fetch_releases_step(device_type, token, state, event).1 is Finish,
        fetch_releases_step(device_type, token, state, event).1->Finish_0 is Ok,
    ensures
        state == FetchState::AwaitingListing,
        event is Listing,
        fetch_releases_step(device_type, token, state, event).1 == FetchActionView::Finish(
            Ok(usable_releases(event->Listing_0, device_type)),
        ),
        forall|i: int|
            0 <= i < usable_releases(event->Listing_0, device_type).len() ==> (
            #[trigger] usable_releases(event->Listing_0, device_type)[i]).is_usable(device_type),
{
    if device_type.repository_of() is Some {
        lemma_usable_releases(event->Listing_0, device_type);
    }
}

/// For a release without a compatible asset the download ends with
/// `NotFound` at its start, and no step of it asks for a request or for a
/// file to be written.
pub proof fn lemma_no_asset_no_download(
    device_type: ConnectedDeviceType,
    release: ReleaseView,
    token: Option<Seq<char>>,
    state: DownloadState,
    event: DownloadEventView,
)
    requires
        !release.is_usable(device_type),
    ensures
        fetch_compatable_asset_step(device_type, release, token, DownloadState::Idle, DownloadEventView::Begin)
            == (
            DownloadState::Done,
            DownloadActionView::Finish(Err(ErrorView::NotFound(NO_COMPATIBLE_ASSET@))),
        ),
        !(fetch_compatable_asset_step(device_type, release, token, state, event).1 is Send),
        !(fetch_compatable_asset_step(device_type, release, token, state, event).1 is Save),
{
    lemma_usable_iff_first(release, device_type);
}

/// Listing and download judge by the same rule: for a release that a
/// listing would keep, the download asks for the first asset that is
/// compatible with the device, and names the file after that asset.
pub proof fn lemma_download_agrees_with_listing(
    device_type: ConnectedDeviceType,
    release: ReleaseView,
    token: Option<Seq<char>>,
    millis: u128,
)
    requires
        release.is_usable(device_type),
    ensures
        first_compatible(release.assets, device_type) matches Some(i) && {
            &&& 0 <= i < release.assets.len()
            &&& release.assets[i].is_compatible(device_type)
            &&& forall|j: int| 0 <= j < i ==> !(#[trigger] release.assets[j]).is_compatible(device_type)
            &&& fetch_compatable_asset_step(
                device_type,
                release,
                token,
                DownloadState::Idle,
                DownloadEventView::Begin,
            ) == (
                DownloadState::AwaitingStatus,
                DownloadActionView::Send(
                    HttpRequestView {
                        url: release.assets[i].browser_download_url,
                        headers: headers_for(token),
                    },
                ),
            )
            &&& fetch_compatable_asset_step(
                device_type,
                release,
                token,
                DownloadState::AwaitingBody,
                DownloadEventView::BodyRead { millis },
            ) == (
                DownloadState::Saving,
                DownloadActionView::Save {
                    file_name: temp_file_name_of(millis as nat, release.assets[i].name),
                },
            )
        },
{
    lemma_usable_iff_first(release, device_type);
    lemma_first_compatible(release.assets, device_type);
}

/// A download reports success only for a file that was written, with the
/// path that was reported for it.
pub proof fn lemma_download_success(
    device_type: ConnectedDeviceType,
    release: ReleaseView,
    token: Option<Seq<char>>,
    state: DownloadState,
    event: DownloadEventView,
)
    ensures
        fetch_compatable_asset_step(device_type, release, token, state, event).1 is Finish ==> (
        fetch_compatable_asset_step(device_type, release, token, state, event).1->Finish_0 is Ok <==> state
            == DownloadState::Saving && event is Saved),
        state == DownloadState::Saving && event is Saved ==> fetch_compatable_asset_step(
            device_type,
            release,
            token,
            state,
            event,
        ).1 == DownloadActionView::Finish(Ok(event->Saved_0)),
{
}

} // verus!
