use firmware_updater::commands::github::{
    fetch_compatable_asset, temp_file_name, DownloadAction, DownloadEvent, DownloadState,
};
use firmware_updater::device::{ConnectedDevice, ConnectedDeviceType};
use firmware_updater::error::Error;
use firmware_updater::github::{Asset, Release};
use firmware_updater::http::HttpRequest;
use reqwest::header::{HeaderMap, HeaderValue};

fn download_device(device_type: ConnectedDeviceType) -> ConnectedDevice {
    ConnectedDevice {
        id: String::from("usb-3"),
        vendor_id: 1,
        product_id: 2,
        description: None,
        serial_number: None,
        device_type,
    }
}

fn two_family_release() -> Release {
    Release {
        tag_name: String::from("v2.1.0"),
        assets: vec![
            Asset {
                name: String::from("bridge4_v2.1.0.bin"),
                browser_download_url: String::from("https://dl.test/a/bridge4_v2.1.0.bin"),
            },
            Asset {
                name: String::from("bridge6_v2.1.0.bin"),
                browser_download_url: String::from("https://dl.test/b/bridge6_v2.1.0.bin"),
            },
        ],
    }
}

fn agent() -> HeaderMap {
    let mut map = HeaderMap::new();
    map.insert("user-agent", HeaderValue::from_static("reqwest"));
    map
}

fn no_asset() -> Error {
    Error::NotFound(String::from("unable to find compatible asset from release!"))
}

#[test]
fn temp_file_name_is_time_hyphen_name() {
    assert_eq!(temp_file_name(1700000000123, "bridge6.bin"), "1700000000123-bridge6.bin");
    assert_eq!(temp_file_name(0, "x"), "0-x");
    assert_eq!(temp_file_name(42, ""), "42-");
    assert_eq!(temp_file_name(9, "1-2"), "9-1-2");
}

#[test]
fn temp_file_names_of_two_downloads_differ() {
    let name = "click_v1.uf2";
    assert_ne!(temp_file_name(1700000000123, name), temp_file_name(1700000000124, name));
    assert_ne!(temp_file_name(1, name), temp_file_name(11, name));
    assert_ne!(temp_file_name(5, "a"), temp_file_name(5, "b"));
    assert_ne!(temp_file_name(1, "1-a"), temp_file_name(11, "a"));
    assert_ne!(temp_file_name(1, "1-a"), temp_file_name(1, "-1-a"));
    let mut seen: Vec<String> = Vec::new();
    for t in [0u128, 1, 9, 10, 11, 99, 100, 101, u128::MAX] {
        for n in ["", "a", "-", "0", "0-a", "-0"] {
            let f = temp_file_name(t, n);
            assert!(!seen.contains(&f));
            seen.push(f);
        }
    }
}

#[test]
fn fetch_asset_selects_the_asset_of_the_device_family() {
    let r = two_family_release();
    let d = download_device(ConnectedDeviceType::Bridge6);
    let (state, action) = fetch_compatable_asset(&d, &r, None, DownloadState::Idle, DownloadEvent::Begin);
    assert_eq!(state, DownloadState::AwaitingStatus);
    assert_eq!(
        action,
        DownloadAction::Send(HttpRequest {
            url: String::from("https://dl.test/b/bridge6_v2.1.0.bin"),
            headers: agent(),
        })
    );
    let (state, action) = fetch_compatable_asset(&d, &r, None, state, DownloadEvent::Status(200));
    assert_eq!((state, &action), (DownloadState::AwaitingBody, &DownloadAction::ReadBody));
    let (state, action) = fetch_compatable_asset(&d, &r, None, state, DownloadEvent::BodyRead { millis: 1234 });
    assert_eq!(state, DownloadState::Saving);
    assert_eq!(action, DownloadAction::Save { file_name: String::from("1234-bridge6_v2.1.0.bin") });
    let (state, action) = fetch_compatable_asset(
        &d,
        &r,
        None,
        state,
        DownloadEvent::Saved(String::from("/tmp/1234-bridge6_v2.1.0.bin")),
    );
    assert_eq!(state, DownloadState::Done);
    assert_eq!(action, DownloadAction::Finish(Ok(String::from("/tmp/1234-bridge6_v2.1.0.bin"))));
}

#[test]
fn fetch_asset_for_the_other_family_selects_the_other_asset() {
    let r = two_family_release();
    let d = download_device(ConnectedDeviceType::Bridge4);
    let (_, action) = fetch_compatable_asset(&d, &r, Some("k"), DownloadState::Idle, DownloadEvent::Begin);
    assert_eq!(
        action,
        DownloadAction::Send(HttpRequest {
            url: String::from("https://dl.test/a/bridge4_v2.1.0.bin"),
            headers: {
                let mut map = agent();
                map.insert("authorization", HeaderValue::from_static("Bearer k"));
                map
            },
        })
    );
}

#[test]
fn fetch_asset_without_a_compatible_asset_is_not_found() {
    let r = two_family_release();
    for t in [
        ConnectedDeviceType::Click,
        ConnectedDeviceType::ULoop,
        ConnectedDeviceType::BridgeBootloader,
        ConnectedDeviceType::RPBootloader,
        ConnectedDeviceType::Unknown,
    ] {
        let d = download_device(t);
        let (state, action) = fetch_compatable_asset(&d, &r, None, DownloadState::Idle, DownloadEvent::Begin);
        assert_eq!(state, DownloadState::Done);
        assert_eq!(action, DownloadAction::Finish(Err(no_asset())));
    }
    let empty = Release { tag_name: String::from("v0"), assets: Vec::new() };
    let d = download_device(ConnectedDeviceType::Bridge6);
    let (state, action) = fetch_compatable_asset(&d, &empty, None, DownloadState::Idle, DownloadEvent::Begin);
    assert_eq!(state, DownloadState::Done);
    assert_eq!(action, DownloadAction::Finish(Err(no_asset())));
}

#[test]
fn fetch_asset_without_a_compatible_asset_never_asks_for_a_request() {
    let r = two_family_release();
    let d = download_device(ConnectedDeviceType::Click);
    let states = [
        DownloadState::Idle,
        DownloadState::AwaitingStatus,
        DownloadState::AwaitingBody,
        DownloadState::Saving,
        DownloadState::Done,
    ];
    for s in states {
        let events = vec![
            DownloadEvent::Begin,
            DownloadEvent::SendFailed(String::from("e")),
            DownloadEvent::Status(200),
            DownloadEvent::BodyFailed(String::from("e")),
            DownloadEvent::BodyRead { millis: 1 },
            DownloadEvent::ClockFailed(String::from("e")),
            DownloadEvent::SaveFailed(String::from("e")),
            DownloadEvent::Saved(String::from("p")),
        ];
        for e in events {
            let (_, action) = fetch_compatable_asset(&d, &r, None, s, e);
            assert!(!matches!(action, DownloadAction::Send(_)));
            assert!(!matches!(action, DownloadAction::Save { .. }));
        }
    }
}

#[test]
fn fetch_asset_fails_closed_when_the_device_changes_before_saving() {
    let r = two_family_release();
    let d = download_device(ConnectedDeviceType::Unknown);
    let (state, action) =
        fetch_compatable_asset(&d, &r, None, DownloadState::AwaitingBody, DownloadEvent::BodyRead { millis: 7 });
    assert_eq!(state, DownloadState::Done);
    assert_eq!(action, DownloadAction::Finish(Err(no_asset())));
}

#[test]
fn fetch_asset_tells_network_failures_from_file_failures() {
    let r = two_family_release();
    let d = download_device(ConnectedDeviceType::Bridge6);
    let (_, action) = fetch_compatable_asset(
        &d,
        &r,
        None,
        DownloadState::AwaitingStatus,
        DownloadEvent::SendFailed(String::from("timeout")),
    );
    assert_eq!(action, DownloadAction::Finish(Err(Error::Transport(String::from("timeout")))));
    let (_, action) = fetch_compatable_asset(
        &d,
        &r,
        None,
        DownloadState::AwaitingBody,
        DownloadEvent::BodyFailed(String::from("connection reset")),
    );
    assert_eq!(action, DownloadAction::Finish(Err(Error::Transport(String::from("connection reset")))));
    let (state, action) = fetch_compatable_asset(
        &d,
        &r,
        None,
        DownloadState::Saving,
        DownloadEvent::SaveFailed(String::from("disk full")),
    );
    assert_eq!(state, DownloadState::Done);
    assert_eq!(action, DownloadAction::Finish(Err(Error::IO(String::from("disk full")))));
}

#[test]
fn fetch_asset_reports_an_unreadable_clock_as_io() {
    let r = two_family_release();
    let d = download_device(ConnectedDeviceType::Bridge6);
    let (state, action) = fetch_compatable_asset(
        &d,
        &r,
        None,
        DownloadState::AwaitingBody,
        DownloadEvent::ClockFailed(String::from("second time provided was later than self")),
    );
    assert_eq!(state, DownloadState::Done);
    assert_eq!(
        action,
        DownloadAction::Finish(Err(Error::IO(String::from(
            "could not read the clock: second time provided was later than self"
        ))))
    );
}

#[test]
fn fetch_asset_reads_the_status_of_the_download() {
    let r = two_family_release();
    let d = download_device(ConnectedDeviceType::Bridge6);
    let (_, action) =
        fetch_compatable_asset(&d, &r, None, DownloadState::AwaitingStatus, DownloadEvent::Status(404));
    assert_eq!(action, DownloadAction::Finish(Err(Error::Http(404))));
    let (_, action) =
        fetch_compatable_asset(&d, &r, None, DownloadState::AwaitingStatus, DownloadEvent::Status(429));
    assert_eq!(action, DownloadAction::Finish(Err(Error::RateLimited(429))));
}

#[test]
fn fetch_asset_reads_the_body_on_every_success_status() {
    let r = two_family_release();
    let d = download_device(ConnectedDeviceType::Bridge6);
    for status in [200u16, 203, 299] {
        let (state, action) =
            fetch_compatable_asset(&d, &r, None, DownloadState::AwaitingStatus, DownloadEvent::Status(status));
        assert_eq!((state, &action), (DownloadState::AwaitingBody, &DownloadAction::ReadBody));
    }
    let (_, action) =
        fetch_compatable_asset(&d, &r, None, DownloadState::AwaitingStatus, DownloadEvent::Status(300));
    assert_eq!(action, DownloadAction::Finish(Err(Error::Http(300))));
}

#[test]
fn fetch_asset_ends_on_an_event_out_of_turn() {
    let r = two_family_release();
    let d = download_device(ConnectedDeviceType::Bridge6);
    let cases = vec![
        (DownloadState::Idle, DownloadEvent::Status(200)),
        (DownloadState::Idle, DownloadEvent::Saved(String::from("p"))),
        (DownloadState::AwaitingStatus, DownloadEvent::Begin),
        (DownloadState::AwaitingStatus, DownloadEvent::BodyRead { millis: 1 }),
        (DownloadState::AwaitingBody, DownloadEvent::Saved(String::from("p"))),
        (DownloadState::Saving, DownloadEvent::BodyRead { millis: 1 }),
        (DownloadState::Done, DownloadEvent::Begin),
    ];
    for (s, e) in cases {
        let (state, action) = fetch_compatable_asset(&d, &r, None, s, e);
        assert_eq!(state, DownloadState::Done);
        assert_eq!(
            action,
            DownloadAction::Finish(Err(Error::Protocol(String::from("event reported out of turn"))))
        );
    }
}
