use firmware_updater::commands::github::{
    fetch_releases, get_releases, release_request, FetchAction, FetchEvent, FetchState, Query,
};
use firmware_updater::device::{ConnectedDevice, ConnectedDeviceType};
use firmware_updater::error::Error;
use firmware_updater::github::{Asset, Release};
use firmware_updater::http::{build_headers, check_status, HttpRequest};
use reqwest::header::{HeaderMap, HeaderValue};

fn catalog_device(device_type: ConnectedDeviceType) -> ConnectedDevice {
    ConnectedDevice {
        id: String::from("usb-7"),
        vendor_id: 0x0483,
        product_id: 0x5740,
        description: Some(String::from("Bridge")),
        serial_number: None,
        device_type,
    }
}

fn headers(pairs: &[(&'static str, &str)]) -> HeaderMap {
    let mut map = HeaderMap::new();
    for (name, value) in pairs {
        map.insert(*name, HeaderValue::from_str(value).unwrap());
    }
    map
}

fn catalog_release(tag: &str, names: &[&str]) -> Release {
    Release {
        tag_name: String::from(tag),
        assets: names
            .iter()
            .map(|n| Asset { name: String::from(*n), browser_download_url: format!("https://dl.test/{}", n) })
            .collect(),
    }
}

fn out_of_turn() -> Error {
    Error::Protocol(String::from("event reported out of turn"))
}

#[test]
fn headers_without_a_token_name_the_client_only() {
    assert_eq!(build_headers(None), headers(&[("user-agent", "reqwest")]));
}

#[test]
fn headers_with_a_token_carry_it_as_bearer() {
    assert_eq!(
        build_headers(Some("ghp_abc123")),
        headers(&[("user-agent", "reqwest"), ("authorization", "Bearer ghp_abc123")])
    );
    assert_eq!(
        build_headers(Some("")),
        headers(&[("user-agent", "reqwest"), ("authorization", "Bearer ")])
    );
    assert_eq!(
        build_headers(Some("tab\there")),
        headers(&[("user-agent", "reqwest"), ("authorization", "Bearer tab\there")])
    );
    assert_eq!(
        build_headers(Some("clé")),
        headers(&[("user-agent", "reqwest"), ("authorization", "Bearer clé")])
    );
}

#[test]
fn headers_hold_each_value_under_its_name() {
    let map = build_headers(Some("ghp_abc123"));
    assert_eq!(map.len(), 2);
    assert_eq!(map.keys_len(), 2);
    assert_eq!(map.get("user-agent").unwrap().as_bytes(), b"reqwest");
    assert_eq!(map.get("authorization").unwrap().as_bytes(), b"Bearer ghp_abc123");
    let plain = build_headers(None);
    assert_eq!(plain.len(), 1);
    assert_eq!(plain.get("user-agent").unwrap().as_bytes(), b"reqwest");
    assert!(plain.get("authorization").is_none());
    let utf8 = build_headers(Some("clé"));
    assert_eq!(utf8.get("authorization").unwrap().as_bytes(), "Bearer clé".as_bytes());
}

#[test]
fn headers_leave_out_a_token_that_cannot_be_sent() {
    assert_eq!(build_headers(Some("line\nbreak")), headers(&[("user-agent", "reqwest")]));
    assert_eq!(build_headers(Some("cr\r")), headers(&[("user-agent", "reqwest")]));
    assert_eq!(build_headers(Some("nul\0")), headers(&[("user-agent", "reqwest")]));
    assert_eq!(build_headers(Some("del\u{7f}")), headers(&[("user-agent", "reqwest")]));
    assert_eq!(build_headers(Some("\u{1f}")), headers(&[("user-agent", "reqwest")]));
}

#[test]
fn every_success_status_lets_the_body_be_read() {
    for status in [200u16, 201, 203, 204, 206, 250, 298, 299] {
        assert_eq!(check_status(status), Ok(()));
    }
}

#[test]
fn status_403_and_429_are_rate_limits() {
    assert_eq!(check_status(403), Err(Error::RateLimited(403)));
    assert_eq!(check_status(429), Err(Error::RateLimited(429)));
}

#[test]
fn every_other_status_is_an_http_failure_with_the_status() {
    for status in [0u16, 100, 199, 300, 301, 302, 400, 401, 402, 404, 428, 430, 500, 503, 999, u16::MAX] {
        assert_eq!(check_status(status), Err(Error::Http(status)));
    }
}

#[test]
fn release_request_addresses_the_listing_of_the_repository() {
    let request = release_request("some-repo", None, None);
    assert_eq!(
        request,
        HttpRequest {
            url: String::from("https://api.github.com/repos/Pirate-MIDI/some-repo/releases"),
            headers: headers(&[("user-agent", "reqwest")]),
        }
    );
}

#[test]
fn release_request_with_a_query_names_page_and_size() {
    let request = release_request("r", Some("t"), Some(Query { per_page: 30, page: 2 }));
    assert_eq!(request.url, "https://api.github.com/repos/Pirate-MIDI/r/releases?per_page=30&page=2");
    assert_eq!(
        request.headers,
        headers(&[("user-agent", "reqwest"), ("authorization", "Bearer t")])
    );
    let zero = release_request("r", None, Some(Query { per_page: 0, page: u32::MAX }));
    assert_eq!(zero.url, "https://api.github.com/repos/Pirate-MIDI/r/releases?per_page=0&page=4294967295");
}

#[test]
fn fetch_releases_is_unsupported_for_bootloaders_and_unknown() {
    let unsupported =
        || Error::Unsupported(String::from("github releases do not exist for this device type"));
    for t in [
        ConnectedDeviceType::BridgeBootloader,
        ConnectedDeviceType::RPBootloader,
        ConnectedDeviceType::Unknown,
    ] {
        let d = catalog_device(t);
        let (state, action) = fetch_releases(&d, None, FetchState::Idle, FetchEvent::Begin);
        assert_eq!(state, FetchState::Done);
        assert_eq!(action, FetchAction::Finish(Err(unsupported())));
        for s in [FetchState::Idle, FetchState::AwaitingStatus, FetchState::AwaitingListing, FetchState::Done] {
            let events = vec![
                FetchEvent::Begin,
                FetchEvent::SendFailed(String::from("x")),
                FetchEvent::Status(200),
                FetchEvent::BodyFailed(String::from("x")),
                FetchEvent::Malformed(String::from("x")),
                FetchEvent::Listing(vec![catalog_release("v1", &["bridge6.bin"])]),
            ];
            for e in events {
                let (state, action) = fetch_releases(&d, Some("token"), s, e);
                assert_eq!(state, FetchState::Done);
                assert_eq!(action, FetchAction::Finish(Err(unsupported())));
            }
        }
    }
}

#[test]
fn fetch_releases_asks_for_the_repository_of_the_device() {
    let cases = [
        (ConnectedDeviceType::Bridge4, "Pirate-MIDI-Features-Bug-Tracking"),
        (ConnectedDeviceType::Bridge6, "Pirate-MIDI-Features-Bug-Tracking"),
        (ConnectedDeviceType::Click, "CLiCK-Features-Bug-Tracking"),
        (ConnectedDeviceType::ULoop, "uLOOP-Features-Bug-Tracking"),
    ];
    for (t, repo) in cases {
        let (state, action) = fetch_releases(&catalog_device(t), None, FetchState::Idle, FetchEvent::Begin);
        assert_eq!(state, FetchState::AwaitingStatus);
        assert_eq!(
            action,
            FetchAction::Send(HttpRequest {
                url: format!("https://api.github.com/repos/Pirate-MIDI/{}/releases", repo),
                headers: headers(&[("user-agent", "reqwest")]),
            })
        );
    }
}

#[test]
fn fetch_releases_returns_the_release_with_an_asset_for_the_device() {
    let d = catalog_device(ConnectedDeviceType::Bridge6);
    let (state, action) = fetch_releases(&d, None, FetchState::Idle, FetchEvent::Begin);
    assert!(matches!(action, FetchAction::Send(_)));
    let (state, action) = fetch_releases(&d, None, state, FetchEvent::Status(200));
    assert_eq!((state, &action), (FetchState::AwaitingListing, &FetchAction::ReadListing));
    let listing = vec![catalog_release("v1.0.0", &["bridge6_v1.0.0.bin", "bridge4_v1.0.0.bin"])];
    let (state, action) = fetch_releases(&d, None, state, FetchEvent::Listing(listing.clone()));
    assert_eq!(state, FetchState::Done);
    assert_eq!(action, FetchAction::Finish(Ok(listing)));
}

#[test]
fn fetch_releases_reads_the_listing_on_every_success_status() {
    let d = catalog_device(ConnectedDeviceType::Bridge6);
    for status in [200u16, 203, 299] {
        let (state, action) = fetch_releases(&d, None, FetchState::AwaitingStatus, FetchEvent::Status(status));
        assert_eq!((state, &action), (FetchState::AwaitingListing, &FetchAction::ReadListing));
        let listing = vec![catalog_release("v1", &["bridge6.bin"]), catalog_release("v0", &["bridge4.bin"])];
        let (state, action) = fetch_releases(&d, None, state, FetchEvent::Listing(listing));
        assert_eq!(state, FetchState::Done);
        assert_eq!(action, FetchAction::Finish(Ok(vec![catalog_release("v1", &["bridge6.bin"])])));
    }
}

#[test]
fn fetch_releases_drops_releases_without_an_asset_for_the_device() {
    let d = catalog_device(ConnectedDeviceType::Click);
    let listing = vec![
        catalog_release("v3", &["click.uf2"]),
        catalog_release("v2", &["notes.md"]),
        catalog_release("v1", &["old-click.uf2", "other"]),
        catalog_release("v0", &[]),
    ];
    let (state, action) = fetch_releases(&d, None, FetchState::AwaitingListing, FetchEvent::Listing(listing));
    assert_eq!(state, FetchState::Done);
    assert_eq!(
        action,
        FetchAction::Finish(Ok(vec![
            catalog_release("v3", &["click.uf2"]),
            catalog_release("v1", &["old-click.uf2", "other"]),
        ]))
    );
}

#[test]
fn fetch_releases_of_an_empty_listing_is_empty() {
    let d = catalog_device(ConnectedDeviceType::ULoop);
    let (_, action) = fetch_releases(&d, None, FetchState::AwaitingListing, FetchEvent::Listing(Vec::new()));
    assert_eq!(action, FetchAction::Finish(Ok(Vec::new())));
}

#[test]
fn fetch_releases_reports_403_as_rate_limited() {
    let d = catalog_device(ConnectedDeviceType::Bridge4);
    let (state, action) = fetch_releases(&d, None, FetchState::AwaitingStatus, FetchEvent::Status(403));
    assert_eq!(state, FetchState::Done);
    assert_eq!(action, FetchAction::Finish(Err(Error::RateLimited(403))));
    assert_ne!(action, FetchAction::Finish(Err(Error::Http(403))));
    let (_, action) = fetch_releases(&d, None, FetchState::AwaitingStatus, FetchEvent::Status(429));
    assert_eq!(action, FetchAction::Finish(Err(Error::RateLimited(429))));
}

#[test]
fn fetch_releases_reports_other_statuses_with_the_status() {
    let d = catalog_device(ConnectedDeviceType::Bridge4);
    for status in [404u16, 500, 301, 199, 300] {
        let (state, action) = fetch_releases(&d, None, FetchState::AwaitingStatus, FetchEvent::Status(status));
        assert_eq!(state, FetchState::Done);
        assert_eq!(action, FetchAction::Finish(Err(Error::Http(status))));
    }
}

#[test]
fn fetch_releases_reports_transport_and_parse_failures() {
    let d = catalog_device(ConnectedDeviceType::Bridge4);
    let (state, action) =
        fetch_releases(&d, None, FetchState::AwaitingStatus, FetchEvent::SendFailed(String::from("dns error")));
    assert_eq!(state, FetchState::Done);
    assert_eq!(action, FetchAction::Finish(Err(Error::Transport(String::from("dns error")))));
    let (_, action) =
        fetch_releases(&d, None, FetchState::AwaitingListing, FetchEvent::BodyFailed(String::from("reset")));
    assert_eq!(action, FetchAction::Finish(Err(Error::Transport(String::from("reset")))));
    let (state, action) = fetch_releases(
        &d,
        None,
        FetchState::AwaitingListing,
        FetchEvent::Malformed(String::from("expected value at line 1")),
    );
    assert_eq!(state, FetchState::Done);
    assert_eq!(action, FetchAction::Finish(Err(Error::Parse(String::from("expected value at line 1")))));
}

#[test]
fn fetch_releases_ends_on_an_event_out_of_turn() {
    let d = catalog_device(ConnectedDeviceType::Bridge4);
    let cases = vec![
        (FetchState::Idle, FetchEvent::Status(200)),
        (FetchState::Idle, FetchEvent::Listing(Vec::new())),
        (FetchState::AwaitingStatus, FetchEvent::Begin),
        (FetchState::AwaitingStatus, FetchEvent::Listing(vec![catalog_release("v", &["bridge4"])])),
        (FetchState::AwaitingStatus, FetchEvent::Malformed(String::from("m"))),
        (FetchState::AwaitingListing, FetchEvent::Status(200)),
        (FetchState::AwaitingListing, FetchEvent::SendFailed(String::from("m"))),
        (FetchState::Done, FetchEvent::Begin),
        (FetchState::Done, FetchEvent::Listing(Vec::new())),
    ];
    for (s, e) in cases {
        let (state, action) = fetch_releases(&d, None, s, e);
        assert_eq!(state, FetchState::Done);
        assert_eq!(action, FetchAction::Finish(Err(out_of_turn())));
    }
}

#[test]
fn get_releases_lists_the_named_repository_with_the_token() {
    let d = catalog_device(ConnectedDeviceType::Bridge6);
    let (state, action) = get_releases(&d, "elsewhere", Some("tok"), FetchState::Idle, FetchEvent::Begin);
    assert_eq!(state, FetchState::AwaitingStatus);
    assert_eq!(
        action,
        FetchAction::Send(HttpRequest {
            url: String::from("https://api.github.com/repos/Pirate-MIDI/elsewhere/releases"),
            headers: headers(&[("user-agent", "reqwest"), ("authorization", "Bearer tok")]),
        })
    );
}
