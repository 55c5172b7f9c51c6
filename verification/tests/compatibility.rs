use firmware_updater::device::{ConnectedDevice, ConnectedDeviceType};
use firmware_updater::github::{compatible_releases, find_compatible_asset, Asset, Release};

fn device_of(device_type: ConnectedDeviceType) -> ConnectedDevice {
    ConnectedDevice {
        id: String::from("usb-1"),
        vendor_id: 0x2e8a,
        product_id: 0x0001,
        description: None,
        serial_number: Some(String::from("0001")),
        device_type,
    }
}

fn asset(name: &str) -> Asset {
    Asset {
        name: String::from(name),
        browser_download_url: format!("https://example.test/download/{}", name),
    }
}

fn release(tag: &str, names: &[&str]) -> Release {
    Release { tag_name: String::from(tag), assets: names.iter().map(|n| asset(n)).collect() }
}

const ALL_TYPES: [ConnectedDeviceType; 7] = [
    ConnectedDeviceType::Bridge4,
    ConnectedDeviceType::Bridge6,
    ConnectedDeviceType::Click,
    ConnectedDeviceType::ULoop,
    ConnectedDeviceType::BridgeBootloader,
    ConnectedDeviceType::RPBootloader,
    ConnectedDeviceType::Unknown,
];

#[test]
fn asset_fits_the_device_its_name_holds() {
    assert!(asset("bridge6_v1.4.2.bin").is_compatible(&device_of(ConnectedDeviceType::Bridge6)));
    assert!(asset("bridge4_v1.4.2.bin").is_compatible(&device_of(ConnectedDeviceType::Bridge4)));
    assert!(asset("click_v2.0.0.uf2").is_compatible(&device_of(ConnectedDeviceType::Click)));
    assert!(asset("fw-uloop-3.bin").is_compatible(&device_of(ConnectedDeviceType::ULoop)));
}

#[test]
fn asset_does_not_fit_another_device() {
    assert!(!asset("bridge6_v1.4.2.bin").is_compatible(&device_of(ConnectedDeviceType::Bridge4)));
    assert!(!asset("bridge4_v1.4.2.bin").is_compatible(&device_of(ConnectedDeviceType::Bridge6)));
    assert!(!asset("bridge6_v1.4.2.bin").is_compatible(&device_of(ConnectedDeviceType::Click)));
    assert!(!asset("click_v2.0.0.uf2").is_compatible(&device_of(ConnectedDeviceType::ULoop)));
    assert!(!asset("BRIDGE6.bin").is_compatible(&device_of(ConnectedDeviceType::Bridge6)));
    assert!(!asset("").is_compatible(&device_of(ConnectedDeviceType::Bridge6)));
}

#[test]
fn nothing_fits_a_bootloader_or_an_unknown_device() {
    let names = ["bridge6.bin", "bridge4.bin", "click.uf2", "uloop.bin", "bootloader", ""];
    for t in [
        ConnectedDeviceType::BridgeBootloader,
        ConnectedDeviceType::RPBootloader,
        ConnectedDeviceType::Unknown,
    ] {
        for n in names {
            assert!(!asset(n).is_compatible(&device_of(t)));
        }
    }
}

#[test]
fn is_compatible_gives_the_same_answer_every_time() {
    let names = ["bridge6.bin", "bridge4.bin", "click.uf2", "uloop.bin", "other", "bridge4-bridge6"];
    for t in ALL_TYPES {
        for n in names {
            let a = asset(n);
            let d = device_of(t);
            let first = a.is_compatible(&d);
            assert_eq!(a.is_compatible(&d), first);
            assert_eq!(a.clone().is_compatible(&d.clone()), first);
            let other_url = Asset { name: String::from(n), browser_download_url: String::from("elsewhere") };
            assert_eq!(other_url.is_compatible(&d), first);
        }
    }
}

#[test]
fn release_is_usable_with_one_fitting_asset() {
    let d = device_of(ConnectedDeviceType::Bridge6);
    assert!(release("v1", &["bridge4.bin", "bridge6.bin"]).is_usable(&d));
    assert!(!release("v1", &["bridge4.bin", "notes.txt"]).is_usable(&d));
    assert!(!release("v1", &[]).is_usable(&d));
}

#[test]
fn find_compatible_asset_takes_the_first_that_fits() {
    let d = device_of(ConnectedDeviceType::Bridge6);
    let r = release("v1", &["notes.txt", "bridge4.bin", "bridge6-a.bin", "bridge6-b.bin"]);
    assert_eq!(find_compatible_asset(&d, &r), Some(2));
    assert_eq!(find_compatible_asset(&device_of(ConnectedDeviceType::Bridge4), &r), Some(1));
    assert_eq!(find_compatible_asset(&device_of(ConnectedDeviceType::Click), &r), None);
    assert_eq!(find_compatible_asset(&d, &release("v0", &[])), None);
}

#[test]
fn compatible_releases_keeps_usable_ones_in_order() {
    let d = device_of(ConnectedDeviceType::Bridge4);
    let list = vec![
        release("v3", &["bridge6.bin"]),
        release("v2", &["bridge4.bin", "bridge6.bin"]),
        release("v1", &[]),
        release("v0", &["x", "fw_bridge4.bin"]),
    ];
    let kept = compatible_releases(&d, list);
    assert_eq!(
        kept,
        vec![release("v2", &["bridge4.bin", "bridge6.bin"]), release("v0", &["x", "fw_bridge4.bin"])]
    );
}

#[test]
fn compatible_releases_of_nothing_is_nothing() {
    let d = device_of(ConnectedDeviceType::Click);
    assert_eq!(compatible_releases(&d, Vec::new()), Vec::<Release>::new());
    let none = compatible_releases(&d, vec![release("v1", &["bridge6.bin"])]);
    assert_eq!(none, Vec::<Release>::new());
}

#[test]
fn every_kept_release_has_a_fitting_asset() {
    let list = vec![
        release("a", &["bridge6.bin", "click.uf2"]),
        release("b", &["uloop.bin"]),
        release("c", &["bridge4.bin"]),
        release("d", &[]),
    ];
    for t in ALL_TYPES {
        let d = device_of(t);
        let kept = compatible_releases(&d, list.clone());
        for r in &kept {
            assert!(r.assets.iter().any(|a| a.is_compatible(&d)));
            assert!(find_compatible_asset(&d, r).is_some());
        }
        let expected: Vec<Release> =
            list.iter().filter(|r| r.assets.iter().any(|a| a.is_compatible(&d))).cloned().collect();
        assert_eq!(kept, expected);
    }
}

#[test]
fn clones_are_equal_to_what_they_were_made_from() {
    let r = release("v1", &["bridge4.bin", "bridge6.bin"]);
    assert_eq!(r.clone(), r);
    assert_eq!(release("v0", &[]).clone(), release("v0", &[]));
    let a = asset("click.uf2");
    assert_eq!(a.clone(), a);
    let d = device_of(ConnectedDeviceType::ULoop);
    assert_eq!(d.clone(), d);
    let described = ConnectedDevice { description: Some(String::from("uLOOP")), ..d };
    assert_eq!(described.clone(), described);
}
