use firmware_updater::text::{chars_of, join, join3, contains, decimal_string, eq_ignore_ascii_case};

#[test]
fn chars_of_keeps_every_character_in_order() {
    assert_eq!(chars_of("aé-1"), vec!['a', 'é', '-', '1']);
    assert_eq!(chars_of(""), Vec::<char>::new());
}

#[test]
fn concat_joins_in_order() {
    assert_eq!(join("Bearer ", "abc"), "Bearer abc");
    assert_eq!(join("", ""), "");
    assert_eq!(join3("17", "-", "click.uf2"), "17-click.uf2");
}

#[test]
fn contains_finds_a_run_anywhere() {
    assert!(contains("bridge6_v1.2.bin", "bridge6"));
    assert!(contains("fw-bridge6", "bridge6"));
    assert!(contains("xbridge6x", "bridge6"));
    assert!(contains("bridge6", "bridge6"));
}

#[test]
fn contains_rejects_what_is_not_there() {
    assert!(!contains("bridge4_v1.2.bin", "bridge6"));
    assert!(!contains("bridge", "bridge6"));
    assert!(!contains("", "click"));
    assert!(!contains("Bridge6.bin", "bridge6"));
    assert!(!contains("bridg-e6", "bridge6"));
}

#[test]
fn contains_takes_the_empty_text_everywhere() {
    assert!(contains("abc", ""));
    assert!(contains("", ""));
}

#[test]
fn contains_works_beyond_ascii() {
    assert!(contains("übër-click-ß", "click"));
    assert!(contains("naïve", "ï"));
    assert!(!contains("naive", "ï"));
}

#[test]
fn eq_ignore_ascii_case_folds_ascii_letters_only() {
    assert!(eq_ignore_ascii_case("RPI-RP2", "RPI-RP2"));
    assert!(eq_ignore_ascii_case("rpi-rp2", "RPI-RP2"));
    assert!(eq_ignore_ascii_case("Rpi-Rp2", "rPI-rP2"));
    assert!(!eq_ignore_ascii_case("RPI-RP2 ", "RPI-RP2"));
    assert!(!eq_ignore_ascii_case("RPI_RP2", "RPI-RP2"));
    assert!(!eq_ignore_ascii_case("", "RPI-RP2"));
    assert!(eq_ignore_ascii_case("", ""));
    assert!(!eq_ignore_ascii_case("É", "é"));
    assert!(!eq_ignore_ascii_case("@", "`"));
    assert!(!eq_ignore_ascii_case("[", "{"));
}

#[test]
fn eq_ignore_ascii_case_agrees_with_std() {
    let samples = ["RPI-RP2", "rpi-rp2", "Az", "aZ", "@`", "[{", "é", "É", "", "z"];
    for a in samples {
        for b in samples {
            assert_eq!(eq_ignore_ascii_case(a, b), a.eq_ignore_ascii_case(b));
        }
    }
}

#[test]
fn decimal_string_writes_base_ten() {
    assert_eq!(decimal_string(0), "0");
    assert_eq!(decimal_string(7), "7");
    assert_eq!(decimal_string(10), "10");
    assert_eq!(decimal_string(404), "404");
    assert_eq!(decimal_string(1700000000123), "1700000000123");
    assert_eq!(decimal_string(u128::MAX), "340282366920938463463374607431768211455");
}
