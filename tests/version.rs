use driver_updater::version::{get_main_version, get_version};

#[test]
fn version_first_in_driver_output() {
    assert_eq!(get_version("chromedriver 124.0.6367.91 (abc)"), "124.0.6367.91");
}

#[test]
fn version_absent_without_digits() {
    assert_eq!(get_version("no version here"), "");
    assert_eq!(get_version(""), "");
}

#[test]
fn version_needs_four_parts() {
    assert_eq!(get_version("1.2.3 and 4.5"), "");
    assert_eq!(get_version("v1.2.3 then 10.20.30.40.50"), "10.20.30.40");
}

#[test]
fn version_takes_first_of_several() {
    assert_eq!(get_version("a 1.2.3.4 b 5.6.7.8"), "1.2.3.4");
    assert_eq!(get_version("x1.2.3.4.5"), "1.2.3.4");
}

#[test]
fn main_version_three_digits() {
    assert_eq!(get_main_version("124.0.6367.91"), "124");
}

#[test]
fn main_version_rejects_two_digits() {
    assert_eq!(get_main_version("99.0.1.2"), "");
    assert_eq!(get_main_version(""), "");
}

#[test]
fn main_version_inside_longer_number() {
    assert_eq!(get_main_version("1124.0.1.2"), "124");
    assert_eq!(get_main_version("Google Chrome 131.0.6778.86"), "131");
    assert_eq!(get_main_version("224.0.1.2"), "");
}
