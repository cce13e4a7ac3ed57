use memories::util::enums::{trim_newline, PreferredAdwaitaTheme, XDGUserDir};
use memories::util::format::{to_decimal, to_hex_lower};
use memories::util::listing::{enumerated_indices, join_path};
use memories::util::seq::spliced;

#[test]
fn theme_values_match_settings_key() {
    assert_eq!(PreferredAdwaitaTheme::System.value(), 0);
    assert_eq!(PreferredAdwaitaTheme::Light.value(), 1);
    assert_eq!(PreferredAdwaitaTheme::Dark.value(), 2);
}

#[test]
fn theme_round_trips_through_value() {
    for t in [PreferredAdwaitaTheme::System, PreferredAdwaitaTheme::Light, PreferredAdwaitaTheme::Dark] {
        assert_eq!(PreferredAdwaitaTheme::from_value(t.value()), Some(t));
    }
    assert_eq!(PreferredAdwaitaTheme::from_value(3), None);
    assert_eq!(PreferredAdwaitaTheme::from_value(-1), None);
}

#[test]
fn trim_newline_removes_crlf() {
    let mut s = String::from("/home/user/Pictures\r\n");
    trim_newline(&mut s);
    assert_eq!(s, "/home/user/Pictures");
}

#[test]
fn trim_newline_removes_lf_once() {
    let mut s = String::from("a\n\n");
    trim_newline(&mut s);
    assert_eq!(s, "a\n");
    let mut t = String::from("no newline\r");
    trim_newline(&mut t);
    assert_eq!(t, "no newline\r");
    let mut e = String::new();
    trim_newline(&mut e);
    assert_eq!(e, "");
}

#[test]
fn xdg_user_dir_values() {
    assert_eq!(XDGUserDir::Pictures.value(), ("XDG_PICTURES_DIR", "PICTURES"));
    assert_eq!(XDGUserDir::Public.value(), ("XDG_PUBLICSHARE_DIR", "PUBLICSHARE"));
    assert_eq!(XDGUserDir::Videos.value(), ("XDG_VIDEOS_DIR", "VIDEOS"));
}

#[test]
fn xdg_path_prefers_environment() {
    let p = XDGUserDir::Music.get_path(Some(String::from("/m")), "/home/u", None);
    assert_eq!(p, "/m");
}

#[test]
fn xdg_path_from_utility_output() {
    let p = XDGUserDir::Documents.get_path(None, "/home/u", Some(String::from("/home/u/Docs\n")));
    assert_eq!(p, "/home/u/Docs");
}

#[test]
fn xdg_path_falls_back_under_home() {
    let p = XDGUserDir::Pictures.get_path(None, "/home/u", Some(String::from("/home/u\n")));
    assert_eq!(p, "/home/u/Pictures");
    let v = XDGUserDir::Videos.get_path(None, "/home/u", Some(String::from("/home/u")));
    assert_eq!(v, "/home/u/Videos");
}

#[test]
fn decimal_and_hex_rendering() {
    assert_eq!(to_decimal(0), "0");
    assert_eq!(to_decimal(4032), "4032");
    assert_eq!(to_decimal(u32::MAX), "4294967295");
    assert_eq!(to_hex_lower(&[0x00, 0x0f, 0xa5, 0xff]), "000fa5ff");
    assert_eq!(to_hex_lower(&[]), "");
}

#[test]
fn enumerated_indices_are_the_added_positions() {
    assert_eq!(enumerated_indices(5, 2, 3), vec![5, 6, 7]);
    assert_eq!(enumerated_indices(5, 2, 1), vec![5]);
    assert_eq!(enumerated_indices(5, 2, 0), Vec::<u32>::new());
}

#[test]
fn join_path_inserts_separator() {
    assert_eq!(join_path("/home/u", "Pictures"), "/home/u/Pictures");
}

#[test]
fn spliced_replaces_range() {
    assert_eq!(spliced(&vec![1, 2, 3, 4], 1, 2, &vec![9]), vec![1, 9, 4]);
    assert_eq!(spliced(&vec![1, 2], 2, 0, &vec![3]), vec![1, 2, 3]);
}
