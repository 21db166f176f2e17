use godot_buildpack::text::{chars_of, same_text, starts_with_in};
use godot_buildpack::url::{get_download_url, replace_dots};

#[test]
fn stable_release_without_mono() {
    assert_eq!(
        get_download_url("https://dl.example.org/godot", "3.5", "stable", false, "linux_headless.64"),
        "https://dl.example.org/godot/3.5/Godot_v3.5-stable_linux_headless.64.zip"
    );
}

#[test]
fn pre_release_gains_a_folder_for_its_tag() {
    assert_eq!(
        get_download_url("https://dl.example.org/godot", "3.5", "rc1", false, "linux_headless.64"),
        "https://dl.example.org/godot/3.5/rc1/Godot_v3.5-rc1_linux_headless.64.zip"
    );
}

#[test]
fn mono_gains_a_folder_and_underscores() {
    assert_eq!(
        get_download_url("https://dl.example.org/godot", "3.5", "stable", true, "linux_server.64"),
        "https://dl.example.org/godot/3.5/mono/Godot_v3.5-stable_mono_linux_server_64.zip"
    );
}

#[test]
fn mono_pre_release_has_both_folders() {
    assert_eq!(
        get_download_url("https://dl.example.org/godot", "4.0", "beta12", true, "linux_headless.64"),
        "https://dl.example.org/godot/4.0/beta12/mono/Godot_v4.0-beta12_mono_linux_headless_64.zip"
    );
}

#[test]
fn dots_become_underscores() {
    assert_eq!(replace_dots("linux_server.64"), "linux_server_64");
    assert_eq!(replace_dots("..a.b"), "__a_b");
    assert_eq!(replace_dots(""), "");
    assert_eq!(replace_dots("h\u{e9}.\u{4e16}"), "h\u{e9}_\u{4e16}");
}

#[test]
fn characters_are_listed_in_order() {
    assert_eq!(chars_of("a/\u{e9}"), vec!['a', '/', '\u{e9}']);
    assert_eq!(chars_of(""), Vec::<char>::new());
}

#[test]
fn texts_are_compared_by_their_characters() {
    assert!(same_text("stable", "stable"));
    assert!(!same_text("stable", "stabl"));
    assert!(!same_text("stable", "stablE"));
    assert!(same_text("", ""));
}

#[test]
fn a_prefix_is_sought_within_bounds() {
    let text = chars_of("Top/Godot_v3");
    let prefix = chars_of("Godot_");
    assert!(starts_with_in(&text, 4, 12, &prefix));
    assert!(!starts_with_in(&text, 4, 9, &prefix));
    assert!(!starts_with_in(&text, 0, 12, &prefix));
    assert!(starts_with_in(&text, 3, 3, &chars_of("")));
}
