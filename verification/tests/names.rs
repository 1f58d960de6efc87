use volume_mixer::name::{derive_name, rfind_char};

#[test]
fn name_drops_directories_and_extension() {
    assert_eq!(derive_name("C:\\Apps\\Sub\\game.exe"), "game");
}

#[test]
fn name_of_single_directory_path() {
    assert_eq!(derive_name("C:\\Apps\\foo.exe"), "foo");
}

#[test]
fn name_without_extension_is_final_segment() {
    assert_eq!(derive_name("C:\\Apps\\Sub\\launcher"), "launcher");
}

#[test]
fn name_of_bare_file_name() {
    assert_eq!(derive_name("player.exe"), "player");
    assert_eq!(derive_name("player"), "player");
}

#[test]
fn name_loses_only_the_last_extension() {
    assert_eq!(derive_name("C:\\x\\archive.tar.gz"), "archive.tar");
}

#[test]
fn name_ignores_marks_in_directories() {
    assert_eq!(derive_name("C:\\my.dir\\tool"), "tool");
    assert_eq!(derive_name("C:\\v1.2\\tool.exe"), "tool");
}

#[test]
fn name_of_path_that_ends_in_separator_is_empty() {
    assert_eq!(derive_name("C:\\dir\\"), "");
}

#[test]
fn name_of_segment_that_starts_with_mark_is_empty() {
    assert_eq!(derive_name("C:\\.hidden"), "");
}

#[test]
fn name_of_segment_that_ends_with_mark_keeps_the_rest() {
    assert_eq!(derive_name("C:\\dir\\name."), "name");
}

#[test]
fn name_of_empty_path_is_empty() {
    assert_eq!(derive_name(""), "");
}

#[test]
fn name_treats_forward_slash_as_ordinary() {
    assert_eq!(derive_name("C:/Apps/game.exe"), "C:/Apps/game");
}

#[test]
fn name_counts_characters_not_bytes() {
    assert_eq!(derive_name("C:\\M\u{fa}sica\\reproducci\u{f3}n.exe"), "reproducci\u{f3}n");
    assert_eq!(derive_name("\u{97f3}\u{91cf}\\\u{64ad}\u{653e}\u{5668}.exe"), "\u{64ad}\u{653e}\u{5668}");
}

#[test]
fn name_matches_split_and_rfind() {
    let paths = [
        "C:\\Program Files\\Mozilla Firefox\\firefox.exe",
        "\\\\server\\share\\a.b\\c.d.e",
        "..",
        "\\",
        ".\\.",
        "a\\b.c\\",
    ];
    for path in paths {
        let mut expected = path.split('\\').last().unwrap_or(path).to_string();
        if let Some(dot) = expected.rfind('.') {
            expected = expected[..dot].to_string();
        }
        assert_eq!(derive_name(path), expected);
    }
}

#[test]
fn rfind_char_gives_last_position() {
    assert_eq!(rfind_char("a.b.c", '.'), Some(3));
    assert_eq!(rfind_char(".", '.'), Some(0));
    assert_eq!(rfind_char("C:\\a\\b", '\\'), Some(4));
}

#[test]
fn rfind_char_gives_none_when_absent() {
    assert_eq!(rfind_char("abc", '.'), None);
    assert_eq!(rfind_char("", '.'), None);
}

#[test]
fn rfind_char_counts_characters() {
    assert_eq!(rfind_char("\u{e9}\u{e9}.x", '.'), Some(2));
}
