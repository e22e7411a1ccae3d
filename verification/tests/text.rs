use tg_image_hosting::handler::split_name;
use tg_image_hosting::text::{chars_of, contains, decimal_string, find_last, string_of};
use tg_image_hosting::tg::{get_ext, markdown_escape};

#[test]
fn escape_leaves_plain_text_alone() {
    assert_eq!(markdown_escape("hello world 123"), "hello world 123");
    assert_eq!(markdown_escape(""), "");
}

#[test]
fn escape_puts_a_backslash_before_each_reserved_character() {
    assert_eq!(markdown_escape("a.b"), "a\\.b");
    assert_eq!(markdown_escape("_*[]()~`>#+-=|{}.!"), "\\_\\*\\[\\]\\(\\)\\~\\`\\>\\#\\+\\-\\=\\|\\{\\}\\.\\!");
    assert_eq!(markdown_escape("\\"), "\\\\");
}

#[test]
fn escape_of_a_public_url() {
    assert_eq!(
        markdown_escape("https://example.com/f/AgAD-1_x.jpg\n"),
        "https://example\\.com/f/AgAD\\-1\\_x\\.jpg\n"
    );
}

#[test]
fn escape_does_not_touch_other_punctuation() {
    assert_eq!(markdown_escape("a/b:c,d;e?f&g@h\"i'j"), "a/b:c,d;e?f&g@h\"i'j");
    assert_eq!(markdown_escape("日本語.txt"), "日本語\\.txt");
}

#[test]
fn ext_is_what_follows_the_last_dot() {
    assert_eq!(get_ext("photos/file_1.jpg"), ".jpg");
    assert_eq!(get_ext("documents/archive.tar.gz"), ".gz");
    assert_eq!(get_ext("trailing."), ".");
}

#[test]
fn ext_is_empty_without_a_dot() {
    assert_eq!(get_ext("documents/README"), "");
    assert_eq!(get_ext(""), "");
}

#[test]
fn name_splits_at_the_last_dot() {
    assert_eq!(split_name("AQADu1.jpg"), ("AQADu1".to_string(), "jpg".to_string()));
    assert_eq!(split_name("a.b.c"), ("a.b".to_string(), "c".to_string()));
    assert_eq!(split_name("a."), ("a".to_string(), "".to_string()));
}

#[test]
fn name_without_extension_is_an_identifier() {
    assert_eq!(split_name("AQADu1"), ("AQADu1".to_string(), "".to_string()));
    assert_eq!(split_name(".hidden"), (".hidden".to_string(), "".to_string()));
    assert_eq!(split_name(""), ("".to_string(), "".to_string()));
}

#[test]
fn name_of_dots_holds_nothing() {
    assert_eq!(split_name("."), ("".to_string(), "".to_string()));
    assert_eq!(split_name(".."), ("".to_string(), "".to_string()));
    assert_eq!(split_name("..."), ("..".to_string(), "".to_string()));
    assert_eq!(split_name("..a"), (".".to_string(), "a".to_string()));
}

#[test]
fn decimal_of_small_and_large_numbers() {
    assert_eq!(decimal_string(0), "0");
    assert_eq!(decimal_string(7), "7");
    assert_eq!(decimal_string(10), "10");
    assert_eq!(decimal_string(404), "404");
    assert_eq!(decimal_string(65535), "65535");
    assert_eq!(decimal_string(u64::MAX), "18446744073709551615");
}

#[test]
fn contains_finds_a_needle_anywhere() {
    assert!(contains("D1_ERROR: no such table: files: SQLITE_ERROR", "no such table"));
    assert!(contains("no such table", "no such table"));
    assert!(contains("xno such table", "no such table"));
    assert!(contains("anything", ""));
    assert!(contains("", ""));
}

#[test]
fn contains_rejects_a_missing_needle() {
    assert!(!contains("no such tabl", "no such table"));
    assert!(!contains("", "no such table"));
    assert!(!contains("no such  table", "no such table"));
    assert!(!contains("UNIQUE constraint failed", "no such table"));
}

#[test]
fn chars_and_strings_round_trip() {
    let v = chars_of("héllo");
    assert_eq!(v, vec!['h', 'é', 'l', 'l', 'o']);
    assert_eq!(string_of(&v, 0, 5), "héllo");
    assert_eq!(string_of(&v, 1, 3), "él");
    assert_eq!(string_of(&v, 2, 2), "");
}

#[test]
fn find_last_returns_the_greatest_index() {
    let v = chars_of("a.b.c");
    assert_eq!(find_last(&v, '.'), Some(3));
    assert_eq!(find_last(&v, 'a'), Some(0));
    assert_eq!(find_last(&v, 'z'), None);
    assert_eq!(find_last(&chars_of(""), '.'), None);
}

#[test]
fn announced_names_are_read_back() {
    for id in ["AgAD1", "AQADu1", "a-b_c", "x"] {
        for path in ["photos/file_1.jpg", "documents/README", "", "a.b/c", "videos/v.tar.gz"] {
            let name = format!("{}{}", id, get_ext(path));
            assert_eq!(split_name(&name).0, id);
        }
    }
}
