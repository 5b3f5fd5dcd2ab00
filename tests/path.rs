use goco::path::{extension_of, file_name_of, file_stem_of, with_extension_of};
use goco::text::{decimal_text, same_text};

#[test]
fn file_names() {
    assert_eq!(file_name_of("home/rpi3/"), Some("rpi3"));
    assert_eq!(file_name_of("/home/alice"), Some("alice"));
    assert_eq!(file_name_of("plain"), Some("plain"));
    assert_eq!(file_name_of("/"), None);
    assert_eq!(file_name_of(""), None);
    assert_eq!(file_name_of("a/.."), None);
    assert_eq!(file_name_of("a//b//"), Some("b"));
}

#[test]
fn stems_and_extensions() {
    assert_eq!(file_stem_of("dir/Pong.pck"), Some("Pong"));
    assert_eq!(extension_of("dir/Pong.pck"), Some("pck"));
    assert_eq!(file_stem_of("dir/archive.tar.gz"), Some("archive.tar"));
    assert_eq!(extension_of("dir/archive.tar.gz"), Some("gz"));
    assert_eq!(file_stem_of("dir/.profile"), Some(".profile"));
    assert_eq!(extension_of("dir/.profile"), None);
    assert_eq!(extension_of("dir/trailing."), Some(""));
    assert_eq!(extension_of("dir.d/noext"), None);
    assert_eq!(file_stem_of("/"), None);
}

#[test]
fn extension_replacement() {
    assert_eq!(
        with_extension_of("testenv/GAMESTICK/Finite State Machine.pck", "png"),
        "testenv/GAMESTICK/Finite State Machine.png"
    );
    assert_eq!(with_extension_of("a/b", "png"), "a/b.png");
    assert_eq!(with_extension_of("a/b.tar.gz", ""), "a/b.tar");
    assert_eq!(with_extension_of("a/b.pck/", "png"), "a/b.png");
    assert_eq!(with_extension_of("/", "png"), "/");
}

#[test]
fn text_helpers() {
    assert!(same_text("pck", "pck"));
    assert!(!same_text("pck", "pc"));
    assert!(!same_text("pck", "pcK"));
    assert!(same_text("", ""));
    assert_eq!(decimal_text(0), "0");
    assert_eq!(decimal_text(7), "7");
    assert_eq!(decimal_text(1234), "1234");
    assert_eq!(decimal_text(u32::MAX), "4294967295");
}
