use goco::game::{Game, GAME_EXT, ICON_EXT};

#[test]
fn ut_is_game_file_bad() {
    // file is not .pck
    assert_eq!(Game::is_game_file("Cargo.toml"), false);
    // file does not exist
    assert_eq!(Game::is_game_file("testenv/GAMESTICK/missing.pck"), false);
    assert_eq!(Game::is_game_file("./testenv/GAMESTICK/game"), false);
}

#[test]
fn ut_get_icon_path_none() {
    let vg = Game::new("testenv/GAMESTICK/game.pck".into());
    assert_eq!(vg.get_icon_path(), None);
}

#[test]
fn directory_is_not_a_game_file() {
    // `src` exists but is a directory, and has no package extension anyway
    assert!(!Game::is_game_file("src"));
    assert!(!Game::is_game_file("src/lib.rs"));
}

#[test]
fn names_are_stems() {
    assert_eq!(
        Game::new("testenv/GAMESTICK/Finite State Machine.pck".into()).get_name(),
        "Finite State Machine"
    );
    assert_eq!(Game::new("Pong.pck".into()).get_name(), "Pong");
    assert_eq!(Game::new("/a/b.c/archive.tar.pck".into()).get_name(), "archive.tar");
    assert_eq!(Game::new("/a/.hidden".into()).get_name(), ".hidden");
    assert_eq!(Game::new("dir/Name.pck/".into()).get_name(), "Name");
    assert_eq!(Game::new("/".into()).get_name(), "");
    assert_eq!(Game::new("a/..".into()).get_name(), "");
}

#[test]
fn package_extension_is_case_sensitive() {
    assert!(Game::has_game_ext("x/Game.pck"));
    assert!(Game::has_game_ext("deep/er/still/Game.pck"));
    assert!(!Game::has_game_ext("x/Game.PCK"));
    assert!(!Game::has_game_ext("x/Game.pck.bak"));
    assert!(!Game::has_game_ext("x/.pck"));
    assert!(!Game::has_game_ext("x/pck"));
    assert!(Game::has_game_ext("x.pck/"));
    assert_eq!(GAME_EXT, "pck");
    assert_eq!(ICON_EXT, "png");
}

#[test]
fn pck_path_is_kept() {
    let g = Game::new("some/dir/Game.pck".into());
    assert_eq!(g.get_pck(), "some/dir/Game.pck");
}
