use goco::game::Game;
use goco::gamestick::{GameStick, Platform};

#[test]
fn ut_combining_paths() {
    let root = GameStick::mount_path(Platform::Linux, Some("home/rpi3/"));
    assert_eq!(root, Some("/media/rpi3/GAMESTICK".to_string()));
}

#[test]
fn mount_paths_per_platform() {
    assert_eq!(
        GameStick::mount_path(Platform::Linux, Some("/home/alice")),
        Some("/media/alice/GAMESTICK".to_string())
    );
    assert_eq!(GameStick::mount_path(Platform::Linux, None), Some("/media/GAMESTICK".to_string()));
    assert_eq!(GameStick::mount_path(Platform::Linux, Some("/")), Some("/media/GAMESTICK".to_string()));
    assert_eq!(
        GameStick::mount_path(Platform::MacOs, Some("/Users/alice")),
        Some("/Volumes/GAMESTICK".to_string())
    );
    assert_eq!(GameStick::mount_path(Platform::Unsupported, Some("/home/alice")), None);
}

#[test]
fn locate_and_new() {
    let g = GameStick::locate(Platform::Linux, Some("/home/bob")).unwrap();
    assert_eq!(g.get_path(), "/media/bob/GAMESTICK");
    assert!(GameStick::locate(Platform::Unsupported, None).is_none());
    assert!(GameStick::new(Platform::Unsupported).is_none());
    assert_eq!(GameStick::new(Platform::MacOs).unwrap().get_path(), "/Volumes/GAMESTICK");
    let linux = GameStick::new(Platform::Linux).unwrap();
    assert!(linux.get_path().starts_with("/media/"));
    assert!(linux.get_path().ends_with("/GAMESTICK"));
    assert_eq!(GameStick::test_new().get_path(), "testenv/GAMESTICK");
}

#[test]
fn presence_and_readability_are_live() {
    let src = GameStick::at("src".to_string(), Platform::Linux);
    assert!(src.is_present());
    assert!(src.can_read_dir());
    // a regular file exists but cannot be listed
    let file = GameStick::at("src/lib.rs".to_string(), Platform::Linux);
    assert!(file.is_present());
    assert!(!file.can_read_dir());
    let missing = GameStick::at("no/such/volume".to_string(), Platform::Linux);
    assert!(!missing.is_present());
    assert!(!missing.can_read_dir());
}

#[test]
fn package_pattern_reaches_any_depth() {
    assert_eq!(GameStick::package_pattern("/media/GAMESTICK"), "/media/GAMESTICK/**/*.pck");
}

#[test]
fn load_of_missing_or_gameless_root_is_empty() {
    assert!(GameStick::load("no/such/volume").is_empty());
    assert!(GameStick::load("src").is_empty());
    assert!(GameStick::load(".").is_empty());
}

#[test]
fn scan_keeps_exactly_the_packages() {
    // three package files at several depths, two other files, one directory
    // whose name ends in .pck
    let found = vec![
        ("v/Top.pck".to_string(), true),
        ("v/readme.txt".to_string(), true),
        ("v/a/Mid.pck".to_string(), true),
        ("v/a/b/c/Deep.pck".to_string(), true),
        ("v/a/icon.png".to_string(), true),
        ("v/folder.pck".to_string(), false),
    ];
    let games = GameStick::select_games(&found);
    assert_eq!(games.len(), 3);
    let names: Vec<&str> = games.iter().map(|g| g.get_name()).collect();
    assert_eq!(names, vec!["Top", "Mid", "Deep"]);
    assert_eq!(games[2], Game::new("v/a/b/c/Deep.pck".to_string()));
    assert!(GameStick::select_games(&Vec::new()).is_empty());
}

#[test]
fn eject_commands_per_platform() {
    let linux = GameStick::at("/media/pi/GAMESTICK".to_string(), Platform::Linux);
    let c = linux.eject_command().unwrap();
    assert_eq!(c.program, "umount");
    assert_eq!(c.args, vec!["/media/pi/GAMESTICK".to_string()]);
    let mac = GameStick::at("/Volumes/GAMESTICK".to_string(), Platform::MacOs);
    let c = mac.eject_command().unwrap();
    assert_eq!(c.program, "diskutil");
    assert_eq!(c.args, vec!["unmount".to_string(), "/Volumes/GAMESTICK".to_string()]);
    let other = GameStick::at("X".to_string(), Platform::Unsupported);
    assert!(other.eject_command().is_none());
}

#[test]
fn no_eject_of_an_absent_volume() {
    let missing = GameStick::at("no/such/volume".to_string(), Platform::Linux);
    assert!(missing.eject().is_none());
    let present = GameStick::at("src".to_string(), Platform::Linux);
    let c = present.eject().unwrap();
    assert_eq!(c.program, "umount");
    assert_eq!(c.args, vec!["src".to_string()]);
}
