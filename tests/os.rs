use goco::animator::Animation;
use goco::engine::{Engine, LaunchError};
use goco::game::Game;
use goco::gamestick::{GameStick, Platform};
use goco::gpio::{Button, Io, Pin};
use goco::os::{Key, Os, Request};
use goco::shelf::State;

fn os_at(volume: &str, io: Io) -> Os {
    Os::new(
        Engine::new(Some("src/lib.rs".to_string())),
        GameStick::at(volume.to_string(), Platform::Linux),
        io,
        Animation::new(vec![1], vec![2]),
    )
}

fn games(names: &[&str]) -> Vec<Game> {
    names.iter().map(|n| Game::new(format!("v/{}.pck", n))).collect()
}

fn count_some(shelf: &[Option<&Game>; 3]) -> usize {
    shelf.iter().filter(|p| p.is_some()).count()
}

#[test]
fn starts_requesting_without_volume() {
    let os = os_at("no/such/volume", Io::new());
    assert_eq!(os.state(), State::Requesting);
    assert!(os.library().is_empty());
    assert_eq!(os.selection_index(), 0);
    assert_eq!(os.get_nearby_games(), [None, None, None]);
}

#[test]
fn readable_empty_volume_is_loaded_empty() {
    // `src` exists, can be listed and holds no game package
    let os = os_at("src", Io::new());
    assert_eq!(os.state(), State::Loading);
    assert!(os.library().is_empty());
    assert_eq!(os.selection_index(), 0);
}

#[test]
fn unreadable_volume_stays_requesting() {
    // the path exists but cannot be listed
    let mut os = os_at("src/lib.rs", Io::new());
    assert_eq!(os.state(), State::Requesting);
    assert!(!os.initialize_library());
    assert_eq!(os.state(), State::Requesting);
    assert!(os.library().is_empty());
    // the scan tick tries again and still waits
    os.scan_drive();
    assert_eq!(os.state(), State::Requesting);
}

#[test]
fn nearby_games_walk() {
    let mut os = os_at("no/such/volume", Io::new());
    assert!(os.apply_library(Some(games(&["A", "B", "C", "D"]))));
    {
        let shelf = os.get_nearby_games();
        assert_eq!(shelf[0].is_none(), true);
        assert_eq!(shelf[1].unwrap(), &os.library()[0]);
        assert_eq!(count_some(&shelf), 2);
    }
    os.shift_shelf_right();
    {
        let shelf = os.get_nearby_games();
        assert_eq!(shelf[0].unwrap(), &os.library()[0]);
        assert_eq!(shelf[1].unwrap(), &os.library()[1]);
        assert_eq!(count_some(&shelf), 3);
    }
    os.shift_shelf_left();
    {
        let shelf = os.get_nearby_games();
        assert_eq!(shelf[0].is_none(), true);
        assert_eq!(shelf[1].unwrap(), &os.library()[0]);
        assert_eq!(count_some(&shelf), 2);
    }
    os.shift_shelf_left();
    {
        let shelf = os.get_nearby_games();
        assert_eq!(shelf[0].is_none(), true);
        assert_eq!(shelf[1].unwrap(), &os.library()[0]);
        assert_eq!(count_some(&shelf), 2);
    }
}

#[test]
fn selection_saturates_at_both_ends() {
    let mut os = os_at("no/such/volume", Io::new());
    os.apply_library(Some(games(&["A", "B", "C"])));
    assert!(os.shift_shelf_right());
    assert!(os.shift_shelf_right());
    assert!(!os.shift_shelf_right());
    assert_eq!(os.selection_index(), 2);
    let shelf = os.get_nearby_games();
    assert_eq!(shelf[0].unwrap().get_name(), "B");
    assert_eq!(shelf[1].unwrap().get_name(), "C");
    assert!(shelf[2].is_none());
    assert!(os.shift_shelf_left());
    assert!(os.shift_shelf_left());
    assert!(!os.shift_shelf_left());
    assert_eq!(os.selection_index(), 0);
}

#[test]
fn moves_on_an_empty_library_do_nothing() {
    let mut os = os_at("src", Io::new());
    assert!(!os.shift_shelf_right());
    assert!(!os.shift_shelf_left());
    assert_eq!(os.selection_index(), 0);
    assert_eq!(os.select_game(), Err(LaunchError::NoGameSelected));
}

#[test]
fn single_game_volume() {
    let mut os = os_at("no/such/volume", Io::new());
    os.scan_step(true, Some(games(&["Solo"])));
    assert_eq!(os.state(), State::Loading);
    assert_eq!(os.selection_index(), 0);
    assert_eq!(os.library().len(), 1);
    assert!(!os.shift_shelf_right());
    assert_eq!(os.selection_index(), 0);
    assert!(!os.shift_shelf_left());
    assert_eq!(os.selection_index(), 0);
    let shelf = os.get_nearby_games();
    assert_eq!(shelf[1].unwrap().get_name(), "Solo");
    assert_eq!(count_some(&shelf), 1);
}

#[test]
fn failed_eject_changes_nothing() {
    let mut os = os_at("src", Io::new());
    os.apply_library(Some(games(&["A", "B"])));
    os.shift_shelf_right();
    let c = os.eject_invocation().unwrap();
    assert_eq!(c.program, "umount");
    assert_eq!(c.args, vec!["src".to_string()]);
    assert!(!os.remove_drive(false));
    assert_eq!(os.state(), State::Loading);
    assert_eq!(os.library().len(), 2);
    assert_eq!(os.library()[1].get_name(), "B");
    assert_eq!(os.selection_index(), 1);
    assert!(os.remove_drive(true));
    assert_eq!(os.state(), State::Requesting);
    assert!(os.library().is_empty());
    assert_eq!(os.selection_index(), 0);
}

#[test]
fn scan_ticks() {
    let mut os = os_at("no/such/volume", Io::new());
    assert_eq!(os.insert_animation().text_index(), 0);
    os.scan_drive();
    assert_eq!(os.insert_animation().text_index(), 1);
    assert_eq!(os.state(), State::Requesting);
    // volume appears but cannot be read yet
    os.scan_step(true, None);
    assert_eq!(os.state(), State::Requesting);
    assert_eq!(os.insert_animation().text_index(), 1);
    os.scan_step(true, Some(games(&["A"])));
    assert_eq!(os.state(), State::Loading);
    // still there
    os.scan_step(true, None);
    assert_eq!(os.state(), State::Loading);
    assert_eq!(os.library().len(), 1);
    // gone: the real volume path does not exist
    os.scan_drive();
    assert_eq!(os.state(), State::Requesting);
    assert!(os.library().is_empty());
}

#[test]
fn keys_act_only_on_a_loaded_library() {
    let mut os = os_at("no/such/volume", Io::new());
    assert_eq!(os.handle_key(Key::Action), None);
    assert_eq!(os.handle_key(Key::Eject), None);
    os.apply_library(Some(games(&["A", "B"])));
    assert_eq!(os.handle_key(Key::Right), None);
    assert_eq!(os.selection_index(), 1);
    assert_eq!(os.handle_key(Key::Up), None);
    assert_eq!(os.handle_key(Key::Down), None);
    assert_eq!(os.selection_index(), 1);
    assert_eq!(os.handle_key(Key::Left), None);
    assert_eq!(os.selection_index(), 0);
    assert_eq!(os.handle_key(Key::Action), Some(Request::Launch));
    assert_eq!(os.handle_key(Key::Eject), Some(Request::Eject));
}

#[test]
fn launch_quit_cycle() {
    let mut os = os_at("no/such/volume", Io::new());
    os.apply_library(Some(games(&["A", "B"])));
    os.shift_shelf_right();
    let c = os.select_game().unwrap();
    assert_eq!(c.program, "src/lib.rs");
    assert_eq!(c.args[3], "v/B.pck");
    assert!(os.game_started(Some(77)));
    assert_eq!(os.engine().child(), Some(77));
    assert_eq!(os.select_game(), Err(LaunchError::AlreadyRunning(77)));
    assert!(!os.game_started(Some(78)));
    assert_eq!(os.engine().child(), Some(77));
    let p = os.probe_command().unwrap();
    assert_eq!(p.args, vec!["-p".to_string(), "77".to_string()]);
    let k = os.quit_command().unwrap();
    assert_eq!(k.program, "kill");
    assert_eq!(k.args, vec!["77".to_string()]);
    assert!(os.quit_game(true));
    assert_eq!(os.engine().child(), None);
    assert!(os.quit_command().is_none());
    assert!(!os.quit_game(true));
}

#[test]
fn dead_game_is_forgotten() {
    let mut os = os_at("no/such/volume", Io::new());
    os.apply_library(Some(games(&["A"])));
    os.game_started(Some(5));
    os.refresh_liveness(true);
    assert_eq!(os.engine().child(), Some(5));
    os.refresh_liveness(false);
    assert_eq!(os.engine().child(), None);
    assert!(os.select_game().is_ok());
}

#[test]
fn power_down_restores_indicator_on_failure() {
    let mut os = os_at("no/such/volume", Io::configured());
    let c = os.power_down();
    assert_eq!(c.program, "shutdown");
    assert_eq!(c.args, vec!["-h".to_string(), "now".to_string()]);
    assert_eq!(os.io().pwr_led(), Pin::Output(false));
    assert!(!os.finish_power_down(false));
    assert_eq!(os.io().pwr_led(), Pin::Output(true));
    os.power_down();
    assert!(os.finish_power_down(true));
    assert_eq!(os.io().pwr_led(), Pin::Output(false));
}

#[test]
fn io_refresh_follows_volume_and_buttons() {
    let mut os = os_at("src", Io::configured());
    os.power_down();
    assert_eq!(os.refresh_io(), Vec::<Request>::new());
    assert_eq!(os.io().gsk_led(), Pin::Output(true));
    assert_eq!(os.io().pwr_led(), Pin::Output(true));
    os.io().latch(Button::Power).raise();
    os.io().latch(Button::Eject).raise();
    assert_eq!(os.refresh_io(), vec![Request::Eject, Request::PowerDown]);
    assert_eq!(os.refresh_io(), Vec::<Request>::new());
    os.io().latch(Button::Home).raise();
    assert_eq!(os.update_inputs(), vec![Request::QuitGame]);
    let mut away = os_at("no/such/volume", Io::configured());
    away.refresh_io();
    assert_eq!(away.io().gsk_led(), Pin::Output(false));
    away.show_drive_presence(true);
    assert_eq!(away.io().gsk_led(), Pin::Output(true));
}

#[test]
fn button_requests_in_order() {
    assert_eq!(
        Os::requests_from(true, true, true),
        vec![Request::Eject, Request::QuitGame, Request::PowerDown]
    );
    assert_eq!(Os::requests_from(false, true, false), vec![Request::QuitGame]);
    assert!(Os::requests_from(false, false, false).is_empty());
}

#[test]
fn flush_unloads() {
    let mut os = os_at("no/such/volume", Io::new());
    os.apply_library(Some(games(&["A", "B"])));
    assert!(os.flush_library());
    assert_eq!(os.state(), State::Requesting);
    assert!(os.library().is_empty());
}
