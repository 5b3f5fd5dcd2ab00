//! The session controller.  It reacts to the periodic volume scan, to the
//! periodic I/O refresh, and to keys and buttons.  Where a reaction needs a
//! process started (the engine, an eject, a kill, a shutdown) it hands the
//! command to its host as a [`Request`] and records what came of it.
use vstd::prelude::*;
use crate::animator::{stepped, Animation, AnimationView};
use crate::engine::{
    after_kill, after_launch, after_liveness, kill_command, launch_plan, plan_view, probe_command,
    Engine, EngineView, LaunchError,
};
use crate::game::{is_package_path, Game};
use crate::gamestick::{eject_command, games_view, GameStick, GameStickView};
use crate::gpio::{driven, Io, IoView};
use crate::invocation::Invocation;
use crate::shelf::{
    empty_shelf, loaded_shelf, shelf_slot, shifted_left, shifted_right, Shelf, ShelfView, State,
};

verus! {

/// Work that the host carries out for the controller, each by starting a process.
#[derive(Debug, Clone, Copy, PartialEq, Eq, Structural)]
pub enum Request {
    /// Start the engine on the selected game.
    Launch,
    /// Eject the volume.
    Eject,
    /// Kill the running game and return home.
    QuitGame,
    /// Shut the machine down.
    PowerDown,
}

/// The keys the library screen reacts to.
#[derive(Debug, Clone, Copy, PartialEq, Eq, Structural)]
pub enum Key {
    Right,
    Left,
    Up,
    Down,
    /// Starts the selected game.
    Action,
    /// Ejects the volume.
    Eject,
}

pub struct OsView {
    pub engine: EngineView,
    pub drive: GameStickView,
    pub shelf: ShelfView,
    pub io: IoView,
    pub animation: AnimationView,
}

pub open spec fn opt_games_view(listing: Option<Vec<Game>>) -> Option<Seq<Seq<char>>> {
    match listing {
        Some(g) => Some(games_view(g@)),
        None => None,
    }
}

/// Whether every game of a listing is a package path.
pub open spec fn all_packages(listing: Option<Seq<Seq<char>>>) -> bool {
    listing matches Some(g) ==> forall|i: int| 0 <= i < g.len() ==> is_package_path(#[trigger] g[i])
}

/// The controller after loading the volume's library: the listing when the
/// volume could be read (`None` when it could not, which only rewinds the
/// selection).
pub open spec fn after_library(v: OsView, listing: Option<Seq<Seq<char>>>) -> OsView {
    match listing {
        Some(g) => OsView { shelf: loaded_shelf(g), ..v },
        None => OsView { shelf: ShelfView { count: 0, ..v.shelf }, ..v },
    }
}

/// The controller after unloading the library.
pub open spec fn after_flush(v: OsView) -> OsView {
    OsView { shelf: empty_shelf(), ..v }
}

/// The controller after a volume scan that found the volume `present` or not,
/// and, when it was loaded, `listing`.
pub open spec fn after_scan(v: OsView, present: bool, listing: Option<Seq<Seq<char>>>) -> OsView {
    match v.shelf.state {
        State::Requesting => if present {
            after_library(v, listing)
        } else {
            OsView { animation: stepped(v.animation), ..v }
        },
        State::Loading => if present {
            v
        } else {
            after_flush(v)
        },
    }
}

/// The controller after a key press: the selection moves only while a library
/// is shown.
pub open spec fn after_key(v: OsView, key: Key) -> OsView {
    if v.shelf.state is Loading {
        match key {
            Key::Right => OsView { shelf: shifted_right(v.shelf), ..v },
            Key::Left => OsView { shelf: shifted_left(v.shelf), ..v },
            _ => v,
        }
    } else {
        v
    }
}

/// The work a key press asks for: only while a library is shown.
pub open spec fn key_request(v: OsView, key: Key) -> Option<Request> {
    if v.shelf.state is Loading {
        match key {
            Key::Action => Some(Request::Launch),
            Key::Eject => Some(Request::Eject),
            _ => None,
        }
    } else {
        None
    }
}

/// The work the buttons ask for, in the order eject, home, power.
pub open spec fn input_requests(eject: bool, home: bool, power: bool) -> Seq<Request> {
    (if eject {
        seq![Request::Eject]
    } else {
        Seq::empty()
    }) + (if home {
        seq![Request::QuitGame]
    } else {
        Seq::empty()
    }) + (if power {
        seq![Request::PowerDown]
    } else {
        Seq::empty()
    })
}

/// The command that shuts the machine down.
pub open spec fn shutdown_command() -> (Seq<char>, Seq<Seq<char>>) {
    ("shutdown"@, seq!["-h"@, "now"@])
}

/// The controller with its power indicator driven to `on`.
pub open spec fn with_power_led(v: OsView, on: bool) -> OsView {
    OsView { io: IoView { pwr_led: driven(v.io.pwr_led, on), ..v.io }, ..v }
}

/// The controller with its volume indicator driven to `on`.
pub open spec fn with_volume_led(v: OsView, on: bool) -> OsView {
    OsView { io: IoView { gsk_led: driven(v.io.gsk_led, on), ..v.io }, ..v }
}

/// The session controller.
pub struct Os {
    /// The engine that runs games.
    engine: Engine,
    /// The removable volume.
    drive: GameStick,
    /// The loaded library, the selection and the lifecycle state.
    shelf: Shelf,
    /// The indicators and buttons.
    io: Io,
    /// The animation shown while no volume is loaded.
    insert_animation: Animation,
}

impl View for Os {
    type V = OsView;

    closed spec fn view(&self) -> OsView {
        OsView {
            engine: self.engine@,
            drive: self.drive@,
            shelf: self.shelf@,
            io: self.io@,
            animation: self.insert_animation@,
        }
    }
}

impl Os {
    /// A controller over these parts, with nothing loaded; the volume is loaded
    /// at once if it is already there.
    pub fn new(engine: Engine, drive: GameStick, io: Io, insert_animation: Animation) -> (r: Os)
        ensures
            ({
                let start = OsView {
                    engine: engine@,
                    drive: drive@,
                    shelf: empty_shelf(),
                    io: io@,
                    animation: insert_animation@,
                };
                r@ == start || exists|l: Option<Seq<Seq<char>>>|
                    all_packages(l) && r@ == after_library(start, l)
            }),
    {
        let mut os = Os { engine, drive, shelf: Shelf::new(), io, insert_animation };
        if os.drive.is_present() {
            os.initialize_library();
        }
        os
    }

    /// The games before, at and after the selection; none outside the library.
    pub fn get_nearby_games(&self) -> (r: [Option<&Game>; 3])
        ensures
            forall|k: int|
                0 <= k < 3 ==> {
                    &&& (#[trigger] r@[k]) is None <==> shelf_slot(self@.shelf, k) is None
                    &&& r@[k] matches Some(g) ==> shelf_slot(self@.shelf, k) == Some(g@)
                },
    {
        self.shelf.nearby()
    }

    /// Selects the next game unless the last one is selected.  Returns whether
    /// the selection moved.
    pub fn shift_shelf_right(&mut self) -> (r: bool)
        ensures
            final(self)@ == (OsView { shelf: shifted_right(old(self)@.shelf), ..old(self)@ }),
            r == (old(self)@.shelf.count + 1 < old(self)@.shelf.library.len()),
    {
        self.shelf.shift_right()
    }

    /// Selects the previous game unless the first one is selected.  Returns
    /// whether the selection moved.
    pub fn shift_shelf_left(&mut self) -> (r: bool)
        ensures
            final(self)@ == (OsView { shelf: shifted_left(old(self)@.shelf), ..old(self)@ }),
            r == (old(self)@.shelf.count >= 1),
    {
        self.shelf.shift_left()
    }

    /// Shows the library read from the volume, or, when the volume could not
    /// be read (`None`), stays as it is with the selection rewound.  Returns
    /// whether the library was loaded.
    pub fn apply_library(&mut self, listing: Option<Vec<Game>>) -> (r: bool)
        ensures
            final(self)@ == after_library(old(self)@, opt_games_view(listing)),
            r == listing is Some,
    {
        self.shelf.rewind();
        match listing {
            Some(games) => {
                self.shelf.fill(games);
                true
            },
            None => false,
        }
    }

    /// Loads the library from the volume, unless its directory cannot be read
    /// yet (it may be mounting).  Returns whether the library was loaded.
    pub fn initialize_library(&mut self) -> (r: bool)
        ensures
            exists|l: Option<Seq<Seq<char>>>|
                all_packages(l) && (r == l is Some) && final(self)@ == after_library(old(self)@, l),
    {
        let listing = if self.drive.can_read_dir() {
            Some(GameStick::load(self.drive.get_path()))
        } else {
            None
        };
        let ghost l = opt_games_view(listing);
        assert(all_packages(l)) by {
            if let Some(g) = listing {
                assert forall|i: int| 0 <= i < games_view(g@).len() implies is_package_path(
                    #[trigger] games_view(g@)[i],
                ) by {
                    assert(is_package_path(g@[i]@));
                }
            }
        }
        self.apply_library(listing)
    }

    /// Unloads the library and goes back to requesting a volume.
    pub fn flush_library(&mut self) -> (r: bool)
        ensures
            final(self)@ == after_flush(old(self)@),
            r,
    {
        self.shelf.clear();
        true
    }

    /// Reacts to a volume scan that found the volume `present` or not, with
    /// `listing` the library read from it when it is loaded now (`None` when
    /// it could not be read).
    pub fn scan_step(&mut self, present: bool, listing: Option<Vec<Game>>)
        ensures
            final(self)@ == after_scan(old(self)@, present, opt_games_view(listing)),
    {
        match self.shelf.state() {
            State::Requesting => if present {
                self.apply_library(listing);
            } else {
                self.insert_animation.next();
            },
            State::Loading => if !present {
                self.flush_library();
            },
        }
    }

    /// The periodic volume scan: loads the library when the volume has
    /// appeared, advances the idle animation while it is absent, and unloads
    /// the library once the volume is gone.
    pub fn scan_drive(&mut self)
        ensures
            exists|present: bool, l: Option<Seq<Seq<char>>>|
                all_packages(l) && final(self)@ == after_scan(old(self)@, present, l),
    {
        let present = self.drive.is_present();
        if present && self.shelf.state() == State::Requesting {
            let ghost before = self@;
            self.initialize_library();
            assert(exists|l: Option<Seq<Seq<char>>>|
                all_packages(l) && self@ == after_scan(before, present, l));
        } else {
            self.scan_step(present, None);
            assert(all_packages(None));
        }
    }

    /// Reacts to a key: moves the selection, or returns the work the key asks
    /// for.  Keys do nothing while no library is shown.
    pub fn handle_key(&mut self, key: Key) -> (r: Option<Request>)
        ensures
            final(self)@ == after_key(old(self)@, key),
            r == key_request(old(self)@, key),
    {
        if self.shelf.state() != State::Loading {
            return None;
        }
        match key {
            Key::Right => {
                self.shift_shelf_right();
                None
            },
            Key::Left => {
                self.shift_shelf_left();
                None
            },
            Key::Action => Some(Request::Launch),
            Key::Eject => Some(Request::Eject),
            _ => None,
        }
    }

    /// The command that starts the engine on the selected game, or why it
    /// cannot: no game is selected, a game is already running, or the engine
    /// executable is not a file at the moment of the call.
    pub fn select_game(&self) -> (r: Result<Invocation, LaunchError>)
        ensures
            shelf_slot(self@.shelf, 1) is None ==> plan_view(r) == Err::<
                (Seq<char>, Seq<Seq<char>>),
                LaunchError,
            >(LaunchError::NoGameSelected),
            shelf_slot(self@.shelf, 1) matches Some(g) ==> plan_view(r) == launch_plan(
                self@.engine,
                g,
                true,
            ) || plan_view(r) == launch_plan(self@.engine, g, false),
    {
        match self.shelf.selected() {
            Some(game) => self.engine.prepare_launch(game),
            None => Err(LaunchError::NoGameSelected),
        }
    }

    /// Records the outcome of starting the engine: the new process's
    /// identifier, or `None` when it could not be spawned.
    pub fn game_started(&mut self, spawned: Option<u32>) -> (r: bool)
        ensures
            final(self)@ == (OsView { engine: after_launch(old(self)@.engine, spawned), ..old(self)@ }),
            r == (old(self)@.engine.child is None && spawned is Some),
    {
        self.engine.record_launch(spawned)
    }

    /// The command that asks whether the running game's process is alive.
    pub fn probe_command(&self) -> (r: Option<Invocation>)
        ensures
            r is None <==> probe_command(self@.engine) is None,
            r matches Some(c) ==> probe_command(self@.engine) == Some(c@),
    {
        self.engine.probe_command()
    }

    /// Forgets the running game when its process was found dead.
    pub fn refresh_liveness(&mut self, alive: bool)
        ensures
            final(self)@ == (OsView { engine: after_liveness(old(self)@.engine, alive), ..old(self)@ }),
    {
        self.engine.refresh_liveness(alive);
    }

    /// The command that ejects the volume, if it is there right now and the
    /// platform has one.
    pub fn eject_invocation(&self) -> (r: Option<Invocation>)
        ensures
            r matches Some(c) ==> eject_command(self@.drive.platform, self@.drive.path) == Some(c@),
    {
        self.drive.eject()
    }

    /// Records the outcome of an eject: the library is unloaded when the eject
    /// command was started; otherwise nothing changes.  Returns whether it was.
    pub fn remove_drive(&mut self, ejected: bool) -> (r: bool)
        ensures
            final(self)@ == if ejected {
                after_flush(old(self)@)
            } else {
                old(self)@
            },
            r == ejected,
    {
        if ejected {
            self.flush_library()
        } else {
            false
        }
    }

    /// The command that kills the running game.
    pub fn quit_command(&self) -> (r: Option<Invocation>)
        ensures
            r is None <==> kill_command(self@.engine) is None,
            r matches Some(c) ==> kill_command(self@.engine) == Some(c@),
    {
        self.engine.kill_command()
    }

    /// Records the outcome of a kill.  Returns whether a game was running.
    pub fn quit_game(&mut self, signalled: bool) -> (r: bool)
        ensures
            r == old(self)@.engine.child is Some,
            final(self)@ == if r {
                OsView { engine: after_kill(old(self)@.engine, signalled), ..old(self)@ }
            } else {
                old(self)@
            },
    {
        self.engine.kill_game(signalled)
    }

    /// Turns the power indicator off and returns the shutdown command.
    pub fn power_down(&mut self) -> (r: Invocation)
        ensures
            final(self)@ == with_power_led(old(self)@, false),
            r@ == shutdown_command(),
    {
        self.io.disable_pwr_led();
        let args = vec![String::from_str("-h"), String::from_str("now")];
        let r = Invocation { program: String::from_str("shutdown"), args };
        assert(r@.1 =~= seq!["-h"@, "now"@]);
        r
    }

    /// Records the outcome of a shutdown: when the command could not be
    /// started the power indicator is turned back on.  Returns whether it was.
    pub fn finish_power_down(&mut self, spawned: bool) -> (r: bool)
        ensures
            final(self)@ == if spawned {
                old(self)@
            } else {
                with_power_led(old(self)@, true)
            },
            r == spawned,
    {
        if !spawned {
            self.io.enable_pwr_led();
        }
        spawned
    }

    /// Drives the volume indicator to show whether the volume is `present`.
    pub fn show_drive_presence(&mut self, present: bool)
        ensures
            final(self)@ == with_volume_led(old(self)@, present),
    {
        if present {
            self.io.enable_gsk_led();
        } else {
            self.io.disable_gsk_led();
        }
    }

    /// Drives the volume indicator from a fresh check of the volume.
    pub fn update_gamestick_led(&mut self)
        ensures
            exists|present: bool| final(self)@ == with_volume_led(old(self)@, present),
    {
        let present = self.drive.is_present();
        self.show_drive_presence(present);
    }

    /// Turns the power indicator on: the controller is running.
    pub fn update_power_led(&mut self)
        ensures
            final(self)@ == with_power_led(old(self)@, true),
    {
        self.io.enable_pwr_led();
    }

    /// The work asked for by the buttons that were pressed, in the order
    /// eject, home, power.
    pub fn requests_from(eject: bool, home: bool, power: bool) -> (r: Vec<Request>)
        ensures
            r@ == input_requests(eject, home, power),
    {
        let mut r: Vec<Request> = Vec::new();
        if eject {
            r.push(Request::Eject);
        }
        if home {
            r.push(Request::QuitGame);
        }
        if power {
            r.push(Request::PowerDown);
        }
        assert(r@ =~= input_requests(eject, home, power));
        r
    }

    /// Reads and clears the buttons' flags and returns the work they ask for.
    pub fn update_inputs(&self) -> (r: Vec<Request>)
        ensures
            exists|e: bool, h: bool, p: bool| r@ == input_requests(e, h, p),
    {
        let eject = self.io.check_eject_triggered();
        let home = self.io.check_home_triggered();
        let power = self.io.check_power_triggered();
        Os::requests_from(eject, home, power)
    }

    /// The periodic I/O refresh: the volume indicator follows a fresh check of
    /// the volume, the power indicator is turned on, and the buttons' flags are
    /// read and cleared.  Returns the work the buttons ask for.
    pub fn refresh_io(&mut self) -> (r: Vec<Request>)
        ensures
            exists|present: bool|
                final(self)@ == with_power_led(with_volume_led(old(self)@, present), true),
            exists|e: bool, h: bool, p: bool| r@ == input_requests(e, h, p),
    {
        self.update_gamestick_led();
        self.update_power_led();
        self.update_inputs()
    }

    /// The lifecycle state.
    pub fn state(&self) -> (r: State)
        ensures
            r == self@.shelf.state,
    {
        self.shelf.state()
    }

    /// The index of the selected game.
    pub fn selection_index(&self) -> (r: usize)
        ensures
            r == self@.shelf.count,
    {
        self.shelf.count()
    }

    /// The loaded games.
    pub fn library(&self) -> (r: &Vec<Game>)
        ensures
            games_view(r@) == self@.shelf.library,
    {
        self.shelf.library()
    }

    /// The engine supervisor.
    pub fn engine(&self) -> (r: &Engine)
        ensures
            r@ == self@.engine,
    {
        &self.engine
    }

    /// The volume.
    pub fn drive(&self) -> (r: &GameStick)
        ensures
            r@ == self@.drive,
    {
        &self.drive
    }

    /// The indicators and buttons.
    pub fn io(&self) -> (r: &Io)
        ensures
            r@ == self@.io,
    {
        &self.io
    }

    /// The idle animation.
    pub fn insert_animation(&self) -> (r: &Animation)
        ensures
            r@ == self@.animation,
    {
        &self.insert_animation
    }
}

} // verus!
