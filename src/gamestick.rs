//! The removable game volume: where it mounts, whether it is there, which game
//! packages it holds, and the command that ejects it.
use vstd::prelude::*;
use vstd::string::*;
use crate::game::{game_ext, is_package_path, Game, GAME_EXT};
use crate::host::{dir_is_listable, glob_paths, home_dir, path_exists, path_is_file};
use crate::invocation::Invocation;
use crate::path::{file_name, file_name_of};

verus! {

/// The host platforms the controller knows how to run on.
#[derive(Debug, Clone, Copy, PartialEq, Eq, Structural)]
pub enum Platform {
    Linux,
    MacOs,
    Unsupported,
}

/// The user name part of a home directory: its final component.
pub open spec fn user_of(home: Option<Seq<char>>) -> Option<Seq<char>> {
    match home {
        Some(h) => file_name(h),
        None => None,
    }
}

pub open spec fn opt_view(o: Option<&str>) -> Option<Seq<char>> {
    match o {
        Some(s) => Some(s@),
        None => None,
    }
}

/// Where the volume mounts on Linux: under the user's name when it is known.
pub open spec fn linux_mount(user: Option<Seq<char>>) -> Seq<char> {
    match user {
        Some(u) => "/media/"@ + u + "/GAMESTICK"@,
        None => "/media/GAMESTICK"@,
    }
}

/// Where the volume mounts on a platform, given the user's home directory;
/// none on an unsupported platform.
pub open spec fn mount_path(platform: Platform, home: Option<Seq<char>>) -> Option<Seq<char>> {
    match platform {
        Platform::Linux => Some(linux_mount(user_of(home))),
        Platform::MacOs => Some("/Volumes/GAMESTICK"@),
        Platform::Unsupported => None,
    }
}

/// The pattern that matches every game package at any depth below `root`.
pub open spec fn package_pattern(root: Seq<char>) -> Seq<char> {
    root + "/**/*."@ + game_ext()
}

/// What a walk of the volume found: each path with whether it is a regular file.
pub open spec fn found_view(found: Seq<(String, bool)>) -> Seq<(Seq<char>, bool)> {
    found.map_values(|e: (String, bool)| (e.0@, e.1))
}

pub open spec fn games_view(games: Seq<Game>) -> Seq<Seq<char>> {
    games.map_values(|g: Game| g@)
}

/// Whether a found entry is a game package: a regular file with the package
/// extension.
pub open spec fn is_package_entry(e: (Seq<char>, bool)) -> bool {
    e.1 && is_package_path(e.0)
}

/// The paths of the game packages among what a walk found, in the order found.
pub open spec fn selected(found: Seq<(Seq<char>, bool)>) -> Seq<Seq<char>>
    decreases found.len(),
{
    if found.len() == 0 {
        Seq::empty()
    } else if is_package_entry(found.last()) {
        selected(found.drop_last()).push(found.last().0)
    } else {
        selected(found.drop_last())
    }
}

/// The command line that ejects the volume mounted at `path`.
pub open spec fn eject_command(platform: Platform, path: Seq<char>) -> Option<(Seq<char>, Seq<Seq<char>>)> {
    match platform {
        Platform::MacOs => Some(("diskutil"@, seq!["unmount"@, path])),
        Platform::Linux => Some(("umount"@, seq![path])),
        Platform::Unsupported => None,
    }
}

pub proof fn lemma_selected_are_packages(found: Seq<(Seq<char>, bool)>)
    ensures
        forall|i: int| 0 <= i < selected(found).len() ==> is_package_path(#[trigger] selected(found)[i]),
    decreases found.len(),
{
    if found.len() > 0 {
        let prev = selected(found.drop_last());
        lemma_selected_are_packages(found.drop_last());
        assert forall|i: int| 0 <= i < selected(found).len() implies is_package_path(
            #[trigger] selected(found)[i],
        ) by {
            if i < prev.len() {
                assert(selected(found)[i] == prev[i]);
            }
        }
    }
}

/// How many found entries carry the package extension.
pub open spec fn package_count(found: Seq<(Seq<char>, bool)>) -> nat
    decreases found.len(),
{
    if found.len() == 0 {
        0
    } else {
        package_count(found.drop_last()) + if is_package_path(found.last().0) {
            1nat
        } else {
            0nat
        }
    }
}

/// How many found entries carry another extension, or none.
pub open spec fn other_count(found: Seq<(Seq<char>, bool)>) -> nat
    decreases found.len(),
{
    if found.len() == 0 {
        0
    } else {
        other_count(found.drop_last()) + if is_package_path(found.last().0) {
            0nat
        } else {
            1nat
        }
    }
}

/// Of a tree of regular files, the scan keeps exactly those with the package
/// extension, at whatever depth they lie, and leaves out all the others.
pub proof fn lemma_scan_counts_packages(found: Seq<(Seq<char>, bool)>)
    requires
        forall|i: int| 0 <= i < found.len() ==> (#[trigger] found[i]).1,
    ensures
        selected(found).len() == package_count(found),
        found.len() == package_count(found) + other_count(found),
        forall|i: int| 0 <= i < selected(found).len() ==> is_package_path(#[trigger] selected(found)[i]),
    decreases found.len(),
{
    lemma_selected_are_packages(found);
    if found.len() > 0 {
        let rest = found.drop_last();
        assert forall|i: int| 0 <= i < rest.len() implies (#[trigger] rest[i]).1 by {
            assert(rest[i] == found[i]);
        }
        lemma_scan_counts_packages(rest);
        assert(found.last() == found[found.len() - 1]);
    }
}

pub struct GameStickView {
    pub path: Seq<char>,
    pub platform: Platform,
}

/// The removable volume, known by the path where it mounts.
#[derive(Debug, PartialEq, Eq)]
pub struct GameStick {
    path: String,
    platform: Platform,
}

impl View for GameStick {
    type V = GameStickView;

    closed spec fn view(&self) -> GameStickView {
        GameStickView { path: self.path@, platform: self.platform }
    }
}

impl GameStick {
    /// The volume's mount path on `platform` for a user whose home directory is
    /// `home`.
    pub fn mount_path(platform: Platform, home: Option<&str>) -> (r: Option<String>)
        ensures
            r is None <==> mount_path(platform, opt_view(home)) is None,
            r matches Some(p) ==> mount_path(platform, opt_view(home)) == Some(p@),
    {
        match platform {
            Platform::Linux => {
                let user = match home {
                    Some(h) => file_name_of(h),
                    None => None,
                };
                match user {
                    Some(u) => {
                        let mut p = String::from_str("/media/");
                        p.append(u);
                        p.append("/GAMESTICK");
                        Some(p)
                    },
                    None => Some(String::from_str("/media/GAMESTICK")),
                }
            },
            Platform::MacOs => Some(String::from_str("/Volumes/GAMESTICK")),
            Platform::Unsupported => None,
        }
    }

    /// The volume as it mounts on `platform` for the user whose home directory
    /// is `home`; none on an unsupported platform.
    pub fn locate(platform: Platform, home: Option<&str>) -> (r: Option<GameStick>)
        ensures
            r is None <==> platform is Unsupported,
            r matches Some(g) ==> Some(g@.path) == mount_path(platform, opt_view(home))
                && g@.platform == platform,
    {
        match GameStick::mount_path(platform, home) {
            Some(path) => Some(GameStick { path, platform }),
            None => None,
        }
    }

    /// The volume as it mounts on `platform` for the current user; none on an
    /// unsupported platform.
    pub fn new(platform: Platform) -> (r: Option<GameStick>)
        ensures
            r is None <==> platform is Unsupported,
            r matches Some(g) ==> g@.platform == platform,
            platform is MacOs ==> (r matches Some(g) && g@.path == "/Volumes/GAMESTICK"@),
            platform is Linux ==> (r matches Some(g) && exists|u: Option<Seq<char>>|
                g@.path == linux_mount(u)),
    {
        match platform {
            Platform::Linux => {
                let home = home_dir();
                match home {
                    Some(h) => GameStick::locate(platform, Some(h.as_str())),
                    None => GameStick::locate(platform, None),
                }
            },
            _ => GameStick::locate(platform, None),
        }
    }

    /// The volume at an explicit path.
    pub fn at(path: String, platform: Platform) -> (r: GameStick)
        ensures
            r@.path == path@,
            r@.platform == platform,
    {
        GameStick { path, platform }
    }

    /// The volume at `testenv/GAMESTICK`, relative to the working directory.
    pub fn test_new() -> (r: GameStick)
        ensures
            r@.path == "testenv/GAMESTICK"@,
            r@.platform == Platform::Linux,
    {
        GameStick { path: String::from_str("testenv/GAMESTICK"), platform: Platform::Linux }
    }

    /// The path where the volume mounts.
    pub fn get_path(&self) -> (r: &str)
        ensures
            r@ == self@.path,
    {
        self.path.as_str()
    }

    /// Whether the volume's path exists right now.
    pub fn is_present(&self) -> (r: bool) {
        path_exists(self.path.as_str())
    }

    /// Whether the volume's directory can be listed right now (it may exist and
    /// still be unreadable, while it mounts or for want of permission).
    pub fn can_read_dir(&self) -> (r: bool) {
        dir_is_listable(self.path.as_str())
    }

    /// The pattern that matches every game package at any depth below `root`.
    pub fn package_pattern(root: &str) -> (r: String)
        ensures
            r@ == package_pattern(root@),
    {
        let mut p = String::from_str(root);
        p.append("/**/*.");
        proof {
            reveal_strlit("pck");
        }
        assert(GAME_EXT@ =~= game_ext());
        p.append(GAME_EXT);
        p
    }

    /// The games among what a walk found: each regular file with the package
    /// extension, in the order found.
    pub fn select_games(found: &Vec<(String, bool)>) -> (r: Vec<Game>)
        ensures
            games_view(r@) == selected(found_view(found@)),
    {
        let ghost all = found_view(found@);
        let mut games: Vec<Game> = Vec::new();
        let mut i: usize = 0;
        while i < found.len()
            invariant
                i <= found.len(),
                all == found_view(found@),
                games_view(games@) == selected(all.subrange(0, i as int)),
            decreases found.len() - i,
        {
            let ghost before = all.subrange(0, i as int);
            assert(all.subrange(0, i + 1).drop_last() =~= before);
            assert(all.subrange(0, i + 1).last() == all[i as int]);
            let is_file = found[i].1;
            if is_file && Game::has_game_ext(found[i].0.as_str()) {
                games.push(Game::new(found[i].0.clone()));
                assert(games_view(games@) =~= games_view(games@.drop_last()).push(
                    games@.last()@,
                ));
            }
            i = i + 1;
        }
        assert(all.subrange(0, i as int) =~= all);
        games
    }

    /// The game packages at any depth below `root`, in the order a walk of the
    /// file system finds them; empty when `root` does not exist or holds none.
    pub fn load(root: &str) -> (r: Vec<Game>)
        ensures
            forall|i: int| 0 <= i < r@.len() ==> is_package_path(#[trigger] r@[i]@),
    {
        let pattern = GameStick::package_pattern(root);
        let entries = match glob_paths(pattern.as_str()) {
            Some(entries) => entries,
            None => Vec::new(),
        };
        let mut found: Vec<(String, bool)> = Vec::new();
        let mut i: usize = 0;
        while i < entries.len()
            invariant
                i <= entries.len(),
            decreases entries.len() - i,
        {
            match &entries[i] {
                Some(p) => {
                    let is_file = path_is_file(p.as_str());
                    found.push((p.clone(), is_file));
                },
                None => {},
            }
            i = i + 1;
        }
        let games = GameStick::select_games(&found);
        proof {
            lemma_selected_are_packages(found_view(found@));
            assert forall|i: int| 0 <= i < games@.len() implies is_package_path(#[trigger] games@[i]@) by {
                assert(games_view(games@)[i] == games@[i]@);
            }
        }
        games
    }

    /// The command that ejects the volume on its platform; none where the
    /// platform has no such command.
    pub fn eject_command(&self) -> (r: Option<Invocation>)
        ensures
            r is None <==> eject_command(self@.platform, self@.path) is None,
            r matches Some(c) ==> eject_command(self@.platform, self@.path) == Some(c@),
    {
        match self.platform {
            Platform::MacOs => {
                let args = vec![String::from_str("unmount"), self.path.clone()];
                let c = Invocation { program: String::from_str("diskutil"), args };
                assert(c@.1 =~= seq!["unmount"@, self.path@]);
                Some(c)
            },
            Platform::Linux => {
                let args = vec![self.path.clone()];
                let c = Invocation { program: String::from_str("umount"), args };
                assert(c@.1 =~= seq![self.path@]);
                Some(c)
            },
            Platform::Unsupported => None,
        }
    }

    /// The command that ejects the volume, if the volume is there right now and
    /// its platform has such a command.
    pub fn eject(&self) -> (r: Option<Invocation>)
        ensures
            r matches Some(c) ==> eject_command(self@.platform, self@.path) == Some(c@),
    {
        if self.is_present() {
            self.eject_command()
        } else {
            None
        }
    }
}

} // verus!
