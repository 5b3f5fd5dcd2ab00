//! One game package found on the volume.
use vstd::prelude::*;
use vstd::string::*;
use crate::host::{path_exists, path_is_file};
use crate::path::{
    extension, extension_of, file_stem, file_stem_of, free_of, lemma_with_extension_sibling, parent,
    with_extension, with_extension_of,
};
use crate::text::same_text;

verus! {

/// The extension of a game package.
pub const GAME_EXT: &'static str = "pck";

/// The extension of a game's icon, which sits beside its package.
pub const ICON_EXT: &'static str = "png";

pub open spec fn game_ext() -> Seq<char> {
    seq!['p', 'c', 'k']
}

pub open spec fn icon_ext() -> Seq<char> {
    seq!['p', 'n', 'g']
}

/// Whether a path names a game package by its extension (case-sensitive).
pub open spec fn is_package_path(p: Seq<char>) -> bool {
    extension(p) == Some(game_ext())
}

/// Where the icon of the package at `p` is looked for: the same path with the
/// icon extension in place of its own.
pub open spec fn icon_path(p: Seq<char>) -> Seq<char> {
    with_extension(p, icon_ext())
}

/// The icon looked for beside a package is its sibling: the same directory,
/// the same stem, and the icon extension.
pub proof fn lemma_icon_is_sibling(p: Seq<char>)
    requires
        file_stem(p) is Some,
    ensures
        parent(icon_path(p)) == parent(p),
        file_stem(icon_path(p)) == file_stem(p),
        extension(icon_path(p)) == Some(icon_ext()),
{
    assert(free_of(icon_ext(), '/'));
    assert(free_of(icon_ext(), '.'));
    lemma_with_extension_sibling(p, icon_ext());
}

/// The display name of the package at `p`: its file name without extension,
/// empty when the path has no file name.
pub open spec fn game_name(p: Seq<char>) -> Seq<char> {
    match file_stem(p) {
        Some(s) => s,
        None => Seq::empty(),
    }
}

/// A game package, known by the path of its package file.
#[derive(Debug, PartialEq, Eq)]
pub struct Game {
    pck: String,
}

impl View for Game {
    type V = Seq<char>;

    closed spec fn view(&self) -> Seq<char> {
        self.pck@
    }
}

impl Game {
    pub fn new(pck: String) -> (g: Game)
        ensures
            g@ == pck@,
    {
        Game { pck }
    }

    /// The path of the game's package file.
    pub fn get_pck(&self) -> (r: &str)
        ensures
            r@ == self@,
    {
        self.pck.as_str()
    }

    /// Whether `path` carries the game package extension.
    pub fn has_game_ext(path: &str) -> (r: bool)
        ensures
            r == is_package_path(path@),
    {
        proof {
            reveal_strlit("pck");
        }
        assert(GAME_EXT@ =~= game_ext());
        match extension_of(path) {
            Some(ext) => same_text(ext, GAME_EXT),
            None => false,
        }
    }

    /// Whether `path` is a regular file right now and carries the game package
    /// extension.
    pub fn is_game_file(path: &str) -> (r: bool)
        ensures
            r ==> is_package_path(path@),
    {
        path_is_file(path) && Game::has_game_ext(path)
    }

    /// The game's icon: the file beside the package with the icon extension, if
    /// it is a regular file at the moment of the call.
    pub fn get_icon_path(&self) -> (r: Option<String>)
        ensures
            r matches Some(i) ==> i@ == icon_path(self@),
    {
        proof {
            reveal_strlit("png");
        }
        let icon = with_extension_of(self.pck.as_str(), ICON_EXT);
        if path_exists(icon.as_str()) && path_is_file(icon.as_str()) {
            Some(icon)
        } else {
            None
        }
    }

    /// The game's display name: its package file name without extension.
    pub fn get_name(&self) -> (r: &str)
        ensures
            r@ == game_name(self@),
    {
        match file_stem_of(self.pck.as_str()) {
            Some(s) => s,
            None => {
                let empty = "";
                proof {
                    reveal_strlit("");
                }
                assert(empty@ =~= Seq::<char>::empty());
                empty
            },
        }
    }
}

} // verus!
