//! The loaded library and the selection in it, with the controller's lifecycle
//! state: no volume loaded (`Requesting`, library empty) or a volume loaded
//! (`Loading`, library possibly empty).  The selection always points into the
//! library, or is 0 when the library is empty.
use vstd::prelude::*;
use crate::game::Game;
use crate::gamestick::games_view;

verus! {

/// The controller's lifecycle state.
#[derive(Debug, Clone, Copy, PartialEq, Eq, Structural)]
pub enum State {
    /// No volume is loaded; the library is empty.
    Requesting,
    /// A volume is loaded and its library is shown.
    Loading,
}

pub struct ShelfView {
    pub library: Seq<Seq<char>>,
    pub count: nat,
    pub state: State,
}

/// The invariant of the session: nothing is loaded while requesting a volume,
/// and the selection lies within the library (0 when it is empty).
pub open spec fn shelf_wf(v: ShelfView) -> bool {
    &&& v.state is Requesting ==> v.library.len() == 0
    &&& v.library.len() == 0 ==> v.count == 0
    &&& v.library.len() > 0 ==> v.count < v.library.len()
}

/// Nothing loaded.
pub open spec fn empty_shelf() -> ShelfView {
    ShelfView { library: Seq::empty(), count: 0, state: State::Requesting }
}

/// A freshly loaded library, its first game selected.
pub open spec fn loaded_shelf(games: Seq<Seq<char>>) -> ShelfView {
    ShelfView { library: games, count: 0, state: State::Loading }
}

/// The selection after a move to the next game: it stays on the last one.
pub open spec fn shifted_right(v: ShelfView) -> ShelfView {
    if v.count + 1 < v.library.len() {
        ShelfView { count: v.count + 1, ..v }
    } else {
        v
    }
}

/// The selection after a move to the previous game: it stays on the first one.
pub open spec fn shifted_left(v: ShelfView) -> ShelfView {
    if v.count >= 1 {
        ShelfView { count: (v.count - 1) as nat, ..v }
    } else {
        v
    }
}

/// The game at `offset` from the one before the selection: 0 is the previous
/// game, 1 the selected one, 2 the next one; none outside the library.
pub open spec fn shelf_slot(v: ShelfView, offset: int) -> Option<Seq<char>> {
    let i = v.count + offset - 1;
    if 0 <= i < v.library.len() {
        Some(v.library[i])
    } else {
        None
    }
}

/// The shelf after a sequence of moves, `true` for next and `false` for previous.
pub open spec fn after_moves(v: ShelfView, moves: Seq<bool>) -> ShelfView
    decreases moves.len(),
{
    if moves.len() == 0 {
        v
    } else if moves.last() {
        shifted_right(after_moves(v, moves.drop_last()))
    } else {
        shifted_left(after_moves(v, moves.drop_last()))
    }
}

/// Moving the selection, any number of times in either direction, keeps it
/// within the library (at 0 when the library is empty) and changes nothing else.
pub proof fn lemma_moves_stay_in_range(v: ShelfView, moves: Seq<bool>)
    requires
        shelf_wf(v),
    ensures
        shelf_wf(after_moves(v, moves)),
        after_moves(v, moves).library == v.library,
        after_moves(v, moves).state == v.state,
        v.library.len() == 0 ==> after_moves(v, moves).count == 0,
        v.library.len() > 0 ==> after_moves(v, moves).count < v.library.len(),
    decreases moves.len(),
{
    if moves.len() > 0 {
        lemma_moves_stay_in_range(v, moves.drop_last());
    }
}

/// With the first game of a non-empty library selected, the nearby games are:
/// none before, the first game, and the second one (if any) after.
pub proof fn lemma_nearby_at_start(v: ShelfView)
    requires
        v.library.len() > 0,
        v.count == 0,
    ensures
        shelf_slot(v, 0) is None,
        shelf_slot(v, 1) == Some(v.library[0]),
        v.library.len() > 1 ==> shelf_slot(v, 2) == Some(v.library[1]),
        v.library.len() == 1 ==> shelf_slot(v, 2) is None,
{
}

/// The library, the selection and the lifecycle state.
pub struct Shelf {
    library: Vec<Game>,
    count: usize,
    state: State,
}

impl View for Shelf {
    type V = ShelfView;

    closed spec fn view(&self) -> ShelfView {
        ShelfView { library: games_view(self.library@), count: self.count as nat, state: self.state }
    }
}

impl Shelf {
    #[verifier::type_invariant]
    spec fn well_formed(&self) -> bool {
        shelf_wf(self@)
    }

    /// A shelf with nothing loaded.
    pub fn new() -> (r: Shelf)
        ensures
            r@ == empty_shelf(),
    {
        let r = Shelf { library: Vec::new(), count: 0, state: State::Requesting };
        assert(r@.library =~= Seq::<Seq<char>>::empty());
        r
    }

    fn game_at(&self, i: usize) -> (r: Option<&Game>)
        ensures
            i < self@.library.len() ==> (r matches Some(g) && g@ == self@.library[i as int]),
            i >= self@.library.len() ==> r is None,
    {
        if i < self.library.len() {
            Some(&self.library[i])
        } else {
            None
        }
    }

    /// The games before, at and after the selection; none outside the library.
    pub fn nearby(&self) -> (r: [Option<&Game>; 3])
        ensures
            forall|k: int|
                0 <= k < 3 ==> {
                    &&& (#[trigger] r@[k]) is None <==> shelf_slot(self@, k) is None
                    &&& r@[k] matches Some(g) ==> shelf_slot(self@, k) == Some(g@)
                },
    {
        proof {
            use_type_invariant(self);
        }
        let before = if self.count == 0 {
            None
        } else {
            self.game_at(self.count - 1)
        };
        let at = self.game_at(self.count);
        let n = self.library.len();
        assert(self@.library.len() == n);
        let after = if self.count < n {
            self.game_at(self.count + 1)
        } else {
            None
        };
        let r = [before, at, after];
        assert(r@[0] == before && r@[1] == at && r@[2] == after);
        r
    }

    /// The selected game, if the library is not empty.
    pub fn selected(&self) -> (r: Option<&Game>)
        ensures
            r is None <==> shelf_slot(self@, 1) is None,
            r matches Some(g) ==> shelf_slot(self@, 1) == Some(g@),
    {
        self.game_at(self.count)
    }

    /// Moves the selection to the next game unless it is on the last one.
    /// Returns whether it moved.
    pub fn shift_right(&mut self) -> (r: bool)
        ensures
            final(self)@ == shifted_right(old(self)@),
            r == (old(self)@.count + 1 < old(self)@.library.len()),
    {
        proof {
            use_type_invariant(&*self);
        }
        let n = self.library.len();
        assert(self@.library.len() == n);
        let able = self.count < n && self.count + 1 < n;
        if able {
            self.count = self.count + 1;
        }
        able
    }

    /// Moves the selection to the previous game unless it is on the first one.
    /// Returns whether it moved.
    pub fn shift_left(&mut self) -> (r: bool)
        ensures
            final(self)@ == shifted_left(old(self)@),
            r == (old(self)@.count >= 1),
    {
        proof {
            use_type_invariant(&*self);
        }
        let able = self.count >= 1;
        if able {
            self.count = self.count - 1;
        }
        able
    }

    /// Shows a newly loaded library, its first game selected.
    pub fn fill(&mut self, games: Vec<Game>)
        ensures
            final(self)@ == loaded_shelf(games_view(games@)),
    {
        proof {
            use_type_invariant(&*self);
        }
        self.count = 0;
        self.state = State::Loading;
        self.library = games;
    }

    /// Moves the selection back to the first game.
    pub fn rewind(&mut self)
        ensures
            final(self)@ == (ShelfView { count: 0, ..old(self)@ }),
    {
        proof {
            use_type_invariant(&*self);
        }
        self.count = 0;
    }

    /// Unloads the library.
    pub fn clear(&mut self)
        ensures
            final(self)@ == empty_shelf(),
    {
        proof {
            use_type_invariant(&*self);
        }
        self.count = 0;
        self.library = Vec::new();
        self.state = State::Requesting;
        assert(self@.library =~= Seq::<Seq<char>>::empty());
    }

    /// The lifecycle state.
    pub fn state(&self) -> (r: State)
        ensures
            r == self@.state,
    {
        self.state
    }

    /// The index of the selected game.
    pub fn count(&self) -> (r: usize)
        ensures
            r == self@.count,
    {
        self.count
    }

    /// The loaded games, in the order they were found.
    pub fn library(&self) -> (r: &Vec<Game>)
        ensures
            games_view(r@) == self@.library,
    {
        &self.library
    }
}

} // verus!
