//! The engine supervisor: it starts the external game engine on one game at a
//! time, keeps the child process's identifier, and forgets it once the process
//! is found dead or has been killed.  Starting processes is the host's work:
//! the supervisor says which command to run and records what came of it.
use vstd::prelude::*;
use vstd::string::*;
use crate::game::Game;
use crate::host::path_is_file;
use crate::invocation::Invocation;
use crate::text::{decimal, decimal_text};

verus! {

/// Why a game could not be started.
#[derive(Debug, Clone, Copy, PartialEq, Eq, Structural)]
pub enum LaunchError {
    /// A game is already running under this process identifier.
    AlreadyRunning(u32),
    /// The engine executable is not a file.
    EngineNotFound,
    /// No game is selected.
    NoGameSelected,
}

pub struct EngineView {
    pub exe: Seq<char>,
    pub child: Option<u32>,
}

/// The arguments that start the engine full screen, on top, on a game package.
pub open spec fn launch_args(game: Seq<char>) -> Seq<Seq<char>> {
    seq!["--fullscreen"@, "--always-on-top"@, "--main-pack"@, game]
}

/// What a request to start `game` comes to, given whether the engine
/// executable is a file.
pub open spec fn launch_plan(e: EngineView, game: Seq<char>, exe_present: bool) -> Result<
    (Seq<char>, Seq<Seq<char>>),
    LaunchError,
> {
    match e.child {
        Some(pid) => Err(LaunchError::AlreadyRunning(pid)),
        None => if exe_present {
            Ok((e.exe, launch_args(game)))
        } else {
            Err(LaunchError::EngineNotFound)
        },
    }
}

pub open spec fn plan_view(r: Result<Invocation, LaunchError>) -> Result<
    (Seq<char>, Seq<Seq<char>>),
    LaunchError,
> {
    match r {
        Ok(c) => Ok(c@),
        Err(e) => Err(e),
    }
}

/// The supervisor once a start has been tried: a spawned process is tracked
/// only when none was; a failed spawn changes nothing.
pub open spec fn after_launch(e: EngineView, spawned: Option<u32>) -> EngineView {
    match (e.child, spawned) {
        (None, Some(pid)) => EngineView { child: Some(pid), ..e },
        _ => e,
    }
}

/// The supervisor once the tracked process has been checked.
pub open spec fn after_liveness(e: EngineView, alive: bool) -> EngineView {
    if alive {
        e
    } else {
        EngineView { child: None, ..e }
    }
}

/// The command that asks for the status of the tracked process.
pub open spec fn probe_command(e: EngineView) -> Option<(Seq<char>, Seq<Seq<char>>)> {
    match e.child {
        Some(pid) => Some(("ps"@, seq!["-p"@, decimal(pid as nat)])),
        None => None,
    }
}

/// The command that terminates the tracked process.
pub open spec fn kill_command(e: EngineView) -> Option<(Seq<char>, Seq<Seq<char>>)> {
    match e.child {
        Some(pid) => Some(("kill"@, seq![decimal(pid as nat)])),
        None => None,
    }
}

/// The supervisor once a kill has been tried: the process is forgotten when the
/// signal went out.
pub open spec fn after_kill(e: EngineView, signalled: bool) -> EngineView {
    if signalled {
        EngineView { child: None, ..e }
    } else {
        e
    }
}

/// The text that a process status shows for a process that has used no CPU
/// time, `0:00.00`, in ASCII.
pub open spec fn idle_marker() -> Seq<u8> {
    seq![48u8, 58u8, 48u8, 48u8, 46u8, 48u8, 48u8]
}

pub open spec fn occurs_at(s: Seq<u8>, pat: Seq<u8>, i: int) -> bool {
    0 <= i && i + pat.len() <= s.len() && s.subrange(i, i + pat.len()) == pat
}

pub open spec fn occurs_in(s: Seq<u8>, pat: Seq<u8>) -> bool {
    exists|i: int| occurs_at(s, pat, i)
}

/// Whether a process status report shows a live, busy process: the query
/// succeeded and the process has used CPU time.
pub open spec fn reports_alive(success: bool, out: Seq<u8>) -> bool {
    success && !occurs_in(out, idle_marker())
}

/// Once a game has been started, a second start is refused while its process
/// is tracked, whatever the game and whether the engine is present, and
/// recording another spawn leaves the tracked identifier as it was.
pub proof fn lemma_second_launch_rejected(
    e: EngineView,
    first: Seq<char>,
    second: Seq<char>,
    exe_present: bool,
    exe_present_again: bool,
    pid: u32,
    other: u32,
)
    requires
        launch_plan(e, first, exe_present) is Ok,
    ensures
        after_launch(e, Some(pid)).child == Some(pid),
        launch_plan(after_launch(e, Some(pid)), second, exe_present_again) == Err::<
            (Seq<char>, Seq<Seq<char>>),
            LaunchError,
        >(LaunchError::AlreadyRunning(pid)),
        after_launch(after_launch(e, Some(pid)), Some(other)) == after_launch(e, Some(pid)),
{
}

fn occurs_in_bytes(s: &[u8], pat: &[u8]) -> (r: bool)
    ensures
        r == occurs_in(s@, pat@),
{
    let n = s.len();
    let m = pat.len();
    if m == 0 {
        assert(s@.subrange(0, 0) =~= pat@);
        assert(occurs_at(s@, pat@, 0));
        return true;
    }
    if m > n {
        assert forall|i: int| !occurs_at(s@, pat@, i) by {}
        return false;
    }
    let last = n - m;
    let mut i: usize = 0;
    while i <= last
        invariant
            n == s@.len(),
            m == pat@.len(),
            0 < m <= n,
            last == n - m,
            forall|k: int| 0 <= k < i ==> !occurs_at(s@, pat@, k),
        decreases last + 1 - i,
    {
        let mut j: usize = 0;
        let mut same = true;
        while same && j < m
            invariant
                i <= last,
                n == s@.len(),
                m == pat@.len(),
                0 < m <= n,
                last == n - m,
                j <= m,
                forall|t: int| 0 <= t < j ==> s@[i + t] == pat@[t],
                !same ==> j < pat@.len() && s@[i + j] != pat@[j as int],
            decreases m - j + if same { 1int } else { 0int },
        {
            if s[i + j] == pat[j] {
                j = j + 1;
            } else {
                same = false;
            }
        }
        if j == m {
            assert(s@.subrange(i as int, i + pat@.len()) =~= pat@);
            assert(occurs_at(s@, pat@, i as int));
            return true;
        }
        assert(!occurs_at(s@, pat@, i as int)) by {
            if occurs_at(s@, pat@, i as int) {
                assert(s@.subrange(i as int, i + pat@.len())[j as int] == s@[i + j]);
            }
        }
        i = i + 1;
    }
    assert forall|k: int| !occurs_at(s@, pat@, k) by {
        if 0 <= k <= last {
            assert(k < i);
        }
    }
    false
}

fn command_for_pid(program: &str, flag: Option<&str>, pid: u32) -> (r: Invocation)
    ensures
        r@.0 == program@,
        flag matches Some(f) ==> r@.1 == seq![f@, decimal(pid as nat)],
        flag is None ==> r@.1 == seq![decimal(pid as nat)],
{
    let mut args: Vec<String> = Vec::new();
    match flag {
        Some(f) => args.push(String::from_str(f)),
        None => {},
    }
    args.push(decimal_text(pid));
    let r = Invocation { program: String::from_str(program), args };
    proof {
        match flag {
            Some(f) => assert(r@.1 =~= seq![f@, decimal(pid as nat)]),
            None => assert(r@.1 =~= seq![decimal(pid as nat)]),
        }
    }
    r
}

/// The supervisor of the external game engine.
#[derive(Debug, PartialEq, Eq)]
pub struct Engine {
    /// Path of the engine executable.
    exe: String,
    /// The process running the current game, if any.
    child: Option<u32>,
}

impl View for Engine {
    type V = EngineView;

    closed spec fn view(&self) -> EngineView {
        EngineView { exe: self.exe@, child: self.child }
    }
}

impl Engine {
    /// A supervisor of the engine at `exe_path`, or of `godot` looked up on the
    /// search path when none is configured; no game is running.
    pub fn new(exe_path: Option<String>) -> (r: Engine)
        ensures
            exe_path matches Some(p) ==> r@.exe == p@,
            exe_path is None ==> r@.exe == "godot"@,
            r@.child is None,
    {
        let exe = match exe_path {
            Some(p) => p,
            None => String::from_str("godot"),
        };
        Engine { exe, child: None }
    }

    /// The process identifier of the running game, if any.
    pub fn child(&self) -> (r: Option<u32>)
        ensures
            r == self@.child,
    {
        self.child
    }

    /// The path of the engine executable.
    pub fn exe(&self) -> (r: &str)
        ensures
            r@ == self@.exe,
    {
        self.exe.as_str()
    }

    /// Whether a game process is tracked.
    pub fn is_in_game(&self) -> (r: bool)
        ensures
            r == self@.child is Some,
    {
        self.child.is_some()
    }

    /// The command that starts `game`, or why it cannot be started, given
    /// whether the engine executable is a file.
    pub fn plan_launch(&self, game: &Game, exe_present: bool) -> (r: Result<Invocation, LaunchError>)
        ensures
            plan_view(r) == launch_plan(self@, game@, exe_present),
    {
        match self.child {
            Some(pid) => Err(LaunchError::AlreadyRunning(pid)),
            None => if exe_present {
                let args = vec![
                    String::from_str("--fullscreen"),
                    String::from_str("--always-on-top"),
                    String::from_str("--main-pack"),
                    String::from_str(game.get_pck()),
                ];
                let c = Invocation { program: self.exe.clone(), args };
                assert(c@.1 =~= launch_args(game@));
                Ok(c)
            } else {
                Err(LaunchError::EngineNotFound)
            },
        }
    }

    /// The command that starts `game`: refused while a game is tracked, and
    /// when the engine executable is not a file at the moment of the call.
    pub fn prepare_launch(&self, game: &Game) -> (r: Result<Invocation, LaunchError>)
        ensures
            plan_view(r) == launch_plan(self@, game@, true) || plan_view(r) == launch_plan(
                self@,
                game@,
                false,
            ),
    {
        let present = if self.child.is_none() {
            path_is_file(self.exe.as_str())
        } else {
            false
        };
        self.plan_launch(game, present)
    }

    /// Records the outcome of starting a game: the new process's identifier,
    /// or `None` when it could not be spawned.  Returns whether a process is
    /// now tracked because of it.
    pub fn record_launch(&mut self, spawned: Option<u32>) -> (r: bool)
        ensures
            final(self)@ == after_launch(old(self)@, spawned),
            r == (old(self)@.child is None && spawned is Some),
    {
        if self.child.is_none() && spawned.is_some() {
            self.child = spawned;
            true
        } else {
            false
        }
    }

    /// The command that asks for the status of the tracked process.
    pub fn probe_command(&self) -> (r: Option<Invocation>)
        ensures
            r is None <==> probe_command(self@) is None,
            r matches Some(c) ==> probe_command(self@) == Some(c@),
    {
        match self.child {
            Some(pid) => Some(command_for_pid("ps", Some("-p"), pid)),
            None => None,
        }
    }

    /// Whether a process status query shows a live, busy process: it succeeded
    /// and the report does not show a process that has used no CPU time.
    pub fn alive_from_status(success: bool, stdout: &[u8]) -> (r: bool)
        ensures
            r == reports_alive(success, stdout@),
    {
        let marker: Vec<u8> = vec![48u8, 58u8, 48u8, 48u8, 46u8, 48u8, 48u8];
        assert(marker@ =~= idle_marker());
        success && !occurs_in_bytes(stdout, marker.as_slice())
    }

    /// Forgets the tracked process when it was found dead.
    pub fn refresh_liveness(&mut self, alive: bool)
        ensures
            final(self)@ == after_liveness(old(self)@, alive),
    {
        if !alive {
            self.child = None;
        }
    }

    /// The command that terminates the tracked process.
    pub fn kill_command(&self) -> (r: Option<Invocation>)
        ensures
            r is None <==> kill_command(self@) is None,
            r matches Some(c) ==> kill_command(self@) == Some(c@),
    {
        match self.child {
            Some(pid) => Some(command_for_pid("kill", None, pid)),
            None => None,
        }
    }

    /// Records the outcome of a kill: the tracked process is forgotten when the
    /// signal went out.  Returns whether a kill was attempted, that is, whether
    /// a process was tracked.
    pub fn kill_game(&mut self, signalled: bool) -> (r: bool)
        ensures
            r == old(self)@.child is Some,
            final(self)@ == if r {
                after_kill(old(self)@, signalled)
            } else {
                old(self)@
            },
    {
        if self.child.is_some() {
            if signalled {
                self.child = None;
            }
            true
        } else {
            false
        }
    }
}

} // verus!
