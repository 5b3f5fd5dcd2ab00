//! A command line that the controller asks its host to start as a process.
use vstd::prelude::*;

verus! {

/// A program and its arguments, to be started as a child process.
#[derive(Debug, PartialEq, Eq)]
pub struct Invocation {
    pub program: String,
    pub args: Vec<String>,
}

impl View for Invocation {
    type V = (Seq<char>, Seq<Seq<char>>);

    open spec fn view(&self) -> (Seq<char>, Seq<Seq<char>>) {
        (self.program@, self.args@.map_values(|a: String| a@))
    }
}

} // verus!
