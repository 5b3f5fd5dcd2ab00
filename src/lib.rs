//! Session controller for a game kiosk: a removable game volume, a library of
//! game packages on it, an external engine that runs one game at a time, and
//! buttons wired to general-purpose I/O pins.
pub mod path;
pub mod text;
mod host;
pub mod invocation;
pub mod game;
pub mod gamestick;
pub mod engine;
pub mod gpio;
pub mod animator;
pub mod shelf;
pub mod os;
