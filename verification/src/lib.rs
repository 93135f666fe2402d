//! A small catalog of labelled dice, a seedable random source to roll them,
//! and the selection state machines that the interactive front ends drive.
//!
//! Every function in this crate is verified with Verus. The few places where
//! the behaviour of another crate is taken on trust are marked as such in
//! their documentation.

pub mod cli;
pub mod controller;
pub mod die;
pub mod error;
pub mod random;
pub mod screen;
pub mod setup;
pub mod state;
pub mod strings;
pub mod symbol;
pub mod text;

pub use crate::cli::{get_cli_options, CliOptions};
pub use crate::controller::{App, InputEvent, Key};
pub use crate::die::Die;
pub use crate::error::DiceError;
pub use crate::random::{setup_random, RandomSource};
pub use crate::setup::{configure_die, setup_default_dice};
pub use crate::state::State;
pub use crate::symbol::Symbol;
pub use crate::text::TextMode;
