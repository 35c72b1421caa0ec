//! Five Dice: a dice game drawn as a tree of widgets onto a flat canvas.
//!
//! The crate holds the game's rules and the small retained-mode toolkit it is
//! drawn with: points and regions on an integer grid, a widget tree laid out
//! by a cursor that flows through rows, and click dispatch by hit-testing.
//! Nothing here touches a screen: widgets are laid out against a [`window`]
//! that knows the widths of the texts that were measured for it, and what
//! they draw is kept as a list of commands for a canvas to carry out.
//!
//! - [`types`], [`traits`], [`widgets`], [`window`] and [`error`] are the
//!   toolkit; [`game`] is the game that is played with it.
//! - [`draw`] is a plainer toolkit of texts only, whose cursor may not leave
//!   the canvas.
//! - [`classic`] is the game on a fixed layout, without a toolkit.
//! - [`yahtzee`] is the game at the command line.
//! - [`laws`] states what holds of the toolkit and of the game whatever the
//!   inputs.

pub mod arith;
pub mod callback;
pub mod classic;
pub mod digits;
pub mod draw;
pub mod error;
pub mod game;
pub mod laws;
pub mod random;
pub mod traits;
pub mod types;
pub mod widgets;
pub mod window;
pub mod yahtzee;
