//! The native side of a video-labelling desktop shell: the command through
//! which the frontend hands over a video path, the application's menu bar,
//! and the dispatch of menu selections to actions on the shell's state.
use vstd::prelude::*;

pub mod command;
pub mod dispatch;
pub mod menu;

verus! {

} // verus!
