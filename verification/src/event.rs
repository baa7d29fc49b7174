//! The event vocabulary the selection engine consumes.  Mapping physical
//! key presses to these events is the surrounding terminal layer's job.

use vstd::prelude::*;

use crate::input::InputEdit;

verus! {

#[derive(Debug, Clone, Copy, PartialEq, Eq, Structural)]
pub enum UserEvent {
    Quit,
    Down,
    Up,
    ToggleAction,
    Execute,
    Resize(u16),
    Edit(InputEdit),
}

} // verus!
