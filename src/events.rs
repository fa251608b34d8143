use vstd::prelude::*;

verus! {

/// The keys that the input method service reports as key events.
#[derive(Debug, Clone, Copy, PartialEq, Eq, Structural)]
pub enum Key {
    Enter,
    Backspace,
}

/// One event decoded from the service.
///
/// `AreaChanged` carries the position of the keyboard area and, where the
/// service sent it, its width and height.
#[derive(Debug, Clone)]
pub enum InputMethodEvent {
    Text(String),
    AreaChanged(i32, i32, Option<(i32, i32)>),
    Key { key: Key, pressed: bool },
}

} // verus!
