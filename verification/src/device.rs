use vstd::prelude::*;
use crate::event::InputEvent;

verus! {

/// Virtual key code of the left shift key.
pub const KEY_LEFTSHIFT: u16 = 0x38;

/// Virtual key code of the caps lock key.
pub const KEY_CAPSLOCK: u16 = 0x39;

/// Virtual key code of the right shift key.
pub const KEY_RIGHTSHIFT: u16 = 0x3C;

/// Errors a keyboard device can report. Every operation of the event-tap
/// device succeeds, so it never reports one.
#[derive(Debug)]
pub enum Error {
    /// The device cannot carry out the operation.
    Unsupported,
}

/// The keyboard device of the event tap. It does not inject events of its
/// own: it either hands the incoming event back to the system or hands back
/// nothing, which swallows the event.
#[derive(Debug)]
pub struct Device;

impl Device {
    /// Lets the event through unchanged.
    pub fn send<E: Copy>(&self, event: &mut InputEvent<E>) -> (res: Result<Option<E>, Error>)
        ensures
            res == Ok::<Option<E>, Error>(Some(old(event).event)),
            *final(event) == *old(event),
    {
        Ok(Some(event.event))
    }

    /// Sends a modifier key in the state of `event`: the tap cannot inject
    /// keys, so nothing is handed back and the event is swallowed.
    pub fn send_mod_code<E>(&self, code: u16, event: &mut InputEvent<E>) -> (res: Result<Option<E>, Error>)
        ensures
            res == Ok::<Option<E>, Error>(None),
            *final(event) == *old(event),
    {
        Ok(None)
    }

    /// Sends a modifier key going up or down: nothing is handed back.
    pub fn send_mod_code_value<E>(&self, code: u16, up_not_down: bool, _event: &mut InputEvent<E>) -> (res: Result<Option<E>, Error>)
        ensures
            res == Ok::<Option<E>, Error>(None),
            *final(_event) == *old(_event),
    {
        Ok(None)
    }

    /// Flushes injected events: there are none, so nothing is handed back.
    pub fn synchronize<E>(&self) -> (res: Result<Option<E>, Error>)
        ensures
            res == Ok::<Option<E>, Error>(None),
    {
        Ok(None)
    }

    /// The key code of the left shift key.
    pub fn left_shift_code(&self) -> (c: u16)
        ensures
            c == KEY_LEFTSHIFT,
    {
        KEY_LEFTSHIFT
    }

    /// The key code of the right shift key.
    pub fn right_shift_code(&self) -> (c: u16)
        ensures
            c == KEY_RIGHTSHIFT,
    {
        KEY_RIGHTSHIFT
    }

    /// The key code of the caps lock key.
    pub fn caps_lock_code(&self) -> (c: u16)
        ensures
            c == KEY_CAPSLOCK,
    {
        KEY_CAPSLOCK
    }

    /// Blocks the current key: nothing is handed back, which swallows it.
    pub fn block_key<E>(&self) -> (res: Result<Option<E>, Error>)
        ensures
            res == Ok::<Option<E>, Error>(None),
    {
        Ok(None)
    }
}

} // verus!
