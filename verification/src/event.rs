use vstd::prelude::*;
use vstd::bits::{lemma_u64_shl_is_mul, lemma_u64_pow2_no_overflow};
use vstd::arithmetic::power2::pow2;

verus! {

/// Quartz event type of a key press.
pub const kCGEventKeyDown: u32 = 10;

/// Quartz event type of a key release.
pub const kCGEventKeyUp: u32 = 11;

/// Quartz event type of a change of the modifier flags.
pub const kCGEventFlagsChanged: u32 = 12;

/// Quartz event type sent when the system disabled an event tap that took
/// too long to answer.
pub const kCGEventTapDisabledByTimeout: u32 = 0xFFFFFFFE;

/// Bit `i` of `mask` (counting from the least significant bit) is set.
pub open spec fn has_bit(mask: u64, i: u64) -> bool {
    (mask >> i) & 1u64 == 1u64
}

/// Builds an event mask with the single bit for `eventType` set, as the
/// `CGEventMaskBit` macro of the Quartz headers does.
#[allow(non_snake_case)]
pub fn CGEventMaskBit(eventType: u32) -> (mask: u64)
    requires
        eventType < 64,
    ensures
        mask as nat == pow2(eventType as nat),
        forall|i: u64| i < 64 ==> (has_bit(mask, i) <==> i == eventType),
{
    let t: u64 = eventType as u64;
    let mask: u64 = 1u64 << t;
    proof {
        lemma_u64_pow2_no_overflow(t as nat);
        lemma_u64_shl_is_mul(1u64, t);
        assert forall|i: u64| i < 64 implies (has_bit(mask, i) <==> i == t) by {
            assert((((1u64 << t) >> i) & 1u64 == 1u64) <==> i == t) by (bit_vector)
                requires
                    t < 64,
                    i < 64,
            ;
        }
    }
    mask
}

/// The mask of the events the remapper listens to: key presses and key
/// releases, and nothing else.
pub fn key_event_mask() -> (mask: u64)
    ensures
        forall|i: u64| i < 64 ==> (has_bit(mask, i) <==> (i == kCGEventKeyDown || i == kCGEventKeyUp)),
{
    let down = CGEventMaskBit(kCGEventKeyDown);
    let up = CGEventMaskBit(kCGEventKeyUp);
    let mask = down | up;
    assert forall|i: u64| i < 64 implies (has_bit(mask, i) <==> (has_bit(down, i) || has_bit(up, i))) by {
        assert((((down | up) >> i) & 1u64 == 1u64) <==> (((down >> i) & 1u64 == 1u64) || ((up >> i) & 1u64 == 1u64))) by (bit_vector);
    }
    mask
}


/// What a key event says about its key.
#[allow(non_camel_case_types)]
#[derive(Debug, Clone, Copy, PartialEq, Eq, Structural)]
pub enum KeyState {
    DOWN,
    UP,
    OTHER,
}

/// The kinds of Quartz events an event tap can be handed.
#[derive(Debug, Clone, Copy, PartialEq, Eq, Structural)]
pub enum EventKind {
    KeyDown,
    KeyUp,
    FlagsChanged,
    TapDisabledByTimeout,
    Unknown,
}

/// The kind of a Quartz event type number.
pub open spec fn spec_event_kind(event_type: u32) -> EventKind {
    if event_type == kCGEventKeyDown {
        EventKind::KeyDown
    } else if event_type == kCGEventKeyUp {
        EventKind::KeyUp
    } else if event_type == kCGEventFlagsChanged {
        EventKind::FlagsChanged
    } else if event_type == kCGEventTapDisabledByTimeout {
        EventKind::TapDisabledByTimeout
    } else {
        EventKind::Unknown
    }
}

/// Tells which kind of Quartz event a type number stands for.
pub fn event_kind(event_type: u32) -> (kind: EventKind)
    ensures
        kind == spec_event_kind(event_type),
        (kind == EventKind::KeyDown) <==> event_type == 10,
        (kind == EventKind::KeyUp) <==> event_type == 11,
        (kind == EventKind::FlagsChanged) <==> event_type == 12,
        (kind == EventKind::TapDisabledByTimeout) <==> event_type == 0xFFFFFFFEu32,
        (kind == EventKind::Unknown) <==> (event_type != 10 && event_type != 11 && event_type != 12
            && event_type != 0xFFFFFFFEu32),
{
    if event_type == kCGEventKeyDown {
        EventKind::KeyDown
    } else if event_type == kCGEventKeyUp {
        EventKind::KeyUp
    } else if event_type == kCGEventFlagsChanged {
        EventKind::FlagsChanged
    } else if event_type == kCGEventTapDisabledByTimeout {
        EventKind::TapDisabledByTimeout
    } else {
        EventKind::Unknown
    }
}

/// Each Quartz event type has exactly one kind: 10 is a key press, 11 a key
/// release, 12 a change of modifier flags, 0xFFFFFFFE a tap disabled by
/// timeout, and every other type, the tap disabled by user input among
/// them, is unknown.
pub proof fn lemma_event_kind_classifies(event_type: u32)
    ensures
        (spec_event_kind(event_type) == EventKind::KeyDown) <==> event_type == 10,
        (spec_event_kind(event_type) == EventKind::KeyUp) <==> event_type == 11,
        (spec_event_kind(event_type) == EventKind::FlagsChanged) <==> event_type == 12,
        (spec_event_kind(event_type) == EventKind::TapDisabledByTimeout) <==> event_type
            == 0xFFFFFFFEu32,
        (spec_event_kind(event_type) == EventKind::Unknown) <==> (event_type != 10 && event_type
            != 11 && event_type != 12 && event_type != 0xFFFFFFFEu32),
{
}

/// The key state that an event of the given type reports.
pub open spec fn spec_key_state(event_type: u32) -> KeyState {
    if event_type == kCGEventKeyDown {
        KeyState::DOWN
    } else if event_type == kCGEventKeyUp {
        KeyState::UP
    } else {
        KeyState::OTHER
    }
}

/// Only a key press reports its key down and only a key release reports it
/// up; an event of any other type reports neither.
pub proof fn lemma_key_state_only_for_key_events(event_type: u32)
    ensures
        (spec_key_state(event_type) == KeyState::DOWN) <==> event_type == 10,
        (spec_key_state(event_type) == KeyState::UP) <==> event_type == 11,
        (spec_key_state(event_type) == KeyState::OTHER) <==> (event_type != 10 && event_type != 11),
{
}

/// A keyboard event handed to the event tap: its Quartz type, the virtual
/// key code it carries, and the event itself, which the tap may hand back.
#[derive(Debug, Clone, Copy)]
pub struct InputEvent<E> {
    pub event_type: u32,
    pub key_code: u16,
    pub event: E,
}

impl<E> InputEvent<E> {
    /// Wraps an event of the given type and key code.
    pub fn new(event_type: u32, key_code: u16, event: E) -> (res: Self)
        ensures
            res.event_type == event_type,
            res.key_code == key_code,
            res.event == event,
    {
        InputEvent { event_type, key_code, event }
    }

    /// The virtual key code of the event.
    pub fn code(&self) -> (c: u16)
        ensures
            c == self.key_code,
    {
        self.key_code
    }

    /// Whether the event presses or releases its key; every other event type,
    /// a disabled tap among them, is `OTHER`.
    pub fn value(&self) -> (state: KeyState)
        ensures
            state == spec_key_state(self.event_type),
            (state == KeyState::DOWN) <==> self.event_type == 10,
            (state == KeyState::UP) <==> self.event_type == 11,
            (state == KeyState::OTHER) <==> (self.event_type != 10 && self.event_type != 11),
    {
        match event_kind(self.event_type) {
            EventKind::KeyDown => KeyState::DOWN,
            EventKind::KeyUp => KeyState::UP,
            _ => KeyState::OTHER,
        }
    }
}

/// What a keyboard device hands back for an event: an event to let through,
/// or nothing.
#[allow(non_camel_case_types)]
#[derive(Debug)]
pub enum DeviceRet<E> {
    EVENT(E),
    NULL,
}

/// What the event tap returns to the system for the outcome of sending an
/// event: the event the device produced, or the null event when it produced
/// none, so that the key press is swallowed.
pub fn event_or_null<E>(sent: Option<E>, null_event: E) -> (res: E)
    ensures
        res == (match sent {
            Some(e) => e,
            None => null_event,
        }),
{
    match sent {
        Some(e) => e,
        None => null_event,
    }
}

} // verus!
