use vstd::prelude::*;
use crate::descriptor::{le16, le32, le64, push_le16, push_le32, push_le64};

verus! {

/// Synchronization event class.
pub const EV_SYN: u16 = 0x00;

/// Key and button event class.
pub const EV_KEY: u16 = 0x01;

/// Relative axis event class.
pub const EV_REL: u16 = 0x02;

/// Absolute axis event class.
pub const EV_ABS: u16 = 0x03;

/// Code of the synchronization barrier that closes one input frame.
pub const SYN_REPORT: u16 = 0;

/// Number of key and button codes.
pub const KEY_CNT: u16 = 0x300;

/// Number of absolute axis codes, and the length of each axis table of the
/// device descriptor.
pub const ABS_CNT: u16 = 0x40;

/// Size in bytes of one encoded event record.
pub const RECORD_SIZE: usize = 24;

/// A concrete input event, identified by its class and its code.
#[derive(Clone, Copy, Debug, PartialEq, Eq, Structural)]
pub enum Event {
    /// A keyboard key.
    Keyboard(u16),
    /// A mouse, joystick, gamepad or other controller button.
    Controller(u16),
    /// A relative axis.
    Relative(u16),
    /// An absolute axis.
    Absolute(u16),
}

/// The class tag of an event.
pub open spec fn kind_of(e: Event) -> u16 {
    match e {
        Event::Keyboard(_) => EV_KEY,
        Event::Controller(_) => EV_KEY,
        Event::Relative(_) => EV_REL,
        Event::Absolute(_) => EV_ABS,
    }
}

/// The code of an event within its class.
pub open spec fn code_of(e: Event) -> u16 {
    match e {
        Event::Keyboard(c) => c,
        Event::Controller(c) => c,
        Event::Relative(c) => c,
        Event::Absolute(c) => c,
    }
}

/// A key or a button: an event that can be pressed and released.
pub open spec fn is_button(e: Event) -> bool {
    e is Keyboard || e is Controller
}

/// An axis: an event that carries a position.
pub open spec fn is_axis(e: Event) -> bool {
    e is Relative || e is Absolute
}

impl Event {
    /// The class tag of this event.
    pub fn kind(&self) -> (r: u16)
        ensures
            r == kind_of(*self),
    {
        match self {
            Event::Keyboard(_) => EV_KEY,
            Event::Controller(_) => EV_KEY,
            Event::Relative(_) => EV_REL,
            Event::Absolute(_) => EV_ABS,
        }
    }

    /// The code of this event within its class.
    pub fn code(&self) -> (r: u16)
        ensures
            r == code_of(*self),
    {
        match self {
            Event::Keyboard(c) => *c,
            Event::Controller(c) => *c,
            Event::Relative(c) => *c,
            Event::Absolute(c) => *c,
        }
    }
}

/// What a builder can be asked to enable: one event, or every code of a
/// class.
#[derive(Clone, Copy, Debug, PartialEq, Eq, Structural)]
pub enum Capability {
    /// Every keyboard key and every controller button.
    All,
    /// Every keyboard key.
    AllKeyboard,
    /// Every controller button.
    AllController,
    /// One event.
    Single(Event),
}

impl From<Event> for Capability {
    fn from(e: Event) -> (r: Capability)
        ensures
            r == Capability::Single(e),
    {
        Capability::Single(e)
    }
}

impl vstd::std_specs::convert::FromSpecImpl<Event> for Capability {
    open spec fn obeys_from_spec() -> bool {
        true
    }

    open spec fn from_spec(e: Event) -> Capability {
        Capability::Single(e)
    }
}

/// Key codes of the keyboard class: the keys below the first button, and
/// those between the button block and the trigger-happy buttons, but for the
/// directional pad.
pub open spec fn is_keyboard_code(c: int) -> bool {
    (1 <= c < 0x100) || (0x160 <= c < 0x220) || (0x224 <= c < 0x2c0)
}

/// Key codes of the controller class: the button block (miscellaneous,
/// mouse, joystick, gamepad, digitizer and wheel buttons), the directional
/// pad, and the trigger-happy buttons.
pub open spec fn is_controller_code(c: int) -> bool {
    (0x100 <= c < 0x160) || (0x220 <= c < 0x224) || (0x2c0 <= c < 0x2e8)
}

/// Whether `c` is a code of the keyboard class (`keyboard`) or of the
/// controller class.
pub open spec fn in_class(keyboard: bool, c: int) -> bool {
    if keyboard {
        is_keyboard_code(c)
    } else {
        is_controller_code(c)
    }
}

/// The event of code `c` in the keyboard class (`keyboard`) or the
/// controller class.
pub open spec fn class_event(keyboard: bool, c: u16) -> Event {
    if keyboard {
        Event::Keyboard(c)
    } else {
        Event::Controller(c)
    }
}

fn is_class_code(keyboard: bool, c: u16) -> (r: bool)
    ensures
        r == in_class(keyboard, c as int),
{
    if keyboard {
        (1 <= c && c < 0x100) || (0x160 <= c && c < 0x220) || (0x224 <= c && c < 0x2c0)
    } else {
        (0x100 <= c && c < 0x160) || (0x220 <= c && c < 0x224) || (0x2c0 <= c && c < 0x2e8)
    }
}

/// A sequence of codes given in strictly increasing order.
pub open spec fn strictly_increasing(s: Seq<u16>) -> bool {
    forall|i: int, j: int| 0 <= i < j < s.len() ==> s[i] < s[j]
}

/// The full enumeration of a class: its codes, each once, in increasing
/// order.
pub open spec fn is_enumeration(keyboard: bool, s: Seq<u16>) -> bool {
    &&& strictly_increasing(s)
    &&& forall|c: u16| #[trigger] s.contains(c) <==> in_class(keyboard, c as int)
}

/// The codes below `n` of the keyboard class (`keyboard`) or of the
/// controller class, in increasing order.
pub open spec fn codes_below(keyboard: bool, n: nat) -> Seq<u16>
    decreases n,
{
    if n == 0 {
        Seq::empty()
    } else if in_class(keyboard, n - 1) {
        codes_below(keyboard, (n - 1) as nat).push((n - 1) as u16)
    } else {
        codes_below(keyboard, (n - 1) as nat)
    }
}

/// The full enumeration of a class, over every key code.
pub open spec fn enumeration(keyboard: bool) -> Seq<u16> {
    codes_below(keyboard, KEY_CNT as nat)
}

proof fn lemma_codes_below(keyboard: bool, n: nat)
    requires
        n <= KEY_CNT,
    ensures
        strictly_increasing(codes_below(keyboard, n)),
        forall|i: int| 0 <= i < codes_below(keyboard, n).len() ==> codes_below(keyboard, n)[i] < n,
        forall|c: u16| #[trigger] codes_below(keyboard, n).contains(c) <==> (c < n && in_class(keyboard, c as int)),
    decreases n,
{
    if n > 0 {
        let m = (n - 1) as nat;
        lemma_codes_below(keyboard, m);
        let p = codes_below(keyboard, m);
        let s = codes_below(keyboard, n);
        if in_class(keyboard, m as int) {
            assert(s == p.push(m as u16));
            assert forall|c: u16| #[trigger] s.contains(c) <==> (c < n && in_class(keyboard, c as int)) by {
                if c == m {
                    assert(s[s.len() - 1] == c);
                } else if s.contains(c) {
                    let k = choose|k: int| 0 <= k < s.len() && s[k] == c;
                    assert(k < p.len());
                    assert(p[k] == c);
                    assert(p.contains(c));
                } else if c < n && in_class(keyboard, c as int) {
                    assert(p.contains(c));
                    let k = choose|k: int| 0 <= k < p.len() && p[k] == c;
                    assert(s[k] == c);
                }
            }
        }
    }
}

/// The enumeration of a class holds each of its codes once, in increasing
/// order, and nothing else.
pub proof fn lemma_enumeration(keyboard: bool)
    ensures
        is_enumeration(keyboard, enumeration(keyboard)),
{
    lemma_codes_below(keyboard, KEY_CNT as nat);
    assert forall|c: u16| #[trigger] enumeration(keyboard).contains(c) <==> in_class(keyboard, c as int) by {
        if in_class(keyboard, c as int) {
            assert(c < KEY_CNT);
        }
    }
}

/// Every code of the keyboard class (`keyboard`) or of the controller class,
/// in increasing order.
pub fn class_codes(keyboard: bool) -> (r: Vec<u16>)
    ensures
        r@ == enumeration(keyboard),
        is_enumeration(keyboard, r@),
{
    let mut r: Vec<u16> = Vec::new();
    let mut c: u16 = 0;
    while c < KEY_CNT
        invariant
            c <= KEY_CNT,
            r@ == codes_below(keyboard, c as nat),
        decreases KEY_CNT - c,
    {
        if is_class_code(keyboard, c) {
            r.push(c);
        }
        c = c + 1;
    }
    proof {
        lemma_enumeration(keyboard);
    }
    r
}

/// A wall-clock timestamp: seconds and microseconds.
#[derive(Clone, Copy, Debug, PartialEq, Eq, Structural)]
pub struct TimeVal {
    pub sec: i64,
    pub usec: i64,
}

/// An event record before it is stamped with the time of its writing.
#[derive(Clone, Copy, Debug, PartialEq, Eq, Structural)]
pub struct InputEvent {
    pub kind: u16,
    pub code: u16,
    pub value: i32,
}

/// The bytes of an event record in the kernel's layout on a 64-bit
/// little-endian host: seconds and microseconds of the timestamp, class, code
/// and value.
pub open spec fn record_bytes(t: TimeVal, e: InputEvent) -> Seq<u8> {
    le64(t.sec as u64) + le64(t.usec as u64) + le16(e.kind) + le16(e.code) + le32(e.value as u32)
}

/// The record for event `e` with value `value`.
pub open spec fn input_event(e: Event, value: i32) -> InputEvent {
    InputEvent { kind: kind_of(e), code: code_of(e), value }
}

/// Every event resolves to one class and one code: keys and buttons to the
/// key class, axes to their axis class, each with its own code.
pub proof fn lemma_resolution(e: Event, value: i32)
    ensures
        kind_of(e) == EV_KEY || kind_of(e) == EV_REL || kind_of(e) == EV_ABS,
        is_button(e) <==> kind_of(e) == EV_KEY,
        e is Relative <==> kind_of(e) == EV_REL,
        e is Absolute <==> kind_of(e) == EV_ABS,
        e == match e {
            Event::Keyboard(_) => Event::Keyboard(code_of(e)),
            Event::Controller(_) => Event::Controller(code_of(e)),
            Event::Relative(_) => Event::Relative(code_of(e)),
            Event::Absolute(_) => Event::Absolute(code_of(e)),
        },
        input_event(e, value) == (InputEvent { kind: kind_of(e), code: code_of(e), value }),
{
}

impl InputEvent {
    /// The record of this event, stamped with `time`.
    pub fn encode(&self, time: TimeVal) -> (r: Vec<u8>)
        ensures
            r@ == record_bytes(time, *self),
            r.len() == RECORD_SIZE,
    {
        let mut out: Vec<u8> = Vec::new();
        push_le64(&mut out, time.sec as u64);
        push_le64(&mut out, time.usec as u64);
        push_le16(&mut out, self.kind);
        push_le16(&mut out, self.code);
        push_le32(&mut out, self.value as u32);
        assert(out@ =~= record_bytes(time, *self));
        out
    }
}

} // verus!
