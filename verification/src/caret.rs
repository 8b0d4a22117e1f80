//! Caret tracking from eavesdropped IBus `InputContext` messages: which
//! messages move the caret, which mean the caret is lost, and which are
//! ignored.
use vstd::prelude::*;

use crate::ibus::{opt_string, Variant};
use crate::text::text_equals;

verus! {

/// The type of a D-Bus message.
#[derive(Clone, Copy, Debug, PartialEq, Eq, Structural)]
pub enum MessageKind {
    MethodCall,
    Signal,
    Other,
}

/// A D-Bus message seen by the connection's filter, as far as caret tracking
/// reads it; `body` holds the fields of the body tuple.
#[derive(Debug)]
pub struct BusMessage {
    pub incoming: bool,
    pub interface: Option<String>,
    pub kind: MessageKind,
    pub path: Option<String>,
    pub member: Option<String>,
    pub body: Option<Vec<Variant>>,
}

/// What a message means for the caret.
#[derive(Clone, Copy, Debug, PartialEq, Eq, Structural)]
pub enum CaretEvent {
    /// The caret position is no longer known (focus lost).
    Lost,
    /// The caret rectangle of the focused input context.
    At { x: i32, y: i32, w: i32, h: i32 },
}

/// The tracker's memory: the object path of the focused input context and
/// the last caret rectangle reported since start or since the caret was last
/// lost (none before the first one).
pub struct CaretTracker {
    focused_path: Option<String>,
    last_cursor: Option<(i32, i32, i32, i32)>,
}

/// The tracker's memory, with the path as text.
pub struct TrackerState {
    pub focused: Option<Seq<char>>,
    pub last: Option<(i32, i32, i32, i32)>,
}

impl View for CaretTracker {
    type V = TrackerState;

    closed spec fn view(&self) -> TrackerState {
        TrackerState { focused: opt_string(self.focused_path), last: self.last_cursor }
    }
}

/// The interface whose messages are tracked.
pub open spec fn input_context_interface() -> Seq<char> {
    "org.freedesktop.IBus.InputContext"@
}

/// The caret rectangle in a `SetCursorLocation` body: its first four fields,
/// when there are at least four and all are 32-bit integers.
pub open spec fn cursor_in(body: Option<Vec<Variant>>) -> Option<(i32, i32, i32, i32)> {
    match body {
        None => None,
        Some(b) => if b@.len() < 4 {
            None
        } else {
            match (b@[0], b@[1], b@[2], b@[3]) {
                (Variant::Int32(x), Variant::Int32(y), Variant::Int32(w), Variant::Int32(h)) => Some(
                    (x, y, w, h),
                ),
                _ => None,
            }
        },
    }
}

/// How a message changes the tracker's memory and which caret event it gives.
/// Only incoming method calls and signals on the `InputContext` interface
/// count. `FocusIn` makes its sender the focused context. `FocusOut` from the
/// focused context forgets it and the last rectangle and reports the caret
/// lost. A `SetCursorLocation` call adopts its sender when no context is
/// focused, and from the focused context it reports the caret lost for the
/// rectangle (0, 0, 0, 0), nothing for the rectangle last reported, and the
/// rectangle otherwise.
pub open spec fn caret_step(s: TrackerState, m: BusMessage) -> (TrackerState, Option<CaretEvent>) {
    let path = opt_string(m.path);
    let member = opt_string(m.member);
    if !m.incoming || opt_string(m.interface) != Some(input_context_interface()) || !(
    m.kind is MethodCall || m.kind is Signal) {
        (s, None)
    } else if member == Some("FocusIn"@) {
        (TrackerState { focused: path, last: s.last }, None)
    } else if member == Some("FocusOut"@) {
        if s.focused == path {
            (TrackerState { focused: None, last: None }, Some(CaretEvent::Lost))
        } else {
            (s, None)
        }
    } else if member != Some("SetCursorLocation"@) || !(m.kind is MethodCall) {
        (s, None)
    } else {
        let focused = if s.focused is None {
            path
        } else {
            s.focused
        };
        let s1 = TrackerState { focused, last: s.last };
        if focused != path {
            (s1, None)
        } else {
            match cursor_in(m.body) {
                None => (s1, None),
                Some((x, y, w, h)) => if x == 0 && y == 0 && w == 0 && h == 0 {
                    (TrackerState { focused, last: None }, Some(CaretEvent::Lost))
                } else if s1.last == Some((x, y, w, h)) {
                    (s1, None)
                } else {
                    (
                        TrackerState { focused, last: Some((x, y, w, h)) },
                        Some(CaretEvent::At { x, y, w, h }),
                    )
                },
            }
        }
    }
}

fn opt_text_equals(o: &Option<String>, t: &str) -> (r: bool)
    ensures
        r == (opt_string(*o) == Some(t@)),
{
    match o {
        Some(s) => text_equals(s.as_str(), t),
        None => false,
    }
}

fn opt_string_equals(a: &Option<String>, b: &Option<String>) -> (r: bool)
    ensures
        r == (opt_string(*a) == opt_string(*b)),
{
    match (a, b) {
        (Some(x), Some(y)) => *x == *y,
        (None, None) => true,
        _ => false,
    }
}

fn clone_opt_string(o: &Option<String>) -> (r: Option<String>)
    ensures
        opt_string(r) == opt_string(*o),
{
    match o {
        Some(s) => Some(s.clone()),
        None => None,
    }
}

fn cursor_from_body(body: &Option<Vec<Variant>>) -> (r: Option<(i32, i32, i32, i32)>)
    ensures
        r == cursor_in(*body),
{
    match body {
        None => None,
        Some(b) => {
            if b.len() < 4 {
                return None;
            }
            match (&b[0], &b[1], &b[2], &b[3]) {
                (Variant::Int32(x), Variant::Int32(y), Variant::Int32(w), Variant::Int32(h)) => Some(
                    (*x, *y, *w, *h),
                ),
                _ => None,
            }
        },
    }
}

impl CaretTracker {
    /// A tracker that knows no focused context and no rectangle.
    pub fn new() -> (r: CaretTracker)
        ensures
            r@.focused is None,
            r@.last is None,
    {
        CaretTracker { focused_path: None, last_cursor: None }
    }

    /// Takes in one message seen by the bus filter (the message itself is
    /// passed on unchanged) and returns the caret event it gives.
    pub fn observe(&mut self, message: &BusMessage) -> (r: Option<CaretEvent>)
        ensures
            (final(self)@, r) == caret_step(old(self)@, *message),
    {
        if !message.incoming {
            return None;
        }
        if !opt_text_equals(&message.interface, "org.freedesktop.IBus.InputContext") {
            return None;
        }
        let is_method_or_signal = match message.kind {
            MessageKind::MethodCall => true,
            MessageKind::Signal => true,
            MessageKind::Other => false,
        };
        if !is_method_or_signal {
            return None;
        }
        if opt_text_equals(&message.member, "FocusIn") {
            self.focused_path = clone_opt_string(&message.path);
            return None;
        }
        if opt_text_equals(&message.member, "FocusOut") {
            if opt_string_equals(&self.focused_path, &message.path) {
                self.focused_path = None;
                self.last_cursor = None;
                return Some(CaretEvent::Lost);
            }
            return None;
        }
        if !opt_text_equals(&message.member, "SetCursorLocation") {
            return None;
        }
        match message.kind {
            MessageKind::MethodCall => {},
            _ => {
                return None;
            },
        }
        if self.focused_path.is_none() {
            self.focused_path = clone_opt_string(&message.path);
        }
        if !opt_string_equals(&self.focused_path, &message.path) {
            return None;
        }
        let (x, y, w, h) = match cursor_from_body(&message.body) {
            Some(c) => c,
            None => {
                return None;
            },
        };
        if x == 0 && y == 0 && w == 0 && h == 0 {
            self.last_cursor = None;
            return Some(CaretEvent::Lost);
        }
        if let Some((lx, ly, lw, lh)) = self.last_cursor {
            if lx == x && ly == y && lw == w && lh == h {
                return None;
            }
        }
        self.last_cursor = Some((x, y, w, h));
        Some(CaretEvent::At { x, y, w, h })
    }
}

/// The caret is reported once per rectangle: when a message reports a
/// rectangle, the same message seen again reports nothing.
pub proof fn lemma_identical_rectangles_reported_once(s: TrackerState, m: BusMessage)
    requires
        caret_step(s, m).1 matches Some(CaretEvent::At { .. }),
    ensures
        caret_step(caret_step(s, m).0, m).1 is None,
        caret_step(caret_step(s, m).0, m).0 == caret_step(s, m).0,
{
}

/// A reported rectangle is never (0, 0, 0, 0), and it is what the tracker
/// then remembers as the last rectangle.
pub proof fn lemma_reported_rectangle_remembered(s: TrackerState, m: BusMessage)
    ensures
        caret_step(s, m).1 matches Some(CaretEvent::At { x, y, w, h }) ==> !(x == 0 && y == 0
            && w == 0 && h == 0) && caret_step(s, m).0.last == Some((x, y, w, h)),
{
}

/// Once a context is focused, messages from any other context never report a
/// caret event.
pub proof fn lemma_other_contexts_ignored(s: TrackerState, m: BusMessage)
    requires
        s.focused is Some,
        opt_string(m.path) != s.focused,
    ensures
        caret_step(s, m).1 is None,
{
}

/// `FocusOut` from the focused context, and the rectangle (0, 0, 0, 0) from
/// it, report the caret lost and forget the last rectangle, so that the next
/// rectangle is reported whatever it is.
pub proof fn lemma_focus_loss(s: TrackerState, m: BusMessage)
    requires
        m.incoming,
        opt_string(m.interface) == Some(input_context_interface()),
        s.focused is Some,
        opt_string(m.path) == s.focused,
        (opt_string(m.member) == Some("FocusOut"@) && (m.kind is MethodCall || m.kind is Signal))
            || (opt_string(m.member) == Some("SetCursorLocation"@) && m.kind is MethodCall
            && cursor_in(m.body) == Some((0i32, 0i32, 0i32, 0i32))),
    ensures
        caret_step(s, m).1 == Some(CaretEvent::Lost),
        caret_step(s, m).0.last is None,
{
    reveal_strlit("FocusOut");
    reveal_strlit("FocusIn");
    reveal_strlit("SetCursorLocation");
    assert("FocusIn"@[5] != "FocusOut"@[5]);
    assert("FocusIn"@ != "SetCursorLocation"@);
    assert("FocusOut"@ != "SetCursorLocation"@);
}

/// With nothing reported since start or since the last loss, the next
/// rectangle from the focused context is reported, whatever it is.
pub proof fn lemma_first_rectangle_reported(
    s: TrackerState,
    m: BusMessage,
    x: i32,
    y: i32,
    w: i32,
    h: i32,
)
    requires
        s.last is None,
        m.incoming,
        opt_string(m.interface) == Some(input_context_interface()),
        m.kind is MethodCall,
        opt_string(m.member) == Some("SetCursorLocation"@),
        s.focused is None || opt_string(m.path) == s.focused,
        cursor_in(m.body) == Some((x, y, w, h)),
        !(x == 0 && y == 0 && w == 0 && h == 0),
    ensures
        caret_step(s, m).1 == Some(CaretEvent::At { x, y, w, h }),
        caret_step(s, m).0.last == Some((x, y, w, h)),
{
    reveal_strlit("FocusOut");
    reveal_strlit("FocusIn");
    reveal_strlit("SetCursorLocation");
    assert("FocusIn"@.len() != "SetCursorLocation"@.len());
    assert("FocusOut"@.len() != "SetCursorLocation"@.len());
    assert("FocusIn"@ != "SetCursorLocation"@);
    assert("FocusOut"@ != "SetCursorLocation"@);
}

proof fn lemma_member_names_differ()
    ensures
        "FocusIn"@ != "FocusOut"@,
        "FocusIn"@ != "SetCursorLocation"@,
        "FocusOut"@ != "SetCursorLocation"@,
{
    reveal_strlit("FocusOut");
    reveal_strlit("FocusIn");
    reveal_strlit("SetCursorLocation");
    assert("FocusIn"@.len() != "FocusOut"@.len());
    assert("FocusIn"@.len() != "SetCursorLocation"@.len());
    assert("FocusOut"@.len() != "SetCursorLocation"@.len());
}

/// Focus moves with `FocusIn`: whatever the tracker's state, an incoming
/// `InputContext` `FocusIn` (call or signal) makes its sender the focused
/// context, keeps the last rectangle and reports nothing; and a following
/// `SetCursorLocation` call from that sender with a rectangle that is not
/// (0, 0, 0, 0) and not the one last reported is reported.
pub proof fn lemma_focus_in_switches_context(s: TrackerState, focus_in: BusMessage, cursor: BusMessage, x: i32, y: i32, w: i32, h: i32)
    requires
        focus_in.incoming,
        opt_string(focus_in.interface) == Some(input_context_interface()),
        focus_in.kind is MethodCall || focus_in.kind is Signal,
        opt_string(focus_in.member) == Some("FocusIn"@),
        cursor.incoming,
        opt_string(cursor.interface) == Some(input_context_interface()),
        cursor.kind is MethodCall,
        opt_string(cursor.member) == Some("SetCursorLocation"@),
        opt_string(cursor.path) == opt_string(focus_in.path),
        cursor_in(cursor.body) == Some((x, y, w, h)),
        !(x == 0 && y == 0 && w == 0 && h == 0),
        s.last != Some((x, y, w, h)),
    ensures
        caret_step(s, focus_in).0.focused == opt_string(focus_in.path),
        caret_step(s, focus_in).0.last == s.last,
        caret_step(s, focus_in).1 is None,
        caret_step(caret_step(s, focus_in).0, cursor).1 == Some(CaretEvent::At { x, y, w, h }),
        caret_step(caret_step(s, focus_in).0, cursor).0.focused == opt_string(focus_in.path),
{
    lemma_member_names_differ();
}

} // verus!
