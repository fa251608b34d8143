use vstd::prelude::*;
use crate::events::{InputMethodEvent, Key};

verus! {

/// One argument of an inbound bus message, as far as the decoder reads it.
#[derive(Debug, Clone)]
pub enum WireArg {
    Int(i32),
    Str(String),
    /// Any argument of another bus type.
    Other,
}

/// An inbound message: its member name, if it has one, and its arguments.
#[derive(Debug, Clone)]
pub struct InboundMessage {
    pub member: Option<String>,
    pub args: Vec<WireArg>,
}

/// What decoding one message yields: at most one event, and whether the
/// subscription should go on receiving messages.
#[derive(Debug, Clone)]
pub struct Decoded {
    pub event: Option<InputMethodEvent>,
    pub keep_receiving: bool,
}

/// The key-press code that the service sends for a pressed key.
pub const PRESSED_CODE: i32 = 6;

pub open spec fn is_int(a: WireArg) -> bool {
    a is Int
}

pub open spec fn text_of_commit(args: Seq<WireArg>) -> Option<String> {
    if (args.len() == 1 || (args.len() == 4 && is_int(args[1]) && is_int(args[2]) && is_int(
        args[3],
    ))) && args[0] is Str {
        Some(args[0]->Str_0)
    } else {
        None
    }
}

pub open spec fn area_of(args: Seq<WireArg>) -> Option<(i32, i32, Option<(i32, i32)>)> {
    if args.len() == 2 && is_int(args[0]) && is_int(args[1]) {
        Some((args[0]->Int_0, args[1]->Int_0, None))
    } else if args.len() == 4 && is_int(args[0]) && is_int(args[1]) && is_int(args[2]) && is_int(
        args[3],
    ) {
        Some((args[0]->Int_0, args[1]->Int_0, Some((args[2]->Int_0, args[3]->Int_0))))
    } else {
        None
    }
}

pub open spec fn key_of_char(s: Seq<char>) -> Option<Key> {
    if s == "\r"@ {
        Some(Key::Enter)
    } else if s == "\u{8}"@ {
        Some(Key::Backspace)
    } else {
        None
    }
}

pub open spec fn key_event_of(args: Seq<WireArg>) -> Option<InputMethodEvent> {
    if args.len() == 4 && is_int(args[0]) && is_int(args[1]) && is_int(args[2])
        && args[3] is Str && key_of_char(args[3]->Str_0@) is Some {
        Some(
            InputMethodEvent::Key {
                key: key_of_char(args[3]->Str_0@)->Some_0,
                pressed: args[0]->Int_0 == PRESSED_CODE,
            },
        )
    } else {
        None
    }
}

/// The event that a message with member name `member` and arguments `args`
/// decodes to. Messages of other members, or whose arguments do not have
/// the shape their member calls for, give no event.
pub open spec fn event_of(member: Option<Seq<char>>, args: Seq<WireArg>) -> Option<InputMethodEvent> {
    match member {
        Some(m) => {
            if m == "commitString"@ {
                match text_of_commit(args) {
                    Some(t) => Some(InputMethodEvent::Text(t)),
                    None => None,
                }
            } else if m == "updateInputMethodArea"@ {
                match area_of(args) {
                    Some(a) => Some(InputMethodEvent::AreaChanged(a.0, a.1, a.2)),
                    None => None,
                }
            } else if m == "keyEvent"@ {
                key_event_of(args)
            } else {
                None
            }
        },
        None => None,
    }
}

/// Whether the subscription should stay after this message: it asks to stop
/// only on a well-formed area change whose `y` is zero (the keyboard was hidden).
pub open spec fn keeps_receiving(member: Option<Seq<char>>, args: Seq<WireArg>) -> bool {
    match member {
        Some(m) => !(m == "updateInputMethodArea"@ && area_of(args) is Some && area_of(args)->Some_0.1
            == 0),
        None => true,
    }
}

impl InboundMessage {
    pub open spec fn member_view(&self) -> Option<Seq<char>> {
        match self.member {
            Some(m) => Some(m@),
            None => None,
        }
    }
}

fn str_equals(a: &str, b: &str) -> (r: bool)
    ensures
        r == (a@ == b@),
{
    let n = a.unicode_len();
    if n != b.unicode_len() {
        return false;
    }
    let mut i: usize = 0;
    while i < n
        invariant
            n == a@.len(),
            n == b@.len(),
            i <= n,
            forall|j: int| 0 <= j < i ==> a@[j] == b@[j],
        decreases n - i,
    {
        if a.get_char(i) != b.get_char(i) {
            return false;
        }
        i = i + 1;
    }
    assert(a@ =~= b@);
    true
}

fn commit_text(args: &Vec<WireArg>) -> (r: Option<String>)
    ensures
        r == text_of_commit(args@),
{
    let shape_ok = args.len() == 1 || (args.len() == 4 && matches!(args[1], WireArg::Int(_))
        && matches!(args[2], WireArg::Int(_)) && matches!(args[3], WireArg::Int(_)));
    if !shape_ok {
        return None;
    }
    match &args[0] {
        WireArg::Str(t) => Some(t.clone()),
        _ => None,
    }
}

fn int_at(args: &Vec<WireArg>, i: usize) -> (r: Option<i32>)
    requires
        i < args@.len(),
    ensures
        r == (if is_int(args@[i as int]) {
            Some(args@[i as int]->Int_0)
        } else {
            None
        }),
{
    match &args[i] {
        WireArg::Int(v) => Some(*v),
        _ => None,
    }
}

fn area(args: &Vec<WireArg>) -> (r: Option<(i32, i32, Option<(i32, i32)>)>)
    ensures
        r == area_of(args@),
{
    if args.len() != 2 && args.len() != 4 {
        return None;
    }
    let x = int_at(args, 0);
    let y = int_at(args, 1);
    match (x, y) {
        (Some(x), Some(y)) => {
            if args.len() == 2 {
                Some((x, y, None))
            } else {
                match (int_at(args, 2), int_at(args, 3)) {
                    (Some(w), Some(h)) => Some((x, y, Some((w, h)))),
                    _ => None,
                }
            }
        },
        _ => None,
    }
}

fn key_of(s: &str) -> (r: Option<Key>)
    ensures
        r == key_of_char(s@),
{
    proof {
        reveal_strlit("\r");
        reveal_strlit("\u{8}");
    }
    if str_equals(s, "\r") {
        Some(Key::Enter)
    } else if str_equals(s, "\u{8}") {
        Some(Key::Backspace)
    } else {
        None
    }
}

fn key_event(args: &Vec<WireArg>) -> (r: Option<InputMethodEvent>)
    ensures
        r == key_event_of(args@),
{
    if args.len() != 4 {
        return None;
    }
    let code = int_at(args, 0);
    let b = int_at(args, 1);
    let c = int_at(args, 2);
    match (code, b, c, &args[3]) {
        (Some(code), Some(_), Some(_), WireArg::Str(s)) => match key_of(s.as_str()) {
            Some(key) => Some(InputMethodEvent::Key { key, pressed: code == PRESSED_CODE }),
            None => None,
        },
        _ => None,
    }
}

/// Decodes one inbound message into at most one event, and says whether the
/// subscription should go on receiving.
pub fn decode_message(msg: &InboundMessage) -> (r: Decoded)
    ensures
        r.event == event_of(msg.member_view(), msg.args@),
        r.keep_receiving == keeps_receiving(msg.member_view(), msg.args@),
{
    proof {
        reveal_strlit("commitString");
        reveal_strlit("updateInputMethodArea");
        reveal_strlit("keyEvent");
    }
    match &msg.member {
        None => Decoded { event: None, keep_receiving: true },
        Some(m) => {
            let m = m.as_str();
            if str_equals(m, "commitString") {
                assert("commitString"@.len() != "updateInputMethodArea"@.len());
                let event = match commit_text(&msg.args) {
                    Some(t) => Some(InputMethodEvent::Text(t)),
                    None => None,
                };
                Decoded { event, keep_receiving: true }
            } else if str_equals(m, "updateInputMethodArea") {
                match area(&msg.args) {
                    Some((x, y, size)) => Decoded {
                        event: Some(InputMethodEvent::AreaChanged(x, y, size)),
                        keep_receiving: y != 0,
                    },
                    None => Decoded { event: None, keep_receiving: true },
                }
            } else if str_equals(m, "keyEvent") {
                Decoded { event: key_event(&msg.args), keep_receiving: true }
            } else {
                Decoded { event: None, keep_receiving: true }
            }
        },
    }
}

} // verus!
