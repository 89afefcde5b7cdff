//! The platform-channel page: the status line of an asynchronous call into
//! native code, and of the camera-permission request.
//!
//! The call's state comes from the native bridge; the page reads it as one
//! of [`CallState`]'s variants, with a resolved value already turned into
//! its JSON text.

use vstd::prelude::*;
use vstd::string::*;
use crate::palette::{rgb, Rgb};
use crate::text::join2;

verus! {

/// Where an asynchronous call into native code stands.
#[derive(Debug, PartialEq, Eq)]
pub enum CallState {
    /// Queued, not yet answered.
    Pending,
    /// Answered; the value's JSON text.
    Resolved(String),
    /// Native reported a failure, with its message.
    Failed(String),
}

/// A status line: its text and the colour it is drawn in.
#[derive(Debug, PartialEq, Eq)]
pub struct StatusLine {
    pub text: String,
    pub color: Rgb,
}

/// The muted grey of a question not asked yet.
pub open spec fn muted() -> Rgb {
    rgb(140, 140, 140)
}

/// The amber of a call still waiting.
pub open spec fn waiting() -> Rgb {
    rgb(200, 140, 0)
}

/// The green of a success.
pub open spec fn success() -> Rgb {
    rgb(30, 140, 60)
}

/// The red of a failure.
pub open spec fn failure() -> Rgb {
    rgb(180, 40, 40)
}

/// The text of a call's status line: "Not asked yet." before any call, a
/// waiting note while pending, and the value or the message behind a tick
/// or a cross once answered.
pub open spec fn call_status_text(state: Option<CallState>) -> Seq<char> {
    match state {
        None => "Not asked yet."@,
        Some(CallState::Pending) => "Asking native\u{2026} (waiting for a reply)"@,
        Some(CallState::Resolved(value)) => "\u{2705} "@ + value@,
        Some(CallState::Failed(message)) => "\u{274c} "@ + message@,
    }
}

/// The colour of a call's status line.
pub open spec fn call_status_color(state: Option<CallState>) -> Rgb {
    match state {
        None => muted(),
        Some(CallState::Pending) => waiting(),
        Some(CallState::Resolved(_)) => success(),
        Some(CallState::Failed(_)) => failure(),
    }
}

/// The status line of a call into native code, `None` before any call.
pub fn call_status(state: &Option<CallState>) -> (line: StatusLine)
    ensures
        line.text@ == call_status_text(*state),
        line.color == call_status_color(*state),
{
    match state {
        Some(CallState::Pending) => StatusLine {
            text: String::from_str("Asking native\u{2026} (waiting for a reply)"),
            color: Rgb { r: 200, g: 140, b: 0 },
        },
        Some(CallState::Resolved(value)) => StatusLine {
            text: join2("\u{2705} ", value.as_str()),
            color: Rgb { r: 30, g: 140, b: 60 },
        },
        Some(CallState::Failed(message)) => StatusLine {
            text: join2("\u{274c} ", message.as_str()),
            color: Rgb { r: 180, g: 40, b: 40 },
        },
        None => StatusLine { text: String::from_str("Not asked yet."), color: Rgb { r: 140, g: 140, b: 140 } },
    }
}

/// The text of the permission status line: not asked, granted or denied.
pub open spec fn permission_status_text(permission: Option<bool>) -> Seq<char> {
    match permission {
        None => "Not asked yet."@,
        Some(true) => "\u{2705} Granted"@,
        Some(false) => "\u{274c} Denied"@,
    }
}

/// The colour of the permission status line.
pub open spec fn permission_status_color(permission: Option<bool>) -> Rgb {
    match permission {
        None => muted(),
        Some(true) => success(),
        Some(false) => failure(),
    }
}

/// The status line of the camera permission, `None` before it was asked.
pub fn permission_status(permission: Option<bool>) -> (line: StatusLine)
    ensures
        line.text@ == permission_status_text(permission),
        line.color == permission_status_color(permission),
{
    match permission {
        None => StatusLine { text: String::from_str("Not asked yet."), color: Rgb { r: 140, g: 140, b: 140 } },
        Some(true) => StatusLine { text: String::from_str("\u{2705} Granted"), color: Rgb { r: 30, g: 140, b: 60 } },
        Some(false) => StatusLine { text: String::from_str("\u{274c} Denied"), color: Rgb { r: 180, g: 40, b: 40 } },
    }
}

/// Every state of a call has a colour of its own, so the four lines can be
/// told apart at a glance; a resolved call and a granted permission share
/// the success colour, a failed call and a denied permission the failure one.
pub proof fn law_status_colours_distinct()
    ensures
        muted() != waiting(),
        muted() != success(),
        muted() != failure(),
        waiting() != success(),
        waiting() != failure(),
        success() != failure(),
        call_status_color(None) == permission_status_color(None),
{
}

/// A resolved call's line carries the value native sent back, and a failed
/// call's line the message: the line is the mark and a space followed by
/// exactly that text, so different answers give different lines.
pub proof fn law_answer_lines_carry_text(v: String, w: String)
    ensures
        call_status_text(Some(CallState::Resolved(v))).subrange(
            2,
            call_status_text(Some(CallState::Resolved(v))).len() as int,
        ) == v@,
        call_status_text(Some(CallState::Failed(v))).subrange(
            2,
            call_status_text(Some(CallState::Failed(v))).len() as int,
        ) == v@,
        v@ != w@ ==> call_status_text(Some(CallState::Resolved(v))) != call_status_text(
            Some(CallState::Resolved(w)),
        ),
        v@ != w@ ==> call_status_text(Some(CallState::Failed(v))) != call_status_text(
            Some(CallState::Failed(w)),
        ),
{
    reveal_strlit("\u{2705} ");
    reveal_strlit("\u{274c} ");
    let r = call_status_text(Some(CallState::Resolved(v)));
    let f = call_status_text(Some(CallState::Failed(v)));
    assert(r.subrange(2, r.len() as int) =~= v@);
    assert(f.subrange(2, f.len() as int) =~= v@);
    let rw = call_status_text(Some(CallState::Resolved(w)));
    let fw = call_status_text(Some(CallState::Failed(w)));
    assert(rw.subrange(2, rw.len() as int) =~= w@);
    assert(fw.subrange(2, fw.len() as int) =~= w@);
}

/// The colours read the same on both cards: an answered call and a granted
/// permission share one colour, a failed call and a denied permission
/// another, and a call still waiting has a colour of neither.
pub proof fn law_outcome_colours_agree(v: String, w: String)
    ensures
        call_status_color(Some(CallState::Resolved(v))) == permission_status_color(Some(true)),
        call_status_color(Some(CallState::Failed(w))) == permission_status_color(Some(false)),
        call_status_color(Some(CallState::Resolved(v))) != call_status_color(Some(CallState::Failed(w))),
        call_status_color(Some(CallState::Pending)) != call_status_color(Some(CallState::Resolved(v))),
        call_status_color(Some(CallState::Pending)) != call_status_color(Some(CallState::Failed(w))),
        call_status_color(Some(CallState::Resolved(v))) == call_status_color(Some(CallState::Resolved(w))),
{
}

} // verus!
