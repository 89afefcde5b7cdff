//! The pull-to-refresh page: which pulls start a refresh, what a finished
//! refresh changes, and the page's lines.
//!
//! The page owns a `busy` flag that the spinner follows: a pull sets it and
//! starts the (slow) request, the request's completion counts the refresh
//! and clears it, and a second pull while it is set is ignored. The request
//! itself, a timer standing in for a network call, runs outside the library;
//! it hands back [`RefreshEvent::Finished`].

use vstd::prelude::*;
use vstd::string::*;
use crate::text::{
    decimal, decimal_text, join3, lemma_cancel_prefix, lemma_decimal_tail_injective, lemma_signed_injective,
    signed_decimal, signed_text,
};

verus! {

/// How many refreshes have completed, and whether one is in flight.
#[derive(Clone, Copy, Debug, PartialEq, Eq, Structural)]
pub struct RefreshState {
    pub count: i32,
    pub busy: bool,
}

/// What happened to the page.
#[derive(Clone, Copy, Debug, PartialEq, Eq, Structural)]
pub enum RefreshEvent {
    /// The user pulled past the trigger distance and let go.
    Pulled,
    /// The request that a pull started has completed.
    Finished,
}

/// What the page must do next.
#[derive(Clone, Copy, Debug, PartialEq, Eq, Structural)]
pub enum RefreshAction {
    /// Nothing: the pull came while a refresh was already in flight.
    Nothing,
    /// Start the request, and tell the user it is running.
    StartRequest,
    /// Tell the user that the refresh is done.
    AnnounceDone,
}

/// One step of the page: a pull while busy changes nothing; a pull while
/// idle marks it busy and starts the request; a finished request counts one
/// refresh and clears the flag.
pub open spec fn refresh_step(s: RefreshState, e: RefreshEvent) -> (RefreshState, RefreshAction) {
    match e {
        RefreshEvent::Pulled => {
            if s.busy {
                (s, RefreshAction::Nothing)
            } else {
                (RefreshState { count: s.count, busy: true }, RefreshAction::StartRequest)
            }
        },
        RefreshEvent::Finished => {
            (RefreshState { count: (s.count + 1) as i32, busy: false }, RefreshAction::AnnounceDone)
        },
    }
}

/// The state the page starts in: nothing refreshed, nothing in flight.
pub fn initial_refresh_state() -> (s: RefreshState)
    ensures
        s == (RefreshState { count: 0, busy: false }),
{
    RefreshState { count: 0, busy: false }
}

/// Advances the page by one event. A finished request adds one to the count,
/// which must therefore not be at its maximum.
pub fn refresh_next(s: RefreshState, e: RefreshEvent) -> (r: (RefreshState, RefreshAction))
    requires
        e == RefreshEvent::Finished ==> s.count < i32::MAX,
    ensures
        r == refresh_step(s, e),
{
    match e {
        RefreshEvent::Pulled => {
            if s.busy {
                (s, RefreshAction::Nothing)
            } else {
                (RefreshState { count: s.count, busy: true }, RefreshAction::StartRequest)
            }
        },
        RefreshEvent::Finished => {
            (RefreshState { count: s.count + 1, busy: false }, RefreshAction::AnnounceDone)
        },
    }
}

/// The message that goes with an action, if any.
pub open spec fn action_message_spec(a: RefreshAction) -> Option<Seq<char>> {
    match a {
        RefreshAction::Nothing => None,
        RefreshAction::StartRequest => Some("Refreshing\u{2026}"@),
        RefreshAction::AnnounceDone => Some("Refreshed"@),
    }
}

/// The message shown with an action, if any.
pub fn action_message(a: RefreshAction) -> (m: Option<&'static str>)
    ensures
        match m {
            Some(t) => action_message_spec(a) == Some(t@),
            None => action_message_spec(a) is None,
        },
{
    match a {
        RefreshAction::Nothing => None,
        RefreshAction::StartRequest => Some("Refreshing\u{2026}"),
        RefreshAction::AnnounceDone => Some("Refreshed"),
    }
}

/// The number of cards on the page.
pub open spec fn refresh_item_count() -> nat {
    12
}

/// The line naming the count of refreshes.
pub open spec fn refreshed_line(count: int) -> Seq<char> {
    "Refreshed "@ + signed_decimal(count) + " times"@
}

/// The text of card `i` (counted from zero) after `count` refreshes.
pub open spec fn item_line(i: nat, count: int) -> Seq<char> {
    "Item "@ + decimal(i + 1) + " \u{2014} batch "@ + signed_decimal(count)
}

/// The page's lines after `count` refreshes: the hint, the count, then the
/// cards, each naming the batch it was built in.
pub fn refresh_page_lines(count: i32) -> (lines: Vec<String>)
    ensures
        lines.len() == 2 + refresh_item_count(),
        lines[0]@ == "Pull down from the top"@,
        lines[1]@ == refreshed_line(count as int),
        forall|i: int|
            0 <= i < refresh_item_count() ==> #[trigger] lines[i + 2]@ == item_line(i as nat, count as int),
{
    let mut lines: Vec<String> = Vec::new();
    lines.push(String::from_str("Pull down from the top"));
    let n = signed_text(count as i64);
    lines.push(join3("Refreshed ", n.as_str(), " times"));
    let mut i: u64 = 0;
    while i < 12
        invariant
            0 <= i <= 12,
            lines.len() == 2 + i,
            lines[0]@ == "Pull down from the top"@,
            lines[1]@ == refreshed_line(count as int),
            n@ == signed_decimal(count as int),
            forall|k: int| 0 <= k < i ==> #[trigger] lines[k + 2]@ == item_line(k as nat, count as int),
        decreases 12 - i,
    {
        let number = decimal_text(i + 1);
        let mut line = join3("Item ", number.as_str(), " \u{2014} batch ");
        line.append(n.as_str());
        lines.push(line);
        i = i + 1;
    }
    lines
}

/// A pull while a refresh is in flight is ignored: nothing changes and
/// nothing starts.
pub proof fn law_pull_while_busy_is_ignored(s: RefreshState)
    requires
        s.busy,
    ensures
        refresh_step(s, RefreshEvent::Pulled) == (s, RefreshAction::Nothing),
{
}

/// A pull while idle starts exactly one request and marks the page busy,
/// without counting anything yet.
pub proof fn law_pull_when_idle_starts(s: RefreshState)
    requires
        !s.busy,
    ensures
        refresh_step(s, RefreshEvent::Pulled).0 == (RefreshState { count: s.count, busy: true }),
        refresh_step(s, RefreshEvent::Pulled).1 == RefreshAction::StartRequest,
{
}

/// A completed pull, however many extra pulls came while it ran, counts
/// exactly one refresh and leaves the page idle again.
pub proof fn law_one_refresh_per_cycle(s: RefreshState, extra_pulls: nat)
    requires
        !s.busy,
        s.count < i32::MAX,
    ensures
        ({
            let started = refresh_step(s, RefreshEvent::Pulled).0;
            let waited = pulls(started, extra_pulls);
            let done = refresh_step(waited, RefreshEvent::Finished).0;
            done == (RefreshState { count: (s.count + 1) as i32, busy: false })
        }),
{
    let started = refresh_step(s, RefreshEvent::Pulled).0;
    lemma_pulls_while_busy(started, extra_pulls);
}

/// The state after `n` pulls in a row.
pub open spec fn pulls(s: RefreshState, n: nat) -> RefreshState
    decreases n,
{
    if n == 0 {
        s
    } else {
        pulls(refresh_step(s, RefreshEvent::Pulled).0, (n - 1) as nat)
    }
}

proof fn lemma_pulls_while_busy(s: RefreshState, n: nat)
    requires
        s.busy,
    ensures
        pulls(s, n) == s,
    decreases n,
{
    if n > 0 {
        lemma_pulls_while_busy(refresh_step(s, RefreshEvent::Pulled).0, (n - 1) as nat);
    }
}

/// Every finished request is announced and counted, whatever the count was
/// and whether or not the page still thought it busy: the count goes up by
/// exactly one, the spinner stops, and the page says "Refreshed".
pub proof fn law_every_finish_announced(s: RefreshState)
    requires
        s.count < i32::MAX,
    ensures
        refresh_step(s, RefreshEvent::Finished).1 == RefreshAction::AnnounceDone,
        refresh_step(s, RefreshEvent::Finished).0.count == s.count + 1,
        !refresh_step(s, RefreshEvent::Finished).0.busy,
        action_message_spec(refresh_step(s, RefreshEvent::Finished).1) == Some("Refreshed"@),
{
}

/// The count line names the count: different counts give different lines,
/// and the text between "Refreshed " and " times" is the count.
pub proof fn law_refreshed_line_names_count(c: int, d: int)
    ensures
        refreshed_line(c).subrange(10, refreshed_line(c).len() - 6) == signed_decimal(c),
        c != d ==> refreshed_line(c) != refreshed_line(d),
{
    reveal_strlit("Refreshed ");
    reveal_strlit(" times");
    let a = refreshed_line(c);
    assert(a.subrange(10, a.len() - 6) =~= signed_decimal(c));
    if c != d && refreshed_line(c) == refreshed_line(d) {
        let b = refreshed_line(d);
        assert(b.subrange(10, b.len() - 6) =~= signed_decimal(d));
        lemma_signed_injective(c, d);
    }
}

/// Each card names its position and the batch it was built in: cards at
/// different positions, or built after different counts, read differently,
/// and a card's text ends with the count.
pub proof fn law_item_line_names_card_and_batch(i: nat, c: int, j: nat, d: int)
    ensures
        item_line(i, c).subrange(
            item_line(i, c).len() - signed_decimal(c).len(),
            item_line(i, c).len() as int,
        ) == signed_decimal(c),
        (i != j || c != d) ==> item_line(i, c) != item_line(j, d),
{
    reveal_strlit("Item ");
    reveal_strlit(" \u{2014} batch ");
    let a = item_line(i, c);
    assert(a.subrange(a.len() - signed_decimal(c).len(), a.len() as int) =~= signed_decimal(c));
    if (i != j || c != d) && item_line(i, c) == item_line(j, d) {
        let sep = " \u{2014} batch "@;
        assert(item_line(i, c) =~= "Item "@ + (decimal(i + 1) + (sep + signed_decimal(c))));
        assert(item_line(j, d) =~= "Item "@ + (decimal(j + 1) + (sep + signed_decimal(d))));
        lemma_cancel_prefix("Item "@, decimal(i + 1) + (sep + signed_decimal(c)), decimal(j + 1) + (sep + signed_decimal(d)));
        lemma_decimal_tail_injective(i + 1, sep + signed_decimal(c), j + 1, sep + signed_decimal(d));
        lemma_cancel_prefix(sep, signed_decimal(c), signed_decimal(d));
        lemma_signed_injective(c, d);
    }
}

/// A started refresh and a finished one are announced differently, and an
/// ignored pull says nothing.
pub proof fn law_messages_tell_start_from_finish()
    ensures
        action_message_spec(RefreshAction::Nothing) is None,
        action_message_spec(RefreshAction::StartRequest) is Some,
        action_message_spec(RefreshAction::AnnounceDone) is Some,
        action_message_spec(RefreshAction::StartRequest) != action_message_spec(RefreshAction::AnnounceDone),
{
    reveal_strlit("Refreshing\u{2026}");
    reveal_strlit("Refreshed");
    assert("Refreshing\u{2026}"@.len() != "Refreshed"@.len());
}

} // verus!
