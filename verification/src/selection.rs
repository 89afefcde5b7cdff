//! What the catalog pages' callbacks do to their state: the data table's
//! row selection, the dropdown's clamped selection, and the counters of
//! presses, dismissals and carousel pages with their labels.

use vstd::prelude::*;
use vstd::string::*;
use crate::text::{
    decimal, decimal_text, join2, join3, lemma_cancel_prefix, lemma_decimal_injective, lemma_decimal_tail_injective,
    lemma_signed_injective, signed_decimal, signed_text,
};

verus! {

/// The selection after the row checkbox of `row` reports `checked`: that
/// row takes the new value, a row past the end changes nothing.
pub open spec fn row_selection_after(selected: Seq<bool>, row: int, checked: bool) -> Seq<bool> {
    if 0 <= row < selected.len() {
        selected.update(row, checked)
    } else {
        selected
    }
}

/// Records that the checkbox of `row` now reads `checked`.
pub fn set_row_selected(selected: &mut Vec<bool>, row: usize, checked: bool)
    ensures
        final(selected)@ == row_selection_after(old(selected)@, row as int, checked),
{
    if row < selected.len() {
        selected.set(row, checked);
    }
}

/// The index a dropdown shows for `selected` among `len` options: the last
/// option when the selection is past the end.
pub open spec fn clamped_index(selected: int, len: int) -> int {
    if selected < len { selected } else { len - 1 }
}

/// The label of the selected option, the last one when the selection is
/// past the end. There must be at least one option.
pub fn selected_option<'a>(options: &Vec<&'a str>, selected: usize) -> (label: &'a str)
    requires
        options.len() > 0,
    ensures
        label == options@[clamped_index(selected as int, options.len() as int)],
{
    let last = options.len() - 1;
    let k = if selected < last { selected } else { last };
    options[k]
}

/// What one press does to the count: it adds one.
pub open spec fn press_step(presses: int) -> int {
    presses + 1
}

/// The count after `k` presses, one [`press_step`] at a time.
pub open spec fn presses_after(presses: int, k: nat) -> int
    decreases k,
{
    if k == 0 {
        presses
    } else {
        press_step(presses_after(presses, (k - 1) as nat))
    }
}

/// The press count after one more press; it must not be at its maximum.
pub fn count_press(presses: i32) -> (next: i32)
    requires
        presses < i32::MAX,
    ensures
        next == press_step(presses as int),
{
    presses + 1
}

/// The label of the counting button for a count of `presses`.
pub open spec fn press_label_spec(presses: int) -> Seq<char> {
    "Pressed "@ + signed_decimal(presses) + " times"@
}

/// The label of the counting button: "Pressed n times".
pub fn press_label(presses: i32) -> (label: String)
    ensures
        label@ == press_label_spec(presses as int),
{
    let n = signed_text(presses as i64);
    join3("Pressed ", n.as_str(), " times")
}

/// The number of swipeable rows on the dismissible page.
pub open spec fn message_row_count() -> nat {
    4
}

/// The title of dismissible row `i`, counted from one.
pub open spec fn message_title(i: nat) -> Seq<char> {
    "Message "@ + decimal(i)
}

/// The titles of the swipeable rows: "Message 1" to "Message 4".
pub fn message_titles() -> (titles: Vec<String>)
    ensures
        titles.len() == message_row_count(),
        forall|k: int| 0 <= k < message_row_count() ==> #[trigger] titles[k]@ == message_title((k + 1) as nat),
{
    let mut titles: Vec<String> = Vec::new();
    let mut i: u64 = 1;
    while i <= 4
        invariant
            1 <= i <= 5,
            titles.len() == i - 1,
            forall|k: int| 0 <= k < i - 1 ==> #[trigger] titles[k]@ == message_title((k + 1) as nat),
        decreases 5 - i,
    {
        let n = decimal_text(i);
        titles.push(join2("Message ", n.as_str()));
        i = i + 1;
    }
    titles
}

/// What dismissing row `i` does to the dismissal count: it adds one,
/// whichever row it was.
pub open spec fn dismiss_step(removed: int, i: nat) -> int {
    removed + 1
}

/// The dismissal count after the rows `rows` were swiped away, in that
/// order, one [`dismiss_step`] at a time.
pub open spec fn dismissals_after(removed: int, rows: Seq<nat>) -> int
    decreases rows.len(),
{
    if rows.len() == 0 {
        removed
    } else {
        dismiss_step(dismissals_after(removed, rows.drop_last()), rows.last())
    }
}

/// Row `i` was swiped away: the dismissal count goes up by one, and the
/// page says which row went. The count must not be at its maximum.
pub fn dismiss_row(removed: i32, i: u64) -> (r: (i32, String))
    requires
        removed < i32::MAX,
    ensures
        r.0 == dismiss_step(removed as int, i as nat),
        r.1@ == message_title(i as nat) + " dismissed"@,
{
    let n = decimal_text(i);
    (removed + 1, join3("Message ", n.as_str(), " dismissed"))
}

/// The running count line for `removed` dismissals.
pub open spec fn dismissed_label_spec(removed: int) -> Seq<char> {
    "Dismissed so far: "@ + signed_decimal(removed)
}

/// The running count of dismissals: "Dismissed so far: n".
pub fn dismissed_label(removed: i32) -> (label: String)
    ensures
        label@ == dismissed_label_spec(removed as int),
{
    let n = signed_text(removed as i64);
    join2("Dismissed so far: ", n.as_str())
}

/// The carousel's caption on page `page`, counted from zero.
pub open spec fn carousel_caption_spec(page: nat) -> Seq<char> {
    "Try it \u{2014} swipe, page "@ + decimal(page + 1)
}

/// The carousel's caption, numbering pages from one; the page index must
/// leave room for that.
pub fn carousel_caption(page: usize) -> (caption: String)
    requires
        page < usize::MAX,
    ensures
        caption@ == carousel_caption_spec(page as nat),
{
    let n = decimal_text(page as u64 + 1);
    join2("Try it \u{2014} swipe, page ", n.as_str())
}

/// `k` presses leave the count `k` higher: each press adds exactly one.
pub proof fn law_presses_add_up(presses: int, k: nat)
    ensures
        presses_after(presses, k) == presses + k,
    decreases k,
{
    if k > 0 {
        law_presses_add_up(presses, (k - 1) as nat);
    }
}

/// Dismissing any rows, in any order, leaves the count higher by the number
/// of dismissals: which row went, and when, does not matter.
pub proof fn law_dismissals_add_up(removed: int, rows: Seq<nat>)
    ensures
        dismissals_after(removed, rows) == removed + rows.len(),
    decreases rows.len(),
{
    if rows.len() > 0 {
        law_dismissals_add_up(removed, rows.drop_last());
    }
}

/// A checkbox report changes at most its own row: the length stays, every
/// other row keeps its value, and the reported row reads what was reported.
pub proof fn law_selection_touches_one_row(selected: Seq<bool>, row: int, checked: bool)
    ensures
        row_selection_after(selected, row, checked).len() == selected.len(),
        forall|k: int| 0 <= k < selected.len() && k != row ==>
            #[trigger] row_selection_after(selected, row, checked)[k] == selected[k],
        0 <= row < selected.len() ==> row_selection_after(selected, row, checked)[row] == checked,
{
}

/// Ticking a row and unticking it again restores the selection it started
/// from when the row was unticked before.
pub proof fn law_tick_untick_restores(selected: Seq<bool>, row: int)
    requires
        0 <= row < selected.len(),
        !selected[row],
    ensures
        row_selection_after(row_selection_after(selected, row, true), row, false) == selected,
{
    assert(row_selection_after(row_selection_after(selected, row, true), row, false) =~= selected);
}

/// The dropdown always names an option that exists, and the selected one
/// whenever the selection is in range.
pub proof fn law_clamped_index_in_range(selected: int, len: int)
    requires
        0 <= selected,
        len > 0,
    ensures
        0 <= clamped_index(selected, len) < len,
        selected < len ==> clamped_index(selected, len) == selected,
{
}

/// The counting button's label names the count: the text between
/// "Pressed " and " times" is its rendering, so different counts give
/// different labels.
pub proof fn law_press_label_names_count(n: int, m: int)
    ensures
        press_label_spec(n).subrange(8, press_label_spec(n).len() - 6) == signed_decimal(n),
        n != m ==> press_label_spec(n) != press_label_spec(m),
{
    reveal_strlit("Pressed ");
    reveal_strlit(" times");
    let a = press_label_spec(n);
    assert(a.subrange(8, a.len() - 6) =~= signed_decimal(n));
    if n != m && press_label_spec(n) == press_label_spec(m) {
        let b = press_label_spec(m);
        assert(b.subrange(8, b.len() - 6) =~= signed_decimal(m));
        assert(signed_decimal(n) =~= signed_decimal(m));
        lemma_signed_injective(n, m);
    }
}

/// The running line names the dismissal count: different counts give
/// different lines, and the text after the colon is the count.
pub proof fn law_dismissed_label_names_count(n: int, m: int)
    ensures
        dismissed_label_spec(n).subrange(18, dismissed_label_spec(n).len() as int) == signed_decimal(n),
        n != m ==> dismissed_label_spec(n) != dismissed_label_spec(m),
{
    reveal_strlit("Dismissed so far: ");
    let a = dismissed_label_spec(n);
    assert(a.subrange(18, a.len() as int) =~= signed_decimal(n));
    if n != m && dismissed_label_spec(n) == dismissed_label_spec(m) {
        let b = dismissed_label_spec(m);
        assert(b.subrange(18, b.len() as int) =~= signed_decimal(m));
        lemma_signed_injective(n, m);
    }
}

/// Each swipeable row has a title of its own, and the message of a
/// dismissal names the row that went: different rows give different titles
/// and different messages.
pub proof fn law_dismissal_names_row(i: nat, j: nat)
    requires
        i != j,
    ensures
        message_title(i) != message_title(j),
        message_title(i) + " dismissed"@ != message_title(j) + " dismissed"@,
{
    reveal_strlit("Message ");
    reveal_strlit(" dismissed");
    if message_title(i) + " dismissed"@ == message_title(j) + " dismissed"@ {
        assert(message_title(i) + " dismissed"@ =~= "Message "@ + (decimal(i) + " dismissed"@));
        assert(message_title(j) + " dismissed"@ =~= "Message "@ + (decimal(j) + " dismissed"@));
        lemma_cancel_prefix("Message "@, decimal(i) + " dismissed"@, decimal(j) + " dismissed"@);
        lemma_decimal_tail_injective(i, " dismissed"@, j, " dismissed"@);
    }
    if message_title(i) == message_title(j) {
        lemma_cancel_prefix("Message "@, decimal(i), decimal(j));
        lemma_decimal_injective(i, j);
    }
}

/// The caption names the page it is on: different pages give different
/// captions, and the number in it is the page counted from one.
pub proof fn law_carousel_caption_names_page(p: nat, q: nat)
    ensures
        carousel_caption_spec(p).subrange(21, carousel_caption_spec(p).len() as int) == decimal(p + 1),
        p != q ==> carousel_caption_spec(p) != carousel_caption_spec(q),
{
    reveal_strlit("Try it \u{2014} swipe, page ");
    let a = carousel_caption_spec(p);
    assert(a.subrange(21, a.len() as int) =~= decimal(p + 1));
    if p != q && carousel_caption_spec(p) == carousel_caption_spec(q) {
        let b = carousel_caption_spec(q);
        assert(b.subrange(21, b.len() as int) =~= decimal(q + 1));
        lemma_decimal_injective(p + 1, q + 1);
    }
}

} // verus!
