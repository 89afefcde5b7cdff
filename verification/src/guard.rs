//! The unsaved-changes guard of the `WillPopScope` page.
//!
//! A draft is dirty exactly when it differs from what was last saved; no
//! other bookkeeping exists. Every attempt to leave the page asks the guard
//! first: a clean page lets it pass, a dirty one refuses and opens the
//! confirmation, whose "Discard" throws the edits away and leaves, and whose
//! "Keep editing" closes it and stays.

use vstd::prelude::*;
use vstd::string::*;

verus! {

/// The guard's state: the text being edited, the text last saved, and
/// whether the "Discard changes?" confirmation is showing.
pub struct DraftGuard {
    pub draft: String,
    pub saved: String,
    pub confirm_open: bool,
}

/// The mathematical value of a [`DraftGuard`].
pub struct GuardView {
    pub draft: Seq<char>,
    pub saved: Seq<char>,
    pub confirm_open: bool,
}

impl View for DraftGuard {
    type V = GuardView;

    open spec fn view(&self) -> GuardView {
        GuardView { draft: self.draft@, saved: self.saved@, confirm_open: self.confirm_open }
    }
}

/// Nothing would be lost by leaving: the draft is what was last saved.
pub open spec fn is_clean(g: GuardView) -> bool {
    g.draft == g.saved
}

/// The state after the text field reports `text`.
pub open spec fn after_edit(g: GuardView, text: Seq<char>) -> GuardView {
    GuardView { draft: text, saved: g.saved, confirm_open: g.confirm_open }
}

/// The state after "Save": the draft becomes the saved text.
pub open spec fn after_save(g: GuardView) -> GuardView {
    GuardView { draft: g.draft, saved: g.draft, confirm_open: g.confirm_open }
}

/// The state after "Revert": the draft goes back to the saved text.
pub open spec fn after_revert(g: GuardView) -> GuardView {
    GuardView { draft: g.saved, saved: g.saved, confirm_open: g.confirm_open }
}

/// The guard's answer to a request to leave, and the state it leaves
/// behind: a clean page lets the request pass untouched; a dirty one
/// refuses it and opens the confirmation.
pub open spec fn after_leave_request(g: GuardView) -> (GuardView, bool) {
    if is_clean(g) {
        (g, true)
    } else {
        (GuardView { draft: g.draft, saved: g.saved, confirm_open: true }, false)
    }
}

/// The state after "Discard", before the request to leave that follows it:
/// the edits are thrown away and the confirmation closes.
pub open spec fn after_discard_edits(g: GuardView) -> GuardView {
    GuardView { draft: g.saved, saved: g.saved, confirm_open: false }
}

/// The state after "Keep editing": the confirmation closes, nothing else.
pub open spec fn after_keep_editing(g: GuardView) -> GuardView {
    GuardView { draft: g.draft, saved: g.saved, confirm_open: false }
}

/// What "Discard" ends in: the edits thrown away, then the same request to
/// leave that the guard refused before.
pub open spec fn after_discard(g: GuardView) -> (GuardView, bool) {
    after_leave_request(after_discard_edits(g))
}

impl DraftGuard {
    /// A guard over `draft` and `saved`, with the confirmation closed.
    pub fn new(draft: String, saved: String) -> (g: Self)
        ensures
            g@.draft == draft@,
            g@.saved == saved@,
            !g@.confirm_open,
    {
        DraftGuard { draft, saved, confirm_open: false }
    }

    /// Whether leaving now would lose work.
    pub fn is_dirty(&self) -> (dirty: bool)
        ensures
            dirty == !is_clean(self@),
    {
        !(self.draft == self.saved)
    }

    /// The text field reported a new value.
    pub fn edit(&mut self, text: String)
        ensures
            final(self)@ == after_edit(old(self)@, text@),
    {
        self.draft = text;
    }

    /// "Save": the draft becomes the saved text. Returns the message shown.
    pub fn save(&mut self) -> (message: String)
        ensures
            final(self)@ == after_save(old(self)@),
            message@ == "Saved \u{2014} leaving is allowed now"@,
    {
        self.saved = self.draft.clone();
        String::from_str("Saved \u{2014} leaving is allowed now")
    }

    /// "Revert": the draft goes back to the saved text.
    pub fn revert(&mut self)
        ensures
            final(self)@ == after_revert(old(self)@),
    {
        self.draft = self.saved.clone();
    }

    /// A request to leave the page, from the back button, the back gesture
    /// or the edge swipe alike. Returns whether the page may close.
    pub fn request_leave(&mut self) -> (allowed: bool)
        ensures
            (final(self)@, allowed) == after_leave_request(old(self)@),
    {
        if self.draft == self.saved {
            true
        } else {
            self.confirm_open = true;
            false
        }
    }

    /// "Discard" in the confirmation: throw the edits away, close it, and
    /// request to leave again. Returns the message shown and whether the
    /// page closes.
    pub fn discard(&mut self) -> (outcome: (String, bool))
        ensures
            (final(self)@, outcome.1) == after_discard(old(self)@),
            outcome.0@ == "Discarded"@,
    {
        self.draft = self.saved.clone();
        self.confirm_open = false;
        let message = String::from_str("Discarded");
        let allowed = self.request_leave();
        (message, allowed)
    }

    /// "Keep editing" in the confirmation: close it and stay.
    pub fn keep_editing(&mut self)
        ensures
            final(self)@ == after_keep_editing(old(self)@),
    {
        self.confirm_open = false;
    }

    /// The label of the save button: "Save" while dirty, "Saved" otherwise.
    pub fn save_label(&self) -> (label: &'static str)
        ensures
            label@ == (if is_clean(self@) { "Saved"@ } else { "Save"@ }),
    {
        if self.draft == self.saved { "Saved" } else { "Save" }
    }

    /// The status line under the buttons.
    pub fn status_line(&self) -> (line: &'static str)
        ensures
            line@ == (if is_clean(self@) {
                "No unsaved changes \u{2014} leaving is allowed."@
            } else {
                "Unsaved changes \u{2014} leaving will ask first."@
            }),
    {
        if self.draft == self.saved {
            "No unsaved changes \u{2014} leaving is allowed."
        } else {
            "Unsaved changes \u{2014} leaving will ask first."
        }
    }
}

/// Leaving is allowed exactly when nothing is unsaved, and an allowed
/// request changes nothing.
pub proof fn law_leave_allowed_iff_clean(g: GuardView)
    ensures
        after_leave_request(g).1 <==> is_clean(g),
        after_leave_request(g).1 ==> after_leave_request(g).0 == g,
{
}

/// A refused request opens the confirmation and keeps both texts.
pub proof fn law_refused_leave_asks(g: GuardView)
    requires
        !is_clean(g),
    ensures
        after_leave_request(g).0.confirm_open,
        after_leave_request(g).0.draft == g.draft,
        after_leave_request(g).0.saved == g.saved,
{
}

/// "Discard" always leaves: the request the guard refused now passes,
/// because the state it reads has changed. The saved text survives and the
/// confirmation is closed.
pub proof fn law_discard_leaves(g: GuardView)
    ensures
        after_discard(g).1,
        after_discard(g).0.draft == g.saved,
        after_discard(g).0.saved == g.saved,
        !after_discard(g).0.confirm_open,
{
}

/// After "Save" nothing is unsaved, so leaving passes.
pub proof fn law_save_then_leave(g: GuardView)
    ensures
        is_clean(after_save(g)),
        after_leave_request(after_save(g)).1,
        after_save(g).saved == g.draft,
{
}

/// After "Revert" nothing is unsaved, so leaving passes.
pub proof fn law_revert_then_leave(g: GuardView)
    ensures
        is_clean(after_revert(g)),
        after_leave_request(after_revert(g)).1,
        after_revert(g).saved == g.saved,
{
}

/// "Keep editing" keeps the work: the draft stays, and while it is still
/// unsaved the next request to leave is refused again.
pub proof fn law_keep_editing_keeps_draft(g: GuardView)
    ensures
        after_keep_editing(g).draft == g.draft,
        after_keep_editing(g).saved == g.saved,
        !after_keep_editing(g).confirm_open,
        !is_clean(g) ==> !after_leave_request(after_keep_editing(g)).1,
{
}

/// Dirtiness is nothing but a difference of texts: typing the saved text
/// back makes the page clean again.
pub proof fn law_edit_back_is_clean(g: GuardView)
    ensures
        is_clean(after_edit(g, g.saved)),
{
}

/// An edit changes only the draft: the saved text and the confirmation stay
/// as they were, so after an edit the page is dirty exactly when the
/// reported text differs from the saved one, and leaving then asks.
pub proof fn law_edit_changes_only_draft(g: GuardView, text: Seq<char>)
    ensures
        after_edit(g, text).draft == text,
        after_edit(g, text).saved == g.saved,
        after_edit(g, text).confirm_open == g.confirm_open,
        (after_edit(g, text).draft == after_edit(g, text).saved) <==> (text == g.saved),
        after_leave_request(after_edit(g, text)).1 <==> (text == g.saved),
{
}

/// "Save" and "Revert" touch only the texts: the confirmation stays as it
/// was, "Save" keeps the draft, and "Revert" keeps the saved text.
pub proof fn law_save_revert_keep_the_rest(g: GuardView)
    ensures
        after_save(g).draft == g.draft,
        after_save(g).confirm_open == g.confirm_open,
        after_revert(g).saved == g.saved,
        after_revert(g).draft == g.saved,
        after_revert(g).confirm_open == g.confirm_open,
{
}

} // verus!
