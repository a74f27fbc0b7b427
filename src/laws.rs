use vstd::prelude::*;

use crate::channel::MessageView;
use crate::entry::Field;
use crate::form::{exec_invalid_message, FormState};
use crate::validate::{path_validity, Validity};

verus! {

/// Resetting twice in a row leaves the form as resetting once does.
pub proof fn lemma_reset_idempotent(s: FormState)
    ensures
        s.reset().reset() == s.reset(),
{
}

/// The submit gate looks at the committed values only: two forms with the
/// same committed values agree on it, whatever their fields' validity.
pub proof fn lemma_submit_ignores_validity(s: FormState, t: FormState)
    requires
        s.entry == t.entry,
    ensures
        s.submit_enabled() == t.submit_enabled(),
{
}

/// Once the submit gate is open it stays open until a value is cleared:
/// confirming or picking a path, accepted or not, cancelling, reporting a
/// save and editing the name to a non-empty text all keep it open; emptying
/// the name or resetting the form close it.
pub proof fn lemma_submit_stays_enabled(
    s: FormState,
    raw: Seq<char>,
    path: Option<Seq<char>>,
    is_regular_file: bool,
    name: Seq<char>,
    error: Option<Seq<char>>,
)
    requires
        s.submit_enabled(),
    ensures
        s.confirm_exec(raw, is_regular_file).submit_enabled(),
        s.confirm_icon(raw, is_regular_file).submit_enabled(),
        s.exec_picked(path, is_regular_file).submit_enabled(),
        s.icon_picked(path, is_regular_file).submit_enabled(),
        s.cancel().submit_enabled(),
        s.save_finished(error).submit_enabled(),
        name.len() > 0 ==> s.edit_name(name).submit_enabled(),
        !s.edit_name(Seq::empty()).submit_enabled(),
        !s.reset().submit_enabled(),
{
}

/// A refused executable path leaves the committed entry as it was, marks the
/// field invalid and sends exactly one warning, about that field.
pub proof fn lemma_refused_exec_keeps_entry(s: FormState, raw: Seq<char>, is_regular_file: bool)
    requires
        path_validity(raw, is_regular_file) == Validity::Invalid,
    ensures
        s.confirm_exec(raw, is_regular_file).entry == s.entry,
        s.confirm_exec(raw, is_regular_file).marked_invalid(Field::Exec),
        s.confirm_exec(raw, is_regular_file).messages == s.messages.push(
            MessageView::Notify(exec_invalid_message(), Some(Field::Exec)),
        ),
{
}

/// A successful save report sends exactly one `Completed`, behind the
/// messages already waiting, and changes no value.
pub proof fn lemma_save_completes_once(s: FormState)
    ensures
        s.save_finished(None).messages == s.messages.push(MessageView::Completed),
        s.save_finished(None).entry == s.entry,
{
}

/// The fresh form is well formed, and every action keeps a form well formed.
pub proof fn lemma_wf_preserved(
    s: FormState,
    raw: Seq<char>,
    path: Option<Seq<char>>,
    is_regular_file: bool,
    error: Option<Seq<char>>,
    messages: Seq<MessageView>,
)
    requires
        s.wf(),
    ensures
        FormState::initial(messages).wf(),
        s.edit_name(raw).wf(),
        s.confirm_exec(raw, is_regular_file).wf(),
        s.confirm_icon(raw, is_regular_file).wf(),
        s.exec_picked(path, is_regular_file).wf(),
        s.icon_picked(path, is_regular_file).wf(),
        s.cancel().wf(),
        s.reset().wf(),
        s.save_finished(error).wf(),
        (FormState { messages: Seq::empty(), ..s }).wf(),
{
}

} // verus!
