use vstd::prelude::*;

use crate::channel::{ActionChannel, ActionMessage, MessageView};
use crate::entry::{desktop_entry, EntryModel, EntryView, Field};
use crate::slug::{hyphenate, lower_of};
use crate::validate::{name_validity, path_validity, validate_name, validate_path, Validity};

verus! {

/// Where the form asks the host to move the keyboard focus.
#[derive(PartialEq, Eq, Structural, Clone, Copy, Debug)]
pub enum Focus {
    NameField,
    ExecField,
    SaveButton,
}

/// How prominently the name preview is drawn.
#[derive(PartialEq, Eq, Structural, Clone, Copy, Debug)]
pub enum Emphasis {
    Low,
    Full,
}

/// What the icon preview shows.
#[derive(Debug)]
pub enum IconPreview {
    Placeholder,
    Image(String),
}

pub enum IconPreviewView {
    Placeholder,
    Image(Seq<char>),
}

impl View for IconPreview {
    type V = IconPreviewView;

    open spec fn view(&self) -> IconPreviewView {
        match self {
            IconPreview::Placeholder => IconPreviewView::Placeholder,
            IconPreview::Image(p) => IconPreviewView::Image(p@),
        }
    }
}

impl IconPreview {
    pub fn duplicate(&self) -> (r: IconPreview)
        ensures
            r@ == self@,
    {
        match self {
            IconPreview::Placeholder => IconPreview::Placeholder,
            IconPreview::Image(p) => IconPreview::Image(p.clone()),
        }
    }
}

/// A finished entry ready to be written: the file name inside the user's
/// launcher directory, and the text to write there.
pub struct SaveRequest {
    pub file_name: String,
    pub contents: String,
}

pub open spec fn exec_invalid_message() -> Seq<char> {
    "The executable path is not valid"@
}

pub open spec fn icon_invalid_message() -> Seq<char> {
    "The icon path is not valid"@
}

pub open spec fn placeholder_text() -> Seq<char> {
    "Preview"@
}

/// The name of the file that holds an entry whose file name stem is `stem`.
pub open spec fn entry_file_name(stem: Seq<char>) -> Seq<char> {
    stem + ".desktop"@
}

/// The whole state of a form, as the host can observe it.
pub struct FormState {
    /// The committed values.
    pub entry: EntryView,
    pub name_validity: Validity,
    /// The last text confirmed in the executable field, accepted or not.
    pub exec_raw: Seq<char>,
    pub exec_validity: Validity,
    /// The last text confirmed in the icon field, accepted or not.
    pub icon_raw: Seq<char>,
    pub icon_validity: Validity,
    pub preview: IconPreviewView,
    /// The focus move asked for by the last action, if any.
    pub focus: Option<Focus>,
    /// Messages sent and not yet taken by the host, oldest first.
    pub messages: Seq<MessageView>,
}

impl FormState {
    /// A fresh form that sends on a channel already holding `messages`.
    pub open spec fn initial(messages: Seq<MessageView>) -> FormState {
        FormState {
            entry: EntryView::empty(),
            name_validity: Validity::Unvalidated,
            exec_raw: Seq::empty(),
            exec_validity: Validity::Unvalidated,
            icon_raw: Seq::empty(),
            icon_validity: Validity::Unvalidated,
            preview: IconPreviewView::Placeholder,
            focus: None,
            messages,
        }
    }

    /// The submit gate: all three committed values are non-empty, whatever
    /// the fields' validity.
    pub open spec fn submit_enabled(self) -> bool {
        self.entry.is_complete()
    }

    /// Whether the field is marked as being in error.
    pub open spec fn marked_invalid(self, field: Field) -> bool {
        match field {
            Field::Name => self.name_validity == Validity::Invalid,
            Field::Exec => self.exec_validity == Validity::Invalid,
            Field::Icon => self.icon_validity == Validity::Invalid,
        }
    }

    /// Every keystroke in the name field commits the text as it stands.
    pub open spec fn edit_name(self, raw: Seq<char>) -> FormState {
        FormState {
            entry: self.entry.set(Field::Name, raw),
            name_validity: name_validity(raw),
            focus: None,
            ..self
        }
    }

    /// The executable field is confirmed with `raw`; `is_regular_file` is the
    /// host's finding on that path.
    pub open spec fn confirm_exec(self, raw: Seq<char>, is_regular_file: bool) -> FormState {
        if path_validity(raw, is_regular_file) == Validity::Valid {
            FormState {
                entry: self.entry.set(Field::Exec, raw),
                exec_raw: raw,
                exec_validity: Validity::Valid,
                focus: Some(Focus::SaveButton),
                ..self
            }
        } else {
            FormState {
                exec_raw: raw,
                exec_validity: Validity::Invalid,
                focus: None,
                messages: self.messages.push(
                    MessageView::Notify(exec_invalid_message(), Some(Field::Exec)),
                ),
                ..self
            }
        }
    }

    /// The icon field is confirmed with `raw`; `is_regular_file` is the
    /// host's finding on that path.
    pub open spec fn confirm_icon(self, raw: Seq<char>, is_regular_file: bool) -> FormState {
        if path_validity(raw, is_regular_file) == Validity::Valid {
            FormState {
                entry: self.entry.set(Field::Icon, raw),
                icon_raw: raw,
                icon_validity: Validity::Valid,
                preview: IconPreviewView::Image(raw),
                focus: Some(Focus::ExecField),
                ..self
            }
        } else {
            FormState {
                icon_raw: raw,
                icon_validity: Validity::Invalid,
                focus: None,
                messages: self.messages.push(
                    MessageView::Notify(icon_invalid_message(), Some(Field::Icon)),
                ),
                ..self
            }
        }
    }

    /// A file picker for the executable closed, with a path or cancelled.
    pub open spec fn exec_picked(self, path: Option<Seq<char>>, is_regular_file: bool) -> FormState {
        match path {
            Some(p) => self.confirm_exec(p, is_regular_file),
            None => self,
        }
    }

    /// A file picker for the icon closed, with a path or cancelled.
    pub open spec fn icon_picked(self, path: Option<Seq<char>>, is_regular_file: bool) -> FormState {
        match path {
            Some(p) => self.confirm_icon(p, is_regular_file),
            None => self,
        }
    }

    pub open spec fn cancel(self) -> FormState {
        FormState {
            focus: None,
            messages: self.messages.push(MessageView::NavigateBack(true)),
            ..self
        }
    }

    /// Empties the form for a new entry; waiting messages stay.
    pub open spec fn reset(self) -> FormState {
        FormState {
            focus: Some(Focus::NameField),
            ..FormState::initial(self.messages)
        }
    }

    /// The host reports how writing the saved entry went: `None` for success,
    /// or the error's description.
    pub open spec fn save_finished(self, error: Option<Seq<char>>) -> FormState {
        match error {
            None => FormState {
                focus: None,
                messages: self.messages.push(MessageView::Completed),
                ..self
            },
            Some(e) => FormState {
                focus: None,
                messages: self.messages.push(MessageView::Notify(e, None)),
                ..self
            },
        }
    }

    /// Fields marked valid hold the committed value, the name's validity
    /// follows the name, and an image preview shows the committed icon.
    pub open spec fn wf(self) -> bool {
        &&& (self.exec_validity == Validity::Valid ==> self.exec_raw == self.entry.exec_path)
        &&& (self.icon_validity == Validity::Valid ==> self.icon_raw == self.entry.icon_path)
        &&& (self.name_validity == Validity::Unvalidated || self.name_validity == name_validity(
            self.entry.name,
        ))
        &&& (self.preview matches IconPreviewView::Image(p) ==> p == self.entry.icon_path)
    }
}

/// The form: the entry being built, the state of each field, and the channel
/// it reports to its host on.
pub struct FormController {
    entry: EntryModel,
    name_validity: Validity,
    exec_raw: String,
    exec_validity: Validity,
    icon_raw: String,
    icon_validity: Validity,
    preview: IconPreview,
    focus: Option<Focus>,
    channel: ActionChannel,
}

impl View for FormController {
    type V = FormState;

    closed spec fn view(&self) -> FormState {
        FormState {
            entry: self.entry@,
            name_validity: self.name_validity,
            exec_raw: self.exec_raw@,
            exec_validity: self.exec_validity,
            icon_raw: self.icon_raw@,
            icon_validity: self.icon_validity,
            preview: self.preview@,
            focus: self.focus,
            messages: self.channel@,
        }
    }
}

impl FormController {
    /// An empty form that reports on `channel`.
    pub fn new(channel: ActionChannel) -> (r: FormController)
        ensures
            r@ == FormState::initial(channel@),
    {
        FormController {
            entry: EntryModel::new(),
            name_validity: Validity::Unvalidated,
            exec_raw: String::new(),
            exec_validity: Validity::Unvalidated,
            icon_raw: String::new(),
            icon_validity: Validity::Unvalidated,
            preview: IconPreview::Placeholder,
            focus: None,
            channel,
        }
    }

    pub fn edit_name(&mut self, raw: String)
        ensures
            final(self)@ == old(self)@.edit_name(raw@),
    {
        self.name_validity = validate_name(raw.as_str());
        self.entry.set(Field::Name, raw);
        self.focus = None;
    }

    pub fn confirm_exec(&mut self, raw: String, is_regular_file: bool)
        ensures
            final(self)@ == old(self)@.confirm_exec(raw@, is_regular_file),
    {
        match validate_path(raw.as_str(), is_regular_file) {
            Validity::Valid => {
                self.entry.set(Field::Exec, raw.clone());
                self.exec_raw = raw;
                self.exec_validity = Validity::Valid;
                self.focus = Some(Focus::SaveButton);
            },
            _ => {
                self.exec_raw = raw;
                self.exec_validity = Validity::Invalid;
                self.focus = None;
                let text = String::from_str("The executable path is not valid");
                self.channel.send(ActionMessage::Notify(text, Some(Field::Exec)));
            },
        }
    }

    pub fn confirm_icon(&mut self, raw: String, is_regular_file: bool)
        ensures
            final(self)@ == old(self)@.confirm_icon(raw@, is_regular_file),
    {
        match validate_path(raw.as_str(), is_regular_file) {
            Validity::Valid => {
                self.entry.set(Field::Icon, raw.clone());
                self.preview = IconPreview::Image(raw.clone());
                self.icon_raw = raw;
                self.icon_validity = Validity::Valid;
                self.focus = Some(Focus::ExecField);
            },
            _ => {
                self.icon_raw = raw;
                self.icon_validity = Validity::Invalid;
                self.focus = None;
                let text = String::from_str("The icon path is not valid");
                self.channel.send(ActionMessage::Notify(text, Some(Field::Icon)));
            },
        }
    }

    /// The executable picker's result: a chosen path, or `None` when the
    /// picker was closed without a choice, which changes nothing.
    pub fn exec_picked(&mut self, path: Option<String>, is_regular_file: bool)
        ensures
            final(self)@ == old(self)@.exec_picked(
                match path {
                    Some(p) => Some(p@),
                    None => None,
                },
                is_regular_file,
            ),
    {
        if let Some(p) = path {
            self.confirm_exec(p, is_regular_file);
        }
    }

    /// The icon picker's result: a chosen path, or `None` when the picker was
    /// closed without a choice, which changes nothing.
    pub fn icon_picked(&mut self, path: Option<String>, is_regular_file: bool)
        ensures
            final(self)@ == old(self)@.icon_picked(
                match path {
                    Some(p) => Some(p@),
                    None => None,
                },
                is_regular_file,
            ),
    {
        if let Some(p) = path {
            self.confirm_icon(p, is_regular_file);
        }
    }

    pub fn cancel(&mut self)
        ensures
            final(self)@ == old(self)@.cancel(),
    {
        self.focus = None;
        self.channel.send(ActionMessage::NavigateBack(true));
    }

    pub fn reset(&mut self)
        ensures
            final(self)@ == old(self)@.reset(),
    {
        self.entry = EntryModel::new();
        self.name_validity = Validity::Unvalidated;
        self.exec_raw = String::new();
        self.exec_validity = Validity::Unvalidated;
        self.icon_raw = String::new();
        self.icon_validity = Validity::Unvalidated;
        self.preview = IconPreview::Placeholder;
        self.focus = Some(Focus::NameField);
    }

    /// The entry to write, when the submit gate is open; `None`, and nothing
    /// else happens, when it is closed.
    pub fn save(&self) -> (r: Option<SaveRequest>)
        ensures
            r is Some <==> self@.submit_enabled(),
            r matches Some(req) ==> req.contents@ == desktop_entry(
                self@.entry.name,
                self@.entry.exec_path,
                self@.entry.icon_path,
            ) && req.file_name@ == entry_file_name(hyphenate(lower_of(self@.entry.name))),
    {
        if !self.entry.is_complete() {
            return None;
        }
        match self.entry.serialize() {
            Ok(contents) => {
                let stem = self.entry.suggested_filename();
                Some(SaveRequest { file_name: desktop_file_name(stem.as_str()), contents })
            },
            Err(_) => None,
        }
    }

    /// The host reports how writing the entry from `save` went. Success sends
    /// `Completed`; a failure sends a warning with the error's description and
    /// leaves the form as it was, so that the user may try again.
    pub fn save_finished(&mut self, outcome: Result<(), String>)
        ensures
            final(self)@ == old(self)@.save_finished(
                match outcome {
                    Ok(()) => None,
                    Err(e) => Some(e@),
                },
            ),
    {
        self.focus = None;
        match outcome {
            Ok(()) => self.channel.send(ActionMessage::Completed),
            Err(e) => self.channel.send(ActionMessage::Notify(e, None)),
        }
    }

    /// Hands the host every waiting message, oldest first.
    pub fn take_messages(&mut self) -> (r: Vec<ActionMessage>)
        ensures
            r@.map_values(|m: ActionMessage| m@) == old(self)@.messages,
            final(self)@ == (FormState { messages: Seq::empty(), ..old(self)@ }),
    {
        self.channel.take_all()
    }

    pub fn is_submit_enabled(&self) -> (r: bool)
        ensures
            r == self@.submit_enabled(),
    {
        self.entry.is_complete()
    }

    /// The text shown as the launcher's name: a placeholder at low emphasis
    /// while the name is empty, the name itself at full emphasis otherwise.
    pub fn preview_text(&self) -> (r: (String, Emphasis))
        ensures
            self@.entry.name.len() == 0 ==> r.0@ == placeholder_text() && r.1 == Emphasis::Low,
            self@.entry.name.len() > 0 ==> r.0@ == self@.entry.name && r.1 == Emphasis::Full,
    {
        let name = self.entry.get(Field::Name);
        if name.is_empty() {
            (String::from_str("Preview"), Emphasis::Low)
        } else {
            (String::from_str(name), Emphasis::Full)
        }
    }

    pub fn icon_preview(&self) -> (r: IconPreview)
        ensures
            r@ == self@.preview,
    {
        self.preview.duplicate()
    }

    /// The focus move asked for by the last action, if any.
    pub fn focus_request(&self) -> (r: Option<Focus>)
        ensures
            r == self@.focus,
    {
        self.focus
    }

    pub fn validity(&self, field: Field) -> (r: Validity)
        ensures
            r == match field {
                Field::Name => self@.name_validity,
                Field::Exec => self@.exec_validity,
                Field::Icon => self@.icon_validity,
            },
    {
        match field {
            Field::Name => self.name_validity,
            Field::Exec => self.exec_validity,
            Field::Icon => self.icon_validity,
        }
    }

    pub fn is_marked_invalid(&self, field: Field) -> (r: bool)
        ensures
            r == self@.marked_invalid(field),
    {
        let v = self.validity(field);
        v == Validity::Invalid
    }

    /// The committed value of `field`.
    pub fn value(&self, field: Field) -> (r: &str)
        ensures
            r@ == self@.entry.get(field),
    {
        self.entry.get(field)
    }

    /// The text last confirmed in a path field, accepted or not; for the name
    /// field, the name.
    pub fn raw_value(&self, field: Field) -> (r: &str)
        ensures
            r@ == match field {
                Field::Name => self@.entry.name,
                Field::Exec => self@.exec_raw,
                Field::Icon => self@.icon_raw,
            },
    {
        match field {
            Field::Name => self.entry.get(Field::Name),
            Field::Exec => self.exec_raw.as_str(),
            Field::Icon => self.icon_raw.as_str(),
        }
    }

    pub fn pending_messages(&self) -> (r: usize)
        ensures
            r == self@.messages.len(),
    {
        self.channel.len()
    }
}

/// The name of the file that holds an entry with file name stem `stem`.
pub fn desktop_file_name(stem: &str) -> (r: String)
    ensures
        r@ == entry_file_name(stem@),
{
    let mut r = String::from_str(stem);
    r.append(".desktop");
    r
}

} // verus!
