use vstd::prelude::*;

use crate::slug::{hyphenate, lower_of};

verus! {

/// The three fields of a launcher definition.
#[derive(PartialEq, Eq, Structural, Clone, Copy, Debug)]
pub enum Field {
    Name,
    Exec,
    Icon,
}

/// Why a model could not be turned into desktop entry text.
#[derive(PartialEq, Eq, Structural, Clone, Copy, Debug)]
pub enum SerializeError {
    /// At least one of the three values is empty.
    Incomplete,
}

/// What an `EntryModel` holds, as character sequences.
pub struct EntryView {
    pub name: Seq<char>,
    pub exec_path: Seq<char>,
    pub icon_path: Seq<char>,
}

impl EntryView {
    pub open spec fn empty() -> EntryView {
        EntryView { name: Seq::empty(), exec_path: Seq::empty(), icon_path: Seq::empty() }
    }

    pub open spec fn set(self, field: Field, value: Seq<char>) -> EntryView {
        match field {
            Field::Name => EntryView { name: value, ..self },
            Field::Exec => EntryView { exec_path: value, ..self },
            Field::Icon => EntryView { icon_path: value, ..self },
        }
    }

    pub open spec fn get(self, field: Field) -> Seq<char> {
        match field {
            Field::Name => self.name,
            Field::Exec => self.exec_path,
            Field::Icon => self.icon_path,
        }
    }

    /// All three values are non-empty.
    pub open spec fn is_complete(self) -> bool {
        self.name.len() > 0 && self.exec_path.len() > 0 && self.icon_path.len() > 0
    }
}

/// The desktop entry text for the given values: a fixed header, the three
/// keys in a fixed order, and the application type, each line ended by a
/// newline.
pub open spec fn desktop_entry(name: Seq<char>, exec_path: Seq<char>, icon_path: Seq<char>) -> Seq<char> {
    "[Desktop Entry]\nName="@ + name + "\nExec="@ + exec_path + "\nIcon="@ + icon_path
        + "\nType=Application\n"@
}

/// The launcher definition that the form fills in. It stores whatever it is
/// given: checking the values is the form's job.
pub struct EntryModel {
    name: String,
    exec_path: String,
    icon_path: String,
}

impl View for EntryModel {
    type V = EntryView;

    closed spec fn view(&self) -> EntryView {
        EntryView { name: self.name@, exec_path: self.exec_path@, icon_path: self.icon_path@ }
    }
}

impl EntryModel {
    pub fn new() -> (r: EntryModel)
        ensures
            r@ == EntryView::empty(),
    {
        EntryModel { name: String::new(), exec_path: String::new(), icon_path: String::new() }
    }

    /// Stores `value` as the raw value of `field`; never fails.
    pub fn set(&mut self, field: Field, value: String)
        ensures
            final(self)@ == old(self)@.set(field, value@),
    {
        match field {
            Field::Name => self.name = value,
            Field::Exec => self.exec_path = value,
            Field::Icon => self.icon_path = value,
        }
    }

    pub fn get(&self, field: Field) -> (r: &str)
        ensures
            r@ == self@.get(field),
    {
        match field {
            Field::Name => self.name.as_str(),
            Field::Exec => self.exec_path.as_str(),
            Field::Icon => self.icon_path.as_str(),
        }
    }

    pub fn is_complete(&self) -> (r: bool)
        ensures
            r == self@.is_complete(),
    {
        !(self.name.as_str().is_empty() || self.exec_path.as_str().is_empty()
            || self.icon_path.as_str().is_empty())
    }

    /// The desktop entry text of this model, or `Incomplete` when a value is
    /// empty.
    pub fn serialize(&self) -> (r: Result<String, SerializeError>)
        ensures
            self@.is_complete() ==> r is Ok && r->Ok_0@ == desktop_entry(
                self@.name,
                self@.exec_path,
                self@.icon_path,
            ),
            !self@.is_complete() ==> r == Err::<String, SerializeError>(SerializeError::Incomplete),
    {
        if !self.is_complete() {
            return Err(SerializeError::Incomplete);
        }
        let mut out = String::from_str("[Desktop Entry]\nName=");
        out.append(self.name.as_str());
        out.append("\nExec=");
        out.append(self.exec_path.as_str());
        out.append("\nIcon=");
        out.append(self.icon_path.as_str());
        out.append("\nType=Application\n");
        Ok(out)
    }

    /// The file name stem derived from the display name: lower case, each run
    /// of whitespace replaced by one hyphen.
    pub fn suggested_filename(&self) -> (r: String)
        ensures
            r@ == hyphenate(lower_of(self@.name)),
    {
        crate::slug::suggested_filename(self.name.as_str())
    }
}

} // verus!
