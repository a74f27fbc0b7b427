//! The form logic behind a quick launcher editor: three fields (display name,
//! executable path, icon path), their validation, the submit gate, the side
//! effects that each user action asks of the host, and the desktop entry text
//! that a finished form is saved as.

pub mod entry;
pub mod slug;
pub mod validate;
pub mod channel;
pub mod form;
pub mod laws;
