use shortcut::channel::{ActionChannel, ActionMessage};
use shortcut::entry::Field;
use shortcut::form::{Emphasis, Focus, FormController, IconPreview};
use shortcut::validate::Validity;

fn form() -> FormController {
    FormController::new(ActionChannel::new())
}

fn filled() -> FormController {
    let mut f = form();
    f.edit_name("My App".to_string());
    f.confirm_exec("/usr/bin/true".to_string(), true);
    f.confirm_icon("/usr/share/icons/x.png".to_string(), true);
    f
}

#[test]
fn fresh_form_is_empty() {
    let f = form();
    assert!(!f.is_submit_enabled());
    assert_eq!(f.validity(Field::Exec), Validity::Unvalidated);
    assert!(matches!(f.icon_preview(), IconPreview::Placeholder));
    assert_eq!(f.focus_request(), None);
    assert_eq!(f.pending_messages(), 0);
}

#[test]
fn submit_gate_follows_values() {
    let mut f = form();
    f.edit_name("Editor".to_string());
    assert!(!f.is_submit_enabled());
    f.confirm_exec("/usr/bin/true".to_string(), true);
    assert!(!f.is_submit_enabled());
    f.confirm_icon("/usr/share/icons/x.png".to_string(), true);
    assert!(f.is_submit_enabled());
    f.confirm_exec("/missing".to_string(), false);
    assert!(f.is_marked_invalid(Field::Exec));
    assert!(f.is_submit_enabled());
    f.edit_name(String::new());
    assert!(!f.is_submit_enabled());
}

#[test]
fn submit_gate_stays_closed_on_refused_paths() {
    let mut f = form();
    f.edit_name("Editor".to_string());
    f.confirm_exec("/missing/exec".to_string(), false);
    f.confirm_icon("/missing/icon".to_string(), false);
    assert_eq!(f.raw_value(Field::Exec), "/missing/exec");
    assert_eq!(f.value(Field::Exec), "");
    assert!(!f.is_submit_enabled());
    assert!(f.save().is_none());
}

#[test]
fn reset_twice_equals_reset_once() {
    let mut f = filled();
    f.cancel();
    f.reset();
    let once = (f.value(Field::Name).to_string(), f.is_submit_enabled(), f.focus_request(), f.pending_messages());
    f.reset();
    let twice = (f.value(Field::Name).to_string(), f.is_submit_enabled(), f.focus_request(), f.pending_messages());
    assert_eq!(once, twice);
    assert_eq!(once, (String::new(), false, Some(Focus::NameField), 1));
    assert_eq!(f.raw_value(Field::Icon), "");
    assert_eq!(f.validity(Field::Icon), Validity::Unvalidated);
    assert!(matches!(f.icon_preview(), IconPreview::Placeholder));
}

#[test]
fn name_preview_placeholder() {
    let mut f = form();
    f.edit_name(String::new());
    assert_eq!(f.preview_text(), ("Preview".to_string(), Emphasis::Low));
    f.edit_name("Editor".to_string());
    assert_eq!(f.preview_text(), ("Editor".to_string(), Emphasis::Full));
}

#[test]
fn missing_exec_is_reported() {
    let mut f = form();
    f.confirm_exec("/usr/bin/true".to_string(), true);
    f.confirm_exec("/no/such/file".to_string(), false);
    assert!(f.is_marked_invalid(Field::Exec));
    assert_eq!(f.value(Field::Exec), "/usr/bin/true");
    let msgs = f.take_messages();
    assert_eq!(msgs.len(), 1);
    match &msgs[0] {
        ActionMessage::Notify(text, subject) => {
            assert_eq!(text, "The executable path is not valid");
            assert_eq!(*subject, Some(Field::Exec));
        }
        other => panic!("unexpected message {:?}", other),
    }
    assert_eq!(f.pending_messages(), 0);
}

#[test]
fn missing_icon_is_reported() {
    let mut f = form();
    f.confirm_icon("".to_string(), true);
    assert!(f.is_marked_invalid(Field::Icon));
    let msgs = f.take_messages();
    assert_eq!(msgs.len(), 1);
    assert!(matches!(&msgs[0], ActionMessage::Notify(t, Some(Field::Icon)) if t == "The icon path is not valid"));
}

#[test]
fn icon_completes_form() {
    let mut f = form();
    f.edit_name("Editor".to_string());
    f.confirm_exec("/usr/bin/true".to_string(), true);
    assert_eq!(f.focus_request(), Some(Focus::SaveButton));
    assert!(!f.is_submit_enabled());
    f.confirm_icon("/usr/share/icons/x.png".to_string(), true);
    assert!(f.is_submit_enabled());
    assert_eq!(f.focus_request(), Some(Focus::ExecField));
    assert!(matches!(f.icon_preview(), IconPreview::Image(p) if p == "/usr/share/icons/x.png"));
    f.cancel();
    f.icon_picked(None, false);
    f.confirm_icon("/gone".to_string(), false);
    assert!(f.is_submit_enabled());
    f.reset();
    assert!(!f.is_submit_enabled());
}

#[test]
fn save_writes_then_completes() {
    let mut f = filled();
    let req = f.save().expect("gate is open");
    assert_eq!(req.file_name, "my-app.desktop");
    assert_eq!(
        req.contents,
        "[Desktop Entry]\nName=My App\nExec=/usr/bin/true\nIcon=/usr/share/icons/x.png\nType=Application\n"
    );
    assert_eq!(f.pending_messages(), 0);
    f.save_finished(Ok(()));
    let msgs = f.take_messages();
    assert_eq!(msgs.len(), 1);
    assert!(msgs[0].is_completed());
}

#[test]
fn save_failure_is_reported() {
    let mut f = filled();
    assert!(f.save().is_some());
    f.save_finished(Err("permission denied".to_string()));
    assert!(f.is_submit_enabled());
    assert_eq!(f.value(Field::Name), "My App");
    let msgs = f.take_messages();
    assert!(matches!(&msgs[0], ActionMessage::Notify(t, None) if t == "permission denied"));
}

#[test]
fn cancel_navigates_back() {
    let mut f = filled();
    f.cancel();
    assert_eq!(f.value(Field::Exec), "/usr/bin/true");
    let msgs = f.take_messages();
    assert_eq!(msgs.len(), 1);
    assert!(matches!(msgs[0], ActionMessage::NavigateBack(true)));
}

#[test]
fn pickers() {
    let mut f = form();
    f.exec_picked(None, false);
    assert_eq!(f.pending_messages(), 0);
    assert_eq!(f.validity(Field::Exec), Validity::Unvalidated);
    f.exec_picked(Some("/usr/bin/true".to_string()), true);
    assert_eq!(f.value(Field::Exec), "/usr/bin/true");
    assert_eq!(f.validity(Field::Exec), Validity::Valid);
    f.icon_picked(Some("/tmp/dir".to_string()), false);
    assert!(f.is_marked_invalid(Field::Icon));
    assert_eq!(f.pending_messages(), 1);
}
