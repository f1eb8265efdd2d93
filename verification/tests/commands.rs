use desktop_shell::dialog::dialog_open_file;
use desktop_shell::dialog::dialog_save_file;
use desktop_shell::fs::read_file_bytes;
use desktop_shell::notify::notify_complete;
use desktop_shell::notify::notify_os;

#[test]
fn open_dialog_without_filters_is_empty() {
    assert!(dialog_open_file(None).is_none());
}

#[test]
fn open_dialog_with_filters_is_empty() {
    let filters = Some(vec!["*.txt".to_string(), "*.md".to_string()]);
    assert!(dialog_open_file(filters).is_none());
}

#[test]
fn save_dialog_without_default_name_is_empty() {
    assert!(dialog_save_file(None).is_none());
}

#[test]
fn save_dialog_with_default_name_is_empty() {
    assert!(dialog_save_file(Some("report.pdf".to_string())).is_none());
}

#[test]
fn successful_read_returns_bytes_byte_for_byte() {
    let on_disk: Vec<u8> = vec![104, 101, 108, 108, 111];
    let result = read_file_bytes(Ok(on_disk.clone()));
    let record = result.expect("a successful read must produce a bytes record");
    assert_eq!(record.bytes, on_disk);
    assert_eq!(record.bytes.len(), 5);
}

#[test]
fn successful_read_of_empty_file_returns_no_bytes() {
    let record = read_file_bytes(Ok(Vec::new())).expect("an empty read still succeeds");
    assert!(record.bytes.is_empty());
}

#[test]
fn failed_read_returns_the_description_and_no_bytes() {
    let message = "No such file or directory (os error 2)".to_string();
    let result = read_file_bytes(Err(message.clone()));
    match result {
        Ok(_) => panic!("a failed read must not produce bytes"),
        Err(description) => {
            assert_eq!(description, message);
            assert!(!description.is_empty());
        }
    }
}

#[test]
fn notification_request_ignores_the_icon() {
    let with_none = notify_os("Build".to_string(), "Finished".to_string(), None);
    let with_empty = notify_os("Build".to_string(), "Finished".to_string(), Some(String::new()));
    let with_path = notify_os(
        "Build".to_string(),
        "Finished".to_string(),
        Some("status.png".to_string()),
    );
    assert_eq!(with_none, with_empty);
    assert_eq!(with_none, with_path);
    assert_eq!(with_none.title, "Build");
    assert_eq!(with_none.body, "Finished");
}

#[test]
fn notification_success_is_returned_as_success() {
    assert_eq!(notify_complete(Ok(())), Ok(()));
}

#[test]
fn notification_rejection_is_returned_as_a_description() {
    let outcome = notify_complete(Err("notification subsystem unavailable".to_string()));
    match outcome {
        Ok(()) => panic!("a rejected display must not report success"),
        Err(description) => {
            assert_eq!(description, "notification subsystem unavailable");
            assert!(!description.is_empty());
        }
    }
}
