use admin_key::clipboard::{clipboard_text, ClipboardData};
use admin_key::notification::NotificationWriter;

#[test]
fn success_and_error_bodies() {
    let writer = NotificationWriter::new("Admin Key".to_string());
    assert_eq!(writer.name(), "Admin Key");
    let n = writer.compose(Ok("copied".to_string()));
    assert_eq!(n.summary, "Admin Key");
    assert_eq!(n.body, "Success: \n copied");
    let n = writer.compose(Err("The string is empty".to_string()));
    assert_eq!(n.body, "Error: \n The string is empty");
}

#[test]
fn delivery_failure_message() {
    assert_eq!(NotificationWriter::delivery_failure("no bus"), "Error writing Notification no bus");
}

#[test]
fn clipboard_text_only() {
    assert_eq!(clipboard_text(Some(ClipboardData::Text("abc".to_string()))), Ok("abc".to_string()));
    assert_eq!(clipboard_text(Some(ClipboardData::Other)), Err("Invalid data in clipboard".to_string()));
    assert_eq!(clipboard_text(None), Err("Invalid data in clipboard".to_string()));
}
