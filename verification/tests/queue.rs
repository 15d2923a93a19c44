use gmail_tray_notifier::message::GmailNotification;
use gmail_tray_notifier::notifier::{
    alert_origin, notify_dismissed, place_alert_window, AlertAction, NotificationQueue,
    ALERT_MARGIN,
};

fn note(id: &str) -> GmailNotification {
    GmailNotification {
        id: id.to_string(),
        thread_id: format!("t-{}", id),
        subject: format!("subject {}", id),
        snippet: None,
        sender: None,
        recipient: None,
        received_at: None,
        url: format!("https://mail.google.com/mail/u/0/#inbox/{}", id),
        body: None,
    }
}

fn shown(action: &AlertAction) -> Option<String> {
    match action {
        AlertAction::Show(n) => Some(n.id.clone()),
        _ => None,
    }
}

#[test]
fn new_queue_is_idle() {
    let queue = NotificationQueue::new();
    assert!(queue.current().is_none());
    assert_eq!(queue.pending_len(), 0);
    assert!(matches!(queue.replay_current(), AlertAction::Nothing));
}

#[test]
fn queue_is_first_in_first_out() {
    let mut queue = NotificationQueue::new();
    assert_eq!(shown(&queue.enqueue(note("A"))).as_deref(), Some("A"));
    assert!(matches!(queue.enqueue(note("B")), AlertAction::Nothing));
    assert!(matches!(queue.enqueue(note("C")), AlertAction::Nothing));
    assert_eq!(queue.current().map(|n| n.id).as_deref(), Some("A"));
    assert_eq!(queue.pending_len(), 2);

    assert_eq!(shown(&queue.complete_current()).as_deref(), Some("B"));
    assert_eq!(queue.current().map(|n| n.id).as_deref(), Some("B"));
    assert_eq!(queue.pending_len(), 1);

    assert_eq!(shown(&queue.complete_current()).as_deref(), Some("C"));
    assert_eq!(queue.current().map(|n| n.id).as_deref(), Some("C"));
    assert_eq!(queue.pending_len(), 0);

    assert!(matches!(queue.complete_current(), AlertAction::Hide));
    assert!(queue.current().is_none());
    assert_eq!(queue.pending_len(), 0);
}

#[test]
fn completing_an_idle_queue_hides() {
    let mut queue = NotificationQueue::new();
    assert!(matches!(queue.complete_current(), AlertAction::Hide));
    assert!(queue.current().is_none());
}

#[test]
fn replay_shows_the_current_one_and_changes_nothing() {
    let mut queue = NotificationQueue::new();
    queue.enqueue(note("A"));
    queue.enqueue(note("B"));
    let replay = queue.replay_current();
    assert!(replay.is_show());
    assert_eq!(shown(&replay).as_deref(), Some("A"));
    assert_eq!(queue.current().map(|n| n.subject).as_deref(), Some("subject A"));
    assert_eq!(queue.pending_len(), 1);
}

#[test]
fn clear_empties_both_slots() {
    let mut queue = NotificationQueue::new();
    queue.enqueue(note("A"));
    queue.enqueue(note("B"));
    queue.clear();
    assert!(queue.current().is_none());
    assert_eq!(queue.pending_len(), 0);
    assert_eq!(shown(&queue.enqueue(note("C"))).as_deref(), Some("C"));
}

#[test]
fn dismissal_payload() {
    assert!(notify_dismissed(true).handled);
    assert!(!notify_dismissed(false).handled);
}

#[test]
fn alert_window_goes_to_the_bottom_right() {
    assert_eq!(ALERT_MARGIN, 64);
    assert_eq!(place_alert_window(0, 0, 1920, 1080, 420, 200), (1436, 816));
    assert_eq!(place_alert_window(-1920, 100, 1920, 1080, 420, 200), (-484, 916));
    assert_eq!(alert_origin(10, 300, 400), 10);
    assert_eq!(alert_origin(0, 464, 400), 0);
    assert_eq!(alert_origin(0, 465, 400), 1);
}
