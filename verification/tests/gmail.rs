use gmail_tray_notifier::error::OAuthError;
use gmail_tray_notifier::gmail::{
    message_api_url, sort_by_time, FetchCycle, GmailClient, HttpReply, LIST_PAGE_SIZE,
};
use gmail_tray_notifier::message::{GmailNotification, Header, Message, MessagePayload};

fn reply(status: u16, status_text: &str, body: &str) -> HttpReply {
    HttpReply { status, status_text: status_text.to_string(), body: body.to_string() }
}

fn ok() -> HttpReply {
    reply(200, "200 OK", "{}")
}

fn message(id: &str, date: Option<&str>) -> Message {
    let mut headers = vec![Header { name: "Subject".to_string(), value: format!("mail {}", id) }];
    if let Some(date) = date {
        headers.push(Header { name: "Date".to_string(), value: date.to_string() });
    }
    Message {
        id: id.to_string(),
        thread_id: format!("t-{}", id),
        snippet: None,
        internal_date: None,
        payload: MessagePayload { headers, parts: Vec::new(), body: None },
    }
}

fn note(id: &str, received_at: Option<i64>) -> GmailNotification {
    GmailNotification {
        id: id.to_string(),
        thread_id: String::new(),
        subject: String::new(),
        snippet: None,
        sender: None,
        recipient: None,
        received_at,
        url: String::new(),
        body: None,
    }
}

fn ids(list: &[&str]) -> Option<Vec<String>> {
    Some(list.iter().map(|s| s.to_string()).collect())
}

fn order(list: &[GmailNotification]) -> Vec<String> {
    list.iter().map(|n| n.id.clone()).collect()
}

fn begin(client: &GmailClient, listed: &[&str]) -> FetchCycle {
    client.listed("token".to_string(), &ok(), ids(listed)).expect("the cycle begins")
}

#[test]
fn listing_request() {
    let client = GmailClient::new();
    let request = client
        .fetch_unread(Ok("bearer-1".to_string()), "is:unread category:primary")
        .expect("a request");
    assert_eq!(request.url, "https://gmail.googleapis.com/gmail/v1/users/me/messages");
    assert_eq!(request.bearer, "bearer-1");
    assert_eq!(request.q, "is:unread category:primary");
    assert_eq!(request.max_results, 10);
    assert_eq!(LIST_PAGE_SIZE, 10);
    assert_eq!(request.label_ids, "UNREAD");
}

#[test]
fn fetch_without_token_fails_as_the_session_failed() {
    let client = GmailClient::new();
    assert!(matches!(
        client.fetch_unread(Err(OAuthError::NotAuthorised), "q"),
        Err(OAuthError::NotAuthorised)
    ));
    assert!(matches!(
        client.fetch_unread(Err(OAuthError::Misconfigured("no id".to_string())), "q"),
        Err(OAuthError::Misconfigured(text)) if text == "no id"
    ));
}

#[test]
fn listing_answers() {
    let client = GmailClient::new();
    assert!(matches!(
        client.listed("t".to_string(), &reply(401, "401 Unauthorized", ""), ids(&["a"])),
        Err(OAuthError::NotAuthorised)
    ));
    assert!(matches!(
        client.listed("t".to_string(), &reply(403, "403 Forbidden", "quota"), ids(&["a"])),
        Err(OAuthError::Other(text)) if text == "gmail list returned status 403 Forbidden body=quota"
    ));
    assert!(matches!(
        client.listed("t".to_string(), &reply(500, "500 Internal Server Error", "oops"), None),
        Err(OAuthError::Other(text)) if text == "invalid gmail list response"
    ));
    let cycle = client.listed("t".to_string(), &ok(), ids(&[])).expect("an empty cycle");
    assert!(cycle.finish().is_empty());
}

#[test]
fn known_messages_are_not_fetched_again() {
    let mut client = GmailClient::new();
    client.mark_seen("b", 1);
    let mut cycle = begin(&client, &["a", "b", "c"]);
    let first = cycle.next_request(&mut client).expect("a is new");
    assert_eq!(first.id, "a");
    assert_eq!(first.url, "https://gmail.googleapis.com/gmail/v1/users/me/messages/a");
    assert_eq!(first.bearer, "token");
    assert_eq!(first.format, "full");
    let second = cycle.next_request(&mut client).expect("c is new");
    assert_eq!(second.id, "c");
    assert!(cycle.next_request(&mut client).is_none());
    assert!(cycle.next_request(&mut client).is_none());
}

#[test]
fn fetched_messages_are_remembered_and_sorted() {
    let mut client = GmailClient::new();
    let mut cycle = begin(&client, &["late", "early", "undated"]);
    assert!(cycle.next_request(&mut client).is_some());
    cycle
        .record(&mut client, 200, Some(message("late", Some("Thu, 24 Oct 2024 15:30:00 +0000"))), 7)
        .expect("recorded");
    assert!(cycle.next_request(&mut client).is_some());
    cycle
        .record(&mut client, 200, Some(message("early", Some("Thu, 24 Oct 2024 15:29:59 +0000"))), 7)
        .expect("recorded");
    assert!(cycle.next_request(&mut client).is_some());
    cycle.record(&mut client, 200, Some(message("undated", None)), 7).expect("recorded");
    assert!(cycle.next_request(&mut client).is_none());
    let notifications = cycle.finish();
    assert_eq!(order(&notifications), vec!["undated", "early", "late"]);
    assert_eq!(notifications[1].subject, "mail early");
    assert!(client.is_known("late"));
    assert!(client.is_known("early"));
    assert!(client.is_known("undated"));

    let mut again = begin(&client, &["late", "early", "undated"]);
    assert!(again.next_request(&mut client).is_none());
    assert!(again.finish().is_empty());
}

#[test]
fn refused_session_ends_the_cycle() {
    let mut client = GmailClient::new();
    let mut cycle = begin(&client, &["a", "b"]);
    assert!(cycle.next_request(&mut client).is_some());
    assert!(matches!(
        cycle.record(&mut client, 401, None, 1),
        Err(OAuthError::NotAuthorised)
    ));
    assert!(!client.is_known("a"));
}

#[test]
fn failed_messages_are_passed_over() {
    let mut client = GmailClient::new();
    let mut cycle = begin(&client, &["gone", "broken", "fine"]);
    assert!(cycle.next_request(&mut client).is_some());
    assert!(cycle.record(&mut client, 404, Some(message("gone", None)), 1).is_ok());
    assert!(cycle.next_request(&mut client).is_some());
    assert!(cycle.record(&mut client, 200, None, 1).is_ok());
    assert!(cycle.next_request(&mut client).is_some());
    assert!(cycle.record(&mut client, 204, Some(message("fine", None)), 1).is_ok());
    assert_eq!(order(&cycle.finish()), vec!["fine"]);
    assert!(!client.is_known("gone"));
    assert!(!client.is_known("broken"));
    assert!(client.is_known("fine"));
}

#[test]
fn order_of_delivery_is_stable() {
    let sorted = sort_by_time(vec![
        note("c", Some(30)),
        note("a1", Some(10)),
        note("n1", None),
        note("b", Some(20)),
        note("a2", Some(10)),
        note("n2", None),
        note("neg", Some(-5)),
    ]);
    assert_eq!(order(&sorted), vec!["n1", "n2", "neg", "a1", "a2", "b", "c"]);
    assert!(sort_by_time(Vec::new()).is_empty());
}

#[test]
fn mark_read_request_and_answers() {
    let client = GmailClient::new();
    let request = client.mark_read_request("bearer-2".to_string(), "m42");
    assert_eq!(request.url, "https://gmail.googleapis.com/gmail/v1/users/me/messages/m42/modify");
    assert_eq!(request.bearer, "bearer-2");
    assert_eq!(request.body, "{\"removeLabelIds\":[\"UNREAD\"]}");
    let parsed: serde_json::Value = serde_json::from_str(&request.body).expect("the body is JSON");
    assert_eq!(parsed["removeLabelIds"][0], "UNREAD");
    assert!(client.mark_read(&ok()).is_ok());
    assert!(matches!(
        client.mark_read(&reply(401, "401 Unauthorized", "")),
        Err(OAuthError::NotAuthorised)
    ));
    assert!(matches!(
        client.mark_read(&reply(500, "500 Internal Server Error", "boom")),
        Err(OAuthError::Other(text))
            if text == "gmail modify returned status 500 Internal Server Error body=boom"
    ));
}

#[test]
fn forget_and_clear_cache() {
    let mut client = GmailClient::new();
    client.mark_seen("a", 1);
    client.mark_seen("b", 2);
    client.forget("a");
    assert!(!client.is_known("a"));
    assert!(client.is_known("b"));
    client.clear_cache();
    assert!(!client.is_known("b"));
    assert_eq!(message_api_url("x/y"), "https://gmail.googleapis.com/gmail/v1/users/me/messages/x/y");
}

#[test]
fn client_remembers_at_most_two_hundred() {
    let mut client = GmailClient::new();
    for i in 0..201u64 {
        client.mark_seen(&format!("m{}", i), i);
    }
    assert!(!client.is_known("m0"));
    assert!(client.is_known("m1"));
    assert!(client.is_known("m200"));
}
