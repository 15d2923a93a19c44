use gmail_tray_notifier::message::{
    decode_body, extract_body, find_part_by_mime, header_value, message_url, Header, Message,
    MessageBody, MessagePart, MessagePayload,
};

fn header(name: &str, value: &str) -> Header {
    Header { name: name.to_string(), value: value.to_string() }
}

fn leaf(mime_type: &str, data: Option<&str>) -> MessagePart {
    MessagePart {
        mime_type: mime_type.to_string(),
        body: Some(MessageBody { data: data.map(|d| d.to_string()) }),
        parts: Vec::new(),
    }
}

fn container(mime_type: &str, parts: Vec<MessagePart>) -> MessagePart {
    MessagePart { mime_type: mime_type.to_string(), body: None, parts }
}

fn payload(headers: Vec<Header>, parts: Vec<MessagePart>, body: Option<&str>) -> MessagePayload {
    MessagePayload {
        headers,
        parts,
        body: body.map(|d| MessageBody { data: Some(d.to_string()) }),
    }
}

fn message(id: &str, payload: MessagePayload) -> Message {
    Message {
        id: id.to_string(),
        thread_id: "thread".to_string(),
        snippet: None,
        internal_date: None,
        payload,
    }
}

fn text_of(value: &serde_json::Value, key: &str) -> Option<String> {
    value.get(key).and_then(|v| v.as_str()).map(|s| s.to_string())
}

fn message_from_json(json: &str) -> Message {
    let value: serde_json::Value = serde_json::from_str(json).expect("message parses");
    let payload_value = value.get("payload").expect("payload present");
    let mut headers = Vec::new();
    if let Some(list) = payload_value.get("headers").and_then(|h| h.as_array()) {
        for item in list {
            headers.push(Header {
                name: text_of(item, "name").expect("header name"),
                value: text_of(item, "value").expect("header value"),
            });
        }
    }
    Message {
        id: text_of(&value, "id").expect("id"),
        thread_id: text_of(&value, "threadId").expect("threadId"),
        snippet: text_of(&value, "snippet"),
        internal_date: text_of(&value, "internalDate"),
        payload: MessagePayload { headers, parts: Vec::new(), body: None },
    }
}

#[test]
fn parses_camel_case_message_payload() {
    let json = r#"
        {
            "id": "abc",
            "threadId": "thread-1",
            "snippet": "hello",
            "internalDate": "169",
            "payload": {
                "headers": [
                    { "name": "Subject", "value": "Test subject" },
                    { "name": "From", "value": "Sender <sender@example.com>" },
                    { "name": "Date", "value": "Thu, 24 Oct 2024 15:30:00 +0000" }
                ]
            }
        }
        "#;

    let message = message_from_json(json);
    assert_eq!(message.id, "abc");
    assert_eq!(message.thread_id, "thread-1");
    assert_eq!(message.snippet.as_deref(), Some("hello"));

    let notification = message.into_notification();
    assert_eq!(notification.subject, "Test subject");
    assert_eq!(notification.sender.as_deref(), Some("Sender <sender@example.com>"));
    assert_eq!(notification.thread_id, "thread-1");
    assert!(notification.received_at.is_some(), "date header converted");
}

#[test]
fn headers_give_subject_sender_and_time() {
    let m = message(
        "m1",
        payload(
            vec![
                header("Subject", "Test"),
                header("From", "a@x.com"),
                header("Date", "Thu, 24 Oct 2024 15:30:00 +0000"),
            ],
            Vec::new(),
            None,
        ),
    );
    let n = m.into_notification();
    assert_eq!(n.subject, "Test");
    assert_eq!(n.sender.as_deref(), Some("a@x.com"));
    assert_eq!(n.recipient, None);
    assert_eq!(n.received_at, Some(1729783800));
    assert_eq!(n.body, None);
}

#[test]
fn date_is_converted_to_utc() {
    let m = message(
        "m1",
        payload(vec![header("Date", "Thu, 24 Oct 2024 17:30:00 +0200")], Vec::new(), None),
    );
    assert_eq!(m.into_notification().received_at, Some(1729783800));
}

#[test]
fn unreadable_date_leaves_time_empty() {
    let m = message("m1", payload(vec![header("Date", "yesterday")], Vec::new(), None));
    assert_eq!(m.into_notification().received_at, None);
}

#[test]
fn header_names_match_without_regard_to_case() {
    let headers = vec![header("x-other", "1"), header("SUBJECT", "Loud"), header("subject", "quiet")];
    assert_eq!(header_value(&headers, "Subject").as_deref(), Some("Loud"));
    assert_eq!(header_value(&headers, "To"), None);
    assert_eq!(header_value(&headers, "Subjec"), None);
}

#[test]
fn missing_subject_gets_the_fallback() {
    let m = message("m1", payload(vec![header("To", "b@y.org")], Vec::new(), None));
    let n = m.into_notification();
    assert_eq!(n.subject, "(без темы)");
    assert_eq!(n.recipient.as_deref(), Some("b@y.org"));
}

#[test]
fn url_is_derived_from_the_identifier() {
    assert_eq!(message_url("18c2f"), "https://mail.google.com/mail/u/0/#inbox/18c2f");
    let n = message("18c2f", payload(Vec::new(), Vec::new(), None)).into_notification();
    assert_eq!(n.url, "https://mail.google.com/mail/u/0/#inbox/18c2f");
    assert_eq!(n.id, "18c2f");
    assert_eq!(n.thread_id, "thread");
}

#[test]
fn html_part_wins_over_empty_plain_part() {
    let p = payload(
        Vec::new(),
        vec![container(
            "multipart/alternative",
            vec![leaf("text/plain", Some("")), leaf("text/html", Some("PGgxPkhpPC9oMT4="))],
        )],
        None,
    );
    assert_eq!(extract_body(&p).as_deref(), Some("<h1>Hi</h1>"));
}

#[test]
fn html_wins_wherever_it_stands() {
    let p = payload(
        Vec::new(),
        vec![
            leaf("text/plain", Some("cGxhaW4gdGV4dA==")),
            container(
                "multipart/mixed",
                vec![container("multipart/related", vec![leaf("text/html", Some("PGgxPkhpPC9oMT4="))])],
            ),
        ],
        None,
    );
    assert_eq!(extract_body(&p).as_deref(), Some("<h1>Hi</h1>"));
}

#[test]
fn plain_text_is_used_without_html() {
    let p = payload(Vec::new(), vec![leaf("text/plain", Some("cGxhaW4gdGV4dA=="))], None);
    assert_eq!(extract_body(&p).as_deref(), Some("plain text"));
}

#[test]
fn html_that_does_not_decode_gives_way_to_plain_text() {
    let p = payload(
        Vec::new(),
        vec![leaf("text/html", Some("!!!")), leaf("text/plain", Some("cGxhaW4gdGV4dA=="))],
        None,
    );
    assert_eq!(extract_body(&p).as_deref(), Some("plain text"));
}

#[test]
fn payload_body_is_the_last_resort() {
    let p = payload(Vec::new(), vec![leaf("image/png", Some("AAAA"))], Some("cGxhaW4gdGV4dA=="));
    assert_eq!(extract_body(&p).as_deref(), Some("plain text"));
    let none = payload(Vec::new(), Vec::new(), None);
    assert_eq!(extract_body(&none), None);
}

#[test]
fn search_takes_the_first_leaf_with_data_in_document_order() {
    let p = payload(
        Vec::new(),
        vec![
            container("multipart/alternative", vec![leaf("text/html", None), leaf("text/html", Some(""))]),
            MessagePart {
                mime_type: "text/plain".to_string(),
                body: None,
                parts: vec![leaf("text/html", Some("Zmlyc3Q="))],
            },
            leaf("text/html", Some("c2Vjb25k")),
        ],
        None,
    );
    let found = find_part_by_mime(&p, "text/html").expect("a part is found");
    assert_eq!(found.data.as_deref(), Some("Zmlyc3Q="));
    assert!(find_part_by_mime(&p, "text/calendar").is_none());
}

#[test]
fn a_container_is_never_itself_an_answer() {
    let p = payload(
        Vec::new(),
        vec![MessagePart {
            mime_type: "multipart/mixed".to_string(),
            body: Some(MessageBody { data: Some("AAAA".to_string()) }),
            parts: Vec::new(),
        }],
        None,
    );
    assert!(find_part_by_mime(&p, "multipart/mixed").is_none());
}

#[test]
fn body_data_uses_the_url_safe_alphabet() {
    let body = MessageBody { data: Some("YT5iP2PDv35-fg==".to_string()) };
    assert_eq!(decode_body(&body).as_deref(), Some("a>b?cÿ~~~"));
    let standard = MessageBody { data: Some("YT5iP2PDv35+fg==".to_string()) };
    assert_eq!(decode_body(&standard).as_deref(), Some("a>b?cÿ~~~"));
}

#[test]
fn body_that_is_no_text_is_absent() {
    assert_eq!(decode_body(&MessageBody { data: Some("//4=".to_string()) }), None);
    assert_eq!(decode_body(&MessageBody { data: Some("__4=".to_string()) }), None);
    assert_eq!(decode_body(&MessageBody { data: Some("not base64".to_string()) }), None);
    assert_eq!(decode_body(&MessageBody { data: None }), None);
    assert_eq!(decode_body(&MessageBody { data: Some(String::new()) }).as_deref(), Some(""));
}
