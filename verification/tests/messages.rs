use camelmailer_rs::emails::{
    decoded, BatchEntry, BatchError, ListMessagesParams, RawMessage, SendEmailRequest, SendResult,
    SendTemplateRequest, SendToStreamRequest,
};
use camelmailer_rs::{Address, Attachment, CamelMailer, Error, Headers, Json, Method, PreparedRequest};
use serde_json::Value;

fn value(j: &Json) -> Value {
    match j {
        Json::Null => Value::Null,
        Json::Bool(b) => Value::Bool(*b),
        Json::Str(s) => Value::String(s.clone()),
        Json::Array(items) => Value::Array(items.iter().map(value).collect()),
        Json::Object(members) => {
            let mut map = serde_json::Map::new();
            for (k, v) in members {
                map.insert(k.clone(), value(v));
            }
            Value::Object(map)
        }
        Json::Raw(v) => v.clone(),
    }
}

fn parse(text: &str) -> Value {
    serde_json::from_str(text).unwrap()
}

fn keys(j: &Json) -> Vec<String> {
    match j {
        Json::Object(members) => members.iter().map(|(k, _)| k.clone()).collect(),
        _ => panic!("not an object"),
    }
}

fn client() -> CamelMailer {
    CamelMailer::builder("cm_test").base_url("https://mail.example.com/").build().unwrap()
}

fn header_pairs(r: &PreparedRequest) -> Vec<(&str, &str)> {
    r.headers.iter().map(|(k, v)| (k.as_str(), v.as_str())).collect()
}

fn receipt() -> SendEmailRequest {
    SendEmailRequest::builder()
        .from("billing@acme.com")
        .to("ada@example.com")
        .subject("Your receipt")
        .text_body("Thanks.")
        .build()
}

#[test]
fn send_request_serializes_only_set_fields() {
    let request = SendEmailRequest::builder()
        .from("billing@acme.com")
        .to("ada@example.com")
        .subject("Your receipt")
        .text_body("Thanks!")
        .build();
    assert_eq!(
        value(&request.to_json()),
        parse(
            r#"{"from": "billing@acme.com", "to": ["ada@example.com"],
                "subject": "Your receipt", "text_body": "Thanks!"}"#
        )
    );
}

#[test]
fn template_request_flattens_message_fields() {
    let request = SendTemplateRequest::builder("welcome")
        .from("hello@acme.com")
        .to("ada@example.com")
        .model(parse(r#"{ "name": "Ada" }"#))
        .build();
    assert_eq!(
        value(&request.to_json()),
        parse(
            r#"{"template": "welcome", "template_model": { "name": "Ada" },
                "from": "hello@acme.com", "to": ["ada@example.com"]}"#
        )
    );
}

#[test]
fn batch_entries_fail_one_by_one() {
    let entries = vec![
        BatchEntry::Success { data: SendResult { message_id: Some(1), recipients: vec![] } },
        BatchEntry::Error {
            error: BatchError { code: "ValidationError".to_string(), message: "nope".to_string() },
        },
    ];
    assert!(entries[0].is_success());
    assert!(!entries[1].is_success());
    let error = entries[1].as_result().unwrap_err();
    assert_eq!(error.code(), Some("ValidationError"));
}

#[test]
fn batch_entry_success_gives_the_result() {
    let entry = BatchEntry::Success { data: SendResult { message_id: Some(7), recipients: vec![] } };
    let sent = entry.as_result().unwrap();
    assert_eq!(sent.message_id, Some(7));
    let entry = BatchEntry::Error {
        error: BatchError { code: "Forbidden".to_string(), message: "no".to_string() },
    };
    match entry.as_result() {
        Err(Error::Api { code, message, status }) => {
            assert_eq!((code.as_str(), message.as_str(), status), ("Forbidden", "no", 0));
        }
        other => panic!("unexpected {other:?}"),
    }
}

#[test]
fn raw_message_decodes() {
    let raw = RawMessage { raw_message: "aGVsbG8=".into() };
    assert_eq!(raw.decode().unwrap(), b"hello");
    let bad = RawMessage { raw_message: "!!".into() };
    assert!(matches!(bad.decode(), Err(Error::Decode(_))));
}

#[test]
fn attachment_from_bytes_encodes_base64() {
    let attachment = Attachment::from_bytes("hi.txt", "text/plain", b"hello");
    assert_eq!(attachment.data_base64, "aGVsbG8=");
}

#[test]
fn base64_round_trips_every_length() {
    let cases: [&[u8]; 6] = [b"", b"a", b"ab", b"abc", b"abcd", b"\x00\xff\x10\x80\x7f"];
    for bytes in cases {
        let attachment = Attachment::from_bytes("f", "application/octet-stream", bytes);
        let raw = RawMessage { raw_message: attachment.data_base64.clone() };
        assert_eq!(raw.decode().unwrap(), bytes);
    }
    assert_eq!(Attachment::from_bytes("f", "t", b"ab").data_base64, "YWI=");
    assert_eq!(Attachment::from_bytes("f", "t", b"a").data_base64, "YQ==");
    assert_eq!(Attachment::from_bytes("f", "t", b"\xfb\xff").data_base64, "+/8=");
}

#[test]
fn non_canonical_base64_is_refused() {
    // Trailing bits set, missing padding: not the encoding of any bytes.
    for text in ["YR==", "YQ", "Y===", "aGVsbG8"] {
        let raw = RawMessage { raw_message: text.to_string() };
        assert!(matches!(raw.decode(), Err(Error::Decode(_))), "{text}");
    }
}

#[test]
fn named_addresses_and_attachments_in_the_body() {
    let request = SendEmailRequest::builder()
        .from(("billing@acme.com", "Acme Billing"))
        .to(Address::with_name("ada@example.com", "Ada"))
        .cc("grace@example.com")
        .bcc("audit@acme.com")
        .reply_to("support@acme.com")
        .subject("Invoice #42")
        .html_body("<p>See attachment.</p>")
        .attachment(Attachment::from_bytes("invoice.pdf", "application/pdf", b"%PDF"))
        .tag("invoice")
        .metadata(parse(r#"{ "order_id": 42 }"#))
        .stream("billing")
        .build();
    let json = request.to_json();
    assert_eq!(
        keys(&json),
        [
            "from", "to", "cc", "bcc", "reply_to", "subject", "html_body", "attachments", "tag",
            "metadata", "stream"
        ]
    );
    assert_eq!(
        value(&json),
        parse(
            r#"{"from": {"email": "billing@acme.com", "name": "Acme Billing"},
                "to": [{"email": "ada@example.com", "name": "Ada"}],
                "cc": ["grace@example.com"], "bcc": ["audit@acme.com"],
                "reply_to": ["support@acme.com"], "subject": "Invoice #42",
                "html_body": "<p>See attachment.</p>",
                "attachments": [{"name": "invoice.pdf", "content_type": "application/pdf",
                                 "data_base64": "JVBERg=="}],
                "tag": "invoice", "metadata": {"order_id": 42}, "stream": "billing"}"#
        )
    );
}

#[test]
fn headers_are_sent_in_name_order_and_set_once() {
    let request = SendEmailRequest::builder()
        .to("ada@example.com")
        .header("X-Zeta", "1")
        .header("X-Alpha", "2")
        .header("X-Zeta", "3")
        .build();
    assert_eq!(request.headers.len(), 2);
    assert_eq!(request.headers.get("X-Zeta"), Some("3"));
    assert_eq!(request.headers.get("X-Beta"), None);
    let json = request.to_json();
    match &json {
        Json::Object(members) => {
            let (name, headers) = &members[1];
            assert_eq!(name, "headers");
            assert_eq!(keys(headers), ["X-Alpha", "X-Zeta"]);
        }
        _ => panic!("not an object"),
    }
    assert_eq!(
        value(&json),
        parse(r#"{"to": ["ada@example.com"], "headers": {"X-Alpha": "2", "X-Zeta": "3"}}"#)
    );
}

#[test]
fn headers_order_by_bytes() {
    let mut headers = Headers::new();
    assert!(headers.is_empty());
    headers.insert("b", "1");
    headers.insert("B", "2");
    headers.insert("a", "3");
    headers.insert("ab", "4");
    headers.insert("a", "5");
    assert_eq!(keys(&headers.to_json()), ["B", "a", "ab", "b"]);
    assert_eq!(headers.get("a"), Some("5"));
    assert_eq!(headers.len(), 4);
    let copy = headers.clone();
    assert_eq!(copy, headers);
}

#[test]
fn empty_request_sends_an_empty_object() {
    let request = SendEmailRequest::builder().build();
    assert_eq!(keys(&request.to_json()), Vec::<String>::new());
}

#[test]
fn the_key_is_a_header_and_not_in_the_body() {
    let client = client();
    let plain = client.emails().send_request(&receipt());
    let keyed = client.emails().idempotent("order-4711").send_request(&receipt());
    assert_eq!(keyed.url, "https://mail.example.com/api/v2/server/messages");
    assert_eq!(keyed.method, Method::Post);
    assert_eq!(
        header_pairs(&keyed),
        [("X-Server-API-Key", "cm_test"), ("Idempotency-Key", "order-4711")]
    );
    assert_eq!(header_pairs(&plain), [("X-Server-API-Key", "cm_test")]);
    assert_eq!(value(keyed.body.as_ref().unwrap()), value(plain.body.as_ref().unwrap()));
    assert_eq!(
        value(keyed.body.as_ref().unwrap()),
        parse(
            r#"{"from": "billing@acme.com", "to": ["ada@example.com"],
                "subject": "Your receipt", "text_body": "Thanks."}"#
        )
    );
}

#[test]
fn every_send_request_carries_the_key() {
    let client = client();
    let emails = client.emails().idempotent("k");
    let template = SendTemplateRequest::builder("welcome").from("billing@acme.com").to("ada@example.com").build();
    let requests = [
        emails.send_request(&receipt()),
        emails.send_batch_request(&vec![receipt()]),
        emails.send_with_template_request(&template),
        emails.send_with_template_batch_request(&vec![template.clone()]),
    ];
    let urls: Vec<&str> = requests.iter().map(|r| r.url.as_str()).collect();
    assert_eq!(
        urls,
        [
            "https://mail.example.com/api/v2/server/messages",
            "https://mail.example.com/api/v2/server/messages/batch",
            "https://mail.example.com/api/v2/server/messages/with_template",
            "https://mail.example.com/api/v2/server/messages/with_template/batch",
        ]
    );
    for r in &requests {
        assert_eq!(r.method, Method::Post);
        assert_eq!(header_pairs(r)[1], ("Idempotency-Key", "k"));
    }
    assert_eq!(
        value(requests[1].body.as_ref().unwrap()),
        parse(
            r#"[{"from": "billing@acme.com", "to": ["ada@example.com"],
                 "subject": "Your receipt", "text_body": "Thanks."}]"#
        )
    );
}

#[test]
fn a_broadcast_carries_no_key() {
    let client = client();
    let request = SendToStreamRequest::new("news@acme.com")
        .subject("July")
        .template("newsletter")
        .template_model(parse(r#"{"month": 7}"#));
    let r = client.emails().idempotent("k").send_to_stream_request("product-news", &request);
    assert_eq!(r.url, "https://mail.example.com/api/v2/server/streams/product-news/send");
    assert_eq!(header_pairs(&r), [("X-Server-API-Key", "cm_test")]);
    let json = r.body.unwrap();
    assert_eq!(keys(&json), ["from", "subject", "template", "template_model"]);
    assert_eq!(
        value(&json),
        parse(
            r#"{"from": "news@acme.com", "subject": "July", "template": "newsletter",
                "template_model": {"month": 7}}"#
        )
    );
}

#[test]
fn list_request_carries_every_filter() {
    let client = client();
    let params = ListMessagesParams::new()
        .page(2)
        .per_page(50)
        .scope("outgoing")
        .status("Sent")
        .tag("receipt")
        .query("ada")
        .stream("billing");
    let r = client.emails().list_request(&params);
    assert_eq!(r.method, Method::Get);
    assert_eq!(r.url, "https://mail.example.com/api/v2/server/messages");
    let query: Vec<(&str, &str)> = r.query.iter().map(|(k, v)| (k.as_str(), v.as_str())).collect();
    assert_eq!(
        query,
        [
            ("page", "2"),
            ("per_page", "50"),
            ("scope", "outgoing"),
            ("status", "Sent"),
            ("tag", "receipt"),
            ("query", "ada"),
            ("stream", "billing"),
        ]
    );
    assert!(r.body.is_none());
}

#[test]
fn list_request_without_filters_has_no_query() {
    let r = client().emails().list_request(&ListMessagesParams::new());
    assert!(r.query.is_empty());
}

#[test]
fn message_paths_carry_the_id() {
    let client = client();
    let emails = client.emails();
    assert_eq!(emails.get_request(42).url, "https://mail.example.com/api/v2/server/messages/42");
    assert_eq!(
        emails.deliveries_request(7).url,
        "https://mail.example.com/api/v2/server/messages/7/deliveries"
    );
    assert_eq!(emails.opens_request(7).url, "https://mail.example.com/api/v2/server/messages/7/opens");
    assert_eq!(emails.clicks_request(7).url, "https://mail.example.com/api/v2/server/messages/7/clicks");
    assert_eq!(emails.raw_request(-3).url, "https://mail.example.com/api/v2/server/messages/-3/raw");
    assert_eq!(emails.get_request(0).method, Method::Get);
}

#[test]
fn an_owned_string_is_a_bare_address() {
    let request = SendEmailRequest::builder().to(String::from("ada@example.com")).build();
    assert_eq!(request.to, vec![Address::Email("ada@example.com".to_string())]);
}

#[test]
fn address_email_gives_the_bare_address() {
    assert_eq!(Address::Email("a@b.com".to_string()).email(), "a@b.com");
    let named = Address::with_name("a@b.com", "Ada");
    assert_eq!(named, Address::WithName { email: "a@b.com".to_string(), name: "Ada".to_string() });
    assert_eq!(named.email(), "a@b.com");
}

#[test]
fn decode_outcomes_map_to_bytes_or_decode_errors() {
    assert_eq!(decoded(Ok(b"hi".to_vec())).unwrap(), b"hi");
    match decoded(Err("Invalid padding".to_string())) {
        Err(Error::Decode(message)) => assert_eq!(message, "Invalid padding"),
        other => panic!("unexpected {other:?}"),
    }
    let bad = RawMessage { raw_message: "YQ".into() };
    match bad.decode() {
        Err(Error::Decode(message)) => assert!(!message.is_empty()),
        other => panic!("unexpected {other:?}"),
    }
}
