use indexer::google::gmail::{
    base64_url_no_pad, clean_and_strip_body, clean_unicode, decode_base64,
    decode_quoted_printable, extract_body, extract_from, extract_subject, extract_to,
    html_entity_decode, strip_quoted_replies, strip_signature, thread_url, unread_messages_url,
    unread_messages_url_at, Message, MessageHeader, MessagePart, MessagePartBody,
    MessagePayload,
};

fn parse_header(header_str: &str) -> MessageHeader {
    let parts: Vec<&str> = header_str.splitn(2, ": ").collect();
    MessageHeader {
        name: parts[0].to_string(),
        value: parts.get(1).unwrap_or(&"").to_string(),
    }
}

fn create_message_with_headers(subject: &str, from_header: &str, to_header: &str) -> Message {
    let headers = vec![
        MessageHeader { name: "Subject".to_string(), value: subject.to_string() },
        parse_header(from_header),
        parse_header(to_header),
    ];
    let payload = MessagePayload {
        headers: Some(headers),
        mimetype: "text/plain".to_string(),
        body: None,
        parts: None,
    };
    Message {
        id: "test".to_string(),
        thread_id: "thread".to_string(),
        snippet: None,
        payload: Some(payload),
        label_ids: None,
        internal_date: "0".to_string(),
    }
}

fn message_with_payload(payload: Option<MessagePayload>, snippet: Option<&str>) -> Message {
    Message {
        id: "test".to_string(),
        thread_id: "thread".to_string(),
        snippet: snippet.map(|s| s.to_string()),
        payload,
        label_ids: None,
        internal_date: "0".to_string(),
    }
}

fn payload_with_header(name: &str, value: &str) -> MessagePayload {
    MessagePayload {
        headers: Some(vec![MessageHeader { name: name.to_string(), value: value.to_string() }]),
        mimetype: "text/plain".to_string(),
        body: None,
        parts: None,
    }
}

#[test]
fn test_decode_quoted_printable() {
    // Basic quoted-printable
    assert_eq!(decode_quoted_printable("Hello=20World"), "Hello World");
    assert_eq!(decode_quoted_printable("line1=\nline2"), "line1line2");
    assert_eq!(decode_quoted_printable("No=encoding"), "No=encoding");

    // Common unicode characters
    assert_eq!(decode_quoted_printable("Test=E2=80=99"), "Test\u{2019}");
    assert_eq!(decode_quoted_printable("Don=E2=80=99t"), "Don\u{2019}t");
    assert_eq!(
        decode_quoted_printable("smart=E2=80=9Cquotes=E2=80=9D"),
        "smart\u{201C}quotes\u{201D}"
    );
    assert_eq!(decode_quoted_printable("em=E2=80=94dash"), "em\u{2014}dash");
}

#[test]
fn test_strip_signature() {
    // Standard signature delimiter
    let input = "Hello world\n--\nJohn Doe\njohn@example.com";
    assert_eq!(strip_signature(input), "Hello world");

    // Regards signature
    let input = "Thanks for the help!\n\nBest regards,\nJohn";
    assert_eq!(strip_signature(input), "Thanks for the help!");

    // Mobile signature
    let input = "Check this out\n\nSent from my iPhone";
    assert_eq!(strip_signature(input), "Check this out");

    // Unsubscribe footer
    let input = "Important message\n\nYou are receiving this because you subscribed.";
    assert_eq!(strip_signature(input), "Important message");

    // No signature
    let input = "Just a regular email\nWith multiple lines\nNo signature here";
    assert_eq!(
        strip_signature(input),
        "Just a regular email\nWith multiple lines\nNo signature here"
    );

    // Multiple dashes
    let input = "Content\n---\nSignature line";
    assert_eq!(strip_signature(input), "Content");

    // Asterisks
    let input = "Content\n***\nSignature";
    assert_eq!(strip_signature(input), "Content");
}

#[test]
fn test_strip_quoted_replies() {
    // Simple quoted reply
    let input = "Hi Foo, I hope you had a great holiday weekend.\r\n\r\nOn Tue, Jul 1, 2025 at 1:43 PM Foo Bar <foo@example.com> wrote:\r\n\r\n> Hi Bar - it was great connecting with you";
    assert_eq!(
        strip_quoted_replies(input),
        "Hi Foo, I hope you had a great holiday weekend."
    );

    // Nested quoted replies
    let input = "New message here\r\n\r\nOn Mon, Jun 23 at 5:21 PM Bar <bar@example.com> wrote:\r\n\r\n> Hi Foo, thanks for getting back to me.\r\n>\r\n>> On Fri, Jun 20 at 1:20 PM Foo wrote:\r\n>\r\n>>>> Hi Bar - thanks for your patience";
    assert_eq!(strip_quoted_replies(input), "New message here");

    // Lines starting with >
    let input = "Main content\n> Quoted line 1\n>> Double quoted\n> Quoted line 2";
    assert_eq!(strip_quoted_replies(input), "Main content");

    // No quoted replies
    let input = "Just a regular email\nWith no quotes";
    assert_eq!(
        strip_quoted_replies(input),
        "Just a regular email\nWith no quotes"
    );

    // Unix line endings
    let input = "Hello world\n\nOn Tue, Jul 1, 2025 at 1:43 PM Foo wrote:\n\n> Quoted content";
    assert_eq!(strip_quoted_replies(input), "Hello world");
}

#[test]
fn test_base64_url_no_pad() {
    // Basic encoding - URL_SAFE includes padding
    assert_eq!(base64_url_no_pad("Hello"), "SGVsbG8=");
    assert_eq!(base64_url_no_pad("World"), "V29ybGQ=");

    // Empty string
    assert_eq!(base64_url_no_pad(""), "");

    // Special characters (URL-safe)
    assert_eq!(base64_url_no_pad("test+value/with=special"), "dGVzdCt2YWx1ZS93aXRoPXNwZWNpYWw=");

    // Binary-like data
    assert_eq!(base64_url_no_pad("\x00\x01\x02"), "AAEC");
}

#[test]
fn test_clean_and_strip_body() {
    // Basic plain text with signature
    let input = "Hello world\n\nBest regards,\nJohn".to_string();
    assert_eq!(clean_and_strip_body(input), "Hello world");

    // Quoted-printable with signature
    let input = "Don=E2=80=99t stop\n\nThanks,\nTeam".to_string();
    assert_eq!(clean_and_strip_body(input), "Don't stop");

    // HTML entities with signature
    let input = "Test &amp; more\n\nRegards,\nBob".to_string();
    assert_eq!(clean_and_strip_body(input), "Test & more");

    // With quoted reply
    let input = "Main content\n\nOn Tue, Jul 1 at 1:43 PM wrote:\n> quoted".to_string();
    assert_eq!(clean_and_strip_body(input), "Main content");

    // No signature or quotes
    let input = "Just a regular message\nwith multiple lines".to_string();
    assert_eq!(clean_and_strip_body(input), "Just a regular message\nwith multiple lines");
}

#[test]
fn test_extract_subject() {
    // Normal subject
    let message = create_message_with_headers("Test Subject", "From: <from@example.com>", "To: <to@example.com>");
    assert_eq!(extract_subject(&message), "Test Subject");

    // Subject with unicode
    let message = create_message_with_headers("Don=E2=80=99t fear", "From: <from@example.com>", "To: <to@example.com>");
    assert_eq!(extract_subject(&message), "Don't fear");

    // Subject with HTML entities
    let message = create_message_with_headers("Test &amp; more", "From: <from@example.com>", "To: <to@example.com>");
    assert_eq!(extract_subject(&message), "Test & more");

    // Empty payload
    let message = message_with_payload(None, None);
    assert_eq!(extract_subject(&message), "");

    // No subject header
    let message = message_with_payload(Some(payload_with_header("From", "test@example.com")), None);
    assert_eq!(extract_subject(&message), "");
}

#[test]
fn test_extract_from() {
    // Normal from
    let message = create_message_with_headers("Subject", "From: Alice <alice@example.com>", "To: <to@example.com>");
    assert_eq!(extract_from(&message), "Alice <alice@example.com>");

    // From with unicode
    let message = create_message_with_headers("Subject", "From: =E2=80=9CJohn=E2=80=9D <john@example.com>", "To: <to@example.com>");
    assert_eq!(extract_from(&message), "\"John\" <john@example.com>");

    // Empty payload
    let message = message_with_payload(None, None);
    assert_eq!(extract_from(&message), "");

    // No from header
    let message = message_with_payload(Some(payload_with_header("Subject", "Test")), None);
    assert_eq!(extract_from(&message), "");
}

#[test]
fn test_extract_to() {
    // Normal to
    let message = create_message_with_headers("Subject", "From: <from@example.com>", "To: Bob <bob@example.org>");
    assert_eq!(extract_to(&message), "Bob <bob@example.org>");

    // Multiple recipients
    let message = create_message_with_headers("Subject", "From: <from@example.com>", "To: a@a.com, b@b.com");
    assert_eq!(extract_to(&message), "a@a.com, b@b.com");

    // Empty payload
    let message = message_with_payload(None, None);
    assert_eq!(extract_to(&message), "");

    // No to header
    let message = message_with_payload(Some(payload_with_header("Subject", "Test")), None);
    assert_eq!(extract_to(&message), "");
}

#[test]
fn test_extract_body() {
    // Body in payload.body (text/plain)
    let body_data = base64_url_no_pad("Hello World");
    let payload = MessagePayload {
        headers: Some(vec![
            MessageHeader { name: "Subject".to_string(), value: "Test".to_string() },
        ]),
        mimetype: "text/plain".to_string(),
        body: Some(MessagePartBody {
            attachment_id: None,
            size: 11,
            data: Some(body_data),
        }),
        parts: None,
    };
    let message = message_with_payload(Some(payload), None);
    let result = extract_body(&message);
    assert!(result.contains("Hello World"));

    // Body in parts (text/plain)
    let body_data = base64_url_no_pad("Plain text body");
    let parts = vec![MessagePart {
        part_id: "1".to_string(),
        mimetype: "text/plain".to_string(),
        body: Some(MessagePartBody {
            attachment_id: None,
            size: 16,
            data: Some(body_data),
        }),
    }];
    let payload = MessagePayload {
        headers: Some(vec![
            MessageHeader { name: "Subject".to_string(), value: "Test".to_string() },
        ]),
        mimetype: "multipart/alternative".to_string(),
        body: None,
        parts: Some(parts),
    };
    let message = message_with_payload(Some(payload), None);
    let result = extract_body(&message);
    assert!(result.contains("Plain text body"));

    // Fallback to snippet - note: this requires payload with no body/parts
    let message = message_with_payload(
        Some(payload_with_header("Subject", "Test")),
        Some("This is a snippet..."),
    );
    let result = extract_body(&message);
    assert_eq!(result, "This is a snippet...");
}

#[test]
fn html_body_becomes_markdown() {
    let data = base64_url_no_pad("<h1>Title</h1><p>Some <b>bold</b> text</p><script>x()</script>");
    let payload = MessagePayload {
        headers: None,
        mimetype: "text/html".to_string(),
        body: Some(MessagePartBody { attachment_id: None, size: 1, data: Some(data) }),
        parts: None,
    };
    let result = extract_body(&message_with_payload(Some(payload), None));
    assert_eq!(result, "# Title\n\nSome **bold** text");
}

#[test]
fn attachments_and_empty_parts_are_passed_over() {
    let part = |mimetype: &str, attachment: Option<&str>, text: &str| MessagePart {
        part_id: "1".to_string(),
        mimetype: mimetype.to_string(),
        body: Some(MessagePartBody {
            attachment_id: attachment.map(|a| a.to_string()),
            size: 1,
            data: Some(base64_url_no_pad(text)),
        }),
    };
    let payload = MessagePayload {
        headers: None,
        mimetype: "multipart/mixed".to_string(),
        body: None,
        parts: Some(vec![
            part("text/plain", Some("att-1"), "attached"),
            part("text/plain", None, ""),
            part("image/png", None, "pixels"),
            part("text/plain", None, "the body"),
        ]),
    };
    assert_eq!(extract_body(&message_with_payload(Some(payload), Some("snippet"))), "the body");
}

#[test]
fn message_without_text_has_empty_body() {
    let payload = MessagePayload {
        headers: None,
        mimetype: "text/plain".to_string(),
        body: None,
        parts: Some(vec![]),
    };
    assert_eq!(extract_body(&message_with_payload(Some(payload), None)), "");
}

#[test]
fn undecodable_data_is_reported() {
    assert_eq!(decode_base64("SGVsbG8gV29ybGQ="), "Hello World");
    assert_eq!(decode_base64("not base64 at all!"), "Failed to decode");
    // 0xFF is no UTF-8
    assert_eq!(decode_base64("_w=="), "Failed to decode");
}

#[test]
fn quoted_printable_edge_cases() {
    // a soft line break with a carriage return
    assert_eq!(decode_quoted_printable("one=\r\ntwo"), "onetwo");
    // an escape needs two characters behind the equals sign
    assert_eq!(decode_quoted_printable("end=2"), "end=2");
    assert_eq!(decode_quoted_printable("end="), "end=");
    assert_eq!(decode_quoted_printable("ends=41"), "endsA");
    // a soft line break needs a character behind it
    assert_eq!(decode_quoted_printable("end=\n"), "end=\n");
    // lower case digits, and a plus sign with one digit
    assert_eq!(decode_quoted_printable("=c3=a9"), "\u{e9}");
    assert_eq!(decode_quoted_printable("a=+9b"), "a\tb");
    // what is no UTF-8 is replaced
    assert_eq!(decode_quoted_printable("bad=FFbyte"), "bad\u{fffd}byte");
    // text that is not ASCII passes through
    assert_eq!(decode_quoted_printable("caf\u{e9}=21"), "caf\u{e9}!");
}

#[test]
fn test_html_entity_decode() {
    assert_eq!(html_entity_decode("Hello &amp; goodbye"), "Hello & goodbye");
    assert_eq!(html_entity_decode("&lt;tag&gt;"), "<tag>");
    assert_eq!(html_entity_decode("Don&apos;t stop"), "Don't stop");
    assert_eq!(html_entity_decode("&quot;quoted&quot;"), "\"quoted\"");
    assert_eq!(html_entity_decode("space&nbsp;here"), "space here");
    assert_eq!(html_entity_decode("Price: &#36;100"), "Price: $100");
    assert_eq!(html_entity_decode("Copyright &#169; 2024"), "Copyright \u{a9} 2024");
    assert_eq!(html_entity_decode("Don&#x2019;t"), "Don\u{2019}t");
    assert_eq!(html_entity_decode("Test&#x1F600;ing"), "Test\u{1F600}ing");
    assert_eq!(html_entity_decode("&#x201C;Hello&#x201D;"), "\u{201C}Hello\u{201D}");
    assert_eq!(
        html_entity_decode("&lt;&#x201C;test&#x201D;&amp; more&gt;"),
        "<\u{201C}test\u{201D}& more>"
    );
    // the ampersand is decoded first, so that what it uncovers is decoded too
    assert_eq!(html_entity_decode("&amp;lt;"), "<");
    // a number that names no character stays as it is
    assert_eq!(html_entity_decode("&#xD800; &#99999999999; &#x110000;"), "&#xD800; &#99999999999; &#x110000;");
    assert_eq!(html_entity_decode("&#0065;&#x41;"), "AA");
}

#[test]
fn test_clean_unicode() {
    assert_eq!(clean_unicode("Hello=20World=E2=80=99s"), "Hello World's");
    assert_eq!(clean_unicode("Test &amp; more"), "Test & more");
    assert_eq!(clean_unicode("Don&#x2019;t stop"), "Don't stop");
    assert_eq!(clean_unicode("Don\\u2019t"), "Don't");
    assert_eq!(clean_unicode("\\u201CHello\\u201D"), "\"Hello\"");
    assert_eq!(clean_unicode("en\u{2013}dash"), "en\u{2013}dash");
    assert_eq!(clean_unicode("em\u{2014}dash"), "em\u{2014}dash");
    let input = "=E2=80=9CQuote &amp; \\u2018escape\\u2019=E2=80=9D";
    assert_eq!(clean_unicode(input), "\"Quote & 'escape'\"");
    // an escape of a surrogate stays as it is
    assert_eq!(clean_unicode("\\uD800"), "\\uD800");
}

#[test]
fn header_names_are_matched_in_any_case() {
    let message = message_with_payload(Some(payload_with_header("SUBJECT", "Loud")), None);
    assert_eq!(extract_subject(&message), "Loud");
    let payload = MessagePayload {
        headers: Some(vec![
            MessageHeader { name: "to".to_string(), value: "first".to_string() },
            MessageHeader { name: "To".to_string(), value: "second".to_string() },
        ]),
        mimetype: "text/plain".to_string(),
        body: None,
        parts: None,
    };
    assert_eq!(extract_to(&message_with_payload(Some(payload), None)), "first");
}

#[test]
fn quoted_lines_are_dropped_one_by_one() {
    assert_eq!(strip_quoted_replies("a\r\n  > b\r\nc\r\n"), "a\nc");
    assert_eq!(strip_quoted_replies("> only quotes"), "");
    assert_eq!(strip_quoted_replies(""), "");
    assert_eq!(strip_quoted_replies("keep\n\n\nlines  \n"), "keep\n\n\nlines");
}

#[test]
fn mail_is_asked_for_at_its_addresses() {
    assert_eq!(
        unread_messages_url("2025/01/31"),
        "https://gmail.googleapis.com/gmail/v1/users/me/messages?labelIds=UNREAD&q=is:unread%20after:2025/01/31%20in:inbox"
    );
    assert_eq!(
        thread_url("18c0ffee"),
        "https://gmail.googleapis.com/gmail/v1/users/me/threads/18c0ffee?format=full"
    );
}

#[test]
fn unread_mail_is_listed_from_a_day_on() {
    assert_eq!(
        unread_messages_url_at(1738281600, 7).unwrap(),
        "https://gmail.googleapis.com/gmail/v1/users/me/messages?labelIds=UNREAD&q=is:unread%20after:2025/01/24%20in:inbox"
    );
    assert_eq!(unread_messages_url_at(1738281600, 0).unwrap(), unread_messages_url("2025/01/31"));
    assert_eq!(unread_messages_url_at(0, i64::MAX), None);
}
