use forward_as_attachment_mta::message::{classify, AddressParse, RawInput};
use mailparse::MailHeaderMap;

fn read(text: &str) -> RawInput {
    RawInput::Read(text.as_bytes().to_vec())
}

#[test]
fn test_long_lines() {
    let mut raw = b"From: root (Cron Daemon)\nSubject: long output\nContent-Type: text/plain; charset=UTF-8\nContent-Transfer-Encoding: 8bit\n\n".to_vec();
    let line = "0123456789".repeat(2000);
    raw.extend_from_slice(line.as_bytes());
    raw.extend_from_slice(b"\n");
    let msg = mailparse::parse_mail(&raw).unwrap();
    assert!(matches!(msg.get_body_encoded(), mailparse::body::Body::EightBit(_)));
    let parsed = classify(&RawInput::Read(raw.clone())).unwrap();
    assert_eq!(parsed.mimetype, "text/plain");
    assert_eq!(parsed.body, Some(format!("{line}\n")));
}

#[test]
fn a_message_is_read_with_its_headers_in_order() {
    let parsed = classify(&read(
        "From: Root <root@example.org>\nSubject: first\nX-Note: a\nsubject: second\n\nbody text\n",
    ))
    .unwrap();
    let names: Vec<&str> = parsed.headers.iter().map(|h| h.name.as_str()).collect();
    assert_eq!(names, vec!["From", "Subject", "X-Note", "subject"]);
    let values: Vec<&str> = parsed.headers.iter().map(|h| h.value.as_str()).collect();
    assert_eq!(values, vec!["Root <root@example.org>", "first", "a", "second"]);
    assert_eq!(parsed.headers[0].address, AddressParse::Single("root@example.org".to_owned()));
    assert_eq!(parsed.headers[1].value_utf8.as_deref(), Some("first"));
    assert_eq!(parsed.mimetype, "text/plain");
    assert_eq!(parsed.body.as_deref(), Some("body text\n"));
}

#[test]
fn a_folded_and_encoded_header_is_unfolded_and_decoded() {
    let parsed = classify(&read(
        "Subject: =?iso-8859-1?Q?=A1Hola,_se=F1or!?=\nX-Long: one\n two\n\n",
    ))
    .unwrap();
    assert_eq!(parsed.headers[0].value, "\u{a1}Hola, se\u{f1}or!");
    assert_eq!(parsed.headers[1].value, "one two");
}

#[test]
fn a_header_value_that_is_not_utf8_has_no_text() {
    let raw = b"Subject: caf\xe9\nX-Ok: fine\n\nbody".to_vec();
    let parsed = classify(&RawInput::Read(raw)).unwrap();
    assert_eq!(parsed.headers[0].value, "caf\u{e9}");
    assert_eq!(parsed.headers[0].value_utf8, None);
    assert_eq!(parsed.headers[1].value_utf8.as_deref(), Some("fine"));
}

#[test]
fn a_header_name_is_read_as_latin1() {
    let raw = b"X-Caf\xe9: au lait\n\nbody".to_vec();
    let parsed = classify(&RawInput::Read(raw)).unwrap();
    assert_eq!(parsed.headers[0].name, "X-Caf\u{e9}");
}

#[test]
fn the_content_type_is_read_without_parameters_in_lower_case() {
    let parsed = classify(&read("Content-Type: Text/HTML; charset=utf-8\n\n<p>hi</p>")).unwrap();
    assert_eq!(parsed.mimetype, "text/html");
    let parsed = classify(&read("Subject: none\n\nhi")).unwrap();
    assert_eq!(parsed.mimetype, "text/plain");
}

#[test]
fn the_body_is_decoded_from_its_transfer_encoding() {
    let parsed = classify(&read(
        "Content-Type: text/plain; charset=utf-8\nContent-Transfer-Encoding: base64\n\naGVsbG8gd29ybGQ=\n",
    ))
    .unwrap();
    assert_eq!(parsed.body.as_deref(), Some("hello world"));
    let parsed = classify(&read(
        "Content-Transfer-Encoding: base64\n\nthis is *not* base64!\n",
    ))
    .unwrap();
    assert_eq!(parsed.body, None);
}

#[test]
fn addresses_are_read_from_header_values() {
    let parsed = classify(&read(
        "From: a@example.org\nTo: a@example.org, b@example.org\nCc: team: a@example.org;\nReply-To: <broken\nBcc:\n\n",
    ))
    .unwrap();
    assert_eq!(parsed.headers[0].address, AddressParse::Single("a@example.org".to_owned()));
    assert_eq!(parsed.headers[1].address, AddressParse::NotSingle);
    assert_eq!(parsed.headers[2].address, AddressParse::NotSingle);
    assert_eq!(parsed.headers[3].address, AddressParse::Failed);
    assert_eq!(parsed.headers[4].address, AddressParse::NotSingle);
}

#[test]
fn empty_input_is_a_message_without_headers() {
    let parsed = classify(&RawInput::Read(Vec::new())).unwrap();
    assert!(parsed.headers.is_empty());
    assert_eq!(parsed.mimetype, "text/plain");
    assert_eq!(parsed.body.as_deref(), Some(""));
}

#[test]
fn input_that_is_no_message_is_not_parsed() {
    assert_eq!(classify(&RawInput::Read(b"Subject: x\n\rbroken".to_vec())), None);
    assert_eq!(classify(&read(" leading space\n\nbody")), None);
}

#[test]
fn input_that_could_not_be_read_is_not_parsed() {
    assert_eq!(classify(&RawInput::Failed("Subject: x\n\nbody".to_owned())), None);
}

#[test]
fn headers_are_found_by_name_without_regard_to_case() {
    let parsed = classify(&read("Subject: a\nFrom: x@y\nSUBJECT: b\nsubject: c\nSubjects: d\n\n"))
        .unwrap();
    let found: Vec<&str> =
        parsed.headers_named("Subject").iter().map(|h| h.value.as_str()).collect();
    assert_eq!(found, vec!["a", "b", "c"]);
    assert_eq!(parsed.headers_named("from").len(), 1);
    assert!(parsed.headers_named("To").is_empty());
}

#[test]
fn headers_by_name_are_those_that_mailparse_finds() {
    let raw = b"Subject: a\nX-Caf\xe9: 1\nsubject: b\nx-caf\xe9: 2\nFrom: x@y\nSUBJECT : c\nK: kelvin\n\nbody";
    let parsed = classify(&RawInput::Read(raw.to_vec())).unwrap();
    let mail = mailparse::parse_mail(raw).unwrap();
    for name in ["Subject", "subject", "SUBJECT ", "X-Caf\u{e9}", "X-CAF\u{c9}", "from", "k", "\u{212a}", "", "To"] {
        let found: Vec<String> =
            parsed.headers_named(name).iter().map(|h| h.value.clone()).collect();
        assert_eq!(found, mail.headers.get_all_values(name), "name {:?}", name);
    }
}
