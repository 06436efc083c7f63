use cortex_dispatcher::command::{
    command_for_download, command_from_json, decode_command, encode_command, frame_command,
    handle_delivery, settle_delivery, Acknowledgement, Command, DecodeError, JsonValue,
};
use cortex_dispatcher::sftp_scanner::SftpDownload;

fn sftp(path: &str) -> Command {
    Command::SftpDownload { path: path.to_string() }
}

fn http(url: &str) -> Command {
    Command::HttpDownload { url: url.to_string() }
}

#[test]
fn an_sftp_download_is_decoded() {
    assert_eq!(
        decode_command(br#"{"SftpDownload":{"path":"/upload/a.csv"}}"#),
        Ok(sftp("/upload/a.csv"))
    );
}

#[test]
fn an_http_download_is_decoded() {
    assert_eq!(
        decode_command(br#" { "HttpDownload" : { "url" : "https://example.org/a?b=c" } } "#),
        Ok(http("https://example.org/a?b=c"))
    );
}

#[test]
fn escapes_in_the_payload_are_resolved() {
    assert_eq!(
        decode_command(r#"{"SftpDownload":{"path":"/up\"load/\u00e9.csv"}}"#.as_bytes()),
        Ok(sftp("/up\"load/\u{e9}.csv"))
    );
}

#[test]
fn other_members_of_the_body_are_passed_over() {
    assert_eq!(
        decode_command(br#"{"SftpDownload":{"size":12,"path":"/p","sftp_source":"s"}}"#),
        Ok(sftp("/p"))
    );
}

#[test]
fn a_payload_that_is_no_json_is_refused() {
    assert_eq!(decode_command(b"not json at all"), Err(DecodeError::NotJson));
    assert_eq!(decode_command(b""), Err(DecodeError::NotJson));
    assert_eq!(decode_command(br#"{"SftpDownload":{"path":"/p"}"#), Err(DecodeError::NotJson));
    assert_eq!(decode_command(&[0xff, 0xfe, 0x00]), Err(DecodeError::NotJson));
}

#[test]
fn a_document_that_is_not_tagged_is_refused() {
    assert_eq!(decode_command(b"[]"), Err(DecodeError::NotTagged));
    assert_eq!(decode_command(br#""SftpDownload""#), Err(DecodeError::NotTagged));
    assert_eq!(decode_command(b"{}"), Err(DecodeError::NotTagged));
    assert_eq!(decode_command(b"null"), Err(DecodeError::NotTagged));
    assert_eq!(
        decode_command(br#"{"SftpDownload":{"path":"/p"},"HttpDownload":{"url":"u"}}"#),
        Err(DecodeError::NotTagged)
    );
}

#[test]
fn an_unknown_kind_of_command_is_refused() {
    assert_eq!(decode_command(br#"{"FtpDownload":{"path":"/p"}}"#), Err(DecodeError::UnknownCommand));
    assert_eq!(decode_command(br#"{"sftpdownload":{"path":"/p"}}"#), Err(DecodeError::UnknownCommand));
}

#[test]
fn a_body_without_its_field_is_refused() {
    assert_eq!(decode_command(br#"{"SftpDownload":{}}"#), Err(DecodeError::MissingField));
    assert_eq!(decode_command(br#"{"SftpDownload":{"url":"u"}}"#), Err(DecodeError::MissingField));
    assert_eq!(decode_command(br#"{"HttpDownload":{"path":"/p"}}"#), Err(DecodeError::MissingField));
    assert_eq!(decode_command(br#"{"SftpDownload":{"path":12}}"#), Err(DecodeError::MissingField));
    assert_eq!(decode_command(br#"{"SftpDownload":"/p"}"#), Err(DecodeError::MissingField));
    assert_eq!(decode_command(br#"{"SftpDownload":["/p"]}"#), Err(DecodeError::MissingField));
}

#[test]
fn a_command_is_read_off_a_document() {
    let document = JsonValue::Object(vec![(
        "HttpDownload".to_string(),
        JsonValue::Object(vec![
            ("retries".to_string(), JsonValue::Number("3".to_string())),
            ("url".to_string(), JsonValue::Text("http://h/f".to_string())),
        ]),
    )]);
    assert_eq!(command_from_json(&document), Ok(http("http://h/f")));
    let first_wins = JsonValue::Object(vec![(
        "SftpDownload".to_string(),
        JsonValue::Object(vec![
            ("path".to_string(), JsonValue::Null),
            ("path".to_string(), JsonValue::Text("/p".to_string())),
        ]),
    )]);
    assert_eq!(command_from_json(&first_wins), Err(DecodeError::MissingField));
    assert_eq!(command_from_json(&JsonValue::Array(Vec::new())), Err(DecodeError::NotTagged));
    assert_eq!(command_from_json(&JsonValue::Bool(true)), Err(DecodeError::NotTagged));
}

#[test]
fn a_delivery_is_acknowledged_whatever_it_holds() {
    let good = handle_delivery(br#"{"SftpDownload":{"path":"/p"}}"#, 17);
    assert_eq!(good.decoded, Ok(sftp("/p")));
    assert_eq!(good.acknowledgement, Acknowledgement { delivery_tag: 17, multiple: false });
    let bad = handle_delivery(b"{{{", 18);
    assert_eq!(bad.decoded, Err(DecodeError::NotJson));
    assert_eq!(bad.acknowledgement, Acknowledgement { delivery_tag: 18, multiple: false });
}

#[test]
fn a_malformed_payload_does_not_hold_up_the_payloads_behind_it() {
    let payloads: Vec<&[u8]> = vec![
        br#"{"SftpDownload":{"path":"/one"}}"#,
        b"\xff\xff",
        br#"{"Unknown":1}"#,
        br#"{"HttpDownload":{"url":"http://two"}}"#,
    ];
    let mut decoded = Vec::new();
    let mut acknowledged = Vec::new();
    for (tag, payload) in payloads.iter().enumerate() {
        let handling = handle_delivery(payload, tag as u64 + 1);
        decoded.push(handling.decoded);
        acknowledged.push(handling.acknowledgement.delivery_tag);
    }
    assert_eq!(
        decoded,
        vec![
            Ok(sftp("/one")),
            Err(DecodeError::NotJson),
            Err(DecodeError::UnknownCommand),
            Ok(http("http://two")),
        ]
    );
    assert_eq!(acknowledged, vec![1, 2, 3, 4]);
}

#[test]
fn settle_delivery_keeps_the_outcome() {
    let handling = settle_delivery(Err(DecodeError::MissingField), 5);
    assert_eq!(handling.decoded, Err(DecodeError::MissingField));
    assert_eq!(handling.acknowledgement, Acknowledgement { delivery_tag: 5, multiple: false });
}

#[test]
fn a_command_is_encoded_as_a_tagged_object() {
    assert_eq!(
        encode_command(&sftp("/upload/a.csv")),
        Some(r#"{"SftpDownload":{"path":"/upload/a.csv"}}"#.to_string())
    );
    assert_eq!(
        encode_command(&http("http://h/f")),
        Some(r#"{"HttpDownload":{"url":"http://h/f"}}"#.to_string())
    );
}

#[test]
fn the_field_is_escaped_on_encoding() {
    assert_eq!(
        encode_command(&sftp("/up\"load/\\x\n")),
        Some(r#"{"SftpDownload":{"path":"/up\"load/\\x\n"}}"#.to_string())
    );
}

#[test]
fn what_is_encoded_decodes_to_the_same_command() {
    for command in [sftp("/upload/a.csv"), sftp("q\"uo\\te\u{1f600}\t"), http(""), http("http://h/?a=\u{e9}")] {
        let text = encode_command(&command).unwrap();
        assert_eq!(decode_command(text.as_bytes()), Ok(command));
    }
}

#[test]
fn frame_command_wraps_the_literal() {
    assert_eq!(frame_command(&sftp("ignored"), "\"lit\""), r#"{"SftpDownload":{"path":"lit"}}"#);
    assert_eq!(frame_command(&http("ignored"), "\"lit\""), r#"{"HttpDownload":{"url":"lit"}}"#);
}

#[test]
fn the_bridge_publishes_the_download_of_the_path() {
    let download = SftpDownload {
        created: 1_700_000_000_000,
        size: Some(5),
        sftp_source: "remote-a".to_string(),
        path: "/upload/a.csv".to_string(),
    };
    assert_eq!(command_for_download(&download), sftp("/upload/a.csv"));
    assert_eq!(
        encode_command(&command_for_download(&download)),
        Some(r#"{"SftpDownload":{"path":"/upload/a.csv"}}"#.to_string())
    );
}
