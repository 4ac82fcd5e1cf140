use kakigoori_worker::json_messages::{
    deserialize, serialize, MalformedMessage, TaskRequest, TaskResponse,
};

fn request(file: &[u8], id: &str) -> TaskRequest {
    TaskRequest { original_file: file.to_vec(), variant_id: id.to_string() }
}

fn response(file: &[u8], id: &str) -> TaskResponse {
    TaskResponse { variant_file: file.to_vec(), variant_id: id.to_string() }
}

#[test]
fn request_is_read_from_a_json_object() {
    let raw = b"{\"original_file\":\"aGVsbG8=\",\"variant_id\":\"abc123\"}";
    assert_eq!(TaskRequest::from_slice(raw), Ok(request(b"hello", "abc123")));
}

#[test]
fn request_members_may_come_in_any_order_and_with_white_space() {
    let raw = b" {\n  \"variant_id\" : \"v\",\n  \"original_file\" : \"AAEC\"\n}\n";
    assert_eq!(TaskRequest::from_slice(raw), Ok(request(&[0, 1, 2], "v")));
}

#[test]
fn request_passes_over_members_it_does_not_know() {
    let raw = b"{\"priority\":3,\"original_file\":\"\",\"tags\":[\"a\"],\"variant_id\":\"x\"}";
    assert_eq!(TaskRequest::from_slice(raw), Ok(request(b"", "x")));
}

#[test]
fn request_identifier_keeps_escaped_and_foreign_characters() {
    let raw = "{\"original_file\":\"/w==\",\"variant_id\":\"a\\\"b\\\\c\\u00e9\u{1F600}\\n\"}";
    assert_eq!(
        TaskRequest::from_slice(raw.as_bytes()),
        Ok(request(&[0xff], "a\"b\\c\u{e9}\u{1F600}\n"))
    );
}

#[test]
fn response_is_written_as_a_json_object() {
    let raw = response(b"hello", "abc123").to_vec().unwrap();
    assert_eq!(raw, b"{\"variant_file\":\"aGVsbG8=\",\"variant_id\":\"abc123\"}".to_vec());
}

#[test]
fn request_is_written_as_a_json_object() {
    let raw = request(&[0xfb, 0xff], "id").to_vec().unwrap();
    assert_eq!(raw, b"{\"original_file\":\"+/8=\",\"variant_id\":\"id\"}".to_vec());
}

#[test]
fn response_identifier_is_escaped_when_written() {
    let raw = response(b"", "a\"b\\c\n").to_vec().unwrap();
    assert_eq!(raw, b"{\"variant_file\":\"\",\"variant_id\":\"a\\\"b\\\\c\\n\"}".to_vec());
}

#[test]
fn request_round_trips() {
    let all_bytes: Vec<u8> = (0u8..=255).collect();
    for (file, id) in [
        (Vec::new(), ""),
        (vec![0u8], "abc123"),
        (vec![1u8, 2], "with space and \"quotes\""),
        (all_bytes, "\u{0}\u{1f}\u{7f}\u{e9}\u{4e2d}\u{1F600}\\/"),
    ] {
        let sent = request(&file, id);
        let raw = sent.to_vec().unwrap();
        assert_eq!(TaskRequest::from_slice(&raw), Ok(sent));
    }
}

#[test]
fn response_round_trips() {
    let all_bytes: Vec<u8> = (0u8..=255).rev().collect();
    for (file, id) in [
        (Vec::new(), ""),
        (vec![255u8; 17], "abc123"),
        (all_bytes, "variant_id"),
    ] {
        let sent = response(&file, id);
        let raw = sent.to_vec().unwrap();
        assert_eq!(TaskResponse::from_slice(&raw), Ok(sent));
    }
}

#[test]
fn a_response_is_no_request() {
    let raw = response(b"hello", "abc123").to_vec().unwrap();
    assert_eq!(TaskRequest::from_slice(&raw), Err(MalformedMessage::MissingField));
    let raw = request(b"hello", "abc123").to_vec().unwrap();
    assert_eq!(TaskResponse::from_slice(&raw), Err(MalformedMessage::MissingField));
}

#[test]
fn bytes_that_are_no_json_are_refused() {
    for raw in [
        &b""[..],
        b"not json",
        b"{\"original_file\":\"aGVsbG8=\",\"variant_id\":\"abc123\"",
        b"{\"original_file\":\"aGVsbG8=\",\"variant_id\":\"abc123\"} trailing",
        b"{\"original_file\":\"aGVsbG8=\",\"variant_id\":\"abc\xff\"}",
        b"{original_file:\"aGVsbG8=\",variant_id:\"abc123\"}",
    ] {
        assert_eq!(TaskRequest::from_slice(raw), Err(MalformedMessage::InvalidJson));
        assert_eq!(TaskResponse::from_slice(raw), Err(MalformedMessage::InvalidJson));
    }
}

#[test]
fn a_missing_member_is_refused() {
    for raw in [
        &b"{}"[..],
        b"{\"variant_id\":\"abc123\"}",
        b"{\"original_file\":\"aGVsbG8=\"}",
        b"{\"Original_File\":\"aGVsbG8=\",\"variant_id\":\"abc123\"}",
        b"null",
        b"17",
        b"\"original_file\"",
        b"[\"aGVsbG8=\",\"abc123\"]",
    ] {
        assert_eq!(TaskRequest::from_slice(raw), Err(MalformedMessage::MissingField));
    }
}

#[test]
fn a_member_that_is_no_text_is_refused() {
    for raw in [
        &b"{\"original_file\":[104,105],\"variant_id\":\"abc123\"}"[..],
        b"{\"original_file\":12,\"variant_id\":\"abc123\"}",
        b"{\"original_file\":null,\"variant_id\":\"abc123\"}",
        b"{\"original_file\":\"aGVsbG8=\",\"variant_id\":7}",
        b"{\"original_file\":\"aGVsbG8=\",\"variant_id\":null}",
        b"{\"original_file\":\"aGVsbG8=\",\"variant_id\":{\"id\":\"abc123\"}}",
    ] {
        assert_eq!(TaskRequest::from_slice(raw), Err(MalformedMessage::MissingField));
    }
}

#[test]
fn a_file_that_is_no_base64_is_refused() {
    for raw in [
        &b"{\"original_file\":\"not base64!\",\"variant_id\":\"abc123\"}"[..],
        b"{\"original_file\":\"aGVsbG8\",\"variant_id\":\"abc123\"}",
        b"{\"original_file\":\"aGVsbG8==\",\"variant_id\":\"abc123\"}",
        b"{\"original_file\":\"aGVs bG8=\",\"variant_id\":\"abc123\"}",
        b"{\"original_file\":\"aGVsbG-_\",\"variant_id\":\"abc123\"}",
    ] {
        assert_eq!(TaskRequest::from_slice(raw), Err(MalformedMessage::InvalidBase64));
    }
}

#[test]
fn a_missing_member_is_told_before_a_bad_file() {
    let raw = b"{\"original_file\":\"not base64!\"}";
    assert_eq!(TaskRequest::from_slice(raw), Err(MalformedMessage::MissingField));
}

#[test]
fn base64_text_is_standard_and_padded() {
    assert_eq!(serialize(&Vec::new()), "");
    assert_eq!(serialize(&b"f".to_vec()), "Zg==");
    assert_eq!(serialize(&b"fo".to_vec()), "Zm8=");
    assert_eq!(serialize(&b"foo".to_vec()), "Zm9v");
    assert_eq!(serialize(&b"foobar".to_vec()), "Zm9vYmFy");
    assert_eq!(serialize(&vec![0xfb, 0xff, 0xbf]), "+/+/");
}

#[test]
fn base64_text_is_read_back() {
    assert_eq!(deserialize(""), Ok(Vec::new()));
    assert_eq!(deserialize("Zg=="), Ok(b"f".to_vec()));
    assert_eq!(deserialize("Zm9vYmFy"), Ok(b"foobar".to_vec()));
    assert_eq!(deserialize("+/+/"), Ok(vec![0xfb, 0xff, 0xbf]));
}

#[test]
fn base64_text_round_trips() {
    let bytes: Vec<u8> = (0u8..=255).collect();
    for length in 0..bytes.len() {
        let part = bytes[..length].to_vec();
        assert_eq!(deserialize(&serialize(&part)), Ok(part));
    }
}

#[test]
fn text_that_is_no_base64_is_refused() {
    for text in ["Zg", "Zg=", "Z", "Zm9v=", "Zm 9v", "Zm9v\n", "-_-_", "Zh=="] {
        assert_eq!(deserialize(text), Err(MalformedMessage::InvalidBase64));
    }
}
