//! The wire envelopes: a JSON object that carries a file as base64 text beside
//! the identifier of the variant it belongs to.
//!
//! Base64 and JSON themselves are the work of the `base64` and `serde_json`
//! crates. Their results are named here, not defined: the contracts of this
//! module say which text goes into which member and what is refused, over
//! those names.

use vstd::prelude::*;

verus! {

/// The base64 error type, carried through unread.
#[verifier::external_type_specification]
#[verifier::external_body]
pub struct ExBase64DecodeError(base64::DecodeError);

/// A parsed JSON value of `serde_json`. Only its text members are ever read,
/// see [`text_members`].
#[verifier::external_type_specification]
#[verifier::external_body]
pub struct ExJsonValue(serde_json::Value);

/// The `serde_json` error type, carried through unread.
#[verifier::external_type_specification]
#[verifier::external_body]
pub struct ExJsonError(serde_json::Error);

/// The text that the standard base64 alphabet, with padding, gives for
/// `bytes`.
pub uninterp spec fn base64_text(bytes: Seq<u8>) -> Seq<char>;

/// The bytes that `text` stands for in standard, padded base64; `None` where
/// it is not such text.
pub uninterp spec fn base64_bytes(text: Seq<char>) -> Option<Seq<u8>>;

/// The text members of a JSON value: every key of a JSON object whose value
/// is a JSON string, with that string. A value that is no object has none.
pub uninterp spec fn text_members(value: serde_json::Value) -> Map<Seq<char>, Seq<char>>;

/// The text members of the JSON document that `raw` holds; `None` where `raw`
/// is not one JSON document.
pub uninterp spec fn json_text_members(raw: Seq<u8>) -> Option<Map<Seq<char>, Seq<char>>>;

/// The bytes of the JSON object with the two given text members; `None` where
/// the serializer refuses them.
pub uninterp spec fn json_object_bytes(
    first_key: Seq<char>,
    first_text: Seq<char>,
    second_key: Seq<char>,
    second_text: Seq<char>,
) -> Option<Seq<u8>>;

/// Calls `Engine::encode` of the `base64` crate on its `STANDARD` engine.
///
/// Trusted: the result is the base64 text of `bytes`, and decoding that text
/// with the same engine gives `bytes` back. The call panics only where the
/// length of the text does not fit `usize`, which no slice in memory reaches.
#[verifier::external_body]
fn standard_encode(bytes: &[u8]) -> (text: String)
    ensures
        text@ == base64_text(bytes@),
        base64_bytes(text@) == Some(bytes@),
{
    base64::Engine::encode(&base64::engine::general_purpose::STANDARD, bytes)
}

/// Calls `Engine::decode` of the `base64` crate on its `STANDARD` engine.
///
/// Trusted: it succeeds exactly on base64 text and then returns the bytes
/// that the text stands for.
#[verifier::external_body]
fn standard_decode(text: &str) -> (bytes: Result<Vec<u8>, base64::DecodeError>)
    ensures
        bytes is Ok <==> base64_bytes(text@) is Some,
        bytes matches Ok(decoded) ==> base64_bytes(text@) == Some(decoded@),
{
    base64::Engine::decode(&base64::engine::general_purpose::STANDARD, text.as_bytes())
}

/// Calls `serde_json::from_slice` for a `serde_json::Value`.
///
/// Trusted: it succeeds exactly where `raw` is one JSON document, and the
/// value it returns has the text members of that document.
#[verifier::external_body]
fn parse_json(raw: &[u8]) -> (parsed: Result<serde_json::Value, serde_json::Error>)
    ensures
        parsed is Ok <==> json_text_members(raw@) is Some,
        parsed matches Ok(value) ==> json_text_members(raw@) == Some(text_members(value)),
{
    serde_json::from_slice::<serde_json::Value>(raw)
}

/// Calls `Value::get` of `serde_json` with a text key, and `Value::as_str` on
/// what it finds.
///
/// Trusted: the result is the string stored under `key`, and `None` where the
/// value is no object, has no such key, or holds something other than a
/// string there.
#[verifier::external_body]
fn text_member(value: &serde_json::Value, key: &str) -> (text: Option<String>)
    ensures
        text is Some <==> text_members(*value).contains_key(key@),
        text matches Some(found) ==> text_members(*value)[key@] == found@,
{
    value.get(key).and_then(serde_json::Value::as_str).map(str::to_owned)
}

/// Calls `serde_json::to_vec` on a `serde_json::Map` that holds the two
/// members as JSON strings, the second put in after the first.
///
/// Trusted: the outcome depends on the four texts alone, and bytes that come
/// out parse back, with `serde_json::from_slice`, to an object with these two
/// text members.
#[verifier::external_body]
fn object_bytes(first_key: &str, first_text: &str, second_key: &str, second_text: &str) -> (raw:
    Result<Vec<u8>, serde_json::Error>)
    ensures
        raw is Ok <==> json_object_bytes(first_key@, first_text@, second_key@, second_text@) is Some,
        raw matches Ok(bytes) ==> {
            &&& json_object_bytes(first_key@, first_text@, second_key@, second_text@) == Some(bytes@)
            &&& json_text_members(bytes@) == Some(
                Map::<Seq<char>, Seq<char>>::empty().insert(first_key@, first_text@).insert(
                    second_key@,
                    second_text@,
                ),
            )
        },
{
    let mut object = serde_json::Map::new();
    object.insert(first_key.to_owned(), serde_json::Value::String(first_text.to_owned()));
    object.insert(second_key.to_owned(), serde_json::Value::String(second_text.to_owned()));
    serde_json::to_vec(&object)
}

/// Why an envelope was refused.
#[derive(Clone, Copy, Debug, PartialEq, Eq)]
pub enum MalformedMessage {
    /// The bytes are not a JSON document.
    InvalidJson,
    /// A required member is absent, or is not a JSON string.
    MissingField,
    /// The file member is not base64 text.
    InvalidBase64,
}

/// The JSON serializer refused an envelope.
#[derive(Clone, Copy, Debug, PartialEq, Eq)]
pub struct Unrepresentable {}

/// The key under which every envelope carries the identifier.
pub open spec fn variant_id_key() -> Seq<char> {
    "variant_id"@
}

/// The file and the identifier that an envelope carries, the file under
/// `file_key`.
pub open spec fn envelope_decoding(raw: Seq<u8>, file_key: Seq<char>) -> Result<
    (Seq<u8>, Seq<char>),
    MalformedMessage,
> {
    match json_text_members(raw) {
        None => Err(MalformedMessage::InvalidJson),
        Some(members) => if !members.contains_key(file_key) || !members.contains_key(
            variant_id_key(),
        ) {
            Err(MalformedMessage::MissingField)
        } else {
            match base64_bytes(members[file_key]) {
                None => Err(MalformedMessage::InvalidBase64),
                Some(file) => Ok((file, members[variant_id_key()])),
            }
        },
    }
}

/// The envelope that carries `file` under `file_key` beside `variant_id`;
/// `None` where the JSON serializer refuses it.
pub open spec fn envelope_encoding(file_key: Seq<char>, file: Seq<u8>, variant_id: Seq<char>) -> Option<
    Seq<u8>,
> {
    json_object_bytes(file_key, base64_text(file), variant_id_key(), variant_id)
}

/// Encodes bytes as the text that stands for them inside an envelope.
pub fn serialize(v: &Vec<u8>) -> (text: String)
    ensures
        text@ == base64_text(v@),
        base64_bytes(text@) == Some(v@),
{
    standard_encode(v.as_slice())
}

/// Decodes the text of an envelope's file member.
pub fn deserialize(text: &str) -> (decoded: Result<Vec<u8>, MalformedMessage>)
    ensures
        decoded matches Ok(bytes) ==> base64_bytes(text@) == Some(bytes@),
        decoded matches Err(reason) ==> base64_bytes(text@) is None && reason
            == MalformedMessage::InvalidBase64,
{
    match standard_decode(text) {
        Ok(bytes) => Ok(bytes),
        Err(_) => Err(MalformedMessage::InvalidBase64),
    }
}

fn decode_envelope(raw: &[u8], file_key: &str) -> (decoded: Result<(Vec<u8>, String), MalformedMessage>)
    ensures
        decoded matches Ok(parts) ==> envelope_decoding(raw@, file_key@) == Ok::<
            (Seq<u8>, Seq<char>),
            MalformedMessage,
        >((parts.0@, parts.1@)),
        decoded matches Err(reason) ==> envelope_decoding(raw@, file_key@) == Err::<
            (Seq<u8>, Seq<char>),
            MalformedMessage,
        >(reason),
{
    let value = match parse_json(raw) {
        Ok(value) => value,
        Err(_) => {
            return Err(MalformedMessage::InvalidJson);
        },
    };
    let file_text = match text_member(&value, file_key) {
        Some(text) => text,
        None => {
            return Err(MalformedMessage::MissingField);
        },
    };
    let variant_id = match text_member(&value, "variant_id") {
        Some(text) => text,
        None => {
            return Err(MalformedMessage::MissingField);
        },
    };
    let file = deserialize(file_text.as_str())?;
    Ok((file, variant_id))
}

fn encode_envelope(file_key: &str, file: &Vec<u8>, variant_id: &str) -> (encoded: Result<
    Vec<u8>,
    Unrepresentable,
>)
    requires
        file_key@ != variant_id_key(),
    ensures
        encoded is Ok <==> envelope_encoding(file_key@, file@, variant_id@) is Some,
        encoded matches Ok(raw) ==> {
            &&& envelope_encoding(file_key@, file@, variant_id@) == Some(raw@)
            &&& envelope_decoding(raw@, file_key@) == Ok::<(Seq<u8>, Seq<char>), MalformedMessage>(
                (file@, variant_id@),
            )
        },
{
    let file_text = serialize(file);
    match object_bytes(file_key, file_text.as_str(), "variant_id", variant_id) {
        Ok(raw) => Ok(raw),
        Err(_) => Err(Unrepresentable {  }),
    }
}

/// A job as it arrives: the file to encode and the identifier of the variant
/// that it is to become.
#[derive(Clone, Debug, PartialEq, Eq)]
pub struct TaskRequest {
    pub original_file: Vec<u8>,
    pub variant_id: String,
}

/// A [`TaskRequest`] as plain values.
pub struct TaskRequestView {
    pub original_file: Seq<u8>,
    pub variant_id: Seq<char>,
}

impl View for TaskRequest {
    type V = TaskRequestView;

    open spec fn view(&self) -> TaskRequestView {
        TaskRequestView { original_file: self.original_file@, variant_id: self.variant_id@ }
    }
}

impl TaskRequest {
    /// The key of the member that carries the file.
    pub open spec fn file_key() -> Seq<char> {
        "original_file"@
    }

    /// The request that an envelope carries.
    pub open spec fn decoding(raw: Seq<u8>) -> Result<TaskRequestView, MalformedMessage> {
        match envelope_decoding(raw, Self::file_key()) {
            Ok(parts) => Ok(TaskRequestView { original_file: parts.0, variant_id: parts.1 }),
            Err(reason) => Err(reason),
        }
    }

    /// The envelope of a request; `None` where the JSON serializer refuses it.
    pub open spec fn encoding(request: TaskRequestView) -> Option<Seq<u8>> {
        envelope_encoding(Self::file_key(), request.original_file, request.variant_id)
    }

    /// Reads a request from the bytes of a message: a JSON object with the
    /// text members `original_file`, in base64, and `variant_id`. Other
    /// members are passed over.
    pub fn from_slice(raw: &[u8]) -> (decoded: Result<TaskRequest, MalformedMessage>)
        ensures
            decoded matches Ok(request) ==> Self::decoding(raw@) == Ok::<
                TaskRequestView,
                MalformedMessage,
            >(request@),
            decoded matches Err(reason) ==> Self::decoding(raw@) == Err::<
                TaskRequestView,
                MalformedMessage,
            >(reason),
    {
        match decode_envelope(raw, "original_file") {
            Ok(parts) => Ok(TaskRequest { original_file: parts.0, variant_id: parts.1 }),
            Err(reason) => Err(reason),
        }
    }

    /// Writes the request as the bytes of a message. What comes out reads
    /// back, with [`TaskRequest::from_slice`], as this request.
    pub fn to_vec(&self) -> (encoded: Result<Vec<u8>, Unrepresentable>)
        ensures
            encoded is Ok <==> Self::encoding(self@) is Some,
            encoded matches Ok(raw) ==> Self::encoding(self@) == Some(raw@) && Self::decoding(raw@)
                == Ok::<TaskRequestView, MalformedMessage>(self@),
    {
        proof {
            lemma_keys_differ();
        }
        encode_envelope("original_file", &self.original_file, self.variant_id.as_str())
    }
}

/// The result of a job: the encoded file and the identifier that its request
/// carried.
#[derive(Clone, Debug, PartialEq, Eq)]
pub struct TaskResponse {
    pub variant_file: Vec<u8>,
    pub variant_id: String,
}

/// A [`TaskResponse`] as plain values.
pub struct TaskResponseView {
    pub variant_file: Seq<u8>,
    pub variant_id: Seq<char>,
}

impl View for TaskResponse {
    type V = TaskResponseView;

    open spec fn view(&self) -> TaskResponseView {
        TaskResponseView { variant_file: self.variant_file@, variant_id: self.variant_id@ }
    }
}

impl TaskResponse {
    /// The key of the member that carries the file.
    pub open spec fn file_key() -> Seq<char> {
        "variant_file"@
    }

    /// The response that an envelope carries.
    pub open spec fn decoding(raw: Seq<u8>) -> Result<TaskResponseView, MalformedMessage> {
        match envelope_decoding(raw, Self::file_key()) {
            Ok(parts) => Ok(TaskResponseView { variant_file: parts.0, variant_id: parts.1 }),
            Err(reason) => Err(reason),
        }
    }

    /// The envelope of a response; `None` where the JSON serializer refuses
    /// it.
    pub open spec fn encoding(response: TaskResponseView) -> Option<Seq<u8>> {
        envelope_encoding(Self::file_key(), response.variant_file, response.variant_id)
    }

    /// Reads a response from the bytes of a message: a JSON object with the
    /// text members `variant_file`, in base64, and `variant_id`. Other
    /// members are passed over.
    pub fn from_slice(raw: &[u8]) -> (decoded: Result<TaskResponse, MalformedMessage>)
        ensures
            decoded matches Ok(response) ==> Self::decoding(raw@) == Ok::<
                TaskResponseView,
                MalformedMessage,
            >(response@),
            decoded matches Err(reason) ==> Self::decoding(raw@) == Err::<
                TaskResponseView,
                MalformedMessage,
            >(reason),
    {
        match decode_envelope(raw, "variant_file") {
            Ok(parts) => Ok(TaskResponse { variant_file: parts.0, variant_id: parts.1 }),
            Err(reason) => Err(reason),
        }
    }

    /// Writes the response as the bytes of a message. What comes out reads
    /// back, with [`TaskResponse::from_slice`], as this response.
    pub fn to_vec(&self) -> (encoded: Result<Vec<u8>, Unrepresentable>)
        ensures
            encoded is Ok <==> Self::encoding(self@) is Some,
            encoded matches Ok(raw) ==> Self::encoding(self@) == Some(raw@) && Self::decoding(raw@)
                == Ok::<TaskResponseView, MalformedMessage>(self@),
    {
        proof {
            lemma_keys_differ();
        }
        encode_envelope("variant_file", &self.variant_file, self.variant_id.as_str())
    }
}

/// Neither file key is the key of the identifier.
proof fn lemma_keys_differ()
    ensures
        TaskRequest::file_key() != variant_id_key(),
        TaskResponse::file_key() != variant_id_key(),
{
    reveal_strlit("original_file");
    reveal_strlit("variant_file");
    reveal_strlit("variant_id");
    assert("original_file"@.len() == 13);
    assert("variant_file"@.len() == 12);
    assert("variant_id"@.len() == 10);
}

} // verus!
