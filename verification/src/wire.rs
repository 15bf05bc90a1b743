//! The shape of a payload on the wire: an object of named fields, one level
//! deep.
//!
//! Field names are lower camel case whatever the Rust side calls them. A field
//! that a command does not know is passed over; where a name occurs twice,
//! the later field decides.

use vstd::prelude::*;

use crate::error::Error;
use crate::models::{
    text_of, CommandResponse, PingRequest, PingResponse, PingValue, PlayFullscreenRequest,
    PlayFullscreenValue,
};

verus! {

/// What a command can read of one field's value: text, the explicit null, or
/// anything else.
#[derive(Clone, Debug, PartialEq, Eq)]
pub enum WireValue {
    Null,
    Text(String),
    Other,
}

/// One named field of a payload.
#[derive(Clone, Debug, PartialEq, Eq)]
pub struct WireField {
    pub name: String,
    pub value: WireValue,
}

/// A payload as it arrives: an object of named fields, or anything else
/// (text, a number, a list, null), of which no command can read a field.
#[derive(Clone, Debug, PartialEq, Eq)]
pub enum Payload {
    Object(Vec<WireField>),
    Other,
}

/// The wire name of the stream to play.
pub open spec fn stream_url_key() -> Seq<char> {
    "streamUrl"@
}

/// The wire name of the value that `ping` echoes.
pub open spec fn value_key() -> Seq<char> {
    "value"@
}

/// The value that `fields` gives to `name`: that of the last field so named.
pub open spec fn lookup(fields: Seq<WireField>, name: Seq<char>) -> Option<WireValue>
    decreases fields.len(),
{
    if fields.len() == 0 {
        None
    } else if fields.last().name@ == name {
        Some(fields.last().value)
    } else {
        lookup(fields.drop_last(), name)
    }
}

/// The stream that a `playFullscreen` payload names, if it names one as text.
pub open spec fn stream_url_in(fields: Seq<WireField>) -> Option<Seq<char>> {
    match lookup(fields, stream_url_key()) {
        Some(WireValue::Text(url)) => Some(url@),
        _ => None,
    }
}

/// What a `ping` payload asks to have echoed: `Ok` with the text or with
/// nothing (field absent or null), `Err` where the field holds something that
/// is neither.
pub open spec fn ping_value_in(fields: Seq<WireField>) -> Result<Option<Seq<char>>, ()> {
    match lookup(fields, value_key()) {
        None => Ok(None),
        Some(WireValue::Null) => Ok(None),
        Some(WireValue::Text(text)) => Ok(Some(text@)),
        Some(WireValue::Other) => Err(()),
    }
}

impl Payload {
    /// The stream that a `playFullscreen` payload names: none where the
    /// payload is no object.
    pub open spec fn stream_url(self) -> Option<Seq<char>> {
        match self {
            Payload::Object(fields) => stream_url_in(fields@),
            Payload::Other => None,
        }
    }

    /// What a `ping` payload asks to have echoed: `Err` where the payload is
    /// no object.
    pub open spec fn ping_value(self) -> Result<Option<Seq<char>>, ()> {
        match self {
            Payload::Object(fields) => ping_value_in(fields@),
            Payload::Other => Err(()),
        }
    }
}

/// The fields a `ping` response is sent as: `value` alone, as text or null.
pub open spec fn ping_response_fields(value: Option<Seq<char>>, fields: Seq<WireField>) -> bool {
    &&& fields.len() == 1
    &&& fields[0].name@ == value_key()
    &&& match value {
        Some(text) => fields[0].value matches WireValue::Text(sent) && sent@ == text,
        None => fields[0].value is Null,
    }
}

/// Reads the value of the field `name`.
pub fn find<'a>(fields: &'a Vec<WireField>, name: &str) -> (found: Option<&'a WireValue>)
    ensures
        match found {
            Some(value) => lookup(fields@, name@) == Some(*value),
            None => lookup(fields@, name@) is None,
        },
{
    let key = name.to_owned();
    let mut at: usize = fields.len();
    proof {
        assert(fields@.take(at as int) =~= fields@);
    }
    while at > 0
        invariant
            at <= fields.len(),
            key@ == name@,
            lookup(fields@, name@) == lookup(fields@.take(at as int), name@),
        decreases at,
    {
        let ghost prefix = fields@.take(at as int);
        at = at - 1;
        proof {
            assert(prefix.last() == fields@[at as int]);
            assert(prefix.drop_last() =~= fields@.take(at as int));
        }
        if fields[at].name == key {
            return Some(&fields[at].value);
        }
    }
    proof {
        assert(fields@.take(0).len() == 0);
    }
    None
}

impl PlayFullscreenRequest {
    /// Decodes a `playFullscreen` payload. It must be an object whose field
    /// `streamUrl` holds text; other fields are passed over.
    pub fn decode(payload: &Payload) -> (r: Result<PlayFullscreenRequest, Error>)
        ensures
            match payload.stream_url() {
                Some(url) => r matches Ok(request) && request.payload.stream_url@ == url,
                None => r == Err::<PlayFullscreenRequest, Error>(Error::ValidationError),
            },
    {
        let fields = match payload {
            Payload::Object(fields) => fields,
            Payload::Other => {
                return Err(Error::ValidationError);
            },
        };
        match find(fields, "streamUrl") {
            Some(WireValue::Text(url)) => Ok(
                PlayFullscreenRequest { payload: PlayFullscreenValue { stream_url: url.clone() } },
            ),
            _ => Err(Error::ValidationError),
        }
    }
}

impl PingRequest {
    /// Decodes a `ping` payload. It must be an object; its field `value` may
    /// be absent or null, and if it is there it must hold text.
    pub fn decode(payload: &Payload) -> (r: Result<PingRequest, Error>)
        ensures
            match payload.ping_value() {
                Ok(value) => r matches Ok(request) && text_of(request.payload.value) == value,
                Err(_) => r == Err::<PingRequest, Error>(Error::SerializationFailure),
            },
    {
        let fields = match payload {
            Payload::Object(fields) => fields,
            Payload::Other => {
                return Err(Error::SerializationFailure);
            },
        };
        match find(fields, "value") {
            None => Ok(PingRequest { payload: PingValue { value: None } }),
            Some(WireValue::Null) => Ok(PingRequest { payload: PingValue { value: None } }),
            Some(WireValue::Text(text)) => Ok(
                PingRequest { payload: PingValue { value: Some(text.clone()) } },
            ),
            Some(WireValue::Other) => Err(Error::SerializationFailure),
        }
    }
}

impl PingResponse {
    /// The response as it is sent: an object of the one field `value`, null
    /// where there is nothing to echo.
    pub fn encode(&self) -> (payload: Payload)
        ensures
            payload matches Payload::Object(fields) && ping_response_fields(
                text_of(self.value),
                fields@,
            ),
    {
        let value = match &self.value {
            Some(text) => WireValue::Text(text.clone()),
            None => WireValue::Null,
        };
        let mut fields: Vec<WireField> = Vec::new();
        fields.push(WireField { name: "value".to_owned(), value });
        Payload::Object(fields)
    }
}

impl CommandResponse {
    /// Decodes the answer of a command that returns no data: whatever came
    /// with it is passed over.
    pub fn decode(payload: &Payload) -> (r: CommandResponse)
        ensures
            r == (CommandResponse {}),
    {
        CommandResponse {}
    }
}

/// A field of another name changes nothing about what `name` is given,
/// wherever in the payload it stands.
pub proof fn lemma_other_field_ignored(
    fields: Seq<WireField>,
    at: int,
    extra: WireField,
    name: Seq<char>,
)
    requires
        0 <= at <= fields.len(),
        extra.name@ != name,
    ensures
        lookup(fields.insert(at, extra), name) == lookup(fields, name),
    decreases fields.len() - at,
{
    let longer = fields.insert(at, extra);
    if at == fields.len() {
        assert(longer.last() == extra);
        assert(longer.drop_last() =~= fields);
    } else {
        assert(longer.last() == fields.last());
        assert(longer.drop_last() =~= fields.drop_last().insert(at, extra));
        if fields.last().name@ != name {
            lemma_other_field_ignored(fields.drop_last(), at, extra, name);
        }
    }
}

/// Unknown fields are tolerated: adding one to a `playFullscreen` payload
/// leaves the stream it names unchanged.
pub proof fn lemma_play_fullscreen_tolerates_unknown_field(
    fields: Seq<WireField>,
    at: int,
    extra: WireField,
)
    requires
        0 <= at <= fields.len(),
        extra.name@ != stream_url_key(),
    ensures
        stream_url_in(fields.insert(at, extra)) == stream_url_in(fields),
{
    lemma_other_field_ignored(fields, at, extra, stream_url_key());
}

/// Unknown fields are tolerated: adding one to a `ping` payload leaves the
/// value to echo unchanged.
pub proof fn lemma_ping_tolerates_unknown_field(fields: Seq<WireField>, at: int, extra: WireField)
    requires
        0 <= at <= fields.len(),
        extra.name@ != value_key(),
    ensures
        ping_value_in(fields.insert(at, extra)) == ping_value_in(fields),
{
    lemma_other_field_ignored(fields, at, extra, value_key());
}

/// A payload without the field `streamUrl` names no stream.
pub proof fn lemma_missing_stream_url(fields: Seq<WireField>)
    requires
        forall|i: int| 0 <= i < fields.len() ==> (#[trigger] fields[i]).name@ != stream_url_key(),
    ensures
        stream_url_in(fields) is None,
{
    lemma_absent_field(fields, stream_url_key());
}

/// A name that no field carries is given no value.
pub proof fn lemma_absent_field(fields: Seq<WireField>, name: Seq<char>)
    requires
        forall|i: int| 0 <= i < fields.len() ==> (#[trigger] fields[i]).name@ != name,
    ensures
        lookup(fields, name) is None,
    decreases fields.len(),
{
    if fields.len() > 0 {
        lemma_absent_field(fields.drop_last(), name);
    }
}

/// The round trip of `ping`: a response, sent and read back as a payload,
/// asks for exactly the value it carried. This holds of every text, the empty
/// one and text outside ASCII included, and of the absent value.
pub proof fn lemma_ping_round_trip(value: Option<Seq<char>>, fields: Seq<WireField>)
    requires
        ping_response_fields(value, fields),
    ensures
        ping_value_in(fields) == Ok::<Option<Seq<char>>, ()>(value),
{
    assert(fields.last() == fields[0]);
}

} // verus!
