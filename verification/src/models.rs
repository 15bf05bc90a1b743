//! The typed requests and responses that cross the boundary between the host
//! and the bridge.

use vstd::prelude::*;

use crate::error::Error;

verus! {

/// The text a possibly absent string stands for.
pub open spec fn text_of(value: Option<String>) -> Option<Seq<char>> {
    match value {
        Some(text) => Some(text@),
        None => None,
    }
}

/// The payload of the diagnostic `ping` command.
#[derive(Clone, Debug, PartialEq, Eq)]
pub struct PingValue {
    pub value: Option<String>,
}

/// The `ping` command as the host sends it.
#[derive(Clone, Debug, PartialEq, Eq)]
pub struct PingRequest {
    pub payload: PingValue,
}

/// The answer to a `ping`: the value that came in.
#[derive(Clone, Debug, PartialEq, Eq)]
pub struct PingResponse {
    pub value: Option<String>,
}

/// The payload of the `playFullscreen` command: the stream to play.
#[derive(Clone, Debug, PartialEq, Eq)]
pub struct PlayFullscreenValue {
    pub stream_url: String,
}

/// The `playFullscreen` command as the host sends it.
#[derive(Clone, Debug, PartialEq, Eq)]
pub struct PlayFullscreenRequest {
    pub payload: PlayFullscreenValue,
}

/// The empty answer of a command that returns no data.
#[derive(Clone, Copy, Debug, PartialEq, Eq, Structural)]
pub struct CommandResponse {}

impl Default for PingResponse {
    fn default() -> (r: PingResponse)
        ensures
            r.value is None,
    {
        PingResponse { value: None }
    }
}

impl Default for CommandResponse {
    fn default() -> (r: CommandResponse)
        ensures
            r == (CommandResponse {}),
    {
        CommandResponse {}
    }
}

impl PingValue {
    /// Hands the value back unchanged.
    pub fn echo(self) -> (r: PingResponse)
        ensures
            r.value == self.value,
    {
        PingResponse { value: self.value }
    }
}

impl PlayFullscreenValue {
    /// A stream can be handed to a backend only if it is named at all.
    pub open spec fn is_playable(self) -> bool {
        self.stream_url@.len() > 0
    }
}

impl PlayFullscreenRequest {
    /// Releases the payload for dispatch, or rejects a request that names no
    /// stream.
    pub fn validate(self) -> (r: Result<PlayFullscreenValue, Error>)
        ensures
            self.payload.is_playable() ==> r == Ok::<PlayFullscreenValue, Error>(self.payload),
            !self.payload.is_playable() ==> r == Err::<PlayFullscreenValue, Error>(
                Error::ValidationError,
            ),
    {
        if self.payload.stream_url.as_str().is_empty() {
            Err(Error::ValidationError)
        } else {
            Ok(self.payload)
        }
    }
}

} // verus!
