//! The backend that forwards through a native binding registered at startup
//! (the iOS bridge). The bridge decides which operation is forwarded with
//! which payload; the caller that owns the binding performs the call and
//! hands the answer back to [`settle`].

use vstd::prelude::*;

use crate::error::Error;
use crate::models::{CommandResponse, PingResponse, PingValue, PlayFullscreenValue};

verus! {

/// One call to forward through the binding.
#[derive(Clone, Debug, PartialEq, Eq)]
pub enum PluginCall {
    PlayFullscreen(PlayFullscreenValue),
    ForceStop,
}

impl PluginCall {
    /// The operation's name on the native side.
    pub open spec fn operation_name(self) -> Seq<char> {
        match self {
            PluginCall::PlayFullscreen(_) => "playFullscreen"@,
            PluginCall::ForceStop => "forceStop"@,
        }
    }

    pub fn operation(&self) -> (name: &'static str)
        ensures
            name@ == self.operation_name(),
    {
        match self {
            PluginCall::PlayFullscreen(_) => "playFullscreen",
            PluginCall::ForceStop => "forceStop",
        }
    }

    /// The payload that goes with the operation, if it takes one.
    pub fn payload(&self) -> (payload: Option<&PlayFullscreenValue>)
        ensures
            match payload {
                Some(value) => *self == PluginCall::PlayFullscreen(*value),
                None => *self == PluginCall::ForceStop,
            },
    {
        match self {
            PluginCall::PlayFullscreen(value) => Some(value),
            PluginCall::ForceStop => None,
        }
    }
}

/// Access to the playback commands through a registered native binding.
#[derive(Clone, Copy, Debug, PartialEq, Eq, Structural)]
pub struct Streamlockerplayer {}

/// Sets the binding backend up from the outcome of registering the binding.
/// Without a binding there is no backend.
pub fn init(registration: Result<(), String>) -> (r: Result<Streamlockerplayer, Error>)
    ensures
        registration is Ok ==> r == Ok::<Streamlockerplayer, Error>(Streamlockerplayer {}),
        registration is Err ==> r == Err::<Streamlockerplayer, Error>(Error::BackendUnavailable),
{
    match registration {
        Ok(_) => Ok(Streamlockerplayer {}),
        Err(_) => Err(Error::BackendUnavailable),
    }
}

/// The outcome of a forwarded call as the host sees it: the native answer is
/// dropped, a native failure keeps its text.
pub fn settle(outcome: Result<CommandResponse, String>) -> (r: Result<(), Error>)
    ensures
        outcome is Ok ==> r == Ok::<(), Error>(()),
        outcome matches Err(text) ==> r == Err::<(), Error>(Error::NativeCallFailure(text)),
{
    match outcome {
        Ok(_) => Error::from_native(Ok(())),
        Err(text) => Error::from_native(Err(text)),
    }
}

impl Streamlockerplayer {
    /// Answers with the value that came in, without asking the native side.
    pub fn ping(&self, payload: PingValue) -> (r: Result<PingResponse, Error>)
        ensures
            r matches Ok(response) && response.value == payload.value,
    {
        Ok(payload.echo())
    }

    /// The call that plays `payload`.
    pub fn play_fullscreen(&self, payload: PlayFullscreenValue) -> (call: PluginCall)
        ensures
            call == PluginCall::PlayFullscreen(payload),
    {
        PluginCall::PlayFullscreen(payload)
    }

    /// The call that stops playback.
    pub fn force_stop(&self) -> (call: PluginCall)
        ensures
            call == PluginCall::ForceStop,
    {
        PluginCall::ForceStop
    }
}

} // verus!
