//! The commands the host can call. Each one decodes its payload, checks it,
//! and only then hands it to the backend behind the handle.

use vstd::prelude::*;

use crate::android::NativeCall;
use crate::desktop;
use crate::error::Error;
use crate::mobile::PluginCall;
use crate::models::{text_of, PingRequest, PingResponse, PlayFullscreenRequest};
use crate::resolver::{Backend, BackendHandle, Dispatch, Routed};
use crate::wire::{stream_url_key, Payload, WireField};

verus! {

/// The stream that a payload asks to play: the text of its `streamUrl`,
/// unless the payload is no object or the field is missing, not text, or
/// empty.
pub open spec fn playable_stream_in(payload: Payload) -> Option<Seq<char>> {
    match payload.stream_url() {
        Some(url) => if url.len() > 0 {
            Some(url)
        } else {
            None
        },
        None => None,
    }
}

/// Where `playFullscreen` goes: nowhere for a payload that names no stream,
/// whatever the backend; else to the backend behind the handle, with exactly
/// the stream that the payload names.
pub fn route_play_fullscreen(handle: &BackendHandle, payload: &Payload) -> (routed: Routed)
    ensures
        match playable_stream_in(*payload) {
            None => routed == Routed::Rejected(Error::ValidationError),
            Some(url) => match handle.active() {
                Backend::Desktop(_) => routed matches Routed::Stub(notice) && notice@
                    == desktop::play_fullscreen_notice_text(),
                Backend::AndroidBridge(_) => routed matches Routed::Native(
                    NativeCall::LaunchPlayer(text),
                ) && text@ == url,
                Backend::IosBridge(_) => routed matches Routed::Forward(
                    PluginCall::PlayFullscreen(value),
                ) && value.stream_url@ == url,
            },
        },
{
    let request = match PlayFullscreenRequest::decode(payload) {
        Ok(request) => request,
        Err(error) => {
            return Routed::Rejected(error);
        },
    };
    match request.validate() {
        Ok(value) => handle.backend().route_play_fullscreen(value),
        Err(error) => Routed::Rejected(error),
    }
}

/// Where `forceStop` goes: to the backend behind the handle. It takes no
/// payload and is never rejected.
pub fn route_force_stop(handle: &BackendHandle) -> (routed: Routed)
    ensures
        match handle.active() {
            Backend::Desktop(_) => routed matches Routed::Stub(notice) && notice@
                == desktop::force_stop_notice_text(),
            Backend::AndroidBridge(_) => routed == Routed::Native(NativeCall::BroadcastStopPlayer),
            Backend::IosBridge(_) => routed == Routed::Forward(PluginCall::ForceStop),
        },
{
    handle.backend().route_force_stop()
}

/// `playFullscreen`: plays the stream that the payload names.
///
/// A payload that names no stream is answered with `ValidationError`,
/// whatever the backend, and the backend is not asked. Any other payload goes
/// to the backend with exactly the stream it names.
pub fn play_fullscreen(handle: &BackendHandle, payload: &Payload) -> (d: Dispatch)
    ensures
        match playable_stream_in(*payload) {
            None => d == Dispatch::Completed(Err(Error::ValidationError)),
            Some(url) => match handle.active() {
                Backend::Desktop(_) => d matches Dispatch::Stubbed(notice) && notice@
                    == desktop::play_fullscreen_notice_text(),
                Backend::AndroidBridge(_) => d matches Dispatch::Completed(outcome) && (
                outcome matches Err(error) ==> error is NativeCallFailure),
                Backend::IosBridge(_) => d matches Dispatch::Forward(
                    PluginCall::PlayFullscreen(value),
                ) && value.stream_url@ == url,
            },
        },
{
    let routed = route_play_fullscreen(handle, payload);
    handle.backend().complete(routed)
}

/// `forceStop`: stops playback. It takes no payload and is never rejected
/// before it reaches the backend.
pub fn force_stop(handle: &BackendHandle) -> (d: Dispatch)
    ensures
        match handle.active() {
            Backend::Desktop(_) => d matches Dispatch::Stubbed(notice) && notice@
                == desktop::force_stop_notice_text(),
            Backend::AndroidBridge(_) => d matches Dispatch::Completed(outcome) && (
            outcome matches Err(error) ==> error is NativeCallFailure),
            Backend::IosBridge(_) => d == Dispatch::Forward(PluginCall::ForceStop),
        },
{
    let routed = route_force_stop(handle);
    handle.backend().complete(routed)
}

/// `ping`: answers with the value of the payload, on every platform alike
/// and without asking any backend.
pub fn ping(payload: &Payload) -> (r: Result<PingResponse, Error>)
    ensures
        match payload.ping_value() {
            Ok(value) => r matches Ok(response) && text_of(response.value) == value,
            Err(_) => r == Err::<PingResponse, Error>(Error::SerializationFailure),
        },
{
    match PingRequest::decode(payload) {
        Ok(request) => Ok(request.payload.echo()),
        Err(error) => Err(error),
    }
}

/// An object that lacks the field `streamUrl` asks for no stream, so that
/// `play_fullscreen` answers it with `ValidationError` on every backend.
pub proof fn lemma_missing_stream_url_rejected(fields: Vec<WireField>)
    requires
        forall|i: int| 0 <= i < fields@.len() ==> (#[trigger] fields@[i]).name@ != stream_url_key(),
    ensures
        playable_stream_in(Payload::Object(fields)) is None,
{
    crate::wire::lemma_missing_stream_url(fields@);
}

/// A payload that is no object asks for no stream and for no echo.
pub proof fn lemma_no_object_rejected()
    ensures
        playable_stream_in(Payload::Other) is None,
        Payload::Other.ping_value() is Err,
{
}

} // verus!
