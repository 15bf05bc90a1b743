//! The desktop backend. No native player is assumed on a desktop, so every
//! playback command succeeds without doing anything.

use vstd::prelude::*;

use crate::error::Error;
use crate::models::{PingResponse, PingValue, PlayFullscreenValue};

verus! {

/// Access to the playback commands on desktop.
#[derive(Clone, Copy, Debug, PartialEq, Eq, Structural)]
pub struct Streamlockerplayer {}

/// Sets the desktop backend up. There is nothing it could lack.
pub fn init() -> (r: Result<Streamlockerplayer, Error>)
    ensures
        r == Ok::<Streamlockerplayer, Error>(Streamlockerplayer {}),
{
    Ok(Streamlockerplayer {})
}

/// What the host is told when `play_fullscreen` reaches the desktop backend.
pub open spec fn play_fullscreen_notice_text() -> Seq<char> {
    "'play_fullscreen' is only available on mobile."@
}

/// What the host is told when `force_stop` reaches the desktop backend.
pub open spec fn force_stop_notice_text() -> Seq<char> {
    "'force_stop' is only available on mobile."@
}

impl Streamlockerplayer {
    /// Answers with the value that came in.
    pub fn ping(&self, payload: PingValue) -> (r: Result<PingResponse, Error>)
        ensures
            r matches Ok(response) && response.value == payload.value,
    {
        Ok(payload.echo())
    }

    /// Succeeds for every stream, playing nothing.
    pub fn play_fullscreen(&self, payload: PlayFullscreenValue) -> (r: Result<(), Error>)
        ensures
            r == Ok::<(), Error>(()),
    {
        Ok(())
    }

    /// Succeeds, stopping nothing.
    pub fn force_stop(&self) -> (r: Result<(), Error>)
        ensures
            r == Ok::<(), Error>(()),
    {
        Ok(())
    }

    /// The line to log for a `play_fullscreen` that this backend took.
    pub fn play_fullscreen_notice(&self) -> (text: &'static str)
        ensures
            text@ == play_fullscreen_notice_text(),
    {
        "'play_fullscreen' is only available on mobile."
    }

    /// The line to log for a `force_stop` that this backend took.
    pub fn force_stop_notice(&self) -> (text: &'static str)
        ensures
            text@ == force_stop_notice_text(),
    {
        "'force_stop' is only available on mobile."
    }
}

} // verus!
