//! Selecting the one backend of the running platform, once.

use vstd::prelude::*;

use crate::android::{with_jni_env, AndroidBridge, NativeCall};
use crate::desktop;
use crate::error::Error;
use crate::mobile;
use crate::mobile::PluginCall;
use crate::models::PlayFullscreenValue;

verus! {

/// The platform the process runs on.
#[derive(Clone, Copy, Debug, PartialEq, Eq, Structural)]
pub enum Platform {
    Desktop,
    Android,
    Ios,
}

/// What was found of the native side at startup.
#[derive(Debug)]
pub enum NativeCounterpart {
    /// Nothing: no runtime with the player class, no binding.
    Absent,
    /// A managed runtime that holds the player class.
    ManagedRuntime(AndroidBridge),
    /// A registered native binding.
    Binding(mobile::Streamlockerplayer),
}

/// The backend of one platform.
#[derive(Debug)]
pub enum Backend {
    Desktop(desktop::Streamlockerplayer),
    AndroidBridge(AndroidBridge),
    IosBridge(mobile::Streamlockerplayer),
}

/// Where a command goes, decided before anything is done about it.
#[derive(Debug)]
pub enum Routed {
    /// Nowhere: the payload was rejected, and no backend is asked.
    Rejected(Error),
    /// To the desktop stub, which does nothing; the text is the line to log.
    Stub(&'static str),
    /// To the Android bridge, as this call into the player class.
    Native(NativeCall),
    /// To the native binding, as this call to forward.
    Forward(PluginCall),
}

/// How far a command was taken: to its outcome, to the success of the
/// desktop stub with its line to log, or to the call that the owner of the
/// native binding has to make.
#[derive(Debug)]
pub enum Dispatch {
    Completed(Result<(), Error>),
    Stubbed(&'static str),
    Forward(PluginCall),
}

impl Dispatch {
    /// The outcome of the command, where it is known: a forwarded call has
    /// none yet, and the desktop stub always succeeds.
    pub open spec fn outcome_of(self) -> Option<Result<(), Error>> {
        match self {
            Dispatch::Completed(outcome) => Some(outcome),
            Dispatch::Stubbed(_) => Some(Ok(())),
            Dispatch::Forward(_) => None,
        }
    }

    pub fn outcome(self) -> (outcome: Option<Result<(), Error>>)
        ensures
            outcome == self.outcome_of(),
    {
        match self {
            Dispatch::Completed(outcome) => Some(outcome),
            Dispatch::Stubbed(_) => Some(Ok(())),
            Dispatch::Forward(_) => None,
        }
    }
}

/// The backend that answers for `platform`, given what was found of the
/// native side. The platform alone selects the variant; a mobile platform
/// without its own counterpart has no backend.
pub open spec fn resolved(platform: Platform, counterpart: NativeCounterpart) -> Result<
    Backend,
    Error,
> {
    match platform {
        Platform::Desktop => Ok(Backend::Desktop(desktop::Streamlockerplayer {  })),
        Platform::Android => match counterpart {
            NativeCounterpart::ManagedRuntime(bridge) => Ok(Backend::AndroidBridge(bridge)),
            _ => Err(Error::BackendUnavailable),
        },
        Platform::Ios => match counterpart {
            NativeCounterpart::Binding(binding) => Ok(Backend::IosBridge(binding)),
            _ => Err(Error::BackendUnavailable),
        },
    }
}

/// Selects the backend of `platform`.
pub fn resolve(platform: Platform, counterpart: NativeCounterpart) -> (r: Result<Backend, Error>)
    ensures
        r == resolved(platform, counterpart),
{
    match platform {
        Platform::Desktop => match desktop::init() {
            Ok(player) => Ok(Backend::Desktop(player)),
            Err(error) => Err(error),
        },
        Platform::Android => match counterpart {
            NativeCounterpart::ManagedRuntime(bridge) => Ok(Backend::AndroidBridge(bridge)),
            _ => Err(Error::BackendUnavailable),
        },
        Platform::Ios => match counterpart {
            NativeCounterpart::Binding(binding) => Ok(Backend::IosBridge(binding)),
            _ => Err(Error::BackendUnavailable),
        },
    }
}

impl Backend {
    /// The platform this backend belongs to.
    pub open spec fn platform_of(self) -> Platform {
        match self {
            Backend::Desktop(_) => Platform::Desktop,
            Backend::AndroidBridge(_) => Platform::Android,
            Backend::IosBridge(_) => Platform::Ios,
        }
    }

    pub fn platform(&self) -> (platform: Platform)
        ensures
            platform == self.platform_of(),
    {
        match self {
            Backend::Desktop(_) => Platform::Desktop,
            Backend::AndroidBridge(_) => Platform::Android,
            Backend::IosBridge(_) => Platform::Ios,
        }
    }

    /// Where `play_fullscreen` of `payload` goes on this backend: to the stub
    /// with its notice, to the player class as the launch of the payload's
    /// stream, or to the binding as the operation that plays it.
    pub fn route_play_fullscreen(&self, payload: PlayFullscreenValue) -> (routed: Routed)
        ensures
            match *self {
                Backend::Desktop(_) => routed matches Routed::Stub(notice) && notice@
                    == desktop::play_fullscreen_notice_text(),
                Backend::AndroidBridge(_) => routed == Routed::Native(
                    NativeCall::LaunchPlayer(payload.stream_url),
                ),
                Backend::IosBridge(_) => routed == Routed::Forward(
                    PluginCall::PlayFullscreen(payload),
                ),
            },
    {
        match self {
            Backend::Desktop(player) => Routed::Stub(player.play_fullscreen_notice()),
            Backend::AndroidBridge(bridge) => Routed::Native(bridge.play_fullscreen_call(payload)),
            Backend::IosBridge(binding) => Routed::Forward(binding.play_fullscreen(payload)),
        }
    }

    /// Where `force_stop` goes on this backend: to the stub with its notice,
    /// to the player class as the stop broadcast, or to the binding as the
    /// operation that stops.
    pub fn route_force_stop(&self) -> (routed: Routed)
        ensures
            match *self {
                Backend::Desktop(_) => routed matches Routed::Stub(notice) && notice@
                    == desktop::force_stop_notice_text(),
                Backend::AndroidBridge(_) => routed == Routed::Native(
                    NativeCall::BroadcastStopPlayer,
                ),
                Backend::IosBridge(_) => routed == Routed::Forward(PluginCall::ForceStop),
            },
    {
        match self {
            Backend::Desktop(player) => Routed::Stub(player.force_stop_notice()),
            Backend::AndroidBridge(bridge) => Routed::Native(bridge.force_stop_call()),
            Backend::IosBridge(binding) => Routed::Forward(binding.force_stop()),
        }
    }

    /// Takes a routed command as far as this backend can. A rejection, the
    /// stub's notice and a call to forward pass through unchanged. A native
    /// call is made on the Android bridge, and its failure is a
    /// `NativeCallFailure`; any other backend has no runtime to make it on.
    pub fn complete(&self, routed: Routed) -> (d: Dispatch)
        ensures
            match routed {
                Routed::Rejected(error) => d == Dispatch::Completed(Err(error)),
                Routed::Stub(notice) => d == Dispatch::Stubbed(notice),
                Routed::Forward(call) => d == Dispatch::Forward(call),
                Routed::Native(_) => match *self {
                    Backend::AndroidBridge(_) => d matches Dispatch::Completed(outcome) && (
                    outcome matches Err(error) ==> error is NativeCallFailure),
                    _ => d == Dispatch::Completed(Err(Error::BackendUnavailable)),
                },
            },
    {
        match routed {
            Routed::Rejected(error) => Dispatch::Completed(Err(error)),
            Routed::Stub(notice) => Dispatch::Stubbed(notice),
            Routed::Forward(call) => Dispatch::Forward(call),
            Routed::Native(call) => match self {
                Backend::AndroidBridge(bridge) => Dispatch::Completed(
                    with_jni_env(&bridge.vm, &bridge.activity, &call),
                ),
                _ => Dispatch::Completed(Err(Error::BackendUnavailable)),
            },
        }
    }

    /// Plays `payload` fullscreen: routes the command and takes it as far as
    /// this backend can.
    pub fn play_fullscreen(&self, payload: PlayFullscreenValue) -> (d: Dispatch)
        ensures
            match *self {
                Backend::Desktop(_) => d matches Dispatch::Stubbed(notice) && notice@
                    == desktop::play_fullscreen_notice_text(),
                Backend::AndroidBridge(_) => d matches Dispatch::Completed(outcome) && (
                outcome matches Err(error) ==> error is NativeCallFailure),
                Backend::IosBridge(_) => d == Dispatch::Forward(
                    PluginCall::PlayFullscreen(payload),
                ),
            },
    {
        let routed = self.route_play_fullscreen(payload);
        self.complete(routed)
    }

    /// Stops playback: routes the command and takes it as far as this backend
    /// can.
    pub fn force_stop(&self) -> (d: Dispatch)
        ensures
            match *self {
                Backend::Desktop(_) => d matches Dispatch::Stubbed(notice) && notice@
                    == desktop::force_stop_notice_text(),
                Backend::AndroidBridge(_) => d matches Dispatch::Completed(outcome) && (
                outcome matches Err(error) ==> error is NativeCallFailure),
                Backend::IosBridge(_) => d == Dispatch::Forward(PluginCall::ForceStop),
            },
    {
        let routed = self.route_force_stop();
        self.complete(routed)
    }
}

/// The active backend, fixed for the life of the process. A handle exists
/// only where a backend was resolved, and it is never given another one.
#[derive(Debug)]
pub struct BackendHandle {
    backend: Backend,
}

impl BackendHandle {
    /// The backend behind the handle.
    pub closed spec fn active(self) -> Backend {
        self.backend
    }

    pub fn backend(&self) -> (backend: &Backend)
        ensures
            *backend == self.active(),
    {
        &self.backend
    }
}

/// Resolves the backend of `platform` and hands out the handle to it. On a
/// mobile platform whose native counterpart is missing this fails with
/// `BackendUnavailable`, and there is no handle.
pub fn init(platform: Platform, counterpart: NativeCounterpart) -> (r: Result<BackendHandle, Error>)
    ensures
        match resolved(platform, counterpart) {
            Ok(backend) => r matches Ok(handle) && handle.active() == backend,
            Err(error) => r == Err::<BackendHandle, Error>(error),
        },
{
    match resolve(platform, counterpart) {
        Ok(backend) => Ok(BackendHandle { backend }),
        Err(error) => Err(error),
    }
}

/// The place that holds the handle: empty until an initialization succeeds,
/// and from then on unchanged.
#[derive(Debug)]
pub struct PlatformResolver {
    handle: Option<BackendHandle>,
}

impl PlatformResolver {
    /// The backend that was resolved, if one was.
    pub closed spec fn active(self) -> Option<Backend> {
        match self.handle {
            Some(handle) => Some(handle.active()),
            None => None,
        }
    }

    /// What an initialization makes of a resolver: one that holds a backend
    /// keeps it; an empty one takes the backend that is resolved, and stays
    /// empty where none is.
    pub open spec fn after_initialize(
        before: Option<Backend>,
        platform: Platform,
        counterpart: NativeCounterpart,
    ) -> Option<Backend> {
        match before {
            Some(backend) => Some(backend),
            None => match resolved(platform, counterpart) {
                Ok(backend) => Some(backend),
                Err(_) => None,
            },
        }
    }

    /// A resolver that has resolved nothing yet.
    pub fn new() -> (resolver: PlatformResolver)
        ensures
            resolver.active() is None,
    {
        PlatformResolver { handle: None }
    }

    /// Resolves the backend of `platform`, unless one is held already: then
    /// nothing is constructed and the call succeeds. A failure leaves the
    /// resolver empty.
    pub fn initialize(&mut self, platform: Platform, counterpart: NativeCounterpart) -> (r: Result<
        (),
        Error,
    >)
        ensures
            final(self).active() == Self::after_initialize(
                old(self).active(),
                platform,
                counterpart,
            ),
            old(self).active() is Some ==> r is Ok,
            old(self).active() is None ==> match resolved(platform, counterpart) {
                Ok(_) => r is Ok,
                Err(error) => r == Err::<(), Error>(error),
            },
    {
        if self.handle.is_some() {
            return Ok(());
        }
        match init(platform, counterpart) {
            Ok(handle) => {
                self.handle = Some(handle);
                Ok(())
            },
            Err(error) => Err(error),
        }
    }

    /// The handle for the router: there once an initialization has succeeded.
    pub fn handle(&self) -> (handle: Option<&BackendHandle>)
        ensures
            match handle {
                Some(held) => self.active() == Some(held.active()),
                None => self.active() is None,
            },
    {
        self.handle.as_ref()
    }
}

/// The singleton law: once a backend is held, no later initialization
/// replaces it, whatever platform and counterpart it is given.
pub proof fn lemma_initialized_once(
    before: Option<Backend>,
    first_platform: Platform,
    first: NativeCounterpart,
    second_platform: Platform,
    second: NativeCounterpart,
)
    ensures
        ({
            let once = PlatformResolver::after_initialize(before, first_platform, first);
            let twice = PlatformResolver::after_initialize(once, second_platform, second);
            once is Some ==> twice == once
        }),
{
}

/// A mobile platform without its native counterpart resolves to nothing:
/// initialization fails with `BackendUnavailable` and an empty resolver stays
/// empty, so that there is no handle to call a command with.
pub proof fn lemma_absent_counterpart_unavailable(platform: Platform)
    requires
        platform != Platform::Desktop,
    ensures
        resolved(platform, NativeCounterpart::Absent) == Err::<Backend, Error>(
            Error::BackendUnavailable,
        ),
        PlatformResolver::after_initialize(None, platform, NativeCounterpart::Absent) is None,
{
}

/// Resolution is static: the variant that is resolved is that of the
/// platform, whatever else is handed in.
pub proof fn lemma_resolution_follows_platform(platform: Platform, counterpart: NativeCounterpart)
    ensures
        resolved(platform, counterpart) matches Ok(backend) ==> backend.platform_of() == platform,
{
}

} // verus!
