//! The Android backend: playback control through two static methods of one
//! fixed class of the managed runtime.
//!
//! Every call attaches the calling thread for its own duration, looks the
//! class up, and invokes the method with the activity and, for playback, the
//! stream. A failure comes back with the native side's own text: the message
//! of the exception that was thrown, where there is one.

use jni::errors::Error as JniError;
use jni::objects::{GlobalRef, JClass, JString, JThrowable, JValue};
use jni::{AttachGuard, JavaVM};
use vstd::prelude::*;

use crate::error::Error;
use crate::models::PlayFullscreenValue;

verus! {

/// The class of the managed runtime that owns the player.
pub const PLAYER_CLASS: &'static str = "com/yeonv/streamlocker/PlayerPlugin";

/// The static method that launches the player on a stream.
pub const LAUNCH_PLAYER: &'static str = "launchPlayer";

/// `void launchPlayer(Activity, String)`.
pub const LAUNCH_PLAYER_SIGNATURE: &'static str = "(Landroid/app/Activity;Ljava/lang/String;)V";

/// The static method that tells the player to stop.
pub const BROADCAST_STOP_PLAYER: &'static str = "broadcastStopPlayer";

/// `void broadcastStopPlayer(Activity)`.
pub const BROADCAST_STOP_PLAYER_SIGNATURE: &'static str = "(Landroid/app/Activity;)V";

/// The method that gives a throwable's own message.
pub const GET_MESSAGE: &'static str = "getMessage";

/// The method that gives a throwable's description: its class and message.
pub const TO_STRING: &'static str = "toString";

/// `String getMessage()` and `String toString()`.
pub const TEXT_METHOD_SIGNATURE: &'static str = "()Ljava/lang/String;";

/// One call into the player class.
#[derive(Clone, Debug, PartialEq, Eq)]
pub enum NativeCall {
    /// Play the stream with this address.
    LaunchPlayer(String),
    /// Stop whatever plays.
    BroadcastStopPlayer,
}

/// The two entry points of the player class: a method's name, its signature,
/// and whether it takes the stream besides the activity.
pub open spec fn is_entry_point(name: Seq<char>, signature: Seq<char>, takes_stream: bool) -> bool {
    ||| name == LAUNCH_PLAYER@ && signature == LAUNCH_PLAYER_SIGNATURE@ && takes_stream
    ||| name == BROADCAST_STOP_PLAYER@ && signature == BROADCAST_STOP_PLAYER_SIGNATURE@
        && !takes_stream
}

/// The two methods that a throwable is asked for text with.
pub open spec fn is_text_method(name: Seq<char>, signature: Seq<char>) -> bool {
    (name == GET_MESSAGE@ || name == TO_STRING@) && signature == TEXT_METHOD_SIGNATURE@
}

impl NativeCall {
    /// The name of the static method that the call goes to.
    pub open spec fn method_name(self) -> Seq<char> {
        match self {
            NativeCall::LaunchPlayer(_) => LAUNCH_PLAYER@,
            NativeCall::BroadcastStopPlayer => BROADCAST_STOP_PLAYER@,
        }
    }

    /// The signature of that method.
    pub open spec fn signature_text(self) -> Seq<char> {
        match self {
            NativeCall::LaunchPlayer(_) => LAUNCH_PLAYER_SIGNATURE@,
            NativeCall::BroadcastStopPlayer => BROADCAST_STOP_PLAYER_SIGNATURE@,
        }
    }

    pub fn method(&self) -> (name: &'static str)
        ensures
            name@ == self.method_name(),
    {
        match self {
            NativeCall::LaunchPlayer(_) => LAUNCH_PLAYER,
            NativeCall::BroadcastStopPlayer => BROADCAST_STOP_PLAYER,
        }
    }

    pub fn signature(&self) -> (signature: &'static str)
        ensures
            signature@ == self.signature_text(),
    {
        match self {
            NativeCall::LaunchPlayer(_) => LAUNCH_PLAYER_SIGNATURE,
            NativeCall::BroadcastStopPlayer => BROADCAST_STOP_PLAYER_SIGNATURE,
        }
    }

    /// The stream handed to the method after the activity, if it takes one.
    pub fn stream_url(&self) -> (url: Option<&String>)
        ensures
            match url {
                Some(text) => *self == NativeCall::LaunchPlayer(*text),
                None => *self == NativeCall::BroadcastStopPlayer,
            },
    {
        match self {
            NativeCall::LaunchPlayer(text) => Some(text),
            NativeCall::BroadcastStopPlayer => None,
        }
    }
}

#[verifier::external_type_specification]
#[verifier::external_body]
pub struct ExJavaVM(jni::JavaVM);

#[verifier::external_type_specification]
#[verifier::external_body]
pub struct ExGlobalRef(jni::objects::GlobalRef);

#[verifier::external_type_specification]
#[verifier::external_body]
pub struct ExAttachGuard<'local>(jni::AttachGuard<'local>);

#[verifier::external_type_specification]
#[verifier::external_body]
pub struct ExJClass<'local>(jni::objects::JClass<'local>);

#[verifier::external_type_specification]
#[verifier::external_body]
pub struct ExJString<'local>(jni::objects::JString<'local>);

#[verifier::external_type_specification]
#[verifier::external_body]
pub struct ExJThrowable<'local>(jni::objects::JThrowable<'local>);

#[verifier::external_type_specification]
#[verifier::external_body]
pub struct ExJniError(JniError);

/// `jni::JavaVM::attach_current_thread`: binds the calling thread to the
/// runtime until the guard is dropped; a thread that was attached before
/// stays attached. Nothing is claimed of the outcome.
#[verifier::external_body]
fn attach<'vm>(vm: &'vm JavaVM) -> Result<AttachGuard<'vm>, JniError> {
    vm.attach_current_thread()
}

/// `jni::JNIEnv::find_class`: looks a class up by its slash-separated name.
/// Only the player class is ever asked for. Nothing is claimed of the
/// outcome.
#[verifier::external_body]
fn find_class<'local>(env: &mut AttachGuard<'local>, name: &str) -> Result<JClass<'local>, JniError>
    requires
        name@ == PLAYER_CLASS@,
{
    env.find_class(name)
}

/// `jni::JNIEnv::new_string`: builds a string of the managed runtime from
/// Rust text. Nothing is claimed of the outcome.
#[verifier::external_body]
fn new_string<'local>(env: &AttachGuard<'local>, text: &str) -> Result<JString<'local>, JniError> {
    env.new_string(text)
}

/// `jni::JNIEnv::call_static_method`: calls the static method `name` of
/// `class` under the signature `signature`, handing it the activity and, where
/// there is one, the string; what the method returns is dropped. Only the two
/// entry points of the player class are ever called, each with the arguments
/// its signature names. Nothing is claimed of the outcome.
#[verifier::external_body]
fn call_static_method<'local>(
    env: &mut AttachGuard<'local>,
    class: &JClass<'local>,
    name: &str,
    signature: &str,
    activity: &GlobalRef,
    text: Option<&JString<'local>>,
) -> Result<(), JniError>
    requires
        is_entry_point(name@, signature@, text is Some),
{
    let receiver = JValue::from(activity.as_obj());
    let args: Vec<JValue> = std::iter::once(receiver).chain(
        text.into_iter().map(JValue::from),
    ).collect();
    env.call_static_method(class, name, signature, &args).map(drop)
}

/// `jni::JNIEnv::exception_occurred`: the exception that is pending on the
/// calling thread, or the null reference where none is. It stays pending.
#[verifier::external_body]
fn exception_occurred<'local>(env: &mut AttachGuard<'local>) -> Result<
    JThrowable<'local>,
    JniError,
> {
    env.exception_occurred()
}

/// `jni::JNIEnv::exception_clear`: drops the exception that is pending on
/// the calling thread, if one is.
#[verifier::external_body]
fn clear_exception<'local>(env: &AttachGuard<'local>) {
    let _ = env.exception_clear();
}

/// `jni::JNIEnv::call_method`: calls the method `name` of `thrown`, which
/// takes no argument, and takes what it returns as a string. Only
/// `getMessage` and `toString` are ever called. A null `thrown` is an error,
/// and so is a result that is no object. Nothing is claimed of the outcome.
#[verifier::external_body]
fn call_method<'local>(
    env: &mut AttachGuard<'local>,
    thrown: &JThrowable<'local>,
    name: &str,
    signature: &str,
) -> Result<JString<'local>, JniError>
    requires
        is_text_method(name@, signature@),
{
    env.call_method(thrown, name, signature, &[]).and_then(|value| value.l()).map(JString::from)
}

/// `jni::JNIEnv::get_string`: the text of a string of the managed runtime. A
/// null string is an error. Nothing is claimed of the outcome.
#[verifier::external_body]
fn get_string<'local>(env: &mut AttachGuard<'local>, text: &JString<'local>) -> Result<
    String,
    JniError,
> {
    env.get_string(text).map(String::from)
}

/// `Display` of the `jni` crate's error type: the error's own message.
/// Nothing is claimed of the text.
#[verifier::external_body]
fn describe(error: &JniError) -> String {
    error.to_string()
}

/// The text of a failed lookup of the player class.
pub open spec fn class_lookup_failure_text(cause: Seq<char>) -> Seq<char> {
    "Failed to find class '"@ + PLAYER_CLASS@ + "': "@ + cause
}

/// Says that the player class was not found, and why.
pub fn class_lookup_failure(cause: &str) -> (text: String)
    ensures
        text@ == class_lookup_failure_text(cause@),
{
    let mut text = "Failed to find class '".to_owned();
    text.append(PLAYER_CLASS);
    text.append("': ");
    text.append(cause);
    text
}

/// The diagnostic of a native failure: the native side's own text where it
/// gave one, else the general text of the failed step.
pub fn native_diagnostic(own: Option<String>, general: String) -> (text: String)
    ensures
        own matches Some(given) ==> text == given,
        own is None ==> text == general,
{
    match own {
        Some(given) => given,
        None => general,
    }
}

/// How a call into the player class went: the step that failed, with the
/// native diagnostic of the failure, or that the method was called and
/// returned.
#[derive(Clone, Debug, PartialEq, Eq)]
pub enum NativeOutcome {
    /// The thread could not be attached to the runtime; nothing was looked up.
    NotAttached(String),
    /// The player class was not found; nothing was called.
    ClassNotFound(String),
    /// The runtime made no string of the stream; nothing was called.
    StringRefused(String),
    /// The method was not found, or it was called and threw.
    CallFailed(String),
    /// The method was called and returned.
    Called,
}

impl NativeOutcome {
    /// What the host is told of the outcome: success, or the diagnostic,
    /// which names the class where it was the class that was not found.
    pub open spec fn reported(self) -> Result<(), Seq<char>> {
        match self {
            NativeOutcome::NotAttached(cause) => Err(cause@),
            NativeOutcome::ClassNotFound(cause) => Err(class_lookup_failure_text(cause@)),
            NativeOutcome::StringRefused(cause) => Err(cause@),
            NativeOutcome::CallFailed(cause) => Err(cause@),
            NativeOutcome::Called => Ok(()),
        }
    }

    /// The outcome as the host sees it. Every failure, whichever step it was,
    /// is a `NativeCallFailure` with the diagnostic as its text.
    pub fn report(self) -> (r: Result<(), Error>)
        ensures
            match self.reported() {
                Ok(_) => r == Ok::<(), Error>(()),
                Err(text) => r matches Err(Error::NativeCallFailure(shown)) && shown@ == text,
            },
    {
        match self {
            NativeOutcome::NotAttached(cause) => Error::from_native(Err(cause)),
            NativeOutcome::ClassNotFound(cause) => Error::from_native(
                Err(class_lookup_failure(cause.as_str())),
            ),
            NativeOutcome::StringRefused(cause) => Error::from_native(Err(cause)),
            NativeOutcome::CallFailed(cause) => Error::from_native(Err(cause)),
            NativeOutcome::Called => Error::from_native(Ok(())),
        }
    }
}

/// The text that the throwable gives through `method`, if it gives one.
/// Leaves no exception pending.
fn throwable_text<'local>(
    env: &mut AttachGuard<'local>,
    thrown: &JThrowable<'local>,
    method: &str,
) -> (text: Option<String>)
    requires
        method@ == GET_MESSAGE@ || method@ == TO_STRING@,
{
    let read = match call_method(env, thrown, method, TEXT_METHOD_SIGNATURE) {
        Ok(text) => get_string(env, &text),
        Err(error) => Err(error),
    };
    clear_exception(env);
    match read {
        Ok(text) => Some(text),
        Err(_) => None,
    }
}

/// The diagnostic of a step that failed with `error`: the message of the
/// exception that is pending, else that exception's description, else the
/// text of `error` itself. Leaves no exception pending.
fn diagnose<'local>(env: &mut AttachGuard<'local>, error: &JniError) -> (text: String) {
    let pending = exception_occurred(env);
    clear_exception(env);
    let own = match pending {
        Ok(thrown) => match throwable_text(env, &thrown, GET_MESSAGE) {
            Some(message) => Some(message),
            None => throwable_text(env, &thrown, TO_STRING),
        },
        Err(_) => None,
    };
    native_diagnostic(own, describe(error))
}

/// Makes `call` on the player class of an attached runtime: looks the class
/// up, makes a string of the stream where the call takes one, and calls the
/// method. The first step that fails ends it.
fn call_player<'local>(env: &mut AttachGuard<'local>, activity: &GlobalRef, call: &NativeCall) -> (outcome:
    NativeOutcome)
    ensures
        !(outcome is NotAttached),
        outcome is StringRefused ==> *call is LaunchPlayer,
{
    let class = match find_class(env, PLAYER_CLASS) {
        Ok(class) => class,
        Err(error) => {
            return NativeOutcome::ClassNotFound(diagnose(env, &error));
        },
    };
    let called = match call.stream_url() {
        Some(url) => {
            let text = match new_string(env, url.as_str()) {
                Ok(text) => text,
                Err(error) => {
                    return NativeOutcome::StringRefused(diagnose(env, &error));
                },
            };
            call_static_method(env, &class, call.method(), call.signature(), activity, Some(&text))
        },
        None => call_static_method(env, &class, call.method(), call.signature(), activity, None),
    };
    match called {
        Ok(_) => NativeOutcome::Called,
        Err(error) => NativeOutcome::CallFailed(diagnose(env, &error)),
    }
}

/// Attaches the calling thread to the runtime for the length of this call and
/// makes `call` on the player class. Which step ends it is the runtime's to
/// decide; a call that takes no stream is never ended by making a string.
pub fn perform(vm: &JavaVM, activity: &GlobalRef, call: &NativeCall) -> (outcome: NativeOutcome)
    ensures
        outcome is StringRefused ==> *call is LaunchPlayer,
{
    let mut env = match attach(vm) {
        Ok(guard) => guard,
        Err(error) => {
            return NativeOutcome::NotAttached(describe(&error));
        },
    };
    call_player(&mut env, activity, call)
}

/// Makes `call` on the player class and reports how it went: success, or a
/// `NativeCallFailure` with the native diagnostic.
pub fn with_jni_env(vm: &JavaVM, activity: &GlobalRef, call: &NativeCall) -> (r: Result<(), Error>)
    ensures
        r matches Err(error) ==> error is NativeCallFailure,
{
    perform(vm, activity, call).report()
}

/// The managed runtime and the activity that the player is launched from.
#[derive(Debug)]
pub struct AndroidBridge {
    pub vm: JavaVM,
    pub activity: GlobalRef,
}

/// Launches the player on `stream_url`.
pub fn android_play_fullscreen(bridge: &AndroidBridge, stream_url: String) -> (r: Result<
    (),
    Error,
>)
    ensures
        r matches Err(error) ==> error is NativeCallFailure,
{
    let call = bridge.play_fullscreen_call(PlayFullscreenValue { stream_url });
    with_jni_env(&bridge.vm, &bridge.activity, &call)
}

/// Broadcasts the stop signal to the player.
pub fn android_force_stop(bridge: &AndroidBridge) -> (r: Result<(), Error>)
    ensures
        r matches Err(error) ==> error is NativeCallFailure,
{
    let call = bridge.force_stop_call();
    with_jni_env(&bridge.vm, &bridge.activity, &call)
}

/// Sets the Android backend up: the runtime must let the calling thread
/// attach and must know the player class. Otherwise there is no backend.
pub fn init(vm: JavaVM, activity: GlobalRef) -> (r: Result<AndroidBridge, Error>)
    ensures
        r matches Ok(bridge) ==> bridge.vm == vm && bridge.activity == activity,
        r matches Err(error) ==> error == Error::BackendUnavailable,
{
    let found = match attach(&vm) {
        Ok(mut env) => {
            let found = find_class(&mut env, PLAYER_CLASS).is_ok();
            if !found {
                clear_exception(&env);
            }
            found
        },
        Err(_) => false,
    };
    if found {
        Ok(AndroidBridge { vm, activity })
    } else {
        Err(Error::BackendUnavailable)
    }
}

impl AndroidBridge {
    /// A bridge over a runtime that is taken to hold the player class.
    pub fn new(vm: JavaVM, activity: GlobalRef) -> (bridge: AndroidBridge)
        ensures
            bridge.vm == vm,
            bridge.activity == activity,
    {
        AndroidBridge { vm, activity }
    }

    /// The native call that plays `payload`: the player is launched on its
    /// stream.
    pub fn play_fullscreen_call(&self, payload: PlayFullscreenValue) -> (call: NativeCall)
        ensures
            call == NativeCall::LaunchPlayer(payload.stream_url),
    {
        NativeCall::LaunchPlayer(payload.stream_url)
    }

    /// The native call that stops playback: the stop broadcast, which takes
    /// no stream.
    pub fn force_stop_call(&self) -> (call: NativeCall)
        ensures
            call == NativeCall::BroadcastStopPlayer,
    {
        NativeCall::BroadcastStopPlayer
    }

    /// Plays `payload` in the native player. A failure of the native side,
    /// a missing class or method included, is a `NativeCallFailure`.
    pub fn play_fullscreen(&self, payload: PlayFullscreenValue) -> (r: Result<(), Error>)
        ensures
            r matches Err(error) ==> error is NativeCallFailure,
    {
        let call = self.play_fullscreen_call(payload);
        with_jni_env(&self.vm, &self.activity, &call)
    }

    /// Stops the native player. A failure of the native side is a
    /// `NativeCallFailure`.
    pub fn force_stop(&self) -> (r: Result<(), Error>)
        ensures
            r matches Err(error) ==> error is NativeCallFailure,
    {
        let call = self.force_stop_call();
        with_jni_env(&self.vm, &self.activity, &call)
    }
}

} // verus!
