use streamlocker_player::android::NativeCall;
use streamlocker_player::commands::{
    force_stop, ping, play_fullscreen, route_force_stop, route_play_fullscreen,
};
use streamlocker_player::error::Error;
use streamlocker_player::mobile;
use streamlocker_player::mobile::PluginCall;
use streamlocker_player::models::{PingResponse, PlayFullscreenValue};
use streamlocker_player::resolver::{
    init, resolve, Backend, BackendHandle, Dispatch, NativeCounterpart, Platform, PlatformResolver,
    Routed,
};
use streamlocker_player::wire::{Payload, WireField, WireValue};

fn text(name: &str, value: &str) -> WireField {
    WireField { name: name.to_string(), value: WireValue::Text(value.to_string()) }
}

fn desktop() -> BackendHandle {
    init(Platform::Desktop, NativeCounterpart::Absent).unwrap()
}

fn ios() -> BackendHandle {
    init(Platform::Ios, NativeCounterpart::Binding(mobile::Streamlockerplayer {})).unwrap()
}

fn object(fields: Vec<WireField>) -> Payload {
    Payload::Object(fields)
}

fn named(url: &str) -> Payload {
    object(vec![text("streamUrl", url)])
}

fn completed(dispatch: Dispatch) -> Result<(), Error> {
    match dispatch {
        Dispatch::Completed(outcome) => outcome,
        other => panic!("not completed: {:?}", other),
    }
}

fn stubbed(dispatch: Dispatch) -> &'static str {
    match dispatch {
        Dispatch::Stubbed(notice) => notice,
        other => panic!("not stubbed: {:?}", other),
    }
}

fn forwarded(dispatch: Dispatch) -> PluginCall {
    match dispatch {
        Dispatch::Forward(call) => call,
        other => panic!("not forwarded: {:?}", other),
    }
}

const PLAY_NOTICE: &str = "'play_fullscreen' is only available on mobile.";

const STOP_NOTICE: &str = "'force_stop' is only available on mobile.";

#[test]
fn desktop_resolves_without_a_counterpart() {
    let backend = resolve(Platform::Desktop, NativeCounterpart::Absent).unwrap();
    assert!(matches!(backend, Backend::Desktop(_)));
    assert_eq!(backend.platform(), Platform::Desktop);
}

#[test]
fn desktop_resolves_whatever_the_counterpart() {
    let counterpart = NativeCounterpart::Binding(mobile::Streamlockerplayer {});
    let handle = init(Platform::Desktop, counterpart).unwrap();
    assert!(matches!(handle.backend(), Backend::Desktop(_)));
}

#[test]
fn ios_resolves_with_its_binding() {
    assert!(matches!(ios().backend(), Backend::IosBridge(_)));
    assert_eq!(ios().backend().platform(), Platform::Ios);
}

#[test]
fn ios_without_a_binding_is_unavailable() {
    let failure = init(Platform::Ios, NativeCounterpart::Absent).unwrap_err();
    assert_eq!(failure, Error::BackendUnavailable);
    assert!(failure.is_fatal());
}

#[test]
fn android_without_a_runtime_is_unavailable() {
    assert_eq!(
        init(Platform::Android, NativeCounterpart::Absent).unwrap_err(),
        Error::BackendUnavailable
    );
}

#[test]
fn android_does_not_take_a_binding_for_its_runtime() {
    let counterpart = NativeCounterpart::Binding(mobile::Streamlockerplayer {});
    assert_eq!(resolve(Platform::Android, counterpart).unwrap_err(), Error::BackendUnavailable);
}

#[test]
fn a_new_resolver_has_no_handle() {
    assert!(PlatformResolver::new().handle().is_none());
}

#[test]
fn a_failed_initialization_leaves_no_handle() {
    let mut resolver = PlatformResolver::new();
    assert_eq!(
        resolver.initialize(Platform::Ios, NativeCounterpart::Absent),
        Err(Error::BackendUnavailable)
    );
    assert!(resolver.handle().is_none());
    assert_eq!(
        resolver.initialize(Platform::Android, NativeCounterpart::Absent),
        Err(Error::BackendUnavailable)
    );
    assert!(resolver.handle().is_none());
}

#[test]
fn initialization_happens_once() {
    let mut resolver = PlatformResolver::new();
    assert_eq!(resolver.initialize(Platform::Desktop, NativeCounterpart::Absent), Ok(()));
    assert!(matches!(resolver.handle().unwrap().backend(), Backend::Desktop(_)));
    let binding = NativeCounterpart::Binding(mobile::Streamlockerplayer {});
    assert_eq!(resolver.initialize(Platform::Ios, binding), Ok(()));
    assert!(matches!(resolver.handle().unwrap().backend(), Backend::Desktop(_)));
    assert_eq!(resolver.initialize(Platform::Android, NativeCounterpart::Absent), Ok(()));
    assert!(matches!(resolver.handle().unwrap().backend(), Backend::Desktop(_)));
}

#[test]
fn initialization_can_succeed_after_a_failure() {
    let mut resolver = PlatformResolver::new();
    assert!(resolver.initialize(Platform::Ios, NativeCounterpart::Absent).is_err());
    let binding = NativeCounterpart::Binding(mobile::Streamlockerplayer {});
    assert_eq!(resolver.initialize(Platform::Ios, binding), Ok(()));
    assert!(matches!(resolver.handle().unwrap().backend(), Backend::IosBridge(_)));
}

#[test]
fn play_fullscreen_succeeds_on_desktop() {
    let dispatch = play_fullscreen(&desktop(), &named("https://example.com/live.m3u8"));
    assert!(matches!(dispatch, Dispatch::Stubbed(PLAY_NOTICE)));
    assert_eq!(dispatch.outcome(), Some(Ok(())));
}

#[test]
fn play_fullscreen_forwards_the_stream_on_ios() {
    let payload =
        object(vec![text("title", "t"), text("streamUrl", "https://example.com/live.m3u8")]);
    let call = forwarded(play_fullscreen(&ios(), &payload));
    assert_eq!(
        call,
        PluginCall::PlayFullscreen(PlayFullscreenValue {
            stream_url: "https://example.com/live.m3u8".to_string()
        })
    );
    assert_eq!(call.operation(), "playFullscreen");
}

fn unplayable() -> Vec<Payload> {
    vec![
        object(Vec::new()),
        object(vec![text("url", "https://example.com")]),
        object(vec![WireField { name: "streamUrl".to_string(), value: WireValue::Null }]),
        object(vec![WireField { name: "streamUrl".to_string(), value: WireValue::Other }]),
        object(vec![WireField { name: "payload".to_string(), value: WireValue::Other }]),
        named(""),
        Payload::Other,
    ]
}

#[test]
fn play_fullscreen_without_stream_url_never_reaches_a_backend() {
    for payload in &unplayable() {
        assert_eq!(completed(play_fullscreen(&desktop(), payload)), Err(Error::ValidationError));
        assert_eq!(completed(play_fullscreen(&ios(), payload)), Err(Error::ValidationError));
    }
}

#[test]
fn a_payload_without_stream_url_is_routed_nowhere() {
    for payload in &unplayable() {
        assert!(matches!(
            route_play_fullscreen(&desktop(), payload),
            Routed::Rejected(Error::ValidationError)
        ));
        assert!(matches!(
            route_play_fullscreen(&ios(), payload),
            Routed::Rejected(Error::ValidationError)
        ));
    }
}

#[test]
fn a_rejected_command_logs_no_notice() {
    let dispatch = play_fullscreen(&desktop(), &object(Vec::new()));
    assert!(matches!(dispatch, Dispatch::Completed(Err(Error::ValidationError))));
}

#[test]
fn play_fullscreen_is_routed_to_the_stub_on_desktop() {
    let routed = route_play_fullscreen(&desktop(), &named("https://example.com/a"));
    assert!(matches!(routed, Routed::Stub(PLAY_NOTICE)));
}

#[test]
fn play_fullscreen_is_routed_to_the_binding_on_ios() {
    match route_play_fullscreen(&ios(), &named("https://example.com/a")) {
        Routed::Forward(call) => assert_eq!(
            call,
            PluginCall::PlayFullscreen(PlayFullscreenValue {
                stream_url: "https://example.com/a".to_string()
            })
        ),
        other => panic!("routed to {:?}", other),
    }
}

#[test]
fn force_stop_is_routed_by_the_backend() {
    assert!(matches!(route_force_stop(&desktop()), Routed::Stub(STOP_NOTICE)));
    assert!(matches!(route_force_stop(&ios()), Routed::Forward(PluginCall::ForceStop)));
}

#[test]
fn complete_passes_on_what_needs_no_runtime() {
    let handle = ios();
    let backend = handle.backend();
    assert_eq!(
        completed(backend.complete(Routed::Rejected(Error::ValidationError))),
        Err(Error::ValidationError)
    );
    assert_eq!(stubbed(backend.complete(Routed::Stub(STOP_NOTICE))), STOP_NOTICE);
    assert_eq!(
        forwarded(backend.complete(Routed::Forward(PluginCall::ForceStop))),
        PluginCall::ForceStop
    );
}

#[test]
fn complete_makes_no_native_call_without_a_runtime() {
    let stop = || Routed::Native(NativeCall::BroadcastStopPlayer);
    assert_eq!(completed(desktop().backend().complete(stop())), Err(Error::BackendUnavailable));
    assert_eq!(completed(ios().backend().complete(stop())), Err(Error::BackendUnavailable));
}

#[test]
fn a_forwarded_call_has_no_outcome_yet() {
    assert_eq!(force_stop(&ios()).outcome(), None);
    assert_eq!(
        Dispatch::Completed(Err(Error::ValidationError)).outcome(),
        Some(Err(Error::ValidationError))
    );
}

#[test]
fn play_fullscreen_goes_by_the_last_stream_url() {
    let payload =
        object(vec![text("streamUrl", "https://first"), text("streamUrl", "https://second")]);
    assert_eq!(
        forwarded(play_fullscreen(&ios(), &payload)).payload().unwrap().stream_url,
        "https://second"
    );
    let payload = object(vec![text("streamUrl", "https://first"), text("streamUrl", "")]);
    assert_eq!(completed(play_fullscreen(&ios(), &payload)), Err(Error::ValidationError));
}

#[test]
fn repeating_a_command_gives_the_same_outcome() {
    let handle = ios();
    let payload = named("https://example.com/a");
    let first = forwarded(play_fullscreen(&handle, &payload));
    let second = forwarded(play_fullscreen(&handle, &payload));
    assert_eq!(first, second);
    assert!(matches!(handle.backend(), Backend::IosBridge(_)));
}

#[test]
fn force_stop_succeeds_on_desktop() {
    let dispatch = force_stop(&desktop());
    assert!(matches!(dispatch, Dispatch::Stubbed(STOP_NOTICE)));
    assert_eq!(dispatch.outcome(), Some(Ok(())));
}

#[test]
fn force_stop_is_forwarded_on_ios() {
    let call = forwarded(force_stop(&ios()));
    assert_eq!(call, PluginCall::ForceStop);
    assert_eq!(call.operation(), "forceStop");
}

#[test]
fn ping_echoes_text() {
    assert_eq!(
        ping(&object(vec![text("value", "x")])),
        Ok(PingResponse { value: Some("x".to_string()) })
    );
}

#[test]
fn ping_echoes_the_empty_string() {
    assert_eq!(
        ping(&object(vec![text("value", "")])),
        Ok(PingResponse { value: Some(String::new()) })
    );
}

#[test]
fn ping_echoes_text_outside_ascii() {
    assert_eq!(
        ping(&object(vec![text("value", "日本語 ñ 🎥")])),
        Ok(PingResponse { value: Some("日本語 ñ 🎥".to_string()) })
    );
}

#[test]
fn ping_without_a_value_answers_null() {
    let response = ping(&object(Vec::new())).unwrap();
    assert_eq!(response, PingResponse { value: None });
    assert_eq!(
        response.encode(),
        object(vec![WireField { name: "value".to_string(), value: WireValue::Null }])
    );
}

#[test]
fn ping_rejects_a_value_that_is_not_text() {
    let payload = object(vec![WireField { name: "value".to_string(), value: WireValue::Other }]);
    assert_eq!(ping(&payload), Err(Error::SerializationFailure));
}

#[test]
fn ping_rejects_a_payload_that_is_no_object() {
    assert_eq!(ping(&Payload::Other), Err(Error::SerializationFailure));
}
