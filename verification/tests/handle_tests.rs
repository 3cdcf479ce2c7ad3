use speech_stream::{convert_err, Engine, ErrorKind, SmartHandle, SpeechSynthesisRequest};

#[test]
fn release_happens_exactly_once() {
    let mut engine = Engine::new();
    let req = SpeechSynthesisRequest::new_text_streaming_request(&mut engine).unwrap();
    let raw = req.handle.raw;
    let mut handle = req.handle;
    handle.release(&mut engine);
    handle.release(&mut engine);
    handle.release(&mut engine);
    let count = engine
        .released_handles()
        .iter()
        .filter(|h| **h == raw)
        .count();
    assert_eq!(count, 1);
}

#[test]
fn early_error_return_still_releases_the_created_handle() {
    let mut engine = Engine::new();
    engine.inject_fault(0, "");
    engine.inject_fault(7, "property bag unavailable");
    let e = SpeechSynthesisRequest::new_text_streaming_request(&mut engine).unwrap_err();
    assert!(matches!(e.kind, ErrorKind::NativeCall { code: 7 }));
    assert_eq!(
        e.context,
        "Failed to get speech synthesis request property bag".to_string()
    );
    assert_eq!(e.native_message, Some("property bag unavailable".to_string()));
    // slot 1 is the bag, slot 2 the request, slot 3 the error info;
    // the error info was released by the translator, then the request
    // handle by the early error return — each exactly once.
    assert_eq!(engine.release_log, vec![3usize, 2usize]);
    let req_releases = engine.release_log.iter().filter(|h| **h == 2).count();
    assert_eq!(req_releases, 1);
}

#[test]
fn null_handle_is_never_released() {
    let mut engine = Engine::new();
    let mut handle = SmartHandle::create("empty", 0);
    handle.release(&mut engine);
    handle.release(&mut engine);
    assert_eq!(engine.release_log.len(), 0);
}

#[test]
fn kind_label_is_kept_for_diagnostics() {
    let handle = SmartHandle::create("SpeechSynthesisRequest", 5);
    assert_eq!(handle.kind_label(), "SpeechSynthesisRequest");
    assert_eq!(handle.inner(), 5);
}

#[test]
fn zero_status_never_translates_to_an_error() {
    let mut engine = Engine::new();
    let slots_before = engine.resources.len();
    assert!(convert_err(&mut engine, 0, "anything").is_ok());
    // the hot path touches nothing
    assert_eq!(engine.resources.len(), slots_before);
    assert_eq!(engine.release_log.len(), 0);
}

#[test]
fn nonzero_status_always_translates_to_an_error() {
    for code in [1u32, 2, 20, 400, u32::MAX] {
        let mut engine = Engine::new();
        engine.last_error = "engine detail".to_string();
        let e = convert_err(&mut engine, code, "the failing call").unwrap_err();
        assert!(matches!(e.kind, ErrorKind::NativeCall { code: c } if c == code));
        assert_eq!(e.context, "the failing call".to_string());
        assert_eq!(e.native_message, Some("engine detail".to_string()));
        assert_eq!(e.message(), "the failing call: engine detail".to_string());
    }
}

#[test]
fn error_info_handle_is_not_leaked() {
    let mut engine = Engine::new();
    let _ = convert_err(&mut engine, 3, "ctx").unwrap_err();
    // one error-info slot was created and released again
    assert_eq!(engine.resources.len(), 1);
    assert_eq!(engine.release_log, vec![1usize]);
}

#[test]
fn encoding_error_has_no_native_message() {
    let mut engine = Engine::new();
    let req = SpeechSynthesisRequest::new_text_streaming_request(&mut engine).unwrap();
    let tis = req.get_text_input_stream();
    let e = tis.write(&mut engine, "\0").unwrap_err();
    assert!(matches!(e.kind, ErrorKind::Encoding));
    assert_eq!(e.native_message, None);
    assert_eq!(e.message(), "Failed to send text piece".to_string());
}
