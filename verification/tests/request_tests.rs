use speech_stream::engine::CODE_INPUT_CLOSED;
use speech_stream::{Engine, ErrorKind, SpeechSynthesisRequest};

#[test]
fn written_pieces_concatenate_in_call_order() {
    let mut engine = Engine::new();
    let req = SpeechSynthesisRequest::new_text_streaming_request(&mut engine).unwrap();
    let tis = req.get_text_input_stream();
    tis.write(&mut engine, "A").unwrap();
    tis.write(&mut engine, "B").unwrap();
    tis.write(&mut engine, "C").unwrap();
    tis.close(&mut engine).unwrap();
    assert_eq!(engine.received_text(req.handle.raw), b"ABC".to_vec());
}

#[test]
fn longer_pieces_keep_order_and_content() {
    let mut engine = Engine::new();
    let req = SpeechSynthesisRequest::new_text_streaming_request(&mut engine).unwrap();
    let tis = req.get_text_input_stream();
    tis.write(&mut engine, "hello, ").unwrap();
    tis.write(&mut engine, "").unwrap();
    tis.write(&mut engine, "world").unwrap();
    tis.close(&mut engine).unwrap();
    assert_eq!(engine.received_text(req.handle.raw), b"hello, world".to_vec());
}

#[test]
fn close_leaves_received_text_unchanged() {
    let mut engine = Engine::new();
    let req = SpeechSynthesisRequest::new_text_streaming_request(&mut engine).unwrap();
    let tis = req.get_text_input_stream();
    tis.write(&mut engine, "xyz").unwrap();
    tis.close(&mut engine).unwrap();
    assert_eq!(engine.received_text(req.handle.raw), b"xyz".to_vec());
}

#[test]
fn write_with_embedded_nul_fails_before_any_native_call() {
    let mut engine = Engine::new();
    let req = SpeechSynthesisRequest::new_text_streaming_request(&mut engine).unwrap();
    let slots_before = engine.resources.len();
    let tis = req.get_text_input_stream();
    let e = tis.write(&mut engine, "he\0llo").unwrap_err();
    assert!(matches!(e.kind, ErrorKind::Encoding));
    // no native call was attempted: no new slot, no release, nothing received
    assert_eq!(engine.resources.len(), slots_before);
    assert_eq!(engine.release_log.len(), 0);
    assert_eq!(engine.received_text(req.handle.raw), Vec::<u8>::new());
}

#[test]
fn write_after_close_is_refused() {
    let mut engine = Engine::new();
    let req = SpeechSynthesisRequest::new_text_streaming_request(&mut engine).unwrap();
    let tis = req.get_text_input_stream();
    tis.write(&mut engine, "A").unwrap();
    tis.close(&mut engine).unwrap();
    let e = tis.write(&mut engine, "B").unwrap_err();
    assert!(matches!(e.kind, ErrorKind::NativeCall { code } if code == CODE_INPUT_CLOSED));
    // the refused piece corrupted nothing
    assert_eq!(engine.received_text(req.handle.raw), b"A".to_vec());
}

#[test]
fn second_close_is_refused() {
    let mut engine = Engine::new();
    let req = SpeechSynthesisRequest::new_text_streaming_request(&mut engine).unwrap();
    let tis = req.get_text_input_stream();
    tis.close(&mut engine).unwrap();
    let e = tis.close(&mut engine).unwrap_err();
    assert!(matches!(e.kind, ErrorKind::NativeCall { code } if code == CODE_INPUT_CLOSED));
}

#[test]
fn failed_write_surfaces_the_native_code_and_message() {
    let mut engine = Engine::new();
    let req = SpeechSynthesisRequest::new_text_streaming_request(&mut engine).unwrap();
    engine.inject_fault(42, "engine rejected the piece");
    let tis = req.get_text_input_stream();
    let e = tis.write(&mut engine, "A").unwrap_err();
    assert!(matches!(e.kind, ErrorKind::NativeCall { code: 42 }));
    assert_eq!(e.context, "Failed to send text piece".to_string());
    assert_eq!(e.native_message, Some("engine rejected the piece".to_string()));
    assert_eq!(
        e.message(),
        "Failed to send text piece: engine rejected the piece".to_string()
    );
    assert_eq!(engine.received_text(req.handle.raw), Vec::<u8>::new());
}

#[test]
fn request_creation_failure_creates_no_resource() {
    let mut engine = Engine::new();
    engine.inject_fault(9, "cannot create request");
    let e = SpeechSynthesisRequest::new_text_streaming_request(&mut engine).unwrap_err();
    assert!(matches!(e.kind, ErrorKind::NativeCall { code: 9 }));
    assert_eq!(e.context, "Failed to create speech synthesis request handle".to_string());
    assert_eq!(e.native_message, Some("cannot create request".to_string()));
    // only the error-info slot exists, and it was released at once
    assert_eq!(engine.resources.len(), 1);
    assert_eq!(engine.release_log, vec![1usize]);
}
