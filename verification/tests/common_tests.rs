use speech_stream::{
    Engine, ErrorKind, PhraseListGrammar, ProfanityOption, SpeechRecognizer,
    SpeechSynthesisBoundaryType, SpeechSynthesisRequest,
};

#[test]
fn profanity_option_values_match_the_native_encoding() {
    assert_eq!(ProfanityOption::Masked.to_i32(), 0);
    assert_eq!(ProfanityOption::Removed.to_i32(), 1);
    assert_eq!(ProfanityOption::Raw.to_i32(), 2);
    assert_eq!(ProfanityOption::Masked.to_u32(), 0);
    assert_eq!(ProfanityOption::Removed.to_u32(), 1);
    assert_eq!(ProfanityOption::Raw.to_u32(), 2);
    assert_eq!(i32::from(ProfanityOption::Removed), 1);
    assert_eq!(u32::from(ProfanityOption::Raw), 2);
}

#[test]
fn boundary_type_decodes_unsigned_values() {
    assert_eq!(
        SpeechSynthesisBoundaryType::from_u32(0),
        SpeechSynthesisBoundaryType::WordBoundary
    );
    assert_eq!(
        SpeechSynthesisBoundaryType::from_u32(1),
        SpeechSynthesisBoundaryType::PunctuationBoundary
    );
    assert_eq!(
        SpeechSynthesisBoundaryType::from_u32(2),
        SpeechSynthesisBoundaryType::SentenceBoundary
    );
    assert_eq!(
        SpeechSynthesisBoundaryType::from_u32(77),
        SpeechSynthesisBoundaryType::SentenceBoundary
    );
}

#[test]
fn boundary_type_decodes_signed_values_by_reinterpreting_the_bits() {
    assert_eq!(
        SpeechSynthesisBoundaryType::from_i32(0),
        SpeechSynthesisBoundaryType::WordBoundary
    );
    assert_eq!(
        SpeechSynthesisBoundaryType::from_i32(1),
        SpeechSynthesisBoundaryType::PunctuationBoundary
    );
    assert_eq!(
        SpeechSynthesisBoundaryType::from_i32(-1),
        SpeechSynthesisBoundaryType::SentenceBoundary
    );
}

#[test]
fn property_bag_returns_defaults_until_written() {
    let mut engine = Engine::new();
    let req = SpeechSynthesisRequest::new_text_streaming_request(&mut engine).unwrap();
    assert_eq!(
        req.properties.get_string(&engine, 4, "fallback"),
        "fallback".to_string()
    );
    assert_eq!(req.properties.get_number(&engine, 4, -5), -5);
    req.properties.set_string(&mut engine, 4, "voice").unwrap();
    req.properties.set_number(&mut engine, 9, 24000).unwrap();
    assert_eq!(
        req.properties.get_string(&engine, 4, "fallback"),
        "voice".to_string()
    );
    assert_eq!(req.properties.get_number(&engine, 9, -5), 24000);
}

#[test]
fn property_bag_reads_are_never_cached() {
    let mut engine = Engine::new();
    let req = SpeechSynthesisRequest::new_text_streaming_request(&mut engine).unwrap();
    req.properties.set_string(&mut engine, 2, "first").unwrap();
    assert_eq!(req.properties.get_string(&engine, 2, ""), "first".to_string());
    // the engine itself updates the property behind the wrapper's back
    let bag = req.properties.handle;
    let code = engine.bag_set_string(bag, 2, "second".to_string());
    assert_eq!(code, 0);
    assert_eq!(req.properties.get_string(&engine, 2, ""), "second".to_string());
}

#[test]
fn failed_property_write_is_translated() {
    let mut engine = Engine::new();
    let req = SpeechSynthesisRequest::new_text_streaming_request(&mut engine).unwrap();
    engine.inject_fault(8, "bag is sealed");
    let e = req.properties.set_string(&mut engine, 1, "x").unwrap_err();
    assert!(matches!(e.kind, ErrorKind::NativeCall { code: 8 }));
    assert_eq!(req.properties.get_string(&engine, 1, "d"), "d".to_string());
}

#[test]
fn grammar_phrases_are_added_and_their_handles_released() {
    let mut engine = Engine::new();
    let rec = SpeechRecognizer::new(&mut engine).unwrap();
    let grammar = PhraseListGrammar::from_recognizer(&mut engine, &rec).unwrap();
    grammar.add_phrase(&mut engine, "open the door").unwrap();
    grammar.add_phrase(&mut engine, "close the door").unwrap();
    assert_eq!(
        engine.grammar_texts(grammar.handle.raw),
        vec![b"open the door".to_vec(), b"close the door".to_vec()]
    );
    // each phrase resource was released exactly once after being added
    assert_eq!(engine.release_log, vec![3usize, 4usize]);
    grammar.clear(&mut engine).unwrap();
    assert_eq!(engine.grammar_texts(grammar.handle.raw), Vec::<Vec<u8>>::new());
}

#[test]
fn grammar_phrase_with_nul_is_rejected_before_the_engine_sees_it() {
    let mut engine = Engine::new();
    let rec = SpeechRecognizer::new(&mut engine).unwrap();
    let grammar = PhraseListGrammar::from_recognizer(&mut engine, &rec).unwrap();
    let slots = engine.resources.len();
    let e = grammar.add_phrase(&mut engine, "bad\0phrase").unwrap_err();
    assert!(matches!(e.kind, ErrorKind::Encoding));
    assert_eq!(engine.resources.len(), slots);
    assert_eq!(engine.release_log.len(), 0);
}

#[test]
fn failed_add_phrase_still_releases_the_phrase_handle() {
    let mut engine = Engine::new();
    let rec = SpeechRecognizer::new(&mut engine).unwrap();
    let grammar = PhraseListGrammar::from_recognizer(&mut engine, &rec).unwrap();
    engine.inject_fault(0, "");
    engine.inject_fault(21, "grammar refused the phrase");
    let e = grammar.add_phrase(&mut engine, "phrase").unwrap_err();
    assert!(matches!(e.kind, ErrorKind::NativeCall { code: 21 }));
    assert_eq!(e.context, "PhraseListGrammar::add_phrase error".to_string());
    assert_eq!(e.native_message, Some("grammar refused the phrase".to_string()));
    // slot 3 is the phrase, slot 4 the error info; each released once
    assert_eq!(engine.release_log, vec![4usize, 3usize]);
}

#[test]
fn released_wrappers_retire_their_slots() {
    let mut engine = Engine::new();
    let req = SpeechSynthesisRequest::new_text_streaming_request(&mut engine).unwrap();
    let raw = req.handle.raw;
    req.release(&mut engine);
    assert_eq!(engine.release_log, vec![raw]);
}
