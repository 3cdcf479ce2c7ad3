use speech_stream::{
    AudioDataStream, Engine, ErrorKind, SpeechSynthesisRequest, SpeechSynthesizer, StreamStatus,
};

fn start_operation(engine: &mut Engine) -> (SpeechSynthesisRequest, usize, AudioDataStream) {
    let req = SpeechSynthesisRequest::new_text_streaming_request(engine).unwrap();
    let synth = SpeechSynthesizer::from_config(engine).unwrap();
    let result = synth.start_speaking_async(engine, &req).unwrap();
    let result_raw = result.handle.raw;
    let stream = AudioDataStream::from_synthesis_result(engine, &result).unwrap();
    (req, result_raw, stream)
}

#[test]
fn status_query_is_idempotent() {
    let mut engine = Engine::new();
    let (_req, result_raw, stream) = start_operation(&mut engine);
    engine.supply_audio(result_raw, vec![1, 2, 3]);
    let slots = engine.resources.len();
    let s1 = stream.get_status(&mut engine).unwrap();
    let s2 = stream.get_status(&mut engine).unwrap();
    let s3 = stream.get_status(&mut engine).unwrap();
    assert_eq!(s1, StreamStatus::HasData);
    assert_eq!(s1, s2);
    assert_eq!(s2, s3);
    // the queries changed nothing observable
    assert_eq!(engine.resources.len(), slots);
    assert_eq!(engine.release_log.len(), 0);
}

#[test]
fn read_never_exceeds_the_buffer_length() {
    let mut engine = Engine::new();
    let (_req, result_raw, stream) = start_operation(&mut engine);
    engine.supply_audio(result_raw, vec![10, 20, 30, 40, 50, 60, 70]);
    let mut buf = vec![0u8; 4];
    let n = stream.read(&mut engine, &mut buf).unwrap();
    assert!(n as usize <= buf.len());
    assert_eq!(n, 4);
    assert_eq!(buf, vec![10, 20, 30, 40]);
}

#[test]
fn short_read_returns_what_is_available_and_keeps_the_rest_of_the_buffer() {
    let mut engine = Engine::new();
    let (_req, result_raw, stream) = start_operation(&mut engine);
    engine.supply_audio(result_raw, vec![9, 8]);
    let mut buf = vec![7u8; 6];
    let n = stream.read(&mut engine, &mut buf).unwrap();
    assert_eq!(n, 2);
    assert_eq!(buf, vec![9, 8, 7, 7, 7, 7]);
}

#[test]
fn zero_read_is_not_end_of_stream() {
    let mut engine = Engine::new();
    let (_req, _result_raw, stream) = start_operation(&mut engine);
    // nothing produced yet: a read returns zero bytes, status stays NoData
    let mut buf = vec![0u8; 3];
    let n = stream.read(&mut engine, &mut buf).unwrap();
    assert_eq!(n, 0);
    assert_eq!(stream.get_status(&mut engine).unwrap(), StreamStatus::NoData);
}

#[test]
fn all_data_is_terminal_and_reads_zero() {
    let mut engine = Engine::new();
    let (req, result_raw, stream) = start_operation(&mut engine);
    let tis = req.get_text_input_stream();
    tis.close(&mut engine).unwrap();
    engine.supply_audio(result_raw, vec![1, 2]);
    let mut buf = vec![0u8; 8];
    assert_eq!(stream.read(&mut engine, &mut buf).unwrap(), 2);
    engine.finalize_result(result_raw);
    assert_eq!(stream.get_status(&mut engine).unwrap(), StreamStatus::AllData);
    assert_eq!(stream.read(&mut engine, &mut buf).unwrap(), 0);
    assert_eq!(stream.get_status(&mut engine).unwrap(), StreamStatus::AllData);
}

#[test]
fn canceled_is_terminal_and_reads_zero() {
    let mut engine = Engine::new();
    let (req, result_raw, stream) = start_operation(&mut engine);
    engine.supply_audio(result_raw, vec![1, 2, 3]);
    req.get_text_input_stream().close(&mut engine).unwrap();
    engine.cancel_result(result_raw);
    assert_eq!(stream.get_status(&mut engine).unwrap(), StreamStatus::Canceled);
    let mut buf = vec![5u8; 4];
    assert_eq!(stream.read(&mut engine, &mut buf).unwrap(), 0);
    assert_eq!(buf, vec![5, 5, 5, 5]);
    assert_eq!(stream.get_status(&mut engine).unwrap(), StreamStatus::Canceled);
}

#[test]
fn streaming_scenario_drains_five_bytes_and_stops_at_all_data() {
    let mut engine = Engine::new();
    let (req, result_raw, stream) = start_operation(&mut engine);
    let tis = req.get_text_input_stream();
    tis.write(&mut engine, "A").unwrap();
    tis.write(&mut engine, "B").unwrap();
    tis.write(&mut engine, "C").unwrap();
    // nothing produced yet
    assert_eq!(stream.get_status(&mut engine).unwrap(), StreamStatus::NoData);
    tis.close(&mut engine).unwrap();
    assert_eq!(engine.received_text(req.handle.raw), b"ABC".to_vec());
    engine.supply_audio(result_raw, vec![11, 22, 33, 44, 55]);

    // the driving loop: poll, then wait, read or stop as the status says
    let mut total: usize = 0;
    let mut collected: Vec<u8> = Vec::new();
    let mut polls: usize = 0;
    let ending;
    loop {
        polls += 1;
        assert!(polls < 100);
        match stream.get_status(&mut engine).unwrap() {
            StreamStatus::NoData => {
                // the backoff wait: the engine makes progress meanwhile
                engine.finalize_result(result_raw);
            }
            StreamStatus::Canceled => {
                ending = StreamStatus::Canceled;
                break;
            }
            StreamStatus::AllData => {
                let mut buf = vec![0u8; 4];
                let n = stream.read(&mut engine, &mut buf).unwrap() as usize;
                total += n;
                collected.extend_from_slice(&buf[..n]);
                ending = StreamStatus::AllData;
                break;
            }
            StreamStatus::HasData => {
                let mut buf = vec![0u8; 4];
                let n = stream.read(&mut engine, &mut buf).unwrap() as usize;
                total += n;
                collected.extend_from_slice(&buf[..n]);
            }
        }
    }
    assert_eq!(total, 5);
    assert_eq!(collected, vec![11, 22, 33, 44, 55]);
    assert_eq!(ending, StreamStatus::AllData);
}

#[test]
fn failed_status_query_translates_the_code() {
    let mut engine = Engine::new();
    let (_req, _result_raw, stream) = start_operation(&mut engine);
    engine.inject_fault(13, "status unavailable");
    let e = stream.get_status(&mut engine).unwrap_err();
    assert!(matches!(e.kind, ErrorKind::NativeCall { code: 13 }));
    assert_eq!(e.context, "Failed to get audio stream status".to_string());
    assert_eq!(e.native_message, Some("status unavailable".to_string()));
}

#[test]
fn failed_read_leaves_the_buffer_unchanged() {
    let mut engine = Engine::new();
    let (_req, result_raw, stream) = start_operation(&mut engine);
    engine.supply_audio(result_raw, vec![1, 2, 3]);
    engine.inject_fault(14, "read failed");
    let mut buf = vec![9u8; 3];
    let e = stream.read(&mut engine, &mut buf).unwrap_err();
    assert!(matches!(e.kind, ErrorKind::NativeCall { code: 14 }));
    assert_eq!(buf, vec![9, 9, 9]);
}

#[test]
fn stream_status_decodes_the_engine_values() {
    assert_eq!(StreamStatus::from_u32(0), StreamStatus::NoData);
    assert_eq!(StreamStatus::from_u32(1), StreamStatus::HasData);
    assert_eq!(StreamStatus::from_u32(2), StreamStatus::AllData);
    assert_eq!(StreamStatus::from_u32(3), StreamStatus::Canceled);
}

#[test]
fn drain_available_collects_everything_produced_so_far() {
    let mut engine = Engine::new();
    let (req, result_raw, stream) = start_operation(&mut engine);
    let tis = req.get_text_input_stream();
    tis.close(&mut engine).unwrap();
    engine.supply_audio(result_raw, vec![1, 2, 3, 4, 5, 6, 7]);
    let out = stream.drain_available(&mut engine, 3).unwrap();
    assert_eq!(out, vec![1, 2, 3, 4, 5, 6, 7]);
    // nothing is left: a further read returns zero bytes
    let mut buf = vec![0u8; 2];
    assert_eq!(stream.read(&mut engine, &mut buf).unwrap(), 0);
    engine.finalize_result(result_raw);
    assert_eq!(stream.get_status(&mut engine).unwrap(), StreamStatus::AllData);
}
