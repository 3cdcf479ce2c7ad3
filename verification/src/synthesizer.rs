use vstd::prelude::*;

use crate::engine::{extends_slots, faults_advanced, Engine};
use crate::error::{translate_failure, Error, ErrorKind};
use crate::handle::SmartHandle;
use crate::request::SpeechSynthesisRequest;

verus! {

/// The handle of a started synthesis operation.  It exists as soon as
/// the engine has dispatched the operation; audio production goes on
/// behind it and is observed through an audio data stream bound to it.
#[derive(Debug)]
pub struct SynthesisResult {
    pub handle: SmartHandle,
}

impl SynthesisResult {
    /// The engine-side handle of this result.
    pub open spec fn res(self) -> usize {
        self.handle.raw
    }

    /// Well-formed against an engine: the owned handle is live and
    /// names a synthesis result.
    pub open spec fn wf(self, e: Engine) -> bool {
        &&& !self.handle.released
        &&& self.handle.raw != 0
        &&& e.is_result(self.handle.raw)
    }

    /// Releases the owned result handle: exactly one release is issued
    /// for it over the wrapper's lifetime.
    pub fn release(self, engine: &mut Engine)
        requires
            self.wf(*old(engine)),
        ensures
            final(engine).is_released_slot(self.res()),
            final(engine).release_log_seq() =~= old(engine).release_log_seq().push(self.res()),
            crate::engine::same_slots_except(*old(engine), *final(engine), self.res()),
            final(engine).fault_code_seq() == old(engine).fault_code_seq(),
            final(engine).fault_msg_seq() == old(engine).fault_msg_seq(),
            final(engine).last_error_spec() == old(engine).last_error_spec(),
            final(engine).release_count(self.res()) == old(engine).release_count(self.res()) + 1,
            forall|g: usize|
                g != self.res() ==> final(engine).release_count(g) == old(engine).release_count(g),
    {
        let mut handle = self.handle;
        handle.release(engine);
    }
}

/// The orchestrator: it owns a synthesizer handle and starts
/// asynchronous synthesis operations for streaming requests.
#[derive(Debug)]
pub struct SpeechSynthesizer {
    pub handle: SmartHandle,
}

impl SpeechSynthesizer {
    /// The engine-side handle of this synthesizer.
    pub open spec fn synth(self) -> usize {
        self.handle.raw
    }

    /// Well-formed against an engine: the owned handle is live and
    /// names a synthesizer.
    pub open spec fn wf(self, e: Engine) -> bool {
        &&& !self.handle.released
        &&& self.handle.raw != 0
        &&& e.is_synthesizer(self.handle.raw)
    }

    /// Binds a synthesizer to the engine's current configuration and
    /// audio-output target.  Success is owed exactly when the native
    /// creation call succeeds.
    pub fn from_config(engine: &mut Engine) -> (r: Result<SpeechSynthesizer, Error>)
        requires
            old(engine).slot_count() + 2 <= usize::MAX,
        ensures
            faults_advanced(*old(engine), *final(engine)),
            r is Ok <==> old(engine).fault_at(0) == 0,
            match r {
                Ok(s) => {
                    &&& s.wf(*final(engine))
                    &&& extends_slots(*old(engine), *final(engine), 1)
                    &&& s.synth() == old(engine).slot_count() + 1
                    &&& final(engine).release_log_seq() == old(engine).release_log_seq()
                },
                Err(e) => {
                    &&& e.kind == (ErrorKind::NativeCall { code: old(engine).fault_at(0) })
                    &&& e.context@ == "Failed to create synthesizer"@
                    &&& (e.native_message matches Some(nm) && nm@ == old(
                        engine,
                    ).fault_msg_seq()[0])
                    &&& forall|j: usize|
                        old(engine).slot_ok(j) ==> final(engine).slot(j) == old(engine).slot(j)
                    &&& final(engine).slot_count() == old(engine).slot_count() + 1
                    &&& final(engine).release_log_seq() =~= old(engine).release_log_seq().push(
                        (old(engine).slot_count() + 1) as usize,
                    )
                },
            },
    {
        let created = engine.synthesizer_create();
        if created.0 != 0 {
            let e = translate_failure(engine, created.0, "Failed to create synthesizer");
            return Err(e);
        }
        Ok(SpeechSynthesizer { handle: SmartHandle::create("SpeechSynthesizer", created.1) })
    }

    /// Starts an asynchronous synthesis operation for the given
    /// request and returns as soon as the engine has a result handle
    /// for it: audio production may still be in progress.  Failure
    /// here means dispatch failed; a failure of synthesis itself
    /// surfaces later through the audio data stream's status.
    pub fn start_speaking_async(
        &self,
        engine: &mut Engine,
        request: &SpeechSynthesisRequest,
    ) -> (r: Result<SynthesisResult, Error>)
        requires
            self.wf(*old(engine)),
            request.wf(*old(engine)),
            old(engine).slot_count() + 2 <= usize::MAX,
        ensures
            self.wf(*final(engine)),
            request.wf(*final(engine)),
            faults_advanced(*old(engine), *final(engine)),
            r is Ok <==> old(engine).fault_at(0) == 0,
            match r {
                Ok(res) => {
                    &&& res.wf(*final(engine))
                    &&& extends_slots(*old(engine), *final(engine), 1)
                    &&& res.res() == old(engine).slot_count() + 1
                    &&& final(engine).result_request(res.res()) == request.req()
                    &&& final(engine).result_audio(res.res()) =~= Seq::<u8>::empty()
                    &&& !final(engine).result_finalized(res.res())
                    &&& !final(engine).result_canceled(res.res())
                    &&& final(engine).release_log_seq() == old(engine).release_log_seq()
                },
                Err(e) => {
                    &&& e.kind == (ErrorKind::NativeCall { code: old(engine).fault_at(0) })
                    &&& e.context@ == "Failed to start speaking"@
                    &&& (e.native_message matches Some(nm) && nm@ == old(
                        engine,
                    ).fault_msg_seq()[0])
                    &&& forall|j: usize|
                        old(engine).slot_ok(j) ==> final(engine).slot(j) == old(engine).slot(j)
                    &&& final(engine).slot_count() == old(engine).slot_count() + 1
                    &&& final(engine).release_log_seq() =~= old(engine).release_log_seq().push(
                        (old(engine).slot_count() + 1) as usize,
                    )
                },
            },
    {
        let started = engine.start_speaking(self.handle.inner(), request.handle.inner());
        if started.0 != 0 {
            let e = translate_failure(engine, started.0, "Failed to start speaking");
            return Err(e);
        }
        Ok(SynthesisResult { handle: SmartHandle::create("SynthesisResult", started.1) })
    }

    /// Releases the owned synthesizer handle.
    pub fn release(self, engine: &mut Engine)
        requires
            self.wf(*old(engine)),
        ensures
            final(engine).is_released_slot(self.synth()),
            final(engine).release_log_seq() =~= old(engine).release_log_seq().push(self.synth()),
            crate::engine::same_slots_except(*old(engine), *final(engine), self.synth()),
            final(engine).fault_code_seq() == old(engine).fault_code_seq(),
            final(engine).fault_msg_seq() == old(engine).fault_msg_seq(),
            final(engine).last_error_spec() == old(engine).last_error_spec(),
            final(engine).release_count(self.synth()) == old(engine).release_count(self.synth())
                + 1,
            forall|g: usize|
                g != self.synth() ==> final(engine).release_count(g) == old(
                    engine,
                ).release_count(g),
    {
        let mut handle = self.handle;
        handle.release(engine);
    }
}

} // verus!
