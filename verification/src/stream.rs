use vstd::prelude::*;

use crate::engine::{extends_slots, faults_advanced, observed_eq, preserves_slots, preserves_slots_except, same_slots_except, Engine};
use crate::error::{translate_failure, Error, ErrorKind};
use crate::handle::SmartHandle;
use crate::synthesizer::SynthesisResult;

verus! {

/// The observable state of an audio data stream.
#[derive(Debug, Clone, Copy, PartialEq, Eq, Structural)]
pub enum StreamStatus {
    /// No unread audio exists yet; production goes on.
    NoData,
    /// Unread audio is available.
    HasData,
    /// Production has finished and every byte has been delivered.
    AllData,
    /// The operation was canceled; nothing further will be delivered.
    Canceled,
}

/// The status the native layer encodes as the given value.
pub open spec fn status_of_code(v: u32) -> StreamStatus {
    if v == 3 {
        StreamStatus::Canceled
    } else if v == 2 {
        StreamStatus::AllData
    } else if v == 1 {
        StreamStatus::HasData
    } else {
        StreamStatus::NoData
    }
}

impl StreamStatus {
    /// Decodes the engine's status value.
    pub fn from_u32(v: u32) -> (r: StreamStatus)
        ensures
            r == status_of_code(v),
    {
        match v {
            1 => StreamStatus::HasData,
            2 => StreamStatus::AllData,
            3 => StreamStatus::Canceled,
            _ => StreamStatus::NoData,
        }
    }
}

/// A polled view onto the audio of one synthesis result.  Data
/// availability changes asynchronously as the engine produces audio,
/// so the status must be re-queried before every read; the stream owns
/// its own handle, independent of the result it was created from.
#[derive(Debug)]
pub struct AudioDataStream {
    pub handle: SmartHandle,
}

impl AudioDataStream {
    /// The engine-side handle of this stream.
    pub open spec fn sid(self) -> usize {
        self.handle.raw
    }

    /// Well-formed against an engine: the owned handle is live, names
    /// a stream bound to a live result, and has not delivered more
    /// than the engine has produced.
    pub open spec fn wf(self, e: Engine) -> bool {
        &&& !self.handle.released
        &&& self.handle.raw != 0
        &&& e.is_stream(self.handle.raw)
        &&& e.is_result(e.stream_result(self.handle.raw))
        &&& e.stream_pos(self.handle.raw) <= e.result_audio(
            e.stream_result(self.handle.raw),
        ).len()
    }

    /// The state this stream is in, as the engine reports it.
    pub open spec fn status_spec(self, e: Engine) -> StreamStatus {
        status_of_code(e.stream_state_code(self.sid()))
    }

    /// Binds a new stream to a synthesis result.  The initial state is
    /// whatever the engine currently reports for the result — commonly
    /// `NoData` when synthesis has just started.
    pub fn from_synthesis_result(engine: &mut Engine, result: &SynthesisResult) -> (r: Result<
        AudioDataStream,
        Error,
    >)
        requires
            result.wf(*old(engine)),
            old(engine).slot_count() + 2 <= usize::MAX,
        ensures
            result.wf(*final(engine)),
            faults_advanced(*old(engine), *final(engine)),
            r is Ok <==> old(engine).fault_at(0) == 0,
            match r {
                Ok(s) => {
                    &&& s.wf(*final(engine))
                    &&& extends_slots(*old(engine), *final(engine), 1)
                    &&& s.sid() == old(engine).slot_count() + 1
                    &&& final(engine).stream_result(s.sid()) == result.res()
                    &&& final(engine).stream_pos(s.sid()) == 0
                    &&& final(engine).release_log_seq() == old(engine).release_log_seq()
                },
                Err(e) => {
                    &&& e.kind == (ErrorKind::NativeCall { code: old(engine).fault_at(0) })
                    &&& e.context@ == "Failed to create audio data stream"@
                    &&& (e.native_message matches Some(nm) && nm@ == old(
                        engine,
                    ).fault_msg_seq()[0])
                    &&& forall|j: usize|
                        old(engine).slot_ok(j) ==> final(engine).slot(j) == old(engine).slot(j)
                    &&& final(engine).slot_count() == old(engine).slot_count() + 1
                    &&& final(engine).release_log_seq() =~= old(engine).release_log_seq().push(
                        (old(engine).slot_count() + 1) as usize,
                    )
                },
            },
    {
        let created = engine.stream_create(result.handle.inner());
        if created.0 != 0 {
            let e = translate_failure(engine, created.0, "Failed to create audio data stream");
            return Err(e);
        }
        Ok(AudioDataStream { handle: SmartHandle::create("AudioDataStream", created.1) })
    }

    /// Queries the stream's state.  The query is cheap and has no side
    /// effect on any resource: every observable part of the engine is
    /// left exactly as it was, so any number of consecutive queries
    /// report the same state.
    pub fn get_status(&self, engine: &mut Engine) -> (r: Result<StreamStatus, Error>)
        requires
            self.wf(*old(engine)),
            old(engine).slot_count() < usize::MAX,
        ensures
            self.wf(*final(engine)),
            preserves_slots(*old(engine), *final(engine)),
            faults_advanced(*old(engine), *final(engine)),
            final(engine).slot_count() == old(engine).slot_count() + (if r is Ok {
                0int
            } else {
                1int
            }),
            r is Ok <==> old(engine).fault_at(0) == 0,
            r is Ok ==> observed_eq(*old(engine), *final(engine)) && final(engine).resources@
                == old(engine).resources@,
            match r {
                Ok(st) => st == self.status_spec(*old(engine)) && st == self.status_spec(
                    *final(engine),
                ),
                Err(e) => {
                    &&& e.kind == (ErrorKind::NativeCall { code: old(engine).fault_at(0) })
                    &&& e.context@ == "Failed to get audio stream status"@
                    &&& (e.native_message matches Some(nm) && nm@ == old(
                        engine,
                    ).fault_msg_seq()[0])
                    &&& final(engine).release_log_seq() =~= old(engine).release_log_seq().push(
                        (old(engine).slot_count() + 1) as usize,
                    )
                },
            },
    {
        let queried = engine.stream_get_status(self.handle.inner());
        if queried.0 != 0 {
            let e = translate_failure(engine, queried.0, "Failed to get audio stream status");
            return Err(e);
        }
        Ok(StreamStatus::from_u32(queried.1))
    }

    /// Requests up to `buffer.len()` bytes of already-produced audio.
    ///
    /// The count returned never exceeds the buffer's length.  The
    /// bytes delivered are exactly the ones that follow what this
    /// stream delivered before; fewer than requested (including zero)
    /// may arrive without that meaning end-of-stream.  Once the
    /// operation is canceled, or everything produced has been
    /// delivered, the count is zero.  Bytes of the buffer beyond the
    /// count keep their old values.
    pub fn read(&self, engine: &mut Engine, buffer: &mut Vec<u8>) -> (r: Result<u32, Error>)
        requires
            self.wf(*old(engine)),
            old(engine).slot_count() < usize::MAX,
            old(buffer).len() <= u32::MAX,
        ensures
            self.wf(*final(engine)),
            final(buffer).len() == old(buffer).len(),
            final(engine).stream_result(self.sid()) == old(engine).stream_result(self.sid()),
            preserves_slots_except(*old(engine), *final(engine), self.sid()),
            faults_advanced(*old(engine), *final(engine)),
            final(engine).slot_count() == old(engine).slot_count() + (if r is Ok {
                0int
            } else {
                1int
            }),
            r is Ok <==> old(engine).fault_at(0) == 0,
            match r {
                Ok(n) => {
                    let avail = old(engine).stream_available(self.sid());
                    let m = if old(buffer).len() <= avail {
                        old(buffer).len() as int
                    } else {
                        avail
                    };
                    &&& n <= old(buffer).len()
                    &&& n as int == m
                    &&& final(buffer)@.subrange(0, m) =~= old(engine).result_audio(
                        old(engine).stream_result(self.sid()),
                    ).subrange(
                        old(engine).stream_pos(self.sid()) as int,
                        old(engine).stream_pos(self.sid()) + m,
                    )
                    &&& final(buffer)@.subrange(m, old(buffer).len() as int) =~= old(
                        buffer,
                    )@.subrange(m, old(buffer).len() as int)
                    &&& final(engine).stream_pos(self.sid()) == old(engine).stream_pos(self.sid())
                        + m
                    &&& same_slots_except(*old(engine), *final(engine), self.sid())
                    &&& final(engine).release_log_seq() == old(engine).release_log_seq()
                    &&& final(engine).last_error_spec() == old(engine).last_error_spec()
                },
                Err(e) => {
                    &&& e.kind == (ErrorKind::NativeCall { code: old(engine).fault_at(0) })
                    &&& e.context@ == "Failed to read audio data"@
                    &&& (e.native_message matches Some(nm) && nm@ == old(
                        engine,
                    ).fault_msg_seq()[0])
                    &&& final(engine).release_log_seq() =~= old(engine).release_log_seq().push(
                        (old(engine).slot_count() + 1) as usize,
                    )
                    &&& final(buffer)@ == old(buffer)@
                },
            },
    {
        let cap = buffer.len();
        let rd = engine.stream_read(self.handle.inner(), cap);
        if rd.0 != 0 {
            let e = translate_failure(engine, rd.0, "Failed to read audio data");
            return Err(e);
        }
        let data = rd.1;
        let ghost mid: Engine = *engine;
        let n = data.len();
        let mut i: usize = 0;
        while i < n
            invariant
                i <= n,
                n == data@.len(),
                n <= buffer@.len(),
                buffer@.len() == old(buffer)@.len(),
                *engine == mid,
                forall|k: int| 0 <= k < i ==> buffer@[k] == data@[k],
                forall|k: int| i <= k < buffer@.len() ==> buffer@[k] == old(buffer)@[k],
            decreases n - i,
        {
            let b = data[i];
            buffer[i] = b;
            i = i + 1;
        }
        proof {
            assert(buffer@.subrange(0, n as int) =~= data@);
            assert(buffer@.subrange(n as int, buffer@.len() as int) =~= old(buffer)@.subrange(
                n as int,
                old(buffer)@.len() as int,
            ));
        }
        Ok(n as u32)
    }

    /// Drains everything the engine has already produced for this
    /// stream, reading in chunks of the given size: the drain step of
    /// the driving loop, used on `AllData` before stopping.  When no
    /// fault is pending, the bytes returned are exactly the produced
    /// audio that had not been delivered yet, and afterwards nothing
    /// is left available.
    pub fn drain_available(&self, engine: &mut Engine, chunk: usize) -> (r: Result<Vec<u8>, Error>)
        requires
            self.wf(*old(engine)),
            old(engine).slot_count() < usize::MAX,
            1 <= chunk <= u32::MAX,
            old(engine).fault_count() == 0,
        ensures
            self.wf(*final(engine)),
            final(engine).fault_count() == 0,
            match r {
                Ok(out) => {
                    let res = old(engine).stream_result(self.sid());
                    &&& out@ =~= old(engine).result_audio(res).subrange(
                        old(engine).stream_pos(self.sid()) as int,
                        old(engine).stream_pos(self.sid()) + old(engine).stream_available(
                            self.sid(),
                        ),
                    )
                    &&& out@.len() == old(engine).stream_available(self.sid())
                    &&& final(engine).stream_available(self.sid()) == 0
                    &&& final(engine).stream_result(self.sid()) == res
                    &&& same_slots_except(*old(engine), *final(engine), self.sid())
                    &&& final(engine).release_log_seq() == old(engine).release_log_seq()
                },
                Err(_) => false,
            },
    {
        let ghost res = old(engine).stream_result(self.sid());
        let ghost start = old(engine).stream_pos(self.sid()) as int;
        let ghost avail0 = old(engine).stream_available(self.sid());
        let mut out: Vec<u8> = Vec::new();
        let mut buf: Vec<u8> = Vec::new();
        buf.resize(chunk, 0);
        let mut done = false;
        while !done
            invariant
                self.wf(*engine),
                res == old(engine).stream_result(self.sid()),
                start == old(engine).stream_pos(self.sid()) as int,
                avail0 == old(engine).stream_available(self.sid()),
                1 <= chunk <= u32::MAX,
                buf.len() == chunk,
                engine.fault_count() == 0,
                engine.slot_count() < usize::MAX,
                engine.stream_result(self.sid()) == res,
                engine.stream_available(self.sid()) <= avail0,
                out@.len() == avail0 - engine.stream_available(self.sid()),
                out@ =~= old(engine).result_audio(res).subrange(
                    start,
                    engine.stream_pos(self.sid()) as int,
                ),
                engine.stream_pos(self.sid()) == start + out@.len(),
                same_slots_except(*old(engine), *engine, self.sid()),
                engine.result_audio(res) == old(engine).result_audio(res),
                engine.result_canceled(res) == old(engine).result_canceled(res),
                engine.release_log_seq() == old(engine).release_log_seq(),
                engine.last_error_spec() == old(engine).last_error_spec(),
                engine.fault_code_seq() == old(engine).fault_code_seq(),
                engine.fault_msg_seq() == old(engine).fault_msg_seq(),
                done ==> engine.stream_available(self.sid()) == 0,
            decreases engine.stream_available(self.sid()) + if done {
                0int
            } else {
                1int
            },
        {
            let ghost pre = *engine;
            let n = match self.read(engine, &mut buf) {
                Ok(n) => n as usize,
                Err(_) => {
                    proof {
                        assert(false);
                    }
                    0
                },
            };
            if n == 0 {
                done = true;
            } else {
                let mut i: usize = 0;
                let ghost out_before = out@;
                while i < n
                    invariant
                        i <= n,
                        n <= buf.len(),
                        out@ =~= out_before + buf@.subrange(0, i as int),
                    decreases n - i,
                {
                    let b = buf[i];
                    out.push(b);
                    proof {
                        assert(out@ =~= out_before + buf@.subrange(0, i + 1));
                    }
                    i = i + 1;
                }
                proof {
                    let audio = old(engine).result_audio(res);
                    let p = pre.stream_pos(self.sid()) as int;
                    assert(p == start + out_before.len());
                    assert(p + n <= audio.len());
                    assert(buf@.subrange(0, n as int) =~= audio.subrange(p, p + n));
                    lemma_subrange_concat(audio, start, p, p + n);
                }
            }
        }
        Ok(out)
    }

    /// Releases the owned stream handle: exactly one release is issued
    /// for it over the wrapper's lifetime.
    pub fn release(self, engine: &mut Engine)
        requires
            self.wf(*old(engine)),
        ensures
            final(engine).is_released_slot(self.sid()),
            final(engine).release_log_seq() =~= old(engine).release_log_seq().push(self.sid()),
            crate::engine::same_slots_except(*old(engine), *final(engine), self.sid()),
            final(engine).fault_code_seq() == old(engine).fault_code_seq(),
            final(engine).fault_msg_seq() == old(engine).fault_msg_seq(),
            final(engine).last_error_spec() == old(engine).last_error_spec(),
            final(engine).release_count(self.sid()) == old(engine).release_count(self.sid()) + 1,
            forall|g: usize|
                g != self.sid() ==> final(engine).release_count(g) == old(engine).release_count(g),
    {
        let mut handle = self.handle;
        handle.release(engine);
    }
}

/// Two adjacent subranges concatenate to the enclosing subrange.
proof fn lemma_subrange_concat<A>(s: Seq<A>, a: int, b: int, c: int)
    requires
        0 <= a <= b <= c <= s.len(),
    ensures
        s.subrange(a, b) + s.subrange(b, c) =~= s.subrange(a, c),
{
    let lhs = s.subrange(a, b) + s.subrange(b, c);
    assert forall|i: int| 0 <= i < c - a implies lhs[i] == s.subrange(a, c)[i] by {
        if i < b - a {
            assert(lhs[i] == s.subrange(a, b)[i]);
        } else {
            assert(lhs[i] == s.subrange(b, c)[i - (b - a)]);
        }
    }
}

/// A status query, or anything else that leaves the engine's observed
/// state as it is, cannot change what a stream reports: the observed
/// state alone determines the status.
pub proof fn lemma_status_query_stable(s: AudioDataStream, e1: Engine, e2: Engine)
    requires
        s.wf(e1),
        observed_eq(e1, e2),
    ensures
        s.wf(e2),
        s.status_spec(e2) == s.status_spec(e1),
{
}

/// Once a stream reports `AllData` or `Canceled`, the engine has
/// nothing further to deliver through it: the state is terminal, and
/// every later read returns a count of zero.
pub proof fn lemma_terminal_state_no_more_data(s: AudioDataStream, e: Engine)
    requires
        s.wf(e),
        s.status_spec(e) == StreamStatus::AllData || s.status_spec(e) == StreamStatus::Canceled,
    ensures
        e.stream_available(s.sid()) == 0,
{
}

} // verus!
