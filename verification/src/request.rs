use vstd::prelude::*;
use vstd::string::StringSliceAdditionalSpecFns;

use crate::engine::{extends_slots, faults_advanced, faults_advanced_by, preserves_slots_except, Engine, CODE_INPUT_CLOSED};
use crate::error::{convert_err, has_nul, translate_failure, Error, ErrorKind};
use crate::handle::SmartHandle;
use crate::property::PropertyCollection;

verus! {

/// A streaming-text synthesis request: it owns the native request
/// handle and carries the non-owning view of the property bag the
/// engine created with it.  Created once per synthesis operation; its
/// identity never changes afterwards.
#[derive(Debug)]
pub struct SpeechSynthesisRequest {
    pub handle: SmartHandle,
    pub properties: PropertyCollection,
}

/// A non-owning view of a live request through which text is pushed
/// in.  It borrows the request, so it cannot outlive it, and releasing
/// the request while a view exists is ruled out by the borrow.
#[derive(Debug)]
pub struct TextInputStream<'a> {
    pub parent: &'a SpeechSynthesisRequest,
}

impl SpeechSynthesisRequest {
    /// The engine-side handle of this request.
    pub open spec fn req(self) -> usize {
        self.handle.raw
    }

    /// Well-formed against an engine: the owned handle is live and
    /// names a request whose property bag is the one this wrapper
    /// carries.
    pub open spec fn wf(self, e: Engine) -> bool {
        &&& !self.handle.released
        &&& self.handle.raw != 0
        &&& e.is_request(self.handle.raw)
        &&& e.request_bag(self.handle.raw) == self.properties.handle
        &&& e.is_bag(self.properties.handle)
    }

    /// Creates the streaming-text request variant and retrieves its
    /// property bag.
    ///
    /// Two native calls are made: creation, then the property-bag
    /// fetch.  Success is owed exactly when both succeed.  When the
    /// second fails, the request handle that the first call produced
    /// is released before the error returns: the early error return
    /// leaks nothing.
    pub fn new_text_streaming_request(engine: &mut Engine) -> (r: Result<
        SpeechSynthesisRequest,
        Error,
    >)
        requires
            old(engine).slot_count() + 3 <= usize::MAX,
        ensures
            r is Ok <==> old(engine).fault_at(0) == 0 && old(engine).fault_at(1) == 0,
            old(engine).fault_at(0) != 0 ==> faults_advanced(*old(engine), *final(engine)),
            old(engine).fault_at(0) == 0 ==> faults_advanced_by(*old(engine), *final(engine), 2),
            match r {
                Ok(req) => {
                    &&& req.wf(*final(engine))
                    &&& extends_slots(*old(engine), *final(engine), 2)
                    &&& req.req() == old(engine).slot_count() + 2
                    &&& req.properties.handle == old(engine).slot_count() + 1
                    &&& final(engine).request_pieces(req.req()) =~= Seq::<Seq<u8>>::empty()
                    &&& !final(engine).request_closed(req.req())
                    &&& final(engine).release_log_seq() == old(engine).release_log_seq()
                    &&& final(engine).last_error_spec() == old(engine).last_error_spec()
                },
                Err(e) => {
                    &&& e.kind == (ErrorKind::NativeCall {
                        code: if old(engine).fault_at(0) != 0 {
                            old(engine).fault_at(0)
                        } else {
                            old(engine).fault_at(1)
                        },
                    })
                    &&& forall|j: usize|
                        old(engine).slot_ok(j) ==> final(engine).slot(j) == old(engine).slot(j)
                    &&& old(engine).fault_at(0) != 0 ==> {
                        &&& final(engine).slot_count() == old(engine).slot_count() + 1
                        &&& e.context@ == "Failed to create speech synthesis request handle"@
                        &&& (e.native_message matches Some(nm) && nm@ == old(
                            engine,
                        ).fault_msg_seq()[0])
                        &&& final(engine).release_log_seq() =~= old(engine).release_log_seq().push(
                            (old(engine).slot_count() + 1) as usize,
                        )
                    }
                    &&& old(engine).fault_at(0) == 0 ==> {
                        let req_h = (old(engine).slot_count() + 2) as usize;
                        &&& final(engine).slot_count() == old(engine).slot_count() + 3
                        &&& final(engine).is_released_slot(req_h)
                        &&& final(engine).release_count(req_h) == old(engine).release_count(req_h)
                            + 1
                        &&& e.context@
                            == "Failed to get speech synthesis request property bag"@
                        &&& (e.native_message matches Some(nm) && nm@ == old(
                            engine,
                        ).fault_msg_seq()[1])
                        &&& final(engine).release_log_seq() =~= old(engine).release_log_seq().push(
                            (old(engine).slot_count() + 3) as usize,
                        ).push(req_h)
                    }
                },
            },
    {
        let created = engine.request_create();
        proof {
            crate::engine::lemma_faults_advanced_shift(*old(engine), *engine);
        }
        if created.0 != 0 {
            let e = translate_failure(engine, created.0, "Failed to create speech synthesis request handle");
            return Err(e);
        }
        let request_handle = created.1;
        let mut handle = SmartHandle::create("SpeechSynthesisRequest", request_handle);
        let ghost mid = *engine;
        let fetched = engine.request_get_property_bag(request_handle);
        proof {
            crate::engine::lemma_faults_advanced_compose(*old(engine), mid, *engine);
        }
        if fetched.0 != 0 {
            proof {
                assert(old(engine).fault_count() >= 1);
                assert(mid.fault_msg_seq()[0] == old(engine).fault_msg_seq().skip(1)[0]);
                assert(old(engine).fault_msg_seq().skip(1)[0] == old(engine).fault_msg_seq()[1]);
            }
            let e = translate_failure(engine, fetched.0, "Failed to get speech synthesis request property bag");
            handle.release(engine);
            return Err(e);
        }
        Ok(
            SpeechSynthesisRequest {
                handle,
                properties: PropertyCollection::from_handle(fetched.1),
            },
        )
    }

    /// Returns the text-input view of this request: a borrow, not a
    /// new resource.
    pub fn get_text_input_stream(&self) -> (r: TextInputStream<'_>)
        ensures
            r.parent == self,
    {
        TextInputStream::new(self)
    }

    /// Releases the owned request handle: exactly one release is
    /// issued for it over the wrapper's lifetime.
    pub fn release(self, engine: &mut Engine)
        requires
            self.wf(*old(engine)),
        ensures
            final(engine).is_released_slot(self.req()),
            final(engine).release_log_seq() =~= old(engine).release_log_seq().push(self.req()),
            crate::engine::same_slots_except(*old(engine), *final(engine), self.req()),
            final(engine).fault_code_seq() == old(engine).fault_code_seq(),
            final(engine).fault_msg_seq() == old(engine).fault_msg_seq(),
            final(engine).last_error_spec() == old(engine).last_error_spec(),
            final(engine).release_count(self.req()) == old(engine).release_count(self.req()) + 1,
            forall|g: usize|
                g != self.req() ==> final(engine).release_count(g) == old(engine).release_count(g),
    {
        let mut handle = self.handle;
        handle.release(engine);
    }

    /// Encodes one piece of text and forwards it to the engine with
    /// its byte length.  A piece with an embedded NUL byte is rejected
    /// with an encoding error before any native call is attempted.
    fn send_text_piece(&self, engine: &mut Engine, text: &str) -> (r: Result<(), Error>)
        requires
            self.wf(*old(engine)),
            old(engine).slot_count() < usize::MAX,
        ensures
            self.wf(*final(engine)),
            final(engine).request_closed(self.req()) == old(engine).request_closed(self.req()),
            preserves_slots_except(*old(engine), *final(engine), self.req()),
            r is Ok <==> !has_nul(text.spec_bytes()) && old(engine).fault_at(0) == 0 && !old(engine).request_closed(self.req()),
            has_nul(text.spec_bytes()) ==> *final(engine) == *old(engine) && (r matches Err(e)
                && (e.kind == ErrorKind::Encoding) && (e.context@ == "Failed to send text piece"@)
                && (e.native_message is None)),
            !has_nul(text.spec_bytes()) ==> faults_advanced(*old(engine), *final(engine)) && final(engine).slot_count() == old(engine).slot_count() + (if r is Ok {
                0int
            } else {
                1int
            }),
            r is Ok ==> {
                &&& final(engine).request_pieces(self.req()) =~= old(engine).request_pieces(
                    self.req(),
                ).push(text.spec_bytes())
                &&& final(engine).request_received(self.req()) =~= old(engine).request_received(
                    self.req(),
                ) + text.spec_bytes()
                &&& final(engine).release_log_seq() == old(engine).release_log_seq()
                &&& final(engine).last_error_spec() == old(engine).last_error_spec()
            },
            !has_nul(text.spec_bytes()) && !(r is Ok) ==> {
                &&& final(engine).request_pieces(self.req()) =~= old(engine).request_pieces(
                    self.req(),
                )
                &&& final(engine).release_log_seq() =~= old(engine).release_log_seq().push(
                    (old(engine).slot_count() + 1) as usize,
                )
                &&& (r matches Err(e) && (e.kind == (ErrorKind::NativeCall {
                    code: if old(engine).fault_at(0) != 0 {
                        old(engine).fault_at(0)
                    } else {
                        CODE_INPUT_CLOSED
                    },
                })) && (e.context@ == "Failed to send text piece"@) && (e.native_message matches
                Some(nm) && nm@ == (if old(engine).fault_at(0) != 0 {
                    old(engine).fault_msg_seq()[0]
                } else {
                    old(engine).last_error_spec()
                })))
            },
    {
        let b = text.as_bytes();
        let mut i: usize = 0;
        while i < b.len()
            invariant
                i <= b@.len(),
                b@ == text.spec_bytes(),
                forall|k: int| 0 <= k < i ==> b@[k] != 0,
                *engine == *old(engine),
                self.wf(*engine),
            decreases b@.len() - i,
        {
            if b[i] == 0 {
                return Err(Error::encoding("Failed to send text piece"));
            }
            i = i + 1;
        }
        let mut bytes: Vec<u8> = Vec::new();
        bytes.extend_from_slice(b);
        proof {
            assert(bytes@ =~= text.spec_bytes());
        }
        let code = engine.send_text_piece(self.handle.inner(), bytes);
        let r = convert_err(engine, code, "Failed to send text piece");
        proof {
            if code == 0 {
                Seq::lemma_flatten_push(
                    old(engine).request_pieces(self.req()),
                    text.spec_bytes(),
                );
            }
        }
        r
    }

    /// Signals end-of-input to the engine: already-submitted text may
    /// now be finalized, and no further piece is accepted.
    fn finish_input(&self, engine: &mut Engine) -> (r: Result<(), Error>)
        requires
            self.wf(*old(engine)),
            old(engine).slot_count() < usize::MAX,
        ensures
            self.wf(*final(engine)),
            final(engine).request_pieces(self.req()) =~= old(engine).request_pieces(self.req()),
            final(engine).request_received(self.req()) =~= old(engine).request_received(
                self.req(),
            ),
            preserves_slots_except(*old(engine), *final(engine), self.req()),
            faults_advanced(*old(engine), *final(engine)),
            final(engine).slot_count() == old(engine).slot_count() + (if r is Ok {
                0int
            } else {
                1int
            }),
            r is Ok <==> old(engine).fault_at(0) == 0 && !old(engine).request_closed(self.req()),
            r is Ok ==> final(engine).request_closed(self.req()) && final(engine).release_log_seq() == old(engine).release_log_seq() && final(engine).last_error_spec() == old(engine).last_error_spec(),
            !(r is Ok) ==> final(engine).request_closed(self.req()) == old(engine).request_closed(
                self.req(),
            ) && final(engine).release_log_seq() =~= old(engine).release_log_seq().push(
                (old(engine).slot_count() + 1) as usize,
            ) && (r matches Err(e) && (e.kind == (ErrorKind::NativeCall {
                code: if old(engine).fault_at(0) != 0 {
                    old(engine).fault_at(0)
                } else {
                    CODE_INPUT_CLOSED
                },
            })) && (e.context@ == "Failed to finish input"@) && (e.native_message matches Some(nm)
                && nm@ == (if old(engine).fault_at(0) != 0 {
                old(engine).fault_msg_seq()[0]
            } else {
                old(engine).last_error_spec()
            }))),
    {
        let code = engine.finish_request(self.handle.inner());
        convert_err(engine, code, "Failed to finish input")
    }
}

impl<'a> TextInputStream<'a> {
    /// Binds a view to its live parent request.
    pub fn new(parent: &'a SpeechSynthesisRequest) -> (r: Self)
        ensures
            r.parent == parent,
    {
        Self { parent }
    }

    /// Submits one discrete piece of text.  Pieces are concatenated by
    /// the engine in call order, with no reordering or batching: after
    /// this call the text the engine has received is what it had
    /// received before, followed by exactly this piece.  A piece with
    /// an embedded NUL is rejected before any native call; a piece
    /// sent after `close` is refused rather than corrupting state.
    pub fn write(&self, engine: &mut Engine, text: &str) -> (r: Result<(), Error>)
        requires
            self.parent.wf(*old(engine)),
            old(engine).slot_count() < usize::MAX,
        ensures
            self.parent.wf(*final(engine)),
            final(engine).request_closed(self.parent.req()) == old(engine).request_closed(
                self.parent.req(),
            ),
            preserves_slots_except(*old(engine), *final(engine), self.parent.req()),
            r is Ok <==> !has_nul(text.spec_bytes()) && old(engine).fault_at(0) == 0 && !old(engine).request_closed(self.parent.req()),
            has_nul(text.spec_bytes()) ==> *final(engine) == *old(engine) && (r matches Err(e)
                && (e.kind == ErrorKind::Encoding) && (e.context@ == "Failed to send text piece"@)
                && (e.native_message is None)),
            !has_nul(text.spec_bytes()) ==> faults_advanced(*old(engine), *final(engine)) && final(engine).slot_count() == old(engine).slot_count() + (if r is Ok {
                0int
            } else {
                1int
            }),
            r is Ok ==> {
                &&& final(engine).request_pieces(self.parent.req()) =~= old(engine).request_pieces(self.parent.req()).push(text.spec_bytes())
                &&& final(engine).request_received(self.parent.req()) =~= old(engine).request_received(self.parent.req()) + text.spec_bytes()
                &&& final(engine).release_log_seq() == old(engine).release_log_seq()
                &&& final(engine).last_error_spec() == old(engine).last_error_spec()
            },
            !has_nul(text.spec_bytes()) && !(r is Ok) ==> {
                &&& final(engine).request_pieces(self.parent.req()) =~= old(engine).request_pieces(self.parent.req())
                &&& final(engine).release_log_seq() =~= old(engine).release_log_seq().push(
                    (old(engine).slot_count() + 1) as usize,
                )
                &&& (r matches Err(e) && (e.kind == (ErrorKind::NativeCall {
                    code: if old(engine).fault_at(0) != 0 {
                        old(engine).fault_at(0)
                    } else {
                        CODE_INPUT_CLOSED
                    },
                })) && (e.context@ == "Failed to send text piece"@) && (e.native_message matches
                Some(nm) && nm@ == (if old(engine).fault_at(0) != 0 {
                    old(engine).fault_msg_seq()[0]
                } else {
                    old(engine).last_error_spec()
                })))
            },
    {
        self.parent.send_text_piece(engine, text)
    }

    /// Signals end-of-input for the parent request.  What the engine
    /// has received is left exactly as it was; no further `write` will
    /// be accepted.
    pub fn close(&self, engine: &mut Engine) -> (r: Result<(), Error>)
        requires
            self.parent.wf(*old(engine)),
            old(engine).slot_count() < usize::MAX,
        ensures
            self.parent.wf(*final(engine)),
            final(engine).request_pieces(self.parent.req()) =~= old(engine).request_pieces(
                self.parent.req(),
            ),
            final(engine).request_received(self.parent.req()) =~= old(engine).request_received(
                self.parent.req(),
            ),
            preserves_slots_except(*old(engine), *final(engine), self.parent.req()),
            faults_advanced(*old(engine), *final(engine)),
            final(engine).slot_count() == old(engine).slot_count() + (if r is Ok {
                0int
            } else {
                1int
            }),
            r is Ok <==> old(engine).fault_at(0) == 0 && !old(engine).request_closed(
                self.parent.req(),
            ),
            r is Ok ==> final(engine).request_closed(self.parent.req()) && final(engine).release_log_seq() == old(engine).release_log_seq() && final(engine).last_error_spec() == old(engine).last_error_spec(),
            !(r is Ok) ==> final(engine).request_closed(self.parent.req()) == old(engine).request_closed(self.parent.req()) && final(engine).release_log_seq() =~= old(engine).release_log_seq().push(
                (old(engine).slot_count() + 1) as usize,
            ) && (r matches Err(e) && (e.kind == (ErrorKind::NativeCall {
                code: if old(engine).fault_at(0) != 0 {
                    old(engine).fault_at(0)
                } else {
                    CODE_INPUT_CLOSED
                },
            })) && (e.context@ == "Failed to finish input"@) && (e.native_message matches Some(nm)
                && nm@ == (if old(engine).fault_at(0) != 0 {
                old(engine).fault_msg_seq()[0]
            } else {
                old(engine).last_error_spec()
            }))),
    {
        self.parent.finish_input(engine)
    }
}

/// The text a request has received is, at every point, exactly the
/// concatenation of the pieces submitted to it, in call order: each
/// accepted `write` appends its piece and nothing else, and `close`
/// appends nothing.
pub proof fn lemma_received_is_concatenation(e: Engine, req: usize)
    requires
        e.is_request(req),
    ensures
        e.request_received(req) == e.request_pieces(req).flatten(),
{
}

} // verus!
