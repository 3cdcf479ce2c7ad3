use vstd::prelude::*;
use vstd::string::StringSliceAdditionalSpecFns;

use crate::engine::{extends_slots, faults_advanced, faults_advanced_by, preserves_slots_except, Engine};
use crate::error::{convert_err, has_nul, translate_failure, Error, ErrorKind};
use crate::handle::SmartHandle;

verus! {

/// A speech recognizer: here only the parent resource a phrase list
/// grammar is created for.
#[derive(Debug)]
pub struct SpeechRecognizer {
    pub handle: SmartHandle,
}

impl SpeechRecognizer {
    /// The engine-side handle of this recognizer.
    pub open spec fn rec(self) -> usize {
        self.handle.raw
    }

    /// Well-formed against an engine: the owned handle is live and
    /// names a recognizer.
    pub open spec fn wf(self, e: Engine) -> bool {
        &&& !self.handle.released
        &&& self.handle.raw != 0
        &&& e.is_recognizer(self.handle.raw)
    }

    /// Creates a recognizer.
    pub fn new(engine: &mut Engine) -> (r: Result<SpeechRecognizer, Error>)
        requires
            old(engine).slot_count() + 2 <= usize::MAX,
        ensures
            faults_advanced(*old(engine), *final(engine)),
            r is Ok <==> old(engine).fault_at(0) == 0,
            match r {
                Ok(s) => {
                    &&& s.wf(*final(engine))
                    &&& extends_slots(*old(engine), *final(engine), 1)
                    &&& s.rec() == old(engine).slot_count() + 1
                    &&& final(engine).release_log_seq() == old(engine).release_log_seq()
                },
                Err(e) => {
                    &&& e.kind == (ErrorKind::NativeCall { code: old(engine).fault_at(0) })
                    &&& e.context@ == "Failed to create recognizer"@
                    &&& (e.native_message matches Some(nm) && nm@ == old(engine).fault_msg_seq()[0])
                    &&& forall|j: usize|
                        old(engine).slot_ok(j) ==> final(engine).slot(j) == old(engine).slot(j)
                    &&& final(engine).slot_count() == old(engine).slot_count() + 1
                    &&& final(engine).release_log_seq() =~= old(engine).release_log_seq().push(
                        (old(engine).slot_count() + 1) as usize,
                    )
                },
            },
    {
        let created = engine.recognizer_create();
        if created.0 != 0 {
            let e = translate_failure(engine, created.0, "Failed to create recognizer");
            return Err(e);
        }
        Ok(SpeechRecognizer { handle: SmartHandle::create("SpeechRecognizer", created.1) })
    }
}

/// A grammar phrase: one piece of text the user may speak, owned as a
/// native resource until it has been added to a grammar.
#[derive(Debug)]
pub struct GrammarPhrase {
    pub handle: SmartHandle,
}

impl GrammarPhrase {
    /// The engine-side handle of this phrase.
    pub open spec fn phr(self) -> usize {
        self.handle.raw
    }

    /// Well-formed against an engine: the owned handle is live and
    /// names a phrase.
    pub open spec fn wf(self, e: Engine) -> bool {
        &&& !self.handle.released
        &&& self.handle.raw != 0
        &&& e.is_phrase(self.handle.raw)
    }

    /// Creates a phrase from text.  Text with an embedded NUL byte is
    /// rejected with an encoding error before any native call.
    pub fn from_text(engine: &mut Engine, text: &str) -> (r: Result<GrammarPhrase, Error>)
        requires
            old(engine).slot_count() + 2 <= usize::MAX,
        ensures
            r is Ok <==> !has_nul(text.spec_bytes()) && old(engine).fault_at(0) == 0,
            has_nul(text.spec_bytes()) ==> *final(engine) == *old(engine) && (r matches Err(e)
                && (e.kind == ErrorKind::Encoding) && (e.context@
                == "GrammarPhrase::from_text error"@) && (e.native_message is None)),
            !has_nul(text.spec_bytes()) ==> crate::engine::faults_advanced(
                *old(engine),
                *final(engine),
            ) && final(engine).slot_count() == old(engine).slot_count() + 1,
            final(engine).slot_count() >= old(engine).slot_count(),
            match r {
                Ok(p) => {
                    &&& p.wf(*final(engine))
                    &&& extends_slots(*old(engine), *final(engine), 1)
                    &&& p.phr() == old(engine).slot_count() + 1
                    &&& final(engine).phrase_text(p.phr()) =~= text.spec_bytes()
                    &&& final(engine).release_log_seq() == old(engine).release_log_seq()
                    &&& final(engine).last_error_spec() == old(engine).last_error_spec()
                },
                Err(e) => {
                    &&& forall|j: usize|
                        old(engine).slot_ok(j) ==> final(engine).slot(j) == old(engine).slot(j)
                    &&& !has_nul(text.spec_bytes()) ==> {
                        &&& e.kind == (ErrorKind::NativeCall { code: old(engine).fault_at(0) })
                        &&& e.context@ == "GrammarPhrase::from_text error"@
                        &&& (e.native_message matches Some(nm) && nm@ == old(engine).fault_msg_seq()[0])
                        &&& final(engine).release_log_seq() =~= old(engine).release_log_seq().push((old(engine).slot_count() + 1) as usize)
                    }
                },
            },
    {
        let b = text.as_bytes();
        let mut i: usize = 0;
        while i < b.len()
            invariant
                i <= b@.len(),
                b@ == text.spec_bytes(),
                forall|k: int| 0 <= k < i ==> b@[k] != 0,
                *engine == *old(engine),
            decreases b@.len() - i,
        {
            if b[i] == 0 {
                return Err(Error::encoding("GrammarPhrase::from_text error"));
            }
            i = i + 1;
        }
        let mut bytes: Vec<u8> = Vec::new();
        bytes.extend_from_slice(b);
        proof {
            assert(bytes@ =~= text.spec_bytes());
        }
        let created = engine.phrase_create(bytes);
        if created.0 != 0 {
            let e = translate_failure(engine, created.0, "GrammarPhrase::from_text error");
            return Err(e);
        }
        Ok(GrammarPhrase { handle: SmartHandle::create("GrammarPhrase", created.1) })
    }

    /// Releases the owned phrase handle.
    pub fn release(self, engine: &mut Engine)
        requires
            self.wf(*old(engine)),
        ensures
            final(engine).is_released_slot(self.phr()),
            final(engine).release_log_seq() =~= old(engine).release_log_seq().push(self.phr()),
            crate::engine::same_slots_except(*old(engine), *final(engine), self.phr()),
            final(engine).fault_code_seq() == old(engine).fault_code_seq(),
            final(engine).fault_msg_seq() == old(engine).fault_msg_seq(),
            final(engine).last_error_spec() == old(engine).last_error_spec(),
            final(engine).release_count(self.phr()) == old(engine).release_count(self.phr()) + 1,
            forall|g: usize|
                g != self.phr() ==> final(engine).release_count(g) == old(engine).release_count(g),
    {
        let mut handle = self.handle;
        handle.release(engine);
    }
}

/// Represents a phrase list grammar for dynamic grammar scenarios.
#[derive(Debug)]
pub struct PhraseListGrammar {
    pub handle: SmartHandle,
}

impl PhraseListGrammar {
    /// The engine-side handle of this grammar.
    pub open spec fn gra(self) -> usize {
        self.handle.raw
    }

    /// Well-formed against an engine: the owned handle is live and
    /// names a grammar.
    pub open spec fn wf(self, e: Engine) -> bool {
        &&& !self.handle.released
        &&& self.handle.raw != 0
        &&& e.is_grammar(self.handle.raw)
    }

    /// Creates a phrase list grammar for the specified recognizer.
    pub fn from_recognizer(engine: &mut Engine, recognizer: &SpeechRecognizer) -> (r: Result<
        PhraseListGrammar,
        Error,
    >)
        requires
            recognizer.wf(*old(engine)),
            old(engine).slot_count() + 2 <= usize::MAX,
        ensures
            recognizer.wf(*final(engine)),
            faults_advanced(*old(engine), *final(engine)),
            r is Ok <==> old(engine).fault_at(0) == 0,
            match r {
                Ok(g) => {
                    &&& g.wf(*final(engine))
                    &&& extends_slots(*old(engine), *final(engine), 1)
                    &&& g.gra() == old(engine).slot_count() + 1
                    &&& final(engine).grammar_phrases(g.gra()) =~= Seq::<Seq<u8>>::empty()
                    &&& final(engine).release_log_seq() == old(engine).release_log_seq()
                },
                Err(e) => {
                    &&& e.kind == (ErrorKind::NativeCall { code: old(engine).fault_at(0) })
                    &&& e.context@ == "PhraseListGrammar::from_recognizer error"@
                    &&& (e.native_message matches Some(nm) && nm@ == old(engine).fault_msg_seq()[0])
                    &&& forall|j: usize|
                        old(engine).slot_ok(j) ==> final(engine).slot(j) == old(engine).slot(j)
                    &&& final(engine).slot_count() == old(engine).slot_count() + 1
                    &&& final(engine).release_log_seq() =~= old(engine).release_log_seq().push(
                        (old(engine).slot_count() + 1) as usize,
                    )
                },
            },
    {
        let created = engine.grammar_from_recognizer(recognizer.handle.inner());
        if created.0 != 0 {
            let e = translate_failure(
                engine,
                created.0,
                "PhraseListGrammar::from_recognizer error",
            );
            return Err(e);
        }
        Ok(PhraseListGrammar { handle: SmartHandle::create("PhraseListGrammar", created.1) })
    }

    /// AddPhrase adds a simple phrase that may be spoken by the user.
    ///
    /// A phrase resource is created, its text is added to the grammar,
    /// and the phrase handle is then released — exactly once, also
    /// when adding fails.
    pub fn add_phrase(&self, engine: &mut Engine, text: &str) -> (r: Result<(), Error>)
        requires
            self.wf(*old(engine)),
            old(engine).slot_count() + 3 <= usize::MAX,
        ensures
            self.wf(*final(engine)),
            preserves_slots_except(*old(engine), *final(engine), self.gra()),
            r is Ok <==> !has_nul(text.spec_bytes()) && old(engine).fault_at(0) == 0 && old(engine).fault_at(1) == 0,
            has_nul(text.spec_bytes()) ==> *final(engine) == *old(engine) && (r matches Err(e)
                && (e.kind == ErrorKind::Encoding) && (e.context@
                == "GrammarPhrase::from_text error"@) && (e.native_message is None)),
            !has_nul(text.spec_bytes()) && old(engine).fault_at(0) != 0 ==> faults_advanced(
                *old(engine),
                *final(engine),
            ),
            !has_nul(text.spec_bytes()) && old(engine).fault_at(0) == 0 ==> faults_advanced_by(
                *old(engine),
                *final(engine),
                2,
            ),
            !has_nul(text.spec_bytes()) ==> final(engine).slot_count() == old(engine).slot_count()
                + (if r is Ok || old(engine).fault_at(0) != 0 {
                1int
            } else {
                2int
            }),
            r is Ok ==> {
                let phrase_h = (old(engine).slot_count() + 1) as usize;
                &&& final(engine).grammar_phrases(self.gra()) =~= old(engine).grammar_phrases(
                    self.gra(),
                ).push(text.spec_bytes())
                &&& final(engine).is_released_slot(phrase_h)
                &&& final(engine).release_count(phrase_h) == old(engine).release_count(phrase_h)
                    + 1
                &&& final(engine).release_log_seq() =~= old(engine).release_log_seq().push(
                    phrase_h,
                )
            },
            !has_nul(text.spec_bytes()) && !(r is Ok) ==> {
                &&& final(engine).grammar_phrases(self.gra()) =~= old(engine).grammar_phrases(
                    self.gra(),
                )
                &&& old(engine).fault_at(0) == 0 ==> final(engine).release_count(
                    (old(engine).slot_count() + 1) as usize,
                ) == old(engine).release_count((old(engine).slot_count() + 1) as usize) + 1
                &&& (r matches Err(e) && (e.kind == (ErrorKind::NativeCall {
                    code: if old(engine).fault_at(0) != 0 {
                        old(engine).fault_at(0)
                    } else {
                        old(engine).fault_at(1)
                    },
                })) && (e.context@ == (if old(engine).fault_at(0) != 0 {
                    "GrammarPhrase::from_text error"@
                } else {
                    "PhraseListGrammar::add_phrase error"@
                })) && (e.native_message matches Some(nm) && nm@ == (if old(engine).fault_at(0)
                    != 0 {
                    old(engine).fault_msg_seq()[0]
                } else {
                    old(engine).fault_msg_seq()[1]
                })))
            },
    {
        let phrase = match GrammarPhrase::from_text(engine, text) {
            Ok(p) => p,
            Err(e) => {
                return Err(e);
            },
        };
        proof {
            crate::engine::lemma_faults_advanced_shift(*old(engine), *engine);
        }
        let ghost mid = *engine;
        let code = engine.grammar_add_phrase(self.handle.inner(), phrase.handle.inner());
        proof {
            crate::engine::lemma_faults_advanced_compose(*old(engine), mid, *engine);
            if code != 0 {
                assert(old(engine).fault_count() >= 1);
                assert(mid.fault_msg_seq()[0] == old(engine).fault_msg_seq().skip(1)[0]);
                assert(old(engine).fault_msg_seq().skip(1)[0] == old(engine).fault_msg_seq()[1]);
            }
        }
        let converted = convert_err(engine, code, "PhraseListGrammar::add_phrase error");
        phrase.release(engine);
        converted
    }

    /// Clears all phrases from the phrase list grammar.
    pub fn clear(&self, engine: &mut Engine) -> (r: Result<(), Error>)
        requires
            self.wf(*old(engine)),
            old(engine).slot_count() < usize::MAX,
        ensures
            self.wf(*final(engine)),
            preserves_slots_except(*old(engine), *final(engine), self.gra()),
            faults_advanced(*old(engine), *final(engine)),
            final(engine).slot_count() == old(engine).slot_count() + (if r is Ok {
                0int
            } else {
                1int
            }),
            r is Ok <==> old(engine).fault_at(0) == 0,
            r is Ok ==> final(engine).grammar_phrases(self.gra()) =~= Seq::<Seq<u8>>::empty()
                && final(engine).release_log_seq() == old(engine).release_log_seq() && final(engine).last_error_spec() == old(engine).last_error_spec(),
            !(r is Ok) ==> final(engine).grammar_phrases(self.gra()) =~= old(engine).grammar_phrases(self.gra()) && final(engine).release_log_seq() =~= old(engine).release_log_seq().push((old(engine).slot_count() + 1) as usize) && (r matches Err(e)
                && (e.kind == (ErrorKind::NativeCall {
                code: old(engine).fault_at(0),
            })) && (e.context@ == "PhraseListGrammar::clear error"@) && (e.native_message matches
                Some(nm) && nm@ == old(engine).fault_msg_seq()[0])),
    {
        let code = engine.grammar_clear(self.handle.inner());
        convert_err(engine, code, "PhraseListGrammar::clear error")
    }

    /// Releases the owned grammar handle.
    pub fn release(self, engine: &mut Engine)
        requires
            self.wf(*old(engine)),
        ensures
            final(engine).is_released_slot(self.gra()),
            final(engine).release_log_seq() =~= old(engine).release_log_seq().push(self.gra()),
            crate::engine::same_slots_except(*old(engine), *final(engine), self.gra()),
            final(engine).fault_code_seq() == old(engine).fault_code_seq(),
            final(engine).fault_msg_seq() == old(engine).fault_msg_seq(),
            final(engine).last_error_spec() == old(engine).last_error_spec(),
            final(engine).release_count(self.gra()) == old(engine).release_count(self.gra()) + 1,
            forall|g: usize|
                g != self.gra() ==> final(engine).release_count(g) == old(engine).release_count(g),
    {
        let mut handle = self.handle;
        handle.release(engine);
    }
}

} // verus!
