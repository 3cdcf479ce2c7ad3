use vstd::prelude::*;

use crate::engine::Engine;

verus! {

/// The kind of a structured error, matchable by callers.
#[derive(Debug, Clone, Copy, PartialEq, Eq, Structural)]
pub enum ErrorKind {
    /// A native call returned a nonzero status code.
    NativeCall { code: u32 },
    /// Text crossing the native boundary was rejected before the call
    /// was made: an embedded NUL byte, or data that is not valid text.
    Encoding,
    /// An operation was attempted through a handle whose owner has
    /// already been released.  The wrapper layer prevents this
    /// structurally; the kind exists so the taxonomy is closed.
    UseAfterRelease,
}

/// A structured error: a kind, the context of the failing call, and
/// the engine's own detail message when the native layer supplied one.
/// The native status code is preserved inside the kind.
#[derive(Debug)]
pub struct Error {
    pub kind: ErrorKind,
    pub context: String,
    pub native_message: Option<String>,
}

impl Error {
    /// An encoding failure with the given context and no native detail:
    /// constructed before any native call is made.
    pub fn encoding(context: &str) -> (e: Error)
        ensures
            e.kind == ErrorKind::Encoding,
            e.context@ == context@,
            e.native_message is None,
    {
        Error { kind: ErrorKind::Encoding, context: context.to_owned(), native_message: None }
    }

    /// The error's human-readable message: the call context, followed
    /// by the engine's detail when there is one.
    pub fn message(&self) -> (m: String)
        ensures
            match self.native_message {
                Option::Some(nm) => m@ == self.context@ + ": "@ + nm@,
                Option::None => m@ == self.context@,
            },
    {
        match &self.native_message {
            Option::Some(nm) => {
                let mut m = self.context.clone();
                m.append(": ");
                m.append(nm.as_str());
                m
            },
            Option::None => self.context.clone(),
        }
    }
}

/// Whether a byte sequence holds an embedded NUL byte.  Text crossing
/// the native boundary travels as a NUL-terminated sequence with an
/// explicit length, so such text must be rejected before the call.
pub open spec fn has_nul(bytes: Seq<u8>) -> bool {
    exists|i: int| 0 <= i < bytes.len() && bytes[i] == 0
}

/// Translates a native status code into a structured result.
///
/// A zero code is success: nothing is allocated and the engine is not
/// called at all.  Any nonzero code becomes an error carrying the code,
/// the caller's context, and the engine's detail message for the failed
/// call; the error-info handle used to fetch that message is released
/// before the function returns, so it is never leaked.
pub fn convert_err(engine: &mut Engine, code: u32, context: &str) -> (r: Result<(), Error>)
    requires
        old(engine).slot_count() < usize::MAX,
    ensures
        r is Ok <==> code == 0,
        code == 0 ==> *final(engine) == *old(engine),
        code != 0 ==> {
            let h = (old(engine).slot_count() + 1) as usize;
            &&& r matches Err(e) && (e.kind == (ErrorKind::NativeCall { code })) && (e.context@
                == context@) && (e.native_message matches Some(nm) && (nm@ == old(
                engine,
            ).last_error_spec()))
            &&& final(engine).slot_count() == old(engine).slot_count() + 1
            &&& forall|j: usize|
                old(engine).slot_ok(j) ==> final(engine).slot(j) == old(engine).slot(j)
            &&& final(engine).is_released_slot(h)
            &&& final(engine).release_log_seq() =~= old(engine).release_log_seq().push(h)
            &&& final(engine).release_count(h) == old(engine).release_count(h) + 1
            &&& forall|g: usize|
                g != h ==> final(engine).release_count(g) == old(engine).release_count(g)
            &&& final(engine).fault_code_seq() == old(engine).fault_code_seq()
            &&& final(engine).fault_msg_seq() == old(engine).fault_msg_seq()
            &&& final(engine).last_error_spec() == old(engine).last_error_spec()
        },
{
    if code == 0 {
        return Ok(());
    }
    Err(translate_failure(engine, code, context))
}

/// The error-building half of the translation, for call sites that
/// already know the code is nonzero.  It fetches the engine's detail
/// message through a fresh error-info handle and releases that handle
/// before returning.
pub fn translate_failure(engine: &mut Engine, code: u32, context: &str) -> (e: Error)
    requires
        code != 0,
        old(engine).slot_count() < usize::MAX,
    ensures
        e.kind == (ErrorKind::NativeCall { code }),
        e.context@ == context@,
        e.native_message matches Some(nm) && nm@ == old(engine).last_error_spec(),
        final(engine).slot_count() == old(engine).slot_count() + 1,
        forall|j: usize| old(engine).slot_ok(j) ==> final(engine).slot(j) == old(engine).slot(j),
        final(engine).is_released_slot((old(engine).slot_count() + 1) as usize),
        final(engine).release_log_seq() =~= old(engine).release_log_seq().push(
            (old(engine).slot_count() + 1) as usize,
        ),
        final(engine).release_count((old(engine).slot_count() + 1) as usize) == old(
            engine,
        ).release_count((old(engine).slot_count() + 1) as usize) + 1,
        forall|g: usize|
            g != ((old(engine).slot_count() + 1) as usize) ==> final(engine).release_count(g)
                == old(engine).release_count(g),
        final(engine).fault_code_seq() == old(engine).fault_code_seq(),
        final(engine).fault_msg_seq() == old(engine).fault_msg_seq(),
        final(engine).last_error_spec() == old(engine).last_error_spec(),
{
    let info = engine.get_last_error_info();
    let message = engine.error_info_message(info);
    let _ = engine.release_handle(info);
    Error {
        kind: ErrorKind::NativeCall { code },
        context: context.to_owned(),
        native_message: Some(message),
    }
}

} // verus!
