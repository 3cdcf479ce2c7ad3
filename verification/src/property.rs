use vstd::prelude::*;

use crate::engine::{faults_advanced, num_lookup, preserves_slots_except, same_slots_except, str_lookup, Engine};
use crate::error::{convert_err, Error, ErrorKind};

verus! {

/// A typed accessor surface over a property bag the engine created for
/// a parent resource.  The view does not own the bag handle: the bag
/// shares the parent's lifetime and is never released here.  Nothing
/// is cached — every read and write crosses into the engine, so a
/// value the engine changed is observed on the very next read.
#[derive(Debug)]
pub struct PropertyCollection {
    pub handle: usize,
}

impl PropertyCollection {
    /// Well-formed against an engine: the wrapped handle names a bag.
    pub open spec fn wf(self, e: Engine) -> bool {
        e.is_bag(self.handle)
    }

    /// Wraps a bag handle obtained from a parent resource.
    pub fn from_handle(handle: usize) -> (p: PropertyCollection)
        ensures
            p.handle == handle,
    {
        PropertyCollection { handle }
    }

    /// The string value the bag holds for a key, or the given default
    /// when the bag holds none.
    pub fn get_string(&self, engine: &Engine, key: u32, default: &str) -> (r: String)
        requires
            self.wf(*engine),
        ensures
            match str_lookup(engine.bag_strings(self.handle), key) {
                Option::Some(v) => r@ == v,
                Option::None => r@ == default@,
            },
    {
        match engine.bag_get_string(self.handle, key) {
            Option::Some(v) => v,
            Option::None => default.to_owned(),
        }
    }

    /// Writes a string value for a key.  Success is owed exactly when
    /// the native call succeeds; the error carries a key-handling
    /// context and is built through the error translator.
    pub fn set_string(&self, engine: &mut Engine, key: u32, value: &str) -> (r: Result<(), Error>)
        requires
            self.wf(*old(engine)),
            old(engine).slot_count() < usize::MAX,
        ensures
            self.wf(*final(engine)),
            preserves_slots_except(*old(engine), *final(engine), self.handle),
            faults_advanced(*old(engine), *final(engine)),
            final(engine).slot_count() == old(engine).slot_count() + (if r is Ok {
                0int
            } else {
                1int
            }),
            r is Ok <==> old(engine).fault_at(0) == 0,
            r is Ok ==> final(engine).bag_strings(self.handle) =~= old(engine).bag_strings(
                self.handle,
            ).push((key, value@)) && final(engine).bag_numbers(self.handle) == old(engine).bag_numbers(self.handle) && same_slots_except(
                *old(engine),
                *final(engine),
                self.handle,
            ) && final(engine).release_log_seq() == old(engine).release_log_seq(),
            !(r is Ok) ==> final(engine).bag_strings(self.handle) == old(engine).bag_strings(
                self.handle,
            ) && final(engine).bag_numbers(self.handle) == old(engine).bag_numbers(self.handle)
                && final(engine).release_log_seq() =~= old(engine).release_log_seq().push(
                (old(engine).slot_count() + 1) as usize,
            ) && (r matches Err(e) && (e.kind == (ErrorKind::NativeCall {
                code: old(engine).fault_at(0),
            })) && (e.context@ == "PropertyCollection::set_string error"@) && (e.native_message
                matches Some(nm) && nm@ == old(engine).fault_msg_seq()[0])),
    {
        let code = engine.bag_set_string(self.handle, key, value.to_owned());
        convert_err(engine, code, "PropertyCollection::set_string error")
    }

    /// The numeric value the bag holds for a key, or the given default
    /// when the bag holds none.
    pub fn get_number(&self, engine: &Engine, key: u32, default: i64) -> (r: i64)
        requires
            self.wf(*engine),
        ensures
            match num_lookup(engine.bag_numbers(self.handle), key) {
                Option::Some(v) => r == v,
                Option::None => r == default,
            },
    {
        match engine.bag_get_number(self.handle, key) {
            Option::Some(v) => v,
            Option::None => default,
        }
    }

    /// Writes a numeric value for a key.
    pub fn set_number(&self, engine: &mut Engine, key: u32, value: i64) -> (r: Result<(), Error>)
        requires
            self.wf(*old(engine)),
            old(engine).slot_count() < usize::MAX,
        ensures
            self.wf(*final(engine)),
            preserves_slots_except(*old(engine), *final(engine), self.handle),
            faults_advanced(*old(engine), *final(engine)),
            final(engine).slot_count() == old(engine).slot_count() + (if r is Ok {
                0int
            } else {
                1int
            }),
            r is Ok <==> old(engine).fault_at(0) == 0,
            r is Ok ==> final(engine).bag_numbers(self.handle) =~= old(engine).bag_numbers(
                self.handle,
            ).push((key, value)) && final(engine).bag_strings(self.handle) == old(engine).bag_strings(self.handle) && same_slots_except(
                *old(engine),
                *final(engine),
                self.handle,
            ) && final(engine).release_log_seq() == old(engine).release_log_seq(),
            !(r is Ok) ==> final(engine).bag_numbers(self.handle) == old(engine).bag_numbers(
                self.handle,
            ) && final(engine).bag_strings(self.handle) == old(engine).bag_strings(self.handle)
                && final(engine).release_log_seq() =~= old(engine).release_log_seq().push(
                (old(engine).slot_count() + 1) as usize,
            ) && (r matches Err(e) && (e.kind == (ErrorKind::NativeCall {
                code: old(engine).fault_at(0),
            })) && (e.context@ == "PropertyCollection::set_number error"@) && (e.native_message
                matches Some(nm) && nm@ == old(engine).fault_msg_seq()[0])),
    {
        let code = engine.bag_set_number(self.handle, key, value);
        convert_err(engine, code, "PropertyCollection::set_number error")
    }
}

} // verus!
