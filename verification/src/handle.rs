use vstd::prelude::*;

use crate::engine::{same_slots_except, Engine};

verus! {

/// An owning wrapper around one native resource handle.
///
/// The wrapper issues exactly one release for its handle over its whole
/// lifetime, whatever path control flow takes: `release` retires the
/// resource the first time and does nothing ever after, and a null
/// handle value (zero), which denotes no live resource, is never
/// released at all.  The kind label is carried for diagnostics only.
#[derive(Debug)]
pub struct SmartHandle {
    pub raw: usize,
    pub kind: &'static str,
    pub released: bool,
}

impl SmartHandle {
    /// Takes ownership of a native handle value together with the kind
    /// label used in diagnostics.
    pub fn create(kind: &'static str, raw: usize) -> (h: SmartHandle)
        ensures
            h.raw == raw,
            h.kind == kind,
            !h.released,
    {
        SmartHandle { raw, kind, released: false }
    }

    /// The raw value, for passing into native calls.  Only a handle
    /// that has not been released has a meaningful value to hand out.
    pub fn inner(&self) -> (r: usize)
        requires
            !self.released,
        ensures
            r == self.raw,
    {
        self.raw
    }

    /// The diagnostic kind label the wrapper was created with.
    pub fn kind_label(&self) -> (r: &'static str)
        ensures
            r == self.kind,
    {
        self.kind
    }

    /// Releases the owned resource.  The engine's release operation is
    /// invoked exactly once for the stored raw value: the first call
    /// retires the resource and records the release, every later call
    /// leaves the engine untouched, and a null value is never passed to
    /// the engine.  Release failures cannot propagate out of
    /// destruction paths, so nothing is returned.
    pub fn release(&mut self, engine: &mut Engine)
        requires
            !old(self).released && old(self).raw != 0 ==> old(engine).slot_ok(old(self).raw)
                && !old(engine).is_released_slot(old(self).raw),
        ensures
            final(self).released,
            final(self).raw == old(self).raw,
            final(self).kind == old(self).kind,
            old(self).released || old(self).raw == 0 ==> *final(engine) == *old(engine),
            !old(self).released && old(self).raw != 0 ==> {
                &&& same_slots_except(*old(engine), *final(engine), old(self).raw)
                &&& final(engine).is_released_slot(old(self).raw)
                &&& final(engine).release_log_seq() =~= old(engine).release_log_seq().push(
                    old(self).raw,
                )
                &&& final(engine).release_count(old(self).raw) == old(engine).release_count(
                    old(self).raw,
                ) + 1
                &&& forall|g: usize|
                    g != old(self).raw ==> final(engine).release_count(g) == old(
                        engine,
                    ).release_count(g)
                &&& final(engine).fault_code_seq() == old(engine).fault_code_seq()
                &&& final(engine).fault_msg_seq() == old(engine).fault_msg_seq()
                &&& final(engine).last_error_spec() == old(engine).last_error_spec()
            },
    {
        if !self.released {
            if self.raw != 0 {
                let _ = engine.release_handle(self.raw);
            }
            self.released = true;
        }
    }
}

} // verus!
