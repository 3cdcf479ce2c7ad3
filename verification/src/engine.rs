use vstd::prelude::*;

verus! {

/// Status code the engine double returns when a text piece is sent to a
/// request whose input has already been closed, or when the input of an
/// already-closed request is closed again.
pub const CODE_INPUT_CLOSED: u32 = 20;

/// One resource slot of the engine double.  A handle is the one-based
/// index of its slot; slot contents never change once a slot is
/// released.
pub enum Resource {
    /// A streaming synthesis request: the text pieces received so far,
    /// in call order, whether end-of-input has been signalled, and the
    /// handle of the property bag the engine created with the request.
    Request { pieces: Vec<Vec<u8>>, closed: bool, bag: usize },
    /// A property bag: string-valued and number-valued entries, most
    /// recent entry last.
    Bag { strings: Vec<(u32, String)>, numbers: Vec<(u32, i64)> },
    /// A speech recognizer.
    Recognizer,
    /// A phrase list grammar: the phrases added so far.
    Grammar { phrases: Vec<Vec<u8>> },
    /// A grammar phrase holding one piece of text.
    Phrase { text: Vec<u8> },
    /// A speech synthesizer.
    Synthesizer,
    /// The result of a started synthesis operation: the request it came
    /// from, the audio produced so far, and whether production has
    /// finished or been canceled.
    SynthResult { request: usize, audio: Vec<u8>, finalized: bool, canceled: bool },
    /// An audio data stream bound to a synthesis result: the result
    /// handle and how many audio bytes have been delivered to readers.
    Stream { result: usize, pos: usize },
    /// Detailed information about the last failed call.
    ErrorInfo { message: String },
    /// A slot whose handle has been released.
    Released,
}

/// How many times `h` occurs in a release log.
pub open spec fn count_of(log: Seq<usize>, h: usize) -> nat
    decreases log.len(),
{
    if log.len() == 0 {
        0
    } else {
        count_of(log.drop_last(), h) + if log.last() == h {
            1nat
        } else {
            0nat
        }
    }
}

/// Appending an entry to a release log raises the count of exactly that
/// handle by one and changes no other count.
pub proof fn lemma_count_of_push(log: Seq<usize>, x: usize, h: usize)
    ensures
        count_of(log.push(x), h) == count_of(log, h) + if x == h {
            1nat
        } else {
            0nat
        },
{
    assert(log.push(x).drop_last() =~= log);
    assert(log.push(x).last() == x);
}

/// An in-memory double of the native synthesis engine's call surface.
///
/// Resources live in one-based slots; every "native" call consumes the
/// front of a fault queue, so a test can decide exactly which call fails
/// and with which code and message.  The double records every handle
/// release, which is what lets the release-exactly-once discipline of
/// the wrapper layer be stated and checked.
pub struct Engine {
    pub resources: Vec<Resource>,
    pub release_log: Vec<usize>,
    pub faults: Vec<(u32, String)>,
    pub last_error: String,
}

impl Engine {
    /// Number of slots ever allocated.
    pub open spec fn slot_count(self) -> nat {
        self.resources@.len()
    }

    /// Whether `h` is the handle of an allocated slot.
    pub open spec fn slot_ok(self, h: usize) -> bool {
        1 <= h <= self.slot_count()
    }

    /// The slot a handle names.
    pub open spec fn slot(self, h: usize) -> Resource {
        self.resources@[h - 1]
    }

    /// Every handle the wrapper layer has released, in call order.
    pub open spec fn release_log_seq(self) -> Seq<usize> {
        self.release_log@
    }

    /// How many times the handle `h` has been released.
    pub open spec fn release_count(self, h: usize) -> nat {
        count_of(self.release_log@, h)
    }

    /// The message the engine holds for the most recent failed call.
    pub open spec fn last_error_spec(self) -> Seq<char> {
        self.last_error@
    }

    /// The pending fault codes, front first.
    pub open spec fn fault_code_seq(self) -> Seq<u32> {
        self.faults@.map_values(|p: (u32, String)| p.0)
    }

    /// The messages paired with the pending fault codes.
    pub open spec fn fault_msg_seq(self) -> Seq<Seq<char>> {
        self.faults@.map_values(|p: (u32, String)| p.1@)
    }

    /// How many faults are queued.
    pub open spec fn fault_count(self) -> nat {
        self.faults@.len()
    }

    /// The code the `k`-th next native call will return: the queued
    /// code, or zero once the queue is exhausted.
    pub open spec fn fault_at(self, k: int) -> u32 {
        if 0 <= k < self.faults@.len() {
            self.faults@[k].0
        } else {
            0
        }
    }

    pub open spec fn is_request(self, h: usize) -> bool {
        self.slot_ok(h) && self.slot(h) is Request
    }

    /// The text pieces a request has received, in call order.
    pub open spec fn request_pieces(self, h: usize) -> Seq<Seq<u8>> {
        match self.slot(h) {
            Resource::Request { pieces, .. } => pieces@.map_values(|p: Vec<u8>| p@),
            _ => Seq::empty(),
        }
    }

    /// The whole text a request has received: its pieces concatenated
    /// in call order.
    pub open spec fn request_received(self, h: usize) -> Seq<u8> {
        self.request_pieces(h).flatten()
    }

    pub open spec fn request_closed(self, h: usize) -> bool {
        match self.slot(h) {
            Resource::Request { closed, .. } => closed,
            _ => false,
        }
    }

    /// The property-bag handle the engine created with a request.
    pub open spec fn request_bag(self, h: usize) -> usize {
        match self.slot(h) {
            Resource::Request { bag, .. } => bag,
            _ => 0,
        }
    }

    pub open spec fn is_bag(self, h: usize) -> bool {
        self.slot_ok(h) && self.slot(h) is Bag
    }

    pub open spec fn bag_strings(self, h: usize) -> Seq<(u32, Seq<char>)> {
        match self.slot(h) {
            Resource::Bag { strings, .. } => strings@.map_values(|p: (u32, String)| (p.0, p.1@)),
            _ => Seq::empty(),
        }
    }

    pub open spec fn bag_numbers(self, h: usize) -> Seq<(u32, i64)> {
        match self.slot(h) {
            Resource::Bag { numbers, .. } => numbers@,
            _ => Seq::empty(),
        }
    }

    pub open spec fn is_recognizer(self, h: usize) -> bool {
        self.slot_ok(h) && self.slot(h) is Recognizer
    }

    pub open spec fn is_grammar(self, h: usize) -> bool {
        self.slot_ok(h) && self.slot(h) is Grammar
    }

    pub open spec fn grammar_phrases(self, h: usize) -> Seq<Seq<u8>> {
        match self.slot(h) {
            Resource::Grammar { phrases } => phrases@.map_values(|p: Vec<u8>| p@),
            _ => Seq::empty(),
        }
    }

    pub open spec fn is_phrase(self, h: usize) -> bool {
        self.slot_ok(h) && self.slot(h) is Phrase
    }

    pub open spec fn phrase_text(self, h: usize) -> Seq<u8> {
        match self.slot(h) {
            Resource::Phrase { text } => text@,
            _ => Seq::empty(),
        }
    }

    pub open spec fn is_synthesizer(self, h: usize) -> bool {
        self.slot_ok(h) && self.slot(h) is Synthesizer
    }

    pub open spec fn is_result(self, h: usize) -> bool {
        self.slot_ok(h) && self.slot(h) is SynthResult
    }

    pub open spec fn result_request(self, h: usize) -> usize {
        match self.slot(h) {
            Resource::SynthResult { request, .. } => request,
            _ => 0,
        }
    }

    /// All audio the engine has produced for a result so far.
    pub open spec fn result_audio(self, h: usize) -> Seq<u8> {
        match self.slot(h) {
            Resource::SynthResult { audio, .. } => audio@,
            _ => Seq::empty(),
        }
    }

    pub open spec fn result_finalized(self, h: usize) -> bool {
        match self.slot(h) {
            Resource::SynthResult { finalized, .. } => finalized,
            _ => false,
        }
    }

    pub open spec fn result_canceled(self, h: usize) -> bool {
        match self.slot(h) {
            Resource::SynthResult { canceled, .. } => canceled,
            _ => false,
        }
    }

    pub open spec fn is_stream(self, h: usize) -> bool {
        self.slot_ok(h) && self.slot(h) is Stream
    }

    pub open spec fn stream_result(self, h: usize) -> usize {
        match self.slot(h) {
            Resource::Stream { result, .. } => result,
            _ => 0,
        }
    }

    /// How many audio bytes a stream has already delivered to readers.
    pub open spec fn stream_pos(self, h: usize) -> usize {
        match self.slot(h) {
            Resource::Stream { pos, .. } => pos,
            _ => 0,
        }
    }

    /// How the engine encodes the state of a stream: 0 while no unread
    /// audio exists and production goes on, 1 while unread audio is
    /// available, 2 once production has finished and every byte has
    /// been delivered, 3 once the operation was canceled.
    pub open spec fn stream_state_code(self, s: usize) -> u32 {
        let r = self.stream_result(s);
        if self.result_canceled(r) {
            3
        } else if self.result_finalized(r) && self.stream_pos(s) == self.result_audio(r).len() {
            2
        } else if (self.stream_pos(s) as int) < self.result_audio(r).len() {
            1
        } else {
            0
        }
    }

    /// How many produced audio bytes a stream still has to deliver.  A
    /// canceled operation delivers nothing further.
    pub open spec fn stream_available(self, s: usize) -> int {
        let r = self.stream_result(s);
        if self.result_canceled(r) {
            0
        } else {
            self.result_audio(r).len() - self.stream_pos(s)
        }
    }

    pub open spec fn is_error_info(self, h: usize) -> bool {
        self.slot_ok(h) && self.slot(h) is ErrorInfo
    }

    pub open spec fn error_info_text(self, h: usize) -> Seq<char> {
        match self.slot(h) {
            Resource::ErrorInfo { message } => message@,
            _ => Seq::empty(),
        }
    }

    pub open spec fn is_released_slot(self, h: usize) -> bool {
        self.slot_ok(h) && self.slot(h) is Released
    }
}

/// The string value a bag holds for a key: the most recently written
/// entry wins.
pub open spec fn str_lookup(entries: Seq<(u32, Seq<char>)>, key: u32) -> Option<Seq<char>>
    decreases entries.len(),
{
    if entries.len() == 0 {
        None
    } else if entries.last().0 == key {
        Some(entries.last().1)
    } else {
        str_lookup(entries.drop_last(), key)
    }
}

/// The numeric value a bag holds for a key: the most recently written
/// entry wins.
pub open spec fn num_lookup(entries: Seq<(u32, i64)>, key: u32) -> Option<i64>
    decreases entries.len(),
{
    if entries.len() == 0 {
        None
    } else if entries.last().0 == key {
        Some(entries.last().1)
    } else {
        num_lookup(entries.drop_last(), key)
    }
}

/// The two engines have the same slots.
pub open spec fn same_slots(pre: Engine, post: Engine) -> bool {
    post.slot_count() == pre.slot_count() && forall|j: usize|
        pre.slot_ok(j) ==> post.slot(j) == pre.slot(j)
}

/// The two engines have the same slots except possibly slot `h`.
pub open spec fn same_slots_except(pre: Engine, post: Engine, h: usize) -> bool {
    post.slot_count() == pre.slot_count() && forall|j: usize|
        pre.slot_ok(j) && j != h ==> post.slot(j) == pre.slot(j)
}

/// `post` has `k` more slots than `pre` and all old slots unchanged.
pub open spec fn extends_slots(pre: Engine, post: Engine, k: nat) -> bool {
    post.slot_count() == pre.slot_count() + k && forall|j: usize|
        pre.slot_ok(j) ==> post.slot(j) == pre.slot(j)
}

/// One native call has been made: the front of the fault queue is gone
/// (or the queue was and stays empty).
pub open spec fn faults_advanced(pre: Engine, post: Engine) -> bool {
    if pre.fault_count() == 0 {
        post.fault_code_seq() =~= pre.fault_code_seq() && post.fault_msg_seq()
            =~= pre.fault_msg_seq()
    } else {
        post.fault_code_seq() =~= pre.fault_code_seq().skip(1) && post.fault_msg_seq()
            =~= pre.fault_msg_seq().skip(1)
    }
}

/// After one native call the fault queue has moved up by one: the code
/// the next call will return is what stood second before.
pub proof fn lemma_faults_advanced_shift(pre: Engine, post: Engine)
    requires
        faults_advanced(pre, post),
    ensures
        forall|k: int| 0 <= k ==> post.fault_at(k) == pre.fault_at(k + 1),
{
    assert forall|k: int| 0 <= k implies post.fault_at(k) == pre.fault_at(k + 1) by {
        if pre.fault_count() == 0 {
            assert(post.fault_code_seq().len() == pre.fault_code_seq().len());
        } else {
            assert(post.fault_code_seq().len() == pre.fault_code_seq().len() - 1);
            if 0 <= k < post.faults@.len() {
                assert(post.fault_code_seq()[k] == post.faults@[k].0);
                assert(pre.fault_code_seq().skip(1)[k] == pre.fault_code_seq()[k + 1]);
                assert(pre.fault_code_seq()[k + 1] == pre.faults@[k + 1].0);
            }
        }
    }
}

/// Every slot that existed in `pre` is unchanged in `post`; new slots
/// may have been added behind them.
pub open spec fn preserves_slots(pre: Engine, post: Engine) -> bool {
    &&& post.slot_count() >= pre.slot_count()
    &&& forall|j: usize| pre.slot_ok(j) ==> post.slot(j) == pre.slot(j)
}

/// Every slot that existed in `pre` except `h` is unchanged in `post`;
/// new slots may have been added behind them.
pub open spec fn preserves_slots_except(pre: Engine, post: Engine, h: usize) -> bool {
    &&& post.slot_count() >= pre.slot_count()
    &&& forall|j: usize| pre.slot_ok(j) && j != h ==> post.slot(j) == pre.slot(j)
}

/// `k` native calls have been made since `pre`: the first `k` queued
/// faults, or all of them if fewer were queued, are gone.
pub open spec fn faults_advanced_by(pre: Engine, post: Engine, k: int) -> bool {
    let n = if k <= pre.fault_count() {
        k
    } else {
        pre.fault_count() as int
    };
    &&& post.fault_code_seq() =~= pre.fault_code_seq().skip(n)
    &&& post.fault_msg_seq() =~= pre.fault_msg_seq().skip(n)
}

/// A single advance of the fault queue, restated with its count: the
/// form callers chain with `lemma_faults_advanced_by_shift` after a
/// wrapper that made one native call.
pub proof fn lemma_faults_advanced_by_one(pre: Engine, post: Engine)
    requires
        faults_advanced(pre, post),
    ensures
        faults_advanced_by(pre, post, 1),
{
    if pre.fault_count() == 0 {
        assert(pre.fault_code_seq().skip(0) =~= pre.fault_code_seq());
        assert(pre.fault_msg_seq().skip(0) =~= pre.fault_msg_seq());
    }
}

/// Two single advances of the fault queue compose to an advance by
/// two.
pub proof fn lemma_faults_advanced_compose(e0: Engine, e1: Engine, e2: Engine)
    requires
        faults_advanced(e0, e1),
        faults_advanced(e1, e2),
    ensures
        faults_advanced_by(e0, e2, 2),
{
    assert(e1.fault_code_seq().len() == e1.fault_count());
    if e0.fault_count() == 0 {
        assert(e1.fault_count() == 0);
        assert(e2.fault_code_seq() =~= e0.fault_code_seq().skip(0));
        assert(e2.fault_msg_seq() =~= e0.fault_msg_seq().skip(0));
    } else if e0.fault_count() == 1 {
        assert(e1.fault_count() == 0);
        assert(e2.fault_code_seq() =~= e0.fault_code_seq().skip(1));
        assert(e2.fault_msg_seq() =~= e0.fault_msg_seq().skip(1));
    } else {
        assert(e1.fault_count() == e0.fault_count() - 1);
        assert(e2.fault_code_seq() =~= e0.fault_code_seq().skip(2));
        assert(e2.fault_msg_seq() =~= e0.fault_msg_seq().skip(2));
    }
}

/// After `k` native calls the fault queue has shifted by `k`: what
/// each upcoming call will return, and how many faults remain.  With
/// this a caller chains wrapper calls: an engine whose queue is empty
/// keeps it empty, so every following call is owed success.
pub proof fn lemma_faults_advanced_by_shift(pre: Engine, post: Engine, k: int)
    requires
        0 <= k,
        faults_advanced_by(pre, post, k),
    ensures
        forall|i: int| 0 <= i ==> post.fault_at(i) == pre.fault_at(i + k),
        post.fault_count() == if k <= pre.fault_count() {
            pre.fault_count() - k
        } else {
            0
        },
{
    let n = if k <= pre.fault_count() {
        k
    } else {
        pre.fault_count() as int
    };
    assert(post.fault_code_seq().len() == pre.fault_code_seq().len() - n);
    assert forall|i: int| 0 <= i implies post.fault_at(i) == pre.fault_at(i + k) by {
        if 0 <= i < post.faults@.len() {
            assert(post.fault_code_seq()[i] == post.faults@[i].0);
            assert(pre.fault_code_seq().skip(n)[i] == pre.fault_code_seq()[i + n]);
            assert(pre.fault_code_seq()[i + n] == pre.faults@[i + n].0);
        }
    }
}

/// Everything a caller of the wrapper layer can observe of the engine
/// is the same: slots, release log and last error message.  The fault
/// queue, a test-harness knob, is left out.
pub open spec fn observed_eq(pre: Engine, post: Engine) -> bool {
    &&& same_slots(pre, post)
    &&& post.release_log_seq() == pre.release_log_seq()
    &&& post.last_error_spec() == pre.last_error_spec()
}

impl Engine {
    /// A fresh engine double: no resources, no recorded releases, no
    /// queued faults.
    pub fn new() -> (e: Engine)
        ensures
            e.slot_count() == 0,
            e.release_log_seq() =~= Seq::<usize>::empty(),
            e.fault_count() == 0,
            e.last_error_spec() =~= Seq::<char>::empty(),
    {
        Engine {
            resources: Vec::new(),
            release_log: Vec::new(),
            faults: Vec::new(),
            last_error: String::new(),
        }
    }

    /// Queues an outcome for an upcoming native call: code zero lets
    /// that call succeed, any other code makes it fail with `message`
    /// as the engine's error detail.
    pub fn inject_fault(&mut self, code: u32, message: &str)
        ensures
            same_slots(*old(self), *final(self)),
            final(self).release_log_seq() == old(self).release_log_seq(),
            final(self).last_error_spec() == old(self).last_error_spec(),
            final(self).fault_code_seq() =~= old(self).fault_code_seq().push(code),
            final(self).fault_msg_seq() =~= old(self).fault_msg_seq().push(message@),
    {
        self.faults.push((code, message.to_owned()));
    }

    /// Takes the outcome of the next native call off the fault queue.
    /// On a nonzero code the engine's error detail is set to the queued
    /// message.
    fn take_fault(&mut self) -> (code: u32)
        ensures
            final(self).resources@ == old(self).resources@,
            same_slots(*old(self), *final(self)),
            final(self).release_log_seq() == old(self).release_log_seq(),
            code == old(self).fault_at(0),
            faults_advanced(*old(self), *final(self)),
            old(self).fault_count() == 0 ==> *final(self) == *old(self),
            code == 0 ==> final(self).last_error_spec() == old(self).last_error_spec(),
            code != 0 ==> final(self).last_error_spec() == old(self).fault_msg_seq()[0],
    {
        if self.faults.len() == 0 {
            return 0;
        }
        let entry = self.faults.remove(0);
        if entry.0 != 0 {
            self.last_error = entry.1;
        }
        proof {
            assert(self.faults@ =~= old(self).faults@.skip(1));
        }
        entry.0
    }

    /// Releases the resource a handle names: the slot is retired and
    /// the release is recorded.  Release is the one native operation
    /// the double never fails: release failures cannot be propagated
    /// out of destruction paths, so the double does not model them.
    pub fn release_handle(&mut self, h: usize) -> (code: u32)
        requires
            old(self).slot_ok(h),
            !old(self).is_released_slot(h),
        ensures
            code == 0,
            same_slots_except(*old(self), *final(self), h),
            final(self).is_released_slot(h),
            final(self).release_log_seq() =~= old(self).release_log_seq().push(h),
            final(self).release_count(h) == old(self).release_count(h) + 1,
            forall|g: usize|
                g != h ==> final(self).release_count(g) == old(self).release_count(g),
            final(self).fault_code_seq() == old(self).fault_code_seq(),
            final(self).fault_msg_seq() == old(self).fault_msg_seq(),
            final(self).last_error_spec() == old(self).last_error_spec(),
    {
        self.resources[h - 1] = Resource::Released;
        self.release_log.push(h);
        proof {
            assert forall|g: usize|
                count_of(self.release_log@, g) == count_of(old(self).release_log@, g) + (if g == h {
                    1nat
                } else {
                    0nat
                }) by {
                lemma_count_of_push(old(self).release_log@, h, g);
            }
        }
        0
    }

    /// Hands out a fresh error-info handle carrying the engine's detail
    /// message for the most recent failed call.
    pub fn get_last_error_info(&mut self) -> (h: usize)
        requires
            old(self).slot_count() < usize::MAX,
        ensures
            h == old(self).slot_count() + 1,
            extends_slots(*old(self), *final(self), 1),
            final(self).is_error_info(h),
            final(self).error_info_text(h) == old(self).last_error_spec(),
            final(self).release_log_seq() == old(self).release_log_seq(),
            final(self).fault_code_seq() == old(self).fault_code_seq(),
            final(self).fault_msg_seq() == old(self).fault_msg_seq(),
            final(self).last_error_spec() == old(self).last_error_spec(),
    {
        let h = self.resources.len() + 1;
        let message = self.last_error.clone();
        self.resources.push(Resource::ErrorInfo { message });
        h
    }

    /// Copies the message out of an error-info handle.
    pub fn error_info_message(&self, h: usize) -> (m: String)
        requires
            self.is_error_info(h),
        ensures
            m@ == self.error_info_text(h),
    {
        match &self.resources[h - 1] {
            Resource::ErrorInfo { message } => message.clone(),
            _ => {
                proof {
                    assert(false);
                }
                String::new()
            },
        }
    }

    /// Creates a streaming-text synthesis request together with its
    /// property bag.  On success the returned handle names the request;
    /// its bag is the slot allocated just before it.
    pub fn request_create(&mut self) -> (r: (u32, usize))
        requires
            old(self).slot_count() + 2 <= usize::MAX,
        ensures
            r.0 == old(self).fault_at(0),
            faults_advanced(*old(self), *final(self)),
            final(self).release_log_seq() == old(self).release_log_seq(),
            r.0 != 0 ==> same_slots(*old(self), *final(self)) && final(self).last_error_spec()
                == old(self).fault_msg_seq()[0],
            r.0 == 0 ==> {
                &&& extends_slots(*old(self), *final(self), 2)
                &&& r.1 == old(self).slot_count() + 2
                &&& final(self).is_request(r.1)
                &&& final(self).request_pieces(r.1) =~= Seq::<Seq<u8>>::empty()
                &&& !final(self).request_closed(r.1)
                &&& final(self).request_bag(r.1) == old(self).slot_count() + 1
                &&& final(self).is_bag(final(self).request_bag(r.1))
                &&& final(self).bag_strings(final(self).request_bag(r.1)) =~= Seq::<(
                    u32,
                    Seq<char>,
                )>::empty()
                &&& final(self).bag_numbers(final(self).request_bag(r.1)) =~= Seq::<(
                    u32,
                    i64,
                )>::empty()
                &&& final(self).last_error_spec() == old(self).last_error_spec()
            },
    {
        let code = self.take_fault();
        if code != 0 {
            return (code, 0);
        }
        let bag_handle = self.resources.len() + 1;
        self.resources.push(Resource::Bag { strings: Vec::new(), numbers: Vec::new() });
        let request_handle = self.resources.len() + 1;
        self.resources.push(
            Resource::Request { pieces: Vec::new(), closed: false, bag: bag_handle },
        );
        (0, request_handle)
    }

    /// Hands out the handle of the property bag created with a request.
    pub fn request_get_property_bag(&mut self, req: usize) -> (r: (u32, usize))
        requires
            old(self).is_request(req),
        ensures
            r.0 == old(self).fault_at(0),
            faults_advanced(*old(self), *final(self)),
            same_slots(*old(self), *final(self)),
            final(self).release_log_seq() == old(self).release_log_seq(),
            r.0 == 0 ==> r.1 == old(self).request_bag(req) && final(self).last_error_spec()
                == old(self).last_error_spec(),
            r.0 != 0 ==> final(self).last_error_spec() == old(self).fault_msg_seq()[0],
    {
        let code = self.take_fault();
        if code != 0 {
            return (code, 0);
        }
        match &self.resources[req - 1] {
            Resource::Request { bag, .. } => (0, *bag),
            _ => {
                proof {
                    assert(false);
                }
                (0, 0)
            },
        }
    }

    /// Receives one discrete piece of text for a request.  The piece is
    /// appended to what the request has received; a request whose input
    /// was closed refuses the piece.
    pub fn send_text_piece(&mut self, req: usize, bytes: Vec<u8>) -> (code: u32)
        requires
            old(self).is_request(req),
        ensures
            faults_advanced(*old(self), *final(self)),
            final(self).release_log_seq() == old(self).release_log_seq(),
            same_slots_except(*old(self), *final(self), req),
            final(self).is_request(req),
            final(self).request_closed(req) == old(self).request_closed(req),
            final(self).request_bag(req) == old(self).request_bag(req),
            code == 0 <==> old(self).fault_at(0) == 0 && !old(self).request_closed(req),
            code == 0 ==> final(self).request_pieces(req) =~= old(self).request_pieces(req).push(
                bytes@,
            ) && final(self).last_error_spec() == old(self).last_error_spec(),
            code != 0 ==> same_slots(*old(self), *final(self)),
            old(self).fault_at(0) != 0 ==> code == old(self).fault_at(0) && final(self).last_error_spec() == old(self).fault_msg_seq()[0],
            old(self).fault_at(0) == 0 && old(self).request_closed(req) ==> code
                == CODE_INPUT_CLOSED && final(self).last_error_spec() == old(self).last_error_spec(),
    {
        let code = self.take_fault();
        if code != 0 {
            return code;
        }
        let slot = self.resources.remove(req - 1);
        match slot {
            Resource::Request { mut pieces, closed, bag } => {
                if closed {
                    self.resources.insert(req - 1, Resource::Request { pieces, closed, bag });
                    proof {
                        assert(self.resources@ =~= old(self).resources@);
                    }
                    CODE_INPUT_CLOSED
                } else {
                    pieces.push(bytes);
                    self.resources.insert(req - 1, Resource::Request { pieces, closed, bag });
                    proof {
                        assert(self.resources@ =~= old(self).resources@.update(
                            req - 1,
                            self.resources@[req - 1],
                        ));
                        assert(self.request_pieces(req) =~= old(self).request_pieces(req).push(
                            bytes@,
                        ));
                    }
                    0
                }
            },
            other => {
                proof {
                    assert(false);
                }
                self.resources.insert(req - 1, other);
                0
            },
        }
    }

    /// Observes end-of-input for a request: no further text pieces will
    /// come, and the engine is free to finalize synthesis.  Closing an
    /// already-closed request is refused.
    pub fn finish_request(&mut self, req: usize) -> (code: u32)
        requires
            old(self).is_request(req),
        ensures
            faults_advanced(*old(self), *final(self)),
            final(self).release_log_seq() == old(self).release_log_seq(),
            same_slots_except(*old(self), *final(self), req),
            final(self).is_request(req),
            final(self).request_pieces(req) =~= old(self).request_pieces(req),
            final(self).request_bag(req) == old(self).request_bag(req),
            code == 0 <==> old(self).fault_at(0) == 0 && !old(self).request_closed(req),
            code == 0 ==> final(self).request_closed(req) && final(self).last_error_spec() == old(self).last_error_spec(),
            code != 0 ==> same_slots(*old(self), *final(self)),
            old(self).fault_at(0) != 0 ==> code == old(self).fault_at(0) && final(self).last_error_spec() == old(self).fault_msg_seq()[0],
            old(self).fault_at(0) == 0 && old(self).request_closed(req) ==> code
                == CODE_INPUT_CLOSED && final(self).last_error_spec() == old(self).last_error_spec(),
    {
        let code = self.take_fault();
        if code != 0 {
            return code;
        }
        let slot = self.resources.remove(req - 1);
        match slot {
            Resource::Request { pieces, closed, bag } => {
                if closed {
                    self.resources.insert(req - 1, Resource::Request { pieces, closed, bag });
                    proof {
                        assert(self.resources@ =~= old(self).resources@);
                    }
                    CODE_INPUT_CLOSED
                } else {
                    self.resources.insert(
                        req - 1,
                        Resource::Request { pieces, closed: true, bag },
                    );
                    proof {
                        assert(self.request_pieces(req) =~= old(self).request_pieces(req));
                    }
                    0
                }
            },
            other => {
                proof {
                    assert(false);
                }
                self.resources.insert(req - 1, other);
                0
            },
        }
    }

    /// Reports the whole text a request has received: its pieces
    /// concatenated in call order.
    pub fn received_text(&self, req: usize) -> (r: Vec<u8>)
        requires
            self.is_request(req),
        ensures
            r@ == self.request_received(req),
    {
        match &self.resources[req - 1] {
            Resource::Request { pieces, .. } => {
                let mut out: Vec<u8> = Vec::new();
                let mut i: usize = 0;
                proof {
                    assert(self.request_pieces(req).take(0) =~= Seq::<Seq<u8>>::empty());
                    assert(Seq::<Seq<u8>>::empty().flatten() =~= Seq::<u8>::empty());
                }
                while i < pieces.len()
                    invariant
                        i <= pieces.len(),
                        self.is_request(req),
                        pieces@.map_values(|p: Vec<u8>| p@) == self.request_pieces(req),
                        out@ == self.request_pieces(req).take(i as int).flatten(),
                    decreases pieces.len() - i,
                {
                    out.extend_from_slice(pieces[i].as_slice());
                    proof {
                        let ps = self.request_pieces(req);
                        assert(ps.take(i as int).push(ps[i as int]) =~= ps.take(i + 1));
                        ps.take(i as int).lemma_flatten_push(ps[i as int]);
                    }
                    i = i + 1;
                }
                proof {
                    assert(self.request_pieces(req).take(pieces@.len() as int) =~= self
                        .request_pieces(req));
                }
                out
            },
            _ => {
                proof {
                    assert(false);
                }
                Vec::new()
            },
        }
    }

    /// Creates a speech synthesizer.
    pub fn synthesizer_create(&mut self) -> (r: (u32, usize))
        requires
            old(self).slot_count() < usize::MAX,
        ensures
            r.0 == old(self).fault_at(0),
            faults_advanced(*old(self), *final(self)),
            final(self).release_log_seq() == old(self).release_log_seq(),
            r.0 != 0 ==> final(self).resources@ == old(self).resources@ && final(self).last_error_spec() == old(self).fault_msg_seq()[0],
            r.0 == 0 ==> {
                &&& extends_slots(*old(self), *final(self), 1)
                &&& r.1 == old(self).slot_count() + 1
                &&& final(self).is_synthesizer(r.1)
                &&& final(self).last_error_spec() == old(self).last_error_spec()
            },
    {
        let code = self.take_fault();
        if code != 0 {
            return (code, 0);
        }
        let h = self.resources.len() + 1;
        self.resources.push(Resource::Synthesizer);
        (0, h)
    }

    /// Creates a speech recognizer.
    pub fn recognizer_create(&mut self) -> (r: (u32, usize))
        requires
            old(self).slot_count() < usize::MAX,
        ensures
            r.0 == old(self).fault_at(0),
            faults_advanced(*old(self), *final(self)),
            final(self).release_log_seq() == old(self).release_log_seq(),
            r.0 != 0 ==> final(self).resources@ == old(self).resources@ && final(self).last_error_spec() == old(self).fault_msg_seq()[0],
            r.0 == 0 ==> {
                &&& extends_slots(*old(self), *final(self), 1)
                &&& r.1 == old(self).slot_count() + 1
                &&& final(self).is_recognizer(r.1)
                &&& final(self).last_error_spec() == old(self).last_error_spec()
            },
    {
        let code = self.take_fault();
        if code != 0 {
            return (code, 0);
        }
        let h = self.resources.len() + 1;
        self.resources.push(Resource::Recognizer);
        (0, h)
    }

    /// Starts an asynchronous synthesis operation for a request and
    /// hands back the handle of its result.  The call returns as soon
    /// as the result exists; audio production follows on its own.
    pub fn start_speaking(&mut self, synth: usize, req: usize) -> (r: (u32, usize))
        requires
            old(self).is_synthesizer(synth),
            old(self).is_request(req),
            old(self).slot_count() < usize::MAX,
        ensures
            r.0 == old(self).fault_at(0),
            faults_advanced(*old(self), *final(self)),
            final(self).release_log_seq() == old(self).release_log_seq(),
            r.0 != 0 ==> final(self).resources@ == old(self).resources@ && final(self).last_error_spec() == old(self).fault_msg_seq()[0],
            r.0 == 0 ==> {
                &&& extends_slots(*old(self), *final(self), 1)
                &&& r.1 == old(self).slot_count() + 1
                &&& final(self).is_result(r.1)
                &&& final(self).result_request(r.1) == req
                &&& final(self).result_audio(r.1) =~= Seq::<u8>::empty()
                &&& !final(self).result_finalized(r.1)
                &&& !final(self).result_canceled(r.1)
                &&& final(self).last_error_spec() == old(self).last_error_spec()
            },
    {
        let code = self.take_fault();
        if code != 0 {
            return (code, 0);
        }
        let h = self.resources.len() + 1;
        self.resources.push(
            Resource::SynthResult { request: req, audio: Vec::new(), finalized: false, canceled: false },
        );
        (0, h)
    }

    /// Binds a new audio data stream to a synthesis result.
    pub fn stream_create(&mut self, result: usize) -> (r: (u32, usize))
        requires
            old(self).is_result(result),
            old(self).slot_count() < usize::MAX,
        ensures
            r.0 == old(self).fault_at(0),
            faults_advanced(*old(self), *final(self)),
            final(self).release_log_seq() == old(self).release_log_seq(),
            r.0 != 0 ==> final(self).resources@ == old(self).resources@ && final(self).last_error_spec() == old(self).fault_msg_seq()[0],
            r.0 == 0 ==> {
                &&& extends_slots(*old(self), *final(self), 1)
                &&& r.1 == old(self).slot_count() + 1
                &&& final(self).is_stream(r.1)
                &&& final(self).stream_result(r.1) == result
                &&& final(self).stream_pos(r.1) == 0
                &&& final(self).last_error_spec() == old(self).last_error_spec()
            },
    {
        let code = self.take_fault();
        if code != 0 {
            return (code, 0);
        }
        let h = self.resources.len() + 1;
        self.resources.push(Resource::Stream { result, pos: 0 });
        (0, h)
    }

    /// Reports the encoded state of a stream.  The query has no side
    /// effect on any resource.
    pub fn stream_get_status(&mut self, s: usize) -> (r: (u32, u32))
        requires
            old(self).is_stream(s),
            old(self).is_result(old(self).stream_result(s)),
        ensures
            r.0 == old(self).fault_at(0),
            faults_advanced(*old(self), *final(self)),
            final(self).resources@ == old(self).resources@,
            final(self).release_log_seq() == old(self).release_log_seq(),
            r.0 == 0 ==> r.1 == old(self).stream_state_code(s) && final(self).last_error_spec()
                == old(self).last_error_spec(),
            r.0 != 0 ==> final(self).last_error_spec() == old(self).fault_msg_seq()[0],
    {
        let code = self.take_fault();
        if code != 0 {
            return (code, 0);
        }
        let (res, pos) = match &self.resources[s - 1] {
            Resource::Stream { result, pos } => (*result, *pos),
            _ => {
                proof {
                    assert(false);
                }
                (0, 0)
            },
        };
        match &self.resources[res - 1] {
            Resource::SynthResult { audio, finalized, canceled, .. } => {
                if *canceled {
                    (0, 3)
                } else if *finalized && pos == audio.len() {
                    (0, 2)
                } else if pos < audio.len() {
                    (0, 1)
                } else {
                    (0, 0)
                }
            },
            _ => {
                proof {
                    assert(false);
                }
                (0, 0)
            },
        }
    }

    /// One byte of the audio the engine has produced for a result.
    pub fn result_audio_byte(&self, r: usize, i: usize) -> (b: u8)
        requires
            self.is_result(r),
            i < self.result_audio(r).len(),
        ensures
            b == self.result_audio(r)[i as int],
    {
        match &self.resources[r - 1] {
            Resource::SynthResult { audio, .. } => audio[i],
            _ => {
                proof {
                    assert(false);
                }
                0
            },
        }
    }

    /// Delivers up to `max` bytes of already-produced audio from a
    /// stream: the bytes that follow what the stream has delivered
    /// before, fewer than `max` (including none) when fewer are
    /// available, and none once the operation was canceled.
    pub fn stream_read(&mut self, s: usize, max: usize) -> (r: (u32, Vec<u8>))
        requires
            old(self).is_stream(s),
            old(self).is_result(old(self).stream_result(s)),
            old(self).stream_pos(s) <= old(self).result_audio(old(self).stream_result(s)).len(),
        ensures
            r.0 == old(self).fault_at(0),
            faults_advanced(*old(self), *final(self)),
            final(self).release_log_seq() == old(self).release_log_seq(),
            same_slots_except(*old(self), *final(self), s),
            r.0 != 0 ==> final(self).resources@ == old(self).resources@ && final(self).last_error_spec() == old(self).fault_msg_seq()[0],
            r.0 == 0 ==> {
                let n = if (max as int) <= old(self).stream_available(s) {
                    max as int
                } else {
                    old(self).stream_available(s)
                };
                let res = old(self).stream_result(s);
                &&& r.1@.len() == n
                &&& r.1@ =~= old(self).result_audio(res).subrange(
                    old(self).stream_pos(s) as int,
                    old(self).stream_pos(s) + n,
                )
                &&& final(self).is_stream(s)
                &&& final(self).stream_result(s) == res
                &&& final(self).stream_pos(s) == old(self).stream_pos(s) + n
                &&& final(self).last_error_spec() == old(self).last_error_spec()
            },
    {
        let code = self.take_fault();
        if code != 0 {
            return (code, Vec::new());
        }
        let (res, pos) = match &self.resources[s - 1] {
            Resource::Stream { result, pos } => (*result, *pos),
            _ => {
                proof {
                    assert(false);
                }
                (0, 0)
            },
        };
        let (alen, canceled) = match &self.resources[res - 1] {
            Resource::SynthResult { audio, canceled, .. } => (audio.len(), *canceled),
            _ => {
                proof {
                    assert(false);
                }
                (0, false)
            },
        };
        let avail: usize = if canceled {
            0
        } else {
            alen - pos
        };
        let n: usize = if max < avail {
            max
        } else {
            avail
        };
        let mut out: Vec<u8> = Vec::new();
        let mut j: usize = 0;
        while j < n
            invariant
                j <= n,
                pos + n <= usize::MAX,
                pos + n <= self.result_audio(res).len(),
                self.is_result(res),
                out@ =~= self.result_audio(res).subrange(pos as int, pos + j),
            decreases n - j,
        {
            let b = self.result_audio_byte(res, pos + j);
            out.push(b);
            proof {
                assert(out@ =~= self.result_audio(res).subrange(pos as int, pos + j + 1));
            }
            j = j + 1;
        }
        let slot = self.resources.remove(s - 1);
        match slot {
            Resource::Stream { result, pos: p } => {
                self.resources.insert(s - 1, Resource::Stream { result, pos: p + n });
                proof {
                    assert(self.resources@ =~= old(self).resources@.update(
                        s - 1,
                        self.resources@[s - 1],
                    ));
                }
            },
            other => {
                proof {
                    assert(false);
                }
                self.resources.insert(s - 1, other);
            },
        }
        (0, out)
    }

    /// The engine's own production side: more produced audio becomes
    /// available for a result.  Only an operation that is neither
    /// finished nor canceled produces further audio.
    pub fn supply_audio(&mut self, result: usize, bytes: Vec<u8>)
        requires
            old(self).is_result(result),
            !old(self).result_finalized(result),
            !old(self).result_canceled(result),
        ensures
            same_slots_except(*old(self), *final(self), result),
            final(self).is_result(result),
            final(self).result_request(result) == old(self).result_request(result),
            final(self).result_audio(result) =~= old(self).result_audio(result) + bytes@,
            !final(self).result_finalized(result),
            !final(self).result_canceled(result),
            final(self).release_log_seq() == old(self).release_log_seq(),
            final(self).fault_code_seq() == old(self).fault_code_seq(),
            final(self).fault_msg_seq() == old(self).fault_msg_seq(),
            final(self).last_error_spec() == old(self).last_error_spec(),
    {
        let mut bytes = bytes;
        let slot = self.resources.remove(result - 1);
        match slot {
            Resource::SynthResult { request, mut audio, finalized, canceled } => {
                audio.append(&mut bytes);
                self.resources.insert(
                    result - 1,
                    Resource::SynthResult { request, audio, finalized, canceled },
                );
                proof {
                    assert(self.resources@ =~= old(self).resources@.update(
                        result - 1,
                        self.resources@[result - 1],
                    ));
                }
            },
            other => {
                proof {
                    assert(false);
                }
                self.resources.insert(result - 1, other);
            },
        }
    }

    /// The engine's own production side: audio production for a result
    /// is finished.  The engine finalizes only after it has observed
    /// end-of-input on the request the result came from.
    pub fn finalize_result(&mut self, result: usize)
        requires
            old(self).is_result(result),
            !old(self).result_canceled(result),
            old(self).is_request(old(self).result_request(result)),
            old(self).request_closed(old(self).result_request(result)),
        ensures
            same_slots_except(*old(self), *final(self), result),
            final(self).is_result(result),
            final(self).result_request(result) == old(self).result_request(result),
            final(self).result_audio(result) =~= old(self).result_audio(result),
            final(self).result_finalized(result),
            !final(self).result_canceled(result),
            final(self).release_log_seq() == old(self).release_log_seq(),
            final(self).fault_code_seq() == old(self).fault_code_seq(),
            final(self).fault_msg_seq() == old(self).fault_msg_seq(),
            final(self).last_error_spec() == old(self).last_error_spec(),
    {
        let slot = self.resources.remove(result - 1);
        match slot {
            Resource::SynthResult { request, audio, finalized: _, canceled } => {
                self.resources.insert(
                    result - 1,
                    Resource::SynthResult { request, audio, finalized: true, canceled },
                );
                proof {
                    assert(self.resources@ =~= old(self).resources@.update(
                        result - 1,
                        self.resources@[result - 1],
                    ));
                }
            },
            other => {
                proof {
                    assert(false);
                }
                self.resources.insert(result - 1, other);
            },
        }
    }

    /// The engine's own production side: the operation behind a result
    /// is canceled.  Cancellation is terminal, and like finalization it
    /// happens only once the engine has observed end-of-input on the
    /// request the result came from.
    pub fn cancel_result(&mut self, result: usize)
        requires
            old(self).is_result(result),
            old(self).is_request(old(self).result_request(result)),
            old(self).request_closed(old(self).result_request(result)),
        ensures
            same_slots_except(*old(self), *final(self), result),
            final(self).is_result(result),
            final(self).result_request(result) == old(self).result_request(result),
            final(self).result_audio(result) =~= old(self).result_audio(result),
            final(self).result_canceled(result),
            final(self).release_log_seq() == old(self).release_log_seq(),
            final(self).fault_code_seq() == old(self).fault_code_seq(),
            final(self).fault_msg_seq() == old(self).fault_msg_seq(),
            final(self).last_error_spec() == old(self).last_error_spec(),
    {
        let slot = self.resources.remove(result - 1);
        match slot {
            Resource::SynthResult { request, audio, finalized, canceled: _ } => {
                self.resources.insert(
                    result - 1,
                    Resource::SynthResult { request, audio, finalized, canceled: true },
                );
                proof {
                    assert(self.resources@ =~= old(self).resources@.update(
                        result - 1,
                        self.resources@[result - 1],
                    ));
                }
            },
            other => {
                proof {
                    assert(false);
                }
                self.resources.insert(result - 1, other);
            },
        }
    }

    /// Writes a string-valued entry into a property bag.  Reads always
    /// see the most recently written entry for a key.
    pub fn bag_set_string(&mut self, bag: usize, key: u32, value: String) -> (code: u32)
        requires
            old(self).is_bag(bag),
        ensures
            code == old(self).fault_at(0),
            faults_advanced(*old(self), *final(self)),
            final(self).release_log_seq() == old(self).release_log_seq(),
            same_slots_except(*old(self), *final(self), bag),
            final(self).is_bag(bag),
            final(self).bag_numbers(bag) == old(self).bag_numbers(bag),
            code == 0 ==> final(self).bag_strings(bag) =~= old(self).bag_strings(bag).push(
                (key, value@),
            ) && final(self).last_error_spec() == old(self).last_error_spec(),
            code != 0 ==> final(self).resources@ == old(self).resources@ && final(self).last_error_spec() == old(self).fault_msg_seq()[0],
    {
        let code = self.take_fault();
        if code != 0 {
            return code;
        }
        let slot = self.resources.remove(bag - 1);
        match slot {
            Resource::Bag { mut strings, numbers } => {
                strings.push((key, value));
                self.resources.insert(bag - 1, Resource::Bag { strings, numbers });
                proof {
                    assert(self.resources@ =~= old(self).resources@.update(
                        bag - 1,
                        self.resources@[bag - 1],
                    ));
                    assert(self.bag_strings(bag) =~= old(self).bag_strings(bag).push(
                        (key, value@),
                    ));
                }
            },
            other => {
                proof {
                    assert(false);
                }
                self.resources.insert(bag - 1, other);
            },
        }
        0
    }

    /// Writes a number-valued entry into a property bag.
    pub fn bag_set_number(&mut self, bag: usize, key: u32, value: i64) -> (code: u32)
        requires
            old(self).is_bag(bag),
        ensures
            code == old(self).fault_at(0),
            faults_advanced(*old(self), *final(self)),
            final(self).release_log_seq() == old(self).release_log_seq(),
            same_slots_except(*old(self), *final(self), bag),
            final(self).is_bag(bag),
            final(self).bag_strings(bag) == old(self).bag_strings(bag),
            code == 0 ==> final(self).bag_numbers(bag) =~= old(self).bag_numbers(bag).push(
                (key, value),
            ) && final(self).last_error_spec() == old(self).last_error_spec(),
            code != 0 ==> final(self).resources@ == old(self).resources@ && final(self).last_error_spec() == old(self).fault_msg_seq()[0],
    {
        let code = self.take_fault();
        if code != 0 {
            return code;
        }
        let slot = self.resources.remove(bag - 1);
        match slot {
            Resource::Bag { strings, mut numbers } => {
                numbers.push((key, value));
                self.resources.insert(bag - 1, Resource::Bag { strings, numbers });
                proof {
                    assert(self.resources@ =~= old(self).resources@.update(
                        bag - 1,
                        self.resources@[bag - 1],
                    ));
                    assert(self.bag_numbers(bag) =~= old(self).bag_numbers(bag).push(
                        (key, value),
                    ));
                }
            },
            other => {
                proof {
                    assert(false);
                }
                self.resources.insert(bag - 1, other);
            },
        }
        0
    }

    /// Reads the string value a bag holds for a key, if any.  Every
    /// read crosses into the engine: nothing is cached on the wrapper
    /// side, so a value the engine changed is seen at once.
    pub fn bag_get_string(&self, bag: usize, key: u32) -> (r: Option<String>)
        requires
            self.is_bag(bag),
        ensures
            match r {
                Option::Some(v) => str_lookup(self.bag_strings(bag), key)
                    == Option::Some(v@),
                Option::None => str_lookup(self.bag_strings(bag), key) is None,
            },
    {
        match &self.resources[bag - 1] {
            Resource::Bag { strings, .. } => {
                let ghost view = self.bag_strings(bag);
                let mut i: usize = strings.len();
                proof {
                    assert(view.take(i as int) =~= view);
                }
                while i > 0
                    invariant
                        i <= strings.len(),
                        self.is_bag(bag),
                        strings@.map_values(|p: (u32, String)| (p.0, p.1@)) == view,
                        view == self.bag_strings(bag),
                        str_lookup(view, key) == str_lookup(view.take(i as int), key),
                    decreases i,
                {
                    i = i - 1;
                    if strings[i].0 == key {
                        proof {
                            assert(view.take(i + 1).last() == view[i as int]);
                        }
                        return Some(strings[i].1.clone());
                    }
                    proof {
                        assert(view.take(i + 1).last() == view[i as int]);
                        assert(view.take(i + 1).drop_last() =~= view.take(i as int));
                    }
                }
                proof {
                    assert(view.take(0) =~= Seq::<(u32, Seq<char>)>::empty());
                }
                None
            },
            _ => {
                proof {
                    assert(false);
                }
                None
            },
        }
    }

    /// Reads the numeric value a bag holds for a key, if any.
    pub fn bag_get_number(&self, bag: usize, key: u32) -> (r: Option<i64>)
        requires
            self.is_bag(bag),
        ensures
            r == num_lookup(self.bag_numbers(bag), key),
    {
        match &self.resources[bag - 1] {
            Resource::Bag { numbers, .. } => {
                let ghost view = self.bag_numbers(bag);
                let mut i: usize = numbers.len();
                proof {
                    assert(view.take(i as int) =~= view);
                }
                while i > 0
                    invariant
                        i <= numbers.len(),
                        self.is_bag(bag),
                        numbers@ == view,
                        view == self.bag_numbers(bag),
                        num_lookup(view, key) == num_lookup(view.take(i as int), key),
                    decreases i,
                {
                    i = i - 1;
                    if numbers[i].0 == key {
                        proof {
                            assert(view.take(i + 1).last() == view[i as int]);
                        }
                        return Some(numbers[i].1);
                    }
                    proof {
                        assert(view.take(i + 1).last() == view[i as int]);
                        assert(view.take(i + 1).drop_last() =~= view.take(i as int));
                    }
                }
                proof {
                    assert(view.take(0) =~= Seq::<(u32, i64)>::empty());
                }
                None
            },
            _ => {
                proof {
                    assert(false);
                }
                None
            },
        }
    }

    /// Creates a grammar phrase holding one piece of text.
    pub fn phrase_create(&mut self, text: Vec<u8>) -> (r: (u32, usize))
        requires
            old(self).slot_count() < usize::MAX,
        ensures
            r.0 == old(self).fault_at(0),
            faults_advanced(*old(self), *final(self)),
            final(self).release_log_seq() == old(self).release_log_seq(),
            r.0 != 0 ==> final(self).resources@ == old(self).resources@ && final(self).last_error_spec() == old(self).fault_msg_seq()[0],
            r.0 == 0 ==> {
                &&& extends_slots(*old(self), *final(self), 1)
                &&& r.1 == old(self).slot_count() + 1
                &&& final(self).is_phrase(r.1)
                &&& final(self).phrase_text(r.1) == text@
                &&& final(self).last_error_spec() == old(self).last_error_spec()
            },
    {
        let code = self.take_fault();
        if code != 0 {
            return (code, 0);
        }
        let h = self.resources.len() + 1;
        self.resources.push(Resource::Phrase { text });
        (0, h)
    }

    /// Creates a phrase list grammar for a recognizer.
    pub fn grammar_from_recognizer(&mut self, rec: usize) -> (r: (u32, usize))
        requires
            old(self).is_recognizer(rec),
            old(self).slot_count() < usize::MAX,
        ensures
            r.0 == old(self).fault_at(0),
            faults_advanced(*old(self), *final(self)),
            final(self).release_log_seq() == old(self).release_log_seq(),
            r.0 != 0 ==> final(self).resources@ == old(self).resources@ && final(self).last_error_spec() == old(self).fault_msg_seq()[0],
            r.0 == 0 ==> {
                &&& extends_slots(*old(self), *final(self), 1)
                &&& r.1 == old(self).slot_count() + 1
                &&& final(self).is_grammar(r.1)
                &&& final(self).grammar_phrases(r.1) =~= Seq::<Seq<u8>>::empty()
                &&& final(self).last_error_spec() == old(self).last_error_spec()
            },
    {
        let code = self.take_fault();
        if code != 0 {
            return (code, 0);
        }
        let h = self.resources.len() + 1;
        self.resources.push(Resource::Grammar { phrases: Vec::new() });
        (0, h)
    }

    /// Adds the text of a grammar phrase to a phrase list grammar.  The
    /// grammar keeps its own copy: the phrase resource may be released
    /// afterwards.
    pub fn grammar_add_phrase(&mut self, g: usize, p: usize) -> (code: u32)
        requires
            old(self).is_grammar(g),
            old(self).is_phrase(p),
            g != p,
        ensures
            code == old(self).fault_at(0),
            faults_advanced(*old(self), *final(self)),
            final(self).release_log_seq() == old(self).release_log_seq(),
            same_slots_except(*old(self), *final(self), g),
            final(self).is_grammar(g),
            code == 0 ==> final(self).grammar_phrases(g) =~= old(self).grammar_phrases(g).push(
                old(self).phrase_text(p),
            ) && final(self).last_error_spec() == old(self).last_error_spec(),
            code != 0 ==> final(self).resources@ == old(self).resources@ && final(self).last_error_spec() == old(self).fault_msg_seq()[0],
    {
        let code = self.take_fault();
        if code != 0 {
            return code;
        }
        let mut copy: Vec<u8> = Vec::new();
        match &self.resources[p - 1] {
            Resource::Phrase { text } => {
                copy.extend_from_slice(text.as_slice());
                proof {
                    assert(copy@ =~= self.phrase_text(p));
                }
            },
            _ => {
                proof {
                    assert(false);
                }
            },
        }
        let slot = self.resources.remove(g - 1);
        match slot {
            Resource::Grammar { mut phrases } => {
                phrases.push(copy);
                self.resources.insert(g - 1, Resource::Grammar { phrases });
                proof {
                    assert(self.resources@ =~= old(self).resources@.update(
                        g - 1,
                        self.resources@[g - 1],
                    ));
                    assert(self.grammar_phrases(g) =~= old(self).grammar_phrases(g).push(
                        old(self).phrase_text(p),
                    ));
                }
            },
            other => {
                proof {
                    assert(false);
                }
                self.resources.insert(g - 1, other);
            },
        }
        0
    }

    /// Removes every phrase from a phrase list grammar.
    pub fn grammar_clear(&mut self, g: usize) -> (code: u32)
        requires
            old(self).is_grammar(g),
        ensures
            code == old(self).fault_at(0),
            faults_advanced(*old(self), *final(self)),
            final(self).release_log_seq() == old(self).release_log_seq(),
            same_slots_except(*old(self), *final(self), g),
            final(self).is_grammar(g),
            code == 0 ==> final(self).grammar_phrases(g) =~= Seq::<Seq<u8>>::empty() && final(self).last_error_spec() == old(self).last_error_spec(),
            code != 0 ==> final(self).resources@ == old(self).resources@ && final(self).last_error_spec() == old(self).fault_msg_seq()[0],
    {
        let code = self.take_fault();
        if code != 0 {
            return code;
        }
        let slot = self.resources.remove(g - 1);
        match slot {
            Resource::Grammar { phrases: _ } => {
                self.resources.insert(g - 1, Resource::Grammar { phrases: Vec::new() });
                proof {
                    assert(self.resources@ =~= old(self).resources@.update(
                        g - 1,
                        self.resources@[g - 1],
                    ));
                }
            },
            other => {
                proof {
                    assert(false);
                }
                self.resources.insert(g - 1, other);
            },
        }
        0
    }

    /// Reports the phrases a grammar currently holds, in the order
    /// they were added.
    pub fn grammar_texts(&self, g: usize) -> (r: Vec<Vec<u8>>)
        requires
            self.is_grammar(g),
        ensures
            r@.map_values(|p: Vec<u8>| p@) =~= self.grammar_phrases(g),
    {
        match &self.resources[g - 1] {
            Resource::Grammar { phrases } => {
                let mut out: Vec<Vec<u8>> = Vec::new();
                let mut i: usize = 0;
                while i < phrases.len()
                    invariant
                        i <= phrases@.len(),
                        self.is_grammar(g),
                        phrases@.map_values(|p: Vec<u8>| p@) == self.grammar_phrases(g),
                        out@.map_values(|p: Vec<u8>| p@) =~= self.grammar_phrases(g).take(
                            i as int,
                        ),
                    decreases phrases@.len() - i,
                {
                    let mut copy: Vec<u8> = Vec::new();
                    copy.extend_from_slice(phrases[i].as_slice());
                    proof {
                        assert(copy@ =~= phrases@[i as int]@);
                    }
                    let ghost prev = out@;
                    out.push(copy);
                    proof {
                        let gp = self.grammar_phrases(g);
                        assert(out@.map_values(|p: Vec<u8>| p@) =~= prev.map_values(
                            |p: Vec<u8>| p@,
                        ).push(gp[i as int]));
                        assert(prev.map_values(|p: Vec<u8>| p@).push(gp[i as int]) =~= gp.take(
                            i + 1,
                        ));
                    }
                    i = i + 1;
                }
                proof {
                    assert(self.grammar_phrases(g).take(phrases@.len() as int) =~= self
                        .grammar_phrases(g));
                }
                out
            },
            _ => {
                proof {
                    assert(false);
                }
                Vec::new()
            },
        }
    }

    /// The handles the wrapper layer has released so far, in order.
    pub fn released_handles(&self) -> (r: &Vec<usize>)
        ensures
            r@ == self.release_log_seq(),
    {
        &self.release_log
    }
}

} // verus!
