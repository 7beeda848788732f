//! The multipart transfer engine: a state machine that drives one chunked
//! upload through initiation, sequential part upload, completion, and
//! abort-on-failure cleanup.
//!
//! The engine itself performs no network call. The caller executes each
//! returned [`Action`] against the storage endpoint and feeds the outcome
//! back as an [`Event`]; the engine decides every transition and keeps the
//! part-number/acknowledgment bookkeeping, so those decisions are verified
//! for every possible sequence of outcomes.

use vstd::prelude::*;

use crate::planner::ByteRange;
use crate::types::S3Error;

verus! {

/// Where one transfer stands in its life cycle.
#[derive(Clone, Copy, PartialEq, Eq, Structural, Debug)]
pub enum TransferState {
    /// No request issued yet, or the initiation still in flight.
    NotStarted,
    /// The endpoint issued an upload identifier; no part acknowledged yet.
    Initiated,
    /// At least one part acknowledged, more remain.
    UploadingParts,
    /// Every planned part acknowledged; completion requested.
    Completing,
    /// The endpoint acknowledged completion. Terminal.
    Done,
    /// A failure occurred; the abort request is owed to the endpoint.
    Aborting,
    /// The transfer failed and cleanup was attempted. Terminal.
    Aborted,
}

/// The acknowledgment for one uploaded part: its 1-based number and the
/// opaque tag the endpoint returned for it.
pub struct PartResult {
    pub part_number: u32,
    pub etag: String,
}

impl Clone for PartResult {
    fn clone(&self) -> (r: Self)
        ensures
            r == *self,
    {
        PartResult { part_number: self.part_number, etag: self.etag.clone() }
    }
}

/// The outcome of one endpoint round trip, fed back into the engine.
pub enum Event {
    InitiateOk { upload_id: String },
    InitiateFailed { error: S3Error },
    PartOk { etag: String },
    PartFailed { error: S3Error },
    CompleteOk,
    CompleteFailed { error: S3Error },
    AbortOk,
    AbortFailed { error: S3Error },
}

/// What the caller must do next on the engine's behalf.
pub enum Action {
    /// Request a multipart upload identifier for (bucket, key).
    Initiate { bucket: String, key: String },
    /// Upload the bytes at [offset, offset + len) as the given part.
    UploadPart { upload_id: String, part_number: u32, offset: u64, len: u64 },
    /// Submit the ordered acknowledgments to finish the upload.
    Complete { upload_id: String, parts: Vec<PartResult> },
    /// Best-effort cleanup of the in-flight upload identifier.
    Abort { upload_id: String },
    /// The transfer is done; the key is the success value.
    Succeed { key: String },
    /// The transfer failed. `error` is the original cause; `abort_error`
    /// carries a cleanup failure as secondary information, never replacing
    /// the cause.
    Fail { error: S3Error, abort_error: Option<S3Error> },
}

/// One chunked transfer in flight.
pub struct TransferEngine {
    pub bucket: String,
    pub key: String,
    pub ranges: Vec<ByteRange>,
    pub state: TransferState,
    pub upload_id: Option<String>,
    pub parts: Vec<PartResult>,
    pub failure: Option<S3Error>,
}

impl TransferEngine {
    /// The engine's internal invariant: the recorded parts are numbered
    /// 1..=k in order, never outnumber the planned ranges, and each state
    /// pins what must already be known (an upload identifier, a failure).
    pub open spec fn wf(self) -> bool {
        &&& 1 <= self.ranges@.len() <= u32::MAX
        &&& self.parts@.len() <= self.ranges@.len()
        &&& forall|i: int|
            0 <= i < self.parts@.len() ==> (#[trigger] self.parts@[i]).part_number == i + 1
        &&& match self.state {
            TransferState::NotStarted => self.parts@.len() == 0 && self.upload_id is None
                && self.failure is None,
            TransferState::Initiated => self.parts@.len() == 0 && self.upload_id is Some
                && self.failure is None,
            TransferState::UploadingParts => 1 <= self.parts@.len() < self.ranges@.len()
                && self.upload_id is Some && self.failure is None,
            TransferState::Completing => self.parts@.len() == self.ranges@.len()
                && self.upload_id is Some && self.failure is None,
            TransferState::Done => self.parts@.len() == self.ranges@.len() && self.upload_id
                is Some && self.failure is None,
            TransferState::Aborting => self.upload_id is Some && self.failure is Some,
            TransferState::Aborted => self.failure is Some,
        }
    }

    /// Which outcomes the engine is waiting for in its current state. The
    /// two terminal states accept none.
    pub open spec fn expects(self, event: Event) -> bool {
        match event {
            Event::InitiateOk { .. } | Event::InitiateFailed { .. } => self.state
                == TransferState::NotStarted,
            Event::PartOk { .. } | Event::PartFailed { .. } => self.state
                == TransferState::Initiated || self.state == TransferState::UploadingParts,
            Event::CompleteOk | Event::CompleteFailed { .. } => self.state
                == TransferState::Completing,
            Event::AbortOk | Event::AbortFailed { .. } => self.state == TransferState::Aborting,
        }
    }

    /// Sets up a transfer for the planned ranges of (bucket, key).
    pub fn new(bucket: String, key: String, ranges: Vec<ByteRange>) -> (e: TransferEngine)
        requires
            1 <= ranges@.len() <= u32::MAX,
        ensures
            e.wf(),
            e.state == TransferState::NotStarted,
            e.bucket == bucket,
            e.key == key,
            e.ranges == ranges,
            e.parts@.len() == 0,
    {
        TransferEngine {
            bucket,
            key,
            ranges,
            state: TransferState::NotStarted,
            upload_id: None,
            parts: Vec::new(),
            failure: None,
        }
    }

    /// The first action of every chunked transfer: ask the endpoint for an
    /// upload identifier.
    pub fn begin(&self) -> (a: Action)
        requires
            self.wf(),
            self.state == TransferState::NotStarted,
        ensures
            a matches Action::Initiate { bucket, key } && bucket == self.bucket && key
                == self.key,
    {
        Action::Initiate { bucket: self.bucket.clone(), key: self.key.clone() }
    }

    /// The transition relation of one engine step: given the engine before
    /// the event, the event itself, the engine after it and the action
    /// returned, says exactly which transition was taken. `step` ensures
    /// this relation, so trace-level laws are stated over it.
    pub open spec fn spec_step(pre: TransferEngine, event: Event, post: TransferEngine, a: Action) -> bool {
        match event {
            Event::InitiateOk { upload_id } => {
                &&& post.state == TransferState::Initiated
                &&& post.upload_id == Some(upload_id)
                &&& post.parts@ == pre.parts@
                &&& a matches Action::UploadPart { upload_id: u, part_number, offset, len }
                    && u == upload_id && part_number == 1 && offset == post.ranges@[0].offset
                    && len == post.ranges@[0].len
            },
            Event::InitiateFailed { error } => {
                &&& post.state == TransferState::Aborted
                &&& post.failure == Some(error)
                &&& post.parts@ == pre.parts@
                &&& a matches Action::Fail { error: e, abort_error } && e == error
                    && abort_error is None
            },
            Event::PartOk { etag } => {
                &&& post.upload_id == pre.upload_id
                &&& post.parts@ == pre.parts@.push(
                    PartResult {
                        part_number: (pre.parts@.len() + 1) as u32,
                        etag: etag,
                    },
                )
                &&& if pre.parts@.len() + 1 < pre.ranges@.len() {
                    &&& post.state == TransferState::UploadingParts
                    &&& a matches Action::UploadPart { upload_id: u, part_number, offset, len }
                        && Some(u) == post.upload_id && part_number == post.parts@.len() + 1
                        && offset == post.ranges@[post.parts@.len() as int].offset && len
                        == post.ranges@[post.parts@.len() as int].len
                } else {
                    &&& post.state == TransferState::Completing
                    &&& a matches Action::Complete { upload_id: u, parts } && Some(u)
                        == post.upload_id && parts@ == post.parts@
                }
            },
            Event::PartFailed { error } => {
                &&& post.state == TransferState::Aborting
                &&& post.failure == Some(error)
                &&& post.parts@ == pre.parts@
                &&& post.upload_id == pre.upload_id
                &&& a matches Action::Abort { upload_id: u } && Some(u) == post.upload_id
            },
            Event::CompleteOk => {
                &&& post.state == TransferState::Done
                &&& post.parts@ == pre.parts@
                &&& a matches Action::Succeed { key } && key == post.key
            },
            Event::CompleteFailed { error } => {
                &&& post.state == TransferState::Aborting
                &&& post.failure == Some(error)
                &&& post.parts@ == pre.parts@
                &&& post.upload_id == pre.upload_id
                &&& a matches Action::Abort { upload_id: u } && Some(u) == post.upload_id
            },
            Event::AbortOk => {
                &&& post.state == TransferState::Aborted
                &&& post.failure == pre.failure
                &&& post.parts@ == pre.parts@
                &&& a matches Action::Fail { error, abort_error } && Some(error) == pre.failure && abort_error is None
            },
            Event::AbortFailed { error } => {
                &&& post.state == TransferState::Aborted
                &&& post.failure == pre.failure
                &&& post.parts@ == pre.parts@
                &&& a matches Action::Fail { error: e, abort_error } && Some(e) == pre.failure && abort_error == Some(error)
            },
        }
    }

    /// Feeds one endpoint outcome into the engine and returns the next
    /// action. Every transition of the life cycle is pinned here:
    ///
    /// - an upload identifier starts the part sequence at part 1;
    /// - each acknowledged part is recorded under the next part number, and
    ///   the following range is requested, or completion once all ranges are
    ///   acknowledged — the submitted list is exactly parts 1..=n in order,
    ///   each with the tag its upload returned;
    /// - any part or completion failure demands the abort of the upload
    ///   identifier — the abort action is returned exactly on the transition
    ///   into `Aborting`, and from `Aborting` both outcomes end `Aborted`,
    ///   so the abort is requested exactly once and completion never after
    ///   a failure;
    /// - an abort failure is reported as secondary information and never
    ///   masks the original cause.
    pub fn step(&mut self, event: Event) -> (a: Action)
        requires
            old(self).wf(),
            old(self).expects(event),
        ensures
            final(self).wf(),
            final(self).bucket == old(self).bucket,
            final(self).key == old(self).key,
            final(self).ranges == old(self).ranges,
            (a matches Action::Abort { .. }) <==> (final(self).state == TransferState::Aborting),
            (a matches Action::Complete { .. }) <==> (final(self).state == TransferState::Completing),
            TransferEngine::spec_step(*old(self), event, *final(self), a),
    {
        match event {
            Event::InitiateOk { upload_id } => {
                self.state = TransferState::Initiated;
                let first = self.ranges[0];
                let u = upload_id.clone();
                self.upload_id = Some(upload_id);
                Action::UploadPart {
                    upload_id: u,
                    part_number: 1,
                    offset: first.offset,
                    len: first.len,
                }
            },
            Event::InitiateFailed { error } => {
                self.state = TransferState::Aborted;
                let e = error.clone();
                self.failure = Some(error);
                Action::Fail { error: e, abort_error: None }
            },
            Event::PartOk { etag } => {
                let pn = (self.parts.len() + 1) as u32;
                self.parts.push(PartResult { part_number: pn, etag });
                if self.parts.len() < self.ranges.len() {
                    self.state = TransferState::UploadingParts;
                    let next = self.ranges[self.parts.len()];
                    let next_pn = (self.parts.len() + 1) as u32;
                    Action::UploadPart {
                        upload_id: self.upload_id.as_ref().unwrap().clone(),
                        part_number: next_pn,
                        offset: next.offset,
                        len: next.len,
                    }
                } else {
                    self.state = TransferState::Completing;
                    Action::Complete {
                        upload_id: self.upload_id.as_ref().unwrap().clone(),
                        parts: clone_parts(&self.parts),
                    }
                }
            },
            Event::PartFailed { error } => {
                self.state = TransferState::Aborting;
                self.failure = Some(error);
                Action::Abort { upload_id: self.upload_id.as_ref().unwrap().clone() }
            },
            Event::CompleteOk => {
                self.state = TransferState::Done;
                Action::Succeed { key: self.key.clone() }
            },
            Event::CompleteFailed { error } => {
                self.state = TransferState::Aborting;
                self.failure = Some(error);
                Action::Abort { upload_id: self.upload_id.as_ref().unwrap().clone() }
            },
            Event::AbortOk => {
                self.state = TransferState::Aborted;
                Action::Fail {
                    error: self.failure.as_ref().unwrap().clone(),
                    abort_error: None,
                }
            },
            Event::AbortFailed { error } => {
                self.state = TransferState::Aborted;
                Action::Fail {
                    error: self.failure.as_ref().unwrap().clone(),
                    abort_error: Some(error),
                }
            },
        }
    }
}

/// Copies a part list, value for value, so the completion request can carry
/// it while the engine keeps its own record.
pub fn clone_parts(parts: &Vec<PartResult>) -> (r: Vec<PartResult>)
    ensures
        r@ == parts@,
{
    let mut r: Vec<PartResult> = Vec::new();
    let mut i: usize = 0;
    while i < parts.len()
        invariant
            0 <= i <= parts.len(),
            r@ =~= parts@.take(i as int),
        decreases parts.len() - i,
    {
        r.push(parts[i].clone());
        proof {
            assert(r@ =~= parts@.take(i as int + 1));
        }
        i = i + 1;
    }
    proof {
        assert(parts@.take(parts@.len() as int) =~= parts@);
    }
    r
}

/// Law: when completion is owed, the recorded acknowledgments are exactly
/// the part numbers 1..=n in ascending order, one for each planned range.
pub proof fn lemma_completion_submits_exact_parts(e: TransferEngine)
    requires
        e.wf(),
        e.state == TransferState::Completing,
    ensures
        e.parts@.len() == e.ranges@.len(),
        forall|i: int| 0 <= i < e.parts@.len() ==> (#[trigger] e.parts@[i]).part_number == i + 1,
{
}

/// The acknowledgment tags a sequence of outcomes carries, in the order the
/// endpoint returned them: one per acknowledged part, nothing from any
/// other outcome.
pub open spec fn tags_of(events: Seq<Event>) -> Seq<String>
    decreases events.len(),
{
    if events.len() == 0 {
        Seq::empty()
    } else {
        let rest = tags_of(events.drop_last());
        match events.last() {
            Event::PartOk { etag } => rest.push(etag),
            _ => rest,
        }
    }
}

/// A legal run of the engine: `engines[0]` before any outcome, and each
/// outcome accepted by the engine it was fed to, the following engine and
/// action related to it by the transition relation.
pub open spec fn is_run(
    engines: Seq<TransferEngine>,
    events: Seq<Event>,
    actions: Seq<Action>,
) -> bool {
    &&& engines.len() == events.len() + 1
    &&& actions.len() == events.len()
    &&& forall|i: int| 0 <= i < engines.len() ==> (#[trigger] engines[i]).wf()
    &&& forall|i: int|
        0 <= i < events.len() ==> (#[trigger] engines[i]).expects(events[i])
            && TransferEngine::spec_step(engines[i], events[i], engines[i + 1], actions[i])
}

/// Law: over any legal run that starts with no part recorded, the engine's
/// record after the last outcome pairs the part numbers 1, 2, ... with
/// exactly the tags the part acknowledgments returned, in their order. In
/// particular, what a `Complete` action submits is that record.
pub proof fn lemma_run_parts_carry_the_returned_tags(
    engines: Seq<TransferEngine>,
    events: Seq<Event>,
    actions: Seq<Action>,
)
    requires
        is_run(engines, events, actions),
        engines[0].parts@.len() == 0,
    ensures
        engines.last().parts@.len() == tags_of(events).len(),
        forall|i: int|
            0 <= i < tags_of(events).len() ==> (#[trigger] engines.last().parts@[i]).etag
                == tags_of(events)[i] && engines.last().parts@[i].part_number == i + 1,
    decreases events.len(),
{
    if events.len() == 0 {
        assert(engines.last() == engines[0]);
    } else {
        let sub_engines = engines.drop_last();
        let sub_events = events.drop_last();
        let sub_actions = actions.drop_last();
        assert(is_run(sub_engines, sub_events, sub_actions)) by {
            assert(forall|i: int|
                0 <= i < sub_engines.len() ==> sub_engines[i] == engines[i]);
            assert(forall|i: int| 0 <= i < sub_events.len() ==> sub_events[i] == events[i]);
            assert(forall|i: int|
                0 <= i < sub_actions.len() ==> sub_actions[i] == actions[i]);
        }
        assert(sub_engines[0] == engines[0]);
        lemma_run_parts_carry_the_returned_tags(sub_engines, sub_events, sub_actions);
        let n = events.len() - 1;
        let pre = engines[n];
        let post = engines[n + 1];
        assert(sub_engines.last() == pre);
        assert(TransferEngine::spec_step(pre, events[n], post, actions[n]));
        assert(events.last() == events[n]);
        assert(engines.last() == post);
        match events[n] {
            Event::PartOk { etag } => {
                assert(post.parts@ == pre.parts@.push(
                    PartResult { part_number: (pre.parts@.len() + 1) as u32, etag: etag },
                ));
                assert(tags_of(events) == tags_of(sub_events).push(etag));
                assert(post.wf());
            },
            _ => {
                assert(post.parts@ == pre.parts@);
                assert(tags_of(events) == tags_of(sub_events));
            },
        }
    }
}

/// Law: the abort is requested exactly once and nothing follows it. If a
/// step returned the abort action, then whatever outcome the endpoint
/// reports, the next step neither aborts again nor completes: it reports
/// the failure, and the engine is terminal — it accepts no further event.
pub proof fn lemma_abort_exactly_once(
    e0: TransferEngine,
    ev1: Event,
    e1: TransferEngine,
    a1: Action,
    ev2: Event,
    e2: TransferEngine,
    a2: Action,
)
    requires
        e0.wf(),
        e0.expects(ev1),
        TransferEngine::spec_step(e0, ev1, e1, a1),
        a1 matches Action::Abort { .. },
        e1.wf(),
        e1.expects(ev2),
        TransferEngine::spec_step(e1, ev2, e2, a2),
    ensures
        e1.state == TransferState::Aborting,
        !(a2 matches Action::Abort { .. }),
        !(a2 matches Action::Complete { .. }),
        a2 matches Action::Fail { .. },
        e2.state == TransferState::Aborted,
        forall|ev: Event| !e2.expects(ev),
{
}

/// Law: an engine that owes an abort accepts only the abort's outcome —
/// no part upload and no completion can be fed to it — so the abort request
/// it returned on entering `Aborting` is the only one of the transfer, and
/// no completion follows a failure.
pub proof fn lemma_failure_forces_single_abort(e: TransferEngine, event: Event)
    requires
        e.wf(),
        e.state == TransferState::Aborting || e.state == TransferState::Aborted,
        e.expects(event),
    ensures
        e.state == TransferState::Aborting,
        event matches Event::AbortOk || event matches Event::AbortFailed { .. },
{
}

} // verus!
