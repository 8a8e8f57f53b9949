//! The build-status record: the single source of truth for what the
//! development server is doing. One writer (the orchestrator) mutates it
//! through the operations below; readers only ever see snapshot copies.

use vstd::prelude::*;

verus! {

/// Mathematical value of a [`BuildStatus`]: the same record with every string
/// abstracted to its character sequence.
pub struct StatusView {
    pub in_progress: bool,
    pub last_build: Option<u64>,
    pub error: Option<Seq<char>>,
    pub progress: Option<(u32, u32)>,
    pub message: Option<Seq<char>>,
}

/// What the development server is doing right now, as shown to the
/// presentation layer. `last_build` holds the caller-supplied timestamp of the
/// most recent build completion.
#[derive(Debug)]
pub struct BuildStatus {
    pub in_progress: bool,
    pub last_build: Option<u64>,
    pub error: Option<String>,
    pub progress: Option<(u32, u32)>,
    pub message: Option<String>,
}

impl View for BuildStatus {
    type V = StatusView;

    open spec fn view(&self) -> StatusView {
        StatusView {
            in_progress: self.in_progress,
            last_build: self.last_build,
            error: match self.error {
                Some(e) => Some(e@),
                None => None,
            },
            progress: self.progress,
            message: match self.message {
                Some(m) => Some(m@),
                None => None,
            },
        }
    }
}

/// The all-idle record a freshly constructed server starts from.
pub open spec fn spec_idle_status() -> StatusView {
    StatusView {
        in_progress: false,
        last_build: None,
        error: None,
        progress: None,
        message: None,
    }
}

/// Effect of starting a build: the record goes in-flight and any stale error
/// is cleared; everything else is untouched.
pub open spec fn spec_begin_build(s: StatusView) -> StatusView {
    StatusView { in_progress: true, error: None, ..s }
}

/// Effect of finishing a build at time `now`: the record leaves the in-flight
/// state, the completion time is recorded, and the error field is overwritten
/// with the outcome — `None` on success, the failure message otherwise —
/// regardless of what it held before.
pub open spec fn spec_end_build(s: StatusView, failure: Option<Seq<char>>, now: u64) -> StatusView {
    StatusView { in_progress: false, last_build: Some(now), error: failure, ..s }
}

/// Effect of a progress report: only `progress` and `message` change.
pub open spec fn spec_update_progress(
    s: StatusView,
    current: u32,
    total: u32,
    message: Seq<char>,
) -> StatusView {
    StatusView { progress: Some((current, total)), message: Some(message), ..s }
}

impl BuildStatus {
    /// A fresh record: nothing in flight, nothing built, no error.
    pub fn idle() -> (r: BuildStatus)
        ensures
            r@ == spec_idle_status(),
    {
        BuildStatus {
            in_progress: false,
            last_build: None,
            error: None,
            progress: None,
            message: None,
        }
    }

    /// Marks a build as started: in-flight, with any previous error cleared.
    pub fn begin_build(&mut self)
        ensures
            final(self)@ == spec_begin_build(old(self)@),
    {
        self.in_progress = true;
        self.error = None;
    }

    /// Marks a build as finished at time `now` with the given outcome. The
    /// error field is set to the failure message exactly when the build
    /// failed, even if an earlier error was still recorded.
    pub fn end_build(&mut self, failure: Option<String>, now: u64)
        ensures
            final(self)@ == spec_end_build(
                old(self)@,
                match failure {
                    Some(m) => Some(m@),
                    None => None,
                },
                now,
            ),
    {
        self.in_progress = false;
        self.last_build = Some(now);
        self.error = failure;
    }

    /// Records a progress milestone; does not touch the in-flight flag, the
    /// error, or the completion time.
    pub fn update_progress(&mut self, current: u32, total: u32, message: &str)
        ensures
            final(self)@ == spec_update_progress(old(self)@, current, total, message@),
    {
        self.progress = Some((current, total));
        self.message = Some(message.to_owned());
    }

    /// An immutable copy with the same value; what the presentation layer
    /// polls.
    pub fn snapshot(&self) -> (r: BuildStatus)
        ensures
            r@ == self@,
    {
        BuildStatus {
            in_progress: self.in_progress,
            last_build: self.last_build,
            error: match &self.error {
                Some(e) => Some(e.clone()),
                None => None,
            },
            progress: self.progress,
            message: match &self.message {
                Some(m) => Some(m.clone()),
                None => None,
            },
        }
    }
}

/// One step of the begin/end protocol, for reasoning about whole call
/// sequences.
pub enum StatusOp {
    Begin,
    End { failure: Option<Seq<char>>, now: u64 },
}

/// The record after one protocol step.
pub open spec fn spec_apply_op(s: StatusView, op: StatusOp) -> StatusView {
    match op {
        StatusOp::Begin => spec_begin_build(s),
        StatusOp::End { failure, now } => spec_end_build(s, failure, now),
    }
}

/// The record after a whole sequence of protocol steps, applied in order.
pub open spec fn spec_after_ops(s: StatusView, ops: Seq<StatusOp>) -> StatusView
    decreases ops.len(),
{
    if ops.len() == 0 {
        s
    } else {
        spec_apply_op(spec_after_ops(s, ops.drop_last()), ops.last())
    }
}

/// Between matching `begin_build`/`end_build` pairs the record is in-flight,
/// and only there: starting from an idle record, after any prefix of a
/// begin/end call sequence, `in_progress` holds exactly when the last call so
/// far was a `begin_build`.
pub proof fn lemma_in_progress_between_begin_and_end(s: StatusView, ops: Seq<StatusOp>)
    requires
        !s.in_progress,
    ensures
        forall|i: int|
            0 <= i <= ops.len() ==> (spec_after_ops(s, #[trigger] ops.take(i)).in_progress <==> (i
                > 0 && ops[i - 1] is Begin)),
{
    assert forall|i: int| 0 <= i <= ops.len() implies (spec_after_ops(
        s,
        #[trigger] ops.take(i),
    ).in_progress <==> (i > 0 && ops[i - 1] is Begin)) by {
        let pre = ops.take(i);
        if i == 0 {
            assert(pre.len() == 0);
        } else {
            assert(pre.len() == i);
            assert(pre.last() == ops[i - 1]);
        }
    }
}

/// An in-flight build never shows a stale error: `begin_build` puts the
/// record in flight with the error cleared, and `end_build` takes it out of
/// flight before recording any new error.
pub proof fn lemma_in_flight_has_no_stale_error(
    s: StatusView,
    failure: Option<Seq<char>>,
    now: u64,
)
    ensures
        spec_begin_build(s).in_progress && spec_begin_build(s).error is None,
        !spec_end_build(s, failure, now).in_progress,
{
}

/// `end_build` reports the new outcome unconditionally: whatever error the
/// record held before, afterwards the error field is exactly the failure
/// message of this build (or `None` on success).
pub proof fn lemma_end_build_overwrites_error(s: StatusView, failure: Option<Seq<char>>, now: u64)
    ensures
        spec_end_build(s, failure, now).error == failure,
        !spec_end_build(s, failure, now).in_progress,
        spec_end_build(s, failure, now).last_build == Some(now),
{
}

} // verus!
