use vstd::prelude::*;

verus! {

/// How a device interface is to be activated.
#[derive(Clone, Copy, Debug, PartialEq, Eq, Structural)]
pub enum ActivationKind {
    Default,
    ProcessLoopback,
}

/// The fixed-layout activation record handed to the platform: which kind of
/// activation, and for process loopback which process tree to capture.
#[derive(Clone, Copy, Debug, PartialEq, Eq, Structural)]
pub struct LoopbackParams {
    pub kind: ActivationKind,
    /// Capture the target process together with all of its descendants.
    pub include_tree: bool,
    pub target_process_id: u32,
}

/// The activation record for capturing the audio that process `pid`
/// renders, and with `capture_tree` that of its descendant processes too.
pub fn loopback_params(pid: u32, capture_tree: bool) -> (r: LoopbackParams)
    ensures
        r.kind == ActivationKind::ProcessLoopback,
        r.include_tree == capture_tree,
        r.target_process_id == pid,
{
    LoopbackParams { kind: ActivationKind::ProcessLoopback, include_tree: capture_tree, target_process_id: pid }
}

/// Why a blocking activation failed; each carries the platform status code.
#[derive(Clone, Copy, Debug, PartialEq, Eq, Structural)]
pub enum ActivationError {
    /// The completion event could not be created; nothing was submitted.
    EventCreation(i32),
    /// The platform refused the request at submission.
    Submission(i32),
    /// The completed operation could not be queried for its result.
    ResultQuery(i32),
    /// The operation completed with a failure status and no interface.
    Completion(i32),
    /// The completion event could not be released.
    Release(i32),
    /// The activated interface is not of the requested type.
    Narrowing(i32),
}

/// How a blocking activation ended.
#[derive(Clone, Copy, Debug, PartialEq, Eq, Structural)]
pub enum Outcome {
    /// An interface of the requested type was obtained.
    Activated,
    Failed(ActivationError),
}

/// What remains to be done once the completion event has been released.
#[derive(Clone, Copy, Debug, PartialEq, Eq, Structural)]
pub enum AfterRelease {
    /// An interface came back: narrow it to the requested type.
    Narrow,
    /// The activation has failed with this error.
    Fail(ActivationError),
}

/// Where a blocking activation stands.
#[derive(Clone, Copy, Debug, PartialEq, Eq, Structural)]
pub enum Stage {
    /// Nothing has been created yet.
    Start,
    /// The completion event exists; the request is not submitted.
    EventOpen,
    /// The request is submitted and the platform may still read the
    /// activation parameters; the caller waits on the event.
    Pending,
    /// The completion event was signalled; the result is not read yet.
    Signaled,
    /// The completion event is being released.
    Releasing(AfterRelease),
    /// The event is released and the returned interface is being narrowed.
    Narrowing,
    /// The activation is over.
    Done(Outcome),
}

/// What the outside work of the previous action reported.
#[derive(Clone, Copy, Debug, PartialEq, Eq, Structural)]
pub enum Report {
    EventCreated,
    EventFailed(i32),
    Submitted,
    SubmitFailed(i32),
    Woke,
    ResultRead { status: i32, has_interface: bool },
    ResultFailed(i32),
    Released,
    ReleaseFailed(i32),
    Narrowed,
    NarrowFailed(i32),
}

/// The outside work to perform next.
#[derive(Clone, Copy, Debug, PartialEq, Eq, Structural)]
pub enum Action {
    /// Create a manual-reset, initially unsignalled event.
    CreateEvent,
    /// Submit the asynchronous request with a handler that signals the event.
    Submit,
    /// Block until the event is signalled.
    Wait,
    /// Read the status and the optional interface from the operation.
    ReadResult,
    /// Release the completion event.
    ReleaseEvent,
    /// Narrow the returned interface to the requested type.
    Narrow,
    /// Return this outcome to the caller; the activation parameters may go.
    Finish(Outcome),
}

/// The action that a stage asks for while its report is still awaited.
pub open spec fn action_of(s: Stage) -> Action {
    match s {
        Stage::Start => Action::CreateEvent,
        Stage::EventOpen => Action::Submit,
        Stage::Pending => Action::Wait,
        Stage::Signaled => Action::ReadResult,
        Stage::Releasing(_) => Action::ReleaseEvent,
        Stage::Narrowing => Action::Narrow,
        Stage::Done(o) => Action::Finish(o),
    }
}

/// The stage that follows `s` on report `e`. A report that does not belong to
/// the stage leaves it as it is.
pub open spec fn next_stage(s: Stage, e: Report) -> Stage {
    match (s, e) {
        (Stage::Start, Report::EventCreated) => Stage::EventOpen,
        (Stage::Start, Report::EventFailed(c)) => Stage::Done(Outcome::Failed(ActivationError::EventCreation(c))),
        (Stage::EventOpen, Report::Submitted) => Stage::Pending,
        (Stage::EventOpen, Report::SubmitFailed(c)) => Stage::Releasing(
            AfterRelease::Fail(ActivationError::Submission(c)),
        ),
        (Stage::Pending, Report::Woke) => Stage::Signaled,
        (Stage::Signaled, Report::ResultRead { status, has_interface }) => Stage::Releasing(
            if has_interface {
                AfterRelease::Narrow
            } else {
                AfterRelease::Fail(ActivationError::Completion(status))
            },
        ),
        (Stage::Signaled, Report::ResultFailed(c)) => Stage::Releasing(
            AfterRelease::Fail(ActivationError::ResultQuery(c)),
        ),
        (Stage::Releasing(AfterRelease::Narrow), Report::Released) => Stage::Narrowing,
        (Stage::Releasing(AfterRelease::Fail(err)), Report::Released) => Stage::Done(Outcome::Failed(err)),
        (Stage::Releasing(_), Report::ReleaseFailed(c)) => Stage::Done(
            Outcome::Failed(ActivationError::Release(c)),
        ),
        (Stage::Narrowing, Report::Narrowed) => Stage::Done(Outcome::Activated),
        (Stage::Narrowing, Report::NarrowFailed(c)) => Stage::Done(
            Outcome::Failed(ActivationError::Narrowing(c)),
        ),
        _ => s,
    }
}

/// The first stage of an activation and the action it asks for.
pub fn begin() -> (r: (Stage, Action))
    ensures
        r.0 == Stage::Start,
        r.1 == action_of(Stage::Start),
{
    (Stage::Start, Action::CreateEvent)
}

/// The action that stage `s` asks for.
pub fn action_for(s: Stage) -> (r: Action)
    ensures
        r == action_of(s),
{
    match s {
        Stage::Start => Action::CreateEvent,
        Stage::EventOpen => Action::Submit,
        Stage::Pending => Action::Wait,
        Stage::Signaled => Action::ReadResult,
        Stage::Releasing(_) => Action::ReleaseEvent,
        Stage::Narrowing => Action::Narrow,
        Stage::Done(o) => Action::Finish(o),
    }
}

/// Advances an activation on the report of the outside work, and gives the
/// action to perform next.
pub fn step(s: Stage, e: Report) -> (r: (Stage, Action))
    ensures
        r.0 == next_stage(s, e),
        r.1 == action_of(r.0),
{
    let n = match (s, e) {
        (Stage::Start, Report::EventCreated) => Stage::EventOpen,
        (Stage::Start, Report::EventFailed(c)) => Stage::Done(Outcome::Failed(ActivationError::EventCreation(c))),
        (Stage::EventOpen, Report::Submitted) => Stage::Pending,
        (Stage::EventOpen, Report::SubmitFailed(c)) => Stage::Releasing(
            AfterRelease::Fail(ActivationError::Submission(c)),
        ),
        (Stage::Pending, Report::Woke) => Stage::Signaled,
        (Stage::Signaled, Report::ResultRead { status, has_interface }) => {
            if has_interface {
                Stage::Releasing(AfterRelease::Narrow)
            } else {
                Stage::Releasing(AfterRelease::Fail(ActivationError::Completion(status)))
            }
        },
        (Stage::Signaled, Report::ResultFailed(c)) => Stage::Releasing(
            AfterRelease::Fail(ActivationError::ResultQuery(c)),
        ),
        (Stage::Releasing(AfterRelease::Narrow), Report::Released) => Stage::Narrowing,
        (Stage::Releasing(AfterRelease::Fail(err)), Report::Released) => Stage::Done(Outcome::Failed(err)),
        (Stage::Releasing(_), Report::ReleaseFailed(c)) => Stage::Done(
            Outcome::Failed(ActivationError::Release(c)),
        ),
        (Stage::Narrowing, Report::Narrowed) => Stage::Done(Outcome::Activated),
        (Stage::Narrowing, Report::NarrowFailed(c)) => Stage::Done(
            Outcome::Failed(ActivationError::Narrowing(c)),
        ),
        _ => s,
    };
    let a = action_for(n);
    (n, a)
}

/// True while the completion event exists and has not been released.
pub open spec fn event_held(s: Stage) -> bool {
    s is EventOpen || s is Pending || s is Signaled || s is Releasing
}

/// True while the platform may still read the activation parameters.
pub open spec fn params_borrowed(s: Stage) -> bool {
    s is Pending
}

/// A request refused at submission releases its completion event, and the
/// activation then ends with the submission error or, should the release
/// itself fail, with the release error.
pub proof fn lemma_submission_failure_releases_event(c: i32, e: Report)
    ensures
        next_stage(Stage::EventOpen, Report::SubmitFailed(c)) == Stage::Releasing(
            AfterRelease::Fail(ActivationError::Submission(c)),
        ),
        action_of(next_stage(Stage::EventOpen, Report::SubmitFailed(c))) == Action::ReleaseEvent,
        ({
            let n = next_stage(Stage::Releasing(AfterRelease::Fail(ActivationError::Submission(c))), e);
            n == Stage::Releasing(AfterRelease::Fail(ActivationError::Submission(c)))
                || n == Stage::Done(Outcome::Failed(ActivationError::Submission(c)))
                || (e matches Report::ReleaseFailed(d) && n == Stage::Done(
                Outcome::Failed(ActivationError::Release(d)),
            ))
        }),
{
}

/// An activation never finishes while it holds the completion event, except
/// by a release of that event: no path leaves the event allocated.
pub proof fn lemma_finish_releases_event(s: Stage, e: Report)
    requires
        !(s is Done),
        next_stage(s, e) is Done,
    ensures
        !event_held(s) || (s is Releasing && (e is Released || e is ReleaseFailed)),
        s is Start ==> e is EventFailed,
{
}

/// A successful activation has narrowed the returned interface to the
/// requested type; a failed narrowing ends with the narrowing error.
pub proof fn lemma_narrowing_decides(s: Stage, e: Report, c: i32)
    ensures
        next_stage(Stage::Narrowing, Report::Narrowed) == Stage::Done(Outcome::Activated),
        next_stage(Stage::Narrowing, Report::NarrowFailed(c)) == Stage::Done(
            Outcome::Failed(ActivationError::Narrowing(c)),
        ),
        (!(s is Done) && next_stage(s, e) == Stage::Done(Outcome::Activated)) ==> (s is Narrowing
            && e is Narrowed),
        (!(s is Narrowing) && next_stage(s, e) is Narrowing) ==> (s == Stage::Releasing(
            AfterRelease::Narrow,
        ) && e is Released),
{
}

/// While the platform may read the activation parameters, the activation
/// neither finishes nor moves anywhere but to the signalled stage, which it
/// enters only on the completion signal.
pub proof fn lemma_params_outlive_wait(s: Stage, e: Report)
    ensures
        params_borrowed(s) ==> !(action_of(next_stage(s, e)) is Finish),
        params_borrowed(s) ==> (next_stage(s, e) is Pending || next_stage(s, e) is Signaled),
        (!(s is Signaled) && next_stage(s, e) is Signaled) ==> (s is Pending && e is Woke),
{
}

} // verus!
