//! Acquisition of the device and of the output duplication.
//!
//! Each state machine here is a value: an unfinished state names the one
//! request that is in flight, and a transition function takes the state and
//! the reply to that request to the next state.

use vstd::prelude::*;
use crate::protocol::{
    CaptureError, Reply, Request, ADAPTER_INDEX, FEATURE_LEVEL, OUTPUT_INDEX,
};
use crate::recorder::Frame;

verus! {

/// How many duplication attempts are made before giving up.
pub const MAX_RETRIES: u32 = 10;

/// Milliseconds to wait between two duplication attempts.
pub const DUPLICATE_OUTPUT_WAITTIME: u64 = 100;

/// Milliseconds that the probe waits for its one frame.
pub const PROBE_TIMEOUT: u32 = 35;

/// Progress of the device acquisition.
#[derive(Clone, Copy, Debug, PartialEq, Eq, Structural)]
pub enum DeviceState {
    /// The adapter is being enumerated.
    Adapter,
    /// The device is being created on the adapter.
    Device,
    /// Adapter and device are there.
    Ready,
    /// The acquisition failed for good.
    Failed(CaptureError),
}

impl DeviceState {
    /// The request in flight, if the acquisition has not finished.
    pub open spec fn pending(self) -> Option<Request> {
        match self {
            DeviceState::Adapter => Some(Request::EnumAdapters { index: ADAPTER_INDEX }),
            DeviceState::Device => Some(Request::CreateDevice { feature_level: FEATURE_LEVEL }),
            DeviceState::Ready => None,
            DeviceState::Failed(_) => None,
        }
    }

    /// The state after `reply` has answered the request in flight.
    ///
    /// Nothing is tried twice: the first failure is final, and it keeps the
    /// status code under the stage that failed. A surface answers neither
    /// request and fails the acquisition as well. A finished acquisition
    /// takes no further reply into account.
    pub open spec fn after(self, reply: Reply) -> DeviceState {
        match self {
            DeviceState::Adapter => match reply {
                Reply::Done => DeviceState::Device,
                Reply::Failed { code } => DeviceState::Failed(CaptureError::AdapterUnavailable(code)),
                Reply::Surface { .. } => DeviceState::Failed(CaptureError::UnexpectedReply),
            },
            DeviceState::Device => match reply {
                Reply::Done => DeviceState::Ready,
                Reply::Failed { code } => DeviceState::Failed(CaptureError::DeviceCreation(code)),
                Reply::Surface { .. } => DeviceState::Failed(CaptureError::UnexpectedReply),
            },
            DeviceState::Ready => self,
            DeviceState::Failed(_) => self,
        }
    }

    /// The request that the host must carry out next, if any.
    pub fn request(&self) -> (request: Option<Request>)
        ensures
            request == self.pending(),
    {
        match self {
            DeviceState::Adapter => Some(Request::EnumAdapters { index: ADAPTER_INDEX }),
            DeviceState::Device => Some(Request::CreateDevice { feature_level: FEATURE_LEVEL }),
            _ => None,
        }
    }
}

/// Takes the device acquisition one step on: `reply` answers the request that
/// `state` has in flight.
pub fn create_device(state: DeviceState, reply: Reply) -> (next: DeviceState)
    ensures
        next == state.after(reply),
{
    match state {
        DeviceState::Adapter => match reply {
            Reply::Done => DeviceState::Device,
            Reply::Failed { code } => DeviceState::Failed(CaptureError::AdapterUnavailable(code)),
            Reply::Surface { .. } => DeviceState::Failed(CaptureError::UnexpectedReply),
        },
        DeviceState::Device => match reply {
            Reply::Done => DeviceState::Ready,
            Reply::Failed { code } => DeviceState::Failed(CaptureError::DeviceCreation(code)),
            Reply::Surface { .. } => DeviceState::Failed(CaptureError::UnexpectedReply),
        },
        finished => finished,
    }
}

/// A device acquisition tries nothing twice: a request that fails ends it,
/// with the status code kept, and nothing more is asked of the host.
pub proof fn device_failure_is_final(state: DeviceState, code: i32)
    requires
        state.pending() is Some,
    ensures
        state.after(Reply::Failed { code }) is Failed,
        state.after(Reply::Failed { code }).pending() is None,
        state == DeviceState::Adapter ==> state.after(Reply::Failed { code })
            == DeviceState::Failed(CaptureError::AdapterUnavailable(code)),
        state == DeviceState::Device ==> state.after(Reply::Failed { code })
            == DeviceState::Failed(CaptureError::DeviceCreation(code)),
{
}

/// Progress of the duplication acquisition.
#[derive(Clone, Copy, Debug, PartialEq, Eq, Structural)]
pub enum DuplicationState {
    /// The output is being enumerated.
    Output,
    /// The attempt with this number, counted from 1, is being made.
    Attempt(u32),
    /// The attempt with this number has failed and the pause before the next
    /// one is running.
    Backoff(u32),
    /// The duplication is held.
    Held,
    /// The acquisition failed for good; no duplication is held.
    Failed(CaptureError),
}

impl DuplicationState {
    /// The request in flight, if the acquisition has not finished.
    pub open spec fn pending(self) -> Option<Request> {
        match self {
            DuplicationState::Output => Some(Request::EnumOutputs { index: OUTPUT_INDEX }),
            DuplicationState::Attempt(attempt) => Some(Request::DuplicateOutput { attempt }),
            DuplicationState::Backoff(_) => Some(Request::Sleep { millis: DUPLICATE_OUTPUT_WAITTIME }),
            DuplicationState::Held => None,
            DuplicationState::Failed(_) => None,
        }
    }

    /// The state after `reply` has answered the request in flight.
    ///
    /// Only a failed attempt is tried again, after a pause, and only while
    /// fewer than [`MAX_RETRIES`] attempts have been made; the failure of the
    /// last one ends the acquisition at once. An output that cannot be
    /// enumerated is not asked for again. A reply that cannot answer the
    /// request in flight, as a failure cannot answer a pause, fails the
    /// acquisition. A finished acquisition takes no further reply into
    /// account.
    pub open spec fn after(self, reply: Reply) -> DuplicationState {
        match self {
            DuplicationState::Output => match reply {
                Reply::Done => DuplicationState::Attempt(1),
                Reply::Failed { code } => DuplicationState::Failed(CaptureError::OutputUnavailable(code)),
                Reply::Surface { .. } => DuplicationState::Failed(CaptureError::UnexpectedReply),
            },
            DuplicationState::Attempt(attempt) => match reply {
                Reply::Done => DuplicationState::Held,
                Reply::Failed { .. } => if attempt < MAX_RETRIES {
                    DuplicationState::Backoff(attempt)
                } else {
                    DuplicationState::Failed(CaptureError::DuplicationExhausted)
                },
                Reply::Surface { .. } => DuplicationState::Failed(CaptureError::UnexpectedReply),
            },
            DuplicationState::Backoff(attempt) => match reply {
                Reply::Done => if attempt < MAX_RETRIES {
                    DuplicationState::Attempt((attempt + 1) as u32)
                } else {
                    DuplicationState::Failed(CaptureError::DuplicationExhausted)
                },
                _ => DuplicationState::Failed(CaptureError::UnexpectedReply),
            },
            DuplicationState::Held => self,
            DuplicationState::Failed(_) => self,
        }
    }

    /// Whether the attempt that the state counts is one of the
    /// [`MAX_RETRIES`] that may be made.
    pub open spec fn within_bound(self) -> bool {
        match self {
            DuplicationState::Attempt(attempt) => 1 <= attempt <= MAX_RETRIES,
            DuplicationState::Backoff(attempt) => 1 <= attempt < MAX_RETRIES,
            _ => true,
        }
    }

    /// How many requests the acquisition can still make at most, the one in
    /// flight included: the attempts that are left and the pauses between
    /// them.
    pub open spec fn requests_left(self) -> nat {
        match self {
            DuplicationState::Output => 2 * MAX_RETRIES as nat,
            DuplicationState::Attempt(attempt) => if attempt < MAX_RETRIES {
                (2 * (MAX_RETRIES - attempt) + 1) as nat
            } else {
                1
            },
            DuplicationState::Backoff(attempt) => if attempt < MAX_RETRIES {
                (2 * (MAX_RETRIES - attempt)) as nat
            } else {
                1
            },
            DuplicationState::Held => 0,
            DuplicationState::Failed(_) => 0,
        }
    }

    /// The request that the host must carry out next, if any.
    pub fn request(&self) -> (request: Option<Request>)
        ensures
            request == self.pending(),
    {
        match self {
            DuplicationState::Output => Some(Request::EnumOutputs { index: OUTPUT_INDEX }),
            DuplicationState::Attempt(attempt) => Some(Request::DuplicateOutput { attempt: *attempt }),
            DuplicationState::Backoff(_) => Some(Request::Sleep { millis: DUPLICATE_OUTPUT_WAITTIME }),
            _ => None,
        }
    }
}

/// Takes the duplication acquisition one step on: `reply` answers the request
/// that `state` has in flight.
pub fn duplicate_output(state: DuplicationState, reply: Reply) -> (next: DuplicationState)
    ensures
        next == state.after(reply),
{
    match state {
        DuplicationState::Output => match reply {
            Reply::Done => DuplicationState::Attempt(1),
            Reply::Failed { code } => DuplicationState::Failed(CaptureError::OutputUnavailable(code)),
            Reply::Surface { .. } => DuplicationState::Failed(CaptureError::UnexpectedReply),
        },
        DuplicationState::Attempt(attempt) => match reply {
            Reply::Done => DuplicationState::Held,
            Reply::Failed { .. } => {
                if attempt < MAX_RETRIES {
                    DuplicationState::Backoff(attempt)
                } else {
                    DuplicationState::Failed(CaptureError::DuplicationExhausted)
                }
            },
            Reply::Surface { .. } => DuplicationState::Failed(CaptureError::UnexpectedReply),
        },
        DuplicationState::Backoff(attempt) => match reply {
            Reply::Done => {
                if attempt < MAX_RETRIES {
                    DuplicationState::Attempt(attempt + 1)
                } else {
                    DuplicationState::Failed(CaptureError::DuplicationExhausted)
                }
            },
            _ => DuplicationState::Failed(CaptureError::UnexpectedReply),
        },
        finished => finished,
    }
}

/// Never more than [`MAX_RETRIES`] attempts are made, whatever the host
/// answers: an acquisition within the bound stays within it, and a pause
/// is made only where another attempt follows.
pub proof fn attempts_stay_within_bound(state: DuplicationState, reply: Reply)
    requires
        state.within_bound(),
    ensures
        state.after(reply).within_bound(),
        DuplicationState::Output.within_bound(),
{
}

/// Exhaustion is told apart from any single failure: only the failure of the
/// last attempt that may be made gives [`CaptureError::DuplicationExhausted`].
pub proof fn exhaustion_is_the_last_failure(state: DuplicationState, reply: Reply)
    requires
        state.within_bound(),
        state.pending() is Some,
        state.after(reply) == DuplicationState::Failed(CaptureError::DuplicationExhausted),
    ensures
        state == DuplicationState::Attempt(MAX_RETRIES),
        reply is Failed,
{
}

/// The state that duplication reaches from `state` when the graphics stack
/// answers one attempt after another with `outcomes`, and each pause between
/// two attempts runs to its end.
pub open spec fn after_attempts(state: DuplicationState, outcomes: Seq<Reply>) -> DuplicationState
    decreases outcomes.len(),
{
    if outcomes.len() == 0 {
        state
    } else {
        let answered = state.after(outcomes[0]);
        let resumed = if answered is Backoff {
            answered.after(Reply::Done)
        } else {
            answered
        };
        after_attempts(resumed, outcomes.drop_first())
    }
}

/// How many pauses are made on the way that [`after_attempts`] describes.
pub open spec fn pauses(state: DuplicationState, outcomes: Seq<Reply>) -> nat
    decreases outcomes.len(),
{
    if outcomes.len() == 0 {
        0
    } else {
        let answered = state.after(outcomes[0]);
        if answered is Backoff {
            1 + pauses(answered.after(Reply::Done), outcomes.drop_first())
        } else {
            pauses(answered, outcomes.drop_first())
        }
    }
}

proof fn lemma_attempts(first: u32, outcomes: Seq<Reply>)
    requires
        1 <= outcomes.len(),
        first + outcomes.len() <= MAX_RETRIES + 1,
        forall|i: int| 0 <= i < outcomes.len() - 1 ==> outcomes[i] is Failed,
    ensures
        outcomes.last() is Done ==> {
            &&& after_attempts(DuplicationState::Attempt(first), outcomes)
                == DuplicationState::Held
            &&& pauses(DuplicationState::Attempt(first), outcomes) == outcomes.len() - 1
        },
        outcomes.last() is Failed && first + outcomes.len() == MAX_RETRIES + 1 ==> {
            &&& after_attempts(DuplicationState::Attempt(first), outcomes)
                == DuplicationState::Failed(CaptureError::DuplicationExhausted)
            &&& pauses(DuplicationState::Attempt(first), outcomes) == outcomes.len() - 1
        },
    decreases outcomes.len(),
{
    let rest = outcomes.drop_first();
    let answered = DuplicationState::Attempt(first).after(outcomes[0]);
    if outcomes.len() == 1 {
        assert(outcomes.last() == outcomes[0]);
        assert(after_attempts(answered, rest) == answered);
        assert(pauses(answered, rest) == 0);
    } else {
        assert(answered == DuplicationState::Backoff(first));
        assert(rest.last() == outcomes.last());
        assert forall|i: int| 0 <= i < rest.len() - 1 implies rest[i] is Failed by {
            assert(rest[i] == outcomes[i + 1]);
        }
        lemma_attempts((first + 1) as u32, rest);
    }
}

/// Failures of the earlier attempts do not surface: when up to
/// [`MAX_RETRIES`] attempts are made of which only the last succeeds, the
/// duplication is held in the end, the acquisition has succeeded, and one
/// pause was made after each failure.
pub proof fn retry_recovers(outcomes: Seq<Reply>)
    requires
        1 <= outcomes.len() <= MAX_RETRIES,
        forall|i: int| 0 <= i < outcomes.len() - 1 ==> outcomes[i] is Failed,
        outcomes.last() is Done,
    ensures
        after_attempts(DuplicationState::Attempt(1), outcomes) == DuplicationState::Held,
        Acquisition::Duplication(after_attempts(DuplicationState::Attempt(1), outcomes)).outcome()
            == Some(Ok::<(), CaptureError>(())),
        pauses(DuplicationState::Attempt(1), outcomes) == outcomes.len() - 1,
{
    lemma_attempts(1, outcomes);
}

/// When [`MAX_RETRIES`] attempts in a row fail, the acquisition ends with
/// [`CaptureError::DuplicationExhausted`], which no single failure gives: no
/// duplication is held, nothing more is asked of the host, and no pause
/// follows the last attempt.
pub proof fn retry_gives_up(outcomes: Seq<Reply>)
    requires
        outcomes.len() == MAX_RETRIES,
        forall|i: int| 0 <= i < outcomes.len() ==> outcomes[i] is Failed,
    ensures
        after_attempts(DuplicationState::Attempt(1), outcomes)
            == DuplicationState::Failed(CaptureError::DuplicationExhausted),
        !(after_attempts(DuplicationState::Attempt(1), outcomes) is Held),
        Acquisition::Duplication(after_attempts(DuplicationState::Attempt(1), outcomes)).outcome()
            == Some(Err::<(), CaptureError>(CaptureError::DuplicationExhausted)),
        after_attempts(DuplicationState::Attempt(1), outcomes).pending() is None,
        pauses(DuplicationState::Attempt(1), outcomes) == MAX_RETRIES - 1,
{
    lemma_attempts(1, outcomes);
}

/// Progress of the whole acquisition: the device first, then the duplication
/// on that device.
#[derive(Clone, Copy, Debug, PartialEq, Eq, Structural)]
pub enum Acquisition {
    /// The device is being acquired. With the device ready, the next request
    /// is the first one of the duplication.
    Device(DeviceState),
    /// The device is there and the duplication is being acquired.
    Duplication(DuplicationState),
}

impl Acquisition {
    /// The request in flight, if the acquisition has not finished.
    pub open spec fn pending(self) -> Option<Request> {
        match self {
            Acquisition::Device(DeviceState::Ready) => DuplicationState::Output.pending(),
            Acquisition::Device(device) => device.pending(),
            Acquisition::Duplication(duplication) => duplication.pending(),
        }
    }

    /// The state after `reply` has answered the request in flight.
    pub open spec fn after(self, reply: Reply) -> Acquisition {
        match self {
            Acquisition::Device(DeviceState::Ready) => Acquisition::Duplication(
                DuplicationState::Output.after(reply),
            ),
            Acquisition::Device(device) => Acquisition::Device(device.after(reply)),
            Acquisition::Duplication(duplication) => Acquisition::Duplication(
                duplication.after(reply),
            ),
        }
    }

    /// How the acquisition ended, if it has: with the duplication held, or
    /// with the error of the step that failed.
    pub open spec fn outcome(self) -> Option<Result<(), CaptureError>> {
        match self {
            Acquisition::Device(DeviceState::Failed(error)) => Some(Err(error)),
            Acquisition::Duplication(DuplicationState::Held) => Some(Ok(())),
            Acquisition::Duplication(DuplicationState::Failed(error)) => Some(Err(error)),
            _ => None,
        }
    }

    /// The state after the host has handed in all of `replies`, in their
    /// order.
    pub open spec fn run(self, replies: Seq<Reply>) -> Acquisition
        decreases replies.len(),
    {
        if replies.len() == 0 {
            self
        } else {
            self.after(replies[0]).run(replies.drop_first())
        }
    }

    /// How many requests the acquisition can still make at most, the one in
    /// flight included.
    pub open spec fn requests_left(self) -> nat {
        match self {
            Acquisition::Device(DeviceState::Adapter) => 2
                + DuplicationState::Output.requests_left(),
            Acquisition::Device(DeviceState::Device) => 1
                + DuplicationState::Output.requests_left(),
            Acquisition::Device(DeviceState::Ready) => DuplicationState::Output.requests_left(),
            Acquisition::Device(DeviceState::Failed(_)) => 0,
            Acquisition::Duplication(duplication) => duplication.requests_left(),
        }
    }

    /// An acquisition of which nothing has been done yet.
    pub fn begin() -> (state: Acquisition)
        ensures
            state == Acquisition::Device(DeviceState::Adapter),
    {
        Acquisition::Device(DeviceState::Adapter)
    }

    /// The request that the host must carry out next, if any.
    pub fn request(&self) -> (request: Option<Request>)
        ensures
            request == self.pending(),
    {
        match self {
            Acquisition::Device(DeviceState::Ready) => DuplicationState::Output.request(),
            Acquisition::Device(device) => device.request(),
            Acquisition::Duplication(duplication) => duplication.request(),
        }
    }

    /// How the acquisition ended, if it has.
    pub fn result(&self) -> (result: Option<Result<(), CaptureError>>)
        ensures
            result == self.outcome(),
    {
        match self {
            Acquisition::Device(DeviceState::Failed(error)) => Some(Err(*error)),
            Acquisition::Duplication(DuplicationState::Held) => Some(Ok(())),
            Acquisition::Duplication(DuplicationState::Failed(error)) => Some(Err(*error)),
            _ => None,
        }
    }

    /// Takes the acquisition one step on: `reply` answers the request in
    /// flight.
    pub fn advance(self, reply: Reply) -> (next: Acquisition)
        ensures
            next == self.after(reply),
    {
        match self {
            Acquisition::Device(DeviceState::Ready) => Acquisition::Duplication(
                duplicate_output(DuplicationState::Output, reply),
            ),
            Acquisition::Device(device) => Acquisition::Device(create_device(device, reply)),
            Acquisition::Duplication(duplication) => Acquisition::Duplication(
                duplicate_output(duplication, reply),
            ),
        }
    }
}

/// An acquisition always ends. Every answer uses up one of the requests that
/// are left, of which there are two for the device, one for the output, and
/// the attempts with the pauses between them; when none is left, the
/// acquisition has succeeded or failed and asks for nothing more.
pub proof fn acquisition_ends(state: Acquisition, replies: Seq<Reply>)
    ensures
        state.run(replies).requests_left() == 0 || replies.len() + state.run(
            replies,
        ).requests_left() <= state.requests_left(),
        state.run(replies).requests_left() == 0 <==> state.run(replies).outcome() is Some,
        state.run(replies).requests_left() == 0 <==> state.run(replies).pending() is None,
        state.requests_left() <= 2 * MAX_RETRIES + 2,
        replies.len() >= 2 * MAX_RETRIES + 2 ==> state.run(replies).outcome() is Some,
    decreases replies.len(),
{
    if replies.len() > 0 {
        acquisition_ends(state.after(replies[0]), replies.drop_first());
    }
}

/// Progress of the probe: a whole acquisition, then one frame that is
/// acquired, described and released.
#[derive(Clone, Copy, Debug, PartialEq, Eq)]
pub enum Probe {
    /// The acquisition is running. With the duplication held, the next
    /// request is the one frame.
    Acquiring(Acquisition),
    /// A frame was acquired and its surface is being described.
    Describing,
    /// The surface was described as this frame, which is being released.
    Releasing(Frame),
    /// The probe is over: it saw this frame, or none in time, or failed.
    Finished(Result<Option<Frame>, CaptureError>),
}

impl Probe {
    /// The request in flight, if the probe has not finished.
    pub open spec fn pending(self) -> Option<Request> {
        match self {
            Probe::Acquiring(acquisition) => match acquisition.outcome() {
                None => acquisition.pending(),
                Some(Ok(())) => Some(Request::AcquireNextFrame { timeout_ms: PROBE_TIMEOUT }),
                Some(Err(_)) => None,
            },
            Probe::Describing => Some(Request::DescribeFrame),
            Probe::Releasing(_) => Some(Request::ReleaseFrame),
            Probe::Finished(_) => None,
        }
    }

    /// The state after `reply` has answered the request in flight.
    ///
    /// That no frame came in time is no failure of the probe. A surface that
    /// cannot be described ends it at once; a frame that cannot be released
    /// ends it with that failure.
    pub open spec fn after(self, reply: Reply) -> Probe {
        match self {
            Probe::Acquiring(acquisition) => match acquisition.outcome() {
                None => Probe::Acquiring(acquisition.after(reply)),
                Some(Ok(())) => match reply {
                    Reply::Done => Probe::Describing,
                    Reply::Failed { .. } => Probe::Finished(Ok(None)),
                    Reply::Surface { .. } => Probe::Finished(Err(CaptureError::UnexpectedReply)),
                },
                Some(Err(_)) => self,
            },
            Probe::Describing => match reply {
                Reply::Surface { width, height } => Probe::Releasing(Frame { width, height }),
                Reply::Failed { code } => Probe::Finished(
                    Err(CaptureError::SurfaceUnavailable(code)),
                ),
                Reply::Done => Probe::Finished(Err(CaptureError::UnexpectedReply)),
            },
            Probe::Releasing(frame) => match reply {
                Reply::Done => Probe::Finished(Ok(Some(frame))),
                Reply::Failed { code } => Probe::Finished(Err(CaptureError::ReleaseFailed(code))),
                Reply::Surface { .. } => Probe::Finished(Err(CaptureError::UnexpectedReply)),
            },
            Probe::Finished(_) => self,
        }
    }

    /// How the probe ended, if it has.
    pub open spec fn outcome(self) -> Option<Result<Option<Frame>, CaptureError>> {
        match self {
            Probe::Acquiring(acquisition) => match acquisition.outcome() {
                Some(Err(error)) => Some(Err(error)),
                _ => None,
            },
            Probe::Finished(result) => Some(result),
            _ => None,
        }
    }

    /// A probe of which nothing has been done yet.
    pub fn begin() -> (state: Probe)
        ensures
            state == Probe::Acquiring(Acquisition::Device(DeviceState::Adapter)),
    {
        Probe::Acquiring(Acquisition::begin())
    }

    /// The request that the host must carry out next, if any.
    pub fn request(&self) -> (request: Option<Request>)
        ensures
            request == self.pending(),
    {
        match self {
            Probe::Acquiring(acquisition) => match acquisition.result() {
                None => acquisition.request(),
                Some(Ok(())) => Some(Request::AcquireNextFrame { timeout_ms: PROBE_TIMEOUT }),
                Some(Err(_)) => None,
            },
            Probe::Describing => Some(Request::DescribeFrame),
            Probe::Releasing(_) => Some(Request::ReleaseFrame),
            Probe::Finished(_) => None,
        }
    }

    /// How the probe ended, if it has.
    pub fn result(&self) -> (result: Option<Result<Option<Frame>, CaptureError>>)
        ensures
            result == self.outcome(),
    {
        match self {
            Probe::Acquiring(acquisition) => match acquisition.result() {
                Some(Err(error)) => Some(Err(error)),
                _ => None,
            },
            Probe::Finished(result) => Some(*result),
            _ => None,
        }
    }
}

/// Takes the probe one step on: `reply` answers the request that `state` has
/// in flight.
pub fn dx12(state: Probe, reply: Reply) -> (next: Probe)
    ensures
        next == state.after(reply),
{
    match state {
        Probe::Acquiring(acquisition) => match acquisition.result() {
            None => Probe::Acquiring(acquisition.advance(reply)),
            Some(Ok(())) => match reply {
                Reply::Done => Probe::Describing,
                Reply::Failed { .. } => Probe::Finished(Ok(None)),
                Reply::Surface { .. } => Probe::Finished(Err(CaptureError::UnexpectedReply)),
            },
            Some(Err(_)) => state,
        },
        Probe::Describing => match reply {
            Reply::Surface { width, height } => Probe::Releasing(Frame { width, height }),
            Reply::Failed { code } => Probe::Finished(Err(CaptureError::SurfaceUnavailable(code))),
            Reply::Done => Probe::Finished(Err(CaptureError::UnexpectedReply)),
        },
        Probe::Releasing(frame) => match reply {
            Reply::Done => Probe::Finished(Ok(Some(frame))),
            Reply::Failed { code } => Probe::Finished(Err(CaptureError::ReleaseFailed(code))),
            Reply::Surface { .. } => Probe::Finished(Err(CaptureError::UnexpectedReply)),
        },
        Probe::Finished(_) => state,
    }
}

} // verus!
