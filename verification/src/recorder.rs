//! The capture session and its loop.
//!
//! A session is started once its acquisition has succeeded. Its capture loop
//! is a state machine: the host carries out the request in flight and hands
//! the reply to [`VideoRecorder::advance`], which says what comes next. One
//! turn of the loop acquires a frame, has its surface described, hands the
//! frame to the handler, releases it and pauses; the flag that
//! [`VideoRecorder::stop`] clears is looked at after the pause.
//!
//! A frame that does not come in time, or whose surface cannot be described,
//! costs nothing but the turn. A handler that fails ends the loop: the frame
//! is released first, then [`CaptureError::CallbackFailed`] is returned. A
//! frame that cannot be released ends the loop as well.

use vstd::prelude::*;
use crate::dx12::Acquisition;
use crate::protocol::{CaptureError, Reply, Request};

verus! {

/// Milliseconds that the loop waits for the next frame.
pub const FRAME_TIMEOUT: u32 = 200;

/// Milliseconds that the loop pauses between two turns.
pub const FRAME_PAUSE: u64 = 1;

/// Describes one captured frame.
#[derive(Clone, Copy, Debug, PartialEq, Eq, Structural)]
pub struct Frame {
    pub width: u32,
    pub height: u32,
}

/// Where the capture loop of a session stands.
#[derive(Clone, Copy, Debug, PartialEq, Eq, Structural)]
pub enum Phase {
    /// There is no loop: none was started, or the last one has exited.
    Idle,
    /// The loop waits for the next frame.
    Polling,
    /// A frame was acquired and its surface is being described.
    Describing,
    /// This frame is with the handler.
    Delivering(Frame),
    /// The frame is being released; the loop goes on afterwards.
    Releasing,
    /// The handler failed and the frame is being released; the loop ends
    /// afterwards.
    Aborting,
    /// The loop pauses before its next turn.
    Pausing,
}

/// What a session is, as far as its contracts go.
pub struct Session {
    /// The lifecycle flag: set by a start, cleared by a stop or by a failure
    /// that ends the loop.
    pub running: bool,
    /// Whether a frame has been handed to the handler since the session was
    /// made.
    pub has_frame: bool,
    /// Where the capture loop stands.
    pub phase: Phase,
}

/// What can happen to a session: its owner starts or stops it, or the host
/// answers the request in flight.
pub enum Input {
    Start,
    Stop,
    Answer(Reply),
}

impl Session {
    /// The session that a finished acquisition gives.
    pub open spec fn fresh() -> Session {
        Session { running: false, has_frame: false, phase: Phase::Idle }
    }

    /// What holds of every session however it got to where it is: its flag
    /// is set only while it has a loop, and a frame that is with the handler
    /// has been counted.
    pub open spec fn wf(self) -> bool {
        &&& self.running ==> !(self.phase is Idle)
        &&& self.phase is Delivering ==> self.has_frame
    }

    /// Whether a start would be refused: the flag is set, or a loop that was
    /// told to stop has not exited yet.
    pub open spec fn active(self) -> bool {
        self.running || !(self.phase is Idle)
    }

    /// Whether an acquired frame has not been released yet.
    pub open spec fn holds_frame(self) -> bool {
        self.phase is Describing || self.phase is Delivering || self.phase is Releasing
            || self.phase is Aborting
    }

    /// The request in flight, if there is a loop.
    pub open spec fn pending(self) -> Option<Request> {
        match self.phase {
            Phase::Idle => None,
            Phase::Polling => Some(Request::AcquireNextFrame { timeout_ms: FRAME_TIMEOUT }),
            Phase::Describing => Some(Request::DescribeFrame),
            Phase::Delivering(frame) => Some(Request::InvokeCallback { frame }),
            Phase::Releasing => Some(Request::ReleaseFrame),
            Phase::Aborting => Some(Request::ReleaseFrame),
            Phase::Pausing => Some(Request::Sleep { millis: FRAME_PAUSE }),
        }
    }

    /// The session after a start that was not refused.
    pub open spec fn started(self) -> Session {
        Session { running: true, has_frame: self.has_frame, phase: Phase::Polling }
    }

    /// The session after a stop.
    pub open spec fn stopped(self) -> Session {
        Session { running: false, has_frame: self.has_frame, phase: self.phase }
    }

    /// The session with its loop at `phase`.
    pub open spec fn at(self, phase: Phase) -> Session {
        Session { running: self.running, has_frame: self.has_frame, phase }
    }

    /// The session after a failure has ended its loop.
    pub open spec fn ended(self) -> Session {
        Session { running: false, has_frame: self.has_frame, phase: Phase::Idle }
    }

    /// Whether `reply` can answer the request in flight.
    pub open spec fn accepts(self, reply: Reply) -> bool {
        match self.phase {
            Phase::Idle => false,
            Phase::Describing => reply is Surface || reply is Failed,
            Phase::Pausing => reply is Done,
            _ => reply is Done || reply is Failed,
        }
    }

    /// The failure with which `reply` ends the loop, if it does.
    pub open spec fn fault(self, reply: Reply) -> Option<CaptureError> {
        match (self.phase, reply) {
            (Phase::Releasing, Reply::Failed { code }) => Some(CaptureError::ReleaseFailed(code)),
            (Phase::Aborting, Reply::Done) => Some(CaptureError::CallbackFailed),
            (Phase::Aborting, Reply::Failed { .. }) => Some(CaptureError::CallbackFailed),
            _ => None,
        }
    }

    /// The session after `reply` has answered the request in flight. A reply
    /// that cannot answer it changes nothing.
    pub open spec fn after(self, reply: Reply) -> Session {
        match (self.phase, reply) {
            (Phase::Polling, Reply::Done) => self.at(Phase::Describing),
            (Phase::Polling, Reply::Failed { .. }) => self.at(Phase::Pausing),
            (Phase::Describing, Reply::Surface { width, height }) => Session {
                running: self.running,
                has_frame: true,
                phase: Phase::Delivering(Frame { width, height }),
            },
            (Phase::Describing, Reply::Failed { .. }) => self.at(Phase::Releasing),
            (Phase::Delivering(_), Reply::Done) => self.at(Phase::Releasing),
            (Phase::Delivering(_), Reply::Failed { .. }) => self.at(Phase::Aborting),
            (Phase::Releasing, Reply::Done) => self.at(Phase::Pausing),
            (Phase::Releasing, Reply::Failed { .. }) => self.ended(),
            (Phase::Aborting, Reply::Done) => self.ended(),
            (Phase::Aborting, Reply::Failed { .. }) => self.ended(),
            (Phase::Pausing, Reply::Done) => if self.running {
                self.at(Phase::Polling)
            } else {
                self.at(Phase::Idle)
            },
            _ => self,
        }
    }

    /// What the host is told when it hands in `reply`: the next request, or
    /// none when the loop has exited because it was stopped; the failure that
    /// has ended the loop; or that the reply answers nothing.
    pub open spec fn verdict(self, reply: Reply) -> Result<Option<Request>, CaptureError> {
        if !self.accepts(reply) {
            Err(CaptureError::UnexpectedReply)
        } else {
            match self.fault(reply) {
                Some(error) => Err(error),
                None => Ok(self.after(reply).pending()),
            }
        }
    }

    /// The session after `input`.
    pub open spec fn apply(self, input: Input) -> Session {
        match input {
            Input::Start => if self.active() {
                self
            } else {
                self.started()
            },
            Input::Stop => self.stopped(),
            Input::Answer(reply) => self.after(reply),
        }
    }

    /// The frame that `input` causes to be handed to the handler, if any.
    pub open spec fn hands_over(self, input: Input) -> Option<Frame> {
        match input {
            Input::Answer(reply) => match self.verdict(reply) {
                Ok(Some(Request::InvokeCallback { frame })) => Some(frame),
                _ => None,
            },
            _ => None,
        }
    }

    /// The frame that `input` reports as the surface of an acquired frame, if
    /// any.
    pub open spec fn describes(self, input: Input) -> Option<Frame> {
        match (self.phase, input) {
            (Phase::Describing, Input::Answer(Reply::Surface { width, height })) => Some(
                Frame { width, height },
            ),
            _ => None,
        }
    }

    /// Whether `input` is the return of the handler.
    pub open spec fn completes(self, input: Input) -> bool {
        match (self.phase, input) {
            (Phase::Delivering(_), Input::Answer(reply)) => self.accepts(reply),
            _ => false,
        }
    }

    /// The session after all of `inputs`, in their order.
    pub open spec fn run(self, inputs: Seq<Input>) -> Session
        decreases inputs.len(),
    {
        if inputs.len() == 0 {
            self
        } else {
            self.apply(inputs[0]).run(inputs.drop_first())
        }
    }

    /// The frames handed to the handler in the course of `inputs`, in the
    /// order in which they are handed over.
    pub open spec fn delivered(self, inputs: Seq<Input>) -> Seq<Frame>
        decreases inputs.len(),
    {
        if inputs.len() == 0 {
            Seq::empty()
        } else {
            let later = self.apply(inputs[0]).delivered(inputs.drop_first());
            match self.hands_over(inputs[0]) {
                Some(frame) => seq![frame] + later,
                None => later,
            }
        }
    }

    /// The surfaces of the frames acquired in the course of `inputs`, in the
    /// order in which they are acquired.
    pub open spec fn acquired(self, inputs: Seq<Input>) -> Seq<Frame>
        decreases inputs.len(),
    {
        if inputs.len() == 0 {
            Seq::empty()
        } else {
            let later = self.apply(inputs[0]).acquired(inputs.drop_first());
            match self.describes(inputs[0]) {
                Some(frame) => seq![frame] + later,
                None => later,
            }
        }
    }

    /// How often the handler returns in the course of `inputs`.
    pub open spec fn completed(self, inputs: Seq<Input>) -> nat
        decreases inputs.len(),
    {
        if inputs.len() == 0 {
            0
        } else {
            let later = self.apply(inputs[0]).completed(inputs.drop_first());
            if self.completes(inputs[0]) {
                1 + later
            } else {
                later
            }
        }
    }
}

/// A capture session: the state of one output duplication and of the loop
/// that reads frames from it.
#[derive(Debug)]
pub struct VideoRecorder {
    running: bool,
    captured: bool,
    phase: Phase,
}

impl View for VideoRecorder {
    type V = Session;

    closed spec fn view(&self) -> Session {
        Session { running: self.running, has_frame: self.captured, phase: self.phase }
    }
}

impl VideoRecorder {
    #[verifier::type_invariant]
    spec fn well_formed(self) -> bool {
        self@.wf()
    }

    /// Makes a session of a finished acquisition. The session is not running
    /// and has no frame. An acquisition that failed gives its error, one that
    /// has not finished gives [`CaptureError::NotAcquired`]; neither gives a
    /// session.
    pub fn new(acquisition: Acquisition) -> (session: Result<VideoRecorder, CaptureError>)
        ensures
            match acquisition.outcome() {
                Some(Ok(())) => session matches Ok(recorder) && recorder@ == Session::fresh(),
                Some(Err(error)) => session matches Err(e) && e == error,
                None => session matches Err(e) && e == CaptureError::NotAcquired,
            },
    {
        match acquisition.result() {
            Some(Ok(())) => Ok(VideoRecorder { running: false, captured: false, phase: Phase::Idle }),
            Some(Err(error)) => Err(error),
            None => Err(CaptureError::NotAcquired),
        }
    }

    /// Starts the capture loop and returns its first request. A session whose
    /// loop has been started and has not exited refuses with
    /// [`CaptureError::AlreadyRunning`] and stays as it is: no second loop
    /// comes to be.
    pub fn on_frame(&mut self) -> (first: Result<Request, CaptureError>)
        ensures
            old(self)@.active() ==> first == Err::<Request, CaptureError>(
                CaptureError::AlreadyRunning,
            ) && final(self)@ == old(self)@,
            !old(self)@.active() ==> first == Ok::<Request, CaptureError>(
                Request::AcquireNextFrame { timeout_ms: FRAME_TIMEOUT },
            ) && final(self)@ == old(self)@.started(),
    {
        if self.running {
            return Err(CaptureError::AlreadyRunning);
        }
        match self.phase {
            Phase::Idle => {
                self.phase = Phase::Polling;
                self.running = true;
                Ok(Request::AcquireNextFrame { timeout_ms: FRAME_TIMEOUT })
            },
            _ => Err(CaptureError::AlreadyRunning),
        }
    }

    /// Clears the flag. The loop exits when it next looks at the flag, after
    /// the pause that ends its current turn.
    pub fn stop(&mut self)
        ensures
            final(self)@ == old(self)@.stopped(),
    {
        proof {
            use_type_invariant(&*self);
        }
        self.running = false;
    }

    /// Whether a frame has been handed to the handler since the session was
    /// made.
    pub fn has_frame(&self) -> (captured: bool)
        ensures
            captured == self@.has_frame,
            self@.wf(),
    {
        proof {
            use_type_invariant(self);
        }
        self.captured
    }

    /// Whether the flag is set. While it is, the session has a loop.
    pub fn is_running(&self) -> (running: bool)
        ensures
            running == self@.running,
            self@.wf(),
    {
        proof {
            use_type_invariant(self);
        }
        self.running
    }

    /// The request that the host must carry out next, if there is a loop.
    pub fn request(&self) -> (request: Option<Request>)
        ensures
            request == self@.pending(),
            self@.wf(),
    {
        proof {
            use_type_invariant(self);
        }
        match self.phase {
            Phase::Idle => None,
            Phase::Polling => Some(Request::AcquireNextFrame { timeout_ms: FRAME_TIMEOUT }),
            Phase::Describing => Some(Request::DescribeFrame),
            Phase::Delivering(frame) => Some(Request::InvokeCallback { frame }),
            Phase::Releasing => Some(Request::ReleaseFrame),
            Phase::Aborting => Some(Request::ReleaseFrame),
            Phase::Pausing => Some(Request::Sleep { millis: FRAME_PAUSE }),
        }
    }

    /// Takes the capture loop one step on: `reply` answers the request in
    /// flight. Returns the next request, or none when the loop has exited
    /// because the session was stopped. A failure that ends the loop is
    /// returned as the error, and the flag is cleared. A reply that cannot
    /// answer the request in flight is refused with
    /// [`CaptureError::UnexpectedReply`] and changes nothing.
    pub fn advance(&mut self, reply: Reply) -> (next: Result<Option<Request>, CaptureError>)
        ensures
            final(self)@ == old(self)@.after(reply),
            next == old(self)@.verdict(reply),
    {
        match (self.phase, reply) {
            (Phase::Polling, Reply::Done) => {
                self.phase = Phase::Describing;
            },
            (Phase::Polling, Reply::Failed { .. }) => {
                self.phase = Phase::Pausing;
            },
            (Phase::Describing, Reply::Surface { width, height }) => {
                self.captured = true;
                self.phase = Phase::Delivering(Frame { width, height });
            },
            (Phase::Describing, Reply::Failed { .. }) => {
                self.phase = Phase::Releasing;
            },
            (Phase::Delivering(_), Reply::Done) => {
                self.phase = Phase::Releasing;
            },
            (Phase::Delivering(_), Reply::Failed { .. }) => {
                self.phase = Phase::Aborting;
            },
            (Phase::Releasing, Reply::Done) => {
                self.phase = Phase::Pausing;
            },
            (Phase::Releasing, Reply::Failed { code }) => {
                self.running = false;
                self.phase = Phase::Idle;
                return Err(CaptureError::ReleaseFailed(code));
            },
            (Phase::Aborting, Reply::Done) | (Phase::Aborting, Reply::Failed { .. }) => {
                self.running = false;
                self.phase = Phase::Idle;
                return Err(CaptureError::CallbackFailed);
            },
            (Phase::Pausing, Reply::Done) => {
                if self.running {
                    self.phase = Phase::Polling;
                } else {
                    self.phase = Phase::Idle;
                }
            },
            _ => {
                return Err(CaptureError::UnexpectedReply);
            },
        }
        Ok(self.request())
    }
}

/// Whether none of `inputs` is a start.
pub open spec fn no_start(inputs: Seq<Input>) -> bool {
    forall|i: int| 0 <= i < inputs.len() ==> !(#[trigger] inputs[i] is Start)
}

/// Whatever happens to a session, it stays well formed.
pub proof fn run_keeps_wf(session: Session, inputs: Seq<Input>)
    requires
        session.wf(),
    ensures
        Session::fresh().wf(),
        session.run(inputs).wf(),
    decreases inputs.len(),
{
    if inputs.len() > 0 {
        assert(session.apply(inputs[0]).wf());
        run_keeps_wf(session.apply(inputs[0]), inputs.drop_first());
    }
}

/// A session has a frame exactly if it had one before, or a frame has been
/// handed to the handler since.
pub proof fn has_frame_tells_delivery(session: Session, inputs: Seq<Input>)
    ensures
        session.run(inputs).has_frame <==> session.has_frame || session.delivered(inputs).len()
            > 0,
    decreases inputs.len(),
{
    if inputs.len() > 0 {
        has_frame_tells_delivery(session.apply(inputs[0]), inputs.drop_first());
    }
}

/// Once the handler has returned, the session has a frame.
pub proof fn has_frame_after_callback(session: Session, inputs: Seq<Input>)
    requires
        session.wf(),
    ensures
        session.completed(inputs) > 0 ==> session.run(inputs).has_frame,
    decreases inputs.len(),
{
    if inputs.len() > 0 {
        assert(session.apply(inputs[0]).wf());
        has_frame_after_callback(session.apply(inputs[0]), inputs.drop_first());
        if session.completes(inputs[0]) {
            has_frame_tells_delivery(session, inputs);
        }
    }
}

/// A session that was just made has no frame. Whatever happens to it then, it
/// has a frame exactly if one has been handed to the handler, and it has one
/// for sure once the handler has returned.
pub proof fn has_frame_of_fresh_session(inputs: Seq<Input>)
    ensures
        !Session::fresh().has_frame,
        Session::fresh().run(inputs).has_frame <==> Session::fresh().delivered(inputs).len() > 0,
        Session::fresh().completed(inputs) > 0 ==> Session::fresh().run(inputs).has_frame,
{
    has_frame_tells_delivery(Session::fresh(), inputs);
    has_frame_after_callback(Session::fresh(), inputs);
}

/// Frames reach the handler in the order in which they are acquired: the
/// frames handed over are the surfaces reported, one for one.
pub proof fn delivery_follows_acquisition(session: Session, inputs: Seq<Input>)
    ensures
        session.delivered(inputs) == session.acquired(inputs),
    decreases inputs.len(),
{
    if inputs.len() > 0 {
        delivery_follows_acquisition(session.apply(inputs[0]), inputs.drop_first());
    }
}

/// The handler has one frame at a time: while a frame is with the handler,
/// nothing hands it another, and what follows its return is the release of
/// that frame.
pub proof fn one_frame_at_a_time(session: Session, input: Input)
    requires
        session.phase is Delivering,
    ensures
        session.hands_over(input) is None,
        session.completes(input) ==> session.apply(input).pending() == Some(
            Request::ReleaseFrame,
        ),
{
}

/// How many frames are with the handler: one or none.
pub open spec fn in_flight(session: Session) -> nat {
    if session.phase is Delivering {
        1
    } else {
        0
    }
}

/// No two calls of the handler overlap: at any time the frames handed over
/// are those of which the handler has returned, and at most one more that is
/// with it now.
pub proof fn deliveries_do_not_overlap(session: Session, inputs: Seq<Input>)
    ensures
        in_flight(session) + session.delivered(inputs).len() == session.completed(inputs)
            + in_flight(session.run(inputs)),
        in_flight(session.run(inputs)) <= 1,
    decreases inputs.len(),
{
    if inputs.len() > 0 {
        deliveries_do_not_overlap(session.apply(inputs[0]), inputs.drop_first());
    }
}

/// A session keeps to the duplication that it was made with: it asks for
/// frames, for the handler and for pauses, never for anything that acquires.
pub proof fn session_acquires_nothing(session: Session)
    ensures
        match session.pending() {
            None => true,
            Some(Request::AcquireNextFrame { timeout_ms }) => timeout_ms == FRAME_TIMEOUT,
            Some(Request::DescribeFrame) => true,
            Some(Request::InvokeCallback { .. }) => true,
            Some(Request::ReleaseFrame) => true,
            Some(Request::Sleep { millis }) => millis == FRAME_PAUSE,
            Some(_) => false,
        },
{
}

/// A frame that does not come costs nothing: after the failed wait and the
/// pause, a running session is where it was and waits again, however often
/// that happens.
pub proof fn failed_wait_costs_nothing(session: Session, code: i32)
    requires
        session.phase is Polling,
        session.running,
    ensures
        session.verdict(Reply::Failed { code }) == Ok::<Option<Request>, CaptureError>(
            Some(Request::Sleep { millis: FRAME_PAUSE }),
        ),
        session.after(Reply::Failed { code }).verdict(Reply::Done) == Ok::<
            Option<Request>,
            CaptureError,
        >(Some(Request::AcquireNextFrame { timeout_ms: FRAME_TIMEOUT })),
        session.after(Reply::Failed { code }).after(Reply::Done) == session,
{
}

/// A frame that was acquired stays held until a request to release it has
/// been answered.
pub proof fn frames_are_released(session: Session, input: Input)
    requires
        session.holds_frame(),
        !session.apply(input).holds_frame(),
    ensures
        session.pending() == Some(Request::ReleaseFrame),
        input is Answer,
{
}

/// Once the loop has exited, nothing reaches the handler and nothing is asked
/// of the host until the session is started again.
pub proof fn nothing_after_exit(session: Session, inputs: Seq<Input>)
    requires
        session.phase is Idle,
        no_start(inputs),
    ensures
        session.delivered(inputs).len() == 0,
        session.run(inputs).phase is Idle,
        session.run(inputs).pending() is None,
    decreases inputs.len(),
{
    if inputs.len() > 0 {
        let rest = inputs.drop_first();
        assert(!(inputs[0] is Start));
        assert forall|i: int| 0 <= i < rest.len() implies !(#[trigger] rest[i] is Start) by {
            assert(rest[i] == inputs[i + 1]);
        }
        nothing_after_exit(session.apply(inputs[0]), rest);
    }
}

/// How many frames a loop that was told to stop can still hand over: the one
/// of its current turn, unless that turn is past the handler.
pub open spec fn frames_left(phase: Phase) -> nat {
    match phase {
        Phase::Polling => 1,
        Phase::Describing => 1,
        _ => 0,
    }
}

/// After a stop the loop ends with its current turn: at most the frame of
/// that turn still reaches the handler.
pub proof fn stop_ends_current_turn(session: Session, inputs: Seq<Input>)
    requires
        !session.running,
        no_start(inputs),
    ensures
        session.delivered(inputs).len() <= frames_left(session.phase),
        session.delivered(inputs).len() <= 1,
        !session.run(inputs).running,
    decreases inputs.len(),
{
    if inputs.len() > 0 {
        let rest = inputs.drop_first();
        assert(!(inputs[0] is Start));
        assert forall|i: int| 0 <= i < rest.len() implies !(#[trigger] rest[i] is Start) by {
            assert(rest[i] == inputs[i + 1]);
        }
        stop_ends_current_turn(session.apply(inputs[0]), rest);
    }
}

/// Whether the host answers each request in its turn: every one of `replies`
/// can answer the request that is in flight when it comes.
pub open spec fn answers(session: Session, replies: Seq<Reply>) -> bool
    decreases replies.len(),
{
    if replies.len() == 0 {
        true
    } else {
        session.accepts(replies[0]) && answers(session.after(replies[0]), replies.drop_first())
    }
}

/// The session after the host has handed in all of `replies`, in their order.
pub open spec fn answered(session: Session, replies: Seq<Reply>) -> Session
    decreases replies.len(),
{
    if replies.len() == 0 {
        session
    } else {
        answered(session.after(replies[0]), replies.drop_first())
    }
}

/// How many requests a loop that was told to stop can still make, the one in
/// flight included.
pub open spec fn requests_left(phase: Phase) -> nat {
    match phase {
        Phase::Idle => 0,
        Phase::Pausing => 1,
        Phase::Aborting => 1,
        Phase::Releasing => 2,
        Phase::Delivering(_) => 3,
        Phase::Describing => 4,
        Phase::Polling => 5,
    }
}

/// A stop takes effect within the current turn. Every request that the host
/// answers after the stop is one of those that the turn still makes, five at
/// most; when they are used up, the loop has exited and asks for nothing.
pub proof fn stop_exits_loop(session: Session, replies: Seq<Reply>)
    requires
        !session.running,
        answers(session, replies),
    ensures
        replies.len() + requests_left(answered(session, replies).phase) <= requests_left(
            session.phase,
        ),
        requests_left(session.phase) <= 5,
        requests_left(answered(session, replies).phase) == 0 <==> answered(
            session,
            replies,
        ).pending() is None,
    decreases replies.len(),
{
    if replies.len() > 0 {
        stop_exits_loop(session.after(replies[0]), replies.drop_first());
    }
}

} // verus!
