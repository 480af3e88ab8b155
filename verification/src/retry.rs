//! Correlation: matching a command with its response, with resends.
//!
//! The transport gives no request/response pairing, and the sensor may push
//! readings of its own at any time. A session therefore sends the command,
//! watches the stream of responses for one of the awaited kind, sets every
//! other response aside, and sends again when an attempt's time is up.
//!
//! The session decides; it neither sends, reads, nor sleeps. Its caller does
//! what the session asks for, sends what the session hands out, and reports
//! back what happened.

use crate::command::{command_frame, Cmd, Command};
use crate::error::Error;
use crate::response::{Resp, Response};
use std::sync::mpsc::SendError;
use vstd::prelude::*;

verus! {

/// How often and how long to wait for a response.
#[derive(Debug, Clone, Copy, PartialEq, Eq, Structural)]
pub struct RetryConfig {
    /// The maximum number of attempts before giving up
    pub retries: usize,
    /// The time to wait between each check for responses, in milliseconds.
    pub sleep_millis: u64,
    /// The maximum time to wait before retrying (i.e. resending the command),
    /// in milliseconds.
    pub timeout_millis: u64,
}

impl Default for RetryConfig {
    /// Five attempts of half a second each, looking every tenth of a second.
    fn default() -> (config: Self)
        ensures
            config == (RetryConfig { retries: 5, sleep_millis: 100, timeout_millis: 500 }),
    {
        RetryConfig { retries: 5, timeout_millis: 500, sleep_millis: 100 }
    }
}

/// What a session waits to hear of.
#[derive(Debug, Clone, Copy, PartialEq, Eq, Structural)]
pub enum RetryPhase {
    /// The command is to be sent.
    Sending,
    /// The time since the attempt began is to be read.
    Timing,
    /// The next response that has arrived is to be taken.
    Polling,
    /// The pause between two looks at the responses is to be kept.
    Sleeping,
    /// Nothing more: the session has its answer.
    Finished,
}

/// What the caller of a session is to do next.
#[derive(Debug, Clone, Copy, PartialEq, Eq, Structural)]
pub enum RetryAction {
    /// Note the time, send the command as the session encodes it, and
    /// report `Sent`, or `SendFailed` where the queue did not take it.
    Send,
    /// Report the time since the attempt began as `Elapsed`.
    ReadClock,
    /// Report the next response that has arrived as `Received`, or `Drained`
    /// where none is waiting.
    Poll,
    /// Sleep for so many milliseconds and report `Slept`.
    Sleep(u64),
    /// Ask the session for its result.
    Stop,
}

/// What the caller of a session reports back.
#[derive(Debug)]
pub enum RetryEvent {
    /// The command was sent.
    Sent,
    /// The command queue was closed and did not take the command.
    SendFailed(SendError<Cmd>),
    /// So many milliseconds have passed since the attempt began.
    Elapsed(u64),
    /// This response has arrived.
    Received(Resp),
    /// No response is waiting.
    Drained,
    /// The pause is over.
    Slept,
}

/// The state of a session, as the contracts speak of it.
pub struct RetryModel<T> {
    pub config: RetryConfig,
    /// The wire bytes of the command.
    pub frame: Seq<u8>,
    /// The text by which the command is named if the session gives up.
    pub command: Seq<char>,
    /// How many times the command has been sent.
    pub attempts: nat,
    pub phase: RetryPhase,
    /// The awaited response, once it has arrived.
    pub matched: Option<T>,
    /// Every other response that has arrived, in order of arrival.
    pub others: Seq<Resp>,
    /// The failure of the command queue, once it has failed.
    pub failure: Option<SendError<Cmd>>,
}

/// Why a session ends without the awaited response.
pub enum RetryFailure {
    /// The command queue was closed.
    QueueClosed(SendError<Cmd>),
    /// No response of the awaited kind arrived; the text names the command.
    Unanswered(Seq<char>),
}

impl<T: Response> RetryModel<T> {
    /// The state of a session that has yet to send: about to send, or
    /// finished at once where no attempt is allowed.
    pub open spec fn begin(frame: Seq<u8>, command: Seq<char>, config: RetryConfig) -> Self {
        RetryModel {
            config,
            frame,
            command,
            attempts: 0,
            phase: if config.retries == 0 {
                RetryPhase::Finished
            } else {
                RetryPhase::Sending
            },
            matched: None,
            others: Seq::empty(),
            failure: None,
        }
    }

    /// What the caller is to do in this state.
    pub open spec fn pending(self) -> RetryAction {
        match self.phase {
            RetryPhase::Sending => RetryAction::Send,
            RetryPhase::Timing => RetryAction::ReadClock,
            RetryPhase::Polling => RetryAction::Poll,
            RetryPhase::Sleeping => RetryAction::Sleep(self.config.sleep_millis),
            RetryPhase::Finished => RetryAction::Stop,
        }
    }

    /// The state after an attempt has run out of time: about to send again
    /// while attempts are left, finished otherwise.
    pub open spec fn after_timeout(self) -> Self {
        RetryModel {
            phase: if self.attempts < self.config.retries {
                RetryPhase::Sending
            } else {
                RetryPhase::Finished
            },
            ..self
        }
    }

    /// The state after `event`. An event that the state does not wait for
    /// changes nothing. A send that is reported when no attempt is left, which
    /// no session asks for, ends the session.
    pub open spec fn next(self, event: RetryEvent) -> Self {
        match (self.phase, event) {
            (RetryPhase::Sending, RetryEvent::Sent) => if self.attempts < self.config.retries {
                RetryModel { attempts: self.attempts + 1, phase: RetryPhase::Timing, ..self }
            } else {
                RetryModel { phase: RetryPhase::Finished, ..self }
            },
            (RetryPhase::Sending, RetryEvent::SendFailed(failure)) => RetryModel {
                phase: RetryPhase::Finished,
                failure: Some(failure),
                ..self
            },
            (RetryPhase::Timing, RetryEvent::Elapsed(millis)) => if millis
                < self.config.timeout_millis {
                RetryModel { phase: RetryPhase::Polling, ..self }
            } else {
                self.after_timeout()
            },
            (RetryPhase::Polling, RetryEvent::Received(resp)) => match T::unpacked(resp) {
                Some(inner) => RetryModel {
                    phase: RetryPhase::Finished,
                    matched: Some(inner),
                    ..self
                },
                None => RetryModel { others: self.others.push(resp), ..self },
            },
            (RetryPhase::Polling, RetryEvent::Drained) => RetryModel {
                phase: RetryPhase::Sleeping,
                ..self
            },
            (RetryPhase::Sleeping, RetryEvent::Slept) => RetryModel {
                phase: RetryPhase::Timing,
                ..self
            },
            _ => self,
        }
    }

    /// The state after a run of events, one after the other.
    pub open spec fn run(self, events: Seq<RetryEvent>) -> Self
        decreases events.len(),
    {
        if events.len() == 0 {
            self
        } else {
            self.run(events.drop_last()).next(events.last())
        }
    }

    /// What holds of every state that a session passes through: the command
    /// has been sent no more often than allowed; it is sent again only while
    /// attempts are left; a session that has finished without the awaited
    /// response, the queue being open, has used every attempt; one that has
    /// the response, or has lost the queue, has finished; and no session has
    /// both.
    pub open spec fn is_sound(self) -> bool {
        &&& self.attempts <= self.config.retries
        &&& self.phase == RetryPhase::Sending ==> self.attempts < self.config.retries
        &&& self.phase == RetryPhase::Finished && self.matched is None && self.failure is None
            ==> self.attempts == self.config.retries
        &&& self.matched is Some || self.failure is Some ==> self.phase == RetryPhase::Finished
        &&& !(self.matched is Some && self.failure is Some)
    }

    /// What the session has to say in this state: the awaited response with
    /// the others that arrived before it; or that the queue was closed; or
    /// that the command was never answered.
    pub open spec fn outcome(self) -> Result<(T, Seq<Resp>), RetryFailure> {
        match (self.matched, self.failure) {
            (Some(inner), _) => Ok((inner, self.others)),
            (None, Some(failure)) => Err(RetryFailure::QueueClosed(failure)),
            (None, None) => Err(RetryFailure::Unanswered(self.command)),
        }
    }
}

/// One command's wait for its response.
pub struct RetrySession<C: Command> {
    config: RetryConfig,
    command: C,
    name: String,
    attempts: usize,
    phase: RetryPhase,
    matched: Option<C::ResponseType>,
    other: Vec<Resp>,
    failure: Option<SendError<Cmd>>,
}

impl<C: Command> View for RetrySession<C> {
    type V = RetryModel<C::ResponseType>;

    closed spec fn view(&self) -> RetryModel<C::ResponseType> {
        RetryModel {
            config: self.config,
            frame: command_frame(self.command.payload()),
            command: self.name@,
            attempts: self.attempts as nat,
            phase: self.phase,
            matched: self.matched,
            others: self.other@,
            failure: self.failure,
        }
    }
}

impl<C: Command> RetrySession<C> {
    /// A session for a command that has not been sent yet. `name` is the
    /// text by which the error names the command if no response comes.
    pub fn begin(command: C, name: String, config: RetryConfig) -> (session: Self)
        ensures
            session@ == RetryModel::<C::ResponseType>::begin(
                command_frame(command.payload()),
                name@,
                config,
            ),
            session@.is_sound(),
    {
        RetrySession {
            config,
            command,
            name,
            attempts: 0,
            phase: if config.retries == 0 {
                RetryPhase::Finished
            } else {
                RetryPhase::Sending
            },
            matched: None,
            other: Vec::new(),
            failure: None,
        }
    }

    /// What the caller is to do next.
    pub fn pending(&self) -> (action: RetryAction)
        ensures
            action == self@.pending(),
    {
        match self.phase {
            RetryPhase::Sending => RetryAction::Send,
            RetryPhase::Timing => RetryAction::ReadClock,
            RetryPhase::Polling => RetryAction::Poll,
            RetryPhase::Sleeping => RetryAction::Sleep(self.config.sleep_millis),
            RetryPhase::Finished => RetryAction::Stop,
        }
    }

    /// The command, encoded for the wire: what is to be sent on `Send`, the
    /// same on every attempt.
    pub fn to_cmd(&self) -> (cmd: Cmd)
        ensures
            cmd@ == self@.frame,
    {
        self.command.to_cmd()
    }

    /// Takes what the caller reports and says what to do next.
    ///
    /// A response of the awaited kind ends the session at once. Any other
    /// response is set aside, in order of arrival, and the wait goes on. When
    /// an attempt's time is up the command is sent again, unless every
    /// attempt has been used. A closed queue ends the session.
    pub fn step(&mut self, event: RetryEvent) -> (action: RetryAction)
        ensures
            final(self)@ == old(self)@.next(event),
            action == final(self)@.pending(),
            old(self)@.is_sound() ==> final(self)@.is_sound(),
    {
        match (self.phase, event) {
            (RetryPhase::Sending, RetryEvent::Sent) => {
                if self.attempts < self.config.retries {
                    self.attempts = self.attempts + 1;
                    self.phase = RetryPhase::Timing;
                } else {
                    self.phase = RetryPhase::Finished;
                }
            },
            (RetryPhase::Sending, RetryEvent::SendFailed(failure)) => {
                self.failure = Some(failure);
                self.phase = RetryPhase::Finished;
            },
            (RetryPhase::Timing, RetryEvent::Elapsed(millis)) => {
                if millis < self.config.timeout_millis {
                    self.phase = RetryPhase::Polling;
                } else if self.attempts < self.config.retries {
                    self.phase = RetryPhase::Sending;
                } else {
                    self.phase = RetryPhase::Finished;
                }
            },
            (RetryPhase::Polling, RetryEvent::Received(resp)) => {
                match resp.try_into_response::<C::ResponseType>() {
                    Ok(inner) => {
                        self.matched = Some(inner);
                        self.phase = RetryPhase::Finished;
                    },
                    Err(_) => {
                        self.other.push(resp);
                    },
                }
            },
            (RetryPhase::Polling, RetryEvent::Drained) => {
                self.phase = RetryPhase::Sleeping;
            },
            (RetryPhase::Sleeping, RetryEvent::Slept) => {
                self.phase = RetryPhase::Timing;
            },
            _ => {},
        }
        self.pending()
    }

    /// Ends the session and hands out its result: the awaited response and
    /// every other response that arrived before it, in order; or the failure
    /// of the queue; or, where none of the awaited kind arrived, the error
    /// that names the command.
    pub fn finish(self) -> (out: Result<(C::ResponseType, Vec<Resp>), Error>)
        ensures
            match self@.outcome() {
                Ok((inner, others)) => out matches Ok((response, other)) && response == inner
                    && other@ == others,
                Err(RetryFailure::QueueClosed(failure)) => out matches Err(
                    Error::ChannelSendError(cause),
                ) && cause == failure,
                Err(RetryFailure::Unanswered(command)) => out matches Err(
                    Error::RetriesExceeded { command: name },
                ) && name@ == command,
            },
    {
        match (self.matched, self.failure) {
            (Some(inner), _) => Ok((inner, self.other)),
            (None, Some(failure)) => Err(Error::ChannelSendError(failure)),
            (None, None) => Err(Error::RetriesExceeded { command: self.name }),
        }
    }
}

/// Whether `event` is a report that `action` asks for.
pub open spec fn answers(action: RetryAction, event: RetryEvent) -> bool {
    match (action, event) {
        (RetryAction::Send, RetryEvent::Sent) => true,
        (RetryAction::Send, RetryEvent::SendFailed(_)) => true,
        (RetryAction::ReadClock, RetryEvent::Elapsed(_)) => true,
        (RetryAction::Poll, RetryEvent::Received(_)) => true,
        (RetryAction::Poll, RetryEvent::Drained) => true,
        (RetryAction::Sleep(_), RetryEvent::Slept) => true,
        _ => false,
    }
}

/// Whether `events` is what a caller reports who does as the session says:
/// each event answers the action that was pending when it came.
pub open spec fn follows<T: Response>(start: RetryModel<T>, events: Seq<RetryEvent>) -> bool
    decreases events.len(),
{
    events.len() == 0 || (follows(start, events.drop_last()) && answers(
        start.run(events.drop_last()).pending(),
        events.last(),
    ))
}

/// The responses among `events` that are not of kind `T`, in order.
pub open spec fn unrelated<T: Response>(events: Seq<RetryEvent>) -> Seq<Resp>
    decreases events.len(),
{
    if events.len() == 0 {
        Seq::empty()
    } else {
        match events.last() {
            RetryEvent::Received(resp) if T::unpacked(resp) is None => unrelated::<T>(
                events.drop_last(),
            ).push(resp),
            _ => unrelated::<T>(events.drop_last()),
        }
    }
}

/// Whether some response among `events` is of kind `T`.
pub open spec fn answered<T: Response>(events: Seq<RetryEvent>) -> bool {
    exists|i: int|
        0 <= i < events.len() && (#[trigger] events[i] matches RetryEvent::Received(resp)
            && T::unpacked(resp) is Some)
}

/// Whether some event among `events` reports that the queue was closed.
pub open spec fn broken(events: Seq<RetryEvent>) -> bool {
    exists|i: int| 0 <= i < events.len() && #[trigger] events[i] is SendFailed
}

/// How often `events` reports that the command was sent.
pub open spec fn sends(events: Seq<RetryEvent>) -> nat
    decreases events.len(),
{
    if events.len() == 0 {
        0
    } else if events.last() == RetryEvent::Sent {
        sends(events.drop_last()) + 1
    } else {
        sends(events.drop_last())
    }
}

/// A new session is sound, and no event makes a sound session unsound.
pub proof fn lemma_step_keeps_sound<T: Response>(
    frame: Seq<u8>,
    command: Seq<char>,
    config: RetryConfig,
    state: RetryModel<T>,
    event: RetryEvent,
)
    ensures
        RetryModel::<T>::begin(frame, command, config).is_sound(),
        state.is_sound() ==> state.next(event).is_sound(),
        state.next(event).config == state.config,
        state.next(event).frame == state.frame,
        state.next(event).command == state.command,
{
}

/// Every state that a session reaches is sound. So the command is never sent
/// more often than allowed, and a session that has finished without the
/// awaited response has sent it exactly as often as allowed.
pub proof fn lemma_session_is_sound<T: Response>(
    frame: Seq<u8>,
    command: Seq<char>,
    config: RetryConfig,
    events: Seq<RetryEvent>,
)
    ensures
        RetryModel::<T>::begin(frame, command, config).run(events).is_sound(),
        RetryModel::<T>::begin(frame, command, config).run(events).config == config,
        RetryModel::<T>::begin(frame, command, config).run(events).frame == frame,
        RetryModel::<T>::begin(frame, command, config).run(events).command == command,
    decreases events.len(),
{
    let start = RetryModel::<T>::begin(frame, command, config);
    if events.len() > 0 {
        lemma_session_is_sound::<T>(frame, command, config, events.drop_last());
        lemma_step_keeps_sound::<T>(
            frame,
            command,
            config,
            start.run(events.drop_last()),
            events.last(),
        );
    }
}

/// No response is ever dropped or moved: an event leaves the responses that
/// were set aside as they are, or adds the one that it brings, at the end,
/// and only where that one is not of the awaited kind. The awaited response
/// ends the session at once.
pub proof fn lemma_step_keeps_others<T: Response>(state: RetryModel<T>, event: RetryEvent)
    ensures
        state.next(event).others == state.others || (event matches RetryEvent::Received(resp)
            && T::unpacked(resp) is None && state.next(event).others == state.others.push(resp)),
        forall|resp: Resp|
            state.phase == RetryPhase::Polling && event == RetryEvent::Received(resp)
                && T::unpacked(resp) is Some ==> state.next(event).outcome() == Ok::<
                (T, Seq<Resp>),
                RetryFailure,
            >((T::unpacked(resp)->0, state.others)),
{
}

/// With a caller who does as the session says, a sound session counts every
/// send, and sets aside every response that is not of the awaited kind, in
/// order of arrival, for as long as none of the awaited kind has come.
pub proof fn lemma_run_collects<T: Response>(start: RetryModel<T>, events: Seq<RetryEvent>)
    requires
        start.is_sound(),
        follows(start, events),
    ensures
        start.run(events).is_sound(),
        start.run(events).attempts == start.attempts + sends(events),
        start.run(events).others == start.others + unrelated::<T>(events),
        start.matched is None && !answered::<T>(events) ==> start.run(events).matched is None,
        start.failure is None && !broken(events) ==> start.run(events).failure is None,
    decreases events.len(),
{
    if events.len() == 0 {
        assert(start.others + unrelated::<T>(events) =~= start.others);
    } else {
        let before = events.drop_last();
        let event = events.last();
        lemma_run_collects(start, before);
        let state = start.run(before);
        assert(state.next(event).others =~= start.others + unrelated::<T>(events));
        if start.matched is None && !answered::<T>(events) {
            if answered::<T>(before) {
                let i = choose|i: int|
                    0 <= i < before.len() && (#[trigger] before[i] matches RetryEvent::Received(
                        resp,
                    ) && T::unpacked(resp) is Some);
                assert(events[i] == before[i]);
            }
            assert(events[events.len() - 1] == event);
        }
        if start.failure is None && !broken(events) {
            if broken(before) {
                let i = choose|i: int| 0 <= i < before.len() && #[trigger] before[i] is SendFailed;
                assert(events[i] == before[i]);
            }
            assert(events[events.len() - 1] == event);
        }
    }
}

/// Giving up: where no response of the awaited kind ever comes, the queue
/// stays open and the caller does as the session says, a session that has
/// finished has seen exactly as many sends as attempts are allowed, and its
/// outcome is the failure that names the command.
pub proof fn lemma_gives_up_after_all_attempts<T: Response>(
    frame: Seq<u8>,
    command: Seq<char>,
    config: RetryConfig,
    events: Seq<RetryEvent>,
)
    requires
        follows(RetryModel::<T>::begin(frame, command, config), events),
        !answered::<T>(events),
        !broken(events),
    ensures
        sends(events) <= config.retries,
        RetryModel::<T>::begin(frame, command, config).run(events).phase == RetryPhase::Finished
            ==> {
            &&& sends(events) == config.retries
            &&& RetryModel::<T>::begin(frame, command, config).run(events).outcome() == Err::<
                (T, Seq<Resp>),
                RetryFailure,
            >(RetryFailure::Unanswered(command))
        },
{
    let start = RetryModel::<T>::begin(frame, command, config);
    lemma_session_is_sound::<T>(frame, command, config, events);
    lemma_run_collects(start, events);
}

/// Success: where the caller does as the session says and a response of the
/// awaited kind comes at last, on whichever attempt, the outcome is that
/// response together with every other response that came before it, in
/// order of arrival.
pub proof fn lemma_match_keeps_others<T: Response>(
    frame: Seq<u8>,
    command: Seq<char>,
    config: RetryConfig,
    before: Seq<RetryEvent>,
    resp: Resp,
)
    requires
        follows(
            RetryModel::<T>::begin(frame, command, config),
            before.push(RetryEvent::Received(resp)),
        ),
        T::unpacked(resp) is Some,
    ensures
        RetryModel::<T>::begin(frame, command, config).run(
            before.push(RetryEvent::Received(resp)),
        ).outcome() == Ok::<(T, Seq<Resp>), RetryFailure>(
            (T::unpacked(resp)->0, unrelated::<T>(before)),
        ),
        RetryModel::<T>::begin(frame, command, config).run(
            before.push(RetryEvent::Received(resp)),
        ).phase == RetryPhase::Finished,
{
    let start = RetryModel::<T>::begin(frame, command, config);
    let events = before.push(RetryEvent::Received(resp));
    assert(events.drop_last() =~= before);
    lemma_session_is_sound::<T>(frame, command, config, before);
    lemma_run_collects(start, before);
    assert(Seq::<Resp>::empty() + unrelated::<T>(before) =~= unrelated::<T>(before));
}

/// A closed queue: where the caller does as the session says and the queue
/// refuses the command, on whichever attempt, the session has finished and
/// its outcome is that failure.
pub proof fn lemma_closed_queue_ends_session<T: Response>(
    frame: Seq<u8>,
    command: Seq<char>,
    config: RetryConfig,
    before: Seq<RetryEvent>,
    failure: SendError<Cmd>,
)
    requires
        follows(
            RetryModel::<T>::begin(frame, command, config),
            before.push(RetryEvent::SendFailed(failure)),
        ),
    ensures
        RetryModel::<T>::begin(frame, command, config).run(
            before.push(RetryEvent::SendFailed(failure)),
        ).outcome() == Err::<(T, Seq<Resp>), RetryFailure>(RetryFailure::QueueClosed(failure)),
        RetryModel::<T>::begin(frame, command, config).run(
            before.push(RetryEvent::SendFailed(failure)),
        ).phase == RetryPhase::Finished,
{
    let events = before.push(RetryEvent::SendFailed(failure));
    assert(events.drop_last() =~= before);
    lemma_session_is_sound::<T>(frame, command, config, before);
}

} // verus!
