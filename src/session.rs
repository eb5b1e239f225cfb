//! Admission of clients and the conversation of one session.
//!
//! A connection is driven by events: a decoded frame from the client, the
//! outcome of a write to the instrument, the outcome of a bounded read from
//! it. Each event moves the session to its next state and names the one
//! action that the caller performs next. A process-wide `Arbiter` holds the
//! busy flag that admits one session at a time.
use vstd::prelude::*;
use vstd::utf8::encode_utf8;

use crate::device::{chunk_bytes, chunk_form, line_body, strip_line_end};
use crate::message::{
    busy_model, not_understood_model, received, Message, MessageModel,
};

verus! {

/// Where a connection stands.
#[derive(Debug, Clone, Copy, PartialEq, Eq, Structural)]
pub enum Phase {
    /// No control message has been accepted yet.
    Idle,
    /// The session holds the instrument.
    Active,
    /// The connection is over.
    Closed,
}

/// The process-wide busy flag: set exactly while a session holds the
/// instrument.
pub struct Arbiter {
    busy: bool,
}

impl View for Arbiter {
    type V = bool;

    closed spec fn view(&self) -> bool {
        self.busy
    }
}

impl Arbiter {
    /// A flag that no session holds.
    pub fn new() -> (r: Arbiter)
        ensures
            !r@,
    {
        Arbiter { busy: false }
    }

    /// Whether a session holds the instrument.
    pub fn is_busy(&self) -> (r: bool)
        ensures
            r == self@,
    {
        self.busy
    }

    /// Claims the instrument; true when it was free.
    pub fn try_acquire(&mut self) -> (r: bool)
        ensures
            r == !old(self)@,
            final(self)@,
    {
        let free = !self.busy;
        self.busy = true;
        free
    }

    /// Gives the instrument back.
    pub fn release(&mut self)
        ensures
            !final(self)@,
    {
        self.busy = false;
    }
}

/// What the instrument's bounded read gave.
#[derive(Debug, Clone, PartialEq, Eq)]
pub enum DeviceReply {
    /// A line arrived within the read window, terminator included or not.
    Line(String),
    /// Nothing arrived within the read window.
    Silent,
    /// The read failed; the text describes the failure.
    Failed(String),
}

/// A device reply as a mathematical value.
pub enum DeviceReplyModel {
    Line(Seq<char>),
    Silent,
    Failed(Seq<char>),
}

impl View for DeviceReply {
    type V = DeviceReplyModel;

    open spec fn view(&self) -> DeviceReplyModel {
        match self {
            DeviceReply::Line(s) => DeviceReplyModel::Line(s@),
            DeviceReply::Silent => DeviceReplyModel::Silent,
            DeviceReply::Failed(s) => DeviceReplyModel::Failed(s@),
        }
    }
}

/// The outcome of a write to the instrument, as a mathematical value.
pub open spec fn written(w: Result<(), String>) -> Result<(), Seq<char>> {
    match w {
        Ok(()) => Ok(()),
        Err(e) => Err(e@),
    }
}

/// What the caller does next.
#[derive(Debug, Clone, PartialEq, Eq)]
pub enum Action {
    /// Send the message to the client, then wait for the next frame.
    Reply(Message),
    /// Send the message to the client, then close the connection.
    ReplyAndClose(Message),
    /// Write the bytes to the instrument and report the outcome.
    Write(Vec<u8>),
    /// Read one line from the instrument within the read window and report it.
    Await,
    /// Send nothing and wait for the next frame.
    Continue,
}

/// An action as a mathematical value.
pub enum ActionModel {
    Reply(MessageModel),
    ReplyAndClose(MessageModel),
    Write(Seq<u8>),
    Await,
    Continue,
}

impl View for Action {
    type V = ActionModel;

    open spec fn view(&self) -> ActionModel {
        match self {
            Action::Reply(m) => ActionModel::Reply(m@),
            Action::ReplyAndClose(m) => ActionModel::ReplyAndClose(m@),
            Action::Write(b) => ActionModel::Write(b@),
            Action::Await => ActionModel::Await,
            Action::Continue => ActionModel::Continue,
        }
    }
}

/// The messages that an action sends to the client.
pub open spec fn sent(a: ActionModel) -> Seq<MessageModel> {
    match a {
        ActionModel::Reply(m) => seq![m],
        ActionModel::ReplyAndClose(m) => seq![m],
        _ => Seq::empty(),
    }
}

/// The state of one connection: its phase, and the request whose round trip
/// to the instrument is under way.
#[derive(Debug, Clone, Copy, PartialEq, Eq, Structural)]
pub struct Session {
    pub phase: Phase,
    pub pending: Option<u64>,
}

/// A fresh connection.
pub open spec fn idle() -> Session {
    Session { phase: Phase::Idle, pending: None }
}

/// A session that holds the instrument and waits for a request.
pub open spec fn ready() -> Session {
    Session { phase: Phase::Active, pending: None }
}

/// A finished connection.
pub open spec fn closed() -> Session {
    Session { phase: Phase::Closed, pending: None }
}

/// The step for a frame from the client; `None` is a frame that did not
/// decode to a message.
pub open spec fn frame_step(s: Session, busy: bool, m: Option<MessageModel>) -> (
    Session,
    bool,
    ActionModel,
) {
    match s.phase {
        Phase::Idle => match m {
            Some(MessageModel::Start) => if busy {
                (closed(), busy, ActionModel::ReplyAndClose(busy_model()))
            } else {
                (ready(), true, ActionModel::Continue)
            },
            Some(MessageModel::Check) => if busy {
                (closed(), busy, ActionModel::ReplyAndClose(busy_model()))
            } else {
                (closed(), busy, ActionModel::ReplyAndClose(MessageModel::Affirm))
            },
            _ => (s, busy, ActionModel::Reply(not_understood_model())),
        },
        Phase::Active => match m {
            Some(MessageModel::Success { request_id, contents }) => (
                Session { phase: Phase::Active, pending: Some(request_id) },
                busy,
                ActionModel::Write(chunk_form(encode_utf8(contents))),
            ),
            Some(MessageModel::Failure { .. }) => (s, busy, ActionModel::Continue),
            Some(_) => (s, busy, ActionModel::Reply(not_understood_model())),
            None => (closed(), false, ActionModel::ReplyAndClose(not_understood_model())),
        },
        Phase::Closed => (s, busy, ActionModel::Continue),
    }
}

/// The step for the outcome of the write of the pending request.
pub open spec fn write_step(s: Session, busy: bool, w: Result<(), Seq<char>>) -> (
    Session,
    bool,
    ActionModel,
) {
    match w {
        Ok(()) => (s, busy, ActionModel::Await),
        Err(e) => (
            closed(),
            false,
            ActionModel::ReplyAndClose(
                MessageModel::Failure { request_id: s.pending, contents: e },
            ),
        ),
    }
}

/// The step for the outcome of the bounded read after the pending request.
pub open spec fn reply_step(s: Session, busy: bool, o: DeviceReplyModel) -> (
    Session,
    bool,
    ActionModel,
) {
    match o {
        DeviceReplyModel::Line(raw) => (
            ready(),
            busy,
            ActionModel::Reply(
                MessageModel::Success { request_id: s.pending.unwrap(), contents: line_body(raw) },
            ),
        ),
        DeviceReplyModel::Silent => (ready(), busy, ActionModel::Continue),
        DeviceReplyModel::Failed(e) => (
            closed(),
            false,
            ActionModel::ReplyAndClose(
                MessageModel::Failure { request_id: s.pending, contents: e },
            ),
        ),
    }
}

/// The step when the connection ends from outside: the client closed it or
/// a frame could not be read.
pub open spec fn end_step(s: Session, busy: bool) -> (Session, bool) {
    if s.phase == Phase::Active {
        (closed(), false)
    } else {
        (closed(), busy)
    }
}

impl Session {
    /// The states that a connection can be in: a round trip is under way
    /// only while the session holds the instrument.
    pub open spec fn wf(self) -> bool {
        self.pending is Some ==> self.phase == Phase::Active
    }

    /// A fresh connection, before its first control message.
    pub fn new() -> (r: Session)
        ensures
            r == idle(),
    {
        Session { phase: Phase::Idle, pending: None }
    }

    /// Takes one frame from the client.
    ///
    /// Before admission a `Start` claims the instrument when it is free and
    /// is refused with `BUSY` when it is not; a `Check` is answered and ends
    /// the connection; anything else is not understood and the connection
    /// waits for a control message. In a session a `Success` is forwarded to
    /// the instrument, a `Failure` is taken note of, another message is not
    /// understood, and a frame that does not decode ends the session.
    pub fn on_frame(&mut self, arbiter: &mut Arbiter, msg: Option<Message>) -> (r: Action)
        requires
            old(self).wf(),
            old(self).phase != Phase::Closed,
            old(self).pending is None,
        ensures
            (*final(self), final(arbiter)@, r@) == frame_step(
                *old(self),
                old(arbiter)@,
                received(msg),
            ),
            final(self).wf(),
    {
        match self.phase {
            Phase::Idle => match msg {
                Some(Message::Start) => {
                    if arbiter.try_acquire() {
                        self.phase = Phase::Active;
                        Action::Continue
                    } else {
                        self.phase = Phase::Closed;
                        Action::ReplyAndClose(Message::busy())
                    }
                },
                Some(Message::Check) => {
                    self.phase = Phase::Closed;
                    if arbiter.is_busy() {
                        Action::ReplyAndClose(Message::busy())
                    } else {
                        Action::ReplyAndClose(Message::Affirm)
                    }
                },
                _ => Action::Reply(Message::not_understood()),
            },
            _ => match msg {
                Some(Message::Success { request_id, contents }) => {
                    self.pending = Some(request_id);
                    Action::Write(chunk_bytes(contents.as_str().as_bytes()))
                },
                Some(Message::Failure { .. }) => Action::Continue,
                Some(_) => Action::Reply(Message::not_understood()),
                None => {
                    self.phase = Phase::Closed;
                    arbiter.release();
                    Action::ReplyAndClose(Message::not_understood())
                },
            },
        }
    }

    /// Takes the outcome of the write of the pending request: on success the
    /// reply is awaited; a failure is reported under the request's id and
    /// ends the session.
    pub fn on_written(&mut self, arbiter: &mut Arbiter, outcome: Result<(), String>) -> (r: Action)
        requires
            old(self).wf(),
            old(self).pending is Some,
        ensures
            (*final(self), final(arbiter)@, r@) == write_step(
                *old(self),
                old(arbiter)@,
                written(outcome),
            ),
            final(self).wf(),
    {
        match outcome {
            Ok(()) => Action::Await,
            Err(e) => {
                let id = self.pending;
                self.phase = Phase::Closed;
                self.pending = None;
                arbiter.release();
                Action::ReplyAndClose(Message::Failure { request_id: id, contents: e })
            },
        }
    }

    /// Takes the outcome of the bounded read after the pending request: a
    /// line is answered under the request's id, silence is not answered, and
    /// a failed read is reported under the request's id and ends the session.
    pub fn on_reply(&mut self, arbiter: &mut Arbiter, outcome: DeviceReply) -> (r: Action)
        requires
            old(self).wf(),
            old(self).pending is Some,
        ensures
            (*final(self), final(arbiter)@, r@) == reply_step(
                *old(self),
                old(arbiter)@,
                outcome@,
            ),
            final(self).wf(),
    {
        let id = self.pending;
        self.pending = None;
        match outcome {
            DeviceReply::Line(raw) => {
                let request_id = id.unwrap();
                Action::Reply(Message::Success { request_id, contents: strip_line_end(raw.as_str()) })
            },
            DeviceReply::Silent => Action::Continue,
            DeviceReply::Failed(e) => {
                self.phase = Phase::Closed;
                arbiter.release();
                Action::ReplyAndClose(Message::Failure { request_id: id, contents: e })
            },
        }
    }

    /// Ends the connection; a session that held the instrument gives it back.
    pub fn end(&mut self, arbiter: &mut Arbiter)
        ensures
            (*final(self), final(arbiter)@) == end_step(*old(self), old(arbiter)@),
            final(self).wf(),
    {
        if self.phase == Phase::Active {
            arbiter.release();
        }
        self.phase = Phase::Closed;
        self.pending = None;
    }
}

/// One event on a connection, as a mathematical value.
pub enum Event {
    Frame(Option<MessageModel>),
    Written(Result<(), Seq<char>>),
    Reply(DeviceReplyModel),
    End,
}

/// Whether a connection in state `s` can take event `e`: frames come only
/// while no round trip is under way, device outcomes only during one.
pub open spec fn takes(s: Session, e: Event) -> bool {
    match e {
        Event::Frame(_) => s.phase != Phase::Closed && s.pending is None,
        Event::Written(_) => s.pending is Some,
        Event::Reply(_) => s.pending is Some,
        Event::End => true,
    }
}

/// The connection state and busy flag after event `e`.
pub open spec fn step(s: Session, busy: bool, e: Event) -> (Session, bool) {
    match e {
        Event::Frame(m) => {
            let r = frame_step(s, busy, m);
            (r.0, r.1)
        },
        Event::Written(w) => {
            let r = write_step(s, busy, w);
            (r.0, r.1)
        },
        Event::Reply(o) => {
            let r = reply_step(s, busy, o);
            (r.0, r.1)
        },
        Event::End => end_step(s, busy),
    }
}

/// How many of the connections hold the instrument.
pub open spec fn active_count(ss: Seq<Session>) -> nat
    decreases ss.len(),
{
    if ss.len() == 0 {
        0
    } else {
        active_count(ss.drop_last()) + if ss.last().phase == Phase::Active {
            1nat
        } else {
            0nat
        }
    }
}

/// At most one connection holds the instrument, and the busy flag is set
/// exactly when one does.
pub open spec fn exclusive(ss: Seq<Session>, busy: bool) -> bool {
    &&& active_count(ss) <= 1
    &&& busy <==> active_count(ss) == 1
    &&& forall|i: int| 0 <= i < ss.len() ==> (#[trigger] ss[i]).wf()
}

proof fn lemma_active_count_update(ss: Seq<Session>, i: int, s: Session)
    requires
        0 <= i < ss.len(),
    ensures
        active_count(ss.update(i, s)) + (if ss[i].phase == Phase::Active {
            1int
        } else {
            0int
        }) == active_count(ss) + (if s.phase == Phase::Active {
            1int
        } else {
            0int
        }),
    decreases ss.len(),
{
    let u = ss.update(i, s);
    if i == ss.len() - 1 {
        assert(u.drop_last() =~= ss.drop_last());
    } else {
        assert(u.drop_last() =~= ss.drop_last().update(i, s));
        lemma_active_count_update(ss.drop_last(), i, s);
    }
}

/// Whatever order the connections' events come in, each one keeps the
/// instrument exclusive: from no connection at all, through any sequence of
/// events, at most one connection is ever admitted at a time and the busy
/// flag tells exactly whether one is.
pub proof fn lemma_exclusive_invariant(ss: Seq<Session>, busy: bool, i: int, e: Event)
    requires
        exclusive(ss, busy),
        0 <= i < ss.len(),
        takes(ss[i], e),
    ensures
        exclusive(ss.update(i, step(ss[i], busy, e).0), step(ss[i], busy, e).1),
        exclusive(Seq::empty(), false),
        exclusive(ss.push(idle()), busy),
{
    let s = ss[i];
    let n = step(s, busy, e);
    lemma_active_count_update(ss, i, n.0);
    let u = ss.update(i, n.0);
    assert(s.wf());
    assert forall|j: int| 0 <= j < u.len() implies (#[trigger] u[j]).wf() by {
        if j != i {
            assert(u[j] == ss[j]);
        }
    }
    if s.phase != Phase::Active {
        assert(active_count(ss) <= 1);
    }
    let p = ss.push(idle());
    assert(p.drop_last() =~= ss);
    assert forall|j: int| 0 <= j < p.len() implies (#[trigger] p[j]).wf() by {
        if j < ss.len() {
            assert(p[j] == ss[j]);
        }
    }
}

/// What `n` fresh connections get, one after another, when each opens with
/// `Start`: the busy flag after them and the action that each one got.
pub open spec fn starts(busy: bool, n: nat) -> (bool, Seq<ActionModel>)
    decreases n,
{
    if n == 0 {
        (busy, Seq::empty())
    } else {
        let first = frame_step(idle(), busy, Some(MessageModel::Start));
        let rest = starts(first.1, (n - 1) as nat);
        (rest.0, seq![first.2] + rest.1)
    }
}

proof fn lemma_starts_while_busy(n: nat)
    ensures
        starts(true, n).0,
        starts(true, n).1.len() == n,
        forall|i: int|
            0 <= i < n ==> #[trigger] starts(true, n).1[i] == ActionModel::ReplyAndClose(
                busy_model(),
            ),
    decreases n,
{
    if n > 0 {
        lemma_starts_while_busy((n - 1) as nat);
        let rest = starts(true, (n - 1) as nat);
        assert forall|i: int| 0 <= i < n implies #[trigger] starts(true, n).1[i]
            == ActionModel::ReplyAndClose(busy_model()) by {
            if i > 0 {
                assert(starts(true, n).1[i] == rest.1[i - 1]);
            }
        }
    }
}

/// Of any number of connections that ask for the instrument while it is
/// free, the first is admitted and every later one is refused with `BUSY`,
/// and the instrument stays claimed. An admitted connection holds the
/// instrument; a refused one is closed.
pub proof fn lemma_exclusive_admission(n: nat)
    requires
        n > 0,
    ensures
        starts(false, n).0,
        starts(false, n).1.len() == n,
        starts(false, n).1[0] == ActionModel::Continue,
        forall|i: int|
            1 <= i < n ==> #[trigger] starts(false, n).1[i] == ActionModel::ReplyAndClose(
                busy_model(),
            ),
        frame_step(idle(), false, Some(MessageModel::Start)) == (
            ready(),
            true,
            ActionModel::Continue,
        ),
        frame_step(idle(), true, Some(MessageModel::Start)) == (
            closed(),
            true,
            ActionModel::ReplyAndClose(busy_model()),
        ),
{
    lemma_starts_while_busy((n - 1) as nat);
    let rest = starts(true, (n - 1) as nat);
    assert forall|i: int| 1 <= i < n implies #[trigger] starts(false, n).1[i]
        == ActionModel::ReplyAndClose(busy_model()) by {
        assert(starts(false, n).1[i] == rest.1[i - 1]);
    }
}

/// However a session ends, it gives the instrument back, and the next
/// connection that asks for it is admitted.
pub proof fn lemma_end_readmits(s: Session, busy: bool, w: Seq<char>, e: Seq<char>)
    requires
        s.wf(),
        s.phase == Phase::Active,
    ensures
        !end_step(s, busy).1,
        s.pending is None ==> !frame_step(s, busy, None).1,
        s.pending is Some ==> !write_step(s, busy, Err(w)).1,
        s.pending is Some ==> !reply_step(s, busy, DeviceReplyModel::Failed(e)).1,
        frame_step(idle(), end_step(s, busy).1, Some(MessageModel::Start)) == (
            ready(),
            true,
            ActionModel::Continue,
        ),
{
}

/// One request forwarded by a session that waits for one: the state after
/// its round trip and the messages sent to the client meanwhile. The write
/// has outcome `w`; the read that follows a successful write gives `o`.
pub open spec fn round_trip(
    busy: bool,
    k: u64,
    contents: Seq<char>,
    w: Result<(), Seq<char>>,
    o: DeviceReplyModel,
) -> (Session, bool, Seq<MessageModel>) {
    let s1 = frame_step(ready(), busy, Some(MessageModel::Success { request_id: k, contents }));
    let s2 = write_step(s1.0, s1.1, w);
    if s2.2 is Await {
        let s3 = reply_step(s2.0, s2.1, o);
        (s3.0, s3.1, sent(s1.2) + sent(s2.2) + sent(s3.2))
    } else {
        (s2.0, s2.1, sent(s1.2) + sent(s2.2))
    }
}

/// A forwarded request gets at most one answer, under its own id, before the
/// session is ready for the next request or closed; when the instrument
/// answers in time, that answer is exactly the instrument's line.
pub proof fn lemma_correlation(
    busy: bool,
    k: u64,
    contents: Seq<char>,
    w: Result<(), Seq<char>>,
    o: DeviceReplyModel,
)
    ensures
        frame_step(ready(), busy, Some(MessageModel::Success { request_id: k, contents })).2
            == ActionModel::Write(chunk_form(encode_utf8(contents))),
        round_trip(busy, k, contents, w, o).2.len() <= 1,
        forall|i: int|
            0 <= i < round_trip(busy, k, contents, w, o).2.len() ==> (#[trigger] round_trip(
                busy,
                k,
                contents,
                w,
                o,
            ).2[i]).request_id() == Some(k),
        round_trip(busy, k, contents, w, o).0 == ready() || round_trip(
            busy,
            k,
            contents,
            w,
            o,
        ).0 == closed(),
        w is Ok ==> (o matches DeviceReplyModel::Line(raw) ==> round_trip(
            busy,
            k,
            contents,
            w,
            o,
        ) == (
            ready(),
            busy,
            seq![MessageModel::Success { request_id: k, contents: line_body(raw) }],
        )),
{
    assert(sent(ActionModel::Write(chunk_form(encode_utf8(contents)))) =~= Seq::empty());
}

/// A frame that decodes to no message is answered with "don't understand".
/// Before admission the connection stays open for a control message; in a
/// session it ends the session and gives the instrument back.
pub proof fn lemma_malformed_input(busy: bool)
    ensures
        frame_step(idle(), busy, None) == (
            idle(),
            busy,
            ActionModel::Reply(not_understood_model()),
        ),
        frame_step(ready(), busy, None) == (
            closed(),
            false,
            ActionModel::ReplyAndClose(not_understood_model()),
        ),
{
}

} // verus!
