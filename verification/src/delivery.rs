//! Putting headers into the guest's ring.
//!
//! The ring and the guest's memory are the work of others: the state of a
//! delivery says which action is due, and takes the outcome of that action.
use vstd::prelude::*;

use crate::vhu_ssr::{law_header_read_back, VirtioSsrOutHdr, VuSsrError, OUT_HDR_SIZE};

verus! {

/// A descriptor chain that the guest has made available.
#[derive(Debug, PartialEq, Eq)]
pub struct AvailChain {
    /// Index of the chain's first descriptor in the descriptor table.
    pub head_index: u16,
    /// Guest address of the buffer of each descriptor, in chain order.
    pub descriptors: Vec<u64>,
}

/// Work on the guest's ring and memory.
#[derive(Debug, PartialEq, Eq)]
pub enum RingAction {
    /// Take the next available descriptor chain, if there is one.
    PopDescriptorChain,
    /// Write the bytes to the guest's memory.
    WriteDescriptor { addr: u64, bytes: Vec<u8> },
    /// Put the chain into the used ring, with the number of bytes written.
    AddUsed { head_index: u16, len: u32 },
    /// Notify the guest of the used ring.
    SignalUsedQueue,
}

/// What a [`RingAction`] stands for.
pub enum RingWork {
    PopDescriptorChain,
    WriteDescriptor { addr: u64, bytes: Seq<u8> },
    AddUsed { head_index: u16, len: u32 },
    SignalUsedQueue,
}

impl View for RingAction {
    type V = RingWork;

    open spec fn view(&self) -> RingWork {
        match *self {
            RingAction::PopDescriptorChain => RingWork::PopDescriptorChain,
            RingAction::WriteDescriptor { addr, bytes } => RingWork::WriteDescriptor {
                addr,
                bytes: bytes@,
            },
            RingAction::AddUsed { head_index, len } => RingWork::AddUsed { head_index, len },
            RingAction::SignalUsedQueue => RingWork::SignalUsedQueue,
        }
    }
}

/// Outcome of a [`RingAction`].
#[derive(Debug, PartialEq, Eq)]
pub enum RingReply {
    /// The chain taken from the ring, `None` where the ring holds none.
    Chain(Option<AvailChain>),
    /// Whether the bytes were written.
    Written(bool),
    /// Whether the chain was put into the used ring.
    Used(bool),
    /// Whether the guest was notified.
    Signalled(bool),
}

/// How far the sending of one header has come.
#[derive(Clone, Copy, Debug, PartialEq, Eq)]
pub enum EventState {
    /// A descriptor chain is to be taken from the ring.
    Pop,
    /// The header is to be written to the buffer of the chain's descriptor.
    Write { head_index: u16, addr: u64 },
    /// The chain is to be put into the used ring.
    AddUsed { head_index: u16 },
    /// The guest is to be notified of a header, or of the lack of a chain.
    Signal { sent: bool },
    /// Nothing is left to do: whether the header was sent.
    Done(Result<bool, VuSsrError>),
}

impl EventState {
    /// Whether `reply` is an outcome of the action that is due.
    pub open spec fn awaits(self, reply: RingReply) -> bool {
        match self {
            EventState::Pop => reply is Chain,
            EventState::Write { .. } => reply is Written,
            EventState::AddUsed { .. } => reply is Used,
            EventState::Signal { .. } => reply is Signalled,
            EventState::Done(_) => false,
        }
    }

    /// What follows an outcome of the action that is due.
    pub open spec fn spec_next(self, reply: RingReply) -> EventState {
        match (self, reply) {
            (EventState::Pop, RingReply::Chain(None)) => EventState::Signal { sent: false },
            (EventState::Pop, RingReply::Chain(Some(chain))) => {
                if chain.descriptors@.len() == 1 {
                    EventState::Write { head_index: chain.head_index, addr: chain.descriptors@[0] }
                } else {
                    EventState::Done(
                        Err(VuSsrError::UnexpectedDescriptorCount(chain.descriptors.len())),
                    )
                }
            },
            (EventState::Write { head_index, addr }, RingReply::Written(true)) => {
                EventState::AddUsed { head_index }
            },
            (EventState::Write { .. }, RingReply::Written(false)) => {
                EventState::Done(Err(VuSsrError::UnexpectedWriteDescriptorError))
            },
            (EventState::AddUsed { .. }, RingReply::Used(true)) => EventState::Signal {
                sent: true,
            },
            (EventState::AddUsed { .. }, RingReply::Used(false)) => {
                EventState::Done(Err(VuSsrError::UnexpectedWriteVringError))
            },
            (EventState::Signal { sent }, RingReply::Signalled(true)) => EventState::Done(Ok(sent)),
            (EventState::Signal { .. }, RingReply::Signalled(false)) => {
                EventState::Done(Err(VuSsrError::SendNotificationFailed))
            },
            _ => self,
        }
    }

    /// The work that is due to send `out`, `None` where nothing is left to do.
    pub open spec fn spec_action(self, out: VirtioSsrOutHdr) -> Option<RingWork> {
        match self {
            EventState::Pop => Some(RingWork::PopDescriptorChain),
            EventState::Write { head_index, addr } => Some(
                RingWork::WriteDescriptor { addr, bytes: out.spec_bytes() },
            ),
            EventState::AddUsed { head_index } => Some(
                RingWork::AddUsed { head_index, len: OUT_HDR_SIZE as u32 },
            ),
            EventState::Signal { .. } => Some(RingWork::SignalUsedQueue),
            EventState::Done(_) => None,
        }
    }

    /// The action that is due to send `out`, `None` where nothing is left to do.
    pub fn action(&self, out: &VirtioSsrOutHdr) -> (action: Option<RingAction>)
        ensures
            match action {
                Some(action) => self.spec_action(*out) == Some(action@),
                None => self.spec_action(*out) is None,
            },
    {
        match *self {
            EventState::Pop => Some(RingAction::PopDescriptorChain),
            EventState::Write { head_index: _, addr } => {
                Some(RingAction::WriteDescriptor { addr, bytes: out.to_bytes() })
            },
            EventState::AddUsed { head_index } => {
                let bytes = out.to_bytes();
                Some(RingAction::AddUsed { head_index, len: bytes.len() as u32 })
            },
            EventState::Signal { sent: _ } => Some(RingAction::SignalUsedQueue),
            EventState::Done(_) => None,
        }
    }

    /// What follows an outcome of the action that is due.
    pub fn next(self, reply: RingReply) -> (state: EventState)
        requires
            self.awaits(reply),
        ensures
            state == self.spec_next(reply),
    {
        match (self, reply) {
            (EventState::Pop, RingReply::Chain(chain)) => match chain {
                Some(chain) => {
                    if chain.descriptors.len() != 1 {
                        return EventState::Done(
                            Err(VuSsrError::UnexpectedDescriptorCount(chain.descriptors.len())),
                        );
                    }
                    EventState::Write { head_index: chain.head_index, addr: chain.descriptors[0] }
                },
                // The guest does not take events in time. The event is dropped and
                // the guest is notified all the same, so that it catches up.
                None => EventState::Signal { sent: false },
            },
            (EventState::Write { head_index, addr: _ }, RingReply::Written(written)) => {
                if written {
                    EventState::AddUsed { head_index }
                } else {
                    EventState::Done(Err(VuSsrError::UnexpectedWriteDescriptorError))
                }
            },
            (EventState::AddUsed { head_index: _ }, RingReply::Used(used)) => {
                if used {
                    EventState::Signal { sent: true }
                } else {
                    EventState::Done(Err(VuSsrError::UnexpectedWriteVringError))
                }
            },
            (EventState::Signal { sent }, RingReply::Signalled(signalled)) => {
                if signalled {
                    EventState::Done(Ok(sent))
                } else {
                    EventState::Done(Err(VuSsrError::SendNotificationFailed))
                }
            },
            (state, _) => state,
        }
    }
}

/// The sending of the headers of one SSR event, one after the other.
#[derive(Debug, PartialEq, Eq)]
pub struct QueueRun {
    /// The headers.
    pub msgs: Vec<VirtioSsrOutHdr>,
    /// Index of the header that is being sent; those before it are done with.
    pub pos: usize,
    /// How far the sending of that header has come.
    pub event: EventState,
}

impl QueueRun {
    /// Only an error ends the sending of a header that is not done with.
    pub open spec fn wf(self) -> bool {
        &&& self.pos <= self.msgs@.len()
        &&& self.event matches EventState::Done(result) ==> result is Err && self.pos
            < self.msgs@.len()
        &&& self.pos == self.msgs@.len() ==> self.event is Pop
    }

    /// The result of the run once it has one. A header for which the ring had no
    /// chain does not make it fail.
    pub open spec fn spec_result(self) -> Option<Result<bool, VuSsrError>> {
        if self.pos == self.msgs@.len() {
            Some(Ok(true))
        } else {
            match self.event {
                EventState::Done(result) => Some(result),
                _ => None,
            }
        }
    }

    /// The work that is due, `None` where the run has its result.
    pub open spec fn spec_action(self) -> Option<RingWork> {
        if self.pos == self.msgs@.len() {
            None
        } else {
            self.event.spec_action(self.msgs@[self.pos as int])
        }
    }

    /// What follows an outcome of the action that is due.
    pub open spec fn spec_next(self, reply: RingReply) -> QueueRun {
        match self.event.spec_next(reply) {
            EventState::Done(Ok(_)) => QueueRun {
                msgs: self.msgs,
                pos: (self.pos + 1) as usize,
                event: EventState::Pop,
            },
            event => QueueRun { msgs: self.msgs, pos: self.pos, event },
        }
    }

    /// The start of a run that sends `msgs`.
    pub fn new(msgs: Vec<VirtioSsrOutHdr>) -> (run: Self)
        ensures
            run.wf(),
            run == (QueueRun { msgs, pos: 0, event: EventState::Pop }),
    {
        QueueRun { msgs, pos: 0, event: EventState::Pop }
    }

    /// The result of the run once it has one.
    pub fn result(&self) -> (result: Option<Result<bool, VuSsrError>>)
        requires
            self.wf(),
        ensures
            result == self.spec_result(),
    {
        if self.pos == self.msgs.len() {
            Some(Ok(true))
        } else {
            match self.event {
                EventState::Done(result) => Some(result),
                _ => None,
            }
        }
    }

    /// The action that is due, `None` where the run has its result.
    pub fn action(&self) -> (action: Option<RingAction>)
        requires
            self.wf(),
        ensures
            match action {
                Some(action) => self.spec_action() == Some(action@),
                None => self.spec_action() is None,
            },
            action is None <==> self.spec_result() is Some,
    {
        if self.pos == self.msgs.len() {
            None
        } else {
            self.event.action(&self.msgs[self.pos])
        }
    }

    /// Goes on with an outcome of the action that is due.
    pub fn next(&mut self, reply: RingReply)
        requires
            old(self).wf(),
            old(self).spec_result() is None,
            old(self).event.awaits(reply),
        ensures
            final(self).wf(),
            *final(self) == old(self).spec_next(reply),
    {
        assert(self.pos < self.msgs.len());
        match self.event.next(reply) {
            EventState::Done(Ok(_)) => {
                self.pos = self.pos + 1;
                self.event = EventState::Pop;
            },
            event => {
                self.event = event;
            },
        }
    }
}

/// The outcomes of the work that sending one header may take.
pub struct RingReplies {
    pub chain: Option<AvailChain>,
    pub written: bool,
    pub used: bool,
    pub signalled: bool,
}

/// The outcome of the action that is due in `state`.
pub open spec fn reply_in(state: EventState, replies: RingReplies) -> RingReply {
    match state {
        EventState::Pop => RingReply::Chain(replies.chain),
        EventState::Write { .. } => RingReply::Written(replies.written),
        EventState::AddUsed { .. } => RingReply::Used(replies.used),
        _ => RingReply::Signalled(replies.signalled),
    }
}

/// How many actions may still be due in `state`.
pub open spec fn actions_left(state: EventState) -> nat {
    match state {
        EventState::Pop => 4,
        EventState::Write { .. } => 3,
        EventState::AddUsed { .. } => 2,
        EventState::Signal { .. } => 1,
        EventState::Done(_) => 0,
    }
}

/// Every action brings the sending of a header closer to its end, whatever its
/// outcome.
pub proof fn law_event_ends(state: EventState, reply: RingReply)
    requires
        state.awaits(reply),
    ensures
        actions_left(state.spec_next(reply)) < actions_left(state),
{
}

/// The result of sending one header, by taking one step after the other.
pub open spec fn event_run(state: EventState, replies: RingReplies) -> Result<bool, VuSsrError>
    decreases actions_left(state),
{
    match state {
        EventState::Done(result) => result,
        _ => event_run(state.spec_next(reply_in(state, replies)), replies),
    }
}

/// The result of sending one header: it is sent where the guest has made one
/// buffer available and all of the work is done. Without a chain it is dropped.
pub open spec fn event_result(replies: RingReplies) -> Result<bool, VuSsrError> {
    let notified = if replies.signalled {
        Ok(replies.chain is Some)
    } else {
        Err(VuSsrError::SendNotificationFailed)
    };
    match replies.chain {
        None => notified,
        Some(chain) => if chain.descriptors@.len() != 1 {
            Err(VuSsrError::UnexpectedDescriptorCount(chain.descriptors.len()))
        } else if !replies.written {
            Err(VuSsrError::UnexpectedWriteDescriptorError)
        } else if !replies.used {
            Err(VuSsrError::UnexpectedWriteVringError)
        } else {
            notified
        },
    }
}

/// Sending a header step by step has the result that the outcomes call for.
pub proof fn law_event_result(replies: RingReplies)
    ensures
        event_run(EventState::Pop, replies) == event_result(replies),
{
    reveal_with_fuel(event_run, 5);
}

/// The result of a run, by taking one step after the other. `replies` holds the
/// outcomes for each header.
pub open spec fn queue_run(run: QueueRun, replies: Seq<RingReplies>) -> Result<bool, VuSsrError>
    decreases run.msgs@.len() - run.pos, actions_left(run.event),
{
    match run.spec_result() {
        Some(result) => result,
        None => if run.pos < run.msgs@.len() {
            proof {
                assert(run.pos < run.msgs.len());
            }
            queue_run(run.spec_next(reply_in(run.event, replies[run.pos as int])), replies)
        } else {
            Ok(true)
        },
    }
}

/// The result of sending the headers from `pos` on: the first error, and success
/// where there is none.
pub open spec fn queue_result(replies: Seq<RingReplies>, pos: int) -> Result<bool, VuSsrError>
    decreases replies.len() - pos,
{
    if pos >= replies.len() {
        Ok(true)
    } else {
        match event_result(replies[pos]) {
            Ok(_) => queue_result(replies, pos + 1),
            Err(e) => Err(e),
        }
    }
}

/// A run has the result that the outcomes for its headers call for: the first
/// error, and success where there is none. A header for which the ring had no
/// chain is no error.
pub proof fn law_queue_result(run: QueueRun, replies: Seq<RingReplies>)
    requires
        run.wf(),
        run.event is Pop,
        replies.len() == run.msgs@.len(),
    ensures
        queue_run(run, replies) == queue_result(replies, run.pos as int),
    decreases run.msgs@.len() - run.pos,
{
    if run.pos < run.msgs@.len() {
        let r = replies[run.pos as int];
        assert(run.pos < run.msgs.len());
        lemma_queue_event(run, replies);
        law_event_result(r);
        if event_result(r) is Ok {
            law_queue_result(
                QueueRun { msgs: run.msgs, pos: (run.pos + 1) as usize, event: EventState::Pop },
                replies,
            );
        }
    }
}

/// A run sends the header it is at as that header is sent alone.
proof fn lemma_queue_event(run: QueueRun, replies: Seq<RingReplies>)
    requires
        run.wf(),
        run.pos < run.msgs@.len(),
        replies.len() == run.msgs@.len(),
    ensures
        queue_run(run, replies) == match event_run(run.event, replies[run.pos as int]) {
            Ok(_) => queue_run(
                QueueRun { msgs: run.msgs, pos: (run.pos + 1) as usize, event: EventState::Pop },
                replies,
            ),
            Err(e) => Err(e),
        },
    decreases actions_left(run.event),
{
    reveal_with_fuel(event_run, 2);
    assert(run.pos < run.msgs.len());
    if run.spec_result() is None {
        let reply = reply_in(run.event, replies[run.pos as int]);
        match run.event.spec_next(reply) {
            EventState::Done(Ok(_)) => {},
            _ => {
                lemma_queue_event(run.spec_next(reply), replies);
            },
        }
    }
}

/// The work of sending one header, by taking one step after the other.
pub open spec fn event_works(
    state: EventState,
    out: VirtioSsrOutHdr,
    replies: RingReplies,
) -> Seq<RingWork>
    decreases actions_left(state),
{
    match state.spec_action(out) {
        None => Seq::empty(),
        Some(work) => seq![work] + event_works(
            state.spec_next(reply_in(state, replies)),
            out,
            replies,
        ),
    }
}

/// The work of sending one header, as far as it is done: the header is written
/// to the one buffer of the chain that was taken, that chain goes into the used
/// ring, and the guest is notified. Without a chain the guest is only notified.
pub open spec fn event_work_list(out: VirtioSsrOutHdr, replies: RingReplies) -> Seq<RingWork> {
    let popped = seq![RingWork::PopDescriptorChain];
    match replies.chain {
        None => popped.push(RingWork::SignalUsedQueue),
        Some(chain) => {
            let written = popped.push(
                RingWork::WriteDescriptor {
                    addr: chain.descriptors@[0],
                    bytes: out.spec_bytes(),
                },
            );
            let used = written.push(
                RingWork::AddUsed { head_index: chain.head_index, len: OUT_HDR_SIZE as u32 },
            );
            if chain.descriptors@.len() != 1 {
                popped
            } else if !replies.written {
                written
            } else if !replies.used {
                used
            } else {
                used.push(RingWork::SignalUsedQueue)
            }
        },
    }
}

/// Sending a header step by step does the work that the outcomes call for, and
/// no other.
pub proof fn law_event_work(out: VirtioSsrOutHdr, replies: RingReplies)
    ensures
        event_works(EventState::Pop, out, replies) == event_work_list(out, replies),
{
    reveal_with_fuel(event_works, 5);
    assert(event_works(EventState::Pop, out, replies) =~= event_work_list(out, replies));
}

/// The work of a run, by taking one step after the other. `replies` holds the
/// outcomes for each header.
pub open spec fn queue_works(run: QueueRun, replies: Seq<RingReplies>) -> Seq<RingWork>
    decreases run.msgs@.len() - run.pos, actions_left(run.event),
{
    match run.spec_action() {
        None => Seq::empty(),
        Some(work) => if run.pos < run.msgs@.len() {
            proof {
                assert(run.pos < run.msgs.len());
            }
            seq![work] + queue_works(
                run.spec_next(reply_in(run.event, replies[run.pos as int])),
                replies,
            )
        } else {
            Seq::empty()
        },
    }
}

/// The work of sending the headers from `pos` on: that of each header in order,
/// up to the first one with an error.
pub open spec fn queue_work_list(
    msgs: Seq<VirtioSsrOutHdr>,
    replies: Seq<RingReplies>,
    pos: int,
) -> Seq<RingWork>
    decreases msgs.len() - pos,
{
    if pos >= msgs.len() {
        Seq::empty()
    } else {
        event_work_list(msgs[pos], replies[pos]) + match event_result(replies[pos]) {
            Ok(_) => queue_work_list(msgs, replies, pos + 1),
            Err(_) => Seq::empty(),
        }
    }
}

/// A run sends its headers in order: all of the work of a header is done before
/// any of the next one's, and after an error no more work is done.
pub proof fn law_queue_work(run: QueueRun, replies: Seq<RingReplies>)
    requires
        run.wf(),
        run.event is Pop,
        replies.len() == run.msgs@.len(),
    ensures
        queue_works(run, replies) == queue_work_list(run.msgs@, replies, run.pos as int),
    decreases run.msgs@.len() - run.pos,
{
    if run.pos < run.msgs@.len() {
        let r = replies[run.pos as int];
        assert(run.pos < run.msgs.len());
        lemma_queue_event_work(run, replies);
        law_event_work(run.msgs@[run.pos as int], r);
        law_event_result(r);
        if event_result(r) is Ok {
            law_queue_work(
                QueueRun { msgs: run.msgs, pos: (run.pos + 1) as usize, event: EventState::Pop },
                replies,
            );
        }
    }
}

/// A run does the work of the header it is at as that header is sent alone.
proof fn lemma_queue_event_work(run: QueueRun, replies: Seq<RingReplies>)
    requires
        run.wf(),
        run.pos < run.msgs@.len(),
        replies.len() == run.msgs@.len(),
    ensures
        queue_works(run, replies) == event_works(
            run.event,
            run.msgs@[run.pos as int],
            replies[run.pos as int],
        ) + match event_run(run.event, replies[run.pos as int]) {
            Ok(_) => queue_works(
                QueueRun { msgs: run.msgs, pos: (run.pos + 1) as usize, event: EventState::Pop },
                replies,
            ),
            Err(_) => Seq::empty(),
        },
    decreases actions_left(run.event),
{
    let out = run.msgs@[run.pos as int];
    let r = replies[run.pos as int];
    reveal_with_fuel(event_run, 2);
    reveal_with_fuel(event_works, 2);
    assert(run.pos < run.msgs.len());
    let rest = match event_run(run.event, r) {
        Ok(_) => queue_works(
            QueueRun { msgs: run.msgs, pos: (run.pos + 1) as usize, event: EventState::Pop },
            replies,
        ),
        Err(_) => Seq::empty(),
    };
    if let Some(work) = run.spec_action() {
        let event = run.event.spec_next(reply_in(run.event, r));
        let next = run.spec_next(reply_in(run.event, r));
        match event {
            EventState::Done(Ok(_)) => {},
            _ => {
                lemma_queue_event_work(next, replies);
            },
        }
        assert(queue_works(next, replies) =~= event_works(event, out, r) + rest);
        assert(seq![work] + (event_works(event, out, r) + rest) =~= event_works(run.event, out, r)
            + rest);
    } else {
        assert(queue_works(run, replies) =~= event_works(run.event, out, r) + rest);
    }
}

/// An action stands for the work it names, with the bytes and numbers it holds.
pub proof fn law_ring_actions(addr: u64, bytes: Vec<u8>, head_index: u16, len: u32)
    ensures
        RingAction::PopDescriptorChain@ == RingWork::PopDescriptorChain,
        (RingAction::WriteDescriptor { addr, bytes })@ == (RingWork::WriteDescriptor {
            addr,
            bytes: bytes@,
        }),
        (RingAction::AddUsed { head_index, len })@ == (RingWork::AddUsed { head_index, len }),
        RingAction::SignalUsedQueue@ == RingWork::SignalUsedQueue,
{
}

/// Whatever comes out of an action, the sending of a header goes on with it.
pub proof fn law_outcomes_awaited(
    chain: Option<AvailChain>,
    head_index: u16,
    addr: u64,
    sent: bool,
    done: bool,
)
    ensures
        EventState::Pop.awaits(RingReply::Chain(chain)),
        (EventState::Write { head_index, addr }).awaits(RingReply::Written(done)),
        (EventState::AddUsed { head_index }).awaits(RingReply::Used(done)),
        (EventState::Signal { sent }).awaits(RingReply::Signalled(done)),
{
}

/// Where the guest has made one buffer available, the header is written there:
/// its name, then its event type as a little-endian number. The chain is then
/// returned as used with the size of a header, the guest is notified, and the
/// header counts as sent. Each of these steps that fails ends it with its error.
pub proof fn law_header_sent(out: VirtioSsrOutHdr, chain: AvailChain)
    requires
        chain.descriptors@.len() == 1,
    ensures
        ({
            let write = EventState::Pop.spec_next(RingReply::Chain(Some(chain)));
            let add_used = write.spec_next(RingReply::Written(true));
            let signal = add_used.spec_next(RingReply::Used(true));
            let done = signal.spec_next(RingReply::Signalled(true));
            &&& EventState::Pop.spec_action(out) == Some(RingWork::PopDescriptorChain)
            &&& write.spec_action(out) matches Some(RingWork::WriteDescriptor { addr, bytes })
            &&& addr == chain.descriptors@[0]
            &&& bytes.len() == 18
            &&& bytes.take(16) == out.name@
            &&& bytes[16] as int + 256 * (bytes[17] as int) == out.event_type
            &&& add_used.spec_action(out) == Some(
                RingWork::AddUsed { head_index: chain.head_index, len: 18 },
            )
            &&& signal.spec_action(out) == Some(RingWork::SignalUsedQueue)
            &&& done == EventState::Done(Ok(true))
            &&& done.spec_action(out) is None
            &&& write.spec_next(RingReply::Written(false)) == EventState::Done(
                Err(VuSsrError::UnexpectedWriteDescriptorError),
            )
            &&& add_used.spec_next(RingReply::Used(false)) == EventState::Done(
                Err(VuSsrError::UnexpectedWriteVringError),
            )
            &&& signal.spec_next(RingReply::Signalled(false)) == EventState::Done(
                Err(VuSsrError::SendNotificationFailed),
            )
        }),
{
    law_header_read_back(out);
}

/// A chain of any other number of buffers is an error that tells the number, and
/// nothing is written to it.
pub proof fn law_wrong_chain(out: VirtioSsrOutHdr, chain: AvailChain)
    requires
        chain.descriptors@.len() != 1,
    ensures
        ({
            let state = EventState::Pop.spec_next(RingReply::Chain(Some(chain)));
            &&& state matches EventState::Done(Err(VuSsrError::UnexpectedDescriptorCount(n)))
            &&& n == chain.descriptors@.len()
            &&& state.spec_action(out) is None
        }),
{
}

/// Where the ring has no chain, the guest is notified all the same, and the
/// header counts as not sent.
pub proof fn law_no_chain(out: VirtioSsrOutHdr)
    ensures
        ({
            let signal = EventState::Pop.spec_next(RingReply::Chain(None));
            &&& signal.spec_action(out) == Some(RingWork::SignalUsedQueue)
            &&& signal.spec_next(RingReply::Signalled(true)) == EventState::Done(Ok(false))
            &&& signal.spec_next(RingReply::Signalled(false)) == EventState::Done(
                Err(VuSsrError::SendNotificationFailed),
            )
        }),
{
}

/// A run works on the header at its position. Once that header is sent or
/// dropped it starts with the next one, and an error ends it there, with that
/// error as its result. The headers stay as they are.
pub proof fn law_run_step(run: QueueRun, reply: RingReply)
    requires
        run.pos < run.msgs@.len(),
        run.event !is Done,
        run.event.awaits(reply),
    ensures
        run.spec_result() is None,
        run.spec_action() == run.event.spec_action(run.msgs@[run.pos as int]),
        run.spec_next(reply).msgs == run.msgs,
        match run.event.spec_next(reply) {
            EventState::Done(Ok(_)) => {
                &&& run.spec_next(reply).pos == run.pos + 1
                &&& run.spec_next(reply).event == EventState::Pop
            },
            EventState::Done(Err(e)) => {
                &&& run.spec_next(reply).pos == run.pos
                &&& run.spec_next(reply).spec_result() == Some(Err::<bool, VuSsrError>(e))
                &&& run.spec_next(reply).spec_action() is None
            },
            event => {
                &&& run.spec_next(reply).pos == run.pos
                &&& run.spec_next(reply).event == event
            },
        },
{
    assert(run.pos < run.msgs.len());
}

/// A run behind its last header is over, with success.
pub proof fn law_run_over(run: QueueRun)
    requires
        run.pos == run.msgs@.len(),
    ensures
        run.spec_result() == Some(Ok::<bool, VuSsrError>(true)),
        run.spec_action() is None,
{
}

} // verus!
