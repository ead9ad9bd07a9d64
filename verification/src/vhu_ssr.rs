//! The SSR device: what it offers to the guest, the headers it sends and the
//! events it sends them for.
use vstd::prelude::*;

use crate::delivery::QueueRun;
use crate::outside::{
    event_set_in, le16_bytes, vhost_user_protocol_features, vhost_user_protocol_mq,
    virtio_f_notify_on_empty, virtio_f_version_1, virtio_ring_f_indirect_desc,
};
use crate::ssr_client::{
    drains, response_name, without_oldest, SsrClient, SsrClientError, VhSsrCtx,
};
use crate::ssr_clients_bindings::{ssr_events, ssr_ss_id, SsrBindings};

verus! {

/// Device event that says that the notify eventfd can be read.
pub const SSR_EVENT_IN_VRING_EPOLL: u16 = 0x100;

/// The set of epoll events that holds just the one of a readable descriptor.
pub const EVENT_SET_IN: u32 = 1;

pub const QUEUE_SIZE: usize = 128;

pub const NUM_QUEUES: usize = 1;

/// Virtio feature bit: the host sends SSR events to the guest.
pub const VIRTIO_SSR_F_HOST_TO_GUEST: u16 = 0;

/// Size of the name in a header, with its terminating zero.
pub const SUBSYSTEM_NAME_SIZE: usize = 16;

/// Size of a header in the guest's memory.
pub const OUT_HDR_SIZE: usize = 18;

/// QCOM Linux SSR Event definition
pub type QcomSsrNotifyType = u16;

pub const QCOM_SSR_BEFORE_POWERUP: QcomSsrNotifyType = 0;

pub const QCOM_SSR_AFTER_POWERUP: QcomSsrNotifyType = 1;

pub const QCOM_SSR_BEFORE_SHUTDOWN: QcomSsrNotifyType = 2;

pub const QCOM_SSR_AFTER_SHUTDOWN: QcomSsrNotifyType = 3;

/// Errors related to the SSR device.
#[derive(Clone, Copy, Debug, PartialEq, Eq, Structural)]
pub enum VuSsrError {
    /// Notification send failed
    SendNotificationFailed,
    /// Can't create eventFd
    EventFdError,
    /// Failed to handle event
    HandleEventNotEpollIn,
    /// A chain with this many descriptors, where one is expected
    UnexpectedDescriptorCount(usize),
    /// Failed to write descriptor to vring
    UnexpectedWriteDescriptorError,
    /// Failed to write event to vring
    UnexpectedWriteVringError,
    /// Failed to register client
    FailedRegisterClient,
}

/// The byte a character of a name is sent as: the low byte of its code.
pub open spec fn name_byte(c: char) -> u8 {
    ((c as u32) % 256) as u8
}

/// A name as it stands in a header: cut to leave room for a terminating zero,
/// and filled up with zeros.
pub open spec fn subsystem_name(name: Seq<char>) -> Seq<u8> {
    Seq::new(
        SUBSYSTEM_NAME_SIZE as nat,
        |i: int|
            if i < name.len() && i < SUBSYSTEM_NAME_SIZE - 1 {
                name_byte(name[i])
            } else {
                0u8
            },
    )
}

/// Header that tells the guest of one step of a subsystem's restart.
#[derive(Clone, Copy, Debug, PartialEq, Eq)]
pub struct VirtioSsrOutHdr {
    pub name: [u8; SUBSYSTEM_NAME_SIZE],
    pub event_type: QcomSsrNotifyType,
}

impl VirtioSsrOutHdr {
    /// The header in the guest's memory: the name, then the event type in
    /// little-endian order.
    pub open spec fn spec_bytes(self) -> Seq<u8> {
        self.name@ + seq![(self.event_type % 256) as u8, (self.event_type / 256) as u8]
    }

    pub fn new(name: String, event_type: QcomSsrNotifyType) -> (hdr: Self)
        ensures
            hdr.name@ == subsystem_name(name@),
            hdr.event_type == event_type,
            forall|i: int|
                0 <= i < name@.len() && i < 15 ==> (#[trigger] hdr.name@[i]) as int == (
                name@[i] as u32) % 256,
            forall|i: int|
                0 <= i < 16 && (i >= name@.len() || i >= 15) ==> #[trigger] hdr.name@[i] == 0,
    {
        let mut buffer: [u8; SUBSYSTEM_NAME_SIZE] = [0;SUBSYSTEM_NAME_SIZE];
        let len: usize = name.as_str().unicode_len();
        let mut i: usize = 0;
        while i < len && i < SUBSYSTEM_NAME_SIZE - 1
            invariant
                len == name@.len(),
                i <= len,
                i <= SUBSYSTEM_NAME_SIZE - 1,
                forall|j: int| 0 <= j < i ==> buffer@[j] == name_byte(name@[j]),
                forall|j: int| i <= j < SUBSYSTEM_NAME_SIZE ==> buffer@[j] == 0,
            decreases len - i,
        {
            let code: u32 = name.as_str().get_char(i) as u32;
            buffer[i] = (code % 256) as u8;
            i = i + 1;
        }
        assert(buffer@ =~= subsystem_name(name@));
        VirtioSsrOutHdr { name: buffer, event_type }
    }

    /// The header in the guest's memory.
    pub fn to_bytes(&self) -> (bytes: Vec<u8>)
        ensures
            bytes@ == self.spec_bytes(),
            bytes@.len() == OUT_HDR_SIZE,
            bytes@.take(16) == self.name@,
            bytes@[16] as int + 256 * (bytes@[17] as int) == self.event_type,
    {
        let event_type: [u8; 2] = le16_bytes(self.event_type);
        let mut bytes: Vec<u8> = Vec::new();
        let mut i: usize = 0;
        while i < SUBSYSTEM_NAME_SIZE
            invariant
                i <= SUBSYSTEM_NAME_SIZE,
                bytes@ == self.name@.take(i as int),
            decreases SUBSYSTEM_NAME_SIZE - i,
        {
            bytes.push(self.name[i]);
            i = i + 1;
        }
        bytes.push(event_type[0]);
        bytes.push(event_type[1]);
        assert(bytes@ =~= self.spec_bytes());
        bytes
    }
}

/// The steps of a restart to tell the guest of for one SSR event, in order,
/// `None` where there is nothing to tell.
pub open spec fn notify_types(b: SsrBindings, ssr_event: ssr_events) -> Option<
    Seq<QcomSsrNotifyType>,
> {
    if ssr_event == b.ssr_event_fault_notify {
        Some(seq![QCOM_SSR_BEFORE_SHUTDOWN, QCOM_SSR_AFTER_SHUTDOWN])
    } else if ssr_event == b.ssr_event_restart_complete {
        Some(seq![QCOM_SSR_AFTER_POWERUP])
    } else if ssr_event == b.ssr_event_restart_start {
        Some(seq![QCOM_SSR_BEFORE_POWERUP])
    } else {
        None
    }
}

/// Whether `msgs` are the headers that tell of `types` for the subsystem `name`.
pub open spec fn are_headers(
    msgs: Seq<VirtioSsrOutHdr>,
    name: Seq<char>,
    types: Seq<QcomSsrNotifyType>,
) -> bool {
    &&& msgs.len() == types.len()
    &&& forall|i: int|
        0 <= i < msgs.len() ==> {
            &&& (#[trigger] msgs[i]).name@ == subsystem_name(name)
            &&& msgs[i].event_type == types[i]
        }
}

/// The steps of a restart to tell the guest of for one SSR event.
fn event_notify_types(b: &SsrBindings, ssr_event: ssr_events) -> (types: Option<
    Vec<QcomSsrNotifyType>,
>)
    ensures
        types is Some <==> notify_types(*b, ssr_event) is Some,
        types is Some ==> types->0@ == notify_types(*b, ssr_event)->0,
{
    if ssr_event == b.ssr_event_fault_notify {
        Some(vec![QCOM_SSR_BEFORE_SHUTDOWN, QCOM_SSR_AFTER_SHUTDOWN])
    } else if ssr_event == b.ssr_event_restart_complete {
        Some(vec![QCOM_SSR_AFTER_POWERUP])
    } else if ssr_event == b.ssr_event_restart_start {
        Some(vec![QCOM_SSR_BEFORE_POWERUP])
    } else {
        None
    }
}

/// The headers that tell the guest of one SSR event of the subsystem `name`,
/// `None` where there is nothing to tell.
pub fn event_headers(b: &SsrBindings, name: &String, ssr_event: ssr_events) -> (msgs: Option<
    Vec<VirtioSsrOutHdr>,
>)
    ensures
        msgs is Some <==> notify_types(*b, ssr_event) is Some,
        msgs is Some ==> are_headers(msgs->0@, name@, notify_types(*b, ssr_event)->0),
{
    let types = match event_notify_types(b, ssr_event) {
        Some(types) => types,
        None => return None,
    };
    let mut msgs: Vec<VirtioSsrOutHdr> = Vec::new();
    let mut i: usize = 0;
    while i < types.len()
        invariant
            i <= types@.len(),
            are_headers(msgs@, name@, types@.take(i as int)),
        decreases types@.len() - i,
    {
        msgs.push(VirtioSsrOutHdr::new(name.clone(), types[i]));
        i = i + 1;
    }
    assert(types@.take(i as int) =~= types@);
    Some(msgs)
}

/// What is to be done for one wake-up of the device.
#[derive(Debug, PartialEq, Eq)]
pub struct QueueStep {
    /// Whether the notify eventfd is to be read first.
    pub drain: bool,
    /// The headers to send, `None` where the wake-up is over with nothing sent.
    pub run: Option<QueueRun>,
}

impl QueueStep {
    /// The result of the wake-up once it has one: whether there was an event to
    /// tell the guest of.
    pub fn result(&self) -> (result: Option<Result<bool, VuSsrError>>)
        requires
            self.run matches Some(run) ==> run.wf(),
        ensures
            result == match self.run {
                Some(run) => run.spec_result(),
                None => Some(Ok(false)),
            },
    {
        match &self.run {
            Some(run) => run.result(),
            None => Some(Ok(false)),
        }
    }
}

/// What is to be done for a device event.
#[derive(Clone, Copy, Debug, PartialEq, Eq, Structural)]
pub enum HandleStep {
    /// Nothing.
    Ignore,
    /// Process the queue, on the ring with this index.
    ProcessQueue(usize),
}

/// The unregistering of a device's clients.
///
/// The owner of the device unregisters the client that is due and hands back how
/// that went.
#[derive(Debug, PartialEq, Eq)]
pub struct UnregisterRun {
    /// Number of the clients.
    pub clients: usize,
    /// Number of those that were unregistered or could not be.
    pub pos: usize,
}

impl UnregisterRun {
    pub open spec fn wf(self) -> bool {
        self.pos <= self.clients
    }

    /// Index of the client to unregister, `None` after the last one.
    pub open spec fn spec_action(self) -> Option<usize> {
        if self.pos < self.clients {
            Some(self.pos)
        } else {
            None
        }
    }

    /// The run after the client that is due.
    pub open spec fn spec_next(self) -> UnregisterRun {
        UnregisterRun { pos: (self.pos + 1) as usize, ..self }
    }

    /// Index of the client to unregister, `None` after the last one.
    pub fn action(&self) -> (action: Option<usize>)
        requires
            self.wf(),
        ensures
            action == self.spec_action(),
    {
        if self.pos < self.clients {
            Some(self.pos)
        } else {
            None
        }
    }

    /// Goes on to the next client, however the one that was due went. Returns
    /// the error to log, if there was one.
    pub fn next(&mut self, result: Result<u64, SsrClientError>) -> (error: Option<SsrClientError>)
        requires
            old(self).wf(),
            old(self).spec_action() is Some,
        ensures
            final(self).wf(),
            *final(self) == old(self).spec_next(),
            final(self).pos == old(self).pos + 1,
            final(self).clients == old(self).clients,
            error == match result {
                Err(e) => Some(e),
                Ok(_) => None,
            },
    {
        self.pos = self.pos + 1;
        match result {
            Err(e) => Some(e),
            Ok(_) => None,
        }
    }
}

/// The run after `n` clients.
pub open spec fn unregister_after(run: UnregisterRun, n: nat) -> UnregisterRun
    decreases n,
{
    if n == 0 {
        run
    } else {
        unregister_after(run, (n - 1) as nat).spec_next()
    }
}

/// The clients that `n` steps of the run unregister, in order.
pub open spec fn unregister_actions(run: UnregisterRun, n: nat) -> Seq<Option<usize>>
    decreases n,
{
    if n == 0 {
        Seq::empty()
    } else {
        unregister_actions(run, (n - 1) as nat).push(
            unregister_after(run, (n - 1) as nat).spec_action(),
        )
    }
}

/// The virtio features the device offers: those of version 1, of notifying on
/// an empty ring, of indirect descriptors and of events to the guest, and the
/// protocol features of vhost-user.
pub open spec fn device_features() -> u64 {
    1u64 << 32 | 1u64 << 24 | 1u64 << 28 | 1u64 << VIRTIO_SSR_F_HOST_TO_GUEST | 1u64 << 30
}

/// The SSR device, with its clients.
///
/// `E` is the handle of the event that ends the device's worker, and `M` the
/// handle of the guest's memory.
pub struct VuSsrBackend<T: SsrClient, E, M> {
    pub ssr_clients: Vec<T>,
    pub ctx: T::Ctx,
    pub event_idx: bool,
    pub exit_event: E,
    pub mem: Option<M>,
}

impl<T: SsrClient, E, M> VuSsrBackend<T, E, M> {
    /// A device without guest memory. `exit_event` is `None` where the event
    /// could not be created.
    pub fn new(ssr_clients: Vec<T>, ctx: T::Ctx, exit_event: Option<E>) -> (backend: Result<
        Self,
        VuSsrError,
    >)
        ensures
            match (backend, exit_event) {
                (Ok(backend), Some(exit_event)) => {
                    &&& backend.ssr_clients == ssr_clients
                    &&& backend.ctx == ctx
                    &&& !backend.event_idx
                    &&& backend.exit_event == exit_event
                    &&& backend.mem is None
                },
                (Err(e), None) => e == VuSsrError::EventFdError,
                _ => false,
            },
    {
        match exit_event {
            Some(exit_event) => Ok(
                VuSsrBackend { ssr_clients, ctx, event_idx: false, exit_event, mem: None },
            ),
            None => Err(VuSsrError::EventFdError),
        }
    }

    /// Starts to unregister the clients.
    pub fn unregister_clients(&self) -> (run: UnregisterRun)
        ensures
            run.wf(),
            run.clients == self.ssr_clients@.len(),
            run.pos == 0,
    {
        UnregisterRun { clients: self.ssr_clients.len(), pos: 0 }
    }

    /// Takes the oldest event from `ctx`, which the device's handle leads to, and
    /// says what to send for it.
    pub fn process_queue(&self, ctx: &mut VhSsrCtx) -> (step: QueueStep)
        ensures
            final(ctx).spec_bindings() == old(ctx).spec_bindings(),
            final(ctx)@ == without_oldest(old(ctx)@),
            old(ctx)@.len() == 0 ==> final(ctx)@.len() == 0,
            old(ctx)@.len() > 0 ==> final(ctx)@ == old(ctx)@.drop_first(),
            step.drain == drains(final(ctx)@),
            step.drain <==> final(ctx)@.len() == 0,
            step.run is Some <==> old(ctx)@.len() > 0 && notify_types(
                old(ctx).spec_bindings(),
                old(ctx)@[0].1,
            ) is Some,
            step.run matches Some(run) ==> {
                &&& run.wf()
                &&& run.pos == 0
                &&& run.event is Pop
                &&& are_headers(
                    run.msgs@,
                    response_name(old(ctx).spec_bindings(), old(ctx)@[0].0),
                    notify_types(old(ctx).spec_bindings(), old(ctx)@[0].1)->0,
                )
            },
    {
        let bindings = ctx.bindings();
        let response = ctx.get_response();
        let drain: bool = ctx.reset();
        let run = match response {
            Some((name, ssr_event)) => match event_headers(&bindings, &name, ssr_event) {
                Some(msgs) => Some(QueueRun::new(msgs)),
                None => None,
            },
            None => None,
        };
        QueueStep { drain, run }
    }

    pub fn num_queues(&self) -> (n: usize)
        ensures
            n == NUM_QUEUES,
            n == 1,
    {
        NUM_QUEUES
    }

    pub fn max_queue_size(&self) -> (n: usize)
        ensures
            n == QUEUE_SIZE,
            n == 128,
    {
        QUEUE_SIZE
    }

    /// The virtio features the device offers.
    pub fn features(&self) -> (features: u64)
        ensures
            features == device_features(),
    {
        assert(1u64 << 30 == 0x4000_0000) by (bit_vector);
        1u64 << virtio_f_version_1() | 1u64 << virtio_f_notify_on_empty() | 1u64
            << virtio_ring_f_indirect_desc() | 1u64 << VIRTIO_SSR_F_HOST_TO_GUEST
            | vhost_user_protocol_features()
    }

    /// The vhost-user protocol features the device offers: several queues.
    pub fn protocol_features(&self) -> (features: u64)
        ensures
            features == 1,
    {
        vhost_user_protocol_mq()
    }

    pub fn set_event_idx(&mut self, enabled: bool)
        ensures
            *final(self) == (VuSsrBackend { event_idx: enabled, ..*old(self) }),
    {
        self.event_idx = enabled;
    }

    pub fn update_memory(&mut self, mem: M)
        ensures
            *final(self) == (VuSsrBackend { mem: Some(mem), ..*old(self) }),
    {
        self.mem = Some(mem);
    }

    /// What is to be done for a device event. `evset` is the set of epoll events
    /// that it came with.
    pub fn handle_event(&self, device_event: u16, evset: u32) -> (step: Result<
        HandleStep,
        VuSsrError,
    >)
        ensures
            match step {
                Err(e) => evset != EVENT_SET_IN && e == VuSsrError::HandleEventNotEpollIn,
                Ok(step) => {
                    &&& evset == EVENT_SET_IN
                    &&& step == if device_event == SSR_EVENT_IN_VRING_EPOLL {
                        HandleStep::ProcessQueue(0)
                    } else {
                        HandleStep::Ignore
                    }
                    &&& step == HandleStep::ProcessQueue(0) <==> device_event == 256
                },
            },
    {
        if evset != event_set_in() {
            return Err(VuSsrError::HandleEventNotEpollIn);
        }
        if device_event == SSR_EVENT_IN_VRING_EPOLL {
            Ok(HandleStep::ProcessQueue(0))
        } else {
            Ok(HandleStep::Ignore)
        }
    }
}

/// The device offers these features and no others.
pub proof fn law_device_features(bit: u64)
    requires
        bit < 64,
    ensures
        (device_features() >> bit) & 1 == 1 <==> bit == 0 || bit == 24 || bit == 28 || bit == 30
            || bit == 32,
{
    assert((1u64 << 32 | 1u64 << 24 | 1u64 << 28 | 1u64 << 0u16 | 1u64 << 30) >> bit & 1 == 1
        <==> bit == 0 || bit == 24 || bit == 28 || bit == 30 || bit == 32) by (bit_vector)
        requires
            bit < 64,
    ;
}

/// The name in a header always ends in a zero.
pub proof fn law_name_terminated(name: Seq<char>)
    ensures
        subsystem_name(name).len() == SUBSYSTEM_NAME_SIZE,
        subsystem_name(name)[SUBSYSTEM_NAME_SIZE - 1] == 0,
{
}

/// The bytes of a header tell its name and its event.
pub proof fn law_header_bytes(a: VirtioSsrOutHdr, b: VirtioSsrOutHdr)
    requires
        a.spec_bytes() == b.spec_bytes(),
    ensures
        a.name@ == b.name@,
        a.event_type == b.event_type,
{
    let n = SUBSYSTEM_NAME_SIZE as int;
    assert(a.name@ =~= a.spec_bytes().take(n));
    assert(b.name@ =~= b.spec_bytes().take(n));
    assert(a.spec_bytes()[n] == (a.event_type % 256) as u8);
    assert(b.spec_bytes()[n] == (b.event_type % 256) as u8);
    assert(a.spec_bytes()[n + 1] == (a.event_type / 256) as u8);
    assert(b.spec_bytes()[n + 1] == (b.event_type / 256) as u8);
}

/// Characters that a header holds as they are and that do not end a name.
pub open spec fn is_plain(name: Seq<char>) -> bool {
    forall|i: int| 0 <= i < name.len() ==> 0 < (#[trigger] name[i]) as u32 <= 127
}

/// The names of all subsystems fit into a header whole, that of an unknown one
/// too.
pub proof fn law_response_names_fit(b: SsrBindings, ss_id: ssr_ss_id)
    ensures
        response_name(b, ss_id).len() < SUBSYSTEM_NAME_SIZE,
        is_plain(response_name(b, ss_id)),
{
    reveal_strlit("adsp");
    reveal_strlit("adsp1");
    reveal_strlit("adsp2");
    reveal_strlit("modem");
    reveal_strlit("slpi");
    reveal_strlit("cdsp");
    reveal_strlit("cdsp1");
    reveal_strlit("cdsp2");
    reveal_strlit("cdsp3");
    reveal_strlit("gpdsp0");
    reveal_strlit("gpdsp1");
    reveal_strlit("unknown client");
}

proof fn lemma_same_code(a: char, b: char)
    requires
        a as u32 == b as u32,
    ensures
        a == b,
{
}

/// Names that fit into a header whole are told apart by it.
pub proof fn law_names_told_apart(a: Seq<char>, b: Seq<char>)
    requires
        a.len() < SUBSYSTEM_NAME_SIZE,
        b.len() < SUBSYSTEM_NAME_SIZE,
        is_plain(a),
        is_plain(b),
        subsystem_name(a) == subsystem_name(b),
    ensures
        a == b,
{
    let x = subsystem_name(a);
    let y = subsystem_name(b);
    assert(x[a.len() as int] == 0);
    assert(y[b.len() as int] == 0);
    if a.len() < b.len() {
        assert(y[a.len() as int] == name_byte(b[a.len() as int]));
    }
    if b.len() < a.len() {
        assert(x[b.len() as int] == name_byte(a[b.len() as int]));
    }
    assert forall|i: int| 0 <= i < a.len() implies a[i] == b[i] by {
        assert(x[i] == name_byte(a[i]));
        assert(y[i] == name_byte(b[i]));
        assert(0 < a[i] as u32 <= 127);
        assert(0 < b[i] as u32 <= 127);
        lemma_same_code(a[i], b[i]);
    }
    assert(a =~= b);
}

proof fn lemma_unregister(run: UnregisterRun, n: nat)
    requires
        run.pos == 0,
        n <= run.clients,
    ensures
        unregister_actions(run, n) == Seq::new(n, |i: int| Some(i as usize)),
        unregister_after(run, n) == (UnregisterRun { pos: n as usize, ..run }),
    decreases n,
{
    if n == 0 {
        assert(unregister_actions(run, n) =~= Seq::new(n, |i: int| Some(i as usize)));
    } else {
        lemma_unregister(run, (n - 1) as nat);
        assert(unregister_actions(run, n) =~= Seq::new(n, |i: int| Some(i as usize)));
    }
}

/// Each client is unregistered exactly once, in order, whether or not those
/// before it could be, and then nothing is left to do.
pub proof fn law_unregister(run: UnregisterRun)
    requires
        run.pos == 0,
    ensures
        unregister_actions(run, run.clients as nat) == Seq::new(
            run.clients as nat,
            |i: int| Some(i as usize),
        ),
        unregister_after(run, run.clients as nat).spec_action() is None,
{
    lemma_unregister(run, run.clients as nat);
}

/// A name stands in a header character by character, each as the low byte of its
/// code, up to the fifteenth. All that is left of the field is zeros.
pub proof fn law_name_bytes(name: Seq<char>)
    ensures
        subsystem_name(name).len() == 16,
        forall|i: int|
            0 <= i < 16 && i < name.len() && i < 15 ==> (#[trigger] subsystem_name(name)[i]) as int
                == (name[i] as u32) % 256,
        forall|i: int|
            0 <= i < 16 && (i >= name.len() || i >= 15) ==> #[trigger] subsystem_name(name)[i] == 0,
{
}

/// A guest that reads a header up to the first zero reads the name it was made
/// with, where that name fits and its characters are plain.
pub proof fn law_name_read_back(name: Seq<char>)
    requires
        name.len() < 16,
        forall|i: int| 0 <= i < name.len() ==> 0 < (#[trigger] name[i]) as u32 <= 127,
    ensures
        forall|i: int|
            0 <= i < name.len() ==> (#[trigger] subsystem_name(name)[i]) as int == name[i] as u32
                && subsystem_name(name)[i] != 0,
        subsystem_name(name)[name.len() as int] == 0,
{
    law_name_bytes(name);
    assert forall|i: int| 0 <= i < name.len() implies (#[trigger] subsystem_name(name)[i]) as int
        == name[i] as u32 && subsystem_name(name)[i] != 0 by {
        assert(0 < name[i] as u32 <= 127);
    }
}

/// A guest that reads the bytes of a header reads its name, and its event type
/// as a little-endian number.
pub proof fn law_header_read_back(hdr: VirtioSsrOutHdr)
    ensures
        hdr.spec_bytes().len() == 18,
        hdr.spec_bytes().take(16) == hdr.name@,
        hdr.spec_bytes()[16] as int + 256 * (hdr.spec_bytes()[17] as int) == hdr.event_type,
{
    assert(hdr.spec_bytes().take(16) =~= hdr.name@);
}

/// A fault is told as a shutdown, before and after it; a completed restart as
/// a power-up that is over and a started one as a power-up to come. Of other
/// events the guest is not told. Where a platform gives two of these events one
/// value, the fault goes first and the completed restart second.
pub proof fn law_notify_types(b: SsrBindings, ssr_event: ssr_events)
    ensures
        notify_types(b, b.ssr_event_fault_notify) == Some(seq![2u16, 3u16]),
        b.ssr_event_restart_complete != b.ssr_event_fault_notify ==> notify_types(
            b,
            b.ssr_event_restart_complete,
        ) == Some(seq![1u16]),
        b.ssr_event_restart_start != b.ssr_event_fault_notify && b.ssr_event_restart_start
            != b.ssr_event_restart_complete ==> notify_types(b, b.ssr_event_restart_start) == Some(
            seq![0u16],
        ),
        notify_types(b, ssr_event) is None <==> ssr_event != b.ssr_event_fault_notify && ssr_event
            != b.ssr_event_restart_complete && ssr_event != b.ssr_event_restart_start,
{
}

/// The headers for steps of a restart come one for each step, in order. Each
/// holds, as the guest reads it, the name of the subsystem and the step.
pub proof fn law_headers(
    msgs: Seq<VirtioSsrOutHdr>,
    name: Seq<char>,
    types: Seq<QcomSsrNotifyType>,
)
    requires
        are_headers(msgs, name, types),
    ensures
        msgs.len() == types.len(),
        forall|i: int|
            #![trigger msgs[i]]
            0 <= i < msgs.len() ==> {
                let bytes = msgs[i].spec_bytes();
                &&& bytes.len() == 18
                &&& forall|k: int|
                    0 <= k < 15 && k < name.len() ==> (#[trigger] bytes[k]) as int == (
                    name[k] as u32) % 256
                &&& forall|k: int|
                    0 <= k < 16 && (k >= 15 || k >= name.len()) ==> #[trigger] bytes[k] == 0
                &&& bytes[16] as int + 256 * (bytes[17] as int) == types[i]
            },
{
    law_name_bytes(name);
    assert forall|i: int| 0 <= i < msgs.len() implies {
        let bytes = #[trigger] msgs[i].spec_bytes();
        &&& bytes.len() == 18
        &&& forall|k: int|
            0 <= k < 15 && k < name.len() ==> (#[trigger] bytes[k]) as int == (name[k] as u32) % 256
        &&& forall|k: int|
            0 <= k < 16 && (k >= 15 || k >= name.len()) ==> #[trigger] bytes[k] == 0
        &&& bytes[16] as int + 256 * (bytes[17] as int) == types[i]
    } by {
        law_header_read_back(msgs[i]);
        let bytes = msgs[i].spec_bytes();
        assert forall|k: int| 0 <= k < 16 implies #[trigger] bytes[k] == subsystem_name(
            name,
        )[k] by {
            assert(bytes.take(16)[k] == bytes[k]);
        }
    }
}

/// As long as clients are left, the run unregisters the one at its position and
/// moves on by one. It never goes back, and its end does not change.
pub proof fn law_unregister_step(run: UnregisterRun)
    requires
        run.wf(),
    ensures
        run.pos <= run.clients,
        run.spec_action() is None <==> run.pos == run.clients,
        run.spec_action() matches Some(i) ==> {
            &&& i == run.pos
            &&& run.spec_next().pos == run.pos + 1
            &&& run.spec_next().clients == run.clients
            &&& run.spec_next().wf()
        },
{
}

/// The device processes its queue, on its first ring, exactly for the device
/// event of a readable notify eventfd. Any set of epoll events but the one of a
/// readable descriptor is an error.
pub proof fn law_handle_event<T: SsrClient, E, M>(
    backend: VuSsrBackend<T, E, M>,
    device_event: u16,
    evset: u32,
    step: Result<HandleStep, VuSsrError>,
)
    requires
        call_ensures(
            VuSsrBackend::<T, E, M>::handle_event,
            (&backend, device_event, evset),
            step,
        ),
    ensures
        step == Err::<HandleStep, VuSsrError>(VuSsrError::HandleEventNotEpollIn) <==> evset != 1,
        step == Ok::<HandleStep, VuSsrError>(HandleStep::ProcessQueue(0)) <==> evset == 1
            && device_event == 256,
        step == Ok::<HandleStep, VuSsrError>(HandleStep::Ignore) <==> evset == 1 && device_event
            != 256,
{
}

/// A header, made and put into the guest's memory, reads there as the name and
/// the event type it was made with.
pub proof fn law_header_round_trip(
    name: String,
    event_type: QcomSsrNotifyType,
    hdr: VirtioSsrOutHdr,
    bytes: Vec<u8>,
)
    requires
        call_ensures(VirtioSsrOutHdr::new, (name, event_type), hdr),
        call_ensures(VirtioSsrOutHdr::to_bytes, (&hdr,), bytes),
    ensures
        bytes@.len() == 18,
        forall|i: int|
            0 <= i < 15 && i < name@.len() ==> (#[trigger] bytes@[i]) as int == (name@[i] as u32)
                % 256,
        forall|i: int|
            0 <= i < 16 && (i >= 15 || i >= name@.len()) ==> #[trigger] bytes@[i] == 0,
        bytes@[16] as int + 256 * (bytes@[17] as int) == event_type,
{
    law_header_read_back(hdr);
    law_name_bytes(name@);
    assert forall|i: int| 0 <= i < 16 implies #[trigger] bytes@[i] == subsystem_name(name@)[i] by {
        assert(bytes@.take(16)[i] == bytes@[i]);
    }
}

} // verus!
