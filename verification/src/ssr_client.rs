//! SSR clients: the supported subsystems, the queue of pending SSR events and
//! the requests a client makes of the SSR client library.
use std::collections::VecDeque;
use vstd::prelude::*;

use crate::ssr_clients_bindings::{ssr_events, ssr_ss_id, SsrBindings};
use crate::text::str_eq;

verus! {

/// Supported ssr clients: name to (magic number, subsystem id).
pub open spec fn client_map(b: SsrBindings) -> Map<Seq<char>, (u64, u32)> {
    map![
        "ADSP"@ => (b.magic_lpass, b.ss_id_lpass),
        "ADSP1"@ => (b.magic_adsp1, b.ss_id_adsp1),
        "ADSP2"@ => (b.magic_adsp2, b.ss_id_adsp2),
        "SLPI"@ => (b.magic_slpi, b.ss_id_slpi),
        "CDSP"@ => (b.magic_cdsp0, b.ss_id_cdsp),
        "CDSP1"@ => (b.magic_cdsp1, b.ss_id_cdsp1),
        "CDSP2"@ => (b.magic_cdsp2, b.ss_id_cdsp2),
        "CDSP3"@ => (b.magic_cdsp3, b.ss_id_cdsp3),
        "GPDSP0"@ => (b.magic_gpdsp0, b.ss_id_gpdsp0),
        "GPDSP1"@ => (b.magic_gpdsp1, b.ss_id_gpdsp1),
        "HPASSC0"@ => (b.magic_hpassc0, b.ss_id_hpassc0),
        "HPASSC1"@ => (b.magic_hpassc1, b.ss_id_hpassc1),
        "HPASSC2"@ => (b.magic_hpassc2, b.ss_id_hpassc2),
    ]
}

/// Names the guest knows the subsystems by: subsystem id to name.
///
/// Where two subsystems of a platform share an id, the one listed last names it.
pub open spec fn ssr_map(b: SsrBindings) -> Map<u32, Seq<char>> {
    map![
        b.ss_id_lpass => "adsp"@,
        b.ss_id_adsp1 => "adsp1"@,
        b.ss_id_adsp2 => "adsp2"@,
        b.ss_id_modem => "modem"@,
        b.ss_id_slpi => "slpi"@,
        b.ss_id_cdsp => "cdsp"@,
        b.ss_id_cdsp1 => "cdsp1"@,
        b.ss_id_cdsp2 => "cdsp2"@,
        b.ss_id_cdsp3 => "cdsp3"@,
        b.ss_id_gpdsp0 => "gpdsp0"@,
        b.ss_id_gpdsp1 => "gpdsp1"@,
        b.ss_id_hpassc0 => "adsp"@,
        b.ss_id_hpassc1 => "adsp1"@,
        b.ss_id_hpassc2 => "adsp2"@,
    ]
}

/// Whether `name` is the name of a supported client.
pub open spec fn is_client_name(name: Seq<char>) -> bool {
    ||| name == "ADSP"@
    ||| name == "ADSP1"@
    ||| name == "ADSP2"@
    ||| name == "SLPI"@
    ||| name == "CDSP"@
    ||| name == "CDSP1"@
    ||| name == "CDSP2"@
    ||| name == "CDSP3"@
    ||| name == "GPDSP0"@
    ||| name == "GPDSP1"@
    ||| name == "HPASSC0"@
    ||| name == "HPASSC1"@
    ||| name == "HPASSC2"@
}

/// Looks a client up by its name.
pub fn find_client(b: &SsrBindings, name: &str) -> (client: Option<(u64, u32)>)
    ensures
        client is Some <==> client_map(*b).contains_key(name@),
        client is Some ==> client == Some(client_map(*b)[name@]),
        client is Some <==> is_client_name(name@),
{
    if str_eq(name, "HPASSC2") {
        Some((b.magic_hpassc2, b.ss_id_hpassc2))
    } else if str_eq(name, "HPASSC1") {
        Some((b.magic_hpassc1, b.ss_id_hpassc1))
    } else if str_eq(name, "HPASSC0") {
        Some((b.magic_hpassc0, b.ss_id_hpassc0))
    } else if str_eq(name, "GPDSP1") {
        Some((b.magic_gpdsp1, b.ss_id_gpdsp1))
    } else if str_eq(name, "GPDSP0") {
        Some((b.magic_gpdsp0, b.ss_id_gpdsp0))
    } else if str_eq(name, "CDSP3") {
        Some((b.magic_cdsp3, b.ss_id_cdsp3))
    } else if str_eq(name, "CDSP2") {
        Some((b.magic_cdsp2, b.ss_id_cdsp2))
    } else if str_eq(name, "CDSP1") {
        Some((b.magic_cdsp1, b.ss_id_cdsp1))
    } else if str_eq(name, "CDSP") {
        Some((b.magic_cdsp0, b.ss_id_cdsp))
    } else if str_eq(name, "SLPI") {
        Some((b.magic_slpi, b.ss_id_slpi))
    } else if str_eq(name, "ADSP2") {
        Some((b.magic_adsp2, b.ss_id_adsp2))
    } else if str_eq(name, "ADSP1") {
        Some((b.magic_adsp1, b.ss_id_adsp1))
    } else if str_eq(name, "ADSP") {
        Some((b.magic_lpass, b.ss_id_lpass))
    } else {
        None
    }
}

/// Whether `name` is the name of a supported client.
pub fn is_supported_client(name: &str) -> (supported: bool)
    ensures
        supported == is_client_name(name@),
{
    str_eq(name, "ADSP") || str_eq(name, "ADSP1") || str_eq(name, "ADSP2") || str_eq(name, "SLPI")
        || str_eq(name, "CDSP") || str_eq(name, "CDSP1") || str_eq(name, "CDSP2") || str_eq(
        name,
        "CDSP3",
    ) || str_eq(name, "GPDSP0") || str_eq(name, "GPDSP1") || str_eq(name, "HPASSC0") || str_eq(
        name,
        "HPASSC1",
    ) || str_eq(name, "HPASSC2")
}

/// Looks the name of a subsystem up by its id.
pub fn find_ssr_name(b: &SsrBindings, ss_id: ssr_ss_id) -> (name: Option<&'static str>)
    ensures
        name is Some <==> ssr_map(*b).contains_key(ss_id),
        name is Some ==> name->0@ == ssr_map(*b)[ss_id],
{
    if ss_id == b.ss_id_hpassc2 {
        Some("adsp2")
    } else if ss_id == b.ss_id_hpassc1 {
        Some("adsp1")
    } else if ss_id == b.ss_id_hpassc0 {
        Some("adsp")
    } else if ss_id == b.ss_id_gpdsp1 {
        Some("gpdsp1")
    } else if ss_id == b.ss_id_gpdsp0 {
        Some("gpdsp0")
    } else if ss_id == b.ss_id_cdsp3 {
        Some("cdsp3")
    } else if ss_id == b.ss_id_cdsp2 {
        Some("cdsp2")
    } else if ss_id == b.ss_id_cdsp1 {
        Some("cdsp1")
    } else if ss_id == b.ss_id_cdsp {
        Some("cdsp")
    } else if ss_id == b.ss_id_slpi {
        Some("slpi")
    } else if ss_id == b.ss_id_modem {
        Some("modem")
    } else if ss_id == b.ss_id_adsp2 {
        Some("adsp2")
    } else if ss_id == b.ss_id_adsp1 {
        Some("adsp1")
    } else if ss_id == b.ss_id_lpass {
        Some("adsp")
    } else {
        None
    }
}

/// What the notify eventfd is raised by when the first event becomes pending.
pub const NOTIFY_VALUE: u64 = 0x10;

/// The name an event carries: that of its subsystem, or a stand-in for an id
/// that no subsystem has.
pub open spec fn response_name(b: SsrBindings, ss_id: ssr_ss_id) -> Seq<char> {
    if ssr_map(b).contains_key(ss_id) {
        ssr_map(b)[ss_id]
    } else {
        "unknown client"@
    }
}

/// What the notify eventfd is raised by when an event joins those pending: only
/// the event that ends an empty queue raises it.
pub open spec fn notify_on(pending: Seq<(ssr_ss_id, ssr_events)>) -> Option<u64> {
    if pending.len() == 0 {
        Some(NOTIFY_VALUE)
    } else {
        None
    }
}

/// Whether the notify eventfd is read with these events pending.
pub open spec fn drains(pending: Seq<(ssr_ss_id, ssr_events)>) -> bool {
    pending.len() == 0
}

/// The events that stay pending when a response is taken.
pub open spec fn without_oldest(pending: Seq<(ssr_ss_id, ssr_events)>) -> Seq<
    (ssr_ss_id, ssr_events),
> {
    if pending.len() == 0 {
        pending
    } else {
        pending.drop_first()
    }
}

/// SSR events that wait to be sent to the guest, oldest first.
///
/// The queue comes with a notify eventfd that its user owns: whenever the queue
/// asks for it, the user writes to the eventfd or reads it.
pub struct VhSsrCtx {
    bindings: SsrBindings,
    pending: VecDeque<(ssr_ss_id, ssr_events)>,
}

impl View for VhSsrCtx {
    type V = Seq<(ssr_ss_id, ssr_events)>;

    closed spec fn view(&self) -> Seq<(ssr_ss_id, ssr_events)> {
        self.pending@
    }
}

impl VhSsrCtx {
    /// The platform whose subsystem ids the events carry.
    pub closed spec fn spec_bindings(self) -> SsrBindings {
        self.bindings
    }

    /// A context with no pending event.
    pub fn new(bindings: SsrBindings) -> (ctx: Self)
        ensures
            ctx@ == Seq::<(ssr_ss_id, ssr_events)>::empty(),
            ctx.spec_bindings() == bindings,
    {
        VhSsrCtx { bindings, pending: VecDeque::new() }
    }

    /// The platform whose subsystem ids the events carry.
    pub fn bindings(&self) -> (bindings: SsrBindings)
        ensures
            bindings == self.spec_bindings(),
    {
        self.bindings
    }

    /// Number of pending events.
    pub fn pending_len(&self) -> (len: usize)
        ensures
            len == self@.len(),
    {
        self.pending.len()
    }

    /// Queues an event. Returns the value to write to the notify eventfd, if it
    /// is to be written.
    pub fn write_and_notify(&mut self, ss_id: ssr_ss_id, ssr_event: ssr_events) -> (notify: Option<
        u64,
    >)
        ensures
            final(self)@ == old(self)@.push((ss_id, ssr_event)),
            final(self).spec_bindings() == old(self).spec_bindings(),
            notify == notify_on(old(self)@),
            notify is Some <==> old(self)@.len() == 0,
            notify matches Some(value) ==> value == 16,
    {
        self.pending.push_back((ss_id, ssr_event));
        if self.pending.len() == 1 {
            Some(NOTIFY_VALUE)
        } else {
            None
        }
    }

    /// Takes the oldest event, with the name of its subsystem.
    pub fn get_response(&mut self) -> (response: Option<(String, ssr_events)>)
        ensures
            final(self).spec_bindings() == old(self).spec_bindings(),
            final(self)@ == without_oldest(old(self)@),
            old(self)@.len() == 0 ==> final(self)@.len() == 0,
            old(self)@.len() > 0 ==> final(self)@ == old(self)@.drop_first(),
            match response {
                Some((name, ssr_event)) => {
                    &&& old(self)@.len() > 0
                    &&& name@ == response_name(old(self).spec_bindings(), old(self)@[0].0)
                    &&& ssr_event == old(self)@[0].1
                },
                None => old(self)@.len() == 0,
            },
    {
        match self.pending.pop_front() {
            None => None,
            Some((ss_id, ssr_event)) => {
                let name = match find_ssr_name(&self.bindings, ss_id) {
                    Some(name) => name,
                    None => "unknown client",
                };
                Some((name.to_owned(), ssr_event))
            },
        }
    }

    /// Whether the notify eventfd is to be read, so that an empty queue does not
    /// keep waking its reader. The outcome of the read does not matter.
    pub fn reset(&self) -> (drain: bool)
        ensures
            drain == drains(self@),
            drain <==> self@.len() == 0,
    {
        self.pending.len() == 0
    }

    /// Queues an event without notifying anyone.
    pub fn push_pending(&mut self, ss_id: ssr_ss_id, ssr_event: ssr_events)
        ensures
            final(self)@ == old(self)@.push((ss_id, ssr_event)),
            final(self).spec_bindings() == old(self).spec_bindings(),
    {
        self.pending.push_back((ss_id, ssr_event));
    }
}

/// What the callback has to do next.
#[derive(Clone, Copy, Debug, PartialEq, Eq, Structural)]
pub enum CallbackStep {
    /// Return this status to the SSR client library.
    Return(i32),
    /// Write this value to the notify eventfd, then ask
    /// [`ssr_virtio_event_written`] for the status.
    Notify(u64),
}

/// Callback registered into SSR: queues the event it is called with.
///
/// `ctx` is the context that the client was registered with, `None` where the
/// pointer to it is null.
pub fn ssr_virtio_event_handler(
    ss_id: ssr_ss_id,
    ssr_event: ssr_events,
    ctx: Option<&mut VhSsrCtx>,
) -> (step: CallbackStep)
    ensures
        match ctx {
            None => step matches CallbackStep::Return(status) && status == -1,
            Some(c) => {
                &&& final(c)@ == (*c)@.push((ss_id, ssr_event))
                &&& final(c).spec_bindings() == (*c).spec_bindings()
                &&& step == (match notify_on((*c)@) {
                    Some(value) => CallbackStep::Notify(value),
                    None => CallbackStep::Return(0),
                })
            },
        },
{
    match ctx {
        None => CallbackStep::Return(-1),
        Some(ctx) => match ctx.write_and_notify(ss_id, ssr_event) {
            Some(value) => CallbackStep::Notify(value),
            None => CallbackStep::Return(0),
        },
    }
}

/// Status of a callback whose write to the notify eventfd succeeded or not.
pub fn ssr_virtio_event_written(written: bool) -> (status: i32)
    ensures
        written ==> status == 0,
        !written ==> status == -1,
{
    if written {
        0
    } else {
        -1
    }
}

/// Errors related to ssr client.
#[derive(Debug, PartialEq, Eq)]
pub enum SsrClientError {
    /// Registering the callback events of the named client failed.
    RegisterCallbackEvents(String),
    /// Unregistering the callback events of the named client failed, with the
    /// status of the SSR client library.
    UnregisterCallbackEvents(String, i32),
    /// Triggering the restart of the named client failed.
    TriggerSsr(String),
}

/// A client of the SSR client library.
///
/// What a client does is up to the SSR client library it talks to.
pub trait SsrClient {
    /// Handle to the [`VhSsrCtx`] that the events of the client go to.
    type Ctx;

    /// Callback that the SSR client library calls with an event.
    type Handler;

    /// Register client to SSR
    fn register(&self, prefix_name: &str) -> Result<u64, SsrClientError>;

    /// Unregister client to SSR
    fn unregister(&self) -> Result<u64, SsrClientError>;

    /// trigger event for the client from SSR
    fn trigger(&self) -> Result<u64, SsrClientError>;

    /// new default client
    fn new_default(
        prefix_name: &str,
        client_name: String,
        ctx: Self::Ctx,
        event_handler: Self::Handler,
    ) -> Self where Self: Sized;
}

/// The mask a client subscribes with: its subsystem id above the event bits.
pub open spec fn event_mask(b: SsrBindings, client_id: ssr_ss_id) -> u64 {
    ((client_id as u64) << (b.ss_id_shift as u64)) | (b.spec_event_bits() as u64)
}

/// Name a client registers under.
pub open spec fn register_name(prefix_name: Seq<char>, client_name: Seq<char>) -> Seq<char> {
    prefix_name + seq![':'] + client_name
}

/// What a client passes to the SSR client library to register.
#[derive(Debug, PartialEq, Eq)]
pub struct RegisterRequest {
    pub client_magic: u64,
    pub event_mask: u64,
    pub name: String,
}

/// What a client passes to the SSR client library to trigger a restart.
#[derive(Clone, Copy, Debug, PartialEq, Eq, Structural)]
pub struct TriggerRequest {
    pub priv_data: usize,
    pub client_magic: u64,
}

/// One client of the SSR client library, as the library knows it.
///
/// The calls into the SSR client library are made by the owner of the client;
/// the client says what to pass and what a status means.
pub struct SsrVuClient {
    pub client_magic: u64,
    pub client_name: String,
    pub event_mask: u64,
    /// Address of the data that the SSR client library keeps for the client,
    /// zero before it has any.
    pub priv_data: usize,
}

impl SsrVuClient {
    pub fn new(
        client_magic: u64,
        client_name: String,
        event_mask: u64,
        priv_data: usize,
    ) -> (client: Self)
        ensures
            client == (SsrVuClient { client_magic, client_name, event_mask, priv_data }),
    {
        SsrVuClient { client_magic, client_name, event_mask, priv_data }
    }

    /// The client for a supported name, before it is registered. It subscribes
    /// to every event of its subsystem.
    pub fn new_default(b: &SsrBindings, client_name: String) -> (client: Self)
        requires
            b.wf(),
            client_map(*b).contains_key(client_name@),
        ensures
            client.client_magic == client_map(*b)[client_name@].0,
            client.client_name == client_name,
            client.event_mask == event_mask(*b, client_map(*b)[client_name@].1),
            client.priv_data == 0,
    {
        let (client_magic, client_id) = find_client(b, client_name.as_str()).unwrap();
        let shift: u64 = b.ss_id_shift as u64;
        let event_mask: u64 = ((client_id as u64) << shift) | (b.event_bits() as u64);
        Self::new(client_magic, client_name, event_mask, 0)
    }

    /// Address of the data that the SSR client library keeps for the client.
    pub fn get_priv_ptr(&self) -> (ptr: usize)
        ensures
            ptr == self.priv_data,
    {
        self.priv_data
    }

    /// What to pass to the SSR client library to trigger a restart.
    pub fn trigger_request(&self) -> (request: TriggerRequest)
        ensures
            request == (TriggerRequest {
                priv_data: self.priv_data,
                client_magic: self.client_magic,
            }),
    {
        TriggerRequest { priv_data: self.get_priv_ptr(), client_magic: self.client_magic }
    }

    /// Meaning of the status of a trigger call.
    pub fn triggered(&self, ret: i32) -> (result: Result<u64, SsrClientError>)
        ensures
            ret == 0 ==> result == Ok::<u64, SsrClientError>(0),
            ret != 0 ==> result == Err::<u64, SsrClientError>(
                SsrClientError::TriggerSsr(self.client_name),
            ),
    {
        match ret {
            0 => Ok(0),
            _ => Err(SsrClientError::TriggerSsr(self.client_name.clone())),
        }
    }

    /// Name the client registers under.
    fn register_name(&self, prefix_name: &str) -> (name: String)
        ensures
            name@ == register_name(prefix_name@, self.client_name@),
    {
        proof {
            reveal_strlit(":");
        }
        let mut name = prefix_name.to_owned();
        name.append(":");
        name.append(self.client_name.as_str());
        assert(name@ =~= register_name(prefix_name@, self.client_name@));
        name
    }

    /// What to pass to the SSR client library to register. The name goes there
    /// as a C string, so it must not hold a NUL.
    pub fn register_request(&self, prefix_name: &str) -> (request: RegisterRequest)
        requires
            !register_name(prefix_name@, self.client_name@).contains('\0'),
        ensures
            request.client_magic == self.client_magic,
            request.event_mask == self.event_mask,
            request.name@ == register_name(prefix_name@, self.client_name@),
    {
        RegisterRequest {
            client_magic: self.client_magic,
            event_mask: self.event_mask,
            name: self.register_name(prefix_name),
        }
    }

    /// Meaning of the status of a register call that left the address
    /// `priv_data`, which the client keeps.
    pub fn registered(&mut self, prefix_name: &str, priv_data: usize, ret: i32) -> (result: Result<
        u64,
        SsrClientError,
    >)
        requires
            !register_name(prefix_name@, old(self).client_name@).contains('\0'),
        ensures
            *final(self) == (SsrVuClient { priv_data, ..*old(self) }),
            ret == 0 ==> result == Ok::<u64, SsrClientError>(0),
            ret != 0 ==> {
                &&& result matches Err(SsrClientError::RegisterCallbackEvents(name))
                &&& name@ == register_name(prefix_name@, old(self).client_name@)
            },
    {
        self.priv_data = priv_data;
        match ret {
            0 => Ok(0),
            _ => Err(SsrClientError::RegisterCallbackEvents(self.register_name(prefix_name))),
        }
    }

    /// Meaning of the status of an unregister call.
    pub fn unregistered(&self, ret: i32) -> (result: Result<u64, SsrClientError>)
        ensures
            ret == 0 ==> result == Ok::<u64, SsrClientError>(0),
            ret != 0 ==> result == Err::<u64, SsrClientError>(
                SsrClientError::UnregisterCallbackEvents(self.client_name, ret),
            ),
    {
        match ret {
            0 => Ok(0),
            _ => Err(SsrClientError::UnregisterCallbackEvents(self.client_name.clone(), ret)),
        }
    }
}

/// The subsystem of every supported client has a name: its events never reach
/// the guest as those of an unknown client.
pub proof fn law_clients_have_names(b: SsrBindings, client_name: Seq<char>)
    requires
        client_map(b).contains_key(client_name),
    ensures
        ssr_map(b).contains_key(client_map(b)[client_name].1),
        response_name(b, client_map(b)[client_name].1) == ssr_map(b)[client_map(
            b,
        )[client_name].1],
{
}

/// The clients of the table are those with a supported name.
pub proof fn law_client_names(b: SsrBindings, client_name: Seq<char>)
    ensures
        client_map(b).contains_key(client_name) <==> is_client_name(client_name),
{
}

/// A supported client can register under every prefix without a NUL.
pub proof fn law_register_name(prefix_name: Seq<char>, client_name: Seq<char>)
    requires
        is_client_name(client_name),
        !prefix_name.contains('\0'),
    ensures
        !register_name(prefix_name, client_name).contains('\0'),
{
    reveal_strlit("ADSP");
    reveal_strlit("ADSP1");
    reveal_strlit("ADSP2");
    reveal_strlit("SLPI");
    reveal_strlit("CDSP");
    reveal_strlit("CDSP1");
    reveal_strlit("CDSP2");
    reveal_strlit("CDSP3");
    reveal_strlit("GPDSP0");
    reveal_strlit("GPDSP1");
    reveal_strlit("HPASSC0");
    reveal_strlit("HPASSC1");
    reveal_strlit("HPASSC2");
    let name = register_name(prefix_name, client_name);
    let n = prefix_name.len() as int;
    assert forall|i: int| 0 <= i < name.len() implies name[i] != '\0' by {
        if i < n {
            assert(prefix_name.contains(prefix_name[i]));
        } else if i > n {
            assert(name[i] == client_name[i - n - 1]);
        }
    }
}

/// A mask tells the subsystem from the events, where the platform leaves room
/// for both.
pub proof fn law_event_mask_parts(b: SsrBindings, client_id: ssr_ss_id)
    requires
        b.wf(),
        (b.spec_event_bits() as u64) >> (b.ss_id_shift as u64) == 0,
        ((client_id as u64) << (b.ss_id_shift as u64)) >> (b.ss_id_shift as u64)
            == client_id as u64,
    ensures
        event_mask(b, client_id) >> (b.ss_id_shift as u64) == client_id as u64,
        event_mask(b, client_id) ^ ((client_id as u64) << (b.ss_id_shift as u64))
            == b.spec_event_bits() as u64,
{
    let id = client_id as u64;
    let bits = b.spec_event_bits() as u64;
    let shift = b.ss_id_shift as u64;
    assert(((id << shift) | bits) >> shift == id && ((id << shift) | bits) ^ (id << shift) == bits)
        by (bit_vector)
        requires
            shift < 64,
            bits >> shift == 0,
            (id << shift) >> shift == id,
    ;
}

/// A client subscribes to every event: each one's bits are in its mask.
pub proof fn law_event_mask_has_events(b: SsrBindings, client_id: ssr_ss_id)
    requires
        b.wf(),
    ensures
        event_mask(b, client_id) & (b.ssr_event_fault_notify as u64)
            == b.ssr_event_fault_notify as u64,
        event_mask(b, client_id) & (b.ssr_event_restart_start as u64)
            == b.ssr_event_restart_start as u64,
        event_mask(b, client_id) & (b.ssr_event_restart_failed as u64)
            == b.ssr_event_restart_failed as u64,
        event_mask(b, client_id) & (b.ssr_event_pre_ds as u64) == b.ssr_event_pre_ds as u64,
        event_mask(b, client_id) & (b.ssr_event_dummy as u64) == b.ssr_event_dummy as u64,
        event_mask(b, client_id) & (b.ssr_event_restart_complete as u64)
            == b.ssr_event_restart_complete as u64,
{
    let high = (client_id as u64) << (b.ss_id_shift as u64);
    let e1 = b.ssr_event_fault_notify;
    let e2 = b.ssr_event_restart_start;
    let e3 = b.ssr_event_restart_failed;
    let e4 = b.ssr_event_pre_ds;
    let e5 = b.ssr_event_dummy;
    let e6 = b.ssr_event_restart_complete;
    assert({
        let mask = high | ((e1 | e2 | e3 | e4 | e5 | e6) as u64);
        &&& mask & (e1 as u64) == e1 as u64
        &&& mask & (e2 as u64) == e2 as u64
        &&& mask & (e3 as u64) == e3 as u64
        &&& mask & (e4 as u64) == e4 as u64
        &&& mask & (e5 as u64) == e5 as u64
        &&& mask & (e6 as u64) == e6 as u64
    }) by (bit_vector);
}

/// The ids of a platform, in the order of [`ssr_map`].
pub open spec fn subsystem_ids(b: SsrBindings) -> Seq<ssr_ss_id> {
    seq![
        b.ss_id_lpass,
        b.ss_id_adsp1,
        b.ss_id_adsp2,
        b.ss_id_modem,
        b.ss_id_slpi,
        b.ss_id_cdsp,
        b.ss_id_cdsp1,
        b.ss_id_cdsp2,
        b.ss_id_cdsp3,
        b.ss_id_gpdsp0,
        b.ss_id_gpdsp1,
        b.ss_id_hpassc0,
        b.ss_id_hpassc1,
        b.ss_id_hpassc2,
    ]
}

/// Where no two subsystems share an id, each has its own name: the client's in
/// lower case, and the HPASSC ones those of the audio subsystems.
pub proof fn law_own_names(b: SsrBindings)
    requires
        subsystem_ids(b).no_duplicates(),
    ensures
        response_name(b, b.ss_id_lpass) == "adsp"@,
        response_name(b, b.ss_id_adsp1) == "adsp1"@,
        response_name(b, b.ss_id_adsp2) == "adsp2"@,
        response_name(b, b.ss_id_modem) == "modem"@,
        response_name(b, b.ss_id_slpi) == "slpi"@,
        response_name(b, b.ss_id_cdsp) == "cdsp"@,
        response_name(b, b.ss_id_cdsp1) == "cdsp1"@,
        response_name(b, b.ss_id_cdsp2) == "cdsp2"@,
        response_name(b, b.ss_id_cdsp3) == "cdsp3"@,
        response_name(b, b.ss_id_gpdsp0) == "gpdsp0"@,
        response_name(b, b.ss_id_gpdsp1) == "gpdsp1"@,
        response_name(b, b.ss_id_hpassc0) == "adsp"@,
        response_name(b, b.ss_id_hpassc1) == "adsp1"@,
        response_name(b, b.ss_id_hpassc2) == "adsp2"@,
{
    let ids = subsystem_ids(b);
    assert(forall|i: int, j: int| 0 <= i < j < 14 ==> ids[i] != ids[j]);
    assert(ids[0] == b.ss_id_lpass && ids[1] == b.ss_id_adsp1 && ids[2] == b.ss_id_adsp2);
    assert(ids[3] == b.ss_id_modem && ids[4] == b.ss_id_slpi && ids[5] == b.ss_id_cdsp);
    assert(ids[6] == b.ss_id_cdsp1 && ids[7] == b.ss_id_cdsp2 && ids[8] == b.ss_id_cdsp3);
    assert(ids[9] == b.ss_id_gpdsp0 && ids[10] == b.ss_id_gpdsp1 && ids[11] == b.ss_id_hpassc0);
    assert(ids[12] == b.ss_id_hpassc1 && ids[13] == b.ss_id_hpassc2);
}

/// Each supported client has its own magic number and its own subsystem, and no
/// other name is supported.
pub proof fn law_client_table(b: SsrBindings)
    ensures
        client_map(b).dom() == set![
            "ADSP"@,
            "ADSP1"@,
            "ADSP2"@,
            "SLPI"@,
            "CDSP"@,
            "CDSP1"@,
            "CDSP2"@,
            "CDSP3"@,
            "GPDSP0"@,
            "GPDSP1"@,
            "HPASSC0"@,
            "HPASSC1"@,
            "HPASSC2"@,
        ],
        client_map(b)["ADSP"@] == (b.magic_lpass, b.ss_id_lpass),
        client_map(b)["ADSP1"@] == (b.magic_adsp1, b.ss_id_adsp1),
        client_map(b)["ADSP2"@] == (b.magic_adsp2, b.ss_id_adsp2),
        client_map(b)["SLPI"@] == (b.magic_slpi, b.ss_id_slpi),
        client_map(b)["CDSP"@] == (b.magic_cdsp0, b.ss_id_cdsp),
        client_map(b)["CDSP1"@] == (b.magic_cdsp1, b.ss_id_cdsp1),
        client_map(b)["CDSP2"@] == (b.magic_cdsp2, b.ss_id_cdsp2),
        client_map(b)["CDSP3"@] == (b.magic_cdsp3, b.ss_id_cdsp3),
        client_map(b)["GPDSP0"@] == (b.magic_gpdsp0, b.ss_id_gpdsp0),
        client_map(b)["GPDSP1"@] == (b.magic_gpdsp1, b.ss_id_gpdsp1),
        client_map(b)["HPASSC0"@] == (b.magic_hpassc0, b.ss_id_hpassc0),
        client_map(b)["HPASSC1"@] == (b.magic_hpassc1, b.ss_id_hpassc1),
        client_map(b)["HPASSC2"@] == (b.magic_hpassc2, b.ss_id_hpassc2),
        forall|name: Seq<char>| #[trigger]
            is_client_name(name) <==> set![
            "ADSP"@,
            "ADSP1"@,
            "ADSP2"@,
            "SLPI"@,
            "CDSP"@,
            "CDSP1"@,
            "CDSP2"@,
            "CDSP3"@,
            "GPDSP0"@,
            "GPDSP1"@,
            "HPASSC0"@,
            "HPASSC1"@,
            "HPASSC2"@,
            ].contains(name),
{
    reveal_strlit("ADSP");
    reveal_strlit("ADSP1");
    reveal_strlit("ADSP2");
    reveal_strlit("SLPI");
    reveal_strlit("CDSP");
    reveal_strlit("CDSP1");
    reveal_strlit("CDSP2");
    reveal_strlit("CDSP3");
    reveal_strlit("GPDSP0");
    reveal_strlit("GPDSP1");
    reveal_strlit("HPASSC0");
    reveal_strlit("HPASSC1");
    reveal_strlit("HPASSC2");
    assert("ADSP"@.len() == 4 && "SLPI"@.len() == 4 && "CDSP"@.len() == 4);
    assert("ADSP"@[0] == 'A' && "SLPI"@[0] == 'S' && "CDSP"@[0] == 'C');
    assert("ADSP1"@[4] == '1' && "ADSP2"@[4] == '2' && "ADSP1"@[0] == 'A' && "ADSP2"@[0] == 'A');
    assert("CDSP1"@[4] == '1' && "CDSP2"@[4] == '2' && "CDSP3"@[4] == '3');
    assert("CDSP1"@[0] == 'C' && "CDSP2"@[0] == 'C' && "CDSP3"@[0] == 'C');
    assert("GPDSP0"@[5] == '0' && "GPDSP1"@[5] == '1');
    assert("HPASSC0"@[6] == '0' && "HPASSC1"@[6] == '1' && "HPASSC2"@[6] == '2');
}

/// The guest knows a subsystem by the name that is listed for its id. Where
/// several subsystems have one id, it is the name listed last, and an id that is
/// not listed is that of an unknown client.
pub proof fn law_response_name(b: SsrBindings, ss_id: ssr_ss_id)
    ensures
        ({
            let listed = seq![
                (b.ss_id_lpass, "adsp"@),
                (b.ss_id_adsp1, "adsp1"@),
                (b.ss_id_adsp2, "adsp2"@),
                (b.ss_id_modem, "modem"@),
                (b.ss_id_slpi, "slpi"@),
                (b.ss_id_cdsp, "cdsp"@),
                (b.ss_id_cdsp1, "cdsp1"@),
                (b.ss_id_cdsp2, "cdsp2"@),
                (b.ss_id_cdsp3, "cdsp3"@),
                (b.ss_id_gpdsp0, "gpdsp0"@),
                (b.ss_id_gpdsp1, "gpdsp1"@),
                (b.ss_id_hpassc0, "adsp"@),
                (b.ss_id_hpassc1, "adsp1"@),
                (b.ss_id_hpassc2, "adsp2"@),
            ];
            &&& forall|i: int|
                #![trigger listed[i]]
                0 <= i < listed.len() && listed[i].0 == ss_id && (forall|j: int|
                    i < j < listed.len() ==> (#[trigger] listed[j]).0 != ss_id) ==> response_name(
                    b,
                    ss_id,
                ) == listed[i].1
            &&& (forall|i: int| 0 <= i < listed.len() ==> (#[trigger] listed[i]).0 != ss_id)
                ==> response_name(b, ss_id) == "unknown client"@
        }),
{
    let listed = seq![
                (b.ss_id_lpass, "adsp"@),
                (b.ss_id_adsp1, "adsp1"@),
                (b.ss_id_adsp2, "adsp2"@),
                (b.ss_id_modem, "modem"@),
                (b.ss_id_slpi, "slpi"@),
                (b.ss_id_cdsp, "cdsp"@),
                (b.ss_id_cdsp1, "cdsp1"@),
                (b.ss_id_cdsp2, "cdsp2"@),
                (b.ss_id_cdsp3, "cdsp3"@),
                (b.ss_id_gpdsp0, "gpdsp0"@),
                (b.ss_id_gpdsp1, "gpdsp1"@),
                (b.ss_id_hpassc0, "adsp"@),
                (b.ss_id_hpassc1, "adsp1"@),
                (b.ss_id_hpassc2, "adsp2"@),
    ];
    assert(listed.len() == 14);
    assert forall|i: int|
        #![trigger listed[i]]
        0 <= i < listed.len() && listed[i].0 == ss_id && (forall|j: int|
            i < j < listed.len() ==> (#[trigger] listed[j]).0 != ss_id) implies response_name(
        b,
        ss_id,
    ) == listed[i].1 by {
        assert(i < 13 ==> listed[13].0 != ss_id);
        assert(i < 12 ==> listed[12].0 != ss_id);
        assert(i < 11 ==> listed[11].0 != ss_id);
        assert(i < 10 ==> listed[10].0 != ss_id);
        assert(i < 9 ==> listed[9].0 != ss_id);
        assert(i < 8 ==> listed[8].0 != ss_id);
        assert(i < 7 ==> listed[7].0 != ss_id);
        assert(i < 6 ==> listed[6].0 != ss_id);
        assert(i < 5 ==> listed[5].0 != ss_id);
        assert(i < 4 ==> listed[4].0 != ss_id);
        assert(i < 3 ==> listed[3].0 != ss_id);
        assert(i < 2 ==> listed[2].0 != ss_id);
        assert(i < 1 ==> listed[1].0 != ss_id);
    }
    if forall|i: int| 0 <= i < listed.len() ==> (#[trigger] listed[i]).0 != ss_id {
        assert(listed[0].0 != ss_id && listed[1].0 != ss_id && listed[2].0 != ss_id);
        assert(listed[3].0 != ss_id && listed[4].0 != ss_id && listed[5].0 != ss_id);
        assert(listed[6].0 != ss_id && listed[7].0 != ss_id && listed[8].0 != ss_id);
        assert(listed[9].0 != ss_id && listed[10].0 != ss_id && listed[11].0 != ss_id);
        assert(listed[12].0 != ss_id && listed[13].0 != ss_id);
    }
}

/// The name a client registers under is the whole prefix, a colon, and the whole
/// name of the client.
pub proof fn law_register_name_parts(prefix_name: Seq<char>, client_name: Seq<char>)
    ensures
        ({
            let name = register_name(prefix_name, client_name);
            let n = prefix_name.len() as int;
            &&& name.len() == n + 1 + client_name.len()
            &&& name.take(n) == prefix_name
            &&& name[n] == ':'
            &&& name.skip(n + 1) == client_name
        }),
{
    let name = register_name(prefix_name, client_name);
    let n = prefix_name.len() as int;
    assert(name.take(n) =~= prefix_name);
    assert(name.skip(n + 1) =~= client_name);
}

/// A client subscribes to an event bit exactly if it is one of the six events of
/// the SSR client library.
pub proof fn law_event_bits(b: SsrBindings, bit: u32)
    requires
        bit < 32,
    ensures
        (b.spec_event_bits() >> bit) & 1 == 1 <==> {
            ||| (b.ssr_event_fault_notify >> bit) & 1 == 1
            ||| (b.ssr_event_restart_start >> bit) & 1 == 1
            ||| (b.ssr_event_restart_failed >> bit) & 1 == 1
            ||| (b.ssr_event_restart_complete >> bit) & 1 == 1
            ||| (b.ssr_event_pre_ds >> bit) & 1 == 1
            ||| (b.ssr_event_dummy >> bit) & 1 == 1
        },
{
    let e1 = b.ssr_event_fault_notify;
    let e2 = b.ssr_event_restart_start;
    let e3 = b.ssr_event_restart_failed;
    let e4 = b.ssr_event_pre_ds;
    let e5 = b.ssr_event_dummy;
    let e6 = b.ssr_event_restart_complete;
    assert(((e1 | e2 | e3 | e4 | e5 | e6) >> bit) & 1 == 1 <==> (e1 >> bit) & 1 == 1 || (e2 >> bit)
        & 1 == 1 || (e3 >> bit) & 1 == 1 || (e4 >> bit) & 1 == 1 || (e5 >> bit) & 1 == 1 || (e6
        >> bit) & 1 == 1) by (bit_vector)
        requires
            bit < 32,
    ;
}

/// A bit of a client's mask is set exactly if it is a bit of one of the six
/// events, or a bit of the subsystem's id, which starts at the shift.
pub proof fn law_event_mask_bits(b: SsrBindings, client_id: ssr_ss_id, bit: u64)
    requires
        b.ss_id_shift < 64,
        bit < 64,
    ensures
        (event_mask(b, client_id) >> bit) & 1 == 1 <==> {
            ||| ((b.ssr_event_fault_notify as u64) >> bit) & 1 == 1
            ||| ((b.ssr_event_restart_start as u64) >> bit) & 1 == 1
            ||| ((b.ssr_event_restart_failed as u64) >> bit) & 1 == 1
            ||| ((b.ssr_event_restart_complete as u64) >> bit) & 1 == 1
            ||| ((b.ssr_event_pre_ds as u64) >> bit) & 1 == 1
            ||| ((b.ssr_event_dummy as u64) >> bit) & 1 == 1
            ||| bit >= b.ss_id_shift && ((client_id as u64) >> ((bit - b.ss_id_shift) as u64)) & 1
                == 1
        },
{
    let e1 = b.ssr_event_fault_notify;
    let e2 = b.ssr_event_restart_start;
    let e3 = b.ssr_event_restart_failed;
    let e4 = b.ssr_event_pre_ds;
    let e5 = b.ssr_event_dummy;
    let e6 = b.ssr_event_restart_complete;
    let id = client_id as u64;
    let shift = b.ss_id_shift as u64;
    let bits = e1 | e2 | e3 | e4 | e5 | e6;
    assert(((bits as u64) >> bit) & 1 == 1 <==> ((e1 as u64) >> bit) & 1 == 1 || ((e2 as u64)
        >> bit) & 1 == 1 || ((e3 as u64) >> bit) & 1 == 1 || ((e4 as u64) >> bit) & 1 == 1 || ((
    e5 as u64) >> bit) & 1 == 1 || ((e6 as u64) >> bit) & 1 == 1) by (bit_vector)
        requires
            bits == e1 | e2 | e3 | e4 | e5 | e6,
            bit < 64,
    ;
    let low = bits as u64;
    assert((((id << shift) | low) >> bit) & 1 == 1 <==> (low >> bit) & 1 == 1 || ((id << shift)
        >> bit) & 1 == 1) by (bit_vector)
        requires
            bit < 64,
            shift < 64,
    ;
    if bit >= shift {
        let rest = (bit - shift) as u64;
        assert(((id << shift) >> bit) & 1 == (id >> rest) & 1) by (bit_vector)
            requires
                shift < 64,
                bit < 64,
                rest == bit - shift,
                bit >= shift,
        ;
    } else {
        assert(((id << shift) >> bit) & 1 == 0) by (bit_vector)
            requires
                shift < 64,
                bit < shift,
        ;
    }
}

/// An event raises the eventfd by sixteen exactly if none was pending before it.
pub proof fn law_notify_on(pending: Seq<(ssr_ss_id, ssr_events)>)
    ensures
        notify_on(pending) is Some <==> pending.len() == 0,
        notify_on(pending) matches Some(value) ==> value == 16,
{
}

/// Taking a response takes the oldest event and leaves all others, in order.
/// The eventfd is read exactly if none is left.
pub proof fn law_oldest_taken(
    oldest: (ssr_ss_id, ssr_events),
    others: Seq<(ssr_ss_id, ssr_events)>,
)
    ensures
        without_oldest(seq![oldest] + others) == others,
        without_oldest(Seq::<(ssr_ss_id, ssr_events)>::empty()).len() == 0,
        drains(others) <==> others.len() == 0,
{
    assert((seq![oldest] + others).drop_first() =~= others);
}

/// A call of the SSR client library succeeded exactly if its status is zero. An
/// error names the client, and that of unregistering tells the status too.
pub proof fn law_statuses(
    client: SsrVuClient,
    ret: i32,
    triggered: Result<u64, SsrClientError>,
    unregistered: Result<u64, SsrClientError>,
)
    requires
        call_ensures(SsrVuClient::triggered, (&client, ret), triggered),
        call_ensures(SsrVuClient::unregistered, (&client, ret), unregistered),
    ensures
        triggered is Ok <==> ret == 0,
        unregistered is Ok <==> ret == 0,
        triggered matches Err(e) ==> (e matches SsrClientError::TriggerSsr(name) && name
            == client.client_name),
        unregistered matches Err(e) ==> (e matches SsrClientError::UnregisterCallbackEvents(
            name,
            status,
        ) && name == client.client_name && status == ret),
{
}

/// What a client hands to the SSR client library is what it was made with: the
/// magic number and the events of its name, and the data kept for it.
pub proof fn law_requests(
    b: SsrBindings,
    client_name: String,
    client: SsrVuClient,
    prefix_name: &str,
    register: RegisterRequest,
    trigger: TriggerRequest,
)
    requires
        is_client_name(client_name@),
        call_ensures(SsrVuClient::new_default, (&b, client_name), client),
        call_ensures(SsrVuClient::register_request, (&client, prefix_name), register),
        call_ensures(SsrVuClient::trigger_request, (&client,), trigger),
    ensures
        client.client_name == client_name,
        register.client_magic == client_map(b)[client_name@].0,
        register.event_mask == event_mask(b, client_map(b)[client_name@].1),
        register.name@.take(prefix_name@.len() as int) == prefix_name@,
        register.name@[prefix_name@.len() as int] == ':',
        register.name@.skip(prefix_name@.len() as int + 1) == client_name@,
        trigger.client_magic == client_map(b)[client_name@].0,
        trigger.priv_data == 0,
{
    law_register_name_parts(prefix_name@, client_name@);
}

/// The callback answers zero exactly if its write succeeded, and minus one
/// otherwise.
pub proof fn law_callback_status(written: bool, status: i32)
    requires
        call_ensures(ssr_virtio_event_written, (written,), status),
    ensures
        status == 0 <==> written,
        status != 0 ==> status == -1,
{
}

} // verus!
