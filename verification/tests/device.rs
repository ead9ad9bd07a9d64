use std::io;
use std::sync::{Arc, Mutex};

use vhost::vhost_user::message::{VhostUserProtocolFeatures, VhostUserVirtioFeatures};
use vhost_device_ssr::delivery::{AvailChain, EventState, QueueRun, RingAction, RingReply};
use vhost_device_ssr::ssr_client::{SsrClient, SsrClientError, VhSsrCtx};
use vhost_device_ssr::ssr_clients_bindings::SsrBindings;
use vhost_device_ssr::vhu_ssr::{
    event_headers, HandleStep, VirtioSsrOutHdr, VuSsrBackend, VuSsrError, NUM_QUEUES, QUEUE_SIZE,
    SSR_EVENT_IN_VRING_EPOLL, SUBSYSTEM_NAME_SIZE, VIRTIO_SSR_F_HOST_TO_GUEST,
};
use vhost_user_backend::{VhostUserBackendMut, VringRwLock, VringT};
use virtio_bindings::bindings::virtio_config::{VIRTIO_F_NOTIFY_ON_EMPTY, VIRTIO_F_VERSION_1};
use virtio_bindings::bindings::virtio_ring::VIRTIO_RING_F_INDIRECT_DESC;
use virtio_queue::{Descriptor, QueueT};
use vm_memory::{
    Address, Bytes, GuestAddress, GuestAddressSpace, GuestMemoryAtomic, GuestMemoryMmap,
};
use vmm_sys_util::epoll::EventSet;
use vmm_sys_util::eventfd::{EventFd, EFD_NONBLOCK};

type Memory = GuestMemoryAtomic<GuestMemoryMmap>;

fn bindings() -> SsrBindings {
    SsrBindings {
        ss_id_lpass: 1,
        ss_id_modem: 2,
        ss_id_slpi: 8,
        ss_id_cdsp: 16,
        ss_id_cdsp1: 32,
        ss_id_gpdsp0: 64,
        ss_id_gpdsp1: 128,
        ss_id_adsp1: 256,
        ss_id_adsp2: 512,
        ss_id_cdsp2: 1024,
        ss_id_cdsp3: 2048,
        ss_id_hpassc0: 4096,
        ss_id_hpassc1: 8192,
        ss_id_hpassc2: 16384,
        magic_lpass: 0x100,
        magic_adsp1: 0x101,
        magic_adsp2: 0x102,
        magic_slpi: 0x103,
        magic_cdsp0: 0x104,
        magic_cdsp1: 0x105,
        magic_cdsp2: 0x106,
        magic_cdsp3: 0x107,
        magic_gpdsp0: 0x108,
        magic_gpdsp1: 0x109,
        magic_hpassc0: 0x10a,
        magic_hpassc1: 0x10b,
        magic_hpassc2: 0x10c,
        ssr_event_fault_notify: 1,
        ssr_event_restart_start: 2,
        ssr_event_restart_failed: 4,
        ssr_event_restart_complete: 8,
        ssr_event_pre_ds: 16,
        ssr_event_dummy: 32,
        ss_id_shift: 32,
    }
}

struct MockSsrClient {
    ctx: Arc<Mutex<VhSsrCtx>>,
    name: String,
    status: i32,
}

impl SsrClient for MockSsrClient {
    type Ctx = Arc<Mutex<VhSsrCtx>>;
    type Handler = i32;

    fn register(&self, _prefix_name: &str) -> Result<u64, SsrClientError> {
        Ok(0)
    }

    fn unregister(&self) -> Result<u64, SsrClientError> {
        match self.status {
            0 => Ok(0),
            _ => Err(SsrClientError::UnregisterCallbackEvents(self.name.clone(), self.status)),
        }
    }

    fn trigger(&self) -> Result<u64, SsrClientError> {
        Ok(0)
    }

    fn new_default(
        prefix_name: &str,
        client_name: String,
        ctx: Arc<Mutex<VhSsrCtx>>,
        event_handler: i32,
    ) -> Self {
        MockSsrClient {
            ctx,
            name: format!("{}:{}", prefix_name, client_name),
            status: event_handler,
        }
    }
}

impl MockSsrClient {
    fn set_ctx(&self, id: u16, event: u16) {
        self.ctx.lock().unwrap().push_pending(id.into(), event.into());
    }
}

/// The device in front of a real ring.
struct Device {
    backend: VuSsrBackend<MockSsrClient, EventFd, Memory>,
    notify_fd: EventFd,
}

impl Device {
    fn perform(&self, vring: &VringRwLock, action: RingAction) -> RingReply {
        let mem = self.backend.mem.as_ref().unwrap().memory();
        match action {
            RingAction::PopDescriptorChain => {
                let chain = vring.get_mut().get_queue_mut().pop_descriptor_chain(mem);
                RingReply::Chain(chain.map(|chain| AvailChain {
                    head_index: chain.head_index(),
                    descriptors: chain.map(|d| d.addr().0).collect(),
                }))
            }
            RingAction::WriteDescriptor { addr, bytes } => {
                RingReply::Written(mem.write_slice(&bytes, GuestAddress(addr)).is_ok())
            }
            RingAction::AddUsed { head_index, len } => {
                RingReply::Used(vring.add_used(head_index, len).is_ok())
            }
            RingAction::SignalUsedQueue => RingReply::Signalled(vring.signal_used_queue().is_ok()),
        }
    }

    fn process_event(
        &mut self,
        vring: &VringRwLock,
        out: VirtioSsrOutHdr,
    ) -> Result<bool, VuSsrError> {
        let mut state = EventState::Pop;
        while let Some(action) = state.action(&out) {
            state = state.next(self.perform(vring, action));
        }
        match state {
            EventState::Done(result) => result,
            _ => unreachable!(),
        }
    }

    fn process_queue(&mut self, vring: &VringRwLock) -> Result<bool, VuSsrError> {
        let mut step = self.backend.process_queue(&mut self.backend.ctx.lock().unwrap());
        if step.drain {
            self.notify_fd.read().ok();
        }
        if let Some(run) = &mut step.run {
            while let Some(action) = run.action() {
                let reply = self.perform(vring, action);
                run.next(reply);
            }
        }
        step.result().unwrap()
    }

    fn push_pending(&self, ss_id: u32, ssr_event: u32) {
        self.backend.ctx.lock().unwrap().push_pending(ss_id, ssr_event);
    }
}

impl VhostUserBackendMut for Device {
    type Vring = VringRwLock;
    type Bitmap = ();

    fn num_queues(&self) -> usize {
        self.backend.num_queues()
    }

    fn max_queue_size(&self) -> usize {
        self.backend.max_queue_size()
    }

    fn features(&self) -> u64 {
        self.backend.features()
    }

    fn protocol_features(&self) -> VhostUserProtocolFeatures {
        VhostUserProtocolFeatures::from_bits(self.backend.protocol_features()).unwrap()
    }

    fn set_event_idx(&mut self, enabled: bool) {
        self.backend.set_event_idx(enabled)
    }

    fn update_memory(&mut self, mem: Memory) -> io::Result<()> {
        self.backend.update_memory(mem);
        Ok(())
    }

    fn handle_event(
        &mut self,
        device_event: u16,
        evset: EventSet,
        vrings: &[VringRwLock],
        _thread_id: usize,
    ) -> io::Result<()> {
        let other = |e: VuSsrError| io::Error::new(io::ErrorKind::Other, format!("{:?}", e));
        match self
            .backend
            .handle_event(device_event, evset.bits())
            .map_err(other)?
        {
            HandleStep::Ignore => {}
            HandleStep::ProcessQueue(i) => {
                self.process_queue(&vrings[i]).map_err(other)?;
            }
        }
        Ok(())
    }

    fn exit_event(&self, _thread_index: usize) -> Option<EventFd> {
        self.backend.exit_event.try_clone().ok()
    }
}

fn new_mockbackend() -> Device {
    let notify_fd = EventFd::new(EFD_NONBLOCK).unwrap();
    let ctx = Arc::new(Mutex::new(VhSsrCtx::new(bindings())));
    let ssr_client0 = MockSsrClient::new_default("", "test0".to_string(), ctx.clone(), 0);
    let ssr_client1 = MockSsrClient::new_default("", "test1".to_string(), ctx.clone(), 0);
    let exit_event = EventFd::new(EFD_NONBLOCK).ok();
    let backend = match VuSsrBackend::new(vec![ssr_client0, ssr_client1], ctx, exit_event) {
        Ok(backend) => backend,
        Err(e) => panic!("{:?}", e),
    };
    Device { backend, notify_fd }
}

#[test]
fn verify_handle_event() {
    let mut backend = new_mockbackend();

    // Artificial memory
    let mem = GuestMemoryAtomic::new(
        GuestMemoryMmap::<()>::from_ranges(&[(GuestAddress(0), 0x1000)]).unwrap(),
    );

    // Update memory
    backend.update_memory(mem.clone()).unwrap();

    // Artificial Vring
    let vring = VringRwLock::new(mem, 0x1000).unwrap();
    vring.set_queue_info(0x100, 0x400, 0x800).unwrap();
    vring.set_queue_size(16);
    vring.set_queue_ready(true);

    backend.set_event_idx(false);

    // Currently handles SSR_EVENT_IN_VRING_EPOLL IN only,
    assert_eq!(
        backend
            .handle_event(SSR_EVENT_IN_VRING_EPOLL, EventSet::IN, &[vring.clone()], 0)
            .ok(),
        Some(())
    );

    assert_eq!(
        backend
            .handle_event(SSR_EVENT_IN_VRING_EPOLL, EventSet::OUT, &[vring.clone()], 0)
            .unwrap_err()
            .kind(),
        io::ErrorKind::Other
    );
}

#[test]
fn verify_process_queue() {
    let mut backend = new_mockbackend();
    let mem_map = &GuestMemoryMmap::<()>::from_ranges(&[(GuestAddress(0x100), 0x1000)]).unwrap();

    // Artificial memory
    let mem = GuestMemoryAtomic::new(mem_map.clone());

    // Update memory
    backend.update_memory(mem.clone()).unwrap();

    // Artificial Vring
    let vring = VringRwLock::new(mem, 0x100).unwrap();
    vring.set_queue_info(0x100, 0x200, 0x300).unwrap();
    vring.set_queue_ready(false);

    //Unavailable ssr event, return Ok(false)
    assert_eq!(backend.backend.ctx.lock().unwrap().get_response(), None);
    assert_eq!(backend.process_queue(&vring), Ok(false));
    backend.push_pending(8, bindings().ssr_event_fault_notify);
    // Create a descriptor chain with two descriptors.
    let desc = Descriptor::new(0x400_u64, 0x100, 0, 0);
    mem_map.write_obj(desc, GuestAddress(0x100)).unwrap();

    let desc = Descriptor::new(0x500_u64, 0x100, 0, 0);
    mem_map.write_obj(desc, GuestAddress(0x100 + 16)).unwrap();

    // Put the descriptor index 0 in the first available ring position.
    mem_map
        .write_obj(0u16, GuestAddress(0x200).unchecked_add(4))
        .unwrap();

    // Set `avail_idx` to 2.
    mem_map
        .write_obj(2u16, GuestAddress(0x200).unchecked_add(2))
        .unwrap();
    vring.set_queue_ready(true);

    let used_idx = vring.queue_used_idx().unwrap();
    assert_eq!(used_idx, 0);

    // The mock device returns Ok(true).
    assert_eq!(backend.process_queue(&vring), Ok(true));
    let used_idx = vring.queue_used_idx().unwrap();
    assert_eq!(used_idx, 2);
}

#[test]
fn verify_process_event() {
    let mut backend = new_mockbackend();
    let mem_map = &GuestMemoryMmap::<()>::from_ranges(&[(GuestAddress(0x100), 0x1000)]).unwrap();

    // Artificial memory
    let mem = GuestMemoryAtomic::new(mem_map.clone());

    // Update memory
    backend.update_memory(mem.clone()).unwrap();

    // Artificial Vring
    let vring = VringRwLock::new(mem, 0x100).unwrap();
    vring.set_queue_info(0x100, 0x200, 0x300).unwrap();
    vring.set_queue_ready(false);

    //Unavailable ssr event, return Ok(false)
    assert_eq!(backend.backend.ctx.lock().unwrap().get_response(), None);
    assert_eq!(
        backend.process_event(&vring, VirtioSsrOutHdr::new("name".to_string(), 10)),
        Ok(false)
    );
    backend.push_pending(8, bindings().ssr_event_fault_notify);
    // Create a descriptor chain with one descriptor.
    let desc = Descriptor::new(0x400_u64, 0x100, 0, 0);
    mem_map.write_obj(desc, GuestAddress(0x100)).unwrap();

    // Put the descriptor index 0 in the first available ring position.
    mem_map
        .write_obj(0u16, GuestAddress(0x200).unchecked_add(4))
        .unwrap();

    // Set `avail_idx` to 1.
    mem_map
        .write_obj(1u16, GuestAddress(0x200).unchecked_add(2))
        .unwrap();
    vring.set_queue_ready(true);

    let used_idx = vring.queue_used_idx().unwrap();
    assert_eq!(used_idx, 0);

    // The mock device returns Ok(true).
    assert_eq!(
        backend.process_event(&vring, VirtioSsrOutHdr::new("name".to_string(), 10)),
        Ok(true)
    );
    let used_idx = vring.queue_used_idx().unwrap();
    assert_eq!(used_idx, 1);

    // The header is in the guest's buffer, little-endian.
    let mut sent = [0xffu8; 19];
    mem_map.read_slice(&mut sent, GuestAddress(0x400)).unwrap();
    let mut expected = [0u8; 19];
    expected[..4].copy_from_slice("name".as_bytes());
    expected[16] = 10;
    assert_eq!(sent, expected);
}

#[test]
fn verify_backend() {
    let mut backend = new_mockbackend();
    backend.push_pending(8, bindings().ssr_event_fault_notify);

    // Artificial memory
    let mem = GuestMemoryAtomic::new(
        GuestMemoryMmap::<()>::from_ranges(&[(GuestAddress(0), 0x1000)]).unwrap(),
    );

    assert_eq!(backend.num_queues(), NUM_QUEUES);
    assert_eq!(backend.max_queue_size(), QUEUE_SIZE);
    assert_eq!(
        backend.features(),
        1 << VIRTIO_F_VERSION_1
            | 1 << VIRTIO_F_NOTIFY_ON_EMPTY
            | 1 << VIRTIO_RING_F_INDIRECT_DESC
            | 1 << VIRTIO_SSR_F_HOST_TO_GUEST
            | VhostUserVirtioFeatures::PROTOCOL_FEATURES.bits()
    );
    assert_eq!(backend.protocol_features(), VhostUserProtocolFeatures::MQ);

    assert_eq!(backend.queues_per_thread(), vec![0xffff_ffff]);
    assert!(backend.update_memory(mem.clone()).is_ok());

    backend.set_event_idx(false);
    assert!(!backend.backend.event_idx);

    let fd = backend.exit_event(0);
    assert!(matches!(fd, Some(_)))
}

#[test]
fn verify_virtio_ssr_outhdr() {
    let outhdr = VirtioSsrOutHdr::new("CDSP".to_string(), 10);
    assert_eq!(outhdr.name.len(), SUBSYSTEM_NAME_SIZE);
    let mut buffer: [u8; SUBSYSTEM_NAME_SIZE] = [b'\0'; SUBSYSTEM_NAME_SIZE];
    buffer[0] = b'C';
    buffer[1] = b'D';
    buffer[2] = b'S';
    buffer[3] = b'P';
    assert_eq!(outhdr.name, buffer);
    assert_eq!(outhdr.event_type, 10);

    //oversize name
    let outhdr = VirtioSsrOutHdr::new("aaaaaaaaaaaaaaaaaaaaaaaaaaaaaaaaaaa".to_string(), 10);
    let mut buffer: [u8; SUBSYSTEM_NAME_SIZE] = [b'a'; SUBSYSTEM_NAME_SIZE];
    buffer[SUBSYSTEM_NAME_SIZE - 1] = b'\0';
    assert_eq!(outhdr.name, buffer);
    assert_eq!(outhdr.event_type, 10);
}

#[test]
fn verify_mock_client() {
    let backend = new_mockbackend();
    let client = backend.backend.ssr_clients.get(0).unwrap();
    assert_eq!(client.register(""), Ok(0));
    assert_eq!(client.unregister(), Ok(0));
    assert_eq!(client.trigger(), Ok(0));
    client.set_ctx(16, bindings().ssr_event_fault_notify as u16);
    let ctx = client.ctx.lock().unwrap().get_response().unwrap();
    assert_eq!(ctx.0, "cdsp".to_string());
    assert_eq!(ctx.1, bindings().ssr_event_fault_notify);
}

#[test]
fn header_bytes_are_little_endian() {
    let bytes = VirtioSsrOutHdr::new("\u{e9}\u{143}b".to_string(), 0x1234).to_bytes();
    assert_eq!(bytes.len(), 18);
    // Only the low byte of a character's code is sent.
    assert_eq!(bytes[..4], [0xe9, 0x43, b'b', 0]);
    assert_eq!(bytes[16..], [0x34, 0x12]);
}

#[test]
fn headers_tell_names_and_events_apart() {
    let b = bindings();
    let mut seen: Vec<Vec<u8>> = Vec::new();
    for ss_id in [1, 2, 8, 16, 32, 64, 128, 256, 512, 1024, 2048, 3] {
        let mut ctx = VhSsrCtx::new(b);
        ctx.push_pending(ss_id, 0);
        let name = ctx.get_response().unwrap().0;
        assert!(name.len() < SUBSYSTEM_NAME_SIZE && name.is_ascii());
        for event_type in [0, 1, 2, 3, 0x100] {
            let bytes = VirtioSsrOutHdr::new(name.clone(), event_type).to_bytes();
            assert_eq!(bytes[SUBSYSTEM_NAME_SIZE - 1], 0);
            assert_eq!(bytes[..name.len()], *name.as_bytes());
            assert!(!seen.contains(&bytes));
            seen.push(bytes);
        }
    }
}

#[test]
fn the_guest_is_told_in_order() {
    let b = bindings();
    let backend = new_mockbackend().backend;
    let mut ctx = VhSsrCtx::new(b);
    for (ss_id, ssr_event) in [
        (b.ss_id_cdsp, b.ssr_event_fault_notify),
        (b.ss_id_slpi, b.ssr_event_pre_ds),
        (b.ss_id_cdsp, b.ssr_event_restart_start),
        (b.ss_id_cdsp, b.ssr_event_restart_complete),
    ] {
        ctx.write_and_notify(ss_id, ssr_event);
    }
    let mut told = Vec::new();
    loop {
        let step = backend.process_queue(&mut ctx);
        if let Some(run) = step.run {
            told.extend(run.msgs);
        }
        if step.drain {
            break;
        }
    }
    let expected: Vec<VirtioSsrOutHdr> = [2, 3, 0, 1]
        .into_iter()
        .map(|event_type| VirtioSsrOutHdr::new("cdsp".to_string(), event_type))
        .collect();
    assert_eq!(told, expected);
}

#[test]
fn each_event_has_its_headers() {
    let b = bindings();
    let name = "adsp".to_string();
    let types = |ssr_event: u32| -> Option<Vec<u16>> {
        event_headers(&b, &name, ssr_event)
            .map(|msgs| msgs.iter().map(|msg| msg.event_type).collect())
    };
    assert_eq!(types(b.ssr_event_fault_notify), Some(vec![2, 3]));
    assert_eq!(types(b.ssr_event_restart_complete), Some(vec![1]));
    assert_eq!(types(b.ssr_event_restart_start), Some(vec![0]));
    assert_eq!(types(b.ssr_event_restart_failed), None);
    assert_eq!(types(b.ssr_event_pre_ds), None);
    assert_eq!(types(b.ssr_event_dummy), None);
    let msgs = event_headers(&b, &name, b.ssr_event_fault_notify).unwrap();
    assert_eq!(msgs[1], VirtioSsrOutHdr::new(name.clone(), 3));
}

#[test]
fn queue_is_drained_with_its_last_event() {
    let mut backend = new_mockbackend();
    backend.backend.update_memory(GuestMemoryAtomic::new(
        GuestMemoryMmap::<()>::from_ranges(&[(GuestAddress(0), 0x1000)]).unwrap(),
    ));
    backend.push_pending(16, bindings().ssr_event_fault_notify);
    backend.push_pending(16, bindings().ssr_event_dummy);
    let mut ctx = backend.backend.ctx.lock().unwrap();
    let step = backend.backend.process_queue(&mut ctx);
    assert!(!step.drain);
    assert_eq!(step.run.unwrap().msgs.len(), 2);
    let step = backend.backend.process_queue(&mut ctx);
    assert!(step.drain);
    assert_eq!(step.run, None);
    let step = backend.backend.process_queue(&mut ctx);
    assert!(step.drain);
    assert_eq!(step.run, None);
}

fn one_chain() -> RingReply {
    RingReply::Chain(Some(AvailChain { head_index: 7, descriptors: vec![0x400] }))
}

#[test]
fn every_failure_of_the_ring_is_told_apart() {
    let out = VirtioSsrOutHdr::new("slpi".to_string(), 1);
    assert_eq!(
        EventState::Pop.next(RingReply::Chain(Some(AvailChain {
            head_index: 0,
            descriptors: vec![1, 2, 3],
        }))),
        EventState::Done(Err(VuSsrError::UnexpectedDescriptorCount(3)))
    );
    assert_eq!(
        EventState::Pop.next(RingReply::Chain(Some(AvailChain {
            head_index: 0,
            descriptors: vec![],
        }))),
        EventState::Done(Err(VuSsrError::UnexpectedDescriptorCount(0)))
    );
    let write = EventState::Pop.next(one_chain());
    assert_eq!(
        write.action(&out),
        Some(RingAction::WriteDescriptor { addr: 0x400, bytes: out.to_bytes() })
    );
    assert_eq!(
        write.next(RingReply::Written(false)),
        EventState::Done(Err(VuSsrError::UnexpectedWriteDescriptorError))
    );
    let add_used = write.next(RingReply::Written(true));
    assert_eq!(add_used.action(&out), Some(RingAction::AddUsed { head_index: 7, len: 18 }));
    assert_eq!(
        add_used.next(RingReply::Used(false)),
        EventState::Done(Err(VuSsrError::UnexpectedWriteVringError))
    );
    let signal = add_used.next(RingReply::Used(true));
    assert_eq!(signal.action(&out), Some(RingAction::SignalUsedQueue));
    assert_eq!(
        signal.next(RingReply::Signalled(false)),
        EventState::Done(Err(VuSsrError::SendNotificationFailed))
    );
    assert_eq!(signal.next(RingReply::Signalled(true)), EventState::Done(Ok(true)));
    let dropped = EventState::Pop.next(RingReply::Chain(None));
    assert_eq!(dropped.action(&out), Some(RingAction::SignalUsedQueue));
    assert_eq!(dropped.next(RingReply::Signalled(true)), EventState::Done(Ok(false)));
}

#[test]
fn the_first_error_ends_a_run() {
    let msgs = vec![
        VirtioSsrOutHdr::new("slpi".to_string(), 2),
        VirtioSsrOutHdr::new("slpi".to_string(), 3),
    ];
    // A header that finds no chain is dropped, and the run goes on.
    let mut run = QueueRun::new(msgs.clone());
    run.next(RingReply::Chain(None));
    run.next(RingReply::Signalled(true));
    assert_eq!(run.result(), None);
    assert_eq!(run.pos, 1);
    run.next(one_chain());
    run.next(RingReply::Written(true));
    run.next(RingReply::Used(true));
    run.next(RingReply::Signalled(true));
    assert_eq!(run.result(), Some(Ok(true)));
    assert_eq!(run.action(), None);

    let mut run = QueueRun::new(msgs);
    run.next(one_chain());
    run.next(RingReply::Written(false));
    assert_eq!(run.result(), Some(Err(VuSsrError::UnexpectedWriteDescriptorError)));
    assert_eq!(run.action(), None);
    assert_eq!(run.pos, 0);
}

#[test]
fn events_other_than_the_notify_event_are_ignored() {
    let backend = new_mockbackend().backend;
    assert_eq!(backend.handle_event(0, EventSet::IN.bits()), Ok(HandleStep::Ignore));
    assert_eq!(
        backend.handle_event(0x100, EventSet::IN.bits()),
        Ok(HandleStep::ProcessQueue(0))
    );
    assert_eq!(
        backend.handle_event(0x100, (EventSet::IN | EventSet::HANG_UP).bits()),
        Err(VuSsrError::HandleEventNotEpollIn)
    );
}

#[test]
fn an_exit_event_is_needed() {
    let ctx = Arc::new(Mutex::new(VhSsrCtx::new(bindings())));
    let none: Option<EventFd> = None;
    let backend: Result<VuSsrBackend<MockSsrClient, EventFd, Memory>, VuSsrError> =
        VuSsrBackend::new(vec![], ctx, none);
    assert!(matches!(backend, Err(VuSsrError::EventFdError)));
}

#[test]
fn clients_are_unregistered_in_order() {
    let ctx = Arc::new(Mutex::new(VhSsrCtx::new(bindings())));
    let mut clients: Vec<MockSsrClient> = ["CDSP", "SLPI", "ADSP"]
        .iter()
        .map(|name| MockSsrClient::new_default("p", name.to_string(), Arc::clone(&ctx), 0))
        .collect();
    clients[0].status = -1;
    clients[2].status = 4;
    let exit_event = EventFd::new(EFD_NONBLOCK).ok();
    let backend: VuSsrBackend<MockSsrClient, EventFd, Memory> =
        match VuSsrBackend::new(clients, ctx, exit_event) {
            Ok(backend) => backend,
            Err(e) => panic!("{:?}", e),
        };
    let mut run = backend.unregister_clients();
    let mut unregistered = Vec::new();
    let mut errors = Vec::new();
    while let Some(i) = run.action() {
        unregistered.push(i);
        errors.extend(run.next(backend.ssr_clients[i].unregister()));
    }
    assert_eq!(unregistered, vec![0, 1, 2]);
    assert_eq!(
        errors,
        vec![
            SsrClientError::UnregisterCallbackEvents("p:CDSP".to_string(), -1),
            SsrClientError::UnregisterCallbackEvents("p:ADSP".to_string(), 4),
        ]
    );
    assert_eq!(run.action(), None);
}

#[test]
fn a_header_is_done_with_before_the_next() {
    let first = VirtioSsrOutHdr::new("slpi".to_string(), 2);
    let second = VirtioSsrOutHdr::new("slpi".to_string(), 3);
    let mut run = QueueRun::new(vec![first.clone(), second.clone()]);
    let mut actions = Vec::new();
    while let Some(action) = run.action() {
        let reply = match action {
            RingAction::PopDescriptorChain => one_chain(),
            RingAction::WriteDescriptor { .. } => RingReply::Written(true),
            RingAction::AddUsed { .. } => RingReply::Used(true),
            RingAction::SignalUsedQueue => RingReply::Signalled(true),
        };
        actions.push(action);
        run.next(reply);
    }
    assert_eq!(
        actions,
        vec![
            RingAction::PopDescriptorChain,
            RingAction::WriteDescriptor { addr: 0x400, bytes: first.to_bytes() },
            RingAction::AddUsed { head_index: 7, len: 18 },
            RingAction::SignalUsedQueue,
            RingAction::PopDescriptorChain,
            RingAction::WriteDescriptor { addr: 0x400, bytes: second.to_bytes() },
            RingAction::AddUsed { head_index: 7, len: 18 },
            RingAction::SignalUsedQueue,
        ]
    );
}
