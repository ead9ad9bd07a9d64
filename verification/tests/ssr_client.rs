use vhost_device_ssr::ssr_client::{
    find_client, find_ssr_name, is_supported_client, ssr_virtio_event_handler,
    ssr_virtio_event_written, CallbackStep, SsrClientError, SsrVuClient, TriggerRequest, VhSsrCtx,
    NOTIFY_VALUE,
};
use vhost_device_ssr::ssr_clients_bindings::SsrBindings;
use vmm_sys_util::eventfd::{EventFd, EFD_NONBLOCK};

fn bindings() -> SsrBindings {
    SsrBindings {
        ss_id_lpass: 1,
        ss_id_modem: 2,
        ss_id_slpi: 8,
        ss_id_cdsp: 16,
        ss_id_cdsp1: 32,
        ss_id_gpdsp0: 64,
        ss_id_gpdsp1: 128,
        ss_id_adsp1: 256,
        ss_id_adsp2: 512,
        ss_id_cdsp2: 1024,
        ss_id_cdsp3: 2048,
        ss_id_hpassc0: 4096,
        ss_id_hpassc1: 8192,
        ss_id_hpassc2: 16384,
        magic_lpass: 0x100,
        magic_adsp1: 0x101,
        magic_adsp2: 0x102,
        magic_slpi: 0x103,
        magic_cdsp0: 0x104,
        magic_cdsp1: 0x105,
        magic_cdsp2: 0x106,
        magic_cdsp3: 0x107,
        magic_gpdsp0: 0x108,
        magic_gpdsp1: 0x109,
        magic_hpassc0: 0x10a,
        magic_hpassc1: 0x10b,
        magic_hpassc2: 0x10c,
        ssr_event_fault_notify: 1,
        ssr_event_restart_start: 2,
        ssr_event_restart_failed: 4,
        ssr_event_restart_complete: 8,
        ssr_event_pre_ds: 16,
        ssr_event_dummy: 32,
        ss_id_shift: 32,
    }
}

/// Calls the callback as the SSR client library does.
fn call_back(ctx: Option<&mut VhSsrCtx>, notify_fd: &EventFd, ss_id: u32, ssr_event: u32) -> i32 {
    match ssr_virtio_event_handler(ss_id, ssr_event, ctx) {
        CallbackStep::Return(status) => status,
        CallbackStep::Notify(value) => ssr_virtio_event_written(notify_fd.write(value).is_ok()),
    }
}

fn write_and_notify(ctx: &mut VhSsrCtx, notify_fd: &EventFd, ss_id: u32, ssr_event: u32) {
    if let Some(value) = ctx.write_and_notify(ss_id, ssr_event) {
        notify_fd.write(value).unwrap();
    }
}

fn reset(ctx: &VhSsrCtx, notify_fd: &EventFd) {
    if ctx.reset() {
        notify_fd.read().ok();
    }
}

#[test]
fn write_and_read_notify() {
    let b = bindings();
    let notify_fd = EventFd::new(EFD_NONBLOCK).unwrap();
    let mut ctx = VhSsrCtx::new(b);

    for _ in 0..10 {
        call_back(Some(&mut ctx), &notify_fd, b.ss_id_lpass, b.ssr_event_fault_notify);
    }

    assert_eq!(notify_fd.read().unwrap(), 16);
    for _ in 0..10 {
        assert_eq!(
            ctx.get_response(),
            Some(("adsp".to_string(), b.ssr_event_fault_notify))
        );
        reset(&ctx, &notify_fd);
    }
    assert_eq!(ctx.get_response(), None);
    assert_eq!(notify_fd.read().ok(), None);
}

#[test]
fn eventfd_stays_readable_while_events_are_pending() {
    let b = bindings();
    let notify_fd = EventFd::new(EFD_NONBLOCK).unwrap();
    let probe = notify_fd.try_clone().unwrap();
    let mut ctx = VhSsrCtx::new(b);
    for i in 0..10u32 {
        assert_eq!(call_back(Some(&mut ctx), &notify_fd, b.ss_id_cdsp, i), 0);
    }
    for i in 0..10u32 {
        // Each wake-up takes one event, the oldest.
        let value = probe.read().unwrap();
        assert_eq!(value, 16);
        probe.write(value).unwrap();
        assert_eq!(ctx.get_response(), Some(("cdsp".to_string(), i)));
        reset(&ctx, &notify_fd);
    }
    assert!(probe.read().is_err());
}

#[test]
fn callback_reports_its_status() {
    let b = bindings();
    let notify_fd = EventFd::new(EFD_NONBLOCK).unwrap();
    assert_eq!(call_back(None, &notify_fd, b.ss_id_cdsp, 1), -1);
    assert!(notify_fd.read().is_err());

    let mut ctx = VhSsrCtx::new(b);
    assert_eq!(
        ssr_virtio_event_handler(b.ss_id_cdsp, 1, Some(&mut ctx)),
        CallbackStep::Notify(NOTIFY_VALUE)
    );
    assert_eq!(
        ssr_virtio_event_handler(b.ss_id_cdsp, 1, Some(&mut ctx)),
        CallbackStep::Return(0)
    );
    assert_eq!(ssr_virtio_event_written(true), 0);
    assert_eq!(ssr_virtio_event_written(false), -1);

    // An eventfd that cannot be raised any further: the event stays pending.
    let full = EventFd::new(EFD_NONBLOCK).unwrap();
    full.write(u64::MAX - 1).unwrap();
    let mut ctx = VhSsrCtx::new(b);
    assert_eq!(call_back(Some(&mut ctx), &full, b.ss_id_cdsp, 1), -1);
    assert_eq!(ctx.pending_len(), 1);
}

#[test]
fn verify_ssr_vu_client() {
    let b = bindings();
    let client_name = "CDSP".to_string();
    let client_magic = find_client(&b, client_name.as_str()).unwrap().0;
    let client_id = find_client(&b, client_name.as_str()).unwrap().1;
    let event_bits: u32 = b.ssr_event_fault_notify
        | b.ssr_event_restart_start
        | b.ssr_event_restart_failed
        | b.ssr_event_pre_ds
        | b.ssr_event_dummy
        | b.ssr_event_restart_complete;

    let event_mask: u64 = ((client_id as u64) << (b.ss_id_shift as u64)) | (event_bits as u64);

    let client_ctx_ptr: usize = 0;
    let client = SsrVuClient::new(client_magic, client_name, event_mask, client_ctx_ptr);
    assert_eq!(client.get_priv_ptr(), client_ctx_ptr)
}

#[test]
fn verify_vh_ssr_ctx() {
    let b = bindings();
    let notify_fd = EventFd::new(EFD_NONBLOCK).unwrap();
    let mut ctx = VhSsrCtx::new(b);
    assert_eq!(ctx.pending_len(), 0);
    assert_eq!(ctx.get_response(), None);

    write_and_notify(&mut ctx, &notify_fd, b.ss_id_cdsp, 1);
    assert_eq!(ctx.pending_len(), 1);
    assert_eq!(notify_fd.read().ok(), Some(0x10));
    assert_eq!(ctx.get_response(), Some(("cdsp".to_string(), 1)));
    reset(&ctx, &notify_fd);
    assert_eq!(ctx.pending_len(), 0);
    assert_eq!(notify_fd.read().ok(), None);

    write_and_notify(&mut ctx, &notify_fd, b.ss_id_cdsp1, 1);
    write_and_notify(&mut ctx, &notify_fd, b.ss_id_gpdsp0, 2);
    write_and_notify(&mut ctx, &notify_fd, b.ss_id_gpdsp1, 3);
    assert_eq!(ctx.pending_len(), 3);
    // Only one eventfd write happens, when the queue stops being empty.
    assert_eq!(notify_fd.read().ok(), Some(0x10));
    assert_eq!(ctx.get_response(), Some(("cdsp1".to_string(), 1)));
    reset(&ctx, &notify_fd); // queue not empty yet, no eventfd read
    assert_eq!(notify_fd.read().ok(), None);
    assert_eq!(ctx.get_response(), Some(("gpdsp0".to_string(), 2)));
    reset(&ctx, &notify_fd); // queue not empty yet, no eventfd read
    assert_eq!(notify_fd.read().ok(), None);
    assert_eq!(ctx.get_response(), Some(("gpdsp1".to_string(), 3)));

    reset(&ctx, &notify_fd); // queue now empty, eventfd drained by reset
    assert_eq!(ctx.pending_len(), 0);
    assert_eq!(notify_fd.read().ok(), None);
}

#[test]
fn clients_are_found_by_name() {
    let b = bindings();
    let clients = [
        ("ADSP", 0x100, 1),
        ("ADSP1", 0x101, 256),
        ("ADSP2", 0x102, 512),
        ("SLPI", 0x103, 8),
        ("CDSP", 0x104, 16),
        ("CDSP1", 0x105, 32),
        ("CDSP2", 0x106, 1024),
        ("CDSP3", 0x107, 2048),
        ("GPDSP0", 0x108, 64),
        ("GPDSP1", 0x109, 128),
        ("HPASSC0", 0x10a, 4096),
        ("HPASSC1", 0x10b, 8192),
        ("HPASSC2", 0x10c, 16384),
    ];
    for (name, magic, ss_id) in clients {
        assert_eq!(find_client(&b, name), Some((magic, ss_id)));
        assert!(is_supported_client(name));
        assert!(find_ssr_name(&b, ss_id).is_some());
    }
    for name in ["", "cdsp", "CDSP4", "ADSP0", "MODEM", " CDSP", "CDSP "] {
        assert_eq!(find_client(&b, name), None);
        assert!(!is_supported_client(name));
    }
}

#[test]
fn subsystems_are_named_by_id() {
    let b = bindings();
    let names = [
        (1, "adsp"),
        (256, "adsp1"),
        (512, "adsp2"),
        (2, "modem"),
        (8, "slpi"),
        (16, "cdsp"),
        (32, "cdsp1"),
        (1024, "cdsp2"),
        (2048, "cdsp3"),
        (64, "gpdsp0"),
        (128, "gpdsp1"),
        (4096, "adsp"),
        (8192, "adsp1"),
        (16384, "adsp2"),
    ];
    for (ss_id, name) in names {
        assert_eq!(find_ssr_name(&b, ss_id), Some(name));
    }
    assert_eq!(find_ssr_name(&b, 3), None);

    // Of two subsystems with one id, the one listed last names it.
    let mut shared = b;
    shared.ss_id_hpassc1 = shared.ss_id_cdsp;
    assert_eq!(find_ssr_name(&shared, shared.ss_id_cdsp), Some("adsp1"));

    let mut ctx = VhSsrCtx::new(b);
    ctx.push_pending(3, 9);
    assert_eq!(ctx.get_response(), Some(("unknown client".to_string(), 9)));
}

#[test]
fn default_client_subscribes_to_all_events() {
    let b = bindings();
    let client = SsrVuClient::new_default(&b, "GPDSP1".to_string());
    assert_eq!(client.client_magic, 0x109);
    assert_eq!(client.client_name, "GPDSP1");
    assert_eq!(client.event_mask, 0x80_0000_003f);
    assert_eq!(client.get_priv_ptr(), 0);
}

#[test]
fn requests_and_statuses() {
    let b = bindings();
    let mut client = SsrVuClient::new_default(&b, "CDSP".to_string());
    let request = client.register_request("ssr");
    assert_eq!(request.client_magic, 0x104);
    assert_eq!(request.event_mask, 0x10_0000_003f);
    assert_eq!(request.name, "ssr:CDSP");

    assert_eq!(client.registered("ssr", 0xbeef, 0), Ok(0));
    assert_eq!(client.get_priv_ptr(), 0xbeef);
    assert_eq!(
        client.registered("ssr", 0, 5),
        Err(SsrClientError::RegisterCallbackEvents("ssr:CDSP".to_string()))
    );
    assert_eq!(client.get_priv_ptr(), 0);

    client.registered("ssr", 7, 0).unwrap();
    assert_eq!(
        client.trigger_request(),
        TriggerRequest { priv_data: 7, client_magic: 0x104 }
    );
    assert_eq!(client.triggered(0), Ok(0));
    assert_eq!(client.triggered(-1), Err(SsrClientError::TriggerSsr("CDSP".to_string())));
    assert_eq!(client.unregistered(0), Ok(0));
    assert_eq!(
        client.unregistered(-22),
        Err(SsrClientError::UnregisterCallbackEvents("CDSP".to_string(), -22))
    );
}

#[test]
fn supported_clients_can_register() {
    let names = [
        "ADSP", "ADSP1", "ADSP2", "SLPI", "CDSP", "CDSP1", "CDSP2", "CDSP3", "GPDSP0", "GPDSP1",
        "HPASSC0", "HPASSC1", "HPASSC2",
    ];
    for name in names {
        let client = SsrVuClient::new_default(&bindings(), name.to_string());
        let request = client.register_request("ssr");
        assert_eq!(request.name, format!("ssr:{}", name));
        assert!(!request.name.contains('\0'));
    }
}
