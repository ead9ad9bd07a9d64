//! Values of the platform's SSR (subsystem restart) client headers.
//!
//! The ids, magic numbers and event bits are defined by the C headers that come
//! with each platform. The library works for any of them: every function that
//! needs one takes it from an [`SsrBindings`].
use vstd::prelude::*;

verus! {

/// Id of a subsystem, as the SSR client library reports it.
#[allow(non_camel_case_types)]
pub type ssr_ss_id = u32;

/// SSR event, as the SSR client library reports it.
#[allow(non_camel_case_types)]
pub type ssr_events = u32;

/// The header constants of one platform.
#[derive(Clone, Copy, Debug, PartialEq, Eq, Structural)]
pub struct SsrBindings {
    pub ss_id_lpass: ssr_ss_id,
    pub ss_id_adsp1: ssr_ss_id,
    pub ss_id_adsp2: ssr_ss_id,
    pub ss_id_modem: ssr_ss_id,
    pub ss_id_slpi: ssr_ss_id,
    pub ss_id_cdsp: ssr_ss_id,
    pub ss_id_cdsp1: ssr_ss_id,
    pub ss_id_cdsp2: ssr_ss_id,
    pub ss_id_cdsp3: ssr_ss_id,
    pub ss_id_gpdsp0: ssr_ss_id,
    pub ss_id_gpdsp1: ssr_ss_id,
    pub ss_id_hpassc0: ssr_ss_id,
    pub ss_id_hpassc1: ssr_ss_id,
    pub ss_id_hpassc2: ssr_ss_id,
    pub magic_lpass: u64,
    pub magic_adsp1: u64,
    pub magic_adsp2: u64,
    pub magic_slpi: u64,
    pub magic_cdsp0: u64,
    pub magic_cdsp1: u64,
    pub magic_cdsp2: u64,
    pub magic_cdsp3: u64,
    pub magic_gpdsp0: u64,
    pub magic_gpdsp1: u64,
    pub magic_hpassc0: u64,
    pub magic_hpassc1: u64,
    pub magic_hpassc2: u64,
    pub ssr_event_fault_notify: ssr_events,
    pub ssr_event_restart_start: ssr_events,
    pub ssr_event_restart_failed: ssr_events,
    pub ssr_event_restart_complete: ssr_events,
    pub ssr_event_pre_ds: ssr_events,
    pub ssr_event_dummy: ssr_events,
    /// Position of the subsystem id in a 64-bit event mask.
    pub ss_id_shift: u32,
}

impl SsrBindings {
    /// The subsystem id starts inside the 64-bit event mask.
    pub open spec fn wf(self) -> bool {
        self.ss_id_shift < 64
    }

    /// Every event a client subscribes to, as one set of bits.
    pub open spec fn spec_event_bits(self) -> u32 {
        self.ssr_event_fault_notify | self.ssr_event_restart_start | self.ssr_event_restart_failed
            | self.ssr_event_pre_ds | self.ssr_event_dummy | self.ssr_event_restart_complete
    }

    /// Every event a client subscribes to, as one set of bits.
    pub fn event_bits(&self) -> (bits: u32)
        ensures
            bits == self.spec_event_bits(),
    {
        self.ssr_event_fault_notify | self.ssr_event_restart_start | self.ssr_event_restart_failed
            | self.ssr_event_pre_ds | self.ssr_event_dummy | self.ssr_event_restart_complete
    }
}

/// Every shift that leaves the subsystem id inside a 64-bit mask is allowed.
pub proof fn law_bindings_wf(b: SsrBindings)
    ensures
        b.wf() <==> b.ss_id_shift < 64,
{
}

} // verus!
