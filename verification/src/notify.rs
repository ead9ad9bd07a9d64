//! The pending events and their notify eventfd together.
//!
//! The device is woken as long as the eventfd can be read, and takes one event
//! for each wake-up, whose headers it hands to delivery. What is shown here is that
//! every event that was queued is pending or was taken, once, that events are taken
//! in the order in which they came, and that the device is woken exactly as long as
//! events are pending. Whether a header then reaches the guest is up to its ring.
use vstd::prelude::*;

use crate::ssr_client::{drains, notify_on, response_name, without_oldest, NOTIFY_VALUE};
use crate::ssr_clients_bindings::{ssr_events, ssr_ss_id, SsrBindings};
use crate::vhu_ssr::{notify_types, QcomSsrNotifyType};

verus! {

/// Pending events with the value of the notify eventfd, which can be read while
/// it is not zero.
pub struct Notified {
    pub pending: Seq<(ssr_ss_id, ssr_events)>,
    pub counter: nat,
}

/// What happens to the pending events.
pub enum NotifyStep {
    /// The callback queues an event, and a write to the eventfd succeeds.
    Queue(ssr_ss_id, ssr_events),
    /// The device takes a response and resets the eventfd.
    Take,
}

impl Notified {
    /// No event pending, and an eventfd that was never written.
    pub open spec fn start() -> Notified {
        Notified { pending: Seq::empty(), counter: 0 }
    }

    /// The eventfd is raised, once, exactly while events are pending.
    pub open spec fn in_step(self) -> bool {
        self.counter == if self.pending.len() > 0 {
            NOTIFY_VALUE as nat
        } else {
            0
        }
    }

    /// One step, as the operations of the context and of the eventfd have it: a
    /// write adds to the value, and a read sets it to zero.
    pub open spec fn after(self, step: NotifyStep) -> Notified {
        match step {
            NotifyStep::Queue(ss_id, ssr_event) => Notified {
                pending: self.pending.push((ss_id, ssr_event)),
                counter: match notify_on(self.pending) {
                    Some(value) => self.counter + value as nat,
                    None => self.counter,
                },
            },
            NotifyStep::Take => {
                let pending = without_oldest(self.pending);
                Notified {
                    pending,
                    counter: if drains(pending) {
                        0
                    } else {
                        self.counter
                    },
                }
            },
        }
    }

    /// All steps, one after the other.
    pub open spec fn after_all(self, steps: Seq<NotifyStep>) -> Notified
        decreases steps.len(),
    {
        if steps.len() == 0 {
            self
        } else {
            self.after_all(steps.drop_last()).after(steps.last())
        }
    }

    /// The events that the steps take, in order.
    pub open spec fn taken(self, steps: Seq<NotifyStep>) -> Seq<(ssr_ss_id, ssr_events)>
        decreases steps.len(),
    {
        if steps.len() == 0 {
            Seq::empty()
        } else {
            let pending = self.after_all(steps.drop_last()).pending;
            let before = self.taken(steps.drop_last());
            if steps.last() is Take && pending.len() > 0 {
                before.push(pending[0])
            } else {
                before
            }
        }
    }
}

/// The events that the steps queue, in order.
pub open spec fn queued(steps: Seq<NotifyStep>) -> Seq<(ssr_ss_id, ssr_events)>
    decreases steps.len(),
{
    if steps.len() == 0 {
        Seq::empty()
    } else {
        match steps.last() {
            NotifyStep::Queue(ss_id, ssr_event) => queued(steps.drop_last()).push(
                (ss_id, ssr_event),
            ),
            NotifyStep::Take => queued(steps.drop_last()),
        }
    }
}

/// Events come out in the order in which they came in, each exactly once: those
/// taken, followed by those pending, are those queued.
pub proof fn law_fifo(steps: Seq<NotifyStep>)
    ensures
        Notified::start().taken(steps) + Notified::start().after_all(steps).pending == queued(
            steps,
        ),
    decreases steps.len(),
{
    let start = Notified::start();
    if steps.len() > 0 {
        let init = steps.drop_last();
        law_fifo(init);
        let pending = start.after_all(init).pending;
        let taken = start.taken(init);
        match steps.last() {
            NotifyStep::Queue(ss_id, ssr_event) => {
                assert(taken + pending.push((ss_id, ssr_event)) =~= (taken + pending).push(
                    (ss_id, ssr_event),
                ));
            },
            NotifyStep::Take => {
                if pending.len() > 0 {
                    assert(taken.push(pending[0]) + pending.drop_first() =~= taken + pending);
                }
            },
        }
    } else {
        assert(start.taken(steps) + start.after_all(steps).pending =~= queued(steps));
    }
}

/// The eventfd is raised exactly while events are pending: no event waits
/// without waking the device, and no wake-up goes on without an event.
pub proof fn law_woken_while_pending(steps: Seq<NotifyStep>)
    ensures
        Notified::start().after_all(steps).in_step(),
        Notified::start().after_all(steps).counter > 0 <==> Notified::start().after_all(
            steps,
        ).pending.len() > 0,
    decreases steps.len(),
{
    if steps.len() > 0 {
        law_woken_while_pending(steps.drop_last());
    }
}

/// As many wake-ups as there are events pending take them all, oldest first,
/// and leave the eventfd unreadable.
pub proof fn law_takes_all(s: Notified, n: nat)
    requires
        s.in_step(),
        n <= s.pending.len(),
    ensures
        ({
            let takes = Seq::new(n, |i: int| NotifyStep::Take);
            &&& s.taken(takes) == s.pending.take(n as int)
            &&& s.after_all(takes).pending == s.pending.skip(n as int)
            &&& s.after_all(takes).in_step()
        }),
    decreases n,
{
    let takes = Seq::new(n, |i: int| NotifyStep::Take);
    if n == 0 {
        assert(s.taken(takes) =~= s.pending.take(0));
        assert(s.after_all(takes).pending =~= s.pending.skip(0));
    } else {
        let m = (n - 1) as nat;
        let init = Seq::new(m, |i: int| NotifyStep::Take);
        law_takes_all(s, m);
        assert(takes.drop_last() =~= init);
        assert(s.pending.skip(m as int)[0] == s.pending[m as int]);
        assert(s.pending.take(m as int).push(s.pending[m as int]) =~= s.pending.take(n as int));
        assert(s.pending.skip(m as int).drop_first() =~= s.pending.skip(n as int));
    }
}

/// What is handed to delivery for one event: the name of its subsystem with each
/// step of the restart.
pub open spec fn handed_for(b: SsrBindings, event: (ssr_ss_id, ssr_events)) -> Seq<
    (Seq<char>, QcomSsrNotifyType),
> {
    match notify_types(b, event.1) {
        Some(types) => types.map_values(
            |event_type: QcomSsrNotifyType| (response_name(b, event.0), event_type),
        ),
        None => Seq::empty(),
    }
}

/// What is handed to delivery for events, one after the other.
pub open spec fn handed(b: SsrBindings, events: Seq<(ssr_ss_id, ssr_events)>) -> Seq<
    (Seq<char>, QcomSsrNotifyType),
>
    decreases events.len(),
{
    if events.len() == 0 {
        Seq::empty()
    } else {
        handed(b, events.drop_last()) + handed_for(b, events.last())
    }
}

proof fn lemma_handed_concat(
    b: SsrBindings,
    first: Seq<(ssr_ss_id, ssr_events)>,
    second: Seq<(ssr_ss_id, ssr_events)>,
)
    ensures
        handed(b, first + second) == handed(b, first) + handed(b, second),
    decreases second.len(),
{
    if second.len() == 0 {
        assert(first + second =~= first);
        assert(handed(b, first) + handed(b, second) =~= handed(b, first));
    } else {
        let init = second.drop_last();
        lemma_handed_concat(b, first, init);
        assert((first + second).drop_last() =~= first + init);
        assert((first + second).last() == second.last());
        assert(handed(b, first) + handed(b, init) + handed_for(b, second.last()) =~= handed(b, first) + (
        handed(b, init) + handed_for(b, second.last())));
    }
}

/// Events are handed to delivery in the order in which they came: what was handed
/// for those taken, followed by what is still to be handed for those pending, is
/// what those queued call for.
pub proof fn law_handed_in_order(b: SsrBindings, steps: Seq<NotifyStep>)
    ensures
        handed(b, Notified::start().taken(steps)) + handed(
            b,
            Notified::start().after_all(steps).pending,
        ) == handed(b, queued(steps)),
{
    law_fifo(steps);
    lemma_handed_concat(
        b,
        Notified::start().taken(steps),
        Notified::start().after_all(steps).pending,
    );
}

} // verus!
