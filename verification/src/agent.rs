//! The bookkeeping of the agent that runs the transfers of a client.
//!
//! The agent keeps the transfers that were submitted in a queue until there is room for
//! them, and the transfers that the driver is running in a set. It never runs more
//! transfers at once than the client allows, in all and to one host. What the driver
//! reports of a transfer is handed on to the handler of that transfer.
//!
//! The agent does not wait and does not talk to the driver. The loop around it does: it
//! submits, admits for as long as a transfer is admitted, has the driver register what was
//! admitted, polls the driver, hands on what the driver reports, cancels what is to be
//! cancelled, and waits.

use crate::body::{AsyncBody, Copying, Writer};
use crate::config::RedirectPolicy;
use crate::error::ErrorKind;
use crate::handler::{ConnectionInfo, Download, HandlerView, TransferHandler, Upload};
use crate::pipe::PipeRead;
use crate::response::{Metrics, Response};
use crate::text::{ascii_lower, lowered, same_text};
use vstd::prelude::*;
use vstd::string::*;

verus! {

/// The host that a transfer goes to: its scheme, its name and its port.
#[derive(Clone, Debug, PartialEq, Eq)]
pub struct HostKey {
    /// The scheme, such as `http`.
    pub scheme: String,
    /// The name or the address of the host.
    pub host: String,
    /// The port.
    pub port: u16,
}

/// A [`HostKey`] as a mathematical value.
pub struct HostView {
    pub scheme: Seq<char>,
    pub host: Seq<char>,
    pub port: u16,
}

impl View for HostKey {
    type V = HostView;

    open spec fn view(&self) -> HostView {
        HostView { scheme: self.scheme@, host: self.host@, port: self.port }
    }
}

/// The text, where there is one.
pub open spec fn text_of(text: Option<&str>) -> Option<Seq<char>> {
    match text {
        Some(text) => Some(text@),
        None => None,
    }
}

impl HostKey {
    /// The key of the host that a request goes to, from the parts of its URI.
    ///
    /// Scheme and host are taken in lower case. A request without a scheme goes by `http`.
    /// Where the URI names no port, the port is that of the scheme: 443 for `https`, and 80
    /// for every other scheme.
    pub open spec fn of_parts(
        scheme: Option<Seq<char>>,
        host: Option<Seq<char>>,
        port: Option<u16>,
    ) -> HostView {
        let scheme = lowered(
            match scheme {
                Some(scheme) => scheme,
                None => "http"@,
            },
        );
        HostView {
            scheme,
            host: lowered(
                match host {
                    Some(host) => host,
                    None => Seq::empty(),
                },
            ),
            port: match port {
                Some(port) => port,
                None => if scheme == "https"@ {
                    443u16
                } else {
                    80u16
                },
            },
        }
    }

    /// Returns the key of the host that a request goes to, from the parts of its URI, as
    /// [`HostKey::of_parts`] says.
    pub fn from_parts(scheme: Option<&str>, host: Option<&str>, port: Option<u16>) -> (key: HostKey)
        ensures
            key@ == HostKey::of_parts(text_of(scheme), text_of(host), port),
    {
        let scheme = match scheme {
            Some(scheme) => ascii_lower(scheme),
            None => ascii_lower("http"),
        };
        let host = match host {
            Some(host) => ascii_lower(host),
            None => {
                proof {
                    reveal_strlit("");
                    assert(lowered(""@) =~= Seq::<char>::empty());
                    assert(lowered(Seq::<char>::empty()) =~= Seq::<char>::empty());
                }
                ascii_lower("")
            },
        };
        let port = match port {
            Some(port) => port,
            None => {
                if same_text(scheme.as_str(), "https") {
                    443
                } else {
                    80
                }
            },
        };
        HostKey { scheme, host, port }
    }

    /// Tells whether two keys stand for the same host.
    pub fn same(&self, other: &HostKey) -> (same: bool)
        ensures
            same == (self@ == other@),
    {
        self.port == other.port && same_text(self.scheme.as_str(), other.scheme.as_str())
            && same_text(self.host.as_str(), other.host.as_str())
    }
}

/// The number of failures of the driver in a row that end every transfer.
pub const MAX_POLL_FAILURES: u32 = 16;

/// The limits that a client sets to its agent.
#[derive(Clone, Copy, Debug, PartialEq, Eq, Structural)]
pub struct Limits {
    /// The number of transfers that run at once at most; zero stands for no limit.
    pub max_connections: usize,
    /// The number of transfers that run at once to one host at most; zero stands for no
    /// limit.
    pub max_connections_per_host: usize,
    /// The number of transfers that wait in the queue at most; zero stands for no limit.
    pub max_pending: usize,
}

/// A transfer with the host that it goes to.
pub struct Slot {
    host: HostKey,
    handler: TransferHandler,
}

/// A [`Slot`] as a mathematical value.
pub struct SlotView {
    /// The host that the transfer goes to.
    pub host: HostView,
    /// The handler of the transfer.
    pub handler: HandlerView,
}

impl View for Slot {
    type V = SlotView;

    closed spec fn view(&self) -> SlotView {
        SlotView { host: self.host@, handler: self.handler@ }
    }
}

/// The slots as mathematical values.
pub open spec fn slot_views(slots: Seq<Slot>) -> Seq<SlotView> {
    slots.map_values(|slot: Slot| slot@)
}

/// The number of transfers in a list that go to a host.
pub open spec fn host_count(slots: Seq<SlotView>, host: HostView) -> nat
    decreases slots.len(),
{
    if slots.len() == 0 {
        0
    } else {
        host_count(slots.drop_last(), host) + if slots.last().host == host {
            1nat
        } else {
            0nat
        }
    }
}

/// The index of the first transfer in a list that has the number `id`, and the length of
/// the list where there is none.
pub open spec fn index_of(slots: Seq<SlotView>, id: u64, from: int) -> int
    decreases slots.len() - from,
{
    if from < 0 || from >= slots.len() {
        slots.len() as int
    } else if slots[from].handler.id == id {
        from
    } else {
        index_of(slots, id, from + 1)
    }
}

/// An agent as a mathematical value.
pub struct AgentView {
    /// The limits of the agent.
    pub limits: Limits,
    /// The transfers that the driver is running.
    pub active: Seq<SlotView>,
    /// The transfers that wait to be admitted, the one that was submitted first in front.
    pub pending: Seq<SlotView>,
    /// The number that the next transfer gets.
    pub next_id: u64,
    /// Whether the agent is shutting down.
    pub shutdown: bool,
    /// How many times in a row the driver has failed to move the transfers.
    pub poll_failures: u32,
}

impl AgentView {
    /// Whether no more transfers run than the limits allow, in all and to each host.
    pub open spec fn within_limits(self) -> bool {
        &&& self.limits.max_connections > 0 ==> self.active.len() <= self.limits.max_connections
        &&& self.limits.max_connections_per_host > 0 ==> forall|host: HostView|
            #[trigger] host_count(self.active, host) <= self.limits.max_connections_per_host
    }

    /// What a transfer that is submitted is told: its number, or why it is refused.
    pub open spec fn submitted(self) -> Result<u64, ErrorKind> {
        if self.shutdown {
            Err(ErrorKind::Canceled)
        } else if (self.limits.max_pending > 0 && self.pending.len() >= self.limits.max_pending)
            || self.next_id == u64::MAX {
            Err(ErrorKind::TooManyConnections)
        } else {
            Ok(self.next_id)
        }
    }

    /// Whether there is room for one more transfer to a host.
    pub open spec fn has_room(self, host: HostView) -> bool {
        &&& self.limits.max_connections == 0 || self.active.len() < self.limits.max_connections
        &&& self.limits.max_connections_per_host == 0 || host_count(self.active, host)
            < self.limits.max_connections_per_host
    }

    /// The index of the first transfer in the queue from `from` on that there is room for,
    /// and the length of the queue where there is none.
    pub open spec fn next_admissible(self, from: int) -> int
        decreases self.pending.len() - from,
    {
        if from < 0 || from >= self.pending.len() {
            self.pending.len() as int
        } else if self.has_room(self.pending[from].host) {
            from
        } else {
            self.next_admissible(from + 1)
        }
    }

    /// The index in the queue of the transfer that is admitted next, where one is: the
    /// first that there is room for, unless the agent is shutting down.
    pub open spec fn admitted(self) -> Option<int> {
        if self.shutdown || self.next_admissible(0) >= self.pending.len() {
            None
        } else {
            Some(self.next_admissible(0))
        }
    }

    /// The agent after the transfer at the index `i` of the queue was admitted: the
    /// transfer has left the queue, in which the others keep their order, and runs.
    pub open spec fn after_admit(self, i: int) -> AgentView {
        AgentView {
            pending: self.pending.remove(i),
            active: self.active.push(
                SlotView { handler: self.pending[i].handler.activated(), ..self.pending[i] },
            ),
            ..self
        }
    }

    /// Whether `after` and `ids` are what comes of the agent when every transfer that runs
    /// is ended with a failure: the shutdown latch is set, each of the transfers has taken
    /// the failure, and `ids` holds their numbers in their order.
    pub open spec fn aborted(self, failure: ErrorKind, after: AgentView, ids: Seq<u64>) -> bool {
        &&& after == (AgentView { shutdown: true, active: after.active, ..self })
        &&& after.active.len() == self.active.len()
        &&& ids.len() == self.active.len()
        &&& forall|i: int|
            0 <= i < self.active.len() ==> {
                &&& ids[i] == (#[trigger] self.active[i]).handler.id
                &&& after.active[i].host == self.active[i].host
                &&& self.active[i].handler.complete_step(Some(failure), after.active[i].handler)
            }
    }

    /// The agent with another handler in place of that of the running transfer at the
    /// index `i`.
    pub open spec fn with_handler(self, i: int, handler: HandlerView) -> AgentView {
        AgentView {
            active: self.active.update(i, SlotView { handler, ..self.active[i] }),
            ..self
        }
    }
}

/// The transfers of a client, and the limits that they are run within.
pub struct Agent {
    limits: Limits,
    active: Vec<Slot>,
    pending: Vec<Slot>,
    next_id: u64,
    shutdown: bool,
    poll_failures: u32,
}

impl View for Agent {
    type V = AgentView;

    closed spec fn view(&self) -> AgentView {
        AgentView {
            limits: self.limits,
            active: slot_views(self.active@),
            pending: slot_views(self.pending@),
            next_id: self.next_id,
            shutdown: self.shutdown,
            poll_failures: self.poll_failures,
        }
    }
}

/// A list with one more transfer has one more transfer to the host of that transfer, and
/// as many to every other host.
pub proof fn lemma_host_count_push(slots: Seq<SlotView>, slot: SlotView, host: HostView)
    ensures
        host_count(slots.push(slot), host) == host_count(slots, host) + if slot.host == host {
            1nat
        } else {
            0nat
        },
{
    assert(slots.push(slot).drop_last() =~= slots);
}

/// A list without one of its transfers has no more transfers to any host than before.
pub proof fn lemma_host_count_remove(slots: Seq<SlotView>, i: int, host: HostView)
    requires
        0 <= i < slots.len(),
    ensures
        host_count(slots.remove(i), host) <= host_count(slots, host),
    decreases slots.len(),
{
    if i == slots.len() - 1 {
        assert(slots.remove(i) =~= slots.drop_last());
    } else {
        assert(slots.remove(i).drop_last() =~= slots.drop_last().remove(i));
        assert(slots.remove(i).last() == slots.last());
        lemma_host_count_remove(slots.drop_last(), i, host);
    }
}

/// A list in which a transfer has another handler has as many transfers to every host as
/// before.
pub proof fn lemma_host_count_update(slots: Seq<SlotView>, i: int, handler: HandlerView, host: HostView)
    requires
        0 <= i < slots.len(),
    ensures
        host_count(slots.update(i, SlotView { handler, ..slots[i] }), host) == host_count(
            slots,
            host,
        ),
    decreases slots.len(),
{
    let updated = slots.update(i, SlotView { handler, ..slots[i] });
    if i == slots.len() - 1 {
        assert(updated.drop_last() =~= slots.drop_last());
    } else {
        assert(updated.drop_last() =~= slots.drop_last().update(
            i,
            SlotView { handler, ..slots.drop_last()[i] },
        ));
        lemma_host_count_update(slots.drop_last(), i, handler, host);
    }
}

impl Agent {
    /// The invariant of an agent: the handlers of its transfers are well formed, the
    /// transfers in the queue wait to be admitted, every transfer has a number of its own
    /// that is smaller than the next number, and no more transfers run than the limits
    /// allow.
    pub closed spec fn wf(&self) -> bool {
        &&& forall|i: int| 0 <= i < self.active@.len() ==> (#[trigger] self.active@[i]).handler.wf()
        &&& forall|i: int|
            0 <= i < self.pending@.len() ==> (#[trigger] self.pending@[i]).handler.wf()
                && self.pending@[i].handler@.state is Pending
        &&& forall|i: int|
            0 <= i < self.active@.len() ==> (#[trigger] self.active@[i]).handler@.id < self.next_id
        &&& forall|i: int|
            0 <= i < self.pending@.len() ==> (#[trigger] self.pending@[i]).handler@.id
                < self.next_id
        &&& forall|i: int, j: int|
            0 <= i < j < self.active@.len() ==> (#[trigger] self.active@[i]).handler@.id != (
            #[trigger] self.active@[j]).handler@.id
        &&& forall|i: int, j: int|
            0 <= i < j < self.pending@.len() ==> (#[trigger] self.pending@[i]).handler@.id != (
            #[trigger] self.pending@[j]).handler@.id
        &&& forall|i: int, j: int|
            0 <= i < self.active@.len() && 0 <= j < self.pending@.len() ==> (
            #[trigger] self.active@[i]).handler@.id != (#[trigger] self.pending@[j]).handler@.id
        &&& self@.within_limits()
    }

    /// At any moment no more transfers run than the limits allow: where the number of
    /// connections is limited, no more transfers run than that, and the transfers behind
    /// them wait in the queue; where the number of connections to one host is limited, no
    /// more transfers run to any host than that.
    pub proof fn lemma_within_limits(&self)
        requires
            self.wf(),
        ensures
            self@.limits.max_connections > 0 ==> self@.active.len()
                <= self@.limits.max_connections,
            self@.limits.max_connections_per_host > 0 ==> forall|host: HostView|
                #[trigger] host_count(self@.active, host) <= self@.limits.max_connections_per_host,
    {
    }

    /// The transfers of an agent are told apart by their numbers: no two of them have the
    /// same, and every number is smaller than the one that the next transfer gets.
    pub proof fn lemma_ids_distinct(&self)
        requires
            self.wf(),
        ensures
            forall|i: int, j: int|
                0 <= i < j < self@.active.len() ==> (#[trigger] self@.active[i]).handler.id != (
                #[trigger] self@.active[j]).handler.id,
            forall|i: int, j: int|
                0 <= i < j < self@.pending.len() ==> (#[trigger] self@.pending[i]).handler.id != (
                #[trigger] self@.pending[j]).handler.id,
            forall|i: int, j: int|
                0 <= i < self@.active.len() && 0 <= j < self@.pending.len() ==> (
                #[trigger] self@.active[i]).handler.id != (#[trigger] self@.pending[j]).handler.id,
            forall|i: int|
                0 <= i < self@.pending.len() ==> (#[trigger] self@.pending[i]).handler.state
                    is Pending,
    {
        assert forall|i: int, j: int| 0 <= i < j < self@.active.len() implies (
        #[trigger] self@.active[i]).handler.id != (#[trigger] self@.active[j]).handler.id by {
            assert(self.active@[i].handler@.id != self.active@[j].handler@.id);
        }
        assert forall|i: int, j: int| 0 <= i < j < self@.pending.len() implies (
        #[trigger] self@.pending[i]).handler.id != (#[trigger] self@.pending[j]).handler.id by {
            assert(self.pending@[i].handler@.id != self.pending@[j].handler@.id);
        }
        assert forall|i: int, j: int|
            0 <= i < self@.active.len() && 0 <= j < self@.pending.len() implies (
        #[trigger] self@.active[i]).handler.id != (#[trigger] self@.pending[j]).handler.id by {
            assert(self.active@[i].handler@.id != self.pending@[j].handler@.id);
        }
        assert forall|i: int| 0 <= i < self@.pending.len() implies (
        #[trigger] self@.pending[i]).handler.state is Pending by {
            assert(self.pending@[i].handler@.state is Pending);
        }
    }

    /// Creates an agent without transfers.
    pub fn new(limits: Limits) -> (agent: Agent)
        ensures
            agent.wf(),
            agent@ == (AgentView {
                limits,
                active: Seq::empty(),
                pending: Seq::empty(),
                next_id: 0,
                shutdown: false,
                poll_failures: 0,
            }),
    {
        let agent = Agent {
            limits,
            active: Vec::new(),
            pending: Vec::new(),
            next_id: 0,
            shutdown: false,
            poll_failures: 0,
        };
        proof {
            assert(slot_views(agent.active@) =~= Seq::<SlotView>::empty());
            assert(slot_views(agent.pending@) =~= Seq::<SlotView>::empty());
            assert forall|host: HostView| #[trigger]
                host_count(agent@.active, host) <= limits.max_connections_per_host by {}
        }
        agent
    }

    /// Returns the limits of the agent.
    pub fn limits(&self) -> (limits: Limits)
        ensures
            limits == self@.limits,
    {
        self.limits
    }

    /// Returns the number of transfers that the driver is running.
    pub fn active_count(&self) -> (count: usize)
        ensures
            count == self@.active.len(),
    {
        self.active.len()
    }

    /// Returns the number of transfers that wait to be admitted.
    pub fn pending_count(&self) -> (count: usize)
        ensures
            count == self@.pending.len(),
    {
        self.pending.len()
    }

    /// Tells whether the agent is shutting down.
    pub fn is_shutting_down(&self) -> (shutdown: bool)
        ensures
            shutdown == self@.shutdown,
    {
        self.shutdown
    }

    /// Counts the transfers to a host that the driver is running.
    pub fn active_on(&self, host: &HostKey) -> (count: usize)
        ensures
            count == host_count(self@.active, host@),
    {
        let mut count: usize = 0;
        let mut i: usize = 0;
        proof {
            assert(self@.active.take(0) =~= Seq::<SlotView>::empty());
        }
        while i < self.active.len()
            invariant
                i <= self.active.len(),
                count == host_count(self@.active.take(i as int), host@),
                count <= i,
            decreases self.active.len() - i,
        {
            proof {
                assert(self@.active.take(i + 1).drop_last() =~= self@.active.take(i as int));
                assert(self@.active.take(i + 1).last() == self.active@[i as int]@);
            }
            if self.active[i].host.same(host) {
                count = count + 1;
            }
            i = i + 1;
        }
        proof {
            assert(self@.active.take(self.active.len() as int) =~= self@.active);
        }
        count
    }

    /// Tells whether there is room for one more transfer to a host.
    pub fn has_room(&self, host: &HostKey) -> (room: bool)
        ensures
            room == self@.has_room(host@),
    {
        (self.limits.max_connections == 0 || self.active.len() < self.limits.max_connections) && (
        self.limits.max_connections_per_host == 0 || self.active_on(host)
            < self.limits.max_connections_per_host)
    }

    /// Takes a transfer into the queue and returns its number.
    ///
    /// The transfer is refused as `Canceled` where the agent is shutting down, and as
    /// `TooManyConnections` where the queue is bounded and full, or the agent has no number
    /// left for the transfer. Exceeding a limit on the transfers that run does not refuse a
    /// transfer: it waits.
    pub fn submit(&mut self, host: HostKey, body: AsyncBody, policy: RedirectPolicy, metrics: bool) -> (result: Result<u64, ErrorKind>)
        requires
            old(self).wf(),
            body.wf(),
        ensures
            final(self).wf(),
            result == old(self)@.submitted(),
            final(self)@ == match result {
                Ok(id) => AgentView {
                    pending: old(self)@.pending.push(
                        SlotView {
                            host: host@,
                            handler: HandlerView::fresh(id, body@, policy, metrics),
                        },
                    ),
                    next_id: (id + 1) as u64,
                    ..old(self)@
                },
                Err(_) => old(self)@,
            },
    {
        if self.shutdown {
            return Err(ErrorKind::Canceled);
        }
        if self.limits.max_pending > 0 && self.pending.len() >= self.limits.max_pending {
            return Err(ErrorKind::TooManyConnections);
        }
        if self.next_id == u64::MAX {
            return Err(ErrorKind::TooManyConnections);
        }
        let id = self.next_id;
        let handler = TransferHandler::new(id, body, policy, metrics);
        let ghost before = self.pending@;
        self.pending.push(Slot { host, handler });
        self.next_id = id + 1;
        proof {
            assert(slot_views(self.pending@) =~= slot_views(before).push(self.pending@.last()@));
            assert forall|i: int| 0 <= i < self.pending@.len() implies (
            #[trigger] self.pending@[i]).handler.wf() && self.pending@[i].handler@.state
                is Pending by {
                if i < before.len() {
                    assert(before[i].handler.wf());
                }
            }
            assert forall|i: int| 0 <= i < self.pending@.len() implies (
            #[trigger] self.pending@[i]).handler@.id < self.next_id by {
                if i < before.len() {
                    assert(before[i].handler@.id < id);
                }
            }
            assert forall|i: int, j: int| 0 <= i < j < self.pending@.len() implies (
            #[trigger] self.pending@[i]).handler@.id != (
            #[trigger] self.pending@[j]).handler@.id by {
                assert(before[i].handler@.id < id);
                if j < before.len() {
                    assert(before[i].handler@.id != before[j].handler@.id);
                }
            }
            assert forall|i: int, j: int|
                0 <= i < self.active@.len() && 0 <= j < self.pending@.len() implies (
            #[trigger] self.active@[i]).handler@.id != (
            #[trigger] self.pending@[j]).handler@.id by {
                assert(self.active@[i].handler@.id < id);
                if j < before.len() {
                    assert(self.active@[i].handler@.id != before[j].handler@.id);
                }
            }
        }
        Ok(id)
    }

    /// Finds the first transfer in the queue that there is room for.
    fn find_admissible(&self) -> (index: usize)
        ensures
            index == self@.next_admissible(0),
            index <= self@.pending.len(),
    {
        let mut i: usize = 0;
        while i < self.pending.len()
            invariant
                i <= self.pending.len(),
                self@.next_admissible(0) == self@.next_admissible(i as int),
            decreases self.pending.len() - i,
        {
            if self.has_room(&self.pending[i].host) {
                return i;
            }
            i = i + 1;
        }
        i
    }

    /// Admits the next transfer, where there is one to admit, and returns its number.
    ///
    /// The transfer that is admitted is the first in the queue that there is room for, in
    /// all and to its host; a transfer whose host has no room is passed over, and keeps
    /// its place. No transfer is admitted where there is room for none, and where the
    /// agent is shutting down.
    pub fn admit_next(&mut self) -> (admitted: Option<u64>)
        requires
            old(self).wf(),
        ensures
            final(self).wf(),
            match old(self)@.admitted() {
                Some(i) => {
                    &&& 0 <= i < old(self)@.pending.len()
                    &&& admitted == Some(old(self)@.pending[i].handler.id)
                    &&& final(self)@ == old(self)@.after_admit(i)
                },
                None => admitted is None && final(self)@ == old(self)@,
            },
    {
        if self.shutdown {
            return None;
        }
        let i = self.find_admissible();
        if i >= self.pending.len() {
            return None;
        }
        let ghost before_pending = self.pending@;
        let ghost before_active = self.active@;
        let ghost view = self@;
        proof {
            assert(view.has_room(view.pending[i as int].host)) by {
                lemma_next_admissible(view, 0);
            }
        }
        let mut slot = self.pending.remove(i);
        assert(slot == before_pending[i as int]);
        slot.handler.activate();
        let id = slot.handler.id();
        self.active.push(slot);
        proof {
            assert(slot_views(self.pending@) =~= view.pending.remove(i as int));
            assert(slot_views(self.active@) =~= view.active.push(
                SlotView {
                    handler: view.pending[i as int].handler.activated(),
                    ..view.pending[i as int]
                },
            ));
            assert forall|k: int| 0 <= k < self.pending@.len() implies (
            #[trigger] self.pending@[k]).handler.wf() && self.pending@[k].handler@.state
                is Pending && self.pending@[k].handler@.id < self.next_id by {
                if k < i {
                    assert(before_pending[k].handler.wf());
                } else {
                    assert(before_pending[k + 1].handler.wf());
                }
            }
            assert forall|k: int| 0 <= k < self.active@.len() implies (
            #[trigger] self.active@[k]).handler.wf() && self.active@[k].handler@.id
                < self.next_id by {
                if k < before_active.len() {
                    assert(before_active[k].handler.wf());
                } else {
                    assert(before_pending[i as int].handler.wf());
                }
            }
            assert forall|k: int, j: int| 0 <= k < j < self.pending@.len() implies (
            #[trigger] self.pending@[k]).handler@.id != (
            #[trigger] self.pending@[j]).handler@.id by {
                let a = if k < i { k } else { k + 1 };
                let b = if j < i { j } else { j + 1 };
                assert(before_pending[a].handler@.id != before_pending[b].handler@.id);
            }
            assert forall|k: int, j: int| 0 <= k < j < self.active@.len() implies (
            #[trigger] self.active@[k]).handler@.id != (
            #[trigger] self.active@[j]).handler@.id by {
                if j < before_active.len() {
                    assert(before_active[k].handler@.id != before_active[j].handler@.id);
                } else {
                    assert(before_active[k].handler@.id != before_pending[i as int].handler@.id);
                }
            }
            assert forall|k: int, j: int|
                0 <= k < self.active@.len() && 0 <= j < self.pending@.len() implies (
            #[trigger] self.active@[k]).handler@.id != (
            #[trigger] self.pending@[j]).handler@.id by {
                let b = if j < i { j } else { j + 1 };
                if k < before_active.len() {
                    assert(before_active[k].handler@.id != before_pending[b].handler@.id);
                } else {
                    if b < i {
                        assert(before_pending[b].handler@.id != before_pending[i as int].handler@.id);
                    } else {
                        assert(before_pending[i as int].handler@.id != before_pending[b].handler@.id);
                    }
                }
            }
            let admitted = SlotView {
                handler: view.pending[i as int].handler.activated(),
                ..view.pending[i as int]
            };
            assert forall|host: HostView|
                self.limits.max_connections_per_host > 0 implies #[trigger] host_count(
                self@.active,
                host,
            ) <= self.limits.max_connections_per_host by {
                lemma_host_count_push(view.active, admitted, host);
                assert(host_count(view.active, host) <= self.limits.max_connections_per_host);
            }
        }
        Some(id)
    }

    /// Finds the running transfer with a number.
    fn find_active(&self, id: u64) -> (index: usize)
        ensures
            index == index_of(self@.active, id, 0),
            index <= self@.active.len(),
            index < self@.active.len() ==> self@.active[index as int].handler.id == id,
    {
        let mut i: usize = 0;
        while i < self.active.len()
            invariant
                i <= self.active.len(),
                index_of(self@.active, id, 0) == index_of(self@.active, id, i as int),
            decreases self.active.len() - i,
        {
            if self.active[i].handler.id() == id {
                return i;
            }
            i = i + 1;
        }
        i
    }

    /// Tells whether the driver is running a transfer with the number `id`.
    pub fn is_active(&self, id: u64) -> (active: bool)
        ensures
            active == (index_of(self@.active, id, 0) < self@.active.len()),
    {
        self.find_active(id) < self.active.len()
    }

    /// Hands a line of the response head on to the handler of a running transfer, as
    /// [`TransferHandler::accept_header`] takes it. Returns whether the transfer goes on,
    /// which a transfer that is not running does not.
    pub fn on_header(&mut self, id: u64, line: &[u8]) -> (goes_on: bool)
        requires
            old(self).wf(),
        ensures
            final(self).wf(),
            ({
                let i = index_of(old(self)@.active, id, 0);
                if i < old(self)@.active.len() {
                    &&& final(self)@ == old(self)@.with_handler(i, final(self)@.active[i].handler)
                    &&& old(self)@.active[i].handler.header_step(
                        line@,
                        final(self)@.active[i].handler,
                        goes_on,
                    )
                } else {
                    !goes_on && final(self)@ == old(self)@
                }
            }),
    {
        let i = self.find_active(id);
        if i >= self.active.len() {
            return false;
        }
        let ghost before = self.active@;
        let goes_on = self.active[i].handler.accept_header(line);
        proof {
            self.lemma_handler_changed(*old(self), i as int);
        }
        goes_on
    }

    /// Hands bytes of the response body on to the handler of a running transfer, as
    /// [`TransferHandler::accept_body`] takes them. The driver is told to abort a transfer
    /// that is not running.
    pub fn on_body(&mut self, id: u64, bytes: &[u8]) -> (result: Download)
        requires
            old(self).wf(),
        ensures
            final(self).wf(),
            ({
                let i = index_of(old(self)@.active, id, 0);
                if i < old(self)@.active.len() {
                    &&& result == old(self)@.active[i].handler.download_result(bytes@)
                    &&& final(self)@ == old(self)@.with_handler(
                        i,
                        old(self)@.active[i].handler.after_body(bytes@),
                    )
                } else {
                    result == Download::Abort && final(self)@ == old(self)@
                }
            }),
    {
        let i = self.find_active(id);
        if i >= self.active.len() {
            return Download::Abort;
        }
        let result = self.active[i].handler.accept_body(bytes);
        proof {
            self.lemma_handler_changed(*old(self), i as int);
        }
        result
    }

    /// Asks the handler of a running transfer for bytes of the request body, as
    /// [`TransferHandler::fill_upload`] gives them. The driver is told to abort a transfer
    /// that is not running.
    pub fn on_upload(&mut self, id: u64, buf: &mut [u8]) -> (result: Upload)
        requires
            old(self).wf(),
        ensures
            final(self).wf(),
            final(buf)@.len() == old(buf)@.len(),
            ({
                let i = index_of(old(self)@.active, id, 0);
                if i < old(self)@.active.len() {
                    let handler = old(self)@.active[i].handler;
                    &&& result == handler.upload_result(old(buf)@.len())
                    &&& final(self)@ == old(self)@.with_handler(
                        i,
                        handler.after_upload(old(buf)@.len()),
                    )
                    &&& match result {
                        Upload::Bytes(n) => {
                            &&& n <= old(buf)@.len()
                            &&& final(buf)@.take(n as int) == handler.body.unread().take(n as int)
                            &&& final(buf)@.skip(n as int) == old(buf)@.skip(n as int)
                        },
                        _ => final(buf)@ == old(buf)@,
                    }
                } else {
                    result == Upload::Abort && final(self)@ == old(self)@ && final(buf)@ == old(buf)@
                }
            }),
    {
        let i = self.find_active(id);
        if i >= self.active.len() {
            return Upload::Abort;
        }
        let result = self.active[i].handler.fill_upload(buf);
        proof {
            self.lemma_handler_changed(*old(self), i as int);
        }
        result
    }

    /// Hands numbers on the progress of a running transfer on to its handler, as
    /// [`TransferHandler::on_progress`] takes them. Returns whether the transfer is
    /// running.
    pub fn on_progress(&mut self, id: u64, metrics: Metrics) -> (found: bool)
        requires
            old(self).wf(),
        ensures
            final(self).wf(),
            ({
                let i = index_of(old(self)@.active, id, 0);
                if i < old(self)@.active.len() {
                    found && final(self)@ == old(self)@.with_handler(
                        i,
                        old(self)@.active[i].handler.after_progress(metrics),
                    )
                } else {
                    !found && final(self)@ == old(self)@
                }
            }),
    {
        let i = self.find_active(id);
        if i >= self.active.len() {
            return false;
        }
        self.active[i].handler.on_progress(metrics);
        proof {
            self.lemma_handler_changed(*old(self), i as int);
        }
        true
    }

    /// Notes what is known of the connection of a running transfer, as
    /// [`TransferHandler::set_connection_info`] does. Returns whether the transfer is
    /// running.
    pub fn set_connection_info(&mut self, id: u64, info: ConnectionInfo) -> (found: bool)
        requires
            old(self).wf(),
        ensures
            final(self).wf(),
            ({
                let i = index_of(old(self)@.active, id, 0);
                if i < old(self)@.active.len() {
                    found && final(self)@ == old(self)@.with_handler(
                        i,
                        HandlerView { info, ..old(self)@.active[i].handler },
                    )
                } else {
                    !found && final(self)@ == old(self)@
                }
            }),
    {
        let i = self.find_active(id);
        if i >= self.active.len() {
            return false;
        }
        self.active[i].handler.set_connection_info(info);
        proof {
            self.lemma_handler_changed(*old(self), i as int);
        }
        true
    }

    /// Reads bytes of the response body of a running transfer for the caller, as
    /// [`TransferHandler::read_body`] does. Nothing is read of a transfer that is not
    /// running: the read is pending.
    pub fn read_body(&mut self, id: u64, buf: &mut [u8]) -> (result: PipeRead)
        requires
            old(self).wf(),
        ensures
            final(self).wf(),
            final(buf)@.len() == old(buf)@.len(),
            ({
                let i = index_of(old(self)@.active, id, 0);
                if i < old(self)@.active.len() {
                    let handler = old(self)@.active[i].handler;
                    &&& result == handler.pipe.read_result(old(buf)@.len())
                    &&& match result {
                        PipeRead::Ready(n) => {
                            &&& final(self)@ == old(self)@.with_handler(
                                i,
                                HandlerView { pipe: handler.pipe.after_read(n as int), ..handler },
                            )
                            &&& final(buf)@.take(n as int) == handler.pipe.buffered.take(n as int)
                            &&& final(buf)@.skip(n as int) == old(buf)@.skip(n as int)
                        },
                        _ => final(self)@ == old(self)@ && final(buf)@ == old(buf)@,
                    }
                } else {
                    result == PipeRead::Pending && final(self)@ == old(self)@ && final(buf)@
                        == old(buf)@
                }
            }),
    {
        let i = self.find_active(id);
        if i >= self.active.len() {
            return PipeRead::Pending;
        }
        let result = self.active[i].handler.read_body(buf);
        proof {
            self.lemma_handler_changed(*old(self), i as int);
            if !(result is Ready) {
                assert(self@.active =~= old(self)@.active);
            }
        }
        result
    }

    /// Closes the response body of a running transfer for the caller, as
    /// [`TransferHandler::drop_body`] does. Returns whether the transfer is running.
    pub fn drop_body(&mut self, id: u64) -> (found: bool)
        requires
            old(self).wf(),
        ensures
            final(self).wf(),
            ({
                let i = index_of(old(self)@.active, id, 0);
                if i < old(self)@.active.len() {
                    let handler = old(self)@.active[i].handler;
                    found && final(self)@ == old(self)@.with_handler(
                        i,
                        HandlerView {
                            pipe: crate::pipe::PipeView { reader_open: false, ..handler.pipe },
                            ..handler
                        },
                    )
                } else {
                    !found && final(self)@ == old(self)@
                }
            }),
    {
        let i = self.find_active(id);
        if i >= self.active.len() {
            return false;
        }
        self.active[i].handler.drop_body();
        proof {
            self.lemma_handler_changed(*old(self), i as int);
        }
        true
    }

    /// Takes the response of a running transfer out of its promise, as
    /// [`TransferHandler::take_response`] does.
    pub fn take_response(&mut self, id: u64) -> (taken: Option<Result<Response<()>, ErrorKind>>)
        requires
            old(self).wf(),
        ensures
            final(self).wf(),
            ({
                let i = index_of(old(self)@.active, id, 0);
                if i < old(self)@.active.len() {
                    let handler = old(self)@.active[i].handler;
                    &&& taken == handler.headers.outcome()
                    &&& final(self)@ == old(self)@.with_handler(
                        i,
                        HandlerView {
                            headers: if taken is Some {
                                crate::handler::Promise::Taken
                            } else {
                                handler.headers
                            },
                            ..handler
                        },
                    )
                } else {
                    taken is None && final(self)@ == old(self)@
                }
            }),
    {
        let i = self.find_active(id);
        if i >= self.active.len() {
            return None;
        }
        let taken = self.active[i].handler.take_response();
        proof {
            self.lemma_handler_changed(*old(self), i as int);
        }
        taken
    }

    /// Finds the waiting transfer with a number.
    fn find_pending(&self, id: u64) -> (index: usize)
        ensures
            index == index_of(self@.pending, id, 0),
            index <= self@.pending.len(),
            index < self@.pending.len() ==> self@.pending[index as int].handler.id == id,
    {
        let mut i: usize = 0;
        while i < self.pending.len()
            invariant
                i <= self.pending.len(),
                index_of(self@.pending, id, 0) == index_of(self@.pending, id, i as int),
            decreases self.pending.len() - i,
        {
            if self.pending[i].handler.id() == id {
                return i;
            }
            i = i + 1;
        }
        i
    }

    /// Lets a writer copy bytes of its source into the pipe of the request body of a
    /// transfer, as [`TransferHandler::fill_body`] does. The transfer may be running or
    /// waiting. Where there is no transfer with that number, the writer has failed.
    pub fn fill_body(&mut self, id: u64, writer: &mut Writer) -> (result: Copying)
        requires
            old(self).wf(),
            old(writer).wf(),
        ensures
            final(self).wf(),
            final(writer).wf(),
            ({
                let i = index_of(old(self)@.active, id, 0);
                let j = index_of(old(self)@.pending, id, 0);
                if i < old(self)@.active.len() {
                    let handler = old(self)@.active[i].handler;
                    &&& final(self)@ == old(self)@.with_handler(
                        i,
                        HandlerView { body: final(self)@.active[i].handler.body, ..handler },
                    )
                    &&& handler.body.filled(
                        old(writer)@,
                        final(writer)@,
                        final(self)@.active[i].handler.body,
                        result,
                    )
                } else if j < old(self)@.pending.len() {
                    let handler = old(self)@.pending[j].handler;
                    &&& final(self)@ == (AgentView {
                        pending: old(self)@.pending.update(
                            j,
                            SlotView {
                                handler: HandlerView {
                                    body: final(self)@.pending[j].handler.body,
                                    ..handler
                                },
                                ..old(self)@.pending[j]
                            },
                        ),
                        ..old(self)@
                    })
                    &&& handler.body.filled(
                        old(writer)@,
                        final(writer)@,
                        final(self)@.pending[j].handler.body,
                        result,
                    )
                } else {
                    result is Failed && final(self)@ == old(self)@ && final(writer)@ == old(writer)@
                }
            }),
    {
        let i = self.find_active(id);
        if i < self.active.len() {
            let result = self.active[i].handler.fill_body(writer);
            proof {
                self.lemma_handler_changed(*old(self), i as int);
            }
            return result;
        }
        let j = self.find_pending(id);
        if j < self.pending.len() {
            let ghost before = *self;
            let result = self.pending[j].handler.fill_body(writer);
            proof {
                assert(self@.pending =~= before@.pending.update(
                    j as int,
                    SlotView {
                        handler: self@.pending[j as int].handler,
                        ..before@.pending[j as int]
                    },
                ));
                assert(self@.active =~= before@.active);
                assert forall|k: int| 0 <= k < self.pending@.len() implies (
                #[trigger] self.pending@[k]).handler.wf() && self.pending@[k].handler@.state
                    is Pending && self.pending@[k].handler@.id < self.next_id by {
                    assert(before.pending@[k].handler.wf());
                }
                assert forall|k: int, l: int| 0 <= k < l < self.pending@.len() implies (
                #[trigger] self.pending@[k]).handler@.id != (
                #[trigger] self.pending@[l]).handler@.id by {
                    assert(before.pending@[k].handler@.id != before.pending@[l].handler@.id);
                }
                assert forall|k: int, l: int|
                    0 <= k < self.active@.len() && 0 <= l < self.pending@.len() implies (
                #[trigger] self.active@[k]).handler@.id != (
                #[trigger] self.pending@[l]).handler@.id by {
                    assert(before.active@[k].handler@.id != before.pending@[l].handler@.id);
                }
            }
            return result;
        }
        Copying::Failed(crate::error::io_error_of_kind(crate::error::IoErrorKind::BrokenPipe))
    }

    /// What `self` is after the handler of the running transfer at the index `i` of
    /// `before` has changed, and nothing else has.
    proof fn lemma_handler_changed(&self, before: Agent, i: int)
        requires
            before.wf(),
            0 <= i < before.active@.len(),
            self.active@.len() == before.active@.len(),
            self.active@[i].host == before.active@[i].host,
            self.active@[i].handler.wf(),
            self.active@[i].handler@.id == before.active@[i].handler@.id,
            forall|j: int| 0 <= j < before.active@.len() && j != i ==> self.active@[j] == before.active@[j],
            self.pending == before.pending,
            self.limits == before.limits,
            self.next_id == before.next_id,
            self.shutdown == before.shutdown,
            self.poll_failures == before.poll_failures,
        ensures
            self.wf(),
            self@ == before@.with_handler(i, self@.active[i].handler),
    {
        assert(self@.active =~= before@.active.update(
            i,
            SlotView { handler: self@.active[i].handler, ..before@.active[i] },
        ));
        assert forall|k: int| 0 <= k < self.active@.len() implies (
        #[trigger] self.active@[k]).handler.wf() && self.active@[k].handler@.id
            < self.next_id by {
            assert(before.active@[k].handler.wf());
        }
        assert forall|k: int, j: int| 0 <= k < j < self.active@.len() implies (
        #[trigger] self.active@[k]).handler@.id != (#[trigger] self.active@[j]).handler@.id by {
            assert(before.active@[k].handler@.id != before.active@[j].handler@.id);
        }
        assert forall|k: int, j: int|
            0 <= k < self.active@.len() && 0 <= j < self.pending@.len() implies (
        #[trigger] self.active@[k]).handler@.id != (#[trigger] self.pending@[j]).handler@.id by {
            assert(before.active@[k].handler@.id != before.pending@[j].handler@.id);
        }
        assert forall|host: HostView|
            self.limits.max_connections_per_host > 0 implies #[trigger] host_count(
            self@.active,
            host,
        ) <= self.limits.max_connections_per_host by {
            lemma_host_count_update(before@.active, i, self@.active[i].handler, host);
            assert(host_count(before@.active, host) <= self.limits.max_connections_per_host);
        }
    }

    /// Takes the outcome of a running transfer from the driver, and the transfer out of
    /// the agent.
    ///
    /// The handler takes the outcome as [`TransferHandler::on_complete`] says, and the slot
    /// of the transfer is freed. The handler is returned: the caller may still have the
    /// response to take and the body to read. There is nothing to return where no
    /// transfer with that number is running.
    pub fn complete(&mut self, id: u64, failure: Option<ErrorKind>) -> (finished: Option<TransferHandler>)
        requires
            old(self).wf(),
        ensures
            final(self).wf(),
            ({
                let i = index_of(old(self)@.active, id, 0);
                if i < old(self)@.active.len() {
                    &&& final(self)@ == (AgentView {
                        active: old(self)@.active.remove(i),
                        ..old(self)@
                    })
                    &&& finished matches Some(handler) && handler.wf() && exists|closing: HandlerView|
                        #[trigger] old(self)@.active[i].handler.complete_step(failure, closing)
                            && handler@ == closing.released()
                } else {
                    finished is None && final(self)@ == old(self)@
                }
            }),
    {
        let i = self.find_active(id);
        if i >= self.active.len() {
            return None;
        }
        let ghost before = self.active@;
        let ghost view = self@;
        let slot = self.active.remove(i);
        let mut handler = slot.handler;
        handler.on_complete(failure);
        let ghost closing = handler@;
        handler.release();
        proof {
            assert(view.active[i as int].handler.complete_step(failure, closing));
            assert(slot_views(self.active@) =~= view.active.remove(i as int));
            assert forall|k: int| 0 <= k < self.active@.len() implies (
            #[trigger] self.active@[k]).handler.wf() && self.active@[k].handler@.id
                < self.next_id by {
                if k < i {
                    assert(before[k].handler.wf());
                } else {
                    assert(before[k + 1].handler.wf());
                }
            }
            assert forall|k: int, j: int| 0 <= k < j < self.active@.len() implies (
            #[trigger] self.active@[k]).handler@.id != (
            #[trigger] self.active@[j]).handler@.id by {
                let a = if k < i { k } else { k + 1 };
                let b = if j < i { j } else { j + 1 };
                assert(before[a].handler@.id != before[b].handler@.id);
            }
            assert forall|k: int, j: int|
                0 <= k < self.active@.len() && 0 <= j < self.pending@.len() implies (
            #[trigger] self.active@[k]).handler@.id != (
            #[trigger] self.pending@[j]).handler@.id by {
                let a = if k < i { k } else { k + 1 };
                assert(before[a].handler@.id != self.pending@[j].handler@.id);
            }
            assert forall|host: HostView|
                self.limits.max_connections_per_host > 0 implies #[trigger] host_count(
                self@.active,
                host,
            ) <= self.limits.max_connections_per_host by {
                lemma_host_count_remove(view.active, i as int, host);
                assert(host_count(view.active, host) <= self.limits.max_connections_per_host);
            }
        }
        Some(handler)
    }

    /// Lists the running transfers that are to be cancelled: those whose response body
    /// nobody reads any more. The driver is to cancel each of them, and reports their end.
    pub fn cancellations(&self) -> (ids: Vec<u64>)
        requires
            self.wf(),
        ensures
            forall|id: u64|
                ids@.contains(id) <==> exists|i: int|
                    0 <= i < self@.active.len() && (#[trigger] self@.active[i]).handler.id == id
                        && !self@.active[i].handler.pipe.reader_open
                        && self@.active[i].handler.state.rank() < 4,
    {
        let mut ids: Vec<u64> = Vec::new();
        let mut i: usize = 0;
        while i < self.active.len()
            invariant
                i <= self.active.len(),
                self.wf(),
                forall|id: u64|
                    ids@.contains(id) <==> exists|k: int|
                        0 <= k < i && (#[trigger] self@.active[k]).handler.id == id
                            && !self@.active[k].handler.pipe.reader_open
                            && self@.active[k].handler.state.rank() < 4,
            decreases self.active.len() - i,
        {
            let ghost before = ids@;
            assert(self.active@[i as int].handler.wf());
            if self.active[i].handler.wants_cancel() {
                ids.push(self.active[i].handler.id());
                proof {
                    let added = self.active@[i as int].handler@.id;
                    assert(ids@.last() == added);
                    assert forall|id: u64| ids@.contains(id) <==> exists|k: int|
                        0 <= k < i + 1 && (#[trigger] self@.active[k]).handler.id == id
                            && !self@.active[k].handler.pipe.reader_open
                            && self@.active[k].handler.state.rank() < 4 by {
                        if ids@.contains(id) {
                            let at = choose|at: int| 0 <= at < ids@.len() && ids@[at] == id;
                            if at < before.len() {
                                assert(before.contains(id));
                            } else {
                                assert(self@.active[i as int].handler.id == id);
                            }
                        }
                        if exists|k: int|
                            0 <= k < i + 1 && (#[trigger] self@.active[k]).handler.id == id
                                && !self@.active[k].handler.pipe.reader_open
                                && self@.active[k].handler.state.rank() < 4 {
                            let k = choose|k: int|
                                0 <= k < i + 1 && (#[trigger] self@.active[k]).handler.id == id
                                    && !self@.active[k].handler.pipe.reader_open
                                    && self@.active[k].handler.state.rank() < 4;
                            if k < i {
                                assert(before.contains(id));
                                let at = choose|at: int| 0 <= at < before.len() && before[at] == id;
                                assert(ids@[at] == id);
                            } else {
                                assert(ids@[ids@.len() - 1] == id);
                            }
                        }
                    }
                }
            } else {
                proof {
                    assert forall|id: u64| ids@.contains(id) <==> exists|k: int|
                        0 <= k < i + 1 && (#[trigger] self@.active[k]).handler.id == id
                            && !self@.active[k].handler.pipe.reader_open
                            && self@.active[k].handler.state.rank() < 4 by {
                        if exists|k: int|
                            0 <= k < i + 1 && (#[trigger] self@.active[k]).handler.id == id
                                && !self@.active[k].handler.pipe.reader_open
                                && self@.active[k].handler.state.rank() < 4 {
                            let k = choose|k: int|
                                0 <= k < i + 1 && (#[trigger] self@.active[k]).handler.id == id
                                    && !self@.active[k].handler.pipe.reader_open
                                    && self@.active[k].handler.state.rank() < 4;
                            assert(k < i);
                        }
                    }
                }
            }
            i = i + 1;
        }
        ids
    }

    /// Sets the shutdown latch. From now on no transfer is taken in and none is admitted;
    /// the transfers that run may come to their end.
    pub fn shutdown(&mut self)
        requires
            old(self).wf(),
        ensures
            final(self).wf(),
            final(self)@ == (AgentView { shutdown: true, ..old(self)@ }),
    {
        self.shutdown = true;
    }

    /// Ends the shutdown when no transfer runs any more: the transfers that still wait are
    /// cancelled and returned, each with the failure `Canceled` in its promises. As long
    /// as a transfer runs, or where the agent is not shutting down, nothing is done.
    pub fn finish_shutdown(&mut self) -> (cancelled: Vec<TransferHandler>)
        requires
            old(self).wf(),
        ensures
            final(self).wf(),
            if old(self)@.shutdown && old(self)@.active.len() == 0 {
                &&& final(self)@ == (AgentView { pending: Seq::empty(), ..old(self)@ })
                &&& cancelled@.len() == old(self)@.pending.len()
                &&& forall|i: int|
                    0 <= i < cancelled@.len() ==> (#[trigger] cancelled@[i]).wf() && old(self)@.pending[i].handler.complete_step(
                        Some(ErrorKind::Canceled),
                        cancelled@[i]@,
                    )
            } else {
                cancelled@.len() == 0 && final(self)@ == old(self)@
            },
    {
        let mut cancelled: Vec<TransferHandler> = Vec::new();
        if !self.shutdown || self.active.len() > 0 {
            return cancelled;
        }
        let ghost before = self.pending@;
        let mut waiting: Vec<Slot> = Vec::new();
        core::mem::swap(&mut self.pending, &mut waiting);
        proof {
            assert(slot_views(self.pending@) =~= Seq::<SlotView>::empty());
        }
        while waiting.len() > 0
            invariant
                cancelled@.len() + waiting@.len() == before.len(),
                forall|k: int|
                    0 <= k < waiting@.len() ==> waiting@[k] == before[cancelled@.len() + k],
                forall|k: int| 0 <= k < before.len() ==> (#[trigger] before[k]).handler.wf(),
                forall|k: int|
                    0 <= k < cancelled@.len() ==> (#[trigger] cancelled@[k]).wf() && before[k].handler@.complete_step(
                        Some(ErrorKind::Canceled),
                        cancelled@[k]@,
                    ),
            decreases waiting.len(),
        {
            let ghost done = cancelled@.len() as int;
            let slot = waiting.remove(0);
            let mut handler = slot.handler;
            assert(handler == before[done].handler);
            handler.cancel();
            cancelled.push(handler);
        }
        proof {
            assert forall|k: int| 0 <= k < cancelled@.len() implies (
            #[trigger] cancelled@[k]).wf() && old(self)@.pending[k].handler.complete_step(
                Some(ErrorKind::Canceled),
                cancelled@[k]@,
            ) by {
                assert(old(self)@.pending[k].handler == before[k].handler@);
            }
        }
        cancelled
    }

    /// Ends every transfer that runs with a failure, and sets the shutdown latch.
    ///
    /// Each of the transfers takes the failure as [`TransferHandler::on_complete`] says, so
    /// that its promises hold the failure unless they were settled before. The transfers
    /// stay with the agent: the numbers of the transfers that the driver is to cancel are
    /// returned, the driver reports the end of each, and the transfer then leaves the agent.
    pub fn abort(&mut self, failure: ErrorKind) -> (ids: Vec<u64>)
        requires
            old(self).wf(),
        ensures
            final(self).wf(),
            old(self)@.aborted(failure, final(self)@, ids@),
    {
        self.shutdown = true;
        let mut ids: Vec<u64> = Vec::new();
        let mut i: usize = 0;
        let ghost start = *self;
        assert(start.wf()) by {
            assert(start@.active == old(self)@.active);
        }
        while i < self.active.len()
            invariant
                i <= self.active.len(),
                self.wf(),
                start.wf(),
                start@.active == old(self)@.active,
                self.shutdown,
                self.limits == start.limits,
                self.pending == start.pending,
                self.next_id == start.next_id,
                self.poll_failures == start.poll_failures,
                self.active@.len() == start.active@.len(),
                ids@.len() == i,
                forall|k: int| i <= k < self.active@.len() ==> self.active@[k] == start.active@[k],
                forall|k: int|
                    0 <= k < i ==> {
                        &&& ids@[k] == (#[trigger] start@.active[k]).handler.id
                        &&& self@.active[k].host == start@.active[k].host
                        &&& start@.active[k].handler.complete_step(
                            Some(failure),
                            self@.active[k].handler,
                        )
                    },
            decreases self.active.len() - i,
        {
            let ghost before = *self;
            assert(self.active@[i as int].handler.wf());
            ids.push(self.active[i].handler.id());
            self.active[i].handler.on_complete(Some(failure));
            proof {
                self.lemma_handler_changed(before, i as int);
                assert forall|k: int| 0 <= k < i + 1 implies {
                    &&& ids@[k] == (#[trigger] start@.active[k]).handler.id
                    &&& self@.active[k].host == start@.active[k].host
                    &&& start@.active[k].handler.complete_step(
                        Some(failure),
                        self@.active[k].handler,
                    )
                } by {
                    if k < i {
                        assert(self.active@[k] == before.active@[k]);
                        assert(before@.active[k] == self@.active[k]);
                    } else {
                        assert(before.active@[k] == start.active@[k]);
                    }
                }
            }
            i = i + 1;
        }
        ids
    }

    /// Closes the agent: sets the shutdown latch and cancels every transfer that runs, as
    /// [`Agent::abort`] does with the failure `Canceled`.
    pub fn close(&mut self) -> (ids: Vec<u64>)
        requires
            old(self).wf(),
        ensures
            final(self).wf(),
            old(self)@.aborted(ErrorKind::Canceled, final(self)@, ids@),
    {
        self.abort(ErrorKind::Canceled)
    }

    /// Takes note of whether the driver has moved the transfers or has failed to.
    ///
    /// A failure is put up with: the driver is asked again. When the driver has failed
    /// [`MAX_POLL_FAILURES`] times in a row, every transfer that runs is ended with the
    /// failure `Internal`, as [`Agent::abort`] does, and the numbers of the transfers that the
    /// driver is to cancel are returned.
    pub fn on_poll(&mut self, failed: bool) -> (ids: Vec<u64>)
        requires
            old(self).wf(),
        ensures
            final(self).wf(),
            if !failed {
                ids@.len() == 0 && final(self)@ == (AgentView { poll_failures: 0, ..old(self)@ })
            } else if old(self)@.poll_failures + 1 < MAX_POLL_FAILURES {
                ids@.len() == 0 && final(self)@ == (AgentView {
                    poll_failures: (old(self)@.poll_failures + 1) as u32,
                    ..old(self)@
                })
            } else {
                (AgentView { poll_failures: MAX_POLL_FAILURES, ..old(self)@ }).aborted(
                    ErrorKind::Internal,
                    final(self)@,
                    ids@,
                )
            },
    {
        if !failed {
            self.poll_failures = 0;
            return Vec::new();
        }
        if self.poll_failures < MAX_POLL_FAILURES - 1 {
            self.poll_failures = self.poll_failures + 1;
            return Vec::new();
        }
        self.poll_failures = MAX_POLL_FAILURES;
        self.abort(ErrorKind::Internal)
    }
}

/// Where a transfer in the queue has room, the first transfer that has room is in the
/// queue, and no transfer in front of it has room.
pub proof fn lemma_next_admissible(agent: AgentView, from: int)
    requires
        0 <= from <= agent.pending.len(),
    ensures
        from <= agent.next_admissible(from) <= agent.pending.len(),
        agent.next_admissible(from) < agent.pending.len() ==> agent.has_room(
            agent.pending[agent.next_admissible(from)].host,
        ),
        forall|j: int|
            from <= j < agent.next_admissible(from) ==> !agent.has_room(
                (#[trigger] agent.pending[j]).host,
            ),
    decreases agent.pending.len() - from,
{
    if from < agent.pending.len() && !agent.has_room(agent.pending[from].host) {
        lemma_next_admissible(agent, from + 1);
    }
}

/// While as many transfers run as the client allows in all, no transfer is admitted: the
/// transfers that are submitted wait in the queue. A submission is not refused on account
/// of the transfers that run: it gets its number where the agent is not shutting down, the
/// queue is not bounded and full, and a number is left.
pub proof fn lemma_full_agent_queues(agent: AgentView)
    requires
        agent.limits.max_connections > 0,
        agent.active.len() >= agent.limits.max_connections,
    ensures
        agent.admitted() is None,
        !agent.shutdown && (agent.limits.max_pending == 0 || agent.pending.len()
            < agent.limits.max_pending) && agent.next_id < u64::MAX ==> agent.submitted() == Ok::<
            u64,
            ErrorKind,
        >(agent.next_id),
{
    lemma_next_admissible(agent, 0);
    let next = agent.next_admissible(0);
    if next < agent.pending.len() {
        assert(agent.has_room(agent.pending[next].host));
    }
}

/// A transfer that waits is admitted as soon as there is room for it and for none before
/// it: where there is room for the transfer at the index `i` of the queue, in all and to
/// its host, and the agent is not shutting down, a transfer is admitted, and it is that
/// transfer or one in front of it.
pub proof fn lemma_no_starvation(agent: AgentView, i: int)
    requires
        0 <= i < agent.pending.len(),
        agent.has_room(agent.pending[i].host),
        !agent.shutdown,
    ensures
        agent.admitted() matches Some(k) && 0 <= k <= i,
{
    lemma_next_admissible(agent, 0);
    if agent.next_admissible(0) > i {
        assert(!agent.has_room(agent.pending[i].host));
    }
}

/// The transfers to one host are admitted in the order in which they were submitted: no
/// transfer in front of the one that is admitted goes to the same host.
pub proof fn lemma_order_within_host(agent: AgentView, j: int)
    requires
        agent.admitted() matches Some(k) && 0 <= j < k,
    ensures
        agent.pending[j].host != agent.pending[agent.admitted()->0].host,
{
    lemma_next_admissible(agent, 0);
    let k = agent.next_admissible(0);
    assert(!agent.has_room(agent.pending[j].host));
}

} // verus!
