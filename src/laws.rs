use vstd::prelude::*;

use crate::server::{
    broadcast_spec, deregister_spec, deliver, is_registered, lemma_filter_keeps_all, other_than,
    register_spec, registry_valid, RegistryView,
};

verus! {

broadcast use vstd::seq_lib::group_seq_properties;

/// One operation on the registry, as a caller issues it.
pub enum RegistryOp {
    Register { channel: Seq<char> },
    Deregister { id: nat },
    Broadcast { channel: Seq<char>, frame: Seq<char>, refused: Seq<u64> },
}

/// The registry after one operation.
pub open spec fn apply_op(v: RegistryView, op: RegistryOp) -> RegistryView {
    match op {
        RegistryOp::Register { channel } => register_spec(v, channel),
        RegistryOp::Deregister { id } => deregister_spec(v, id),
        RegistryOp::Broadcast { channel, frame, refused } => broadcast_spec(v, channel, frame, refused),
    }
}

/// The registry after a sequence of operations, applied in order.
pub open spec fn run_ops(v: RegistryView, ops: Seq<RegistryOp>) -> RegistryView
    decreases ops.len(),
{
    if ops.len() == 0 {
        v
    } else {
        apply_op(run_ops(v, ops.drop_last()), ops.last())
    }
}

/// A broadcast reaches every connection subscribed to its channel whose
/// queue did not refuse the frame, adding the frame at the end of its
/// history, and leaves every other connection as it was; identifiers,
/// channels and membership are unchanged.
pub proof fn lemma_broadcast_reaches_exactly_subscribers(
    v: RegistryView,
    channel: Seq<char>,
    frame: Seq<char>,
    refused: Seq<u64>,
    j: int,
)
    requires
        0 <= j < v.connections.len(),
    ensures
        broadcast_spec(v, channel, frame, refused).connections.len() == v.connections.len(),
        broadcast_spec(v, channel, frame, refused).connections[j].id == v.connections[j].id,
        broadcast_spec(v, channel, frame, refused).connections[j].channel
            == v.connections[j].channel,
        v.connections[j].channel == channel && !refused.contains(v.connections[j].id as u64)
            ==> broadcast_spec(v, channel, frame, refused).connections[j].sent
            == v.connections[j].sent.push(frame),
        v.connections[j].channel != channel || refused.contains(v.connections[j].id as u64)
            ==> broadcast_spec(v, channel, frame, refused).connections[j].sent
            == v.connections[j].sent,
{
}

/// Two broadcasts to one channel reach each of its subscribers that
/// accepted both in the order in which they were made.
pub proof fn lemma_broadcast_fifo(
    v: RegistryView,
    channel: Seq<char>,
    first: Seq<char>,
    first_refused: Seq<u64>,
    second: Seq<char>,
    second_refused: Seq<u64>,
    j: int,
)
    requires
        0 <= j < v.connections.len(),
        v.connections[j].channel == channel,
        !first_refused.contains(v.connections[j].id as u64),
        !second_refused.contains(v.connections[j].id as u64),
    ensures
        broadcast_spec(
            broadcast_spec(v, channel, first, first_refused),
            channel,
            second,
            second_refused,
        ).connections[j].sent == v.connections[j].sent + seq![first, second],
{
    let w = broadcast_spec(
        broadcast_spec(v, channel, first, first_refused),
        channel,
        second,
        second_refused,
    );
    assert(w.connections[j].sent =~= v.connections[j].sent + seq![first, second]);
}

/// Deregistering an identifier twice leaves the registry as deregistering
/// it once does.
pub proof fn lemma_deregister_idempotent(v: RegistryView, id: nat)
    ensures
        deregister_spec(deregister_spec(v, id), id) == deregister_spec(v, id),
{
    let once = v.connections.filter(other_than(id));
    assert forall|j: int| 0 <= j < once.len() implies other_than(id)(#[trigger] once[j]) by {
        v.connections.lemma_filter_pred(other_than(id), j);
    }
    lemma_filter_keeps_all(once, other_than(id));
}

proof fn lemma_deregistered_absent(v: RegistryView, id: nat)
    ensures
        !is_registered(deregister_spec(v, id), id),
{
    let f = v.connections.filter(other_than(id));
    assert forall|j: int| 0 <= j < f.len() implies #[trigger] f[j].id != id by {
        v.connections.lemma_filter_pred(other_than(id), j);
    }
}

proof fn lemma_filter_adds_none(v: RegistryView, removed: nat, id: nat)
    requires
        !is_registered(v, id),
    ensures
        !is_registered(deregister_spec(v, removed), id),
{
    let f = v.connections.filter(other_than(removed));
    assert forall|j: int| 0 <= j < f.len() implies #[trigger] f[j].id != id by {
        assert(f.contains(f[j]));
        v.connections.lemma_filter_contains_rev(other_than(removed), f[j]);
    }
}

/// Once a registered connection is deregistered it is never registered
/// again, whatever registrations, deregistrations and broadcasts follow;
/// so no later broadcast can reach it.
pub proof fn lemma_removed_connection_never_reached(
    v: RegistryView,
    id: nat,
    later: Seq<RegistryOp>,
)
    requires
        id < v.next_id,
    ensures
        !is_registered(run_ops(deregister_spec(v, id), later), id),
        id < run_ops(deregister_spec(v, id), later).next_id,
    decreases later.len(),
{
    let d = deregister_spec(v, id);
    if later.len() == 0 {
        lemma_deregistered_absent(v, id);
    } else {
        lemma_removed_connection_never_reached(v, id, later.drop_last());
        let s = run_ops(d, later.drop_last());
        match later.last() {
            RegistryOp::Register { channel } => {
                let t = register_spec(s, channel);
                assert forall|j: int| 0 <= j < t.connections.len() implies #[trigger] t.connections[j].id
                    != id by {
                    if j < s.connections.len() {
                        assert(s.connections[j] == t.connections[j]);
                    }
                }
            },
            RegistryOp::Deregister { id: other } => {
                lemma_filter_adds_none(s, other, id);
            },
            RegistryOp::Broadcast { channel, frame, refused } => {
                let t = broadcast_spec(s, channel, frame, refused);
                assert forall|j: int| 0 <= j < t.connections.len() implies #[trigger] t.connections[j].id
                    != id by {
                    assert(t.connections[j] == deliver(s.connections[j], channel, frame, refused));
                }
            },
        }
    }
}

/// A connection's channel is fixed at registration: after any operation on
/// a valid registry, a connection that is still registered under the same
/// identifier keeps its channel.
pub proof fn lemma_channel_fixed(v: RegistryView, op: RegistryOp, j: int, k: int)
    requires
        registry_valid(v),
        0 <= j < v.connections.len(),
        0 <= k < apply_op(v, op).connections.len(),
        apply_op(v, op).connections[k].id == v.connections[j].id,
    ensures
        apply_op(v, op).connections[k].channel == v.connections[j].channel,
{
    let t = apply_op(v, op);
    match op {
        RegistryOp::Register { channel } => {
            if k < v.connections.len() {
                assert(t.connections[k] == v.connections[k]);
                if k < j {
                    assert(v.connections[k].id < v.connections[j].id);
                } else if j < k {
                    assert(v.connections[j].id < v.connections[k].id);
                }
            } else {
                assert(v.connections[j].id < v.next_id);
            }
        },
        RegistryOp::Deregister { id } => {
            let f = v.connections.filter(other_than(id));
            assert(t.connections == f);
            assert(f.contains(f[k]));
            v.connections.lemma_filter_contains_rev(other_than(id), f[k]);
            let m = choose|m: int| 0 <= m < v.connections.len() && v.connections[m] == f[k];
            if m < j {
                assert(v.connections[m].id < v.connections[j].id);
            } else if j < m {
                assert(v.connections[j].id < v.connections[m].id);
            }
        },
        RegistryOp::Broadcast { channel, frame, refused } => {
            assert(t.connections[k] == deliver(v.connections[k], channel, frame, refused));
            if k < j {
                assert(v.connections[k].id < v.connections[j].id);
            } else if j < k {
                assert(v.connections[j].id < v.connections[k].id);
            }
        },
    }
}

/// The identifiers that a sequence of operations, applied to `v`, removed:
/// those named by a deregistration after they had been handed out.
pub open spec fn removed_ids(v: RegistryView, ops: Seq<RegistryOp>) -> Set<nat>
    decreases ops.len(),
{
    if ops.len() == 0 {
        Set::empty()
    } else {
        let before = removed_ids(v, ops.drop_last());
        match ops.last() {
            RegistryOp::Deregister { id } => if id < run_ops(v, ops.drop_last()).next_id {
                before.insert(id)
            } else {
                before
            },
            _ => before,
        }
    }
}

/// The registry that `WebsocketServer::new` starts from.
pub open spec fn empty_registry() -> RegistryView {
    RegistryView { next_id: 0, connections: seq![] }
}

proof fn lemma_deregistered_membership(v: RegistryView, removed: nat, id: nat)
    ensures
        is_registered(deregister_spec(v, removed), id) == (is_registered(v, id) && id != removed),
{
    let f = v.connections.filter(other_than(removed));
    let d = deregister_spec(v, removed);
    assert(d.connections == f);
    if is_registered(d, id) {
        let j = choose|j: int| 0 <= j < d.connections.len() && #[trigger] d.connections[j].id == id;
        v.connections.lemma_filter_pred(other_than(removed), j);
        assert(f.contains(f[j]));
        v.connections.lemma_filter_contains_rev(other_than(removed), f[j]);
        let k = choose|k: int| 0 <= k < v.connections.len() && v.connections[k] == f[j];
        assert(v.connections[k].id == id);
    }
    if is_registered(v, id) && id != removed {
        let j = choose|j: int| 0 <= j < v.connections.len() && #[trigger] v.connections[j].id == id;
        assert(other_than(removed)(v.connections[j]));
        v.connections.lemma_filter_contains(other_than(removed), j);
        let k = choose|k: int| 0 <= k < f.len() && f[k] == v.connections[j];
        assert(d.connections[k].id == id);
    }
}

/// Starting from the empty registry, after any sequence of registrations,
/// deregistrations and broadcasts, the registered identifiers are exactly
/// those handed out and not removed since; the identifiers handed out are
/// those below the next one.
pub proof fn lemma_registered_are_assigned_minus_removed(ops: Seq<RegistryOp>, id: nat)
    ensures
        is_registered(run_ops(empty_registry(), ops), id) == (id < run_ops(
            empty_registry(),
            ops,
        ).next_id && !removed_ids(empty_registry(), ops).contains(id)),
        forall|r: nat|
            #[trigger] removed_ids(empty_registry(), ops).contains(r) ==> r < run_ops(
                empty_registry(),
                ops,
            ).next_id,
    decreases ops.len(),
{
    let e = empty_registry();
    if ops.len() > 0 {
        let prev = ops.drop_last();
        lemma_registered_are_assigned_minus_removed(prev, id);
        let s = run_ops(e, prev);
        let rs = removed_ids(e, prev);
        assert forall|r: nat| #[trigger] rs.contains(r) implies r < s.next_id by {
            lemma_registered_are_assigned_minus_removed(prev, r);
        }
        match ops.last() {
            RegistryOp::Register { channel } => {
                let t = register_spec(s, channel);
                assert(run_ops(e, ops) == t);
                assert(removed_ids(e, ops) == rs);
                if is_registered(t, id) && id != s.next_id {
                    let j = choose|j: int| 0 <= j < t.connections.len() && #[trigger] t.connections[j].id == id;
                    assert(j < s.connections.len());
                    assert(s.connections[j] == t.connections[j]);
                }
                if is_registered(s, id) {
                    let j = choose|j: int| 0 <= j < s.connections.len() && #[trigger] s.connections[j].id == id;
                    assert(t.connections[j] == s.connections[j]);
                }
                if id == s.next_id {
                    assert(t.connections[s.connections.len() as int].id == id);
                }
                assert(is_registered(t, id) == (is_registered(s, id) || id == s.next_id));
            },
            RegistryOp::Deregister { id: removed } => {
                lemma_deregistered_membership(s, removed, id);
                assert(run_ops(e, ops) == deregister_spec(s, removed));
                if removed < s.next_id {
                    assert(removed_ids(e, ops) == rs.insert(removed));
                } else {
                    assert(removed_ids(e, ops) == rs);
                }
            },
            RegistryOp::Broadcast { channel, frame, refused } => {
                let t = broadcast_spec(s, channel, frame, refused);
                assert(run_ops(e, ops) == t);
                assert(removed_ids(e, ops) == rs);
                if is_registered(t, id) {
                    let j = choose|j: int| 0 <= j < t.connections.len() && #[trigger] t.connections[j].id == id;
                    assert(t.connections[j] == deliver(s.connections[j], channel, frame, refused));
                    assert(s.connections[j].id == id);
                }
                if is_registered(s, id) {
                    let j = choose|j: int| 0 <= j < s.connections.len() && #[trigger] s.connections[j].id == id;
                    assert(t.connections[j] == deliver(s.connections[j], channel, frame, refused));
                    assert(t.connections[j].id == id);
                }
                assert(is_registered(t, id) == is_registered(s, id));
            },
        }
    } else {
        assert(run_ops(e, ops) == e);
        assert(removed_ids(e, ops) == Set::<nat>::empty());
    }
}

} // verus!
