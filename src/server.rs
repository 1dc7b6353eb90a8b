use vstd::prelude::*;

use tokio::sync::mpsc::UnboundedReceiver;

use crate::message::{frame_of, TemplateMessage};
use crate::queue::{new_frame_queue, offer_frame, FrameSender};

verus! {

broadcast use vstd::seq_lib::group_seq_properties;

/// What the registry knows of one live connection: its identifier, the
/// channel it subscribed to, and every frame its queue accepted, in order.
pub struct ConnectionView {
    pub id: nat,
    pub channel: Seq<char>,
    pub sent: Seq<Seq<char>>,
}

/// The registry as a whole: the next identifier to hand out and the live
/// connections in order of registration.
pub struct RegistryView {
    pub next_id: nat,
    pub connections: Seq<ConnectionView>,
}

/// Identifiers strictly increase along the registration order and all lie
/// below the next one to be handed out; in particular they are unique.
pub open spec fn registry_valid(v: RegistryView) -> bool {
    &&& forall|j: int, k: int|
        0 <= j < k < v.connections.len() ==> #[trigger] v.connections[j].id
            < #[trigger] v.connections[k].id
    &&& forall|j: int| 0 <= j < v.connections.len() ==> #[trigger] v.connections[j].id < v.next_id
}

/// Whether a connection with this identifier is registered.
pub open spec fn is_registered(v: RegistryView, id: nat) -> bool {
    exists|j: int| 0 <= j < v.connections.len() && #[trigger] v.connections[j].id == id
}

/// Registration appends a connection under the next identifier, with an
/// empty history.
pub open spec fn register_spec(v: RegistryView, channel: Seq<char>) -> RegistryView {
    RegistryView {
        next_id: v.next_id + 1,
        connections: v.connections.push(ConnectionView { id: v.next_id, channel, sent: seq![] }),
    }
}

/// The connections that a deregistration of `id` keeps.
pub open spec fn other_than(id: nat) -> spec_fn(ConnectionView) -> bool {
    |c: ConnectionView| c.id != id
}

/// Deregistration drops the connection with this identifier, if any.
pub open spec fn deregister_spec(v: RegistryView, id: nat) -> RegistryView {
    RegistryView { next_id: v.next_id, connections: v.connections.filter(other_than(id)) }
}

/// Every identifier in `ids` belongs to a connection of `v` subscribed to
/// `channel`.
pub open spec fn all_subscribed(v: RegistryView, channel: Seq<char>, ids: Seq<u64>) -> bool {
    forall|k: int|
        0 <= k < ids.len() ==> exists|j: int|
            0 <= j < v.connections.len() && v.connections[j].id == #[trigger] ids[k] as nat
                && v.connections[j].channel == channel
}

/// A connection after a broadcast: the frame is added to its history exactly
/// when it subscribed to the channel and its queue did not refuse the frame.
pub open spec fn deliver(
    c: ConnectionView,
    channel: Seq<char>,
    frame: Seq<char>,
    refused: Seq<u64>,
) -> ConnectionView {
    if c.channel == channel && !refused.contains(c.id as u64) {
        ConnectionView { id: c.id, channel: c.channel, sent: c.sent.push(frame) }
    } else {
        c
    }
}

/// A broadcast hands the frame to every subscriber of the channel and to
/// no other connection; the subscribers in `refused` are those whose queue
/// refused it. Membership is unchanged.
pub open spec fn broadcast_spec(
    v: RegistryView,
    channel: Seq<char>,
    frame: Seq<char>,
    refused: Seq<u64>,
) -> RegistryView {
    RegistryView {
        next_id: v.next_id,
        connections: v.connections.map_values(
            |c: ConnectionView| deliver(c, channel, frame, refused),
        ),
    }
}

/// One live connection: its identifier, its channel and the sending half of
/// its outbound queue.
pub struct WebsocketConnection {
    id: u64,
    template_name: String,
    sender: FrameSender,
}

/// The connection registry.
pub struct WebsocketServer {
    next_user_id: u64,
    connections: Vec<WebsocketConnection>,
}

impl View for WebsocketServer {
    type V = RegistryView;

    closed spec fn view(&self) -> RegistryView {
        RegistryView {
            next_id: self.next_user_id as nat,
            connections: Seq::new(
                self.connections@.len(),
                |j: int|
                    ConnectionView {
                        id: self.connections@[j].id as nat,
                        channel: self.connections@[j].template_name@,
                        sent: self.connections@[j].sender.accepted(),
                    },
            ),
        }
    }
}

proof fn lemma_valid_same_ids(a: RegistryView, b: RegistryView)
    requires
        registry_valid(a),
        b.next_id == a.next_id,
        b.connections.len() == a.connections.len(),
        forall|j: int| 0 <= j < a.connections.len() ==> #[trigger] b.connections[j].id == a.connections[j].id,
    ensures
        registry_valid(b),
{
    assert forall|j: int, k: int| 0 <= j < k < b.connections.len() implies #[trigger] b.connections[j].id
        < #[trigger] b.connections[k].id by {
        assert(a.connections[j].id < a.connections[k].id);
    }
    assert forall|j: int| 0 <= j < b.connections.len() implies #[trigger] b.connections[j].id < b.next_id by {
        assert(a.connections[j].id < a.next_id);
    }
}

pub(crate) proof fn lemma_filter_keeps_all<A>(s: Seq<A>, p: spec_fn(A) -> bool)
    requires
        forall|j: int| 0 <= j < s.len() ==> p(#[trigger] s[j]),
    ensures
        s.filter(p) == s,
    decreases s.len(),
{
    reveal(Seq::filter);
    if s.len() > 0 {
        lemma_filter_keeps_all(s.drop_last(), p);
        assert(s.drop_last().push(s.last()) =~= s);
    }
}

proof fn lemma_filter_drops_one<A>(s: Seq<A>, p: spec_fn(A) -> bool, i: int)
    requires
        0 <= i < s.len(),
        !p(s[i]),
        forall|j: int| 0 <= j < s.len() && j != i ==> p(#[trigger] s[j]),
    ensures
        s.filter(p) == s.remove(i),
    decreases s.len(),
{
    reveal(Seq::filter);
    if i == s.len() - 1 {
        lemma_filter_keeps_all(s.drop_last(), p);
        assert(s.remove(i) =~= s.drop_last());
    } else {
        lemma_filter_drops_one(s.drop_last(), p, i);
        assert(s.drop_last().remove(i).push(s.last()) =~= s.remove(i));
    }
}

impl WebsocketServer {
    /// Internal consistency: the view is a valid registry.
    pub open spec fn wf(&self) -> bool {
        registry_valid(self@)
    }

    /// An empty registry whose first identifier is zero.
    pub fn new() -> (r: WebsocketServer)
        ensures
            r.wf(),
            registry_valid(r@),
            r@ == (RegistryView { next_id: 0, connections: seq![] }),
    {
        let r = WebsocketServer { next_user_id: 0, connections: Vec::new() };
        assert(r@.connections =~= seq![]);
        r
    }

    /// The identifier that the next registration will receive.
    pub fn next_id(&self) -> (r: u64)
        ensures
            r == self@.next_id,
    {
        self.next_user_id
    }

    /// The number of live connections.
    pub fn connection_count(&self) -> (r: usize)
        ensures
            r == self@.connections.len(),
    {
        self.connections.len()
    }

    /// Registers a new connection subscribed to `template_name` under the
    /// next identifier, and returns that identifier with the receiving half
    /// of the connection's fresh outbound queue.
    pub fn add_client_socket(&mut self, template_name: &str) -> (r: (u64, UnboundedReceiver<String>))
        requires
            old(self).wf(),
            old(self)@.next_id < u64::MAX,
        ensures
            final(self).wf(),
            registry_valid(final(self)@),
            r.0 == old(self)@.next_id,
            final(self)@ == register_spec(old(self)@, template_name@),
    {
        let id = self.next_user_id;
        let (sender, receiver) = new_frame_queue();
        let connection = WebsocketConnection { id, template_name: String::from_str(template_name), sender };
        self.connections.push(connection);
        self.next_user_id = id + 1;
        assert(self@.connections =~= register_spec(old(self)@, template_name@).connections);
        (id, receiver)
    }

    /// Removes the connection with this identifier; nothing happens when no
    /// such connection is registered, so a second call has no effect.
    pub fn user_disconnected(&mut self, id: u64)
        requires
            old(self).wf(),
        ensures
            final(self).wf(),
            registry_valid(final(self)@),
            final(self)@ == deregister_spec(old(self)@, id as nat),
    {
        let ghost v0 = self@;
        let ghost p = other_than(id as nat);
        let mut i: usize = 0;
        while i < self.connections.len()
            invariant
                self.wf(),
                self@ == v0,
                v0 == old(self)@,
                p == other_than(id as nat),
                i <= self.connections@.len(),
                forall|j: int| 0 <= j < i ==> p(#[trigger] v0.connections[j]),
            decreases self.connections@.len() - i,
        {
            if self.connections[i].id == id {
                assert(v0.connections[i as int].id == id as nat);
                proof {
                    assert forall|j: int| 0 <= j < v0.connections.len() && j != i implies p(
                        #[trigger] v0.connections[j],
                    ) by {
                        if j > i {
                            assert(v0.connections[i as int].id < v0.connections[j].id);
                        }
                        assert(v0.connections[j].id != id as nat);
                    }
                    lemma_filter_drops_one(v0.connections, p, i as int);
                }
                self.connections.remove(i);
                assert(self@.connections =~= v0.connections.remove(i as int));
                return;
            }
            i = i + 1;
        }
        proof {
            lemma_filter_keeps_all(v0.connections, p);
        }
    }

    /// Hands `frame` to the queue of every connection subscribed to
    /// `template_name`, in registration order, and to no other. A queue
    /// whose receiver is gone refuses the frame without stopping the
    /// broadcast; the identifiers of such connections are returned, and
    /// every other subscriber's queue has the frame at its back.
    pub fn broadcast_frame(&mut self, template_name: &str, frame: &String) -> (refused: Vec<u64>)
        requires
            old(self).wf(),
        ensures
            final(self).wf(),
            registry_valid(final(self)@),
            final(self)@ == broadcast_spec(old(self)@, template_name@, frame@, refused@),
            all_subscribed(old(self)@, template_name@, refused@),
    {
        let ghost v0 = self@;
        let ghost c0 = self.connections@;
        let target = String::from_str(template_name);
        let mut refused: Vec<u64> = Vec::new();
        let mut i: usize = 0;
        while i < self.connections.len()
            invariant
                v0 == old(self)@,
                registry_valid(v0),
                self.next_user_id == v0.next_id,
                self.connections@.len() == c0.len(),
                c0.len() == v0.connections.len(),
                target@ == template_name@,
                i <= c0.len(),
                forall|j: int|
                    0 <= j < c0.len() ==> (#[trigger] self.connections@[j]).id == c0[j].id
                        && self.connections@[j].template_name == c0[j].template_name,
                forall|j: int|
                    0 <= j < c0.len() ==> #[trigger] self@.connections[j] == (if j < i {
                        deliver(v0.connections[j], template_name@, frame@, refused@)
                    } else {
                        v0.connections[j]
                    }),
                forall|k: int|
                    0 <= k < refused@.len() ==> exists|j: int|
                        0 <= j < i && v0.connections[j].id == #[trigger] refused@[k] as nat
                            && v0.connections[j].channel == template_name@,
                all_subscribed(v0, template_name@, refused@),
            decreases c0.len() - i,
        {
            let ghost before = self@;
            let ghost refused_before = refused@;
            let ghost j = i as int;
            assert(self@.connections[j] == v0.connections[j]);
            assert(v0.connections[j].id == self.connections@[j].id as nat);
            assert(v0.connections[j].channel == self.connections@[j].template_name@);
            if self.connections[i].template_name == target {
                let accepted = offer_frame(&mut self.connections[i].sender, frame.clone());
                if !accepted {
                    refused.push(self.connections[i].id);
                    assert(v0.connections[j].channel == template_name@);
                    assert(refused@.last() as nat == v0.connections[j].id);
                    assert forall|k: int| 0 <= k < refused@.len() implies exists|m: int|
                        0 <= m < v0.connections.len() && v0.connections[m].id
                            == #[trigger] refused@[k] as nat && v0.connections[m].channel
                            == template_name@ by {
                        if k < refused_before.len() {
                            assert(refused_before[k] == refused@[k]);
                        } else {
                            assert(v0.connections[j].id == refused@[k] as nat);
                        }
                    }
                }
            }
            proof {
                assert forall|k: int| 0 <= k < c0.len() && k != j implies #[trigger] self@.connections[k]
                    == before.connections[k] by {}
                assert(!refused_before.contains(v0.connections[j].id as u64)) by {
                    if refused_before.contains(v0.connections[j].id as u64) {
                        let k = choose|k: int|
                            0 <= k < refused_before.len() && refused_before[k]
                                == v0.connections[j].id as u64;
                        assert(refused_before[k] == refused@[k]);
                    }
                }
                assert forall|k: int| 0 <= k < j implies deliver(
                    v0.connections[k],
                    template_name@,
                    frame@,
                    refused@,
                ) == #[trigger] deliver(v0.connections[k], template_name@, frame@, refused_before) by {
                    let y = v0.connections[k].id as u64;
                    assert(v0.connections[k].id < v0.connections[j].id);
                    assert(v0.connections[k].id < v0.next_id);
                    if refused@.contains(y) {
                        let idx = choose|idx: int| 0 <= idx < refused@.len() && refused@[idx] == y;
                        if idx < refused_before.len() {
                            assert(refused_before[idx] == y);
                        } else {
                            assert(refused@[idx] as nat == v0.connections[j].id);
                        }
                    }
                    if refused_before.contains(y) {
                        let idx = choose|idx: int|
                            0 <= idx < refused_before.len() && refused_before[idx] == y;
                        assert(refused@[idx] == y);
                    }
                }
                assert forall|k: int| 0 <= k < refused@.len() implies exists|m: int|
                    0 <= m < i + 1 && v0.connections[m].id == #[trigger] refused@[k] as nat
                        && v0.connections[m].channel == template_name@ by {
                    if k < refused_before.len() {
                        assert(refused_before[k] == refused@[k]);
                    } else {
                        assert(v0.connections[j].id == refused@[k] as nat);
                    }
                }
            }
            i = i + 1;
        }
        assert(self@.connections =~= broadcast_spec(v0, template_name@, frame@, refused@).connections);
        assert(v0 == old(self)@);
        refused
    }

    /// Serialises `message` once and broadcasts the frame to the subscribers
    /// of `template_name`. Returns the identifiers whose queue refused it.
    pub fn send_message_to_template_clients(
        &mut self,
        template_name: &str,
        message: &TemplateMessage,
    ) -> (refused: Vec<u64>)
        requires
            old(self).wf(),
        ensures
            final(self).wf(),
            registry_valid(final(self)@),
            frame_of(*message).is_some(),
            final(self)@ == broadcast_spec(
                old(self)@,
                template_name@,
                frame_of(*message).unwrap(),
                refused@,
            ),
            all_subscribed(old(self)@, template_name@, refused@),
    {
        match message.to_frame() {
            Some(frame) => self.broadcast_frame(template_name, &frame),
            None => Vec::new(),
        }
    }
}


} // verus!
