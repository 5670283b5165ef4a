//! Fan-out datagram server model: the client registry, the outbound
//! block queue with its free-list, and the control protocol served to
//! remote peers (`info`, `start`, `stop`).
//!
//! The socket, the poll loop and the background thread live outside
//! the library; they feed received payloads into [`handle_request`],
//! drain blocks from the [`SendQueue`] in order, and report per-peer
//! send failures back through [`ClientRegistry::apply_send_results`].

use vstd::prelude::*;
use vstd::seq_lib::group_seq_properties;

pub mod pkt;

verus! {

/// Address of a remote listener, as plain numbers: an IPv4 address
/// and a port.
#[derive(Clone, Copy, Debug, PartialEq, Eq, Structural, Hash)]
pub struct PeerAddr {
    pub ip: u32,
    pub port: u16,
}

/// One decoded control datagram.
#[derive(Clone, Copy, Debug, PartialEq, Eq, Structural)]
pub enum ControlRequest {
    /// `info`: greet the sender, register nothing.
    Info,
    /// `start`: add the sender to the registry.
    Start,
    /// `stop`: remove the sender from the registry.
    Stop,
    /// Anything else: log and ignore.
    Unknown,
}

/// The bytes of the `info` command.
pub open spec fn info_bytes() -> Seq<u8> {
    seq![105u8, 110u8, 102u8, 111u8]
}

/// The bytes of the `start` command.
pub open spec fn start_bytes() -> Seq<u8> {
    seq![115u8, 116u8, 97u8, 114u8, 116u8]
}

/// The bytes of the `stop` command.
pub open spec fn stop_bytes() -> Seq<u8> {
    seq![115u8, 116u8, 111u8, 112u8]
}

/// The reply sent to `info`: `Hi, how are you?`.
pub open spec fn info_reply_bytes() -> Seq<u8> {
    seq![
        72u8, 105u8, 44u8, 32u8, 104u8, 111u8, 119u8, 32u8, 97u8, 114u8, 101u8, 32u8,
        121u8, 111u8, 117u8, 63u8,
    ]
}

/// Decodes a control payload byte-for-byte; anything that is not
/// exactly one of the three commands is `Unknown`.
pub fn parse_request(buf: &[u8]) -> (r: ControlRequest)
    ensures
        (r == ControlRequest::Info) == (buf@ == info_bytes()),
        (r == ControlRequest::Start) == (buf@ == start_bytes()),
        (r == ControlRequest::Stop) == (buf@ == stop_bytes()),
        r == ControlRequest::Unknown ==> buf@ != info_bytes() && buf@ != start_bytes()
            && buf@ != stop_bytes(),
{
    if buf.len() == 4 && buf[0] == 105 && buf[1] == 110 && buf[2] == 102 && buf[3] == 111 {
        proof {
            assert(buf@ =~= info_bytes());
        }
        ControlRequest::Info
    } else if buf.len() == 5 && buf[0] == 115 && buf[1] == 116 && buf[2] == 97 && buf[3]
        == 114 && buf[4] == 116 {
        proof {
            assert(buf@ =~= start_bytes());
        }
        ControlRequest::Start
    } else if buf.len() == 4 && buf[0] == 115 && buf[1] == 116 && buf[2] == 111 && buf[3]
        == 112 {
        proof {
            assert(buf@ =~= stop_bytes());
        }
        ControlRequest::Stop
    } else {
        ControlRequest::Unknown
    }
}

/// Builds the greeting sent back to an `info` request.
pub fn info_reply() -> (r: Vec<u8>)
    ensures
        r@ == info_reply_bytes(),
{
    let r: Vec<u8> = vec![72, 105, 44, 32, 104, 111, 119, 32, 97, 114, 101, 32, 121, 111,
        117, 63];
    proof {
        assert(r@ =~= info_reply_bytes());
    }
    r
}

/// What `start` does to the registry: peers are deduplicated on
/// insert, so a peer already present is left exactly as it was.
pub open spec fn add_client_tr(s: Seq<PeerAddr>, addr: PeerAddr) -> Seq<PeerAddr> {
    if s.contains(addr) {
        s
    } else {
        s.push(addr)
    }
}

/// Peers of `s` kept in order, those whose send flag is false dropped.
pub open spec fn keep_ok(s: Seq<PeerAddr>, ok: Seq<bool>) -> Seq<PeerAddr>
    decreases s.len(),
{
    if s.len() == 0 || ok.len() == 0 {
        Seq::empty()
    } else {
        keep_ok(s.drop_last(), ok.drop_last()) + if ok.last() {
            seq![s.last()]
        } else {
            Seq::empty()
        }
    }
}

/// The ordered, duplicate-free set of peers currently listening.
pub struct ClientRegistry {
    clients: Vec<PeerAddr>,
}

impl View for ClientRegistry {
    type V = Seq<PeerAddr>;

    closed spec fn view(&self) -> Seq<PeerAddr> {
        self.clients@
    }
}

impl ClientRegistry {
    /// No peer appears twice.
    pub open spec fn wf(self) -> bool {
        forall|i: int, j: int|
            0 <= i < j < self@.len() ==> self@[i] != self@[j]
    }

    /// Starts empty: nobody listens until they ask.
    pub fn new() -> (r: ClientRegistry)
        ensures
            r@ == Seq::<PeerAddr>::empty(),
            r.wf(),
    {
        let r = ClientRegistry { clients: Vec::new() };
        proof {
            assert(r@ =~= Seq::<PeerAddr>::empty());
        }
        r
    }

    pub fn len(&self) -> (r: usize)
        ensures
            r == self@.len(),
    {
        self.clients.len()
    }

    /// The peer at a position, for walking the registry during a
    /// broadcast.
    pub fn peer_at(&self, i: usize) -> (r: PeerAddr)
        requires
            i < self@.len(),
        ensures
            r == self@[i as int],
    {
        self.clients[i]
    }

    pub fn contains(&self, addr: PeerAddr) -> (r: bool)
        ensures
            r == self@.contains(addr),
    {
        let mut i: usize = 0;
        while i < self.clients.len()
            invariant
                i <= self@.len(),
                forall|j: int| 0 <= j < i ==> self@[j] != addr,
            decreases self@.len() - i,
        {
            if self.clients[i].ip == addr.ip && self.clients[i].port == addr.port {
                proof {
                    assert(self@[i as int] == addr);
                }
                return true;
            }
            i += 1;
        }
        proof {
            assert(forall|j: int| 0 <= j < self@.len() ==> self@[j] != addr);
        }
        false
    }

    /// Registers a peer that sent `start`.  Receiving `start` any
    /// number of times from the same address registers the peer
    /// exactly once.
    pub fn add_new_client(&mut self, addr: PeerAddr)
        requires
            old(self).wf(),
        ensures
            final(self).wf(),
            final(self)@ == add_client_tr(old(self)@, addr),
            final(self)@.contains(addr),
    {
        if !self.contains(addr) {
            self.clients.push(addr);
            proof {
                assert(final(self)@.last() == addr);
                assert(final(self)@.contains(addr));
            }
        } else {
            proof {
                assert(final(self)@ == add_client_tr(old(self)@, addr));
            }
        }
    }

    /// Removes a peer that sent `stop` or whose socket went away;
    /// removing an address that is not registered is a no-op.
    pub fn remove_client(&mut self, addr: PeerAddr)
        requires
            old(self).wf(),
        ensures
            final(self).wf(),
            final(self)@ == old(self)@.filter(|a: PeerAddr| a != addr),
            !final(self)@.contains(addr),
            !old(self)@.contains(addr) ==> final(self)@ == old(self)@,
    {
        broadcast use group_seq_properties;

        let n = self.clients.len();
        let mut kept: Vec<PeerAddr> = Vec::new();
        let ghost pred = |a: PeerAddr| a != addr;
        proof {
            reveal(Seq::filter);
            assert(old(self)@.take(0).filter(pred) =~= Seq::<PeerAddr>::empty());
        }
        let mut i: usize = 0;
        while i < n
            invariant
                n == old(self)@.len(),
                self == old(self),
                i <= n,
                pred == (|a: PeerAddr| a != addr),
                kept@ == old(self)@.take(i as int).filter(pred),
            decreases n - i,
        {
            let c = self.clients[i];
            proof {
                reveal(Seq::filter);
                let t1 = old(self)@.take(i + 1);
                assert(t1.drop_last() =~= old(self)@.take(i as int));
                assert(t1.last() == old(self)@[i as int]);
            }
            if c.ip != addr.ip || c.port != addr.port {
                kept.push(c);
                proof {
                    assert(pred(c));
                    assert(kept@ == old(self)@.take(i + 1).filter(pred));
                }
            } else {
                proof {
                    assert(!pred(c));
                    assert(kept@ == old(self)@.take(i + 1).filter(pred));
                }
            }
            i += 1;
        }
        proof {
            assert(old(self)@.take(n as int) =~= old(self)@);
        }
        self.clients = kept;
        proof {
            let f = old(self)@.filter(pred);
            assert forall|p: int, q: int| 0 <= p < q < f.len() implies f[p] != f[q] by {
                lemma_filter_keeps_distinct(old(self)@, pred, p, q);
            }
            assert forall|p: int| 0 <= p < f.len() implies f[p] != addr by {
                Seq::lemma_filter_pred(old(self)@, pred, p);
            }
            if f.contains(addr) {
                let w = choose|w: int| 0 <= w < f.len() && f[w] == addr;
                assert(false);
            }
            if !old(self)@.contains(addr) {
                assert forall|p: int| 0 <= p < old(self)@.len() implies pred(
                    #[trigger] old(self)@[p],
                ) by {}
                lemma_filter_all(old(self)@, pred);
            }
        }
    }

    /// Applies the outcome of one broadcast: every peer whose send
    /// failed is dropped, the others stay in order, and the failed
    /// peers are never attempted again.
    pub fn apply_send_results(&mut self, ok: &Vec<bool>)
        requires
            old(self).wf(),
            ok@.len() == old(self)@.len(),
        ensures
            final(self).wf(),
            final(self)@ == keep_ok(old(self)@, ok@),
    {
        let n = self.clients.len();
        let mut kept: Vec<PeerAddr> = Vec::new();
        proof {
            assert(kept@ =~= keep_ok(old(self)@.take(0), ok@.take(0)));
        }
        let mut i: usize = 0;
        while i < n
            invariant
                n == old(self)@.len(),
                ok@.len() == n,
                self == old(self),
                old(self).wf(),
                i <= n,
                kept@ == keep_ok(old(self)@.take(i as int), ok@.take(i as int)),
                forall|p: int, q: int| 0 <= p < q < kept@.len() ==> kept@[p] != kept@[q],
                forall|p: int|
                    0 <= p < kept@.len() ==> exists|q: int|
                        0 <= q < i && #[trigger] kept@[p] == #[trigger] old(self)@[q],
            decreases n - i,
        {
            proof {
                let s1 = old(self)@.take(i + 1);
                let o1 = ok@.take(i + 1);
                assert(s1.drop_last() =~= old(self)@.take(i as int));
                assert(o1.drop_last() =~= ok@.take(i as int));
                assert(s1.last() == old(self)@[i as int]);
                assert(o1.last() == ok@[i as int]);
            }
            if ok[i] {
                let c = self.clients[i];
                proof {
                    assert forall|p: int| 0 <= p < kept@.len() implies kept@[p] != c by {
                        let q = choose|q: int| 0 <= q < i && kept@[p] == old(self)@[q];
                        assert(old(self)@[q] != old(self)@[i as int]);
                    }
                }
                kept.push(c);
            }
            i += 1;
        }
        proof {
            assert(old(self)@.take(n as int) =~= old(self)@);
            assert(ok@.take(n as int) =~= ok@);
        }
        self.clients = kept;
    }
}

/// Filtering never brings two equal elements together when the
/// original sequence had no duplicates.
proof fn lemma_filter_keeps_distinct(
    s: Seq<PeerAddr>,
    pred: spec_fn(PeerAddr) -> bool,
    p: int,
    q: int,
)
    requires
        forall|i: int, j: int| 0 <= i < j < s.len() ==> s[i] != s[j],
        0 <= p < q < s.filter(pred).len(),
    ensures
        s.filter(pred)[p] != s.filter(pred)[q],
    decreases s.len(),
{
    reveal(Seq::filter);
    broadcast use Seq::lemma_filter_len;

    if s.len() > 0 {
        let sub = s.drop_last().filter(pred);
        if q < sub.len() {
            lemma_filter_keeps_distinct(s.drop_last(), pred, p, q);
        } else {
            // q indexes the appended last element; p stays inside the
            // filtered prefix, whose members all occur in the prefix.
            assert(pred(s.last()));
            assert(s.filter(pred)[q] == s.last());
            lemma_filter_member_of(s.drop_last(), pred, p);
            let w = choose|w: int|
                0 <= w < s.drop_last().len() && s.drop_last()[w] == sub[p];
            assert(s[w] != s[s.len() - 1]);
        }
    }
}

/// Every member of a filtered sequence occurs in the original.
proof fn lemma_filter_member_of(s: Seq<PeerAddr>, pred: spec_fn(PeerAddr) -> bool, p: int)
    requires
        0 <= p < s.filter(pred).len(),
    ensures
        exists|w: int| 0 <= w < s.len() && s[w] == s.filter(pred)[p],
    decreases s.len(),
{
    reveal(Seq::filter);
    broadcast use Seq::lemma_filter_len;

    if s.len() > 0 {
        let sub = s.drop_last().filter(pred);
        if p < sub.len() {
            lemma_filter_member_of(s.drop_last(), pred, p);
            let w = choose|w: int|
                0 <= w < s.drop_last().len() && s.drop_last()[w] == sub[p];
            assert(s[w] == s.filter(pred)[p]);
        } else {
            assert(s[s.len() - 1] == s.filter(pred)[p]);
        }
    }
}

/// A filter that keeps every element changes nothing.
proof fn lemma_filter_all(s: Seq<PeerAddr>, pred: spec_fn(PeerAddr) -> bool)
    requires
        forall|i: int| 0 <= i < s.len() ==> pred(#[trigger] s[i]),
    ensures
        s.filter(pred) =~= s,
    decreases s.len(),
{
    reveal(Seq::filter);
    if s.len() > 0 {
        assert forall|i: int| 0 <= i < s.drop_last().len() implies pred(
            #[trigger] s.drop_last()[i],
        ) by {
            assert(s.drop_last()[i] == s[i]);
        }
        lemma_filter_all(s.drop_last(), pred);
        assert(pred(s.last()));
        assert(s.filter(pred) =~= s.drop_last().push(s.last()));
        assert(s.drop_last().push(s.last()) =~= s);
    }
}

/// Receiving `start` twice from one address registers the peer
/// exactly once: the second `start` leaves the registry unchanged.
pub proof fn lemma_start_is_idempotent(s: Seq<PeerAddr>, addr: PeerAddr)
    ensures
        add_client_tr(add_client_tr(s, addr), addr) == add_client_tr(s, addr),
{
    let once = add_client_tr(s, addr);
    if s.contains(addr) {
    } else {
        assert(once[s.len() as int] == addr);
        assert(once.contains(addr));
    }
}

/// The outbound queue: payload blocks waiting for broadcast, in
/// first-in first-out order, and a free-list of emptied blocks that
/// amortizes allocation.
pub struct SendQueue {
    to_send: Vec<Vec<u8>>,
    free: Vec<Vec<u8>>,
}

impl SendQueue {
    /// The payloads waiting to go out, oldest first.
    pub closed spec fn blocks(self) -> Seq<Seq<u8>> {
        self.to_send.deep_view()
    }

    /// Every block parked on the free-list is empty.
    pub closed spec fn wf(self) -> bool {
        forall|i: int| 0 <= i < self.free@.len() ==> self.free@[i]@.len() == 0
    }

    pub fn new() -> (r: SendQueue)
        ensures
            r.wf(),
            r.blocks() == Seq::<Seq<u8>>::empty(),
    {
        let r = SendQueue { to_send: Vec::new(), free: Vec::new() };
        proof {
            assert(r.blocks() =~= Seq::<Seq<u8>>::empty());
        }
        r
    }

    /// Queues one payload for delivery to every registered peer; an
    /// empty payload is not queued.  The block is taken from the
    /// free-list when one is parked there.
    pub fn send_to_all(&mut self, buf: &[u8])
        requires
            old(self).wf(),
        ensures
            final(self).wf(),
            buf@.len() == 0 ==> final(self).blocks() == old(self).blocks(),
            buf@.len() > 0 ==> final(self).blocks() == old(self).blocks().push(buf@),
    {
        if buf.len() == 0 {
            proof {
                assert(final(self).blocks() =~= old(self).blocks());
            }
            return ;
        }
        let mut block: Vec<u8> = match self.free.pop() {
            Some(b) => b,
            None => Vec::new(),
        };
        proof {
            assert(block@.len() == 0);
        }
        let mut i: usize = 0;
        while i < buf.len()
            invariant
                i <= buf@.len(),
                block@ == buf@.take(i as int),
            decreases buf@.len() - i,
        {
            block.push(buf[i]);
            i += 1;
        }
        proof {
            assert(block@ =~= buf@);
        }
        self.to_send.push(block);
        proof {
            assert(final(self).blocks() =~~= old(self).blocks().push(buf@));
        }
    }

    /// Takes the oldest block for broadcast; `None` when nothing
    /// waits.  Blocks leave in exactly the order they were queued.
    pub fn pop_front_block(&mut self) -> (r: Option<Vec<u8>>)
        requires
            old(self).wf(),
        ensures
            final(self).wf(),
            old(self).blocks().len() == 0 ==> r is None && final(self).blocks() == old(
                self,
            ).blocks(),
            old(self).blocks().len() > 0 ==> {
                &&& r matches Some(b) && b@ == old(self).blocks()[0]
                &&& final(self).blocks() == old(self).blocks().drop_first()
            },
    {
        if self.to_send.len() == 0 {
            proof {
                assert(final(self).blocks() =~= old(self).blocks());
            }
            return None;
        }
        let b = self.to_send.remove(0);
        proof {
            assert(final(self).blocks() =~= old(self).blocks().drop_first());
        }
        Some(b)
    }

    /// Returns an emptied block to the free-list after its payload was
    /// broadcast.
    pub fn recycle(&mut self, block: Vec<u8>)
        requires
            old(self).wf(),
        ensures
            final(self).wf(),
            final(self).blocks() == old(self).blocks(),
    {
        let mut block = block;
        block.clear();
        self.free.push(block);
        proof {
            assert(final(self).blocks() =~= old(self).blocks());
        }
    }
}

/// Serves one control datagram: `info` earns the sender a greeting
/// and changes nothing; `start` registers the sender once; `stop`
/// unregisters it; anything else is dropped.
pub fn handle_request(registry: &mut ClientRegistry, buf: &[u8], addr: PeerAddr) -> (reply:
    Option<Vec<u8>>)
    requires
        old(registry).wf(),
    ensures
        final(registry).wf(),
        buf@ == info_bytes() ==> (reply matches Some(r) && r@ == info_reply_bytes())
            && final(registry)@ == old(registry)@,
        buf@ == start_bytes() ==> reply is None && final(registry)@ == add_client_tr(
            old(registry)@,
            addr,
        ),
        buf@ == stop_bytes() ==> reply is None && final(registry)@ == old(
            registry,
        )@.filter(|a: PeerAddr| a != addr),
        buf@ != info_bytes() && buf@ != start_bytes() && buf@ != stop_bytes() ==> reply
            is None && final(registry)@ == old(registry)@,
{
    match parse_request(buf) {
        ControlRequest::Info => Some(info_reply()),
        ControlRequest::Start => {
            registry.add_new_client(addr);
            None
        },
        ControlRequest::Stop => {
            registry.remove_client(addr);
            None
        },
        ControlRequest::Unknown => None,
    }
}

} // verus!
