//! The server's clients: who is subscribed to updates and over which
//! transport, and which way a message to each of them goes.
use vstd::prelude::*;
use crate::codec::SocketAddress;
use crate::routes::{OscArg, ReplyKind, ReplyRoute, reply_route_address, reply_segments};
use crate::ids::uuid_hyphenated;
use crate::oscpath::address_of;
use crate::wire::{encode_osc, osc_message_bytes, sendable};

verus! {

/// The largest UDP payload, in bytes, that the server sends. (576 bytes of
/// packet, less the largest IP header and the UDP header: a payload of this
/// size or less can always be delivered over IP.)
pub const UDP_MAX_PACKET_SIZE: usize = 508;

/// How long, in nanoseconds, a UDP client stays subscribed after it was last
/// heard from.
pub const UDP_SUBSCRIPTION_NANOS: u64 = 30_000_000_000;

/// The port that replies to a client are sent to, whatever port it sent from.
pub const CLIENT_REPLY_PORT: u16 = 53001;

/// A client subscribed over UDP.
#[derive(Clone, Copy, Debug, PartialEq, Eq, Structural)]
pub struct UdpClient {
    /// When the client subscribed or was last heard from (nanoseconds of a
    /// monotonic clock).
    pub subscribed_at: u64,
    /// The source address of a TCP connection of the same client: messages
    /// too large for UDP go there, while that connection is open.
    pub tcp_addr: Option<SocketAddress>,
}

/// The transport a request came over.
#[derive(Clone, Copy, Debug, PartialEq, Eq, Structural)]
pub enum Transport {
    Udp,
    Tcp,
}

/// Who sent the request being handled, and how.
#[derive(Clone, Copy, Debug, PartialEq, Eq, Structural)]
pub struct Requester {
    pub transport: Transport,
    pub addr: SocketAddress,
}

/// Which way a message to a client goes.
#[derive(Clone, Copy, Debug, PartialEq, Eq, Structural)]
pub enum Route {
    /// Over UDP, as it is.
    Udp,
    /// Over the open TCP connection from this address.
    Tcp(SocketAddress),
    /// It is too large for UDP and no TCP connection can take it: an
    /// "oversized" reply goes over UDP in its place.
    Oversized,
}

/// The map that a list of (address, value) pairs stands for.
pub open spec fn pairs_map<V>(s: Seq<(SocketAddress, V)>) -> Map<SocketAddress, V>
    decreases s.len(),
{
    if s.len() == 0 {
        Map::empty()
    } else {
        pairs_map(s.drop_last()).insert(s.last().0, s.last().1)
    }
}

/// No address occurs twice in the list.
pub open spec fn keys_distinct<V>(s: Seq<(SocketAddress, V)>) -> bool {
    forall|i: int, j: int| 0 <= i < j < s.len() ==> #[trigger] s[i].0 != #[trigger] s[j].0
}

/// What a list of distinct addresses maps each address to.
proof fn lemma_pairs_map<V>(s: Seq<(SocketAddress, V)>)
    requires
        keys_distinct(s),
    ensures
        forall|a: SocketAddress|
            #[trigger] pairs_map(s).contains_key(a) <==> exists|i: int| 0 <= i < s.len() && s[i].0 == a,
        forall|i: int| 0 <= i < s.len() ==> #[trigger] pairs_map(s)[s[i].0] == s[i].1,
        pairs_map(s).dom().finite(),
    decreases s.len(),
{
    if s.len() > 0 {
        let t = s.drop_last();
        assert(keys_distinct(t)) by {
            assert forall|i: int, j: int| 0 <= i < j < t.len() implies #[trigger] t[i].0 != #[trigger] t[j].0 by {
                assert(t[i] == s[i] && t[j] == s[j]);
            }
        }
        lemma_pairs_map(t);
        assert forall|a: SocketAddress|
            #[trigger] pairs_map(s).contains_key(a) <==> exists|i: int| 0 <= i < s.len() && s[i].0 == a by {
            if pairs_map(s).contains_key(a) && a != s.last().0 {
                let i = choose|i: int| 0 <= i < t.len() && t[i].0 == a;
                assert(s[i] == t[i]);
            }
            if exists|i: int| 0 <= i < s.len() && s[i].0 == a {
                let i = choose|i: int| 0 <= i < s.len() && s[i].0 == a;
                if i < t.len() {
                    assert(t[i] == s[i]);
                }
            }
        }
        assert forall|i: int| 0 <= i < s.len() implies #[trigger] pairs_map(s)[s[i].0] == s[i].1 by {
            if i < t.len() {
                assert(t[i] == s[i]);
                assert(s[i].0 != s[s.len() - 1].0);
            }
        }
    }
}

/// Removing the pair at `i` removes its address from the map.
proof fn lemma_pairs_remove<V>(s: Seq<(SocketAddress, V)>, i: int)
    requires
        keys_distinct(s),
        0 <= i < s.len(),
    ensures
        keys_distinct(s.remove(i)),
        pairs_map(s.remove(i)) == pairs_map(s).remove(s[i].0),
{
    let r = s.remove(i);
    assert(keys_distinct(r)) by {
        assert forall|a: int, b: int| 0 <= a < b < r.len() implies #[trigger] r[a].0 != #[trigger] r[b].0 by {
            let a2 = if a < i { a } else { a + 1 };
            let b2 = if b < i { b } else { b + 1 };
            assert(r[a] == s[a2] && r[b] == s[b2]);
        }
    }
    lemma_pairs_map(s);
    lemma_pairs_map(r);
    assert forall|a: SocketAddress| #[trigger] pairs_map(r).contains_key(a) <==> pairs_map(s).remove(s[i].0).contains_key(a) by {
        if pairs_map(r).contains_key(a) {
            let j = choose|j: int| 0 <= j < r.len() && r[j].0 == a;
            let j2 = if j < i { j } else { j + 1 };
            assert(r[j] == s[j2]);
        }
        if pairs_map(s).remove(s[i].0).contains_key(a) {
            let j = choose|j: int| 0 <= j < s.len() && s[j].0 == a;
            assert(j != i);
            let j2 = if j < i { j } else { j - 1 };
            assert(r[j2] == s[j]);
        }
    }
    assert forall|a: SocketAddress| #[trigger] pairs_map(r).contains_key(a) implies pairs_map(r)[a] == pairs_map(s)[a] by {
        let j = choose|j: int| 0 <= j < r.len() && r[j].0 == a;
        let j2 = if j < i { j } else { j + 1 };
        assert(r[j] == s[j2]);
    }
    assert(pairs_map(r) =~= pairs_map(s).remove(s[i].0));
}

/// Replacing the value at `i` replaces it in the map.
proof fn lemma_pairs_update<V>(s: Seq<(SocketAddress, V)>, i: int, v: V)
    requires
        keys_distinct(s),
        0 <= i < s.len(),
    ensures
        keys_distinct(s.update(i, (s[i].0, v))),
        pairs_map(s.update(i, (s[i].0, v))) == pairs_map(s).insert(s[i].0, v),
{
    let r = s.update(i, (s[i].0, v));
    assert(keys_distinct(r)) by {
        assert forall|a: int, b: int| 0 <= a < b < r.len() implies #[trigger] r[a].0 != #[trigger] r[b].0 by {
            assert(r[a].0 == s[a].0 && r[b].0 == s[b].0);
        }
    }
    lemma_pairs_map(s);
    lemma_pairs_map(r);
    assert forall|a: SocketAddress| #[trigger] pairs_map(r).contains_key(a) <==> pairs_map(s).insert(s[i].0, v).contains_key(a) by {
        if pairs_map(r).contains_key(a) {
            let j = choose|j: int| 0 <= j < r.len() && r[j].0 == a;
            assert(r[j].0 == s[j].0);
        }
        if pairs_map(s).contains_key(a) {
            let j = choose|j: int| 0 <= j < s.len() && s[j].0 == a;
            assert(r[j].0 == s[j].0);
        }
        assert(r[i].0 == s[i].0);
    }
    assert forall|a: SocketAddress| #[trigger] pairs_map(r).contains_key(a) implies pairs_map(r)[a] == pairs_map(s).insert(s[i].0, v)[a] by {
        let j = choose|j: int| 0 <= j < r.len() && r[j].0 == a;
        if j != i {
            assert(r[j] == s[j]);
            assert(s[j].0 != s[i].0);
        }
    }
    assert(pairs_map(r) =~= pairs_map(s).insert(s[i].0, v));
}

/// Where `addr` stands in the list, if it does.
fn find_pair<V>(s: &Vec<(SocketAddress, V)>, addr: SocketAddress) -> (r: Option<usize>)
    requires
        keys_distinct(s@),
    ensures
        r matches Some(i) ==> i < s@.len() && s@[i as int].0 == addr,
        r is None <==> !pairs_map(s@).contains_key(addr),
{
    let mut i: usize = 0;
    while i < s.len()
        invariant
            i <= s@.len(),
            keys_distinct(s@),
            forall|j: int| 0 <= j < i ==> s@[j].0 != addr,
        decreases s@.len() - i,
    {
        if s[i].0 == addr {
            proof {
                lemma_pairs_map(s@);
                assert(s@[i as int].0 == addr);
            }
            return Some(i);
        }
        i = i + 1;
    }
    proof {
        lemma_pairs_map(s@);
    }
    None
}

/// A UDP client after it was heard from at `now`.
pub open spec fn heard_from(c: UdpClient, now: u64) -> UdpClient {
    UdpClient { subscribed_at: now, tcp_addr: c.tcp_addr }
}

/// Whether a UDP client last heard from at `at` is still subscribed at `now`:
/// at most thirty seconds have passed (or the clock reads earlier than `at`).
pub open spec fn still_subscribed(at: u64, now: u64) -> bool {
    now < at || now - at <= UDP_SUBSCRIPTION_NANOS
}

/// Which way a message of `len` bytes to `addr` goes, given the UDP and TCP
/// clients.
pub open spec fn route_for(
    udp: Map<SocketAddress, UdpClient>,
    tcp: Map<SocketAddress, bool>,
    addr: SocketAddress,
    len: nat,
) -> Route {
    if len <= UDP_MAX_PACKET_SIZE {
        Route::Udp
    } else if udp.contains_key(addr) && udp[addr].tcp_addr is Some && tcp.contains_key(
        udp[addr].tcp_addr->0,
    ) {
        Route::Tcp(udp[addr].tcp_addr->0)
    } else {
        Route::Oversized
    }
}


/// The UDP clients after a request over UDP at `now`: every one of them
/// counts as heard from.
pub open spec fn all_heard_from(m: Map<SocketAddress, UdpClient>, now: u64) -> Map<SocketAddress, UdpClient> {
    m.map_values(|c: UdpClient| heard_from(c, now))
}

/// Hearing from the UDP clients at `now` keeps the same clients, each with
/// its TCP association; only when each was last heard from changes.
pub proof fn lemma_hearing_keeps_associations(m: Map<SocketAddress, UdpClient>, now: u64)
    ensures
        all_heard_from(m, now).dom() == m.dom(),
        forall|a: SocketAddress| #[trigger] m.contains_key(a) ==> all_heard_from(m, now)[a].tcp_addr == m[a].tcp_addr
            && all_heard_from(m, now)[a].subscribed_at == now,
{
    assert(all_heard_from(m, now).dom() =~= m.dom());
}

/// Hearing from the UDP clients does not change which way any message goes.
pub proof fn lemma_hearing_keeps_routes(
    m: Map<SocketAddress, UdpClient>,
    tcp: Map<SocketAddress, bool>,
    a: SocketAddress,
    len: nat,
    now: u64,
)
    ensures
        route_for(all_heard_from(m, now), tcp, a, len) == route_for(m, tcp, a, len),
{
    lemma_hearing_keeps_associations(m, now);
    if m.contains_key(a) {
        assert(all_heard_from(m, now)[a].tcp_addr == m[a].tcp_addr);
    }
}

/// The UDP clients that are still subscribed at `now`.
pub open spec fn unexpired(m: Map<SocketAddress, UdpClient>, now: u64) -> Map<SocketAddress, UdpClient> {
    Map::new(
        |a: SocketAddress| m.contains_key(a) && still_subscribed(m[a].subscribed_at, now),
        |a: SocketAddress| m[a],
    )
}

/// Two lists with the same addresses in the same places map the same
/// addresses.
proof fn lemma_pairs_same_keys<V>(s: Seq<(SocketAddress, V)>, t: Seq<(SocketAddress, V)>)
    requires
        keys_distinct(s),
        s.len() == t.len(),
        forall|i: int| 0 <= i < s.len() ==> #[trigger] t[i].0 == s[i].0,
    ensures
        keys_distinct(t),
        pairs_map(t).dom() == pairs_map(s).dom(),
        forall|i: int| 0 <= i < t.len() ==> #[trigger] pairs_map(t)[t[i].0] == t[i].1,
{
    assert(keys_distinct(t)) by {
        assert forall|a: int, b: int| 0 <= a < b < t.len() implies #[trigger] t[a].0 != #[trigger] t[b].0 by {
            assert(t[a].0 == s[a].0 && t[b].0 == s[b].0);
        }
    }
    lemma_pairs_map(s);
    lemma_pairs_map(t);
    assert forall|a: SocketAddress| #[trigger] pairs_map(t).dom().contains(a) <==> pairs_map(s).dom().contains(a) by {
        if pairs_map(t).contains_key(a) {
            let j = choose|j: int| 0 <= j < t.len() && t[j].0 == a;
            assert(s[j].0 == a);
        }
        if pairs_map(s).contains_key(a) {
            let j = choose|j: int| 0 <= j < s.len() && s[j].0 == a;
            assert(t[j].0 == a);
        }
    }
    assert(pairs_map(t).dom() =~= pairs_map(s).dom());
}

/// Adding a pair with a new address to a list adds it to the map.
proof fn lemma_pairs_push<V>(s: Seq<(SocketAddress, V)>, a: SocketAddress, v: V)
    requires
        keys_distinct(s),
        !pairs_map(s).contains_key(a),
    ensures
        keys_distinct(s.push((a, v))),
        pairs_map(s.push((a, v))) == pairs_map(s).insert(a, v),
{
    lemma_pairs_map(s);
    let t = s.push((a, v));
    assert forall|i: int, j: int| 0 <= i < j < t.len() implies #[trigger] t[i].0 != #[trigger] t[j].0 by {
        if j == s.len() {
            assert(t[i] == s[i]);
            if s[i].0 == a {
                assert(pairs_map(s).contains_key(a));
            }
        } else {
            assert(t[i] == s[i] && t[j] == s[j]);
        }
    }
    assert(t.drop_last() =~= s);
}


/// Taking one more pair of a list of distinct addresses adds a new address.
proof fn lemma_take_step<V>(s: Seq<(SocketAddress, V)>, i: int)
    requires
        keys_distinct(s),
        0 <= i < s.len(),
    ensures
        keys_distinct(s.take(i)),
        pairs_map(s.take(i + 1)) == pairs_map(s.take(i)).insert(s[i].0, s[i].1),
        !pairs_map(s.take(i)).contains_key(s[i].0),
{
    let prev = s.take(i);
    let next = s.take(i + 1);
    assert(next.drop_last() =~= prev);
    assert(next.last() == s[i]);
    assert forall|x: int, y: int| 0 <= x < y < prev.len() implies #[trigger] prev[x].0 != #[trigger] prev[y].0 by {
        assert(prev[x] == s[x] && prev[y] == s[y]);
    }
    lemma_pairs_map(prev);
    if pairs_map(prev).contains_key(s[i].0) {
        let j = choose|j: int| 0 <= j < prev.len() && prev[j].0 == s[i].0;
        assert(prev[j] == s[j]);
    }
}

/// The addresses of the pairs whose flag is set, in order.
pub open spec fn flagged(s: Seq<(SocketAddress, bool)>) -> Seq<SocketAddress>
    decreases s.len(),
{
    if s.len() == 0 {
        Seq::empty()
    } else if s.last().1 {
        flagged(s.drop_last()).push(s.last().0)
    } else {
        flagged(s.drop_last())
    }
}

/// The flagged addresses of a list of distinct addresses are those whose flag
/// is set in its map, each once.
proof fn lemma_flagged(s: Seq<(SocketAddress, bool)>)
    requires
        keys_distinct(s),
    ensures
        flagged(s).no_duplicates(),
        flagged(s).to_set() == pairs_map(s).dom().filter(|a: SocketAddress| pairs_map(s)[a]),
    decreases s.len(),
{
    let m = pairs_map(s);
    if s.len() == 0 {
        assert(flagged(s).to_set() =~= m.dom().filter(|a: SocketAddress| m[a]));
    } else {
        let t = s.drop_last();
        assert(keys_distinct(t)) by {
            assert forall|x: int, y: int| 0 <= x < y < t.len() implies #[trigger] t[x].0 != #[trigger] t[y].0 by {
                assert(t[x] == s[x] && t[y] == s[y]);
            }
        }
        lemma_flagged(t);
        lemma_pairs_map(t);
        let a0 = s.last().0;
        assert(!pairs_map(t).contains_key(a0)) by {
            if pairs_map(t).contains_key(a0) {
                let j = choose|j: int| 0 <= j < t.len() && t[j].0 == a0;
                assert(t[j] == s[j]);
                assert(s[j].0 != s[s.len() - 1].0);
            }
        }
        let mt = pairs_map(t);
        assert(!flagged(t).contains(a0)) by {
            if flagged(t).contains(a0) {
                assert(flagged(t).to_set().contains(a0));
            }
        }
        assert forall|a: SocketAddress| #[trigger] flagged(s).contains(a) <==> (m.contains_key(a) && m[a]) by {
            vstd::seq_lib::lemma_seq_contains_after_push(flagged(t), a0, a);
            if a != a0 {
                assert(flagged(t).to_set().contains(a) == mt.dom().filter(|a: SocketAddress| mt[a]).contains(a));
            }
        }
        assert(flagged(s).to_set() =~= m.dom().filter(|a: SocketAddress| m[a]));
        if s.last().1 {
            vstd::seq_lib::lemma_seq_contains_after_push(flagged(t), a0, a0);
            assert forall|x: int, y: int| 0 <= x < flagged(s).len() && 0 <= y < flagged(s).len() && x != y implies
                flagged(s)[x] != flagged(s)[y] by {
                if x == flagged(t).len() {
                    assert(flagged(t).contains(flagged(t)[y]));
                } else if y == flagged(t).len() {
                    assert(flagged(t).contains(flagged(t)[x]));
                }
            }
        }
    }
}

/// The clients of the server.
pub struct Clients {
    udp: Vec<(SocketAddress, UdpClient)>,
    tcp: Vec<(SocketAddress, bool)>,
}

impl Clients {
    #[verifier::type_invariant]
    spec fn distinct(self) -> bool {
        keys_distinct(self.udp@) && keys_distinct(self.tcp@)
    }

    /// The clients subscribed over UDP, by source address.
    pub closed spec fn udp_clients(self) -> Map<SocketAddress, UdpClient> {
        pairs_map(self.udp@)
    }

    /// The open TCP connections, by source address, and whether each is
    /// subscribed.
    pub closed spec fn tcp_clients(self) -> Map<SocketAddress, bool> {
        pairs_map(self.tcp@)
    }

    /// No clients.
    pub fn new() -> (c: Self)
        ensures
            c.udp_clients() == Map::<SocketAddress, UdpClient>::empty(),
            c.tcp_clients() == Map::<SocketAddress, bool>::empty(),
    {
        Clients { udp: Vec::new(), tcp: Vec::new() }
    }

    /// The UDP client at `addr`, if there is one.
    pub fn udp_client(&self, addr: SocketAddress) -> (r: Option<UdpClient>)
        ensures
            r matches Some(c) ==> self.udp_clients().contains_key(addr) && self.udp_clients()[addr] == c,
            r is None <==> !self.udp_clients().contains_key(addr),
    {
        proof {
            use_type_invariant(self);
            lemma_pairs_map(self.udp@);
        }
        match find_pair(&self.udp, addr) {
            Some(i) => Some(self.udp[i].1),
            None => None,
        }
    }

    /// Whether a TCP connection from `addr` is open, and if so whether it is
    /// subscribed.
    pub fn tcp_client(&self, addr: SocketAddress) -> (r: Option<bool>)
        ensures
            r matches Some(b) ==> self.tcp_clients().contains_key(addr) && self.tcp_clients()[addr] == b,
            r is None <==> !self.tcp_clients().contains_key(addr),
    {
        proof {
            use_type_invariant(self);
            lemma_pairs_map(self.tcp@);
        }
        match find_pair(&self.tcp, addr) {
            Some(i) => Some(self.tcp[i].1),
            None => None,
        }
    }

    /// A TCP connection from `addr` was opened: it is not subscribed yet.
    pub fn tcp_connected(&mut self, addr: SocketAddress)
        ensures
            final(self).tcp_clients() == old(self).tcp_clients().insert(addr, false),
            final(self).udp_clients() == old(self).udp_clients(),
    {
        proof {
            use_type_invariant(&*self);
        }
        let mut tcp = Vec::new();
        std::mem::swap(&mut tcp, &mut self.tcp);
        let ghost before = tcp@;
        match find_pair(&tcp, addr) {
            Some(i) => {
                proof {
                    lemma_pairs_update(before, i as int, false);
                }
                tcp.set(i, (addr, false));
            },
            None => {
                proof {
                    lemma_pairs_map(before);
                    assert forall|i: int, j: int| 0 <= i < j < before.push((addr, false)).len() implies
                        #[trigger] before.push((addr, false))[i].0 != #[trigger] before.push((addr, false))[j].0 by {
                        if j == before.len() {
                            assert(before[i].0 != addr);
                        }
                    }
                    assert(before.push((addr, false)).drop_last() =~= before);
                }
                tcp.push((addr, false));
            },
        }
        self.tcp = tcp;
    }

    /// The TCP connection from `addr` was closed or failed.
    pub fn tcp_disconnected(&mut self, addr: SocketAddress)
        ensures
            final(self).tcp_clients() == old(self).tcp_clients().remove(addr),
            final(self).udp_clients() == old(self).udp_clients(),
    {
        proof {
            use_type_invariant(&*self);
        }
        let mut tcp = Vec::new();
        std::mem::swap(&mut tcp, &mut self.tcp);
        match find_pair(&tcp, addr) {
            Some(i) => {
                proof {
                    lemma_pairs_remove(tcp@, i as int);
                }
                tcp.remove(i);
            },
            None => {
                proof {
                    assert(old(self).tcp_clients().remove(addr) =~= old(self).tcp_clients());
                }
            },
        }
        self.tcp = tcp;
    }
    /// Sending to the TCP connection from `addr` failed: it is unsubscribed
    /// (it stays open).
    pub fn tcp_send_failed(&mut self, addr: SocketAddress)
        ensures
            final(self).tcp_clients() == if old(self).tcp_clients().contains_key(addr) {
                old(self).tcp_clients().insert(addr, false)
            } else {
                old(self).tcp_clients()
            },
            final(self).udp_clients() == old(self).udp_clients(),
    {
        proof {
            use_type_invariant(&*self);
        }
        let mut tcp = Vec::new();
        std::mem::swap(&mut tcp, &mut self.tcp);
        let ghost before = tcp@;
        match find_pair(&tcp, addr) {
            Some(i) => {
                proof {
                    lemma_pairs_update(before, i as int, false);
                }
                tcp.set(i, (addr, false));
            },
            None => {},
        }
        self.tcp = tcp;
    }

    /// The requester subscribes: a UDP client (again) from now, with no TCP
    /// connection associated; a TCP connection, from now on.
    pub fn subscribe(&mut self, rd: Requester, now: u64)
        requires
            rd.transport == Transport::Tcp ==> old(self).tcp_clients().contains_key(rd.addr),
        ensures
            rd.transport == Transport::Udp ==> {
                &&& final(self).udp_clients() == old(self).udp_clients().insert(
                    rd.addr,
                    UdpClient { subscribed_at: now, tcp_addr: None },
                )
                &&& final(self).tcp_clients() == old(self).tcp_clients()
            },
            rd.transport == Transport::Tcp ==> {
                &&& final(self).tcp_clients() == old(self).tcp_clients().insert(rd.addr, true)
                &&& final(self).udp_clients() == old(self).udp_clients()
            },
    {
        proof {
            use_type_invariant(&*self);
        }
        match rd.transport {
            Transport::Udp => {
                let mut udp = Vec::new();
                std::mem::swap(&mut udp, &mut self.udp);
                let fresh = UdpClient { subscribed_at: now, tcp_addr: None };
                match find_pair(&udp, rd.addr) {
                    Some(i) => {
                        proof {
                            lemma_pairs_update(udp@, i as int, fresh);
                        }
                        udp.set(i, (rd.addr, fresh));
                    },
                    None => {
                        proof {
                            lemma_pairs_push(udp@, rd.addr, fresh);
                        }
                        udp.push((rd.addr, fresh));
                    },
                }
                self.udp = udp;
            },
            Transport::Tcp => {
                let mut tcp = Vec::new();
                std::mem::swap(&mut tcp, &mut self.tcp);
                if let Some(i) = find_pair(&tcp, rd.addr) {
                    proof {
                        lemma_pairs_update(tcp@, i as int, true);
                    }
                    tcp.set(i, (rd.addr, true));
                }
                self.tcp = tcp;
            },
        }
    }

    /// Associates the requester (a subscribed UDP client) with the open TCP
    /// connection from `addr`: messages too large for UDP go there from now
    /// on.
    pub fn associate(&mut self, rd: Requester, addr: SocketAddress) -> (r: Result<(), String>)
        ensures
            rd.transport == Transport::Tcp ==> (r matches Err(m) && m@ == "Can't associate on a TCP connection."@),
            rd.transport == Transport::Udp && !old(self).udp_clients().contains_key(rd.addr) ==> (r matches Err(m)
                && m@ == "Can't associate a non-subscribed client."@),
            rd.transport == Transport::Udp && old(self).udp_clients().contains_key(rd.addr)
                && !old(self).tcp_clients().contains_key(addr) ==> (r matches Err(m)
                && m@ == "Address to associate isn't an active TCP connection source address."@),
            r is Ok <==> (rd.transport == Transport::Udp && old(self).udp_clients().contains_key(rd.addr)
                && old(self).tcp_clients().contains_key(addr)),
            r is Ok ==> final(self).udp_clients() == old(self).udp_clients().insert(
                rd.addr,
                UdpClient { subscribed_at: old(self).udp_clients()[rd.addr].subscribed_at, tcp_addr: Some(addr) },
            ),
            r is Err ==> final(self).udp_clients() == old(self).udp_clients(),
            final(self).tcp_clients() == old(self).tcp_clients(),
    {
        proof {
            use_type_invariant(&*self);
        }
        if rd.transport == Transport::Tcp {
            return Err(String::from_str("Can't associate on a TCP connection."));
        }
        let i = match find_pair(&self.udp, rd.addr) {
            Some(i) => i,
            None => return Err(String::from_str("Can't associate a non-subscribed client.")),
        };
        if find_pair(&self.tcp, addr).is_none() {
            return Err(String::from_str("Address to associate isn't an active TCP connection source address."));
        }
        let mut udp = Vec::new();
        std::mem::swap(&mut udp, &mut self.udp);
        let c = UdpClient { subscribed_at: udp[i].1.subscribed_at, tcp_addr: Some(addr) };
        proof {
            lemma_pairs_map(udp@);
            lemma_pairs_update(udp@, i as int, c);
        }
        udp.set(i, (rd.addr, c));
        self.udp = udp;
        Ok(())
    }

    /// A request came in from `rd` at `now`: if it came over UDP, every UDP
    /// client counts as heard from.
    pub fn heard_from(&mut self, rd: Requester, now: u64)
        ensures
            rd.transport == Transport::Udp ==> final(self).udp_clients() == all_heard_from(old(self).udp_clients(), now),
            rd.transport == Transport::Tcp ==> final(self).udp_clients() == old(self).udp_clients(),
            final(self).tcp_clients() == old(self).tcp_clients(),
    {
        proof {
            use_type_invariant(&*self);
        }
        if rd.transport == Transport::Tcp {
            return;
        }
        let mut udp = Vec::new();
        std::mem::swap(&mut udp, &mut self.udp);
        let ghost before = udp@;
        let mut i: usize = 0;
        while i < udp.len()
            invariant
                keys_distinct(before),
                udp@.len() == before.len(),
                i <= udp@.len(),
                forall|j: int| 0 <= j < i ==> #[trigger] udp@[j] == (before[j].0, heard_from(before[j].1, now)),
                forall|j: int| i <= j < udp@.len() ==> #[trigger] udp@[j] == before[j],
            decreases udp@.len() - i,
        {
            let c = UdpClient { subscribed_at: now, tcp_addr: udp[i].1.tcp_addr };
            let a = udp[i].0;
            udp.set(i, (a, c));
            i = i + 1;
        }
        proof {
            assert forall|j: int| 0 <= j < before.len() implies #[trigger] udp@[j].0 == before[j].0 by {
                assert(udp@[j] == (before[j].0, heard_from(before[j].1, now)));
            }
            lemma_pairs_same_keys(before, udp@);
            lemma_pairs_map(before);
            assert forall|a: SocketAddress| #[trigger] pairs_map(udp@).contains_key(a) implies
                pairs_map(udp@)[a] == all_heard_from(pairs_map(before), now)[a] by {
                assert(pairs_map(before).dom().contains(a));
                let j = choose|j: int| 0 <= j < before.len() && before[j].0 == a;
                assert(udp@[j] == (before[j].0, heard_from(before[j].1, now)));
                assert(pairs_map(udp@)[udp@[j].0] == udp@[j].1);
                assert(pairs_map(before)[before[j].0] == before[j].1);
            }
            assert(pairs_map(udp@) =~= all_heard_from(pairs_map(before), now));
        }
        self.udp = udp;
    }

    /// Drops the UDP clients not heard from for more than thirty seconds.
    pub fn expire(&mut self, now: u64)
        ensures
            final(self).udp_clients() == unexpired(old(self).udp_clients(), now),
            final(self).tcp_clients() == old(self).tcp_clients(),
    {
        proof {
            use_type_invariant(&*self);
        }
        let mut udp = Vec::new();
        std::mem::swap(&mut udp, &mut self.udp);
        let ghost before = udp@;
        let mut kept: Vec<(SocketAddress, UdpClient)> = Vec::new();
        let mut i: usize = 0;
        proof {
            assert(pairs_map(before.take(0)) =~= Map::<SocketAddress, UdpClient>::empty());
            assert(unexpired(Map::<SocketAddress, UdpClient>::empty(), now) =~= Map::<SocketAddress, UdpClient>::empty());
        }
        while i < udp.len()
            invariant
                udp@ == before,
                keys_distinct(before),
                i <= before.len(),
                keys_distinct(kept@),
                pairs_map(kept@) == unexpired(pairs_map(before.take(i as int)), now),
            decreases before.len() - i,
        {
            let ghost prev = before.take(i as int);
            let ghost next = before.take(i as int + 1);
            let (a, c) = udp[i];
            proof {
                lemma_take_step(before, i as int);
            }
            if now < c.subscribed_at || now - c.subscribed_at <= UDP_SUBSCRIPTION_NANOS {
                proof {
                    lemma_pairs_push(kept@, a, c);
                    assert(unexpired(pairs_map(next), now) =~= unexpired(pairs_map(prev), now).insert(a, c));
                }
                kept.push((a, c));
            } else {
                proof {
                    assert(unexpired(pairs_map(next), now) =~= unexpired(pairs_map(prev), now));
                }
            }
            i = i + 1;
        }
        proof {
            assert(before.take(before.len() as int) =~= before);
        }
        self.udp = kept;
    }

    /// Which way a message of `len` bytes to `addr` goes. A UDP client whose
    /// associated TCP connection has gone loses the association when a message
    /// too large for UDP is sent to it.
    pub fn route_message(&mut self, addr: SocketAddress, len: usize) -> (r: Route)
        ensures
            r == route_for(old(self).udp_clients(), old(self).tcp_clients(), addr, len as nat),
            final(self).tcp_clients() == old(self).tcp_clients(),
            ({
                let u = old(self).udp_clients();
                if len > UDP_MAX_PACKET_SIZE && u.contains_key(addr) && u[addr].tcp_addr is Some
                    && r == Route::Oversized {
                    final(self).udp_clients() == u.insert(
                        addr,
                        UdpClient { subscribed_at: u[addr].subscribed_at, tcp_addr: None },
                    )
                } else {
                    final(self).udp_clients() == u
                }
            }),
    {
        proof {
            use_type_invariant(&*self);
        }
        if len <= UDP_MAX_PACKET_SIZE {
            return Route::Udp;
        }
        let i = match find_pair(&self.udp, addr) {
            Some(i) => i,
            None => return Route::Oversized,
        };
        proof {
            lemma_pairs_map(self.udp@);
        }
        let c = self.udp[i].1;
        match c.tcp_addr {
            None => Route::Oversized,
            Some(t) => {
                if find_pair(&self.tcp, t).is_some() {
                    Route::Tcp(t)
                } else {
                    let mut udp = Vec::new();
                    std::mem::swap(&mut udp, &mut self.udp);
                    let cleared = UdpClient { subscribed_at: c.subscribed_at, tcp_addr: None };
                    proof {
                        lemma_pairs_update(udp@, i as int, cleared);
                    }
                    udp.set(i, (addr, cleared));
                    self.udp = udp;
                    Route::Oversized
                }
            },
        }
    }

    /// Where a broadcast at `now` goes, after the UDP clients not heard from
    /// for more than thirty seconds are dropped: every UDP client left, and
    /// every subscribed TCP connection.
    pub fn broadcast_targets(&mut self, now: u64) -> (r: (Vec<SocketAddress>, Vec<SocketAddress>))
        ensures
            final(self).udp_clients() == unexpired(old(self).udp_clients(), now),
            final(self).tcp_clients() == old(self).tcp_clients(),
            r.0@.no_duplicates(),
            r.0@.to_set() == final(self).udp_clients().dom(),
            r.1@.no_duplicates(),
            r.1@.to_set() == final(self).tcp_clients().dom().filter(|a: SocketAddress| final(self).tcp_clients()[a]),
    {
        self.expire(now);
        proof {
            use_type_invariant(&*self);
        }
        let mut udp_targets: Vec<SocketAddress> = Vec::new();
        let mut i: usize = 0;
        while i < self.udp.len()
            invariant
                keys_distinct(self.udp@),
                i <= self.udp@.len(),
                udp_targets@.len() == i,
                forall|j: int| 0 <= j < i ==> #[trigger] udp_targets@[j] == self.udp@[j].0,
            decreases self.udp@.len() - i,
        {
            udp_targets.push(self.udp[i].0);
            i = i + 1;
        }
        let mut tcp_targets: Vec<SocketAddress> = Vec::new();
        let mut k: usize = 0;
        proof {
            assert(self.tcp@.take(0) =~= Seq::<(SocketAddress, bool)>::empty());
        }
        while k < self.tcp.len()
            invariant
                k <= self.tcp@.len(),
                tcp_targets@ == flagged(self.tcp@.take(k as int)),
            decreases self.tcp@.len() - k,
        {
            proof {
                assert(self.tcp@.take(k as int + 1).drop_last() =~= self.tcp@.take(k as int));
                assert(self.tcp@.take(k as int + 1).last() == self.tcp@[k as int]);
            }
            if self.tcp[k].1 {
                tcp_targets.push(self.tcp[k].0);
            }
            k = k + 1;
        }
        proof {
            assert(self.tcp@.take(self.tcp@.len() as int) =~= self.tcp@);
            lemma_flagged(self.tcp@);
        }
        proof {
            lemma_pairs_map(self.udp@);
            lemma_pairs_map(self.tcp@);
            assert(udp_targets@.no_duplicates()) by {
                assert forall|a: int, b: int| 0 <= a < udp_targets@.len() && 0 <= b < udp_targets@.len() && a != b implies
                    udp_targets@[a] != udp_targets@[b] by {
                    if a < b {
                        assert(self.udp@[a].0 != self.udp@[b].0);
                    } else {
                        assert(self.udp@[b].0 != self.udp@[a].0);
                    }
                }
            }
            assert forall|a: SocketAddress| #[trigger] udp_targets@.to_set().contains(a) <==> pairs_map(self.udp@).dom().contains(a) by {
                if udp_targets@.contains(a) {
                    let j = choose|j: int| 0 <= j < udp_targets@.len() && udp_targets@[j] == a;
                    assert(self.udp@[j].0 == a);
                }
                if pairs_map(self.udp@).contains_key(a) {
                    let j = choose|j: int| 0 <= j < self.udp@.len() && self.udp@[j].0 == a;
                    assert(udp_targets@[j] == a);
                }
            }
            assert(udp_targets@.to_set() =~= pairs_map(self.udp@).dom());
        }
        (udp_targets, tcp_targets)
    }
}

/// How many messages a broadcast sent successfully: those sent without error
/// to UDP clients and to TCP connections.
pub fn broadcast_sent_count(udp_sent: usize, tcp_sent: usize) -> (n: usize)
    requires
        udp_sent + tcp_sent <= usize::MAX,
    ensures
        n == udp_sent + tcp_sent,
{
    udp_sent + tcp_sent
}

/// Where and how a message is sent: these bytes, over UDP to this address
/// or over the open TCP connection from this address.
#[derive(Debug, PartialEq)]
pub enum SendPlan {
    Udp(SocketAddress, Vec<u8>),
    Tcp(SocketAddress, Vec<u8>),
}

/// The address of the reply sent in place of one too large for UDP.
pub open spec fn oversized_address() -> Seq<char> {
    address_of(reply_segments(ReplyKind::OversizedReply, uuid_hyphenated(0)))
}

impl Clients {
    /// Sends a message (its address and arguments) to `to`, which is normally
    /// done over UDP. A message too large for UDP goes over the TCP connection
    /// associated with a subscribed UDP client, when that connection is open;
    /// otherwise an "oversized" reply goes over UDP in its place (see
    /// `route_message`, whose changes to the clients this makes).
    pub fn send_raw(&mut self, to: SocketAddress, addr: &str, args: &Vec<OscArg>) -> (r: SendPlan)
        requires
            sendable(args@),
        ensures
            ({
                let b = osc_message_bytes(addr@, args@);
                let u = old(self).udp_clients();
                &&& match route_for(u, old(self).tcp_clients(), to, b.len()) {
                    Route::Udp => r matches SendPlan::Udp(a, v) && a == to && v@ == b,
                    Route::Tcp(t) => r matches SendPlan::Tcp(a, v) && a == t && v@ == b,
                    Route::Oversized => r matches SendPlan::Udp(a, v) && a == to && v@ == osc_message_bytes(
                        oversized_address(),
                        Seq::empty(),
                    ),
                }
                &&& final(self).tcp_clients() == old(self).tcp_clients()
                &&& if b.len() > UDP_MAX_PACKET_SIZE && u.contains_key(to) && u[to].tcp_addr is Some && route_for(
                    u,
                    old(self).tcp_clients(),
                    to,
                    b.len(),
                ) == Route::Oversized {
                    final(self).udp_clients() == u.insert(
                        to,
                        UdpClient { subscribed_at: u[to].subscribed_at, tcp_addr: None },
                    )
                } else {
                    final(self).udp_clients() == u
                }
            }),
    {
        let bytes = encode_osc(addr, args);
        match self.route_message(to, bytes.len()) {
            Route::Udp => SendPlan::Udp(to, bytes),
            Route::Tcp(t) => SendPlan::Tcp(t, bytes),
            Route::Oversized => {
                let oaddr = reply_route_address(&ReplyRoute { kind: ReplyKind::OversizedReply, uuid: 0 });
                let none: Vec<OscArg> = Vec::new();
                proof {
                    assert(none@ =~= Seq::<OscArg>::empty());
                }
                SendPlan::Udp(to, encode_osc(oaddr.as_str(), &none))
            },
        }
    }

    /// Sends a message over the TCP connection from `to`: its bytes, if there
    /// is such a connection; none otherwise.
    pub fn send_tcp(&self, to: SocketAddress, addr: &str, args: &Vec<OscArg>) -> (r: Option<SendPlan>)
        requires
            sendable(args@),
        ensures
            r is Some <==> self.tcp_clients().contains_key(to),
            r matches Some(p) ==> p matches SendPlan::Tcp(a, v) && a == to && v@ == osc_message_bytes(addr@, args@),
    {
        proof {
            use_type_invariant(self);
            lemma_pairs_map(self.tcp@);
        }
        match find_pair(&self.tcp, to) {
            Some(_) => Some(SendPlan::Tcp(to, encode_osc(addr, args))),
            None => None,
        }
    }
}

/// The address that replies to `addr` go to: the same host, at the client
/// reply port.
pub fn reply_address(addr: SocketAddress) -> (r: SocketAddress)
    ensures
        r == match addr {
            SocketAddress::V4 { ip, port } => SocketAddress::V4 { ip, port: CLIENT_REPLY_PORT },
            SocketAddress::V6 { ip6, port, flowinfo, scope_id } => SocketAddress::V6 { ip6, port: CLIENT_REPLY_PORT, flowinfo, scope_id },
        },
{
    match addr {
        SocketAddress::V4 { ip, port } => SocketAddress::V4 { ip, port: CLIENT_REPLY_PORT },
        SocketAddress::V6 { ip6, port, flowinfo, scope_id } => SocketAddress::V6 { ip6, port: CLIENT_REPLY_PORT, flowinfo, scope_id },
    }
}


/// Once a UDP client is associated with an open TCP connection, a message to it
/// too large for UDP goes over that connection.
pub proof fn lemma_associated_large_message_goes_over_tcp(
    udp: Map<SocketAddress, UdpClient>,
    tcp: Map<SocketAddress, bool>,
    addr: SocketAddress,
    at: u64,
    t: SocketAddress,
    len: nat,
)
    requires
        tcp.contains_key(t),
        len > UDP_MAX_PACKET_SIZE,
    ensures
        route_for(udp.insert(addr, UdpClient { subscribed_at: at, tcp_addr: Some(t) }), tcp, addr, len)
            == Route::Tcp(t),
{
}

/// A message small enough for UDP always goes over UDP.
pub proof fn lemma_small_message_goes_over_udp(
    udp: Map<SocketAddress, UdpClient>,
    tcp: Map<SocketAddress, bool>,
    addr: SocketAddress,
    len: nat,
)
    requires
        len <= UDP_MAX_PACKET_SIZE,
    ensures
        route_for(udp, tcp, addr, len) == Route::Udp,
{
}

/// A UDP client heard from at `at` is still subscribed thirty seconds later,
/// and no longer once more than thirty seconds have passed.
pub proof fn lemma_subscription_lasts_thirty_seconds(
    m: Map<SocketAddress, UdpClient>,
    addr: SocketAddress,
    c: UdpClient,
    now: u64,
)
    requires
        m.contains_key(addr),
        m[addr] == c,
        c.subscribed_at <= now,
    ensures
        unexpired(m, now).contains_key(addr) <==> now - c.subscribed_at <= UDP_SUBSCRIPTION_NANOS,
{
}

/// The protocol's numbers for routing and subscriptions: a message of at
/// most 508 bytes goes over UDP; a larger one goes over the TCP connection
/// associated with its (subscribed) client when that connection is open, and
/// otherwise gives way to an "oversized" reply; a client stays subscribed
/// for 30 seconds after it was last heard from; replies go to port 53001.
pub proof fn lemma_protocol_numbers(
    udp: Map<SocketAddress, UdpClient>,
    tcp: Map<SocketAddress, bool>,
    addr: SocketAddress,
    len: nat,
    at: u64,
    now: u64,
)
    ensures
        len <= 508 ==> route_for(udp, tcp, addr, len) == Route::Udp,
        len > 508 && !(udp.contains_key(addr) && udp[addr].tcp_addr is Some && tcp.contains_key(udp[addr].tcp_addr->0))
            ==> route_for(udp, tcp, addr, len) == Route::Oversized,
        len > 508 && udp.contains_key(addr) && udp[addr].tcp_addr is Some && tcp.contains_key(udp[addr].tcp_addr->0)
            ==> route_for(udp, tcp, addr, len) == Route::Tcp(udp[addr].tcp_addr->0),
        at <= now ==> (still_subscribed(at, now) <==> now - at <= 30_000_000_000),
        CLIENT_REPLY_PORT == 53001,
{
}

} // verus!
