//! A pool of HTTP clients, each bound to a distinct local egress address,
//! handed out one per outbound request under a configurable selection
//! algorithm (round-robin or random without immediate repeat).

use vstd::arithmetic::div_mod::{lemma_small_mod, lemma_mod_sub_multiples_vanish};
use vstd::prelude::*;

verus! {

/// A local source address for outbound connections, as plain address
/// components (four octets for version 4, eight segments for version 6).
#[derive(Debug, Clone, Copy, PartialEq, Eq, Structural)]
pub enum IpAddress {
    V4(u8, u8, u8, u8),
    V6(u16, u16, u16, u16, u16, u16, u16, u16),
}

/// How the pool picks the client for the next request.
#[derive(Debug, Default, Clone, Copy, PartialEq, Eq, Structural)]
pub enum IpSelectAlgorithm {
    #[default]
    RoundRobin,
    Random,
}

/// A fatal pool-construction error. Construction never partially succeeds:
/// the first address that fails to bind aborts it, identifying that address
/// and the underlying cause.
#[derive(Debug, Clone, PartialEq, Eq)]
pub enum HttpClientError {
    /// Building the client bound to the given address failed.
    BindFailed(IpAddress, String),
    /// Building the single unbound fallback client (empty address list) failed.
    ClientBuildFailed(String),
}

#[verifier::external_type_specification]
#[verifier::external_body]
pub struct ExClient(reqwest::Client);

#[verifier::external_type_specification]
#[verifier::external_body]
pub struct ExReqwestError(reqwest::Error);

/// Relies on reqwest::ClientBuilder::build with no local address configured:
/// on success the client binds no particular source address.
#[verifier::external_body]
fn build_unbound_client() -> Result<reqwest::Client, reqwest::Error> {
    reqwest::Client::builder().build()
}

/// Relies on reqwest::ClientBuilder::local_address and build: on success the
/// client uses the given version-4 source address for its connections.
#[verifier::external_body]
fn build_bound_client_v4(a: u8, b: u8, c: u8, d: u8) -> Result<reqwest::Client, reqwest::Error> {
    reqwest::Client::builder().local_address(Some([a, b, c, d].into())).build()
}

/// Relies on reqwest::ClientBuilder::local_address and build: on success the
/// client uses the given version-6 source address for its connections.
#[verifier::external_body]
fn build_bound_client_v6(
    s0: u16, s1: u16, s2: u16, s3: u16, s4: u16, s5: u16, s6: u16, s7: u16,
) -> Result<reqwest::Client, reqwest::Error> {
    reqwest::Client::builder()
        .local_address(Some([s0, s1, s2, s3, s4, s5, s6, s7].into()))
        .build()
}

/// Relies on reqwest::Error's Display implementation to render the cause.
#[verifier::external_body]
fn describe_reqwest_error(e: &reqwest::Error) -> String {
    format!("{}", e)
}

/// Relies on reqwest::Client::clone: a client is a shared handle to one
/// underlying connection pool, so a clone is the same client.
#[verifier::external_body]
fn clone_client(c: &reqwest::Client) -> (r: reqwest::Client)
    ensures
        r == *c,
{
    c.clone()
}

/// Relies on rand::Rng::gen_range over 0..n: a uniformly chosen index below
/// n. It panics only on an empty range, which the precondition rules out;
/// nothing more can be promised of a random draw.
#[verifier::external_body]
fn random_below(n: usize) -> (r: usize)
    requires
        n >= 1,
    ensures
        r < n,
{
    rand::Rng::gen_range(&mut rand::thread_rng(), 0..n)
}

/// A pool of transport clients, one per configured egress address (or a
/// single unbound client when no address was configured), with the mutable
/// rotation state of the selection algorithm.
#[derive(Debug, Clone)]
pub struct HttpClient {
    clients: Vec<reqwest::Client>,
    algorithm: IpSelectAlgorithm,
    round_robin_index: usize,
    last_random_ip: Option<usize>,
}

impl HttpClient {
    /// Well-formedness: the pool is never empty, and both rotation cursors
    /// stay below the pool size.
    pub closed spec fn wf(&self) -> bool {
        &&& self.clients@.len() >= 1
        &&& (self.round_robin_index as int) < self.clients@.len()
        &&& (self.last_random_ip matches Some(i) ==> (i as int) < self.clients@.len())
    }

    /// Number of clients in the pool.
    pub closed spec fn pool_size(&self) -> int {
        self.clients@.len() as int
    }

    /// The clients, in construction order (index i was built from the i-th
    /// configured address).
    pub closed spec fn clients_view(&self) -> Seq<reqwest::Client> {
        self.clients@
    }

    /// The configured selection algorithm.
    pub closed spec fn selection_algorithm(&self) -> IpSelectAlgorithm {
        self.algorithm
    }

    /// The round-robin cursor: the index the next round-robin selection
    /// returns.
    pub closed spec fn cursor(&self) -> int {
        self.round_robin_index as int
    }

    /// The index handed out by the previous random selection, if any.
    pub closed spec fn last_pick(&self) -> Option<usize> {
        self.last_random_ip
    }

    /// Builds one client per address, in order, each bound to its address;
    /// with no addresses, one unbound client. Rotation state starts at
    /// cursor 0 with no previous random pick. The first address whose client
    /// fails to build aborts construction with that address and the cause.
    pub fn new(ips: Vec<IpAddress>, algorithm: IpSelectAlgorithm) -> (r: Result<
        HttpClient,
        HttpClientError,
    >)
        ensures
            match r {
                Ok(pool) => {
                    &&& pool.wf()
                    &&& pool.selection_algorithm() == algorithm
                    &&& pool.cursor() == 0
                    &&& pool.last_pick() is None
                    &&& pool.pool_size() == if ips@.len() == 0 {
                        1int
                    } else {
                        ips@.len() as int
                    }
                },
                Err(e) => match e {
                    HttpClientError::BindFailed(a, _) => exists|j: int|
                        0 <= j < ips@.len() && ips@[j] == a,
                    HttpClientError::ClientBuildFailed(_) => ips@.len() == 0,
                },
            },
    {
        let mut clients: Vec<reqwest::Client> = Vec::new();
        if ips.len() == 0 {
            match build_unbound_client() {
                Ok(c) => clients.push(c),
                Err(e) => {
                    return Err(HttpClientError::ClientBuildFailed(describe_reqwest_error(&e)));
                },
            }
        } else {
            let mut idx: usize = 0;
            while idx < ips.len()
                invariant
                    idx <= ips@.len(),
                    clients@.len() == idx,
                decreases ips@.len() - idx,
            {
                let ip = ips[idx];
                let built = match ip {
                    IpAddress::V4(a, b, c, d) => build_bound_client_v4(a, b, c, d),
                    IpAddress::V6(s0, s1, s2, s3, s4, s5, s6, s7) => build_bound_client_v6(
                        s0, s1, s2, s3, s4, s5, s6, s7,
                    ),
                };
                match built {
                    Ok(c) => clients.push(c),
                    Err(e) => {
                        return Err(HttpClientError::BindFailed(ip, describe_reqwest_error(&e)));
                    },
                }
                idx = idx + 1;
            }
        }
        Ok(HttpClient { clients, algorithm, round_robin_index: 0, last_random_ip: None })
    }

    /// Picks the index of the client to use for the next request and
    /// advances the rotation state. Round-robin returns the cursor and
    /// advances it modulo the pool size; random returns an index that never
    /// equals the previous pick when the pool has at least two clients.
    /// Nothing but the rotation state of the chosen algorithm changes.
    pub fn select_index(&mut self) -> (i: usize)
        requires
            old(self).wf(),
        ensures
            final(self).wf(),
            select_post(*old(self), *final(self), i as int),
    {
        let n = self.clients.len();
        match self.algorithm {
            IpSelectAlgorithm::RoundRobin => {
                let selected = self.round_robin_index;
                self.round_robin_index = (selected + 1) % n;
                selected
            },
            IpSelectAlgorithm::Random => {
                let selected: usize;
                if n >= 2 {
                    match self.last_random_ip {
                        Some(last) => {
                            let k = random_below(n - 1);
                            selected = if k >= last {
                                k + 1
                            } else {
                                k
                            };
                        },
                        None => {
                            selected = random_below(n);
                        },
                    }
                } else {
                    selected = random_below(n);
                }
                self.last_random_ip = Some(selected);
                selected
            },
        }
    }

    /// Hands out the client for the next request. With a single client the
    /// pool state is untouched and that client is returned; otherwise the
    /// client at the index `select_index` picks is returned.
    pub fn get_client(&mut self) -> (c: reqwest::Client)
        requires
            old(self).wf(),
        ensures
            final(self).wf(),
            old(self).pool_size() == 1 ==> *final(self) == *old(self) && c == old(
                self,
            ).clients_view()[0],
            old(self).pool_size() > 1 ==> exists|i: int|
                #[trigger] select_post(*old(self), *final(self), i) && c == old(
                    self,
                ).clients_view()[i],
    {
        if self.clients.len() == 1 {
            clone_client(&self.clients[0])
        } else {
            let i = self.select_index();
            let c = clone_client(&self.clients[i]);
            assert(select_post(*old(self), *self, i as int) && c == old(self).clients_view()[
                i as int
            ]);
            c
        }
    }
}

/// What one selection does: the returned index is in range, the clients and
/// the algorithm are untouched, and the rotation state of the configured
/// algorithm advances exactly as specified.
pub open spec fn select_post(pre: HttpClient, post: HttpClient, i: int) -> bool {
    &&& 0 <= i < pre.pool_size()
    &&& post.pool_size() == pre.pool_size()
    &&& post.clients_view() == pre.clients_view()
    &&& post.selection_algorithm() == pre.selection_algorithm()
    &&& match pre.selection_algorithm() {
        IpSelectAlgorithm::RoundRobin => {
            &&& i == pre.cursor()
            &&& post.cursor() == (pre.cursor() + 1) % pre.pool_size()
            &&& post.last_pick() == pre.last_pick()
        },
        IpSelectAlgorithm::Random => {
            &&& post.cursor() == pre.cursor()
            &&& post.last_pick() == Some(i as usize)
            &&& (pre.last_pick() matches Some(l) ==> pre.pool_size() >= 2 ==> i != l as int)
        },
    }
}

/// The index round-robin selection returns on its k-th call after the
/// cursor stood at `start`, in a pool of size n.
pub open spec fn rr_slot(start: int, k: int, n: int) -> int {
    (start + k) % n
}

/// The call (counted from a cursor standing at `start`) on which round-robin
/// selection reaches endpoint e, in a pool of size n.
pub open spec fn rr_call_reaching(start: int, e: int, n: int) -> int {
    if e >= start {
        e - start
    } else {
        e + n - start
    }
}

proof fn lemma_mod_in_range(x: int, n: int)
    requires
        n >= 1,
        0 <= x < 2 * n,
    ensures
        x % n == if x < n {
            x
        } else {
            x - n
        },
{
    if x < n {
        lemma_small_mod(x as nat, n as nat);
    } else {
        lemma_mod_sub_multiples_vanish(x, n);
        assert(x % n == (x - n) % n);
        lemma_small_mod((x - n) as nat, n as nat);
    }
}

/// Round-robin selection walks a full cycle: starting from any cursor, n
/// consecutive selections in a pool of size n return n pairwise-distinct
/// indices, so every endpoint is visited exactly once before any repeats;
/// starting from the initial cursor 0 the visits follow construction order.
pub proof fn lemma_round_robin_full_cycle(start: int, n: int)
    requires
        0 <= start < n,
    ensures
        forall|i: int, j: int|
            0 <= i < n && 0 <= j < n && i != j ==> rr_slot(start, i, n) != rr_slot(start, j, n),
        forall|e: int|
            0 <= e < n ==> 0 <= rr_call_reaching(start, e, n) < n && #[trigger] rr_slot(
                start,
                rr_call_reaching(start, e, n),
                n,
            ) == e,
        forall|i: int| 0 <= i < n ==> #[trigger] rr_slot(0, i, n) == i,
{
    assert forall|i: int| 0 <= i < n implies #[trigger] rr_slot(start, i, n) == if start + i < n {
        start + i
    } else {
        start + i - n
    } by {
        lemma_mod_in_range(start + i, n);
    }
    assert forall|e: int| 0 <= e < n implies 0 <= rr_call_reaching(start, e, n) < n
        && #[trigger] rr_slot(start, rr_call_reaching(start, e, n), n) == e by {
        lemma_mod_in_range(start + rr_call_reaching(start, e, n), n);
    }
    assert forall|i: int| 0 <= i < n implies #[trigger] rr_slot(0, i, n) == i by {
        lemma_mod_in_range(i, n);
    }
}

/// An extra request after a session already reached its terminal outcome
/// moves nothing but the rotation state: whatever algorithm is configured, a
/// selection leaves the clients and the algorithm of the pool untouched, so
/// the pool changes only by the expected rotation advance.
pub proof fn lemma_selection_touches_rotation_only(pre: HttpClient, post: HttpClient, i: int)
    requires
        select_post(pre, post, i),
    ensures
        post.clients_view() == pre.clients_view(),
        post.pool_size() == pre.pool_size(),
        post.selection_algorithm() == pre.selection_algorithm(),
{
}

} // verus!
