//! The single-use token store.
//!
//! Three independent namespaces each own a set of pending tokens; a fourth
//! structure maps redeemed authentication tokens to the public key that
//! signed them. `consume` is the race-resolution primitive: it removes a
//! token and reports whether it was present, so of any series of attempts
//! on one token at most one can succeed.
//!
//! The store is modelled by [`StoreModel`]: a set of token strings per
//! namespace plus the completed-auth map. Every operation's contract is a
//! transition on that model.

use vstd::prelude::*;

use crate::hex_str::hex_encoded;
use crate::text::names;
use crate::utils::gen_k1_as_string;

verus! {

/// One of the three independent token namespaces.
#[derive(Clone, Copy, Debug, PartialEq, Eq, Structural)]
pub enum TokenNamespace {
    /// Tokens issued by a channel request.
    ChannelOpen,
    /// Tokens issued by a withdraw request.
    Withdraw,
    /// Tokens issued by an authentication request.
    AuthChallenge,
}

/// The mathematical state of a [`TokenStore`].
pub ghost struct StoreModel {
    /// Pending channel-open tokens.
    pub channel: Set<Seq<char>>,
    /// Pending withdraw tokens.
    pub withdraw: Set<Seq<char>>,
    /// Pending authentication tokens.
    pub auth_pending: Set<Seq<char>>,
    /// Redeemed authentication tokens, each with the key that signed it.
    pub auth_completed: Map<Seq<char>, Seq<char>>,
}

impl StoreModel {
    /// The store with nothing issued and nothing completed.
    pub open spec fn empty() -> StoreModel {
        StoreModel {
            channel: Set::empty(),
            withdraw: Set::empty(),
            auth_pending: Set::empty(),
            auth_completed: Map::empty(),
        }
    }

    /// The pending set of one namespace.
    pub open spec fn pending(self, ns: TokenNamespace) -> Set<Seq<char>> {
        match ns {
            TokenNamespace::ChannelOpen => self.channel,
            TokenNamespace::Withdraw => self.withdraw,
            TokenNamespace::AuthChallenge => self.auth_pending,
        }
    }

    /// The store with one namespace's pending set replaced.
    pub open spec fn with_pending(self, ns: TokenNamespace, s: Set<Seq<char>>) -> StoreModel {
        match ns {
            TokenNamespace::ChannelOpen => StoreModel { channel: s, ..self },
            TokenNamespace::Withdraw => StoreModel { withdraw: s, ..self },
            TokenNamespace::AuthChallenge => StoreModel { auth_pending: s, ..self },
        }
    }

    /// The store after issuing `t` into `ns`.
    pub open spec fn issued(self, ns: TokenNamespace, t: Seq<char>) -> StoreModel {
        self.with_pending(ns, self.pending(ns).insert(t))
    }

    /// The store after a consume attempt of `t` in `ns` (whether or not
    /// the token was present).
    pub open spec fn consumed(self, ns: TokenNamespace, t: Seq<char>) -> StoreModel {
        self.with_pending(ns, self.pending(ns).remove(t))
    }

    /// The store after recording that `t` was redeemed by `key`.
    pub open spec fn completed(self, t: Seq<char>, key: Seq<char>) -> StoreModel {
        StoreModel { auth_completed: self.auth_completed.insert(t, key), ..self }
    }
}

/// The completed-auth map a sequence of pairs stands for; a later pair
/// with the same token wins.
pub open spec fn pairs_map(v: Seq<(String, String)>) -> Map<Seq<char>, Seq<char>>
    decreases v.len(),
{
    if v.len() == 0 {
        Map::empty()
    } else {
        pairs_map(v.drop_last()).insert(v.last().0@, v.last().1@)
    }
}

/// A token is in the map exactly when some pair carries it.
proof fn lemma_pairs_map_contains(v: Seq<(String, String)>, t: Seq<char>)
    ensures
        pairs_map(v).dom().contains(t) <==> exists|i: int| 0 <= i < v.len() && v[i].0@ == t,
    decreases v.len(),
{
    if v.len() > 0 {
        lemma_pairs_map_contains(v.drop_last(), t);
        if v.last().0@ == t {
            assert(v[v.len() - 1].0@ == t);
        } else if pairs_map(v).dom().contains(t) {
            let i = choose|i: int| 0 <= i < v.drop_last().len() && v.drop_last()[i].0@ == t;
            assert(v[i].0@ == t);
        } else {
            assert forall|i: int| 0 <= i < v.len() implies v[i].0@ != t by {
                if i < v.len() - 1 {
                    assert(v.drop_last()[i].0@ == v[i].0@);
                }
            }
        }
    }
}

/// Searches a pending set.
fn vec_set_contains(v: &Vec<String>, t: &String) -> (r: bool)
    ensures
        r == names(v@).to_set().contains(t@),
{
    let n = v.len();
    for i in 0..n
        invariant
            n == v@.len(),
            forall|j: int| 0 <= j < i ==> names(v@)[j] != t@,
    {
        if v[i].eq(t) {
            proof {
                assert(names(v@)[i as int] == t@);
            }
            return true;
        }
    }
    false
}

/// Finds the index of a token in a pending set.
fn vec_find(v: &Vec<String>, t: &String) -> (r: Option<usize>)
    ensures
        match r {
            Some(i) => i < v@.len() && names(v@)[i as int] == t@,
            None => !names(v@).to_set().contains(t@),
        },
{
    let n = v.len();
    for i in 0..n
        invariant
            n == v@.len(),
            forall|j: int| 0 <= j < i ==> names(v@)[j] != t@,
    {
        if v[i].eq(t) {
            proof {
                assert(names(v@)[i as int] == t@);
            }
            return Some(i);
        }
    }
    None
}

/// Appending an element to a sequence inserts it into the element set.
proof fn lemma_push_to_set(ns: Seq<Seq<char>>, t: Seq<char>)
    ensures
        ns.push(t).to_set() == ns.to_set().insert(t),
{
    assert forall|x: Seq<char>| ns.push(t).to_set().contains(x) implies ns.to_set().insert(
        t,
    ).contains(x) by {
        let j = choose|j: int| 0 <= j < ns.push(t).len() && ns.push(t)[j] == x;
        if j < ns.len() {
            assert(ns[j] == x);
        }
    }
    assert forall|x: Seq<char>| ns.to_set().insert(t).contains(x) implies ns.push(t).to_set()
        .contains(x) by {
        if x == t {
            assert(ns.push(t)[ns.len() as int] == x);
        } else {
            let j = choose|j: int| 0 <= j < ns.len() && ns[j] == x;
            assert(ns.push(t)[j] == x);
        }
    }
    assert(ns.push(t).to_set() =~= ns.to_set().insert(t));
}

/// Inserts into a pending set, keeping it duplicate-free.
fn vec_set_insert(v: &mut Vec<String>, t: String)
    requires
        names(old(v)@).no_duplicates(),
    ensures
        names(final(v)@).no_duplicates(),
        names(final(v)@).to_set() == names(old(v)@).to_set().insert(t@),
{
    let present = vec_set_contains(v, &t);
    if !present {
        let ghost ns0 = names(v@);
        v.push(t);
        proof {
            assert(names(v@) =~= ns0.push(t@));
            lemma_push_to_set(ns0, t@);
        }
    } else {
        proof {
            assert(names(v@).to_set() =~= names(v@).to_set().insert(t@));
        }
    }
}

/// Removes from a pending set, reporting whether the token was present.
fn vec_set_remove(v: &mut Vec<String>, t: &String) -> (r: bool)
    requires
        names(old(v)@).no_duplicates(),
    ensures
        names(final(v)@).no_duplicates(),
        r == names(old(v)@).to_set().contains(t@),
        names(final(v)@).to_set() == names(old(v)@).to_set().remove(t@),
{
    let ghost ns0 = names(v@);
    match vec_find(v, t) {
        Some(i) => {
            v.remove(i);
            proof {
                assert(ns0.to_set().contains(t@));
                lemma_names_remove(ns0, i as int, t@);
                assert(names(v@) =~= ns0.remove(i as int));
            }
            true
        },
        None => {
            proof {
                assert(ns0.to_set() =~= ns0.to_set().remove(t@));
            }
            false
        },
    }
}

/// Removing the one occurrence of `t` from a duplicate-free sequence
/// removes exactly `t` from the set of its elements, and keeps the rest
/// duplicate-free.
proof fn lemma_names_remove(ns: Seq<Seq<char>>, i: int, t: Seq<char>)
    requires
        ns.no_duplicates(),
        0 <= i < ns.len(),
        ns[i] == t,
    ensures
        ns.remove(i).no_duplicates(),
        ns.remove(i).to_set() == ns.to_set().remove(t),
{
    let rest = ns.remove(i);
    assert forall|p: int, q: int|
        0 <= p < rest.len() && 0 <= q < rest.len() && p != q implies rest[p] != rest[q] by {
        let p0 = if p < i { p } else { p + 1 };
        let q0 = if q < i { q } else { q + 1 };
        assert(rest[p] == ns[p0] && rest[q] == ns[q0] && p0 != q0);
    }
    assert forall|x: Seq<char>| rest.to_set().contains(x) implies ns.to_set().remove(t).contains(
        x,
    ) by {
        let j = choose|j: int| 0 <= j < rest.len() && rest[j] == x;
        let j0 = if j < i { j } else { j + 1 };
        assert(ns[j0] == x);
        assert(j0 != i);
        assert(x != t);
    }
    assert forall|x: Seq<char>| ns.to_set().remove(t).contains(x) implies rest.to_set().contains(
        x,
    ) by {
        let j = choose|j: int| 0 <= j < ns.len() && ns[j] == x;
        assert(j != i);
        if j < i {
            assert(rest[j] == x);
        } else {
            assert(rest[j - 1] == x);
        }
    }
    assert(rest.to_set() =~= ns.to_set().remove(t));
}

/// The store of pending single-use tokens and completed authentications.
pub struct TokenStore {
    channel: Vec<String>,
    withdraw: Vec<String>,
    auth_pending: Vec<String>,
    auth_completed: Vec<(String, String)>,
}

impl View for TokenStore {
    type V = StoreModel;

    closed spec fn view(&self) -> StoreModel {
        StoreModel {
            channel: names(self.channel@).to_set(),
            withdraw: names(self.withdraw@).to_set(),
            auth_pending: names(self.auth_pending@).to_set(),
            auth_completed: pairs_map(self.auth_completed@),
        }
    }
}

impl TokenStore {
    /// Internal bookkeeping: each pending list holds a token at most once.
    pub closed spec fn wf(&self) -> bool {
        names(self.channel@).no_duplicates() && names(self.withdraw@).no_duplicates() && names(
            self.auth_pending@,
        ).no_duplicates()
    }

    /// An empty store.
    pub fn new() -> (r: TokenStore)
        ensures
            r.wf(),
            r@ == StoreModel::empty(),
    {
        let r = TokenStore {
            channel: Vec::new(),
            withdraw: Vec::new(),
            auth_pending: Vec::new(),
            auth_completed: Vec::new(),
        };
        proof {
            assert(r@.channel =~= Set::<Seq<char>>::empty());
            assert(r@.withdraw =~= Set::<Seq<char>>::empty());
            assert(r@.auth_pending =~= Set::<Seq<char>>::empty());
        }
        r
    }

    /// Generates a fresh token and registers it as pending in `ns`.
    pub fn issue(&mut self, ns: TokenNamespace) -> (token: String)
        requires
            old(self).wf(),
        ensures
            final(self).wf(),
            final(self)@ == old(self)@.issued(ns, token@),
            final(self)@.pending(ns).contains(token@),
            token@.len() == 64,
            exists|b: Seq<u8>| b.len() == 32 && token@ == hex_encoded(b),
    {
        let token = gen_k1_as_string();
        let registered = token.clone();
        match ns {
            TokenNamespace::ChannelOpen => vec_set_insert(&mut self.channel, registered),
            TokenNamespace::Withdraw => vec_set_insert(&mut self.withdraw, registered),
            TokenNamespace::AuthChallenge => vec_set_insert(&mut self.auth_pending, registered),
        }
        token
    }

    /// Atomically removes `token` from the pending set of `ns`, reporting
    /// whether it was present. Of any series of attempts on one token,
    /// only the first against a pending token reports `true`.
    pub fn consume(&mut self, ns: TokenNamespace, token: &String) -> (r: bool)
        requires
            old(self).wf(),
        ensures
            final(self).wf(),
            r == old(self)@.pending(ns).contains(token@),
            final(self)@ == old(self)@.consumed(ns, token@),
    {
        match ns {
            TokenNamespace::ChannelOpen => vec_set_remove(&mut self.channel, token),
            TokenNamespace::Withdraw => vec_set_remove(&mut self.withdraw, token),
            TokenNamespace::AuthChallenge => vec_set_remove(&mut self.auth_pending, token),
        }
    }

    /// Records that `token` was redeemed by the key `pubkey_hex`. Called
    /// only after a successful `consume` in the authentication namespace.
    pub fn complete_auth(&mut self, token: &String, pubkey_hex: &String)
        requires
            old(self).wf(),
        ensures
            final(self).wf(),
            final(self)@ == old(self)@.completed(token@, pubkey_hex@),
    {
        let ghost pairs0 = self.auth_completed@;
        self.auth_completed.push((token.clone(), pubkey_hex.clone()));
        proof {
            assert(self.auth_completed@.drop_last() =~= pairs0);
        }
    }

    /// Whether `token` is an unredeemed authentication challenge.
    /// Advisory: a later `consume` decides redemption, not this lookup.
    pub fn is_auth_pending(&self, token: &String) -> (r: bool)
        ensures
            r == self@.auth_pending.contains(token@),
    {
        vec_set_contains(&self.auth_pending, token)
    }

    /// Whether `token` was already redeemed. Advisory, as above.
    pub fn is_auth_completed(&self, token: &String) -> (r: bool)
        ensures
            r == self@.auth_completed.dom().contains(token@),
    {
        let n = self.auth_completed.len();
        for i in 0..n
            invariant
                n == self.auth_completed@.len(),
                forall|j: int| 0 <= j < i ==> self.auth_completed@[j].0@ != token@,
        {
            if self.auth_completed[i].0.eq(token) {
                proof {
                    lemma_pairs_map_contains(self.auth_completed@, token@);
                }
                return true;
            }
        }
        proof {
            lemma_pairs_map_contains(self.auth_completed@, token@);
        }
        false
    }
}

/// Successful consumptions among `n` serialized attempts on one token.
pub open spec fn consume_run_hits(
    m: StoreModel,
    ns: TokenNamespace,
    t: Seq<char>,
    n: nat,
) -> nat
    decreases n,
{
    if n == 0 {
        0
    } else {
        (if m.pending(ns).contains(t) {
            1nat
        } else {
            0nat
        }) + consume_run_hits(m.consumed(ns, t), ns, t, (n - 1) as nat)
    }
}

/// A token that is not pending is never consumed, however many attempts
/// follow.
pub proof fn lemma_absent_token_never_consumed(
    m: StoreModel,
    ns: TokenNamespace,
    t: Seq<char>,
    n: nat,
)
    requires
        !m.pending(ns).contains(t),
    ensures
        consume_run_hits(m, ns, t, n) == 0,
    decreases n,
{
    if n > 0 {
        lemma_absent_token_never_consumed(m.consumed(ns, t), ns, t, (n - 1) as nat);
    }
}

/// At-most-once consumption: of `n` serialized consume attempts on one
/// token, at most one succeeds — exactly one when the token starts out
/// pending.
pub proof fn lemma_consume_at_most_once(m: StoreModel, ns: TokenNamespace, t: Seq<char>, n: nat)
    ensures
        consume_run_hits(m, ns, t, n) <= 1,
        m.pending(ns).contains(t) && n >= 1 ==> consume_run_hits(m, ns, t, n) == 1,
{
    if n >= 1 {
        let m1 = m.consumed(ns, t);
        assert(!m1.pending(ns).contains(t));
        lemma_absent_token_never_consumed(m1, ns, t, (n - 1) as nat);
    }
}

/// A consume attempt leaves the token absent from its namespace, whether
/// or not it was present — so any later side effect of the same redemption
/// happens strictly after the token is gone.
pub proof fn lemma_consume_clears_token(m: StoreModel, ns: TokenNamespace, t: Seq<char>)
    ensures
        !m.consumed(ns, t).pending(ns).contains(t),
{
}

/// Namespace isolation: issuing or consuming a token in one namespace
/// leaves every other namespace's pending set untouched, and the
/// completed-auth map as well.
pub proof fn lemma_namespace_isolation(
    m: StoreModel,
    ns1: TokenNamespace,
    ns2: TokenNamespace,
    t: Seq<char>,
)
    requires
        ns1 != ns2,
    ensures
        m.issued(ns1, t).pending(ns2) == m.pending(ns2),
        m.consumed(ns1, t).pending(ns2) == m.pending(ns2),
        m.issued(ns1, t).auth_completed == m.auth_completed,
        m.consumed(ns1, t).auth_completed == m.auth_completed,
{
}

} // verus!
