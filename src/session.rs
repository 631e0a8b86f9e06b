use vstd::prelude::*;

verus! {

/// Identifier of a party within a session's party set.
pub type PartyId = u16;

/// Opaque identifier of one signing session, agreed on by all parties
/// before the round starts.
pub struct SessionId {
    pub bytes: [u8; 32],
}

/// The unsigned integer that the first `k` bytes of `s` spell in big-endian order.
pub open spec fn be_value(s: Seq<u8>, k: nat) -> nat
    decreases k,
{
    if k == 0 {
        0
    } else {
        be_value(s, (k - 1) as nat) * 256 + s[k - 1] as nat
    }
}

/// The aggregator elected for a session: the first eight bytes of its
/// identifier read as a big-endian integer, reduced modulo the party count,
/// plus one.
pub open spec fn aggregator_of(session: Seq<u8>, n: nat) -> int
    recommends
        n > 0,
{
    (be_value(session, 8) % n) as int + 1
}

proof fn lemma_be_value_bound(s: Seq<u8>, k: nat)
    ensures
        be_value(s, k) < pow256(k),
    decreases k,
{
    if k > 0 {
        lemma_be_value_bound(s, (k - 1) as nat);
        let p = pow256((k - 1) as nat);
        let b = s[k - 1] as nat;
        assert(be_value(s, (k - 1) as nat) * 256 + b < p * 256) by (nonlinear_arith)
            requires
                be_value(s, (k - 1) as nat) < p,
                b < 256,
        ;
    }
}

/// `256` raised to the power `k`.
pub open spec fn pow256(k: nat) -> nat
    decreases k,
{
    if k == 0 {
        1
    } else {
        pow256((k - 1) as nat) * 256
    }
}

impl SessionId {
    /// The first eight bytes of the identifier read as a big-endian `u64`.
    pub fn leading_u64(&self) -> (r: u64)
        ensures
            r as nat == be_value(self.bytes@, 8),
    {
        let mut acc: u64 = 0;
        let mut i: usize = 0;
        while i < 8
            invariant
                0 <= i <= 8,
                self.bytes@.len() == 32,
                acc as nat == be_value(self.bytes@, i as nat),
            decreases 8 - i,
        {
            proof {
                lemma_be_value_bound(self.bytes@, i as nat);
                reveal_with_fuel(pow256, 8);
                assert(pow256(7) == 72057594037927936nat);
                lemma_pow256_monotone(i as nat, 7);
            }
            acc = acc * 256 + self.bytes[i] as u64;
            i = i + 1;
        }
        acc
    }

    /// The party that combines every party's contributions for this session,
    /// among `n` parties numbered from one.
    pub fn aggregator(&self, n: usize) -> (r: PartyId)
        requires
            n > 0,
        ensures
            r == aggregator_of(self.bytes@, n as nat) as PartyId,
    {
        let v = self.leading_u64();
        ((v % (n as u64)) + 1) as PartyId
    }
}

proof fn lemma_pow256_monotone(a: nat, b: nat)
    requires
        a <= b,
    ensures
        pow256(a) <= pow256(b),
    decreases b,
{
    if a < b {
        lemma_pow256_monotone(a, (b - 1) as nat);
    }
}

/// The party set `{1, ..., n}`.
pub open spec fn numbered_parties(n: nat) -> Set<PartyId> {
    Set::new(|p: PartyId| 1 <= p && p <= n)
}

proof fn lemma_numbered_parties_len(n: nat)
    requires
        n <= 65535,
    ensures
        numbered_parties(n).finite(),
        numbered_parties(n).len() == n,
    decreases n,
{
    if n == 0 {
        assert(numbered_parties(0) =~= Set::empty());
    } else {
        lemma_numbered_parties_len((n - 1) as nat);
        assert(numbered_parties(n) =~= numbered_parties((n - 1) as nat).insert(n as PartyId));
    }
}

/// The elected aggregator is one of the parties, where they are numbered
/// `1..=N` with `N >= 1`.
pub proof fn lemma_aggregator_is_member(session: Seq<u8>, parties: Set<PartyId>)
    requires
        parties.finite(),
        parties.len() >= 1,
        forall|p: PartyId| #[trigger] parties.contains(p) <==> 1 <= p && p <= parties.len(),
    ensures
        1 <= aggregator_of(session, parties.len()) <= parties.len(),
        parties.contains(aggregator_of(session, parties.len()) as PartyId),
{
    lemma_numbered_parties_len(65535);
    assert(parties.subset_of(numbered_parties(65535)));
    vstd::set_lib::lemma_len_subset(parties, numbered_parties(65535));
}

} // verus!
