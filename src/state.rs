use std::collections::{HashMap, HashSet};
use vstd::prelude::*;

use crate::protocol::{SignError, SignProtocol};
use crate::round::SignRound;
use crate::session::{aggregator_of, lemma_aggregator_is_member, PartyId, SessionId};

verus! {

/// Per-session accumulator of configuration and of every party's
/// first-round contribution.
pub struct SignState<P: SignProtocol> {
    epoch: u64,
    party_id: PartyId,
    parties: HashSet<PartyId>,
    aggregator_party_id: PartyId,
    tiresias_public_parameters: P::PublicParameters,
    messages: Option<Vec<Vec<u8>>>,
    public_nonce_encrypted_partial_signature_and_proofs: Option<Vec<P::NoncePartialSignature>>,
    decryption_shares: HashMap<PartyId, Vec<P::Share>>,
    decryption_shares_proofs: HashMap<PartyId, Vec<P::Proof>>,
}

/// The abstract content of a session state.
pub struct SignStateView<P: SignProtocol> {
    pub epoch: u64,
    pub party_id: PartyId,
    pub parties: Set<PartyId>,
    pub aggregator_party_id: PartyId,
    pub public_parameters: P::PublicParameters,
    pub messages: Option<Seq<Seq<u8>>>,
    pub nonce_partial_signatures: Option<Seq<P::NoncePartialSignature>>,
    /// The shares collected so far, by contributing party.
    pub shares: Map<PartyId, Seq<P::Share>>,
    /// The proofs collected so far, by contributing party.
    pub proofs: Map<PartyId, Seq<P::Proof>>,
}

impl<P: SignProtocol> SignStateView<P> {
    /// The parties whose contribution has been collected.
    pub open spec fn contributors(self) -> Set<PartyId> {
        self.shares.dom()
    }

    /// The local party may complete the round: a round is active, every
    /// party's shares and proofs are in, and the local party is the aggregator.
    pub open spec fn ready(self, round_active: bool) -> bool {
        &&& round_active
        &&& self.shares.len() == self.parties.len()
        &&& self.proofs.len() == self.parties.len()
        &&& self.party_id == self.aggregator_party_id
    }

    /// Both the messages and their encrypted partial signatures have been set.
    pub open spec fn inputs_set(self) -> bool {
        self.messages is Some && self.nonce_partial_signatures is Some
    }
}

/// The bytes of each message of a batch.
pub open spec fn messages_view(m: Vec<Vec<u8>>) -> Seq<Seq<u8>> {
    m@.map_values(|x: Vec<u8>| x@)
}

impl<P: SignProtocol> View for SignState<P> {
    type V = SignStateView<P>;

    closed spec fn view(&self) -> SignStateView<P> {
        SignStateView {
            epoch: self.epoch,
            party_id: self.party_id,
            parties: self.parties@,
            aggregator_party_id: self.aggregator_party_id,
            public_parameters: self.tiresias_public_parameters,
            messages: match self.messages {
                Some(m) => Some(messages_view(m)),
                None => None,
            },
            nonce_partial_signatures: match self.public_nonce_encrypted_partial_signature_and_proofs {
                Some(v) => Some(v@),
                None => None,
            },
            shares: self.decryption_shares@.map_values(|v: Vec<P::Share>| v@),
            proofs: self.decryption_shares_proofs@.map_values(|v: Vec<P::Proof>| v@),
        }
    }
}

impl<P: SignProtocol> SignState<P> {
    /// Shares and proofs are collected for the same parties.
    pub closed spec fn wf(&self) -> bool {
        self.decryption_shares@.dom() == self.decryption_shares_proofs@.dom()
    }

    /// A fresh session state; the aggregator is elected from the session
    /// identifier and the size of the party set.
    pub fn new(
        tiresias_public_parameters: P::PublicParameters,
        epoch: u64,
        party_id: PartyId,
        parties: HashSet<PartyId>,
        session_id: SessionId,
    ) -> (r: Self)
        requires
            parties@.len() > 0,
        ensures
            r.wf(),
            r@.shares.dom().finite(),
            r@.proofs.dom().finite(),
            r@.epoch == epoch,
            r@.party_id == party_id,
            r@.parties == parties@,
            r@.aggregator_party_id == aggregator_of(session_id.bytes@, parties@.len()) as PartyId,
            r@.public_parameters == tiresias_public_parameters,
            r@.messages is None,
            r@.nonce_partial_signatures is None,
            r@.shares == Map::<PartyId, Seq<P::Share>>::empty(),
            r@.proofs == Map::<PartyId, Seq<P::Proof>>::empty(),
    {
        let aggregator_party_id = session_id.aggregator(parties.len());
        let r = SignState {
            epoch,
            party_id,
            parties,
            aggregator_party_id,
            tiresias_public_parameters,
            messages: None,
            public_nonce_encrypted_partial_signature_and_proofs: None,
            decryption_shares: HashMap::new(),
            decryption_shares_proofs: HashMap::new(),
        };
        assert(r@.shares =~= Map::<PartyId, Seq<P::Share>>::empty());
        assert(r@.shares.dom() =~= Set::<PartyId>::empty());
        assert(r@.proofs =~= Map::<PartyId, Seq<P::Proof>>::empty());
        r
    }

    /// Records the message batch and the matching encrypted partial
    /// signatures for this round, replacing any earlier values.
    pub fn set(
        &mut self,
        messages: Vec<Vec<u8>>,
        public_nonce_encrypted_partial_signature_and_proofs: Vec<P::NoncePartialSignature>,
    )
        requires
            old(self).wf(),
        ensures
            final(self).wf(),
            final(self)@.shares.dom().finite(),
            final(self)@.proofs.dom().finite(),
            final(self)@ == (SignStateView {
                messages: Some(messages_view(messages)),
                nonce_partial_signatures: Some(public_nonce_encrypted_partial_signature_and_proofs@),
                ..old(self)@
            }),
    {
        assert(self@.shares.dom() =~= self.decryption_shares@.dom());
        assert(self@.proofs.dom() =~= self.decryption_shares_proofs@.dom());
        self.messages = Some(messages);
        self.public_nonce_encrypted_partial_signature_and_proofs = Some(
            public_nonce_encrypted_partial_signature_and_proofs,
        );
    }

    /// Records one party's first-round contribution, replacing any earlier
    /// contribution of the same party. Proofs are checked only at combination.
    pub fn insert_first_round(
        &mut self,
        party_id: PartyId,
        message: (Vec<P::Share>, Vec<P::Proof>),
    ) -> (r: Result<(), SignError<P::Error>>)
        requires
            old(self).wf(),
        ensures
            r is Ok,
            final(self).wf(),
            final(self)@.shares.dom().finite(),
            final(self)@.proofs.dom().finite(),
            final(self)@.contributors().len() == old(self)@.contributors().len() + (if old(
                self,
            )@.contributors().contains(party_id) {
                0int
            } else {
                1int
            }),
            final(self)@ == (SignStateView {
                shares: old(self)@.shares.insert(party_id, message.0@),
                proofs: old(self)@.proofs.insert(party_id, message.1@),
                ..old(self)@
            }),
    {
        let (shares, proofs) = message;
        let _ = self.decryption_shares.insert(party_id, shares);
        let _ = self.decryption_shares_proofs.insert(party_id, proofs);
        assert(self@.shares =~= old(self)@.shares.insert(party_id, message.0@));
        assert(self@.shares.dom() =~= self.decryption_shares@.dom());
        assert(self@.proofs.dom() =~= self.decryption_shares_proofs@.dom());
        assert(old(self)@.shares.dom() =~= old(self).decryption_shares@.dom());
        assert(self@.proofs =~= old(self)@.proofs.insert(party_id, message.1@));
        Ok(())
    }

    /// Whether the local party may complete the round now.
    pub fn ready_for_complete_first_round(&self, round: &SignRound<P>) -> (r: bool)
        requires
            self.wf(),
        ensures
            r == self@.ready(round.is_active()),
    {
        assert(self@.shares.dom() =~= self.decryption_shares@.dom());
        assert(self@.proofs.dom() =~= self.decryption_shares_proofs@.dom());
        match round {
            SignRound::FirstRound { .. } => {
                self.decryption_shares.len() == self.parties.len()
                    && self.decryption_shares_proofs.len() == self.parties.len()
                    && self.party_id == self.aggregator_party_id
            },
            SignRound::Empty => false,
        }
    }

    /// The epoch of the session.
    pub fn epoch(&self) -> (r: u64)
        ensures
            r == self@.epoch,
    {
        self.epoch
    }

    /// The local party.
    pub fn party_id(&self) -> (r: PartyId)
        ensures
            r == self@.party_id,
    {
        self.party_id
    }

    /// The party elected to combine the contributions.
    pub fn aggregator_party_id(&self) -> (r: PartyId)
        ensures
            r == self@.aggregator_party_id,
    {
        self.aggregator_party_id
    }

    /// The party set of the session.
    pub fn parties(&self) -> (r: &HashSet<PartyId>)
        ensures
            r@ == self@.parties,
    {
        &self.parties
    }

    /// The messages of this round, if set.
    pub fn messages(&self) -> (r: &Option<Vec<Vec<u8>>>)
        ensures
            match r {
                Some(m) => self@.messages == Some(messages_view(*m)),
                None => self@.messages is None,
            },
    {
        &self.messages
    }

    /// The encrypted partial signatures of this round, if set.
    pub fn public_nonce_encrypted_partial_signature_and_proofs(&self) -> (r: &Option<
        Vec<P::NoncePartialSignature>,
    >)
        ensures
            match r {
                Some(v) => self@.nonce_partial_signatures == Some(v@),
                None => self@.nonce_partial_signatures is None,
            },
    {
        &self.public_nonce_encrypted_partial_signature_and_proofs
    }

    /// The public parameters of the encryption scheme.
    pub fn tiresias_public_parameters(&self) -> (r: &P::PublicParameters)
        ensures
            *r == self@.public_parameters,
    {
        &self.tiresias_public_parameters
    }

    /// The shares collected so far, by party.
    pub fn decryption_shares(&self) -> (r: &HashMap<PartyId, Vec<P::Share>>)
        ensures
            r@.map_values(|v: Vec<P::Share>| v@) == self@.shares,
    {
        &self.decryption_shares
    }

    /// The proofs collected so far, by party.
    pub fn decryption_shares_proofs(&self) -> (r: &HashMap<PartyId, Vec<P::Proof>>)
        ensures
            r@.map_values(|v: Vec<P::Proof>| v@) == self@.proofs,
    {
        &self.decryption_shares_proofs
    }
}

/// Aggregator agreement: the states that the parties of one session build,
/// over the same party set numbered `1..=N` with `N >= 1`, name the same
/// aggregator, and it is one of the parties.
pub proof fn lemma_aggregator_agreed<P: SignProtocol>(
    session_id: SessionId,
    a: SignStateView<P>,
    b: SignStateView<P>,
)
    requires
        a.parties.finite(),
        a.parties.len() >= 1,
        forall|p: PartyId| #[trigger] a.parties.contains(p) <==> 1 <= p && p <= a.parties.len(),
        b.parties == a.parties,
        a.aggregator_party_id == aggregator_of(session_id.bytes@, a.parties.len()) as PartyId,
        b.aggregator_party_id == aggregator_of(session_id.bytes@, b.parties.len()) as PartyId,
    ensures
        a.aggregator_party_id == b.aggregator_party_id,
        a.parties.contains(a.aggregator_party_id),
{
    lemma_aggregator_is_member(session_id.bytes@, a.parties);
}

/// Readiness: the local party may complete only while a round is active,
/// once exactly as many distinct parties as the party set holds have
/// contributed, and only where it is the aggregator. With fewer contributors
/// it may not, and a party other than the aggregator never may, whatever has
/// been collected.
pub proof fn lemma_readiness<P: SignProtocol>(s: SignState<P>, round: SignRound<P>)
    requires
        s.wf(),
    ensures
        s@.contributors().len() < s@.parties.len() ==> !s@.ready(round.is_active()),
        s@.party_id != s@.aggregator_party_id ==> !s@.ready(round.is_active()),
        s@.ready(round.is_active()) <==> {
            &&& round.is_active()
            &&& s@.contributors().len() == s@.parties.len()
            &&& s@.party_id == s@.aggregator_party_id
        },
{
    assert(s@.shares.dom() =~= s@.proofs.dom());
}

} // verus!
