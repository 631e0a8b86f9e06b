use vstd::prelude::*;

use std::collections::HashSet;

use crate::protocol::{SignError, SignProtocol};
use crate::session::PartyId;
use crate::state::SignState;

verus! {

/// The single-use round state machine: either the actors of an active first
/// round, one of each kind per message, or nothing (not started, or already
/// completed).
pub enum SignRound<P: SignProtocol> {
    FirstRound {
        signature_threshold_decryption_round_parties: Vec<P::DecryptionRoundParty>,
        signature_partial_decryption_proof_verification_round_parties: Vec<
            P::VerificationRoundParty,
        >,
    },
    Empty,
}

/// What completing a round yields: the signatures, one per message in
/// message order, or nothing where no round was active.
#[derive(Debug)]
pub enum SignRoundCompletion {
    Output(Vec<Vec<u8>>),
    Empty,
}

/// The batches handed to a round line up: one presignature and one
/// encrypted partial signature per message.
pub open spec fn batches_match(messages: nat, presigns: nat, nonce_partial_signatures: nat) -> bool {
    presigns == messages && nonce_partial_signatures == messages
}

/// What completion yields from the cryptographic library's combination
/// `combined`, over a session of `message_count` messages: the signatures as
/// returned, where there is one per message; the library's own error
/// unchanged.
pub open spec fn completion_of<E>(message_count: nat, combined: Result<Vec<Vec<u8>>, E>) -> Result<
    SignRoundCompletion,
    SignError<E>,
> {
    match combined {
        Ok(signatures) => if signatures@.len() == message_count {
            Ok(SignRoundCompletion::Output(signatures))
        } else {
            Err(SignError::SignatureCountMismatch)
        },
        Err(e) => Err(SignError::Protocol(e)),
    }
}

/// The outcomes that completion may have, from a round that is active or not,
/// over a session whose inputs are set or not and that holds
/// `message_count` messages: on an active round with its inputs set, what
/// `completion_of` gives for some combination by the cryptographic library.
pub open spec fn completion_allowed<E>(
    round_active: bool,
    inputs_set: bool,
    message_count: nat,
    r: Result<SignRoundCompletion, SignError<E>>,
) -> bool {
    if !round_active {
        r == Ok::<SignRoundCompletion, SignError<E>>(SignRoundCompletion::Empty)
    } else if !inputs_set {
        r == Err::<SignRoundCompletion, SignError<E>>(SignError::RoundInputsNotSet)
    } else {
        exists|combined: Result<Vec<Vec<u8>>, E>| r == #[trigger] completion_of(message_count, combined)
    }
}

/// What the cryptographic library returned for one message: this party's
/// share and its proof, and the parties kept for combination.
pub struct MessageContribution<P: SignProtocol> {
    pub share: P::Share,
    pub decryption_round_party: P::DecryptionRoundParty,
    pub proof: P::Proof,
    pub verification_round_party: P::VerificationRoundParty,
}

/// The per-message parties that the library's set-up returned, accepted where
/// there is one of each per message; its error is passed on unchanged.
pub open spec fn initiation_of<P: SignProtocol>(
    message_count: nat,
    initiated: Result<(Vec<P::DecryptionParty>, Vec<P::VerificationParty>), P::Error>,
) -> Result<(Vec<P::DecryptionParty>, Vec<P::VerificationParty>), SignError<P::Error>> {
    match initiated {
        Ok((d, v)) => if d@.len() == message_count && v@.len() == message_count {
            Ok((d, v))
        } else {
            Err(SignError::PartyCountMismatch)
        },
        Err(e) => Err(SignError::Protocol(e)),
    }
}

/// `k` is the position of the first failure among `outcomes`.
pub open spec fn first_failure<T, E>(outcomes: Seq<Result<T, E>>, k: int) -> bool {
    &&& 0 <= k < outcomes.len()
    &&& outcomes[k] is Err
    &&& forall|j: int| 0 <= j < k ==> #[trigger] outcomes[j] is Ok
}

/// `r` is the first round assembled from the per-message outcomes: the first
/// failure, unchanged, where one failed; else, where there is one outcome per
/// message, the active round and the shares and proofs, each at the position
/// of its message.
pub open spec fn first_round_of<P: SignProtocol>(
    message_count: nat,
    outcomes: Seq<Result<MessageContribution<P>, P::Error>>,
    r: Result<(SignRound<P>, (Vec<P::Share>, Vec<P::Proof>)), SignError<P::Error>>,
) -> bool {
    if exists|k: int| first_failure(outcomes, k) {
        exists|k: int|
            #[trigger] first_failure(outcomes, k) && r == Err::<
                (SignRound<P>, (Vec<P::Share>, Vec<P::Proof>)),
                SignError<P::Error>,
            >(SignError::Protocol(outcomes[k]->Err_0))
    } else {
        &&& outcomes.len() == message_count
        &&& r is Ok
        &&& match r->Ok_0.0 {
            SignRound::FirstRound {
                signature_threshold_decryption_round_parties: d,
                signature_partial_decryption_proof_verification_round_parties: v,
            } => {
                let shares = r->Ok_0.1.0;
                let proofs = r->Ok_0.1.1;
                &&& d@.len() == message_count
                &&& v@.len() == message_count
                &&& shares@.len() == message_count
                &&& proofs@.len() == message_count
                &&& forall|i: int|
                    0 <= i < message_count ==> {
                        let c = (#[trigger] outcomes[i])->Ok_0;
                        &&& shares@[i] == c.share
                        &&& proofs@[i] == c.proof
                        &&& d@[i] == c.decryption_round_party
                        &&& v@[i] == c.verification_round_party
                    }
            },
            SignRound::Empty => false,
        }
    }
}

/// `r` is what starting a round of `message_count` messages gives where the
/// library's set-up returned `initiated`: its rejection by `initiation_of`, or
/// else the first round that `first_round_of` assembles from the per-message
/// outcomes, taken in message order up to the first failure.
pub open spec fn started_from<P: SignProtocol>(
    message_count: nat,
    initiated: Result<(Vec<P::DecryptionParty>, Vec<P::VerificationParty>), P::Error>,
    r: Result<(SignRound<P>, (Vec<P::Share>, Vec<P::Proof>)), SignError<P::Error>>,
) -> bool {
    match initiation_of::<P>(message_count, initiated) {
        Err(e) => r == Err::<(SignRound<P>, (Vec<P::Share>, Vec<P::Proof>)), SignError<P::Error>>(e),
        Ok(_) => exists|outcomes: Seq<Result<MessageContribution<P>, P::Error>>|
            outcomes.len() <= message_count && #[trigger] first_round_of(message_count, outcomes, r),
    }
}

impl<P: SignProtocol> SignRound<P> {
    /// The round holds live first-round actors.
    pub open spec fn is_active(&self) -> bool {
        self is FirstRound
    }

    /// The number of messages that an active round serves: the count of its
    /// decryption parties and of its verification parties.
    pub open spec fn serves(&self, n: nat) -> bool {
        match self {
            SignRound::FirstRound {
                signature_threshold_decryption_round_parties,
                signature_partial_decryption_proof_verification_round_parties,
            } => signature_threshold_decryption_round_parties@.len() == n
                && signature_partial_decryption_proof_verification_round_parties@.len() == n,
            SignRound::Empty => false,
        }
    }

    /// Accepts the per-message parties that the library's set-up returned:
    /// exactly `initiation_of`.
    pub fn accept_initiation(
        message_count: usize,
        initiated: Result<(Vec<P::DecryptionParty>, Vec<P::VerificationParty>), P::Error>,
    ) -> (r: Result<(Vec<P::DecryptionParty>, Vec<P::VerificationParty>), SignError<P::Error>>)
        ensures
            r == initiation_of::<P>(message_count as nat, initiated),
    {
        match initiated {
            Ok((d, v)) => {
                if d.len() == message_count && v.len() == message_count {
                    Ok((d, v))
                } else {
                    Err(SignError::PartyCountMismatch)
                }
            },
            Err(e) => Err(SignError::Protocol(e)),
        }
    }

    /// Assembles the first round from the library's per-message outcomes, in
    /// message order: exactly `first_round_of`.
    pub fn first_round_from(outcomes: Vec<Result<MessageContribution<P>, P::Error>>) -> (r: Result<
        (Self, (Vec<P::Share>, Vec<P::Proof>)),
        SignError<P::Error>,
    >)
        ensures
            first_round_of(outcomes@.len(), outcomes@, r),
    {
        let ghost all = outcomes@;
        let mut rest = outcomes;
        let n = rest.len();
        let mut shares: Vec<P::Share> = Vec::new();
        let mut proofs: Vec<P::Proof> = Vec::new();
        let mut decryption_round_parties: Vec<P::DecryptionRoundParty> = Vec::new();
        let mut verification_round_parties: Vec<P::VerificationRoundParty> = Vec::new();
        let mut i: usize = 0;
        while i < n
            invariant
                n == all.len(),
                all == outcomes@,
                i <= n,
                rest@ == all.subrange(i as int, n as int),
                shares@.len() == i,
                proofs@.len() == i,
                decryption_round_parties@.len() == i,
                verification_round_parties@.len() == i,
                forall|j: int|
                    0 <= j < i ==> {
                        &&& #[trigger] all[j] is Ok
                        &&& shares@[j] == all[j]->Ok_0.share
                        &&& proofs@[j] == all[j]->Ok_0.proof
                        &&& decryption_round_parties@[j] == all[j]->Ok_0.decryption_round_party
                        &&& verification_round_parties@[j] == all[j]->Ok_0.verification_round_party
                    },
            decreases n - i,
        {
            let outcome = rest.remove(0);
            assert(outcome == all[i as int]);
            match outcome {
                Ok(c) => {
                    let MessageContribution {
                        share,
                        decryption_round_party,
                        proof,
                        verification_round_party,
                    } = c;
                    shares.push(share);
                    proofs.push(proof);
                    decryption_round_parties.push(decryption_round_party);
                    verification_round_parties.push(verification_round_party);
                },
                Err(e) => {
                    let r = Err(SignError::Protocol(e));
                    proof {
                        assert(first_failure(all, i as int));
                        assert(r == Err::<(Self, (Vec<P::Share>, Vec<P::Proof>)), SignError<P::Error>>(
                            SignError::Protocol(all[i as int]->Err_0),
                        ));
                        assert forall|k: int| first_failure(all, k) implies k == i by {
                            if k < i {
                                assert(all[k] is Ok);
                            } else if k > i {
                                assert(all[i as int] is Ok);
                            }
                        }
                    }
                    return r;
                },
            }
            i = i + 1;
        }
        proof {
            assert forall|k: int| !first_failure(all, k) by {
                if 0 <= k < n {
                    assert(all[k] is Ok);
                }
            }
        }
        Ok((
            SignRound::FirstRound {
                signature_threshold_decryption_round_parties: decryption_round_parties,
                signature_partial_decryption_proof_verification_round_parties:
                    verification_round_parties,
            },
            (shares, proofs),
        ))
    }

    /// What completion yields from the library's combination: exactly
    /// `completion_of`.
    pub fn completion_from(message_count: usize, combined: Result<Vec<Vec<u8>>, P::Error>) -> (r:
        Result<SignRoundCompletion, SignError<P::Error>>)
        ensures
            r == completion_of(message_count as nat, combined),
    {
        match combined {
            Ok(signatures) => {
                if signatures.len() == message_count {
                    Ok(SignRoundCompletion::Output(signatures))
                } else {
                    Err(SignError::SignatureCountMismatch)
                }
            },
            Err(e) => Err(SignError::Protocol(e)),
        }
    }

    /// Starts the first round: for every message in order, this party's
    /// partial decryption share and its proof. Returns the active round and
    /// the `(shares, proofs)` pair to broadcast. Batches of different lengths
    /// are refused before any cryptographic work. Message `i`, its encrypted
    /// partial signature and the `i`-th parties of the set-up go to the
    /// library together; the first failure ends the call and fails it whole.
    pub fn new(
        provider: &P,
        tiresias_public_parameters: &P::PublicParameters,
        tiresias_key_share_decryption_key_share: P::KeyShare,
        party_id: PartyId,
        parties: &HashSet<PartyId>,
        messages: &Vec<Vec<u8>>,
        dkg_output: P::DkgOutput,
        public_nonce_encrypted_partial_signature_and_proofs: &Vec<P::NoncePartialSignature>,
        presigns: &Vec<P::Presign>,
        hash: &P::HashKind,
    ) -> (r: Result<(Self, (Vec<P::Share>, Vec<P::Proof>)), SignError<P::Error>>)
        ensures
            !batches_match(
                messages@.len(),
                presigns@.len(),
                public_nonce_encrypted_partial_signature_and_proofs@.len(),
            ) ==> r == Err::<(Self, (Vec<P::Share>, Vec<P::Proof>)), SignError<P::Error>>(
                SignError::InputLengthMismatch,
            ),
            batches_match(
                messages@.len(),
                presigns@.len(),
                public_nonce_encrypted_partial_signature_and_proofs@.len(),
            ) ==> exists|
                initiated: Result<(Vec<P::DecryptionParty>, Vec<P::VerificationParty>), P::Error>,
            | #[trigger] started_from::<P>(messages@.len(), initiated, r),
            r is Ok ==> {
                let (round, (shares, proofs)) = r->Ok_0;
                &&& round.serves(messages@.len())
                &&& shares@.len() == messages@.len()
                &&& proofs@.len() == messages@.len()
            },
    {
        if presigns.len() != messages.len()
            || public_nonce_encrypted_partial_signature_and_proofs.len() != messages.len() {
            return Err(SignError::InputLengthMismatch);
        }
        let initiated = provider.initiate(
            tiresias_key_share_decryption_key_share,
            tiresias_public_parameters,
            party_id,
            parties,
            dkg_output,
            presigns,
            public_nonce_encrypted_partial_signature_and_proofs,
        );
        let ghost set_up = initiated;
        let n = messages.len();
        let (decryption_parties, verification_parties) = match Self::accept_initiation(
            n,
            initiated,
        ) {
            Ok(p) => p,
            Err(e) => {
                assert(started_from::<P>(n as nat, set_up, Err(e)));
                return Err(e);
            },
        };
        let mut outcomes: Vec<Result<MessageContribution<P>, P::Error>> = Vec::new();
        let mut i: usize = 0;
        while i < n
            invariant
                n == messages@.len(),
                i <= n,
                initiation_of::<P>(n as nat, set_up) is Ok,
                decryption_parties@.len() == n,
                verification_parties@.len() == n,
                public_nonce_encrypted_partial_signature_and_proofs@.len() == n,
                presigns@.len() == n,
                outcomes@.len() == i,
                forall|j: int| 0 <= j < i ==> #[trigger] outcomes@[j] is Ok,
            decreases n - i,
        {
            let outcome = match provider.partially_decrypt(
                &decryption_parties[i],
                &messages[i],
                hash,
                &public_nonce_encrypted_partial_signature_and_proofs[i],
            ) {
                Err(e) => Err(e),
                Ok((share, decryption_round_party)) => match provider.prove(
                    &verification_parties[i],
                ) {
                    Err(e) => Err(e),
                    Ok((proof, verification_round_party)) => Ok(
                        MessageContribution {
                            share,
                            decryption_round_party,
                            proof,
                            verification_round_party,
                        },
                    ),
                },
            };
            let failed = match &outcome {
                Err(_) => true,
                Ok(_) => false,
            };
            outcomes.push(outcome);
            if failed {
                let ghost all = outcomes@;
                let r = Self::first_round_from(outcomes);
                assert(first_failure(all, i as int));
                assert(first_round_of(n as nat, all, r));
                assert(started_from::<P>(n as nat, set_up, r));
                return r;
            }
            i = i + 1;
        }
        let ghost all = outcomes@;
        let r = Self::first_round_from(outcomes);
        assert(started_from::<P>(n as nat, set_up, r));
        r
    }

    /// Completes the round: where it is active, combines every party's
    /// shares into the signatures. The round is left empty whatever the
    /// outcome, so a later call yields the empty completion.
    pub fn complete_round(&mut self, provider: &P, state: &SignState<P>) -> (r: Result<
        SignRoundCompletion,
        SignError<P::Error>,
    >)
        ensures
            final(self).is_empty(),
            completion_allowed(
                old(self).is_active(),
                state@.inputs_set(),
                state@.messages->Some_0.len(),
                r,
            ),
    {
        let mut round = SignRound::Empty;
        std::mem::swap(self, &mut round);
        match round {
            SignRound::FirstRound {
                signature_threshold_decryption_round_parties,
                signature_partial_decryption_proof_verification_round_parties,
            } => {
                let messages = match state.messages() {
                    Some(m) => m,
                    None => return Err(SignError::RoundInputsNotSet),
                };
                let nonce_partial_signatures = match state.public_nonce_encrypted_partial_signature_and_proofs() {
                    Some(v) => v,
                    None => return Err(SignError::RoundInputsNotSet),
                };
                let combined = provider.combine(
                    messages,
                    state.tiresias_public_parameters(),
                    state.decryption_shares(),
                    state.decryption_shares_proofs(),
                    nonce_partial_signatures,
                    signature_threshold_decryption_round_parties,
                    signature_partial_decryption_proof_verification_round_parties,
                );
                let r = Self::completion_from(messages.len(), combined);
                assert(r == completion_of(state@.messages->Some_0.len(), combined));
                r
            },
            SignRound::Empty => Ok(SignRoundCompletion::Empty),
        }
    }

    /// The round holds nothing.
    pub open spec fn is_empty(&self) -> bool {
        self is Empty
    }
}

/// Single-use completion: after a completion the round is empty, and
/// completing it again yields the empty completion, whatever the session
/// state and whatever the first completion returned.
pub proof fn lemma_completion_single_use<E>(
    first_active: bool,
    first_inputs_set: bool,
    first_message_count: nat,
    first: Result<SignRoundCompletion, SignError<E>>,
    second_inputs_set: bool,
    second_message_count: nat,
    second: Result<SignRoundCompletion, SignError<E>>,
)
    requires
        completion_allowed(first_active, first_inputs_set, first_message_count, first),
        completion_allowed(false, second_inputs_set, second_message_count, second),
    ensures
        second == Ok::<SignRoundCompletion, SignError<E>>(SignRoundCompletion::Empty),
        first_active ==> first != Ok::<SignRoundCompletion, SignError<E>>(SignRoundCompletion::Empty),
{
}

} // verus!
