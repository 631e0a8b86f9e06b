use std::cell::Cell;
use std::collections::{HashMap, HashSet};

use mpc_sign::protocol::{SignError, SignProtocol};
use mpc_sign::round::{MessageContribution, SignRound, SignRoundCompletion};
use mpc_sign::session::{PartyId, SessionId};
use mpc_sign::state::SignState;

/// A toy threshold scheme: the signing key is the sum of the parties' key
/// shares, and the signature of a message is the key times its digest.
struct Toy {
    calls: Cell<u32>,
    short_by_one: bool,
    drop_last_signature: bool,
}

#[derive(Debug, PartialEq)]
enum ToyError {
    InvalidProof(PartyId),
    Missing(PartyId),
    Refused,
}

fn digest(m: &[u8], salt: u8) -> u64 {
    m.iter().fold(17u64 + salt as u64, |acc, b| acc.wrapping_mul(31).wrapping_add(*b as u64))
}

fn toy() -> Toy {
    Toy { calls: Cell::new(0), short_by_one: false, drop_last_signature: false }
}

impl SignProtocol for Toy {
    type PublicParameters = Vec<u64>;
    type KeyShare = u64;
    type DkgOutput = u64;
    type Presign = u64;
    type NoncePartialSignature = u64;
    type HashKind = u8;
    type Share = u64;
    type Proof = u64;
    type DecryptionParty = (PartyId, u64);
    type VerificationParty = (PartyId, u64, u64);
    type DecryptionRoundParty = PartyId;
    type VerificationRoundParty = PartyId;
    type Error = ToyError;

    fn initiate(
        &self,
        key_share: u64,
        _public_parameters: &Vec<u64>,
        party_id: PartyId,
        _parties: &HashSet<PartyId>,
        _dkg_output: u64,
        _presigns: &Vec<u64>,
        nonces: &Vec<u64>,
    ) -> Result<(Vec<(PartyId, u64)>, Vec<(PartyId, u64, u64)>), ToyError> {
        self.calls.set(self.calls.get() + 1);
        let mut d: Vec<(PartyId, u64)> = nonces.iter().map(|_| (party_id, key_share)).collect();
        let v = nonces.iter().map(|n| (party_id, key_share, *n)).collect();
        if self.short_by_one {
            d.pop();
        }
        Ok((d, v))
    }

    fn partially_decrypt(
        &self,
        party: &(PartyId, u64),
        message: &Vec<u8>,
        hash: &u8,
        nonce: &u64,
    ) -> Result<(u64, PartyId), ToyError> {
        self.calls.set(self.calls.get() + 1);
        if message.as_slice() == b"poison" {
            return Err(ToyError::Refused);
        }
        Ok((party.1.wrapping_mul(digest(message, *hash).wrapping_add(*nonce)), party.0))
    }

    fn prove(&self, party: &(PartyId, u64, u64)) -> Result<(u64, PartyId), ToyError> {
        self.calls.set(self.calls.get() + 1);
        Ok((party.1.wrapping_mul(party.2) ^ party.0 as u64, party.0))
    }

    fn combine(
        &self,
        messages: &Vec<Vec<u8>>,
        public_parameters: &Vec<u64>,
        shares: &HashMap<PartyId, Vec<u64>>,
        proofs: &HashMap<PartyId, Vec<u64>>,
        nonces: &Vec<u64>,
        _decryption_parties: Vec<PartyId>,
        _verification_parties: Vec<PartyId>,
    ) -> Result<Vec<Vec<u8>>, ToyError> {
        let key: u64 = public_parameters.iter().fold(0u64, |a, b| a.wrapping_add(*b));
        let mut out = Vec::new();
        for i in 0..messages.len() {
            let mut sum = 0u64;
            for p in 1..public_parameters.len() {
                let p = p as PartyId;
                let s = shares.get(&p).ok_or(ToyError::Missing(p))?;
                let q = proofs.get(&p).ok_or(ToyError::Missing(p))?;
                if q[i] != public_parameters[p as usize].wrapping_mul(nonces[i]) ^ p as u64 {
                    return Err(ToyError::InvalidProof(p));
                }
                sum = sum.wrapping_add(s[i]);
            }
            out.push(sum.wrapping_sub(key.wrapping_mul(nonces[i])).to_be_bytes().to_vec());
        }
        if self.drop_last_signature {
            out.pop();
        }
        Ok(out)
    }
}

const KEY_SHARES: [u64; 4] = [0, 11, 22, 33];

fn public_parameters() -> Vec<u64> {
    KEY_SHARES.to_vec()
}

fn party_set(n: u16) -> HashSet<PartyId> {
    (1..=n).collect()
}

fn session(last: u8) -> SessionId {
    let mut bytes = [0u8; 32];
    bytes[7] = last;
    SessionId { bytes }
}

fn messages() -> Vec<Vec<u8>> {
    vec![b"first".to_vec(), b"second".to_vec()]
}

fn nonces() -> Vec<u64> {
    vec![1000, 2000]
}

fn verifies(key: u64, message: &[u8], signature: &[u8]) -> bool {
    signature == key.wrapping_mul(digest(message, 0)).to_be_bytes().as_slice()
}

type Contribution = (Vec<u64>, Vec<u64>);

fn start(provider: &Toy, party: PartyId) -> (SignRound<Toy>, Contribution) {
    let key: u64 = KEY_SHARES.iter().sum();
    SignRound::new(
        provider,
        &public_parameters(),
        KEY_SHARES[party as usize],
        party,
        &party_set(3),
        &messages(),
        key,
        &nonces(),
        &vec![7, 8],
        &0u8,
    )
    .ok()
    .unwrap()
}

fn state(party: PartyId) -> SignState<Toy> {
    let mut s = SignState::new(public_parameters(), 4, party, party_set(3), session(1));
    s.set(messages(), nonces());
    s
}

#[test]
fn end_to_end_three_parties_two_messages() {
    let provider = toy();
    let mut rounds = Vec::new();
    let mut contributions = Vec::new();
    for p in 1..=3u16 {
        let (round, (shares, proofs)) = start(&provider, p);
        assert_eq!(shares.len(), 2);
        assert_eq!(proofs.len(), 2);
        rounds.push(round);
        contributions.push((p, (shares, proofs)));
    }
    // session bytes 0..8 spell 1, so the aggregator is 1 % 3 + 1 = 2
    let mut aggregator = state(2);
    assert_eq!(aggregator.aggregator_party_id(), 2);
    for (p, c) in contributions {
        assert!(aggregator.insert_first_round(p, c).is_ok());
    }
    assert!(aggregator.ready_for_complete_first_round(&rounds[1]));
    let key: u64 = KEY_SHARES.iter().sum();
    match rounds[1].complete_round(&provider, &aggregator) {
        Ok(SignRoundCompletion::Output(signatures)) => {
            assert_eq!(signatures.len(), 2);
            for (m, s) in messages().iter().zip(signatures.iter()) {
                assert!(verifies(key, m, s));
            }
        }
        _ => panic!("completion failed"),
    }
}

#[test]
fn second_completion_is_empty() {
    let provider = toy();
    let mut aggregator = state(2);
    let mut round = SignRound::Empty;
    for p in 1..=3u16 {
        let (r, c) = start(&provider, p);
        if p == 2 {
            round = r;
        }
        aggregator.insert_first_round(p, c).ok().unwrap();
    }
    assert!(matches!(
        round.complete_round(&provider, &aggregator),
        Ok(SignRoundCompletion::Output(_))
    ));
    assert!(matches!(round, SignRound::Empty));
    assert!(!aggregator.ready_for_complete_first_round(&round));
    assert!(matches!(
        round.complete_round(&provider, &aggregator),
        Ok(SignRoundCompletion::Empty)
    ));
}

#[test]
fn tampered_proof_fails_whole_batch() {
    let provider = toy();
    let mut aggregator = state(2);
    let mut round = SignRound::Empty;
    for p in 1..=3u16 {
        let (r, (shares, mut proofs)) = start(&provider, p);
        if p == 2 {
            round = r;
        }
        if p == 3 {
            proofs[1] ^= 1;
        }
        aggregator.insert_first_round(p, (shares, proofs)).ok().unwrap();
    }
    match round.complete_round(&provider, &aggregator) {
        Err(SignError::Protocol(e)) => assert_eq!(e, ToyError::InvalidProof(3)),
        _ => panic!("tampered proof was accepted"),
    }
    assert!(matches!(round, SignRound::Empty));
}

#[test]
fn mismatched_batches_fail_before_any_work() {
    let provider = toy();
    let r = SignRound::new(
        &provider,
        &public_parameters(),
        11,
        1,
        &party_set(3),
        &messages(),
        66,
        &nonces(),
        &vec![7],
        &0u8,
    );
    assert!(matches!(r, Err(SignError::InputLengthMismatch)));
    let r = SignRound::new(
        &provider,
        &public_parameters(),
        11,
        1,
        &party_set(3),
        &messages(),
        66,
        &vec![1000, 2000, 3000],
        &vec![7, 8],
        &0u8,
    );
    assert!(matches!(r, Err(SignError::InputLengthMismatch)));
    assert_eq!(provider.calls.get(), 0);
}

#[test]
fn wrong_party_count_from_library_is_refused() {
    let provider = Toy { calls: Cell::new(0), short_by_one: true, drop_last_signature: false };
    let r = SignRound::new(
        &provider,
        &public_parameters(),
        11,
        1,
        &party_set(3),
        &messages(),
        66,
        &nonces(),
        &vec![7, 8],
        &0u8,
    );
    assert!(matches!(r, Err(SignError::PartyCountMismatch)));
    assert_eq!(provider.calls.get(), 1);
}

#[test]
fn empty_batch_starts_an_empty_round() {
    let provider = toy();
    let r = SignRound::new(
        &provider,
        &public_parameters(),
        11,
        1,
        &party_set(3),
        &vec![],
        66,
        &vec![],
        &vec![],
        &0u8,
    );
    match r {
        Ok((round, (shares, proofs))) => {
            assert!(matches!(round, SignRound::FirstRound { .. }));
            assert!(shares.is_empty());
            assert!(proofs.is_empty());
        }
        _ => panic!("an empty batch was refused"),
    }
}

#[test]
fn completion_before_inputs_are_set() {
    let provider = toy();
    let (mut round, _) = start(&provider, 2);
    let unset: SignState<Toy> = SignState::new(public_parameters(), 4, 2, party_set(3), session(1));
    assert!(matches!(
        round.complete_round(&provider, &unset),
        Err(SignError::RoundInputsNotSet)
    ));
    assert!(matches!(round, SignRound::Empty));
}

#[test]
fn completion_of_a_round_never_started() {
    let provider = toy();
    let mut round: SignRound<Toy> = SignRound::Empty;
    assert!(matches!(
        round.complete_round(&provider, &state(2)),
        Ok(SignRoundCompletion::Empty)
    ));
}

#[test]
fn short_signature_list_is_refused() {
    let provider = Toy { calls: Cell::new(0), short_by_one: false, drop_last_signature: true };
    let mut aggregator = state(2);
    let mut round = SignRound::Empty;
    for p in 1..=3u16 {
        let (r, c) = start(&provider, p);
        if p == 2 {
            round = r;
        }
        aggregator.insert_first_round(p, c).ok().unwrap();
    }
    assert!(matches!(
        round.complete_round(&provider, &aggregator),
        Err(SignError::SignatureCountMismatch)
    ));
    assert!(matches!(round, SignRound::Empty));
}

#[test]
fn failure_on_one_message_fails_the_whole_start() {
    let provider = toy();
    let r = SignRound::new(
        &provider,
        &public_parameters(),
        11,
        1,
        &party_set(3),
        &vec![b"first".to_vec(), b"poison".to_vec()],
        66,
        &nonces(),
        &vec![7, 8],
        &0u8,
    );
    match r {
        Err(SignError::Protocol(e)) => assert_eq!(e, ToyError::Refused),
        _ => panic!("a failed partial decryption was not reported"),
    }
    // set-up, then decryption and proof of the first message, then the failing decryption
    assert_eq!(provider.calls.get(), 4);
}

type Initiated = Result<(Vec<(PartyId, u64)>, Vec<(PartyId, u64, u64)>), ToyError>;

#[test]
fn set_up_result_is_accepted_or_passed_on() {
    let ok: Initiated = Ok((vec![(1, 5), (1, 6)], vec![(1, 5, 9), (1, 6, 9)]));
    match SignRound::<Toy>::accept_initiation(2, ok) {
        Ok((d, v)) => {
            assert_eq!(d, vec![(1, 5), (1, 6)]);
            assert_eq!(v, vec![(1, 5, 9), (1, 6, 9)]);
        }
        Err(_) => panic!("a well-formed set-up was refused"),
    }
    let short: Initiated = Ok((vec![(1, 5)], vec![(1, 5, 9), (1, 6, 9)]));
    assert!(matches!(
        SignRound::<Toy>::accept_initiation(2, short),
        Err(SignError::PartyCountMismatch)
    ));
    let failed: Initiated = Err(ToyError::Missing(4));
    match SignRound::<Toy>::accept_initiation(2, failed) {
        Err(SignError::Protocol(e)) => assert_eq!(e, ToyError::Missing(4)),
        _ => panic!("the set-up error was not passed on"),
    }
}

fn contribution(k: u64) -> MessageContribution<Toy> {
    MessageContribution {
        share: k,
        decryption_round_party: k as PartyId,
        proof: 100 + k,
        verification_round_party: 200 + k as PartyId,
    }
}

#[test]
fn first_round_keeps_message_order() {
    match SignRound::<Toy>::first_round_from(vec![Ok(contribution(1)), Ok(contribution(2))]) {
        Ok((SignRound::FirstRound {
            signature_threshold_decryption_round_parties: d,
            signature_partial_decryption_proof_verification_round_parties: v,
        }, (shares, proofs))) => {
            assert_eq!(shares, vec![1, 2]);
            assert_eq!(proofs, vec![101, 102]);
            assert_eq!(d, vec![1, 2]);
            assert_eq!(v, vec![201, 202]);
        }
        _ => panic!("successful outcomes did not make a round"),
    }
}

#[test]
fn first_round_reports_the_first_failure() {
    let outcomes = vec![
        Ok(contribution(1)),
        Err(ToyError::Missing(2)),
        Err(ToyError::Missing(3)),
    ];
    match SignRound::<Toy>::first_round_from(outcomes) {
        Err(SignError::Protocol(e)) => assert_eq!(e, ToyError::Missing(2)),
        _ => panic!("a failed outcome was not reported"),
    }
}

#[test]
fn completion_from_combination() {
    let sigs = vec![vec![1u8, 2], vec![3u8]];
    match SignRound::<Toy>::completion_from(2, Ok(sigs.clone())) {
        Ok(SignRoundCompletion::Output(out)) => assert_eq!(out, sigs),
        _ => panic!("a full combination was not returned"),
    }
    assert!(matches!(
        SignRound::<Toy>::completion_from(3, Ok(sigs)),
        Err(SignError::SignatureCountMismatch)
    ));
    match SignRound::<Toy>::completion_from(2, Err(ToyError::InvalidProof(3))) {
        Err(SignError::Protocol(e)) => assert_eq!(e, ToyError::InvalidProof(3)),
        _ => panic!("the combination error was not passed on"),
    }
}
