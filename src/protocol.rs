use std::collections::{HashMap, HashSet};
use vstd::prelude::*;

use crate::session::PartyId;

verus! {

/// The cryptographic operations that one signing round relies on:
/// partial decryption of the encrypted signature, proofs of its correctness,
/// and the final threshold combination. Implemented over a concrete
/// threshold-decryption library by the embedding node.
pub trait SignProtocol {
    /// Public parameters of the homomorphic encryption scheme.
    type PublicParameters;
    /// This party's share of the decryption key.
    type KeyShare;
    /// Output of the distributed key generation.
    type DkgOutput;
    /// One precomputed presignature.
    type Presign;
    /// The encrypted partial signature and public nonce of one message, with its proof.
    type NoncePartialSignature;
    /// The hash function that turns a message into its digest.
    type HashKind;
    /// This party's partial decryption share of one message's signature.
    type Share;
    /// A proof that one partial decryption share was computed correctly.
    type Proof;
    /// The party that decrypts one message's signature.
    type DecryptionParty;
    /// The party that proves one message's partial decryption.
    type VerificationParty;
    /// What a decryption party keeps, once it has decrypted, for combination.
    type DecryptionRoundParty;
    /// What a verification party keeps, once it has proved, for combination.
    type VerificationRoundParty;
    /// A failure reported by the cryptographic library.
    type Error;

    /// Sets up, for each message, one decryption party and one verification
    /// party, both in message order.
    fn initiate(
        &self,
        key_share: Self::KeyShare,
        public_parameters: &Self::PublicParameters,
        party_id: PartyId,
        parties: &HashSet<PartyId>,
        dkg_output: Self::DkgOutput,
        presigns: &Vec<Self::Presign>,
        nonce_partial_signatures: &Vec<Self::NoncePartialSignature>,
    ) -> Result<(Vec<Self::DecryptionParty>, Vec<Self::VerificationParty>), Self::Error>;

    /// This party's partial decryption share of the signature of `message`,
    /// digested with `hash`, and the party's state kept for combination.
    fn partially_decrypt(
        &self,
        party: &Self::DecryptionParty,
        message: &Vec<u8>,
        hash: &Self::HashKind,
        nonce_partial_signature: &Self::NoncePartialSignature,
    ) -> Result<(Self::Share, Self::DecryptionRoundParty), Self::Error>;

    /// A proof that this party's partial decryption share is correct, and the
    /// party's state kept for combination.
    fn prove(&self, party: &Self::VerificationParty) -> Result<
        (Self::Proof, Self::VerificationRoundParty),
        Self::Error,
    >;

    /// Verifies every party's proofs and combines the shares into one
    /// signature per message, in message order.
    fn combine(
        &self,
        messages: &Vec<Vec<u8>>,
        public_parameters: &Self::PublicParameters,
        shares: &HashMap<PartyId, Vec<Self::Share>>,
        proofs: &HashMap<PartyId, Vec<Self::Proof>>,
        nonce_partial_signatures: &Vec<Self::NoncePartialSignature>,
        decryption_parties: Vec<Self::DecryptionRoundParty>,
        verification_parties: Vec<Self::VerificationRoundParty>,
    ) -> Result<Vec<Vec<u8>>, Self::Error>;
}

/// Why a round could not start or complete.
#[derive(Debug)]
pub enum SignError<E> {
    /// The message batch, the presignature batch and the batch of encrypted
    /// partial signatures differ in length.
    InputLengthMismatch,
    /// The cryptographic library set up a number of parties other than one
    /// per message.
    PartyCountMismatch,
    /// The cryptographic library combined a number of signatures other than
    /// one per message.
    SignatureCountMismatch,
    /// Completion was asked for before the session's messages were set.
    RoundInputsNotSet,
    /// The cryptographic library failed.
    Protocol(E),
}

} // verus!
