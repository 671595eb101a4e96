//! Who may join the private network: the progenitor, or an agent that shows
//! a membrane proof that the progenitor wrote and signed for this DNA and
//! for that agent.
//!
//! The check alternates host calls and decisions. The proof's bytes are
//! decoded here into the record they hold. The host calls (reading the
//! progenitor, verifying a signature, hashing an entry, reading the DNA
//! hash) and the decoding of the proof entry into its serialised type are
//! made by the caller; the decisions are made here, one step per answer.
//! The state between two steps says what comes next: `AwaitingSignature`
//! asks for the signature check of the record's action bytes,
//! `AwaitingProofEntry` for the decoding of the record's app entry,
//! `AwaitingEntryHash` for the hash of the proof entry, `AwaitingDnaHash`
//! for the hash of the running DNA.

use vstd::prelude::*;
use hdi::prelude::{encode, Record, SerializedBytes, SerializedBytesError, UnsafeBytes};
use crate::hash::{AgentPubKey, DnaHash, EntryHash};
use crate::outcome::{
    ExternError, Failure, ValidateCallbackResult, Verdict, guest_error, invalid, outcome_view,
};

verus! {

pub const NO_PROOF_PRESENT: &'static str = "Invalid agent: no membrane proof present";

pub const AUTHOR_NOT_PROGENITOR: &'static str = "The author of the record is not the progenitor";

pub const SIGNATURE_NOT_VALID: &'static str = "The signature of the record is not valid";

pub const MALFORMED_PROOF: &'static str = "Malformed membrane proof";

pub const NO_ENTRY_HASH: &'static str = "The given record doesn't contain an entry hash";

pub const ENTRY_HASH_NOT_VALID: &'static str = "The entry hash is not valid for the given entry";

pub const NOT_FOR_THIS_DNA: &'static str = "The membrane proof is not for this dna";

pub const NOT_FOR_THIS_AGENT: &'static str = "The membrane proof is not for this agent";

/// The entry of a membrane proof: the DNA it admits to, and the agent it
/// admits.
#[derive(Debug, Clone, PartialEq, Eq)]
pub struct PrivatePublicationMembraneProof {
    pub dna_hash: DnaHash,
    pub recipient: AgentPubKey,
}

pub struct ProofView {
    pub dna_hash: Seq<u8>,
    pub recipient: Seq<u8>,
}

impl View for PrivatePublicationMembraneProof {
    type V = ProofView;

    open spec fn view(&self) -> ProofView {
        ProofView { dna_hash: self.dna_hash@, recipient: self.recipient@ }
    }
}

impl PrivatePublicationMembraneProof {
    pub fn duplicate(&self) -> (r: PrivatePublicationMembraneProof)
        ensures
            r@ == self@,
    {
        PrivatePublicationMembraneProof {
            dna_hash: self.dna_hash.duplicate(),
            recipient: self.recipient.duplicate(),
        }
    }
}

/// What the check reads from a membrane proof's record: who wrote it, its
/// signature, its action as the bytes that the signature covers (or the
/// error of encoding it), the entry hash that the action names, and its app
/// entry as bytes (`None` where the record holds no app entry).
pub struct DecodedRecord {
    pub author: AgentPubKey,
    pub signature: Vec<u8>,
    pub signed_action: Result<Vec<u8>, SerializedBytesError>,
    pub entry_hash: Option<EntryHash>,
    pub app_entry: Option<Vec<u8>>,
}

pub open spec fn entry_hash_view(h: Option<EntryHash>) -> Option<Seq<u8>> {
    match h {
        Some(h) => Some(h@),
        None => None,
    }
}

pub open spec fn bytes_option_view(b: Option<Vec<u8>>) -> Option<Seq<u8>> {
    match b {
        Some(b) => Some(b@),
        None => None,
    }
}

/// The parts of a decoded record that holochain reads out of it, in the
/// order author, signature, entry hash, app entry bytes.
pub open spec fn parts_of(d: DecodedRecord) -> (Seq<u8>, Seq<u8>, Option<Seq<u8>>, Option<Seq<u8>>) {
    (d.author@, d.signature@, entry_hash_view(d.entry_hash), bytes_option_view(d.app_entry))
}

pub open spec fn encoded_view(r: Result<Vec<u8>, SerializedBytesError>) -> Result<Seq<u8>, SerializedBytesError> {
    match r {
        Ok(b) => Ok(b@),
        Err(e) => Err(e),
    }
}

/// What `Record::try_from` (holochain_integrity_types) makes of these
/// bytes, as the parts that `parts_of` lists, or the error it gives.
pub uninterp spec fn decoded_membrane_record(bytes: Seq<u8>) -> Result<
    (Seq<u8>, Seq<u8>, Option<Seq<u8>>, Option<Seq<u8>>),
    SerializedBytesError,
>;

/// What `holochain_serialized_bytes::encode` makes of the action of the
/// record that these bytes hold: the bytes that hdi's `verify_signature`
/// hands the host for that action, or the error it gives.
pub uninterp spec fn encoded_record_action(bytes: Seq<u8>) -> Result<Seq<u8>, SerializedBytesError>;

/// Decodes the bytes of a membrane proof: `Record::try_from`
/// (holochain_integrity_types), then the record's author, its signature,
/// the entry hash of its action, the bytes of its app entry (through
/// `RecordEntry::as_option` and `Entry::as_app_entry`), and its action
/// encoded by `holochain_serialized_bytes::encode`. The result is what the
/// two names give for the bytes, error included; a signature is 64 bytes
/// (`Signature([u8; 64])`).
#[verifier::external_body]
pub(crate) fn decode_membrane_record(bytes: Vec<u8>) -> (r: Result<DecodedRecord, SerializedBytesError>)
    ensures
        match r {
            Ok(d) => decoded_membrane_record(bytes@) == Ok::<_, SerializedBytesError>(parts_of(d))
                && encoded_view(d.signed_action) == encoded_record_action(bytes@)
                && d.signature@.len() == 64,
            Err(e) => decoded_membrane_record(bytes@) == Err::<(Seq<u8>, Seq<u8>, Option<Seq<u8>>, Option<Seq<u8>>), _>(e),
        },
{
    let record = Record::try_from(SerializedBytes::from(UnsafeBytes::from(bytes)))?;
    let action = record.action();
    let entry_hash = match action.entry_hash() { Some(h) => Some(EntryHash { raw: h.get_raw_39().to_vec() }), None => None };
    let app_entry = match record.entry().as_option() { Some(e) => match e.as_app_entry() { Some(a) => Some(a.0.bytes().clone()), None => None }, None => None };
    Ok(DecodedRecord {
        author: AgentPubKey { raw: action.author().get_raw_39().to_vec() },
        signature: record.signature().0.to_vec(),
        signed_action: encode(action),
        entry_hash,
        app_entry,
    })
}

pub open spec fn bytes_result_view<E>(r: Option<Result<Vec<u8>, E>>) -> Option<Result<Seq<u8>, E>> {
    match r {
        None => None,
        Some(Ok(b)) => Some(Ok(b@)),
        Some(Err(e)) => Some(Err(e)),
    }
}

pub open spec fn key_result_view<E>(r: Result<AgentPubKey, E>) -> Result<Seq<u8>, E> {
    match r {
        Ok(k) => Ok(k@),
        Err(e) => Err(e),
    }
}

pub open spec fn proof_result_view(r: Result<PrivatePublicationMembraneProof, SerializedBytesError>) -> Result<ProofView, SerializedBytesError> {
    match r {
        Ok(p) => Ok(p@),
        Err(e) => Err(e),
    }
}

pub open spec fn entry_hash_result_view<E>(r: Result<EntryHash, E>) -> Result<Seq<u8>, E> {
    match r {
        Ok(h) => Ok(h@),
        Err(e) => Err(e),
    }
}

pub open spec fn dna_hash_result_view<E>(r: Result<DnaHash, E>) -> Result<Seq<u8>, E> {
    match r {
        Ok(h) => Ok(h@),
        Err(e) => Err(e),
    }
}

/// The check waits for the host to verify `signature` over `signed_action`
/// as the progenitor's.
pub struct AwaitingSignature {
    pub for_agent: AgentPubKey,
    pub progenitor: AgentPubKey,
    pub signature: Vec<u8>,
    pub signed_action: Vec<u8>,
    pub entry_hash_in_action: Option<EntryHash>,
    pub app_entry: Option<Vec<u8>>,
}

/// The check waits for `entry_bytes` to be decoded as a membrane proof.
pub struct AwaitingProofEntry {
    pub for_agent: AgentPubKey,
    pub entry_hash_in_action: Option<EntryHash>,
    pub entry_bytes: Vec<u8>,
}

/// The check waits for the host to hash the proof entry.
pub struct AwaitingEntryHash {
    pub for_agent: AgentPubKey,
    pub entry_hash_in_action: Option<EntryHash>,
    pub proof: PrivatePublicationMembraneProof,
}

/// The check waits for the host to tell the hash of the running DNA.
pub struct AwaitingDnaHash {
    pub for_agent: AgentPubKey,
    pub proof: PrivatePublicationMembraneProof,
}

pub struct AwaitingSignatureView {
    pub for_agent: Seq<u8>,
    pub progenitor: Seq<u8>,
    pub signature: Seq<u8>,
    pub signed_action: Seq<u8>,
    pub entry_hash_in_action: Option<Seq<u8>>,
    pub app_entry: Option<Seq<u8>>,
}

pub struct AwaitingProofEntryView {
    pub for_agent: Seq<u8>,
    pub entry_hash_in_action: Option<Seq<u8>>,
    pub entry_bytes: Seq<u8>,
}

pub struct AwaitingEntryHashView {
    pub for_agent: Seq<u8>,
    pub entry_hash_in_action: Option<Seq<u8>>,
    pub proof: ProofView,
}

pub struct AwaitingDnaHashView {
    pub for_agent: Seq<u8>,
    pub proof: ProofView,
}

impl View for AwaitingSignature {
    type V = AwaitingSignatureView;

    open spec fn view(&self) -> AwaitingSignatureView {
        AwaitingSignatureView {
            for_agent: self.for_agent@,
            progenitor: self.progenitor@,
            signature: self.signature@,
            signed_action: self.signed_action@,
            entry_hash_in_action: entry_hash_view(self.entry_hash_in_action),
            app_entry: bytes_option_view(self.app_entry),
        }
    }
}

impl View for AwaitingProofEntry {
    type V = AwaitingProofEntryView;

    open spec fn view(&self) -> AwaitingProofEntryView {
        AwaitingProofEntryView {
            for_agent: self.for_agent@,
            entry_hash_in_action: entry_hash_view(self.entry_hash_in_action),
            entry_bytes: self.entry_bytes@,
        }
    }
}

impl View for AwaitingEntryHash {
    type V = AwaitingEntryHashView;

    open spec fn view(&self) -> AwaitingEntryHashView {
        AwaitingEntryHashView {
            for_agent: self.for_agent@,
            entry_hash_in_action: entry_hash_view(self.entry_hash_in_action),
            proof: self.proof@,
        }
    }
}

impl View for AwaitingDnaHash {
    type V = AwaitingDnaHashView;

    open spec fn view(&self) -> AwaitingDnaHashView {
        AwaitingDnaHashView { for_agent: self.for_agent@, proof: self.proof@ }
    }
}

/// One step of the check: it has decided, or it goes on in the given state.
pub enum MembraneStep<S, E> {
    Finish(Result<ValidateCallbackResult, ExternError<E>>),
    Continue(S),
}

pub enum StepView<S, E> {
    Finish(Result<Verdict, Failure<E>>),
    Continue(S),
}

impl<S: View, E> View for MembraneStep<S, E> {
    type V = StepView<S::V, E>;

    open spec fn view(&self) -> StepView<S::V, E> {
        match self {
            MembraneStep::Finish(r) => StepView::Finish(outcome_view(*r)),
            MembraneStep::Continue(s) => StepView::Continue(s@),
        }
    }
}

/// The first step: given the agent that asks to join, the progenitor (or
/// the error that reading it raised) and the bytes of the membrane proof
/// (absent, or the error that taking them raised).
pub open spec fn start_spec<E>(
    for_agent: Seq<u8>,
    progenitor: Result<Seq<u8>, E>,
    membrane_proof: Option<Result<Seq<u8>, E>>,
) -> StepView<AwaitingSignatureView, E> {
    match progenitor {
        Err(e) => StepView::Finish(Err(Failure::Raised(e))),
        Ok(p) => if for_agent == p {
            StepView::Finish(Ok(Verdict::Valid))
        } else {
            match membrane_proof {
                None => StepView::Finish(Ok(Verdict::Invalid(NO_PROOF_PRESENT@))),
                Some(Err(e)) => StepView::Finish(Err(Failure::Raised(e))),
                Some(Ok(bytes)) => match decoded_membrane_record(bytes) {
                    Err(e) => StepView::Finish(Err(Failure::Undecodable(e))),
                    Ok((author, signature, entry_hash, app_entry)) => if author != p {
                        StepView::Finish(Ok(Verdict::Invalid(AUTHOR_NOT_PROGENITOR@)))
                    } else {
                        match encoded_record_action(bytes) {
                            Err(e) => StepView::Finish(Err(Failure::Undecodable(e))),
                            Ok(action) => StepView::Continue(
                                AwaitingSignatureView {
                                    for_agent,
                                    progenitor: p,
                                    signature,
                                    signed_action: action,
                                    entry_hash_in_action: entry_hash,
                                    app_entry,
                                },
                            ),
                        }
                    },
                },
            }
        },
    }
}

/// The step after the host verified (or failed to verify) the signature.
pub open spec fn after_signature_spec<E>(
    state: AwaitingSignatureView,
    signature_valid: Result<bool, E>,
) -> StepView<AwaitingProofEntryView, E> {
    match signature_valid {
        Err(e) => StepView::Finish(Err(Failure::Raised(e))),
        Ok(false) => StepView::Finish(Ok(Verdict::Invalid(SIGNATURE_NOT_VALID@))),
        Ok(true) => match state.app_entry {
            None => StepView::Finish(Ok(Verdict::Invalid(MALFORMED_PROOF@))),
            Some(entry_bytes) => StepView::Continue(
                AwaitingProofEntryView {
                    for_agent: state.for_agent,
                    entry_hash_in_action: state.entry_hash_in_action,
                    entry_bytes,
                },
            ),
        },
    }
}

/// The step after the app entry was decoded as a membrane proof (or failed
/// to decode).
pub open spec fn after_proof_entry_spec<E>(
    state: AwaitingProofEntryView,
    decoded: Result<ProofView, SerializedBytesError>,
) -> StepView<AwaitingEntryHashView, E> {
    match decoded {
        Err(e) => StepView::Finish(Err(Failure::Undecodable(e))),
        Ok(proof) => StepView::Continue(
            AwaitingEntryHashView {
                for_agent: state.for_agent,
                entry_hash_in_action: state.entry_hash_in_action,
                proof,
            },
        ),
    }
}

/// The step after the host hashed (or failed to hash) the proof entry.
pub open spec fn after_entry_hash_spec<E>(
    state: AwaitingEntryHashView,
    actual_entry_hash: Result<Seq<u8>, E>,
) -> StepView<AwaitingDnaHashView, E> {
    match actual_entry_hash {
        Err(e) => StepView::Finish(Err(Failure::Raised(e))),
        Ok(actual) => match state.entry_hash_in_action {
            None => StepView::Finish(Err(Failure::Guest(NO_ENTRY_HASH@))),
            Some(in_action) => if in_action != actual {
                StepView::Finish(Ok(Verdict::Invalid(ENTRY_HASH_NOT_VALID@)))
            } else {
                StepView::Continue(
                    AwaitingDnaHashView { for_agent: state.for_agent, proof: state.proof },
                )
            },
        },
    }
}

/// The last step, after the host told (or failed to tell) the DNA hash.
pub open spec fn after_dna_hash_spec<E>(
    state: AwaitingDnaHashView,
    dna_hash: Result<Seq<u8>, E>,
) -> Result<Verdict, Failure<E>> {
    match dna_hash {
        Err(e) => Err(Failure::Raised(e)),
        Ok(d) => if state.proof.dna_hash != d {
            Ok(Verdict::Invalid(NOT_FOR_THIS_DNA@))
        } else if state.proof.recipient != state.for_agent {
            Ok(Verdict::Invalid(NOT_FOR_THIS_AGENT@))
        } else {
            Ok(Verdict::Valid)
        },
    }
}

/// Starts the check of whether `for_agent` may join, decoding the proof's
/// bytes where it comes to that.
pub fn start_membrane_check<E>(
    for_agent: AgentPubKey,
    progenitor: Result<AgentPubKey, E>,
    membrane_proof: Option<Result<Vec<u8>, E>>,
) -> (r: MembraneStep<AwaitingSignature, E>)
    ensures
        r@ == start_spec(for_agent@, key_result_view(progenitor), bytes_result_view(membrane_proof)),
        r matches MembraneStep::Continue(s) ==> (s.for_agent@ == for_agent@ && (progenitor matches Ok(
            p,
        ) && s.progenitor@ == p@) && s.progenitor@ != for_agent@),
        r matches MembraneStep::Continue(s) ==> s.signature@.len() == 64,
{
    let progenitor = match progenitor {
        Err(e) => return MembraneStep::Finish(Err(ExternError::Raised(e))),
        Ok(p) => p,
    };
    if for_agent.same_as(&progenitor) {
        return MembraneStep::Finish(Ok(ValidateCallbackResult::Valid));
    }
    let bytes = match membrane_proof {
        None => return MembraneStep::Finish(Ok(invalid(NO_PROOF_PRESENT))),
        Some(Err(e)) => return MembraneStep::Finish(Err(ExternError::Raised(e))),
        Some(Ok(bytes)) => bytes,
    };
    let record = match decode_membrane_record(bytes) {
        Err(e) => return MembraneStep::Finish(Err(ExternError::Undecodable(e))),
        Ok(record) => record,
    };
    let DecodedRecord { author, signature, signed_action, entry_hash, app_entry } = record;
    if !author.same_as(&progenitor) {
        return MembraneStep::Finish(Ok(invalid(AUTHOR_NOT_PROGENITOR)));
    }
    match signed_action {
        Err(e) => MembraneStep::Finish(Err(ExternError::Undecodable(e))),
        Ok(signed_action) => MembraneStep::Continue(
            AwaitingSignature {
                for_agent,
                progenitor,
                signature,
                signed_action,
                entry_hash_in_action: entry_hash,
                app_entry,
            },
        ),
    }
}

/// Goes on once the host has verified the signature.
pub fn after_signature<E>(state: AwaitingSignature, signature_valid: Result<bool, E>) -> (r:
    MembraneStep<AwaitingProofEntry, E>)
    ensures
        r@ == after_signature_spec(state@, signature_valid),
        r matches MembraneStep::Continue(s) ==> (signature_valid == Ok::<bool, E>(true)
            && s.for_agent@ == state.for_agent@ && entry_hash_view(s.entry_hash_in_action)
            == entry_hash_view(state.entry_hash_in_action) && bytes_option_view(state.app_entry)
            == Some(s.entry_bytes@)),
        signature_valid == Ok::<bool, E>(true) && state.app_entry is Some ==> r is Continue,
{
    match signature_valid {
        Err(e) => MembraneStep::Finish(Err(ExternError::Raised(e))),
        Ok(false) => MembraneStep::Finish(Ok(invalid(SIGNATURE_NOT_VALID))),
        Ok(true) => {
            let AwaitingSignature { for_agent, entry_hash_in_action, app_entry, .. } = state;
            match app_entry {
                None => MembraneStep::Finish(Ok(invalid(MALFORMED_PROOF))),
                Some(entry_bytes) => MembraneStep::Continue(
                    AwaitingProofEntry { for_agent, entry_hash_in_action, entry_bytes },
                ),
            }
        },
    }
}

/// Goes on once the app entry has been decoded as a membrane proof (or
/// failed to decode).
pub fn after_proof_entry<E>(
    state: AwaitingProofEntry,
    decoded: Result<PrivatePublicationMembraneProof, SerializedBytesError>,
) -> (r: MembraneStep<AwaitingEntryHash, E>)
    ensures
        r@ == after_proof_entry_spec::<E>(state@, proof_result_view(decoded)),
        decoded matches Ok(p) ==> (r matches MembraneStep::Continue(s) && (s.proof@ == p@
            && s.for_agent@ == state.for_agent@ && entry_hash_view(s.entry_hash_in_action)
            == entry_hash_view(state.entry_hash_in_action))),
{
    match decoded {
        Err(e) => MembraneStep::Finish(Err(ExternError::Undecodable(e))),
        Ok(proof) => MembraneStep::Continue(
            AwaitingEntryHash {
                for_agent: state.for_agent,
                entry_hash_in_action: state.entry_hash_in_action,
                proof,
            },
        ),
    }
}

/// Goes on once the host has hashed the proof entry.
pub fn after_entry_hash<E>(state: AwaitingEntryHash, actual_entry_hash: Result<EntryHash, E>) -> (r:
    MembraneStep<AwaitingDnaHash, E>)
    ensures
        r@ == after_entry_hash_spec(state@, entry_hash_result_view(actual_entry_hash)),
        r matches MembraneStep::Continue(s) ==> (s.proof@ == state.proof@ && s.for_agent@
            == state.for_agent@ && (actual_entry_hash matches Ok(h) && entry_hash_view(
            state.entry_hash_in_action,
        ) == Some(h@))),
        (actual_entry_hash matches Ok(h) && entry_hash_view(state.entry_hash_in_action) == Some(h@))
            ==> r is Continue,
{
    let actual = match actual_entry_hash {
        Err(e) => return MembraneStep::Finish(Err(ExternError::Raised(e))),
        Ok(h) => h,
    };
    let AwaitingEntryHash { for_agent, entry_hash_in_action, proof } = state;
    match entry_hash_in_action {
        None => MembraneStep::Finish(Err(guest_error(NO_ENTRY_HASH))),
        Some(in_action) => {
            if !in_action.same_as(&actual) {
                MembraneStep::Finish(Ok(invalid(ENTRY_HASH_NOT_VALID)))
            } else {
                MembraneStep::Continue(AwaitingDnaHash { for_agent, proof })
            }
        },
    }
}

/// Decides once the host has told the hash of the running DNA.
pub fn after_dna_hash<E>(state: AwaitingDnaHash, dna_hash: Result<DnaHash, E>) -> (r: Result<
    ValidateCallbackResult,
    ExternError<E>,
>)
    ensures
        outcome_view(r) == after_dna_hash_spec(state@, dna_hash_result_view(dna_hash)),
        (r matches Ok(ValidateCallbackResult::Valid)) <==> (dna_hash matches Ok(d) && d@
            == state.proof.dna_hash@ && state.proof.recipient@ == state.for_agent@),
{
    let dna = match dna_hash {
        Err(e) => return Err(ExternError::Raised(e)),
        Ok(d) => d,
    };
    if !state.proof.dna_hash.same_as(&dna) {
        Ok(invalid(NOT_FOR_THIS_DNA))
    } else if !state.proof.recipient.same_as(&state.for_agent) {
        Ok(invalid(NOT_FOR_THIS_AGENT))
    } else {
        Ok(ValidateCallbackResult::Valid)
    }
}

/// The whole rule in one piece, read top to bottom: the verdict on
/// `for_agent`, given the progenitor, the bytes of the membrane proof, what
/// the host answers when asked to verify the signature over the record's
/// action, what the record's app entry decodes to as a membrane proof, and
/// what the host answers when asked to hash that proof and to tell the DNA
/// hash (answers that the rule never asks for play no part).
pub open spec fn membrane_verdict<E>(
    for_agent: Seq<u8>,
    progenitor: Result<Seq<u8>, E>,
    membrane_proof: Option<Result<Seq<u8>, E>>,
    signature_valid: Result<bool, E>,
    proof_entry: Result<ProofView, SerializedBytesError>,
    actual_entry_hash: Result<Seq<u8>, E>,
    dna_hash: Result<Seq<u8>, E>,
) -> Result<Verdict, Failure<E>> {
    match progenitor {
        Err(e) => Err(Failure::Raised(e)),
        Ok(p) => if for_agent == p {
            Ok(Verdict::Valid)
        } else {
            match membrane_proof {
                None => Ok(Verdict::Invalid(NO_PROOF_PRESENT@)),
                Some(Err(e)) => Err(Failure::Raised(e)),
                Some(Ok(bytes)) => match decoded_membrane_record(bytes) {
                    Err(e) => Err(Failure::Undecodable(e)),
                    Ok((author, _signature, entry_hash, app_entry)) => if author != p {
                        Ok(Verdict::Invalid(AUTHOR_NOT_PROGENITOR@))
                    } else if let Err(e) = encoded_record_action(bytes) {
                        Err(Failure::Undecodable(e))
                    } else {
                        match signature_valid {
                            Err(e) => Err(Failure::Raised(e)),
                            Ok(false) => Ok(Verdict::Invalid(SIGNATURE_NOT_VALID@)),
                            Ok(true) => if app_entry is None {
                                Ok(Verdict::Invalid(MALFORMED_PROOF@))
                            } else {
                                match proof_entry {
                                    Err(e) => Err(Failure::Undecodable(e)),
                                    Ok(proof) => match actual_entry_hash {
                                        Err(e) => Err(Failure::Raised(e)),
                                        Ok(actual) => match entry_hash {
                                            None => Err(Failure::Guest(NO_ENTRY_HASH@)),
                                            Some(in_action) => if in_action != actual {
                                                Ok(Verdict::Invalid(ENTRY_HASH_NOT_VALID@))
                                            } else {
                                                match dna_hash {
                                                    Err(e) => Err(Failure::Raised(e)),
                                                    Ok(d) => if proof.dna_hash != d {
                                                        Ok(Verdict::Invalid(NOT_FOR_THIS_DNA@))
                                                    } else if proof.recipient != for_agent {
                                                        Ok(Verdict::Invalid(NOT_FOR_THIS_AGENT@))
                                                    } else {
                                                        Ok(Verdict::Valid)
                                                    },
                                                }
                                            },
                                        },
                                    },
                                }
                            },
                        }
                    },
                },
            }
        },
    }
}

/// Where the steps end when the answers are the ones shown.
pub open spec fn run_membrane_check<E>(
    for_agent: Seq<u8>,
    progenitor: Result<Seq<u8>, E>,
    membrane_proof: Option<Result<Seq<u8>, E>>,
    signature_valid: Result<bool, E>,
    proof_entry: Result<ProofView, SerializedBytesError>,
    actual_entry_hash: Result<Seq<u8>, E>,
    dna_hash: Result<Seq<u8>, E>,
) -> Result<Verdict, Failure<E>> {
    match start_spec(for_agent, progenitor, membrane_proof) {
        StepView::Finish(r) => r,
        StepView::Continue(s1) => match after_signature_spec(s1, signature_valid) {
            StepView::Finish(r) => r,
            StepView::Continue(s2) => match after_proof_entry_spec::<E>(s2, proof_entry) {
                StepView::Finish(r) => r,
                StepView::Continue(s3) => match after_entry_hash_spec(s3, actual_entry_hash) {
                    StepView::Finish(r) => r,
                    StepView::Continue(s4) => after_dna_hash_spec(s4, dna_hash),
                },
            },
        },
    }
}

/// Run step by step, with the answers in between, the check decides exactly
/// as the whole rule does.
pub proof fn lemma_steps_decide_as_the_rule<E>(
    for_agent: Seq<u8>,
    progenitor: Result<Seq<u8>, E>,
    membrane_proof: Option<Result<Seq<u8>, E>>,
    signature_valid: Result<bool, E>,
    proof_entry: Result<ProofView, SerializedBytesError>,
    actual_entry_hash: Result<Seq<u8>, E>,
    dna_hash: Result<Seq<u8>, E>,
)
    ensures
        run_membrane_check(
            for_agent,
            progenitor,
            membrane_proof,
            signature_valid,
            proof_entry,
            actual_entry_hash,
            dna_hash,
        ) == membrane_verdict(
            for_agent,
            progenitor,
            membrane_proof,
            signature_valid,
            proof_entry,
            actual_entry_hash,
            dna_hash,
        ),
{
}

/// The host is asked to verify, as the progenitor's, the signature of the
/// record decoded from the proof's bytes over that record's action, and
/// only once that record is known to be the progenitor's; the entry then
/// decoded is that record's app entry.
pub proof fn lemma_host_is_asked_about_the_record<E>(
    for_agent: Seq<u8>,
    progenitor: Result<Seq<u8>, E>,
    membrane_proof: Option<Result<Seq<u8>, E>>,
    signature_valid: Result<bool, E>,
)
    ensures
        start_spec(for_agent, progenitor, membrane_proof) matches StepView::Continue(s1) ==> {
            &&& progenitor == Ok::<Seq<u8>, E>(s1.progenitor)
            &&& s1.for_agent == for_agent
            &&& for_agent != s1.progenitor
            &&& membrane_proof matches Some(Ok(bytes))
            &&& decoded_membrane_record(bytes) == Ok::<_, SerializedBytesError>(
                (s1.progenitor, s1.signature, s1.entry_hash_in_action, s1.app_entry),
            )
            &&& encoded_record_action(bytes) == Ok::<_, SerializedBytesError>(s1.signed_action)
            &&& after_signature_spec(s1, signature_valid) matches StepView::Continue(s2) ==> {
                &&& signature_valid == Ok::<bool, E>(true)
                &&& s1.app_entry == Some(s2.entry_bytes)
                &&& s2.entry_hash_in_action == s1.entry_hash_in_action
            }
        },
{
}

/// Only the progenitor, or an agent whose membrane proof bytes decode to a
/// record that the progenitor wrote, whose signature over its action the
/// host accepts, whose app entry decodes to a proof whose hash is the one
/// its action names, and which names this DNA and this agent, is admitted.
pub proof fn lemma_only_progenitor_or_proven_agent_joins<E>(
    for_agent: Seq<u8>,
    progenitor: Result<Seq<u8>, E>,
    membrane_proof: Option<Result<Seq<u8>, E>>,
    signature_valid: Result<bool, E>,
    proof_entry: Result<ProofView, SerializedBytesError>,
    actual_entry_hash: Result<Seq<u8>, E>,
    dna_hash: Result<Seq<u8>, E>,
)
    requires
        membrane_verdict(
            for_agent,
            progenitor,
            membrane_proof,
            signature_valid,
            proof_entry,
            actual_entry_hash,
            dna_hash,
        ) == Ok::<Verdict, Failure<E>>(Verdict::Valid),
    ensures
        progenitor is Ok,
        for_agent == progenitor->Ok_0 || {
            &&& membrane_proof matches Some(Ok(bytes))
            &&& decoded_membrane_record(bytes) matches Ok(
                (author, _signature, Some(in_action), Some(_entry)),
            )
            &&& encoded_record_action(bytes) is Ok
            &&& author == progenitor->Ok_0
            &&& signature_valid == Ok::<bool, E>(true)
            &&& proof_entry matches Ok(proof)
            &&& actual_entry_hash == Ok::<Seq<u8>, E>(in_action)
            &&& dna_hash == Ok::<Seq<u8>, E>(proof.dna_hash)
            &&& proof.recipient == for_agent
        },
{
}

/// The progenitor is always admitted, whatever proof it shows and whatever
/// the answers would be.
pub proof fn lemma_progenitor_always_joins<E>(
    progenitor: Seq<u8>,
    membrane_proof: Option<Result<Seq<u8>, E>>,
    signature_valid: Result<bool, E>,
    proof_entry: Result<ProofView, SerializedBytesError>,
    actual_entry_hash: Result<Seq<u8>, E>,
    dna_hash: Result<Seq<u8>, E>,
)
    ensures
        membrane_verdict(
            progenitor,
            Ok(progenitor),
            membrane_proof,
            signature_valid,
            proof_entry,
            actual_entry_hash,
            dna_hash,
        ) == Ok::<Verdict, Failure<E>>(Verdict::Valid),
{
}

/// The signature step goes on only when the host accepted the signature,
/// and then asks for exactly the record's app entry to be decoded, for the
/// same agent and with the same entry hash of the action; with the
/// signature accepted and an app entry present, it does go on.
pub proof fn lemma_signature_step_hands_on_the_app_entry<E>(
    state: AwaitingSignatureView,
    signature_valid: Result<bool, E>,
)
    ensures
        after_signature_spec(state, signature_valid) matches StepView::Continue(next) ==> {
            &&& signature_valid == Ok::<bool, E>(true)
            &&& state.app_entry == Some(next.entry_bytes)
            &&& next.for_agent == state.for_agent
            &&& next.entry_hash_in_action == state.entry_hash_in_action
        },
        signature_valid == Ok::<bool, E>(true) && state.app_entry is Some ==> after_signature_spec(
            state,
            signature_valid,
        ) is Continue,
{
}

/// Once the app entry decodes as a membrane proof, the state that asks the
/// host for the entry hash holds exactly that proof, for the same agent and
/// with the same entry hash of the action; where it does not decode, the
/// check fails with that very error.
pub proof fn lemma_decoded_proof_is_what_gets_hashed<E>(
    state: AwaitingProofEntryView,
    decoded: Result<ProofView, SerializedBytesError>,
)
    ensures
        decoded matches Ok(p) ==> (after_proof_entry_spec::<E>(state, decoded) matches StepView::Continue(
            next,
        ) && next.proof == p && next.for_agent == state.for_agent && next.entry_hash_in_action
            == state.entry_hash_in_action),
        decoded matches Err(e) ==> after_proof_entry_spec::<E>(state, decoded) == StepView::<
            AwaitingEntryHashView,
            E,
        >::Finish(Err(Failure::Undecodable(e))),
{
}

/// The entry-hash step goes on exactly when the host's hash of the proof is
/// the entry hash that the action names, and then keeps the proof and the
/// agent unchanged for the last step.
pub proof fn lemma_entry_hash_step_keeps_the_proof<E>(
    state: AwaitingEntryHashView,
    actual_entry_hash: Result<Seq<u8>, E>,
)
    ensures
        (after_entry_hash_spec(state, actual_entry_hash) is Continue) <==> (
        actual_entry_hash matches Ok(h) && state.entry_hash_in_action == Some(h)),
        after_entry_hash_spec(state, actual_entry_hash) matches StepView::Continue(next) ==> {
            &&& next.proof == state.proof
            &&& next.for_agent == state.for_agent
        },
{
}

/// The last step admits exactly when the host's DNA hash is the proof's and
/// the proof names the agent that asks to join.
pub proof fn lemma_last_step_admits_exactly_the_proofs_agent_on_its_dna<E>(
    state: AwaitingDnaHashView,
    dna_hash: Result<Seq<u8>, E>,
)
    ensures
        (after_dna_hash_spec(state, dna_hash) == Ok::<Verdict, Failure<E>>(Verdict::Valid)) <==> (
        dna_hash == Ok::<Seq<u8>, E>(state.proof.dna_hash) && state.proof.recipient
            == state.for_agent),
{
}

/// Run step by step, a proper proof admits its recipient: where the proof's
/// bytes decode to a record that the progenitor wrote, whose action encodes,
/// whose signature the host accepts, whose app entry decodes to a proof for
/// this DNA and this agent, and whose action names the hash that the host
/// computes for that proof, the agent is admitted.
pub proof fn lemma_proper_proof_admits<E>(
    for_agent: Seq<u8>,
    progenitor: Seq<u8>,
    bytes: Seq<u8>,
    proof_entry: ProofView,
    entry_hash: Seq<u8>,
    dna_hash: Seq<u8>,
)
    requires
        decoded_membrane_record(bytes) matches Ok((author, _signature, Some(in_action), Some(_entry)))
            && author == progenitor && in_action == entry_hash,
        encoded_record_action(bytes) is Ok,
        proof_entry.dna_hash == dna_hash,
        proof_entry.recipient == for_agent,
    ensures
        run_membrane_check(
            for_agent,
            Ok::<Seq<u8>, E>(progenitor),
            Some(Ok::<Seq<u8>, E>(bytes)),
            Ok::<bool, E>(true),
            Ok::<ProofView, SerializedBytesError>(proof_entry),
            Ok::<Seq<u8>, E>(entry_hash),
            Ok::<Seq<u8>, E>(dna_hash),
        ) == Ok::<Verdict, Failure<E>>(Verdict::Valid),
{
}

} // verus!
