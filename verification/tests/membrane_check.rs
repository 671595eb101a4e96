use hdi::prelude::{
    encode, ActionHash as HdiActionHash, AgentPubKey as HdiAgentPubKey, AppEntryBytes, Create,
    Entry, EntryHash as HdiEntryHash, EntryRateWeight, EntryType, HoloHashed, InitZomesComplete,
    Record, RecordEntry, SerializedBytes, Signature, SignedHashed, Timestamp, UnsafeBytes,
};
use private_publication::hash::{AgentPubKey, DnaHash, EntryHash};
use private_publication::membrane::{
    after_dna_hash, after_entry_hash, after_proof_entry, after_signature, start_membrane_check,
    AwaitingDnaHash, AwaitingEntryHash, AwaitingProofEntry, AwaitingSignature, MembraneStep,
    PrivatePublicationMembraneProof,
};
use private_publication::outcome::{ExternError, ValidateCallbackResult};

type Outcome = Result<ValidateCallbackResult, ExternError<String>>;

fn hash(prefix: [u8; 3], fill: u8) -> Vec<u8> {
    let mut raw = prefix.to_vec();
    raw.extend(std::iter::repeat(fill).take(36));
    raw
}

fn agent(fill: u8) -> AgentPubKey {
    AgentPubKey { raw: hash([0x84, 0x20, 0x24], fill) }
}

fn dna(fill: u8) -> DnaHash {
    DnaHash { raw: hash([0x84, 0x2d, 0x24], fill) }
}

fn entry(fill: u8) -> EntryHash {
    EntryHash { raw: hash([0x84, 0x21, 0x24], fill) }
}

const PROGENITOR: u8 = 1;
const JOINER: u8 = 2;
const THIS_DNA: u8 = 3;
const PROOF_ENTRY: u8 = 4;

fn sample_proof() -> PrivatePublicationMembraneProof {
    PrivatePublicationMembraneProof { dna_hash: dna(THIS_DNA), recipient: agent(JOINER) }
}

fn create_action(author: u8, entry_fill: u8) -> hdi::prelude::Action {
    hdi::prelude::Action::Create(Create {
        author: HdiAgentPubKey::from_raw_36(vec![author; 36]),
        timestamp: Timestamp::from_micros(0),
        action_seq: 4,
        prev_action: HdiActionHash::from_raw_36(vec![5; 36]),
        entry_type: EntryType::AgentPubKey,
        entry_hash: HdiEntryHash::from_raw_36(vec![entry_fill; 36]),
        weight: EntryRateWeight::default(),
    })
}

fn action_without_entry(author: u8) -> hdi::prelude::Action {
    hdi::prelude::Action::InitZomesComplete(InitZomesComplete {
        author: HdiAgentPubKey::from_raw_36(vec![author; 36]),
        timestamp: Timestamp::from_micros(0),
        action_seq: 4,
        prev_action: HdiActionHash::from_raw_36(vec![5; 36]),
    })
}

/// The bytes of a record holding `action`, signed with 64 bytes of 9, and
/// an app entry of the given bytes, if any.
fn record_bytes(action: hdi::prelude::Action, app_entry: Option<Vec<u8>>) -> Vec<u8> {
    let hashed = HoloHashed::with_pre_hashed(action, HdiActionHash::from_raw_36(vec![6; 36]));
    let signed = SignedHashed::with_presigned(hashed, Signature([9; 64]));
    let entry = match app_entry {
        Some(b) => RecordEntry::Present(Entry::App(AppEntryBytes(SerializedBytes::from(UnsafeBytes::from(b))))),
        None => RecordEntry::NotStored,
    };
    let sb = SerializedBytes::try_from(Record { signed_action: signed, entry }).unwrap();
    sb.bytes().clone()
}

fn good_record() -> Vec<u8> {
    record_bytes(create_action(PROGENITOR, PROOF_ENTRY), Some(vec![1, 2, 3]))
}

fn invalid(message: &str) -> Outcome {
    Ok(ValidateCallbackResult::Invalid(message.to_string()))
}

fn start(
    for_agent: AgentPubKey,
    progenitor: Result<AgentPubKey, String>,
    proof: Option<Result<Vec<u8>, String>>,
) -> Result<AwaitingSignature, Outcome> {
    match start_membrane_check(for_agent, progenitor, proof) {
        MembraneStep::Continue(s) => Ok(s),
        MembraneStep::Finish(r) => Err(r),
    }
}

fn signature(s: AwaitingSignature, answer: Result<bool, String>) -> Result<AwaitingProofEntry, Outcome> {
    match after_signature(s, answer) {
        MembraneStep::Continue(s) => Ok(s),
        MembraneStep::Finish(r) => Err(r),
    }
}

fn decoded(
    s: AwaitingProofEntry,
    answer: Result<PrivatePublicationMembraneProof, hdi::prelude::SerializedBytesError>,
) -> Result<AwaitingEntryHash, Outcome> {
    match after_proof_entry(s, answer) {
        MembraneStep::Continue(s) => Ok(s),
        MembraneStep::Finish(r) => Err(r),
    }
}

fn entry_hash(s: AwaitingEntryHash, answer: Result<EntryHash, String>) -> Result<AwaitingDnaHash, Outcome> {
    match after_entry_hash(s, answer) {
        MembraneStep::Continue(s) => Ok(s),
        MembraneStep::Finish(r) => Err(r),
    }
}

/// Runs the whole check with the answers given.
fn run(
    for_agent: AgentPubKey,
    record: Option<Result<Vec<u8>, String>>,
    sig: Result<bool, String>,
    proof: Result<PrivatePublicationMembraneProof, hdi::prelude::SerializedBytesError>,
    hashed: Result<EntryHash, String>,
    this_dna: Result<DnaHash, String>,
) -> Outcome {
    let s1 = match start(for_agent, Ok(agent(PROGENITOR)), record) {
        Ok(s) => s,
        Err(r) => return r,
    };
    let s2 = match signature(s1, sig) {
        Ok(s) => s,
        Err(r) => return r,
    };
    let s3 = match decoded(s2, proof) {
        Ok(s) => s,
        Err(r) => return r,
    };
    let s4 = match entry_hash(s3, hashed) {
        Ok(s) => s,
        Err(r) => return r,
    };
    after_dna_hash(s4, this_dna)
}

fn good(for_agent: AgentPubKey, record: Vec<u8>) -> Outcome {
    run(for_agent, Some(Ok(record)), Ok(true), Ok(sample_proof()), Ok(entry(PROOF_ENTRY)), Ok(dna(THIS_DNA)))
}

#[test]
fn progenitor_joins_without_proof() {
    let r = start(agent(PROGENITOR), Ok(agent(PROGENITOR)), None);
    assert_eq!(r.err(), Some(Ok(ValidateCallbackResult::Valid)));
}

#[test]
fn progenitor_joins_even_with_undecodable_proof() {
    let r = start(agent(PROGENITOR), Ok(agent(PROGENITOR)), Some(Ok(vec![0xc1, 0xff])));
    assert_eq!(r.err(), Some(Ok(ValidateCallbackResult::Valid)));
}

#[test]
fn progenitor_lookup_failure_is_passed_on() {
    let r = start(agent(JOINER), Err("no properties".to_string()), None);
    assert_eq!(r.err(), Some(Err(ExternError::Raised("no properties".to_string()))));
}

#[test]
fn agent_without_proof_is_refused() {
    let r = start(agent(JOINER), Ok(agent(PROGENITOR)), None);
    assert_eq!(r.err(), Some(invalid("Invalid agent: no membrane proof present")));
}

#[test]
fn proof_bytes_failure_is_passed_on() {
    let r = start(agent(JOINER), Ok(agent(PROGENITOR)), Some(Err("shared".to_string())));
    assert_eq!(r.err(), Some(Err(ExternError::Raised("shared".to_string()))));
}

#[test]
fn undecodable_record_fails() {
    let r = start(agent(JOINER), Ok(agent(PROGENITOR)), Some(Ok(vec![0xc1, 0xff])));
    assert!(matches!(r.err(), Some(Err(ExternError::Undecodable(_)))));
}

#[test]
fn proof_by_another_author_is_refused() {
    let bytes = record_bytes(create_action(8, PROOF_ENTRY), Some(vec![1, 2, 3]));
    let r = start(agent(JOINER), Ok(agent(PROGENITOR)), Some(Ok(bytes)));
    assert_eq!(r.err(), Some(invalid("The author of the record is not the progenitor")));
}

#[test]
fn signature_is_checked_over_the_records_action() {
    let s = start(agent(JOINER), Ok(agent(PROGENITOR)), Some(Ok(good_record()))).ok().unwrap();
    assert_eq!(s.progenitor, agent(PROGENITOR));
    assert_eq!(s.signature, vec![9; 64]);
    assert_eq!(s.signed_action, encode(&create_action(PROGENITOR, PROOF_ENTRY)).unwrap());
    assert_eq!(s.entry_hash_in_action, Some(entry(PROOF_ENTRY)));
    assert_eq!(s.app_entry, Some(vec![1, 2, 3]));
    assert_eq!(s.for_agent, agent(JOINER));
}

fn good_with(sig: Result<bool, String>) -> Outcome {
    run(agent(JOINER), Some(Ok(good_record())), sig, Ok(sample_proof()), Ok(entry(PROOF_ENTRY)), Ok(dna(THIS_DNA)))
}

#[test]
fn bad_signature_is_refused() {
    assert_eq!(good_with(Ok(false)), invalid("The signature of the record is not valid"));
}

#[test]
fn signature_host_error_is_passed_on() {
    let r = good_with(Err("host down".to_string()));
    assert_eq!(r, Err(ExternError::Raised("host down".to_string())));
}

#[test]
fn record_without_app_entry_is_malformed() {
    let bytes = record_bytes(create_action(PROGENITOR, PROOF_ENTRY), None);
    assert_eq!(good(agent(JOINER), bytes), invalid("Malformed membrane proof"));
}

#[test]
fn entry_decode_failure_fails() {
    let err = hdi::prelude::SerializedBytesError::Deserialize("not a proof".to_string());
    let r = run(agent(JOINER), Some(Ok(good_record())), Ok(true), Err(err.clone()), Ok(entry(PROOF_ENTRY)), Ok(dna(THIS_DNA)));
    assert_eq!(r, Err(ExternError::Undecodable(err)));
}

#[test]
fn app_entry_bytes_are_what_gets_decoded() {
    let s1 = start(agent(JOINER), Ok(agent(PROGENITOR)), Some(Ok(good_record()))).ok().unwrap();
    let s2 = signature(s1, Ok(true)).ok().unwrap();
    assert_eq!(s2.entry_bytes, vec![1, 2, 3]);
    let s3 = decoded(s2, Ok(sample_proof())).ok().unwrap();
    assert_eq!(s3.proof, sample_proof());
    assert_eq!(s3.entry_hash_in_action, Some(entry(PROOF_ENTRY)));
}

#[test]
fn hashing_failure_is_passed_on() {
    let r = run(agent(JOINER), Some(Ok(good_record())), Ok(true), Ok(sample_proof()), Err("hash".to_string()), Ok(dna(THIS_DNA)));
    assert_eq!(r, Err(ExternError::Raised("hash".to_string())));
}

#[test]
fn action_without_entry_hash_fails() {
    let bytes = record_bytes(action_without_entry(PROGENITOR), Some(vec![1, 2, 3]));
    assert_eq!(
        good(agent(JOINER), bytes),
        Err(ExternError::Guest("The given record doesn't contain an entry hash".to_string()))
    );
}

#[test]
fn mismatching_entry_hash_is_refused() {
    let r = run(agent(JOINER), Some(Ok(good_record())), Ok(true), Ok(sample_proof()), Ok(entry(6)), Ok(dna(THIS_DNA)));
    assert_eq!(r, invalid("The entry hash is not valid for the given entry"));
}

#[test]
fn dna_info_failure_is_passed_on() {
    let r = run(agent(JOINER), Some(Ok(good_record())), Ok(true), Ok(sample_proof()), Ok(entry(PROOF_ENTRY)), Err("dna".to_string()));
    assert_eq!(r, Err(ExternError::Raised("dna".to_string())));
}

#[test]
fn proof_for_other_dna_is_refused() {
    let r = run(agent(JOINER), Some(Ok(good_record())), Ok(true), Ok(sample_proof()), Ok(entry(PROOF_ENTRY)), Ok(dna(9)));
    assert_eq!(r, invalid("The membrane proof is not for this dna"));
}

#[test]
fn proof_for_other_agent_is_refused() {
    assert_eq!(good(agent(5), good_record()), invalid("The membrane proof is not for this agent"));
}

#[test]
fn complete_proof_admits_its_recipient() {
    assert_eq!(good(agent(JOINER), good_record()), Ok(ValidateCallbackResult::Valid));
}
