use private_publication::hash::{dna_hash_is_well_located, ActionHash, AgentPubKey, AnyLinkableHash, DnaHash};
use private_publication::lobby::{
    all_posts_call, cap_secret, functions_to_grant_capability_for, grant_capability_to_read,
    has_read_claim_tag, membrane_proof_target, read_claim_for, posts_response, posts_source_dna,
    query_cap_claims_for, read_posts_call, store_capability_claim, wanted_claim_index, CapAccess,
    CapClaim, CapGrant, CapSecret, ChainEntry, GrantCapabilityToReadInput, GrantedFunction,
    StoreCapClaimInput, ZomeCall, ZomeCallResponse, CallTarget,
};
use private_publication::outcome::ExternError;

fn hash(prefix: [u8; 3], fill: u8) -> Vec<u8> {
    let mut raw = prefix.to_vec();
    raw.extend(std::iter::repeat(fill).take(36));
    raw
}

fn agent(fill: u8) -> AgentPubKey {
    AgentPubKey { raw: hash([0x84, 0x20, 0x24], fill) }
}

/// A DNA hash whose location bytes are the right ones for its digest.
fn valid_dna() -> DnaHash {
    let mut raw = vec![0x84, 0x2d, 0x24];
    raw.extend(vec![7u8; 32]);
    raw.extend(vec![136u8, 24, 11, 2]);
    DnaHash { raw }
}

const VALID_DNA_TEXT: &str = "uhC0kBwcHBwcHBwcHBwcHBwcHBwcHBwcHBwcHBwcHBwcHBweIGAsC";

fn secret(fill: u8) -> CapSecret {
    CapSecret { bytes: vec![fill; 64] }
}

fn claim(tag: &str, grantor: u8) -> CapClaim {
    CapClaim { tag: tag.to_string(), grantor: agent(grantor), secret: secret(grantor) }
}

#[test]
fn secret_from_64_bytes() {
    assert_eq!(cap_secret::<String>(vec![3; 64]), Ok(secret(3)));
}

#[test]
fn secret_from_wrong_length_fails() {
    assert_eq!(
        cap_secret::<String>(vec![3; 63]),
        Err(ExternError::Guest("Could not build secret".to_string()))
    );
    assert_eq!(
        cap_secret::<String>(vec![3; 65]),
        Err(ExternError::Guest("Could not build secret".to_string()))
    );
}

#[test]
fn grant_opens_the_read_function() {
    let f = functions_to_grant_capability_for("private_publication_lobby".to_string());
    assert_eq!(
        f,
        vec![GrantedFunction {
            zome: "private_publication_lobby".to_string(),
            function: "request_read_private_publication_posts".to_string(),
        }]
    );
}

#[test]
fn grant_is_assigned_to_reader_and_tagged_with_dna() {
    let input = GrantCapabilityToReadInput { reader: agent(4), private_publication_dna_hash: valid_dna() };
    let functions = functions_to_grant_capability_for("lobby".to_string());
    let grant = grant_capability_to_read(input, functions.clone(), secret(5));
    assert_eq!(grant.tag, VALID_DNA_TEXT);
    assert_eq!(grant.functions, functions);
    assert_eq!(grant.access, CapAccess::Assigned { secret: secret(5), assignees: vec![agent(4)] });
}

#[test]
fn granted_tag_reads_back_as_the_dna() {
    let input = GrantCapabilityToReadInput { reader: agent(4), private_publication_dna_hash: valid_dna() };
    let grant = grant_capability_to_read(input, vec![], secret(5));
    let dna = posts_source_dna::<String>(&CapGrant::RemoteAgent { tag: grant.tag });
    assert_eq!(dna, Ok(valid_dna()));
}

#[test]
fn dna_text_parses() {
    let dna = posts_source_dna::<String>(&CapGrant::RemoteAgent { tag: VALID_DNA_TEXT.to_string() });
    assert_eq!(dna, Ok(valid_dna()));
}

#[test]
fn bad_grant_tag_fails() {
    let r = posts_source_dna::<String>(&CapGrant::RemoteAgent { tag: "not a hash".to_string() });
    assert_eq!(r, Err(ExternError::Guest("Bad cap_grant tag".to_string())));
}

#[test]
fn tag_with_wrong_checksum_fails() {
    let mut text = VALID_DNA_TEXT.to_string();
    text.pop();
    text.push('D');
    let r = posts_source_dna::<String>(&CapGrant::RemoteAgent { tag: text });
    assert_eq!(r, Err(ExternError::Guest("Bad cap_grant tag".to_string())));
}

#[test]
fn chain_author_has_no_grant_to_read_by() {
    let r = posts_source_dna::<String>(&CapGrant::ChainAuthor(agent(1)));
    assert_eq!(r, Err(ExternError::Guest("Failed to handle remote call".to_string())));
}

#[test]
fn stored_claim_names_the_author() {
    let c = store_capability_claim(StoreCapClaimInput { author: agent(6), cap_secret: secret(6) });
    assert_eq!(c, claim("claim to read Bobs posts", 6));
}

#[test]
fn claims_are_those_of_the_grantor_in_order() {
    let entries = vec![
        Some(ChainEntry::CapClaim(claim("a", 1))),
        None,
        Some(ChainEntry::Other),
        Some(ChainEntry::CapClaim(claim("b", 2))),
        Some(ChainEntry::CapClaim(claim("c", 1))),
    ];
    let claims = query_cap_claims_for(&entries, &agent(1));
    assert_eq!(claims, vec![claim("a", 1), claim("c", 1)]);
    assert_eq!(query_cap_claims_for(&entries, &agent(3)), vec![]);
}

#[test]
fn claim_tag_matches_ignoring_ascii_case() {
    assert!(has_read_claim_tag(&claim("claim to read Bobs posts", 1)));
    assert!(has_read_claim_tag(&claim("CLAIM TO READ BOBS POSTS", 1)));
    assert!(!has_read_claim_tag(&claim("claim to read Bobs post", 1)));
    assert!(!has_read_claim_tag(&claim("claim to read Bobs posts!", 1)));
    assert!(!has_read_claim_tag(&claim("claim-to read Bobs posts", 1)));
}

#[test]
fn first_matching_claim_is_used() {
    let claims = vec![
        claim("other", 1),
        claim("Claim To Read Bobs Posts", 2),
        claim("claim to read Bobs posts", 3),
    ];
    assert_eq!(wanted_claim_index(&claims), Some(1));
    assert_eq!(wanted_claim_index(&vec![claim("other", 1)]), None);
    assert_eq!(wanted_claim_index(&vec![]), None);
}

#[test]
fn read_call_carries_the_claim_secret() {
    let call = read_posts_call(&claim("claim to read Bobs posts", 2), "lobby".to_string());
    assert_eq!(
        call,
        ZomeCall {
            target: CallTarget::Agent(agent(2)),
            zome: "lobby".to_string(),
            function: "request_read_private_publication_posts".to_string(),
            cap_secret: Some(secret(2)),
        }
    );
}

#[test]
fn posts_are_fetched_from_the_posts_zome() {
    assert_eq!(
        all_posts_call(valid_dna()),
        ZomeCall {
            target: CallTarget::OwnCell(valid_dna()),
            zome: "posts".to_string(),
            function: "get_all_posts".to_string(),
            cap_secret: None,
        }
    );
}

#[test]
fn answers_of_posts_calls() {
    let encoded = hdi::prelude::ExternIO::encode(Vec::<hdi::prelude::Record>::new()).unwrap();
    match posts_response::<String>(ZomeCallResponse::Success(encoded.0)) {
        Ok(posts) => assert!(posts.records.is_empty()),
        Err(e) => panic!("{:?}", e),
    }
    assert!(matches!(
        posts_response::<String>(ZomeCallResponse::Success(vec![0xc1])),
        Err(ExternError::Undecodable(_))
    ));
    match posts_response::<String>(ZomeCallResponse::NetworkError("timeout".to_string())) {
        Err(e) => assert_eq!(e, ExternError::Guest("There was a network error: \"timeout\"".to_string())),
        Ok(_) => panic!("no posts expected"),
    }
    match posts_response::<String>(ZomeCallResponse::Unauthorized) {
        Err(e) => assert_eq!(e, ExternError::Guest("Failed to handle remote call".to_string())),
        Ok(_) => panic!("no posts expected"),
    }
    match posts_response::<String>(ZomeCallResponse::CountersigningSession("x".to_string())) {
        Err(e) => assert_eq!(e, ExternError::Guest("Failed to handle remote call".to_string())),
        Ok(_) => panic!("no posts expected"),
    }
}

#[test]
fn membrane_proof_link_targets() {
    let action = hash([0x84, 0x29, 0x24], 8);
    let entry = hash([0x84, 0x21, 0x24], 8);
    assert_eq!(membrane_proof_target(&vec![]), None);
    assert_eq!(
        membrane_proof_target(&vec![AnyLinkableHash { raw: action.clone() }, AnyLinkableHash { raw: entry.clone() }]),
        Some(ActionHash { raw: action.clone() })
    );
    assert_eq!(
        membrane_proof_target(&vec![AnyLinkableHash { raw: entry }, AnyLinkableHash { raw: action }]),
        None
    );
}

#[test]
fn stored_claim_is_the_one_used_to_read() {
    let stored = store_capability_claim(StoreCapClaimInput { author: agent(6), cap_secret: secret(6) });
    let entries = vec![
        Some(ChainEntry::CapClaim(claim("something else", 6))),
        Some(ChainEntry::CapClaim(claim("claim to read Bobs posts", 7))),
        None,
        Some(ChainEntry::CapClaim(stored.clone())),
        Some(ChainEntry::CapClaim(claim("CLAIM TO READ BOBS POSTS", 6))),
    ];
    assert_eq!(read_claim_for(&entries, &agent(6)), Some(stored));
}

#[test]
fn no_claim_to_use_without_a_stored_one() {
    let entries = vec![
        Some(ChainEntry::CapClaim(claim("claim to read Bobs posts", 7))),
        Some(ChainEntry::Other),
        Some(ChainEntry::CapClaim(claim("something else", 6))),
    ];
    assert_eq!(read_claim_for(&entries, &agent(6)), None);
    assert_eq!(read_claim_for(&vec![], &agent(6)), None);
}

#[test]
fn other_entries_play_no_part_in_the_claim_used() {
    let wanted = claim("claim to read Bobs posts", 6);
    let plain = vec![Some(ChainEntry::CapClaim(wanted.clone()))];
    let noisy = vec![
        Some(ChainEntry::Other),
        Some(ChainEntry::CapClaim(claim("claim to read Bobs posts", 7))),
        Some(ChainEntry::CapClaim(claim("another tag", 6))),
        None,
        Some(ChainEntry::CapClaim(wanted.clone())),
        Some(ChainEntry::CapClaim(claim("claim to read bobs posts", 6))),
    ];
    assert_eq!(read_claim_for(&plain, &agent(6)), Some(wanted.clone()));
    assert_eq!(read_claim_for(&noisy, &agent(6)), Some(wanted));
}

#[test]
fn location_bytes_are_checked_against_the_digest() {
    assert!(dna_hash_is_well_located(&valid_dna()));
    let mut wrong = valid_dna();
    wrong.raw[38] ^= 1;
    assert!(!dna_hash_is_well_located(&wrong));
    let other = DnaHash { raw: { let mut r = vec![0x84, 0x2d, 0x24]; r.extend(vec![7u8; 36]); r } };
    assert!(!dna_hash_is_well_located(&other));
}
