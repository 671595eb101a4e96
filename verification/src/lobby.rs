//! The lobby: an author grants a reader the capability to read the posts of
//! a private publication; the reader stores the claim, and later uses it to
//! ask the author for the posts; the author answers with the posts of the
//! publication that the grant names.
//!
//! Host calls (reading the zome name, random bytes, the call info, the
//! agent key, committing grants and claims, calling other cells) are made
//! by the caller. Here is what is decided between them: what a grant or a
//! claim holds, which claim is used, what is called, and what an answer
//! means.

use vstd::prelude::*;
use vstd::utf8::encode_utf8;
use hdi::prelude::CapSecret as HdiCapSecret;
use hdi::prelude::holochain_integrity_types::SecurePrimitiveError;
use hdi::prelude::{ExternIO, Record, SerializedBytesError};
use crate::hash::{
    ActionHash, AgentPubKey, AnyLinkableHash, DnaHash, HASH_LEN, action_prefix, copy_bytes,
    dna_hash_b64_text, dna_hash_from_b64, dna_prefix, holo_hash_dna_parse, holo_hash_text, well_located,
    prefix_of, well_typed,
};
use crate::outcome::{ExternError, Failure, failure_view, guest_error};

verus! {

/// The function of this zome that a read grant opens.
pub const READ_POSTS_FUNCTION: &'static str = "request_read_private_publication_posts";

/// The tag of the claims that this zome stores and uses.
pub const READ_CLAIM_TAG: &'static str = "claim to read Bobs posts";

/// The zome and function of the publication that hold the posts.
pub const POSTS_ZOME: &'static str = "posts";

pub const GET_ALL_POSTS: &'static str = "get_all_posts";

pub const COULD_NOT_BUILD_SECRET: &'static str = "Could not build secret";

pub const BAD_GRANT_TAG: &'static str = "Bad cap_grant tag";

pub const REMOTE_CALL_FAILED: &'static str = "Failed to handle remote call";

pub const NETWORK_ERROR: &'static str = "There was a network error: ";

/// The number of bytes of a capability secret.
pub const CAP_SECRET_BYTES: usize = 64;

/// A capability secret: 64 bytes.
#[derive(Debug, Clone, PartialEq, Eq)]
pub struct CapSecret {
    pub bytes: Vec<u8>,
}

impl View for CapSecret {
    type V = Seq<u8>;

    open spec fn view(&self) -> Seq<u8> {
        self.bytes@
    }
}

impl CapSecret {
    pub fn duplicate(&self) -> (r: CapSecret)
        ensures
            r@ == self@,
    {
        CapSecret { bytes: copy_bytes(&self.bytes) }
    }
}

/// Declares the error of holochain's secure primitives.
#[verifier::external_type_specification]
#[verifier::external_body]
pub struct ExSecurePrimitiveError(SecurePrimitiveError);

/// `CapSecret::try_from(Vec<u8>)` (holochain_integrity_types), as bytes:
/// it accepts exactly 64 bytes and keeps them.
#[verifier::external_body]
fn cap_secret_try_from(bytes: Vec<u8>) -> (r: Result<Vec<u8>, SecurePrimitiveError>)
    ensures
        r is Ok <==> bytes@.len() == CAP_SECRET_BYTES,
        r matches Ok(s) ==> s@ == bytes@,
{
    match HdiCapSecret::try_from(bytes) {
        Ok(s) => Ok(s.as_ref().to_vec()),
        Err(e) => Err(e),
    }
}

/// The secret made from the random bytes that the host handed out.
pub fn cap_secret<E>(random: Vec<u8>) -> (r: Result<CapSecret, ExternError<E>>)
    ensures
        random@.len() == CAP_SECRET_BYTES ==> (r matches Ok(s) && s@ == random@),
        random@.len() != CAP_SECRET_BYTES ==> failure_view(r) == Err::<CapSecret, Failure<E>>(
            Failure::Guest(COULD_NOT_BUILD_SECRET@),
        ),
{
    match cap_secret_try_from(random) {
        Ok(bytes) => Ok(CapSecret { bytes }),
        Err(_) => Err(guest_error(COULD_NOT_BUILD_SECRET)),
    }
}

/// A function that a grant opens: a zome and a function of it.
#[derive(Debug, Clone, PartialEq, Eq)]
pub struct GrantedFunction {
    pub zome: String,
    pub function: String,
}

pub struct FunctionView {
    pub zome: Seq<char>,
    pub function: Seq<char>,
}

impl View for GrantedFunction {
    type V = FunctionView;

    open spec fn view(&self) -> FunctionView {
        FunctionView { zome: self.zome@, function: self.function@ }
    }
}

/// Who may use a grant: the agents assigned, with the secret.
#[derive(Debug, Clone, PartialEq, Eq)]
pub enum CapAccess {
    Assigned { secret: CapSecret, assignees: Vec<AgentPubKey> },
}

/// A capability grant: the functions listed, who may call them, and a tag.
#[derive(Debug, Clone, PartialEq, Eq)]
pub struct CapGrantEntry {
    pub functions: Vec<GrantedFunction>,
    pub access: CapAccess,
    pub tag: String,
}

/// A capability claim: whose grant it claims, the secret, and a tag.
#[derive(Debug, Clone, PartialEq, Eq)]
pub struct CapClaim {
    pub tag: String,
    pub grantor: AgentPubKey,
    pub secret: CapSecret,
}

pub struct ClaimView {
    pub tag: Seq<char>,
    pub grantor: Seq<u8>,
    pub secret: Seq<u8>,
}

impl View for CapClaim {
    type V = ClaimView;

    open spec fn view(&self) -> ClaimView {
        ClaimView { tag: self.tag@, grantor: self.grantor@, secret: self.secret@ }
    }
}

impl CapClaim {
    pub fn duplicate(&self) -> (r: CapClaim)
        ensures
            r@ == self@,
    {
        CapClaim {
            tag: self.tag.clone(),
            grantor: self.grantor.duplicate(),
            secret: self.secret.duplicate(),
        }
    }
}

/// What an author hands in to grant a reader access to a publication.
#[derive(Debug, Clone, PartialEq, Eq)]
pub struct GrantCapabilityToReadInput {
    pub reader: AgentPubKey,
    pub private_publication_dna_hash: DnaHash,
}

/// What a reader hands in to store the claim to an author's grant.
#[derive(Debug, Clone, PartialEq, Eq)]
pub struct StoreCapClaimInput {
    pub author: AgentPubKey,
    pub cap_secret: CapSecret,
}

/// The functions that a read grant opens: the read function of this zome.
pub fn functions_to_grant_capability_for(zome_name: String) -> (r: Vec<GrantedFunction>)
    ensures
        r@.len() == 1,
        r@[0]@ == (FunctionView { zome: zome_name@, function: READ_POSTS_FUNCTION@ }),
{
    let mut functions: Vec<GrantedFunction> = Vec::new();
    functions.push(GrantedFunction { zome: zome_name, function: READ_POSTS_FUNCTION.to_string() });
    functions
}

/// The grant that lets the reader read the posts: it opens `functions`,
/// only to the reader, with `secret`, and its tag is the text of the
/// publication's DNA hash.
pub fn grant_capability_to_read(
    grant_input: GrantCapabilityToReadInput,
    functions: Vec<GrantedFunction>,
    secret: CapSecret,
) -> (r: CapGrantEntry)
    requires
        well_typed(grant_input.private_publication_dna_hash@, dna_prefix()),
    ensures
        r.tag@ == holo_hash_text(grant_input.private_publication_dna_hash@),
        readable_grant(CapGrant::RemoteAgent { tag: r.tag }),
        well_located(grant_input.private_publication_dna_hash@) ==> holo_hash_dna_parse(r.tag@)
            == Some(grant_input.private_publication_dna_hash@),
        r.functions@ == functions@,
        r.access matches CapAccess::Assigned { secret: s, assignees } && s@ == secret@
            && assignees@.len() == 1 && assignees@[0]@ == grant_input.reader@,
{
    let tag = dna_hash_b64_text(&grant_input.private_publication_dna_hash.raw);
    let mut assignees: Vec<AgentPubKey> = Vec::new();
    assignees.push(grant_input.reader);
    CapGrantEntry { functions, access: CapAccess::Assigned { secret, assignees }, tag }
}

/// The claim that a reader stores: the author's grant, with its secret.
pub fn store_capability_claim(claim_input: StoreCapClaimInput) -> (r: CapClaim)
    ensures
        r@ == (ClaimView {
            tag: READ_CLAIM_TAG@,
            grantor: claim_input.author@,
            secret: claim_input.cap_secret@,
        }),
{
    CapClaim {
        tag: READ_CLAIM_TAG.to_string(),
        grantor: claim_input.author,
        secret: claim_input.cap_secret,
    }
}

/// An entry of the source chain, as far as claims go.
#[derive(Debug, Clone, PartialEq, Eq)]
pub enum ChainEntry {
    CapClaim(CapClaim),
    Other,
}

pub enum ChainEntryView {
    CapClaim(ClaimView),
    Other,
}

impl View for ChainEntry {
    type V = ChainEntryView;

    open spec fn view(&self) -> ChainEntryView {
        match self {
            ChainEntry::CapClaim(c) => ChainEntryView::CapClaim(c@),
            ChainEntry::Other => ChainEntryView::Other,
        }
    }
}

pub open spec fn entry_option_view(e: Option<ChainEntry>) -> Option<ChainEntryView> {
    match e {
        Some(e) => Some(e@),
        None => None,
    }
}

pub open spec fn entries_view(entries: Seq<Option<ChainEntry>>) -> Seq<Option<ChainEntryView>> {
    entries.map_values(|e: Option<ChainEntry>| entry_option_view(e))
}

pub open spec fn claims_view(claims: Seq<CapClaim>) -> Seq<ClaimView> {
    claims.map_values(|c: CapClaim| c@)
}

/// The claims among the entries, in their order, whose grantor is
/// `grantor`.
pub open spec fn claims_from(entries: Seq<Option<ChainEntryView>>, grantor: Seq<u8>) -> Seq<
    ClaimView,
>
    decreases entries.len(),
{
    if entries.len() == 0 {
        Seq::empty()
    } else {
        let rest = claims_from(entries.drop_last(), grantor);
        match entries.last() {
            Some(ChainEntryView::CapClaim(c)) => if c.grantor == grantor {
                rest.push(c)
            } else {
                rest
            },
            _ => rest,
        }
    }
}

/// The claims of the source chain that claim `grantor`'s grants: `entries`
/// are the entries of the capability-claim records that the chain query
/// returned (`None` where a record holds none).
pub fn query_cap_claims_for(entries: &Vec<Option<ChainEntry>>, grantor: &AgentPubKey) -> (r: Vec<
    CapClaim,
>)
    ensures
        claims_view(r@) == claims_from(entries_view(entries@), grantor@),
{
    let mut claims: Vec<CapClaim> = Vec::new();
    let n = entries.len();
    for i in 0..n
        invariant
            n == entries@.len(),
            claims_view(claims@) == claims_from(entries_view(entries@.take(i as int)), grantor@),
    {
        proof {
            assert(entries_view(entries@.take(i + 1)).drop_last() =~= entries_view(
                entries@.take(i as int),
            ));
            assert(entries_view(entries@.take(i + 1)).last() == entry_option_view(entries@[i as int]));
        }
        match &entries[i] {
            Some(ChainEntry::CapClaim(claim)) => {
                if claim.grantor.same_as(grantor) {
                    let ghost before = claims@;
                    claims.push(claim.duplicate());
                    assert(claims_view(claims@) =~= claims_view(before).push(claim@));
                }
            },
            _ => {},
        }
    }
    assert(entries@.take(n as int) =~= entries@);
    claims
}

/// `u8::to_ascii_lowercase`.
pub open spec fn ascii_lower(b: u8) -> u8 {
    if 65 <= b && b <= 90 {
        (b + 32) as u8
    } else {
        b
    }
}

/// `<[u8]>::eq_ignore_ascii_case`: same length, and equal bytes once ASCII
/// letters are lowered.
pub open spec fn eq_ignore_ascii_case(a: Seq<u8>, b: Seq<u8>) -> bool {
    &&& a.len() == b.len()
    &&& forall|i: int| 0 <= i < a.len() ==> ascii_lower(#[trigger] a[i]) == ascii_lower(b[i])
}

/// A tag that reads as the read-claim tag, whatever the case of its ASCII
/// letters (`str::eq_ignore_ascii_case`).
pub open spec fn is_read_claim_tag(tag: Seq<char>) -> bool {
    eq_ignore_ascii_case(encode_utf8(tag), encode_utf8(READ_CLAIM_TAG@))
}

fn lower(b: u8) -> (r: u8)
    ensures
        r == ascii_lower(b),
{
    if 65 <= b && b <= 90 {
        b + 32
    } else {
        b
    }
}

fn bytes_eq_ignore_ascii_case(a: &[u8], b: &[u8]) -> (r: bool)
    ensures
        r == eq_ignore_ascii_case(a@, b@),
{
    if a.len() != b.len() {
        return false;
    }
    let n = a.len();
    for i in 0..n
        invariant
            n == a@.len(),
            n == b@.len(),
            forall|j: int| 0 <= j < i ==> ascii_lower(#[trigger] a@[j]) == ascii_lower(b@[j]),
    {
        if lower(a[i]) != lower(b[i]) {
            return false;
        }
    }
    true
}

/// Whether a claim's tag reads as the read-claim tag.
pub fn has_read_claim_tag(claim: &CapClaim) -> (r: bool)
    ensures
        r == is_read_claim_tag(claim.tag@),
{
    bytes_eq_ignore_ascii_case(claim.tag.as_str().as_bytes(), READ_CLAIM_TAG.as_bytes())
}

/// The claim used to read an author's posts: the first of `claims` whose
/// tag reads as the read-claim tag.
pub fn wanted_claim_index(claims: &Vec<CapClaim>) -> (r: Option<usize>)
    ensures
        r matches Some(i) ==> i < claims@.len() && is_read_claim_tag(claims@[i as int].tag@)
            && forall|j: int| 0 <= j < i ==> !is_read_claim_tag(#[trigger] claims@[j].tag@),
        r is None ==> forall|j: int|
            0 <= j < claims@.len() ==> !is_read_claim_tag(#[trigger] claims@[j].tag@),
{
    let n = claims.len();
    for i in 0..n
        invariant
            n == claims@.len(),
            forall|j: int| 0 <= j < i ==> !is_read_claim_tag(#[trigger] claims@[j].tag@),
    {
        if has_read_claim_tag(&claims[i]) {
            return Some(i);
        }
    }
    None
}

/// The first claim whose tag reads as the read-claim tag.
pub open spec fn first_read_claim(claims: Seq<ClaimView>) -> Option<ClaimView>
    decreases claims.len(),
{
    if claims.len() == 0 {
        None
    } else if is_read_claim_tag(claims[0].tag) {
        Some(claims[0])
    } else {
        first_read_claim(claims.drop_first())
    }
}

proof fn lemma_first_read_claim_at(claims: Seq<ClaimView>, i: int)
    requires
        0 <= i < claims.len(),
        is_read_claim_tag(claims[i].tag),
        forall|j: int| 0 <= j < i ==> !is_read_claim_tag(#[trigger] claims[j].tag),
    ensures
        first_read_claim(claims) == Some(claims[i]),
    decreases i,
{
    if i > 0 {
        lemma_first_read_claim_at(claims.drop_first(), i - 1);
    }
}

proof fn lemma_no_read_claim(claims: Seq<ClaimView>)
    requires
        forall|j: int| 0 <= j < claims.len() ==> !is_read_claim_tag(#[trigger] claims[j].tag),
    ensures
        first_read_claim(claims) is None,
    decreases claims.len(),
{
    if claims.len() > 0 {
        lemma_no_read_claim(claims.drop_first());
    }
}

pub open spec fn claim_option_view(c: Option<CapClaim>) -> Option<ClaimView> {
    match c {
        Some(c) => Some(c@),
        None => None,
    }
}

/// The claim that reading `poster`'s posts uses: among the claims on the
/// chain to `poster`'s grants, the first whose tag reads as the read-claim
/// tag (`None` where there is none; reading the posts then cannot go on).
pub fn read_claim_for(entries: &Vec<Option<ChainEntry>>, poster: &AgentPubKey) -> (r: Option<
    CapClaim,
>)
    ensures
        claim_option_view(r) == first_read_claim(claims_from(entries_view(entries@), poster@)),
{
    let claims = query_cap_claims_for(entries, poster);
    match wanted_claim_index(&claims) {
        Some(i) => {
            proof {
                assert(claims_view(claims@)[i as int] == claims@[i as int]@);
                assert forall|j: int| 0 <= j < i implies !is_read_claim_tag(
                    #[trigger] claims_view(claims@)[j].tag,
                ) by {
                    assert(claims_view(claims@)[j] == claims@[j]@);
                }
                lemma_first_read_claim_at(claims_view(claims@), i as int);
            }
            Some(claims[i].duplicate())
        },
        None => {
            proof {
                assert forall|j: int| 0 <= j < claims_view(claims@).len() implies !is_read_claim_tag(
                    #[trigger] claims_view(claims@)[j].tag,
                ) by {
                    assert(claims_view(claims@)[j] == claims@[j]@);
                }
                lemma_no_read_claim(claims_view(claims@));
            }
            None
        },
    }
}

proof fn lemma_claims_from_has(entries: Seq<Option<ChainEntryView>>, grantor: Seq<u8>, i: int)
    requires
        0 <= i < entries.len(),
        entries[i] matches Some(ChainEntryView::CapClaim(c)) && c.grantor == grantor,
    ensures
        exists|k: int|
            0 <= k < claims_from(entries, grantor).len() && #[trigger] claims_from(
                entries,
                grantor,
            )[k] == entries[i]->Some_0->CapClaim_0,
    decreases entries.len(),
{
    let rest = claims_from(entries.drop_last(), grantor);
    if i == entries.len() - 1 {
        assert(claims_from(entries, grantor)[rest.len() as int] == entries[i]->Some_0->CapClaim_0);
    } else {
        assert(entries.drop_last()[i] == entries[i]);
        lemma_claims_from_has(entries.drop_last(), grantor, i);
        let k = choose|k: int|
            0 <= k < rest.len() && #[trigger] rest[k] == entries[i]->Some_0->CapClaim_0;
        assert(claims_from(entries, grantor)[k] == rest[k]);
    }
}

proof fn lemma_some_read_claim(claims: Seq<ClaimView>, k: int)
    requires
        0 <= k < claims.len(),
        is_read_claim_tag(claims[k].tag),
    ensures
        first_read_claim(claims) is Some,
    decreases k,
{
    if k > 0 && !is_read_claim_tag(claims[0].tag) {
        lemma_some_read_claim(claims.drop_first(), k - 1);
    }
}

/// Once a reader has stored the claim to an author's grant (as
/// `store_capability_claim` writes it), reading that author's posts finds a
/// claim to use, whatever else the chain holds.
pub proof fn lemma_stored_claim_is_found(
    entries: Seq<Option<ChainEntryView>>,
    author: Seq<u8>,
    secret: Seq<u8>,
    i: int,
)
    requires
        0 <= i < entries.len(),
        entries[i] == Some(
            ChainEntryView::CapClaim(ClaimView { tag: READ_CLAIM_TAG@, grantor: author, secret }),
        ),
    ensures
        first_read_claim(claims_from(entries, author)) is Some,
{
    let c = ClaimView { tag: READ_CLAIM_TAG@, grantor: author, secret };
    lemma_claims_from_has(entries, author, i);
    let claims = claims_from(entries, author);
    let k = choose|k: int| 0 <= k < claims.len() && #[trigger] claims[k] == c;
    assert(is_read_claim_tag(c.tag));
    lemma_some_read_claim(claims, k);
}

/// An entry that is a claim to `poster`'s grant whose tag reads as the
/// read-claim tag.
pub open spec fn is_read_claim_of(entry: Option<ChainEntryView>, poster: Seq<u8>) -> bool {
    entry matches Some(ChainEntryView::CapClaim(c)) && c.grantor == poster && is_read_claim_tag(
        c.tag,
    )
}

/// The read claims to `poster`'s grants among the entries, in their order.
pub open spec fn read_claims_of(entries: Seq<Option<ChainEntryView>>, poster: Seq<u8>) -> Seq<
    ClaimView,
>
    decreases entries.len(),
{
    if entries.len() == 0 {
        Seq::empty()
    } else {
        let rest = read_claims_of(entries.drop_last(), poster);
        if is_read_claim_of(entries.last(), poster) {
            rest.push(entries.last()->Some_0->CapClaim_0)
        } else {
            rest
        }
    }
}

/// The first claim of a list, if any.
pub open spec fn first_of(claims: Seq<ClaimView>) -> Option<ClaimView> {
    if claims.len() > 0 {
        Some(claims[0])
    } else {
        None
    }
}

proof fn lemma_first_read_claim_push(claims: Seq<ClaimView>, c: ClaimView)
    ensures
        first_read_claim(claims.push(c)) == match first_read_claim(claims) {
            Some(x) => Some(x),
            None => if is_read_claim_tag(c.tag) {
                Some(c)
            } else {
                None
            },
        },
    decreases claims.len(),
{
    if claims.len() > 0 {
        assert(claims.push(c)[0] == claims[0]);
        assert(claims.push(c).drop_first() =~= claims.drop_first().push(c));
        lemma_first_read_claim_push(claims.drop_first(), c);
    } else {
        assert(claims.push(c)[0] == c);
        assert(claims.push(c).drop_first() =~= Seq::<ClaimView>::empty());
        assert(first_read_claim(Seq::<ClaimView>::empty()) is None);
    }
}

/// The claim used to read `poster`'s posts is the first read claim to
/// `poster`'s grants on the chain: no other entry (claims with another tag,
/// claims to other grantors, other entries, records without entries) plays
/// any part.
pub proof fn lemma_only_the_posters_read_claims_count(
    entries: Seq<Option<ChainEntryView>>,
    poster: Seq<u8>,
)
    ensures
        first_read_claim(claims_from(entries, poster)) == first_of(read_claims_of(entries, poster)),
    decreases entries.len(),
{
    if entries.len() > 0 {
        lemma_only_the_posters_read_claims_count(entries.drop_last(), poster);
        let rest = claims_from(entries.drop_last(), poster);
        if let Some(ChainEntryView::CapClaim(c)) = entries.last() {
            if c.grantor == poster {
                lemma_first_read_claim_push(rest, c);
            }
        }
    }
}

proof fn lemma_no_read_claims(entries: Seq<Option<ChainEntryView>>, poster: Seq<u8>)
    requires
        forall|j: int| 0 <= j < entries.len() ==> !is_read_claim_of(#[trigger] entries[j], poster),
    ensures
        read_claims_of(entries, poster).len() == 0,
    decreases entries.len(),
{
    if entries.len() > 0 {
        assert(!is_read_claim_of(entries[entries.len() - 1], poster));
        lemma_no_read_claims(entries.drop_last(), poster);
    }
}

proof fn lemma_read_claims_start_at(entries: Seq<Option<ChainEntryView>>, poster: Seq<u8>, i: int)
    requires
        0 <= i < entries.len(),
        is_read_claim_of(entries[i], poster),
        forall|j: int| 0 <= j < i ==> !is_read_claim_of(#[trigger] entries[j], poster),
    ensures
        read_claims_of(entries, poster).len() > 0,
        read_claims_of(entries, poster)[0] == entries[i]->Some_0->CapClaim_0,
    decreases entries.len(),
{
    let front = entries.drop_last();
    if i == entries.len() - 1 {
        assert forall|j: int| 0 <= j < front.len() implies !is_read_claim_of(
            #[trigger] front[j],
            poster,
        ) by {
            assert(front[j] == entries[j]);
        }
        lemma_no_read_claims(front, poster);
    } else {
        assert(front[i] == entries[i]);
        assert forall|j: int| 0 <= j < i implies !is_read_claim_of(#[trigger] front[j], poster) by {
            assert(front[j] == entries[j]);
        }
        lemma_read_claims_start_at(front, poster, i);
    }
}

/// Once a reader has stored the claim to an author's grant (as
/// `store_capability_claim` writes it), and no earlier entry is a read
/// claim to that author's grant, reading that author's posts uses the
/// stored claim itself, with its secret.
pub proof fn lemma_stored_claim_is_used(
    entries: Seq<Option<ChainEntryView>>,
    author: Seq<u8>,
    secret: Seq<u8>,
    i: int,
)
    requires
        0 <= i < entries.len(),
        entries[i] == Some(
            ChainEntryView::CapClaim(ClaimView { tag: READ_CLAIM_TAG@, grantor: author, secret }),
        ),
        forall|j: int| 0 <= j < i ==> !is_read_claim_of(#[trigger] entries[j], author),
    ensures
        first_read_claim(claims_from(entries, author)) == Some(
            ClaimView { tag: READ_CLAIM_TAG@, grantor: author, secret },
        ),
{
    assert(is_read_claim_tag(READ_CLAIM_TAG@));
    lemma_only_the_posters_read_claims_count(entries, author);
    lemma_read_claims_start_at(entries, author, i);
}

proof fn lemma_claims_from_are_the_grantors(entries: Seq<Option<ChainEntryView>>, grantor: Seq<u8>)
    ensures
        forall|k: int|
            0 <= k < claims_from(entries, grantor).len() ==> (#[trigger] claims_from(
                entries,
                grantor,
            )[k]).grantor == grantor,
    decreases entries.len(),
{
    if entries.len() > 0 {
        let rest = claims_from(entries.drop_last(), grantor);
        lemma_claims_from_are_the_grantors(entries.drop_last(), grantor);
        assert forall|k: int| 0 <= k < claims_from(entries, grantor).len() implies (
        #[trigger] claims_from(entries, grantor)[k]).grantor == grantor by {
            if k < rest.len() {
                assert(claims_from(entries, grantor)[k] == rest[k]);
            }
        }
    }
}

proof fn lemma_first_read_claim_is_one_of(claims: Seq<ClaimView>)
    ensures
        first_read_claim(claims) matches Some(c) ==> is_read_claim_tag(c.tag) && exists|k: int|
            0 <= k < claims.len() && #[trigger] claims[k] == c,
    decreases claims.len(),
{
    if claims.len() > 0 && !is_read_claim_tag(claims[0].tag) {
        lemma_first_read_claim_is_one_of(claims.drop_first());
        if let Some(c) = first_read_claim(claims) {
            let k = choose|k: int| 0 <= k < claims.drop_first().len() && #[trigger] claims.drop_first()[k] == c;
            assert(claims[k + 1] == c);
        }
    } else if claims.len() > 0 {
        assert(claims[0] == claims[0]);
    }
}

/// The claim used to read `poster`'s posts is a claim to `poster`'s grant
/// whose tag reads as the read-claim tag.
pub proof fn lemma_used_claim_is_for_the_poster(entries: Seq<Option<ChainEntryView>>, poster: Seq<u8>)
    ensures
        first_read_claim(claims_from(entries, poster)) matches Some(c) ==> c.grantor == poster
            && is_read_claim_tag(c.tag),
{
    lemma_claims_from_are_the_grantors(entries, poster);
    lemma_first_read_claim_is_one_of(claims_from(entries, poster));
}

/// Where a zome call goes: to another agent's cell of this DNA
/// (`call_remote`), or to the caller's own cell of another DNA.
#[derive(Debug, Clone, PartialEq, Eq)]
pub enum CallTarget {
    Agent(AgentPubKey),
    OwnCell(DnaHash),
}

pub enum CallTargetView {
    Agent(Seq<u8>),
    OwnCell(Seq<u8>),
}

/// A zome call with the unit payload.
#[derive(Debug, Clone, PartialEq, Eq)]
pub struct ZomeCall {
    pub target: CallTarget,
    pub zome: String,
    pub function: String,
    pub cap_secret: Option<CapSecret>,
}

pub struct ZomeCallView {
    pub target: CallTargetView,
    pub zome: Seq<char>,
    pub function: Seq<char>,
    pub cap_secret: Option<Seq<u8>>,
}

impl View for ZomeCall {
    type V = ZomeCallView;

    open spec fn view(&self) -> ZomeCallView {
        ZomeCallView {
            target: match self.target {
                CallTarget::Agent(a) => CallTargetView::Agent(a@),
                CallTarget::OwnCell(d) => CallTargetView::OwnCell(d@),
            },
            zome: self.zome@,
            function: self.function@,
            cap_secret: match self.cap_secret {
                Some(s) => Some(s@),
                None => None,
            },
        }
    }
}

/// The call that asks the grantor of `claim` for the posts: the read
/// function of this zome (named `zome_name`) on the grantor's cell, with
/// the claim's secret.
pub fn read_posts_call(claim: &CapClaim, zome_name: String) -> (r: ZomeCall)
    ensures
        r@ == (ZomeCallView {
            target: CallTargetView::Agent(claim.grantor@),
            zome: zome_name@,
            function: READ_POSTS_FUNCTION@,
            cap_secret: Some(claim.secret@),
        }),
{
    ZomeCall {
        target: CallTarget::Agent(claim.grantor.duplicate()),
        zome: zome_name,
        function: READ_POSTS_FUNCTION.to_string(),
        cap_secret: Some(claim.secret.duplicate()),
    }
}

/// The call that fetches the posts of the publication `dna`: the posts
/// zome's function for all posts, on the caller's own cell of that DNA,
/// with no secret.
pub fn all_posts_call(dna: DnaHash) -> (r: ZomeCall)
    ensures
        r@ == (ZomeCallView {
            target: CallTargetView::OwnCell(dna@),
            zome: POSTS_ZOME@,
            function: GET_ALL_POSTS@,
            cap_secret: None,
        }),
{
    ZomeCall {
        target: CallTarget::OwnCell(dna),
        zome: POSTS_ZOME.to_string(),
        function: GET_ALL_POSTS.to_string(),
        cap_secret: None,
    }
}

/// The answer to a zome call: its encoded result, or why there is none.
#[derive(Debug, Clone, PartialEq, Eq)]
pub enum ZomeCallResponse {
    Success(Vec<u8>),
    Unauthorized,
    NetworkError(String),
    CountersigningSession(String),
}

/// The text that `format!("{:?}", s)` writes for a string (std's `Debug`).
pub uninterp spec fn debug_text(s: Seq<char>) -> Seq<char>;

/// `format!("{:?}", s)`: std's `Debug` of a `String`. The result is the
/// named text of `s`; how `Debug` quotes and escapes is left unsaid.
#[verifier::external_body]
fn debug_string(s: &String) -> (r: String)
    ensures
        r@ == debug_text(s@),
{
    format!("{:?}", s)
}

/// The posts that a posts call answered with: holochain records, which
/// the rules never look into. Verus cannot read holochain's record type
/// (it is bound by an outside trait), so the list is held here unread.
#[verifier::external_body]
pub struct Posts {
    pub records: Vec<Record>,
}

/// What `ExternIO::decode` makes of these bytes as a list of records: the
/// posts, or the error it gives.
pub uninterp spec fn decoded_posts(bytes: Seq<u8>) -> Result<Posts, SerializedBytesError>;

/// `ExternIO::decode` into a list of records (holochain_integrity_types,
/// through `holochain_serialized_bytes::decode`). The result is the named
/// decoding of the bytes, error included.
#[verifier::external_body]
fn decode_records(bytes: Vec<u8>) -> (r: Result<Posts, SerializedBytesError>)
    ensures
        r == decoded_posts(bytes@),
{
    match ExternIO(bytes).decode() {
        Ok(records) => Ok(Posts { records }),
        Err(e) => Err(e),
    }
}

/// What an answer to the posts call means: the posts that its result
/// decodes to, or the failure to report.
pub fn posts_response<E>(response: ZomeCallResponse) -> (r: Result<Posts, ExternError<E>>)
    ensures
        match response {
            ZomeCallResponse::Success(bytes) => match decoded_posts(bytes@) {
                Ok(posts) => r == Ok::<Posts, ExternError<E>>(posts),
                Err(e) => failure_view(r) == Err::<Posts, Failure<E>>(Failure::Undecodable(e)),
            },
            ZomeCallResponse::NetworkError(err) => failure_view(r) == Err::<Posts, Failure<E>>(
                Failure::Guest(NETWORK_ERROR@ + debug_text(err@)),
            ),
            _ => failure_view(r) == Err::<Posts, Failure<E>>(Failure::Guest(REMOTE_CALL_FAILED@)),
        },
{
    match response {
        ZomeCallResponse::Success(bytes) => match decode_records(bytes) {
            Ok(posts) => Ok(posts),
            Err(e) => Err(ExternError::Undecodable(e)),
        },
        ZomeCallResponse::NetworkError(err) => {
            let shown = debug_string(&err);
            let message = NETWORK_ERROR.to_string().concat(shown.as_str());
            Err(ExternError::Guest(message))
        },
        _ => Err(guest_error(REMOTE_CALL_FAILED)),
    }
}

/// The part of a zome call's capability grant that the read function looks
/// at: the tag of a grant to another agent.
#[derive(Debug, Clone, PartialEq, Eq)]
pub enum CapGrant {
    ChainAuthor(AgentPubKey),
    RemoteAgent { tag: String },
}

/// Whether the read function can take the grant's tag as text without
/// panicking: holo_hash cuts the text after its first byte.
pub open spec fn readable_grant(grant: CapGrant) -> bool {
    grant matches CapGrant::RemoteAgent { tag } ==> tag@.len() > 0 && (tag@[0] as u32) < 128
}

/// The DNA whose posts the read function fetches: the one whose hash is the
/// tag of the grant the caller used. The chain's own author has no grant
/// tag to go by. A tag that `grant_capability_to_read` wrote for a DNA hash
/// (whose location bytes are those of its digest, as in every hash that
/// holochain makes) reads back as that very hash: that function ensures
/// the tag parses to the hash, and this one returns what the tag parses to.
pub fn posts_source_dna<E>(grant: &CapGrant) -> (r: Result<DnaHash, ExternError<E>>)
    requires
        readable_grant(*grant),
    ensures
        grant matches CapGrant::ChainAuthor(_) ==> failure_view(r) == Err::<DnaHash, Failure<E>>(
            Failure::Guest(REMOTE_CALL_FAILED@),
        ),
        grant matches CapGrant::RemoteAgent { tag } ==> match holo_hash_dna_parse(tag@) {
            Some(raw) => r matches Ok(h) && h@ == raw,
            None => failure_view(r) == Err::<DnaHash, Failure<E>>(Failure::Guest(BAD_GRANT_TAG@)),
        },

{
    match grant {
        CapGrant::ChainAuthor(_) => Err(guest_error(REMOTE_CALL_FAILED)),
        CapGrant::RemoteAgent { tag } => match dna_hash_from_b64(tag.as_str()) {
            Ok(raw) => Ok(DnaHash { raw }),
            Err(_) => Err(guest_error(BAD_GRANT_TAG)),
        },
    }
}

/// The membrane proof record that the first link from the caller's key
/// points to, if it points to a record at all.
pub fn membrane_proof_target(targets: &Vec<AnyLinkableHash>) -> (r: Option<ActionHash>)
    requires
        targets@.len() > 0 ==> targets@[0]@.len() == HASH_LEN,
    ensures
        targets@.len() == 0 ==> r is None,
        targets@.len() > 0 ==> (r is Some) == (prefix_of(targets@[0]@) == action_prefix()),
        r matches Some(h) ==> h@ == targets@[0]@,
{
    if targets.len() == 0 {
        return None;
    }
    targets[0].into_action_hash()
}

} // verus!
