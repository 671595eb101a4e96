//! Holo hashes as the rules read them: the raw 39 bytes (3 bytes of type
//! prefix, 32 bytes of digest, 4 bytes of DHT location), compared byte for
//! byte, plus the few conversions that holo_hash performs on them.

use vstd::prelude::*;
use hdi::prelude::holo_hash::error::HoloHashError;
use hdi::prelude::holo_hash::{ActionHash as HdiActionHash, AnyLinkableHash as HdiLinkableHash};
use hdi::prelude::holo_hash::{DnaHash as HdiDnaHash, DnaHashB64};

verus! {

/// The length of a raw holo hash.
pub const HASH_LEN: usize = 39;

/// Type prefix of a DNA hash (`uhC0k`).
pub open spec fn dna_prefix() -> Seq<u8> {
    seq![0x84u8, 0x2du8, 0x24u8]
}

/// Type prefix of an action hash (`uhCkk`).
pub open spec fn action_prefix() -> Seq<u8> {
    seq![0x84u8, 0x29u8, 0x24u8]
}

/// The type prefix of raw hash bytes.
pub open spec fn prefix_of(raw: Seq<u8>) -> Seq<u8> {
    raw.subrange(0, 3)
}

/// Raw bytes that holo_hash accepts as a hash of the given type.
pub open spec fn well_typed(raw: Seq<u8>, prefix: Seq<u8>) -> bool {
    raw.len() == HASH_LEN && prefix_of(raw) == prefix
}

/// The public key of an agent.
#[derive(Debug, Clone, PartialEq, Eq)]
pub struct AgentPubKey {
    pub raw: Vec<u8>,
}

/// The hash of a DNA.
#[derive(Debug, Clone, PartialEq, Eq)]
pub struct DnaHash {
    pub raw: Vec<u8>,
}

/// The hash of an entry.
#[derive(Debug, Clone, PartialEq, Eq)]
pub struct EntryHash {
    pub raw: Vec<u8>,
}

/// The hash of an action.
#[derive(Debug, Clone, PartialEq, Eq)]
pub struct ActionHash {
    pub raw: Vec<u8>,
}

/// A hash that a link may point to or from.
#[derive(Debug, Clone, PartialEq, Eq)]
pub struct AnyLinkableHash {
    pub raw: Vec<u8>,
}

impl View for AgentPubKey {
    type V = Seq<u8>;

    open spec fn view(&self) -> Seq<u8> {
        self.raw@
    }
}

impl View for DnaHash {
    type V = Seq<u8>;

    open spec fn view(&self) -> Seq<u8> {
        self.raw@
    }
}

impl View for EntryHash {
    type V = Seq<u8>;

    open spec fn view(&self) -> Seq<u8> {
        self.raw@
    }
}

impl View for ActionHash {
    type V = Seq<u8>;

    open spec fn view(&self) -> Seq<u8> {
        self.raw@
    }
}

impl View for AnyLinkableHash {
    type V = Seq<u8>;

    open spec fn view(&self) -> Seq<u8> {
        self.raw@
    }
}

/// Byte-for-byte equality, which is what the derived equality of a holo
/// hash compares.
pub fn bytes_equal(a: &Vec<u8>, b: &Vec<u8>) -> (r: bool)
    ensures
        r == (a@ == b@),
{
    if a.len() != b.len() {
        return false;
    }
    let n = a.len();
    for i in 0..n
        invariant
            n == a@.len(),
            n == b@.len(),
            forall|j: int| 0 <= j < i ==> a@[j] == b@[j],
    {
        if a[i] != b[i] {
            return false;
        }
    }
    assert(a@ =~= b@);
    true
}

/// A copy of raw hash bytes.
pub fn copy_bytes(a: &Vec<u8>) -> (r: Vec<u8>)
    ensures
        r@ == a@,
{
    let r = a.clone();
    assert(r@ =~= a@);
    r
}

impl AgentPubKey {
    pub fn same_as(&self, other: &AgentPubKey) -> (r: bool)
        ensures
            r == (self@ == other@),
    {
        bytes_equal(&self.raw, &other.raw)
    }

    pub fn duplicate(&self) -> (r: AgentPubKey)
        ensures
            r@ == self@,
    {
        AgentPubKey { raw: copy_bytes(&self.raw) }
    }
}

impl DnaHash {
    pub fn same_as(&self, other: &DnaHash) -> (r: bool)
        ensures
            r == (self@ == other@),
    {
        bytes_equal(&self.raw, &other.raw)
    }

    pub fn duplicate(&self) -> (r: DnaHash)
        ensures
            r@ == self@,
    {
        DnaHash { raw: copy_bytes(&self.raw) }
    }
}

impl EntryHash {
    pub fn same_as(&self, other: &EntryHash) -> (r: bool)
        ensures
            r == (self@ == other@),
    {
        bytes_equal(&self.raw, &other.raw)
    }

    pub fn duplicate(&self) -> (r: EntryHash)
        ensures
            r@ == self@,
    {
        EntryHash { raw: copy_bytes(&self.raw) }
    }
}

/// The text form of a hash: what the `Display` of holo_hash's
/// `DnaHashB64` writes for these raw bytes.
pub uninterp spec fn holo_hash_text(raw: Seq<u8>) -> Seq<char>;

/// What holo_hash's `DnaHashB64::from_b64_str` reads from this text, as raw
/// bytes, or `None` where it refuses it.
pub uninterp spec fn holo_hash_dna_parse(text: Seq<char>) -> Option<Seq<u8>>;

/// The 4 DHT location bytes that holo_hash's `holo_dht_location_bytes`
/// computes from the 32 bytes of a digest.
pub uninterp spec fn holo_dht_location(core: Seq<u8>) -> Seq<u8>;

/// Raw hash bytes whose last 4 bytes are the location of their digest, as
/// holo_hash computes every hash it makes.
pub open spec fn well_located(raw: Seq<u8>) -> bool {
    raw.subrange(35, 39) == holo_dht_location(raw.subrange(3, 35))
}

/// The location of a digest: `holo_dht_location_bytes` (holo_hash), which
/// computes 4 bytes from 32. It asserts that it gets 32 bytes, hence the
/// `requires`.
#[verifier::external_body]
pub(crate) fn dht_location(core: &Vec<u8>) -> (r: Vec<u8>)
    requires
        core@.len() == 32,
    ensures
        r@ == holo_dht_location(core@),
        r@.len() == 4,
{
    hdi::prelude::holo_hash::encode::holo_dht_location_bytes(core)
}

/// Whether a DNA hash's last 4 bytes are the location of its digest, as in
/// every hash that holo_hash makes; for such a hash, the text written for it
/// reads back as the hash.
pub fn dna_hash_is_well_located(hash: &DnaHash) -> (r: bool)
    requires
        hash@.len() == HASH_LEN,
    ensures
        r == well_located(hash@),
{
    let mut core: Vec<u8> = Vec::new();
    for i in 3..35
        invariant
            hash@.len() == HASH_LEN,
            core@ =~= hash@.subrange(3, i as int),
    {
        core.push(hash.raw[i]);
    }
    let location = dht_location(&core);
    let mut same = true;
    for j in 0..4
        invariant
            hash@.len() == HASH_LEN,
            location@.len() == 4,
            same == (forall|k: int| 0 <= k < j ==> location@[k] == hash@[35 + k]),
    {
        if location[j] != hash.raw[35 + j] {
            same = false;
        }
    }
    proof {
        if same {
            assert(hash@.subrange(35, 39) =~= location@);
        } else {
            let k = choose|k: int| 0 <= k < 4 && location@[k] != hash@[35 + k];
            assert(hash@.subrange(35, 39)[k] != location@[k]);
        }
    }
    same
}

/// Declares holo_hash's error type, which the parse below returns.
#[verifier::external_type_specification]
#[verifier::external_body]
pub struct ExHoloHashError(HoloHashError);

/// Writes a DNA hash in text: `DnaHash::from_raw_39_panicky` then the
/// `Display` of `DnaHashB64` (holo_hash). The result is the named text of
/// the bytes; it starts with `u`, as holo_hash_encode writes `u` and then
/// URL-safe base64. Where the hash's location bytes are those of its
/// digest, the text reads back as the hash: `holo_hash_decode_unchecked`
/// undoes the `u` and the base64, its size and location checks pass, and
/// `from_raw_39` takes the DNA prefix. `from_raw_39_panicky` panics on
/// bytes that are not a DNA hash, hence the `requires`.
#[verifier::external_body]
pub(crate) fn dna_hash_b64_text(raw: &Vec<u8>) -> (text: String)
    requires
        well_typed(raw@, dna_prefix()),
    ensures
        text@ == holo_hash_text(raw@),
        text@.len() > 0,
        text@[0] == 'u',
        raw@.subrange(35, 39) == holo_dht_location(raw@.subrange(3, 35)) ==> holo_hash_dna_parse(
            text@,
        ) == Some(raw@),
{
    DnaHashB64::from(HdiDnaHash::from_raw_39_panicky(raw.clone())).to_string()
}

/// Reads a DNA hash from text: `DnaHashB64::from_b64_str` (holo_hash), then
/// the raw bytes of the hash. The result is the named parse of the text;
/// what it accepts is 39 bytes with the DNA prefix
/// (`holo_hash_decode_unchecked` checks the size, `from_raw_39` the prefix).
/// It slices the text at byte 1 first, which panics on an empty text or one
/// whose first character is not ASCII, hence the `requires`.
#[verifier::external_body]
pub(crate) fn dna_hash_from_b64(text: &str) -> (r: Result<Vec<u8>, HoloHashError>)
    requires
        text@.len() > 0,
        (text@[0] as u32) < 128,
    ensures
        r is Ok <==> holo_hash_dna_parse(text@) is Some,
        r matches Ok(raw) ==> Some(raw@) == holo_hash_dna_parse(text@) && well_typed(raw@, dna_prefix()),
{
    match DnaHashB64::from_b64_str(text) {
        Ok(h) => Ok(HdiDnaHash::from(h).into_inner()),
        Err(e) => Err(e),
    }
}

/// `AnyLinkableHash::from_raw_39` then `into_action_hash` (holo_hash), as
/// raw bytes. A hash comes back exactly when the bytes carry the action
/// prefix, and then with the same bytes (the retyping writes the same
/// prefix back). `from_raw_39` asserts the
/// length in debug builds, hence the `requires`.
#[verifier::external_body]
pub(crate) fn linkable_into_action_hash(raw: &Vec<u8>) -> (r: Option<Vec<u8>>)
    requires
        raw@.len() == HASH_LEN,
    ensures
        (r is Some) == (prefix_of(raw@) == action_prefix()),
        r matches Some(a) ==> a@ == raw@,
{
    match HdiLinkableHash::from_raw_39(raw.clone()) {
        Ok(h) => match h.into_action_hash() {
            Some(a) => Some(HdiActionHash::into_inner(a)),
            None => None,
        },
        Err(_) => None,
    }
}

impl AnyLinkableHash {
    /// The action hash that this hash is, if it is one
    /// (`AnyLinkableHash::into_action_hash`).
    pub fn into_action_hash(&self) -> (r: Option<ActionHash>)
        requires
            self@.len() == HASH_LEN,
        ensures
            (r is Some) == (prefix_of(self@) == action_prefix()),
            r matches Some(a) ==> a@ == self@,
    {
        match linkable_into_action_hash(&self.raw) {
            Some(raw) => Some(ActionHash { raw }),
            None => None,
        }
    }
}

} // verus!
