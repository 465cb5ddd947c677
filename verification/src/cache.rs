//! The checksum cache: a concurrent, insert-only mapping from the content
//! hash of a light-client code blob to the implementation the blob was
//! parsed to declare.
//!
//! The mapping is a pure function of its key, so entries are permanent:
//! once a checksum has resolved to a type, every later lookup returns the
//! cached value without another chain query, and a failed resolution is
//! never cached, so later lookups are free to retry.
//!
//! The map itself is `dashmap`'s concurrent hash map, held behind trusted
//! wrappers; keys are the 32 checksum bytes packed into four words, values
//! the numeric code of the implementation tag.

use vstd::prelude::*;

use dashmap::DashMap;

use crate::ids::{WasmClientType, H256, HASH_LEN};

verus! {

#[verifier::external_type_specification]
#[verifier::external_body]
#[verifier::reject_recursive_types(K)]
#[verifier::reject_recursive_types(V)]
#[verifier::reject_recursive_types(S)]
pub struct ExDashMap<K, V, S>(DashMap<K, V, S>);

/// A checksum's 32 bytes, packed big-endian into four words.
pub type ChecksumKey = (u64, u64, u64, u64);

/// The concurrent map a cache holds.
pub type CacheMap = DashMap<ChecksumKey, u64>;

/// What a cache map holds: the key-value pairs present in it.
pub uninterp spec fn cache_contents(m: CacheMap) -> Map<ChecksumKey, u64>;

/// Relies on dashmap::DashMap::new: creates an empty map.
#[verifier::external_body]
fn dashmap_new() -> (r: CacheMap)
    ensures
        forall|k: ChecksumKey| !cache_contents(r).dom().contains(k),
{
    DashMap::new()
}

/// Relies on dashmap::DashMap::get: returns the value stored under an
/// equal key, or nothing when no entry has one.
#[verifier::external_body]
fn dashmap_get(m: &CacheMap, key: ChecksumKey) -> (r: Option<u64>)
    ensures
        r == if cache_contents(*m).dom().contains(key) {
            Some(cache_contents(*m)[key])
        } else {
            None::<u64>
        },
{
    m.get(&key).map(|v| *v)
}

/// Relies on dashmap::DashMap::insert: maps the key to the value,
/// replacing any entry an equal key had.
#[verifier::external_body]
fn dashmap_insert(m: &mut CacheMap, key: ChecksumKey, value: u64)
    ensures
        cache_contents(*final(m)) == cache_contents(*old(m)).insert(key, value),
{
    m.insert(key, value);
}

/// One 8-byte window of a checksum, packed big-endian into a word.
pub open spec fn word_of(bytes: Seq<u8>, i: int) -> u64 {
    ((bytes[i] as u64) << 56) | ((bytes[i + 1] as u64) << 48) | ((bytes[i + 2] as u64) << 40) | ((
    bytes[i + 3] as u64) << 32) | ((bytes[i + 4] as u64) << 24) | ((bytes[i + 5] as u64) << 16) | ((
    bytes[i + 6] as u64) << 8) | (bytes[i + 7] as u64)
}

/// The cache key of a 32-byte checksum: its bytes packed into four words.
pub open spec fn key_of(bytes: Seq<u8>) -> ChecksumKey {
    (word_of(bytes, 0), word_of(bytes, 8), word_of(bytes, 16), word_of(bytes, 24))
}

/// Big-endian packing of eight bytes into a word loses nothing.
proof fn lemma_word_packing_injective(
    x0: u8, x1: u8, x2: u8, x3: u8, x4: u8, x5: u8, x6: u8, x7: u8,
    y0: u8, y1: u8, y2: u8, y3: u8, y4: u8, y5: u8, y6: u8, y7: u8,
)
    requires
        ((x0 as u64) << 56) | ((x1 as u64) << 48) | ((x2 as u64) << 40) | ((x3 as u64) << 32) | ((
        x4 as u64) << 24) | ((x5 as u64) << 16) | ((x6 as u64) << 8) | (x7 as u64) == ((y0
            as u64) << 56) | ((y1 as u64) << 48) | ((y2 as u64) << 40) | ((y3 as u64) << 32) | ((y4
            as u64) << 24) | ((y5 as u64) << 16) | ((y6 as u64) << 8) | (y7 as u64),
    ensures
        x0 == y0 && x1 == y1 && x2 == y2 && x3 == y3 && x4 == y4 && x5 == y5 && x6 == y6 && x7
            == y7,
{
    assert(((x0 as u64) << 56) | ((x1 as u64) << 48) | ((x2 as u64) << 40) | ((x3 as u64) << 32)
        | ((x4 as u64) << 24) | ((x5 as u64) << 16) | ((x6 as u64) << 8) | (x7 as u64) == ((y0
        as u64) << 56) | ((y1 as u64) << 48) | ((y2 as u64) << 40) | ((y3 as u64) << 32) | ((y4
        as u64) << 24) | ((y5 as u64) << 16) | ((y6 as u64) << 8) | (y7 as u64) ==> x0 == y0 && x1
        == y1 && x2 == y2 && x3 == y3 && x4 == y4 && x5 == y5 && x6 == y6 && x7 == y7)
        by (bit_vector);
}

/// Two 32-byte checksums with the same cache key are the same checksum:
/// the packing is injective, so distinct checksums never share an entry.
pub proof fn lemma_key_of_injective(a: Seq<u8>, b: Seq<u8>)
    requires
        a.len() == HASH_LEN,
        b.len() == HASH_LEN,
        key_of(a) == key_of(b),
    ensures
        a == b,
{
    assert(word_of(a, 0) == word_of(b, 0));
    lemma_word_packing_injective(
        a[0], a[1], a[2], a[3], a[4], a[5], a[6], a[7],
        b[0], b[1], b[2], b[3], b[4], b[5], b[6], b[7],
    );
    assert(word_of(a, 8) == word_of(b, 8));
    lemma_word_packing_injective(
        a[8], a[9], a[10], a[11], a[12], a[13], a[14], a[15],
        b[8], b[9], b[10], b[11], b[12], b[13], b[14], b[15],
    );
    assert(word_of(a, 16) == word_of(b, 16));
    lemma_word_packing_injective(
        a[16], a[17], a[18], a[19], a[20], a[21], a[22], a[23],
        b[16], b[17], b[18], b[19], b[20], b[21], b[22], b[23],
    );
    assert(word_of(a, 24) == word_of(b, 24));
    lemma_word_packing_injective(
        a[24], a[25], a[26], a[27], a[28], a[29], a[30], a[31],
        b[24], b[25], b[26], b[27], b[28], b[29], b[30], b[31],
    );
    assert(a =~= b);
}

/// The cache key of a checksum, computed from its bytes.
pub fn checksum_key(h: &H256) -> (k: ChecksumKey)
    requires
        h.wf(),
    ensures
        k == key_of(h@),
{
    let w0 = pack_word(h, 0);
    let w1 = pack_word(h, 8);
    let w2 = pack_word(h, 16);
    let w3 = pack_word(h, 24);
    (w0, w1, w2, w3)
}

/// One word of the cache key, packed from eight checksum bytes.
fn pack_word(h: &H256, i: usize) -> (w: u64)
    requires
        h.wf(),
        i + 8 <= h@.len(),
    ensures
        w == word_of(h@, i as int),
{
    ((h.byte_at(i) as u64) << 56) | ((h.byte_at(i + 1) as u64) << 48) | ((h.byte_at(i + 2)
        as u64) << 40) | ((h.byte_at(i + 3) as u64) << 32) | ((h.byte_at(i + 4) as u64) << 24) | ((
    h.byte_at(i + 5) as u64) << 16) | ((h.byte_at(i + 6) as u64) << 8) | (h.byte_at(i + 7) as u64)
}

/// The implementation tag a cache holding `m` answers for a checksum: the
/// decoded entry under the checksum's key, if one is present.
pub open spec fn spec_lookup(m: Map<ChecksumKey, u64>, bytes: Seq<u8>) -> Option<WasmClientType> {
    if m.dom().contains(key_of(bytes)) {
        WasmClientType::spec_from_code(m[key_of(bytes)])
    } else {
        None
    }
}

/// The checksum cache: an injected, shared, insert-only resource. A fresh
/// empty cache can be made per plugin instance (or per test).
pub struct ChecksumCache {
    map: CacheMap,
}

impl View for ChecksumCache {
    type V = Map<ChecksumKey, u64>;

    closed spec fn view(&self) -> Map<ChecksumKey, u64> {
        cache_contents(self.map)
    }
}

impl ChecksumCache {
    /// Every stored value is the code of some implementation tag.
    pub open spec fn wf(&self) -> bool {
        forall|k: ChecksumKey| #[trigger]
            self@.dom().contains(k) ==> WasmClientType::spec_from_code(self@[k]) is Some
    }

    /// A fresh, empty cache.
    pub fn new() -> (c: ChecksumCache)
        ensures
            c@ == Map::<ChecksumKey, u64>::empty(),
            c.wf(),
    {
        let map = dashmap_new();
        proof {
            assert(cache_contents(map) =~= Map::<ChecksumKey, u64>::empty());
        }
        ChecksumCache { map }
    }

    /// Look a checksum up. Answers exactly what the cache holds for it:
    /// the type it once resolved to, or nothing when it never resolved.
    pub fn lookup(&self, checksum: &H256) -> (r: Option<WasmClientType>)
        requires
            checksum.wf(),
            self.wf(),
        ensures
            r == spec_lookup(self@, checksum@),
    {
        let key = checksum_key(checksum);
        match dashmap_get(&self.map, key) {
            Some(code) => WasmClientType::from_code(code),
            None => None,
        }
    }

    /// Record a successful resolution: the checksum's entry now holds the
    /// type's code, and nothing else changed.
    pub fn record(&mut self, checksum: &H256, ty: WasmClientType)
        requires
            checksum.wf(),
            old(self).wf(),
        ensures
            final(self)@ == old(self)@.insert(key_of(checksum@), ty.spec_code()),
            final(self).wf(),
    {
        let key = checksum_key(checksum);
        dashmap_insert(&mut self.map, key, ty.code());
    }
}

/// Once a checksum has resolved to a type and the resolution was recorded,
/// looking the same checksum up answers exactly that type, with no further
/// chain query needed.
pub proof fn lemma_cache_resolution_persists(
    m: Map<ChecksumKey, u64>,
    checksum: Seq<u8>,
    ty: WasmClientType,
)
    ensures
        spec_lookup(m.insert(key_of(checksum), ty.spec_code()), checksum) == Some(ty),
{
}

/// Recording one checksum's resolution leaves every other checksum's
/// answer untouched: distinct checksums never share a cache entry.
pub proof fn lemma_cache_other_checksums_untouched(
    m: Map<ChecksumKey, u64>,
    recorded: Seq<u8>,
    other: Seq<u8>,
    ty: WasmClientType,
)
    requires
        recorded.len() == HASH_LEN,
        other.len() == HASH_LEN,
        other != recorded,
    ensures
        spec_lookup(m.insert(key_of(recorded), ty.spec_code()), other) == spec_lookup(m, other),
{
    if key_of(recorded) == key_of(other) {
        lemma_key_of_injective(recorded, other);
    }
}

} // verus!
