//! The glyph cache.
//!
//! Records are kept in the order in which they were rasterized, and a
//! record's position in that order is its slot.  A slot never changes and is
//! never given to another record, so it names the record's texture for as
//! long as the cache lives.  Nothing is ever evicted.

use std::collections::HashMap;
use vstd::prelude::*;
use vstd::std_specs::hash::*;
use crate::error::TextError;
use crate::glyph::{code_of, lemma_code_is_injective, CacheKey, GlyphMetrics, GlyphRecord};

verus! {

broadcast use vstd::std_specs::hash::group_hash_axioms;

/// Rasterized glyphs by key.
pub struct GlyphCache {
    records: Vec<GlyphRecord>,
    /// Slot of each record, by the code of its key.
    index: HashMap<u128, usize>,
}

/// No two records have the same key.
pub open spec fn keys_distinct(records: Seq<GlyphRecord>) -> bool {
    forall|i: int, j: int|
        0 <= i < records.len() && 0 <= j < records.len() && i != j ==> (#[trigger] records[i]).key
            != (#[trigger] records[j]).key
}

/// Some record has this key.
pub open spec fn has_key(records: Seq<GlyphRecord>, key: CacheKey) -> bool {
    exists|i: int| 0 <= i < records.len() && (#[trigger] records[i]).key == key
}

/// The slot of the record with this key, where there is one.
pub open spec fn slot_of(records: Seq<GlyphRecord>, key: CacheKey) -> int {
    choose|i: int| 0 <= i < records.len() && (#[trigger] records[i]).key == key
}

/// `later` holds every record of `earlier`, each in its old slot.
pub open spec fn extends(later: Seq<GlyphRecord>, earlier: Seq<GlyphRecord>) -> bool {
    earlier.len() <= later.len() && later.subrange(0, earlier.len() as int) == earlier
}

impl View for GlyphCache {
    type V = Seq<GlyphRecord>;

    /// The records, by slot.
    closed spec fn view(&self) -> Seq<GlyphRecord> {
        self.records@
    }
}

impl GlyphCache {
    /// The index maps the code of each record's key to the record's slot,
    /// and holds nothing else.
    pub closed spec fn index_agrees(&self) -> bool {
        &&& forall|c: u128| #[trigger]
            self.index@.contains_key(c) ==> self.index@[c] < self.records@.len() && code_of(
                self.records@[self.index@[c] as int].key,
            ) == c
        &&& forall|i: int|
            0 <= i < self.records@.len() ==> self.index@.contains_key(
                code_of((#[trigger] self.records@[i]).key) as u128,
            ) && self.index@[code_of(self.records@[i].key) as u128] == i
    }

    /// Every record is whole, and no key has two records.
    pub open spec fn wf(&self) -> bool {
        &&& self.index_agrees()
        &&& keys_distinct(self@)
        &&& forall|i: int| 0 <= i < self@.len() ==> (#[trigger] self@[i]).wf()
    }

    pub fn new() -> (r: GlyphCache)
        ensures
            r.wf(),
            r@ == Seq::<GlyphRecord>::empty(),
    {
        GlyphCache { records: Vec::new(), index: HashMap::new() }
    }

    /// Number of records.
    pub fn len(&self) -> (r: usize)
        ensures
            r == self@.len(),
    {
        self.records.len()
    }

    /// The slot of the record cached under `key`.
    pub fn find(&self, key: &CacheKey) -> (r: Option<usize>)
        requires
            self.wf(),
        ensures
            r is Some <==> has_key(self@, *key),
            r matches Some(slot) ==> slot < self@.len() && self@[slot as int].key == *key && slot
                == slot_of(self@, *key),
    {
        let code: u128 = key.code();
        match self.index.get(&code) {
            Some(slot) => {
                proof {
                    let found = self.records@[*slot as int];
                    lemma_code_is_injective(found.key, *key);
                    lemma_slot_is_unique(self@, *key, *slot as int);
                }
                Some(*slot)
            },
            None => {
                proof {
                    if has_key(self@, *key) {
                        let i = slot_of(self@, *key);
                        assert(self.index@.contains_key(code_of(self.records@[i].key) as u128));
                    }
                }
                None
            },
        }
    }

    /// The record cached under `key`.  The cache is not touched.
    pub fn get(&self, key: &CacheKey) -> (r: Option<&GlyphRecord>)
        requires
            self.wf(),
        ensures
            r is Some <==> has_key(self@, *key),
            r matches Some(record) ==> *record == self@[slot_of(self@, *key)] && record.key == *key
                && record.wf(),
    {
        match self.find(key) {
            Some(slot) => Some(&self.records[slot]),
            None => None,
        }
    }

    /// The record in `slot`.
    pub fn record(&self, slot: usize) -> (r: Option<&GlyphRecord>)
        requires
            self.wf(),
        ensures
            r is Some <==> slot < self@.len(),
            r matches Some(record) ==> *record == self@[slot as int] && record.wf(),
    {
        if slot < self.records.len() {
            Some(&self.records[slot])
        } else {
            None
        }
    }

    /// The metrics of the record in `slot`.
    pub fn metrics_at(&self, slot: usize) -> (r: GlyphMetrics)
        requires
            slot < self@.len(),
        ensures
            r == self@[slot as int].metrics,
    {
        self.records[slot].metrics
    }

    /// Caches a rasterized glyph under `key` and gives its slot.
    ///
    /// Where the key already has a record, that record stays, the new one
    /// is dropped and the old slot is given: a key is rasterized once.  A
    /// coverage that does not hold one byte per pixel is refused.
    pub fn insert(&mut self, key: CacheKey, metrics: GlyphMetrics, coverage: Vec<u8>) -> (r: Result<
        usize,
        TextError,
    >)
        requires
            old(self).wf(),
        ensures
            final(self).wf(),
            extends(final(self)@, old(self)@),
            r is Ok <==> has_key(old(self)@, key) || coverage@.len() == metrics.width
                * metrics.height,
            r is Err ==> r == Err::<usize, TextError>(TextError::MalformedBitmap) && final(self)@
                == old(self)@,
            r matches Ok(slot) ==> {
                &&& slot < final(self)@.len()
                &&& final(self)@[slot as int].key == key
                &&& slot == slot_of(final(self)@, key)
                &&& has_key(old(self)@, key) ==> final(self)@ == old(self)@
                &&& !has_key(old(self)@, key) ==> final(self)@ == old(self)@.push(
                    GlyphRecord { key, metrics, coverage },
                )
            },
    {
        if let Some(slot) = self.find(&key) {
            assert(self@.subrange(0, self@.len() as int) =~= self@);
            return Ok(slot);
        }
        assert(metrics.width * metrics.height <= 0xFFFF_FFFF * 0xFFFF_FFFF) by (nonlinear_arith)
            requires
                0 <= metrics.width <= 0xFFFF_FFFF,
                0 <= metrics.height <= 0xFFFF_FFFF,
        ;
        let pixels: u64 = (metrics.width as u64) * (metrics.height as u64);
        if coverage.len() as u64 != pixels {
            assert(self@.subrange(0, self@.len() as int) =~= self@);
            return Err(TextError::MalformedBitmap);
        }
        let code: u128 = key.code();
        let slot: usize = self.records.len();
        let ghost before = self.records@;
        let ghost record = GlyphRecord { key, metrics, coverage };
        self.records.push(GlyphRecord { key, metrics, coverage });
        self.index.insert(code, slot);
        proof {
            let after = self.records@;
            assert(after == before.push(record));
            assert(after.subrange(0, before.len() as int) =~= before);
            assert forall|i: int| 0 <= i < after.len() implies self.index@.contains_key(
                code_of((#[trigger] after[i]).key) as u128,
            ) && self.index@[code_of(after[i].key) as u128] == i by {
                if i < before.len() {
                    assert(after[i] == before[i]);
                    if code_of(before[i].key) == code_of(key) {
                        lemma_code_is_injective(before[i].key, key);
                    }
                }
            }
            assert forall|i: int, j: int|
                0 <= i < after.len() && 0 <= j < after.len() && i != j implies (
            #[trigger] after[i]).key != (#[trigger] after[j]).key by {
                if i < before.len() {
                    assert(after[i] == before[i]);
                }
                if j < before.len() {
                    assert(after[j] == before[j]);
                }
            }
            assert forall|i: int| 0 <= i < after.len() implies (#[trigger] after[i]).wf() by {
                if i < before.len() {
                    assert(after[i] == before[i]);
                }
            }
            assert(after[slot as int].key == key);
            lemma_slot_is_unique(after, key, slot as int);
        }
        Ok(slot)
    }
}

/// Where no key has two records, the record with a key is found in one slot
/// only.
pub proof fn lemma_slot_is_unique(records: Seq<GlyphRecord>, key: CacheKey, slot: int)
    requires
        keys_distinct(records),
        0 <= slot < records.len(),
        records[slot].key == key,
    ensures
        has_key(records, key),
        slot_of(records, key) == slot,
{
    let found = slot_of(records, key);
    assert(0 <= found < records.len() && records[found].key == key);
    if found != slot {
        assert(records[found].key != records[slot].key);
    }
}

/// Lookups with equal keys reach one record, and keys that differ in face,
/// size or character never share one.
pub proof fn lemma_one_record_per_key(records: Seq<GlyphRecord>, a: CacheKey, b: CacheKey)
    requires
        keys_distinct(records),
        has_key(records, a),
        has_key(records, b),
    ensures
        a == b <==> slot_of(records, a) == slot_of(records, b),
{
    let i = slot_of(records, a);
    let j = slot_of(records, b);
    assert(records[i].key == a);
    assert(records[j].key == b);
}

/// A record keeps its slot for good: in a cache that has grown, every key
/// cached before is found where it was, with the record it had.
pub proof fn lemma_slots_are_stable(
    earlier: Seq<GlyphRecord>,
    later: Seq<GlyphRecord>,
    key: CacheKey,
)
    requires
        keys_distinct(later),
        extends(later, earlier),
        has_key(earlier, key),
    ensures
        has_key(later, key),
        slot_of(later, key) == slot_of(earlier, key),
        later[slot_of(later, key)] == earlier[slot_of(earlier, key)],
{
    let i = slot_of(earlier, key);
    assert(earlier[i].key == key);
    assert(later.subrange(0, earlier.len() as int)[i] == later[i]);
    lemma_slot_is_unique(later, key, i);
}

/// Growth composes: what extends an extension extends the first.
pub proof fn lemma_extends_is_transitive(
    a: Seq<GlyphRecord>,
    b: Seq<GlyphRecord>,
    c: Seq<GlyphRecord>,
)
    requires
        extends(b, a),
        extends(c, b),
    ensures
        extends(c, a),
{
    assert(c.subrange(0, a.len() as int) =~= b.subrange(0, a.len() as int)) by {
        assert forall|i: int| 0 <= i < a.len() implies c.subrange(0, a.len() as int)[i]
            == b.subrange(0, a.len() as int)[i] by {
            assert(c.subrange(0, b.len() as int)[i] == b[i]);
        }
    }
}

} // verus!
