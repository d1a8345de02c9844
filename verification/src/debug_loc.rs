//! The span interner: an epoch-tagged, generationally reclaimed table that
//! maps compiler-assigned source-span values to compact wire-safe tokens and
//! back.
//!
//! An interned id packs a 32-bit epoch (the generation the span was interned
//! in) and a 32-bit index into one 64-bit value, carried on the wire as a
//! lowercase hexadecimal string. Entries are appended only and an issued index
//! is never reassigned to another entry: reclamation discards the oldest
//! entries and accounts for them in a base offset, so ids minted in any
//! still-retained epoch keep resolving to the exact span they were minted for.

use vstd::prelude::*;

use crate::hex::{
    hex_rep, hex_val, is_hex_str, lemma_hex_val_nonneg, parse_hex_u64, u64_to_hex,
};
use std::collections::hash_map::RandomState;

verus! {

/// How many epochs an interned entry stays resolvable: entries whose epoch has
/// fallen this far behind the current one are reclaimed.
pub const GARAGE_COLLECT_THRESHOLD: u64 = 30;

/// Compiler-assigned source-span identifiers are opaque to this layer; they
/// are carried as plain 64-bit values.
pub type SourceSpan = u64;

/// Result of resolving an interned id: `Stale` when the id's epoch has rolled
/// out of the retention window, otherwise `Found` with the span if the index
/// is populated.
#[derive(Debug)]
pub enum InternQuery<T> {
    Found(Option<T>),
    Stale,
}

/// A compact token for one interned span: the epoch it was interned in and
/// its position in the (conceptually append-only) table.
#[derive(Debug, Clone, Copy, PartialEq, Eq, Structural)]
pub struct InternId {
    lifetime: u32,
    id: u32,
}

/// The packed 64-bit wire value of an id: epoch in the high half, index in
/// the low half.
pub open spec fn pack_spec(epoch: u32, index: u32) -> u64 {
    (epoch as u64) << 32 | (index as u64)
}

impl InternId {
    /// The epoch half of the id.
    pub closed spec fn epoch(self) -> u32 {
        self.lifetime
    }

    /// The index half of the id.
    pub closed spec fn index(self) -> u32 {
        self.id
    }

    /// The id denoted by a packed 64-bit value.
    pub closed spec fn of_u64(v: u64) -> InternId {
        InternId { lifetime: (v >> 32) as u32, id: (v & 0xffff_ffff) as u32 }
    }

    pub fn new(lifetime: usize, id: usize) -> (r: Self)
        requires
            lifetime <= u32::MAX,
            id <= u32::MAX,
        ensures
            r.epoch() == lifetime as u32,
            r.index() == id as u32,
    {
        Self { lifetime: lifetime as u32, id: id as u32 }
    }

    pub(crate) fn to_u64(&self) -> (r: u64)
        ensures
            r == pack_spec(self.epoch(), self.index()),
    {
        (self.lifetime as u64) << 32 | self.id as u64
    }

    pub(crate) fn from_u64(id: u64) -> (r: Self)
        ensures
            r == Self::of_u64(id),
    {
        proof {
            assert(id >> 32 <= 0xffff_ffffu64) by (bit_vector);
            assert(id & 0xffff_ffff <= 0xffff_ffffu64) by (bit_vector);
        }
        Self { lifetime: (id >> 32) as u32, id: (id & 0xffff_ffff) as u32 }
    }

    /// The lowercase hexadecimal wire rendering of the id.
    pub fn to_hex(&self) -> (r: String)
        ensures
            r@ == hex_rep(pack_spec(self.epoch(), self.index()) as nat),
    {
        u64_to_hex(self.to_u64())
    }

    /// Decodes a hexadecimal token back into an id. A malformed token is a
    /// caller-level parse failure and is excluded here.
    pub fn from_hex(hex: &str) -> (r: Self)
        requires
            is_hex_str(hex@),
        ensures
            r == Self::of_u64(hex_val(hex@) as u64),
    {
        proof {
            lemma_hex_val_nonneg(hex@);
        }
        match parse_hex_u64(hex) {
            Some(v) => Self::from_u64(v),
            None => {
                proof {
                    assert(false);
                }
                Self { lifetime: 0, id: 0 }
            },
        }
    }
}

/// Packing an (epoch, index) pair and unpacking the packed value reproduces
/// the exact pair.
pub proof fn lemma_pack_unpack(epoch: u32, index: u32)
    ensures
        InternId::of_u64(pack_spec(epoch, index)).epoch() == epoch,
        InternId::of_u64(pack_spec(epoch, index)).index() == index,
{
    let e = epoch as u64;
    let i = index as u64;
    assert((e << 32 | i) >> 32 == e && (e << 32 | i) & 0xffff_ffff == i) by (bit_vector)
        requires
            e <= 0xffff_ffffu64,
            i <= 0xffff_ffffu64,
    ;
}

/// Round trip of the full wire encoding: the lowercase hexadecimal rendering
/// of any id is a well-formed token that decodes to the exact same
/// (epoch, index) pair.
pub proof fn law_hex_round_trip(epoch: u32, index: u32)
    ensures
        is_hex_str(hex_rep(pack_spec(epoch, index) as nat)),
        InternId::of_u64(hex_val(hex_rep(pack_spec(epoch, index) as nat)) as u64).epoch()
            == epoch,
        InternId::of_u64(hex_val(hex_rep(pack_spec(epoch, index) as nat)) as u64).index()
            == index,
{
    let v = pack_spec(epoch, index);
    crate::hex::lemma_hex_round_trip(v);
    lemma_pack_unpack(epoch, index);
}

#[verifier::external_type_specification]
#[verifier::external_body]
#[verifier::reject_recursive_types(T)]
#[verifier::reject_recursive_types(S)]
pub struct ExIndexSet<T, S>(indexmap::IndexSet<T, S>);

/// The (epoch, span) pairs an interning set holds, in insertion order.
pub uninterp spec fn span_set_entries(s: indexmap::IndexSet<(u64, u64), RandomState>) -> Seq<
    (u64, u64),
>;

/// Relies on indexmap::IndexSet::new: creates an empty set.
#[verifier::external_body]
fn span_set_new() -> (r: indexmap::IndexSet<(u64, u64), RandomState>)
    ensures
        span_set_entries(r) == Seq::<(u64, u64)>::empty(),
{
    indexmap::IndexSet::new()
}

/// Relies on indexmap::IndexSet::len: the number of values held.
#[verifier::external_body]
fn span_set_len(s: &indexmap::IndexSet<(u64, u64), RandomState>) -> (r: usize)
    ensures
        r == span_set_entries(*s).len(),
{
    s.len()
}

/// Relies on indexmap::IndexSet::get_index: `Some` of the value at `index`
/// exactly when `index < len`, in insertion order.
#[verifier::external_body]
fn span_set_get_index(s: &indexmap::IndexSet<(u64, u64), RandomState>, index: usize) -> (r: Option<
    (u64, u64),
>)
    ensures
        index < span_set_entries(*s).len() ==> r == Some(span_set_entries(*s)[index as int]),
        index >= span_set_entries(*s).len() ==> r is None,
{
    s.get_index(index).copied()
}

/// Relies on indexmap::IndexSet::insert_full: if an equal value is already
/// present it returns that value's index and `false` and leaves the set as it
/// was; otherwise it appends the value at the end and returns its index and
/// `true`.
#[verifier::external_body]
fn span_set_insert_full(
    s: &mut indexmap::IndexSet<(u64, u64), RandomState>,
    value: (u64, u64),
) -> (r: (usize, bool))
    ensures
        span_set_entries(*old(s)).contains(value) ==> {
            &&& span_set_entries(*final(s)) == span_set_entries(*old(s))
            &&& r.1 == false
            &&& r.0 < span_set_entries(*old(s)).len()
            &&& span_set_entries(*old(s))[r.0 as int] == value
        },
        !span_set_entries(*old(s)).contains(value) ==> {
            &&& span_set_entries(*final(s)) == span_set_entries(*old(s)).push(value)
            &&& r.1 == true
            &&& r.0 == span_set_entries(*old(s)).len()
        },
{
    s.insert_full(value)
}

/// Relies on indexmap::IndexSet::shift_remove_index: removes the value at
/// `index` and shifts the values after it down, preserving their order;
/// `None` when `index` is out of range.
#[verifier::external_body]
fn span_set_shift_remove_index(
    s: &mut indexmap::IndexSet<(u64, u64), RandomState>,
    index: usize,
) -> (r: Option<(u64, u64)>)
    ensures
        index < span_set_entries(*old(s)).len() ==> {
            &&& span_set_entries(*final(s)) == span_set_entries(*old(s)).remove(index as int)
            &&& r == Some(span_set_entries(*old(s))[index as int])
        },
        index >= span_set_entries(*old(s)).len() ==> {
            &&& span_set_entries(*final(s)) == span_set_entries(*old(s))
            &&& r is None
        },
{
    s.shift_remove_index(index)
}

/// No two positions hold the same (epoch, span) pair.
pub open spec fn no_dups(entries: Seq<(u64, u64)>) -> bool {
    forall|i: int, j: int|
        0 <= i < j < entries.len() ==> #[trigger] entries[i] != #[trigger] entries[j]
}

/// The table after interning a pair: unchanged if the pair is present,
/// otherwise the pair appended at the end.
pub open spec fn interned_entries(entries: Seq<(u64, u64)>, epoch: u64, span: u64) -> Seq<
    (u64, u64),
> {
    if entries.contains((epoch, span)) {
        entries
    } else {
        entries.push((epoch, span))
    }
}

/// The external index interning a pair yields: the pair's existing position
/// if present, otherwise the position it is appended at; both offset by the
/// count of entries already reclaimed.
pub open spec fn interned_index(entries: Seq<(u64, u64)>, base: int, epoch: u64, span: u64) -> int {
    if entries.contains((epoch, span)) {
        base + (choose|i: int| 0 <= i < entries.len() && entries[i] == (epoch, span))
    } else {
        base + entries.len()
    }
}

/// Maps spans to issued ids and back, tagging each entry with the epoch it
/// was interned in and discarding entries once their epoch falls out of the
/// retention window.
pub struct SpanInterner {
    lifetime: usize,
    reclaimed: usize,
    span2id: indexmap::IndexSet<(u64, u64), RandomState>,
}

impl SpanInterner {
    /// The current epoch.
    pub closed spec fn epoch(self) -> int {
        self.lifetime as int
    }

    /// How many entries reclamation has discarded over the interner's life;
    /// the external index of the entry at position `p` is `base() + p`.
    pub closed spec fn base(self) -> int {
        self.reclaimed as int
    }

    /// The retained (epoch, span) entries, oldest first.
    pub closed spec fn entries(self) -> Seq<(u64, u64)> {
        span_set_entries(self.span2id)
    }

    /// Structural invariant that holds even while a reclamation pass is
    /// underway: bounds, epoch-sorted entries, and no duplicate pairs.
    pub closed spec fn base_inv(self) -> bool {
        &&& 1 <= self.lifetime <= u32::MAX
        &&& self.base() + self.entries().len() <= u32::MAX
        &&& (forall|i: int|
            0 <= i < self.entries().len() ==> 1 <= (#[trigger] self.entries()[i]).0 as int
                <= self.epoch())
        &&& (forall|i: int, j: int|
            0 <= i <= j < self.entries().len() ==> (#[trigger] self.entries()[i]).0 <= (
            #[trigger] self.entries()[j]).0)
        &&& no_dups(self.entries())
    }

    /// Well-formedness: the structural invariant, and every retained entry's
    /// epoch lies inside the retention window.
    pub closed spec fn wf(self) -> bool {
        &&& self.base_inv()
        &&& (forall|i: int|
            0 <= i < self.entries().len() ==> (#[trigger] self.entries()[i]).0 as int
                + GARAGE_COLLECT_THRESHOLD as int > self.epoch())
    }

    /// The interner currently holds the entry that `id` was minted for, with
    /// value `span`.
    pub closed spec fn tracks(self, id: InternId, span: u64) -> bool {
        &&& self.base() <= (id.index() as int)
        &&& (id.index() as int) < self.base() + self.entries().len()
        &&& self.entries()[id.index() as int - self.base()] == (id.epoch() as u64, span)
    }

    /// What resolving an id returns: `Stale` when the id's epoch has rolled
    /// out of the retention window, else the span at the id's index if that
    /// index is populated.
    pub open spec fn lookup_spec(self, id: InternId) -> InternQuery<SourceSpan> {
        if id.epoch() as int + GARAGE_COLLECT_THRESHOLD as int <= self.epoch() {
            InternQuery::Stale
        } else if self.base() <= (id.index() as int) && (id.index() as int) < self.base()
            + self.entries().len() {
            InternQuery::Found(Some(self.entries()[id.index() as int - self.base()].1))
        } else {
            InternQuery::Found(None)
        }
    }

    /// Whether another reclamation cycle can run without exhausting the
    /// 32-bit epoch space.
    pub fn can_reclaim(&self) -> (r: bool)
        ensures
            r == (self.epoch() < u32::MAX as int),
    {
        self.lifetime < u32::MAX as usize
    }

    /// Whether another span can be interned without exhausting the 32-bit
    /// index space.
    pub fn has_capacity(&self) -> (r: bool)
        ensures
            r == (self.base() + self.entries().len() < u32::MAX as int),
    {
        let len = span_set_len(&self.span2id);
        self.reclaimed < u32::MAX as usize && len < u32::MAX as usize - self.reclaimed
    }

    pub fn new() -> (r: Self)
        ensures
            r.wf(),
            r.epoch() == 1,
            r.base() == 0,
            r.entries() == Seq::<(u64, u64)>::empty(),
    {
        Self { lifetime: 1, reclaimed: 0, span2id: span_set_new() }
    }

    /// Interns `span` at the current epoch: appends a new entry unless an
    /// identical (epoch, span) pair is already present, and returns the
    /// combined id. Idempotent within one epoch.
    pub fn intern(&mut self, span: SourceSpan) -> (r: InternId)
        requires
            old(self).wf(),
            old(self).base() + old(self).entries().len() < u32::MAX as int,
        ensures
            final(self).wf(),
            final(self).epoch() == old(self).epoch(),
            final(self).base() == old(self).base(),
            r.epoch() as int == old(self).epoch(),
            final(self).entries() == interned_entries(
                old(self).entries(),
                r.epoch() as u64,
                span,
            ),
            r.index() as int == interned_index(
                old(self).entries(),
                old(self).base(),
                r.epoch() as u64,
                span,
            ),
            final(self).tracks(r, span),
            forall|id: InternId, sp: u64|
                #[trigger] old(self).tracks(id, sp) ==> final(self).tracks(id, sp),
            forall|id: InternId, sp: u64|
                #[trigger] final(self).tracks(id, sp) ==> old(self).tracks(id, sp) || (id == r
                    && sp == span),
    {
        let epoch_u64: u64 = self.lifetime as u64;
        let item: (u64, u64) = (epoch_u64, span);
        let ghost pre = span_set_entries(self.span2id);
        let (idx, _inserted) = span_set_insert_full(&mut self.span2id, item);
        let r = InternId::new(self.lifetime, self.reclaimed + idx);
        proof {
            if pre.contains(item) {
                let w = choose|i: int| 0 <= i < pre.len() && pre[i] == item;
                assert(pre[idx as int] == item);
                assert(pre[w] == item);
                assert(w == idx);
            } else {
                assert(self.entries() =~= pre.push(item));
                assert forall|id: InternId, sp: u64| #[trigger]
                    old(self).tracks(id, sp) implies self.tracks(id, sp) by {
                    assert(self.entries()[id.index() as int - self.base()] == pre[id.index()
                        as int - self.base()]);
                }
                assert forall|id: InternId, sp: u64| #[trigger]
                    self.tracks(id, sp) implies old(self).tracks(id, sp) || (id == r && sp
                    == span) by {
                    let p = id.index() as int - self.base();
                    if p < pre.len() {
                    } else {
                        assert(self.entries()[p] == item);
                        assert(id.epoch() as u64 == epoch_u64 && sp == span);
                        assert(id.epoch() == r.epoch() && id.index() == r.index());
                    }
                }
            }
        }
        r
    }

    /// Advances the current epoch by one and discards every entry whose epoch
    /// has fallen out of the new retention window. Issued ids of retained
    /// entries keep resolving to the same spans.
    pub fn reset(&mut self)
        requires
            old(self).wf(),
            old(self).epoch() < u32::MAX as int,
        ensures
            final(self).wf(),
            final(self).epoch() == old(self).epoch() + 1,
            forall|id: InternId, sp: u64|
                #[trigger] old(self).tracks(id, sp) && id.epoch() as int
                    + GARAGE_COLLECT_THRESHOLD as int > final(self).epoch() ==> final(self).tracks(
                    id,
                    sp,
                ),
            forall|id: InternId, sp: u64|
                #[trigger] final(self).tracks(id, sp) ==> old(self).tracks(id, sp),
    {
        self.lifetime = self.lifetime + 1;
        while self.first_out_of_window()
            invariant
                old(self).wf(),
                self.lifetime == old(self).lifetime + 1,
                old(self).lifetime < u32::MAX,
                old(self).reclaimed <= self.reclaimed,
                self.reclaimed as int + self.entries().len() == old(self).reclaimed as int
                    + old(self).entries().len(),
                self.entries() =~= old(self).entries().subrange(
                    self.reclaimed as int - old(self).reclaimed as int,
                    old(self).entries().len() as int,
                ),
                forall|j: int|
                    0 <= j < self.reclaimed as int - old(self).reclaimed as int ==> (
                    #[trigger] old(self).entries()[j]).0 as int + GARAGE_COLLECT_THRESHOLD as int
                        <= self.lifetime as int,
            decreases self.entries().len(),
        {
            let _ = span_set_shift_remove_index(&mut self.span2id, 0);
            self.reclaimed = self.reclaimed + 1;
            proof {
                let k = self.reclaimed as int - old(self).reclaimed as int;
                assert(self.entries() =~= old(self).entries().subrange(
                    k,
                    old(self).entries().len() as int,
                ));
            }
        }
        proof {
            let k = self.reclaimed as int - old(self).reclaimed as int;
            let olde = old(self).entries();
            assert(self.base_inv());
            if self.entries().len() > 0 {
                assert forall|i: int|
                    0 <= i < self.entries().len() implies (#[trigger] self.entries()[i]).0 as int
                    + GARAGE_COLLECT_THRESHOLD as int > self.epoch() by {
                    assert(self.entries()[0].0 <= self.entries()[i].0);
                }
            }
            assert forall|id: InternId, sp: u64| #[trigger]
                old(self).tracks(id, sp) && id.epoch() as int + GARAGE_COLLECT_THRESHOLD as int
                > self.epoch() implies self.tracks(id, sp) by {
                let p = id.index() as int - old(self).base();
                assert(olde[p] == (id.epoch() as u64, sp));
                if p < k {
                    assert(olde[p].0 as int + GARAGE_COLLECT_THRESHOLD as int <= self.epoch());
                } else {
                    assert(self.entries()[p - k] == olde[p]);
                }
            }
            assert forall|id: InternId, sp: u64| #[trigger]
                self.tracks(id, sp) implies old(self).tracks(id, sp) by {
                let q = id.index() as int - self.base();
                assert(self.entries()[q] == olde[q + k]);
            }
        }
    }

    /// Whether the oldest retained entry has fallen out of the retention
    /// window (used only while a reclamation pass runs).
    fn first_out_of_window(&self) -> (r: bool)
        requires
            self.entries().len() > 0 ==> self.entries()[0].0 <= u32::MAX,
        ensures
            r == (self.entries().len() > 0 && self.entries()[0].0 as int
                + GARAGE_COLLECT_THRESHOLD as int <= self.epoch()),
    {
        match span_set_get_index(&self.span2id, 0) {
            Some(e) => e.0 + GARAGE_COLLECT_THRESHOLD <= self.lifetime as u64,
            None => false,
        }
    }

    /// Resolves a hexadecimal id token under shared access; the token must be
    /// a well-formed hexadecimal numeral.
    pub fn span_by_str(&self, str: &str) -> (r: InternQuery<SourceSpan>)
        requires
            is_hex_str(str@),
        ensures
            r == self.lookup_spec(InternId::of_u64(hex_val(str@) as u64)),
    {
        proof {
            lemma_hex_val_nonneg(str@);
        }
        match parse_hex_u64(str) {
            Some(v) => self.span(InternId::from_u64(v)),
            None => {
                proof {
                    assert(false);
                }
                InternQuery::Stale
            },
        }
    }

    /// Resolves an id under shared access: `Stale` once the id's epoch has
    /// rolled out of the retention window, else `Found` with the span at the
    /// id's index if that index is populated.
    pub fn span(&self, id: InternId) -> (r: InternQuery<SourceSpan>)
        ensures
            r == self.lookup_spec(id),
    {
        if id.lifetime as u64 + GARAGE_COLLECT_THRESHOLD <= self.lifetime as u64 {
            InternQuery::Stale
        } else {
            let idu: usize = id.id as usize;
            if idu >= self.reclaimed {
                match span_set_get_index(&self.span2id, idu - self.reclaimed) {
                    Some(e) => InternQuery::Found(Some(e.1)),
                    None => InternQuery::Found(None),
                }
            } else {
                InternQuery::Found(None)
            }
        }
    }
}

impl Default for SpanInterner {
    /// A fresh interner at epoch 1 with no entries.
    fn default() -> (r: Self)
        ensures
            r.wf(),
            r.epoch() == 1,
            r.base() == 0,
            r.entries() == Seq::<(u64, u64)>::empty(),
    {
        Self::new()
    }
}

/// Retention law, `Found` side: an id whose entry the table still holds and
/// whose epoch lies inside the retention window resolves to exactly the span
/// it was minted for.
pub proof fn law_lookup_in_window(s: SpanInterner, id: InternId, span: SourceSpan)
    requires
        s.wf(),
        s.tracks(id, span),
        id.epoch() as int + GARAGE_COLLECT_THRESHOLD as int > s.epoch(),
    ensures
        s.lookup_spec(id) == InternQuery::Found(Some(span)),
{
}

/// Retention law, `Stale` side: once the current epoch has advanced at least
/// the window length past an id's epoch, lookup reports the id stale,
/// whatever the table holds.
pub proof fn law_lookup_stale(s: SpanInterner, id: InternId)
    requires
        id.epoch() as int + GARAGE_COLLECT_THRESHOLD as int <= s.epoch(),
    ensures
        s.lookup_spec(id) == InternQuery::<SourceSpan>::Stale,
{
}

/// Every entry a well-formed table holds lies inside the retention window:
/// entries below the window are unreachable.
pub proof fn law_tracked_in_window(s: SpanInterner, id: InternId, span: SourceSpan)
    requires
        s.wf(),
        s.tracks(id, span),
    ensures
        s.epoch() - (GARAGE_COLLECT_THRESHOLD as int) < id.epoch() as int <= s.epoch(),
{
    assert(s.entries()[id.index() as int - s.base()].0 == id.epoch() as u64);
}

/// Idempotence: interning an (epoch, span) pair into a table that already
/// went through the same interning changes nothing and yields the same index.
pub proof fn law_intern_idempotent(entries: Seq<(u64, u64)>, base: int, epoch: u64, span: u64)
    requires
        no_dups(entries),
    ensures
        interned_entries(interned_entries(entries, epoch, span), epoch, span) == interned_entries(
            entries,
            epoch,
            span,
        ),
        interned_index(interned_entries(entries, epoch, span), base, epoch, span)
            == interned_index(entries, base, epoch, span),
{
    let item = (epoch, span);
    let e1 = interned_entries(entries, epoch, span);
    if entries.contains(item) {
    } else {
        assert(e1 == entries.push(item));
        assert(e1[entries.len() as int] == item);
        assert(e1.contains(item));
        let w = choose|i: int| 0 <= i < e1.len() && e1[i] == item;
        if w < entries.len() {
            assert(entries[w] == item);
            assert(entries.contains(item));
            assert(false);
        }
        assert(w == entries.len());
    }
}

} // verus!
