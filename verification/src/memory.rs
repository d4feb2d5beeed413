//! The memory hierarchy: a sparse backing store (DRAM) and direct-mapped
//! write-back caches that wrap the next level down, all answering `get` and
//! `set` with a value and a simulated latency.
//!
//! Every level is modelled by a ghost [`MemModel`]: the words it observes,
//! its line state, and the exact cycle cost of each access. The executable
//! `get` and `set` are proved to transform a level exactly as the model
//! transition functions say.

use vstd::prelude::*;

use crate::result::{SimResult, SimError};

verus! {

/// The value an association list of (address, value) pairs gives an address:
/// the first pair that names the address, or 0 where none does (an untouched
/// address implicitly holds 0).
pub open spec fn lookup(entries: Seq<(u32, u32)>, a: u32) -> u32
    decreases entries.len(),
{
    if entries.len() == 0 {
        0
    } else if entries[0].0 == a {
        entries[0].1
    } else {
        lookup(entries.skip(1), a)
    }
}

/// A lookup skips over any prefix that does not name the address.
proof fn lemma_lookup_skip_prefix(s: Seq<(u32, u32)>, a: u32, i: int)
    requires
        0 <= i <= s.len(),
        forall|j: int| 0 <= j < i ==> s[j].0 != a,
    ensures
        lookup(s, a) == lookup(s.skip(i), a),
    decreases i,
{
    if i > 0 {
        lemma_lookup_skip_prefix(s.skip(1), a, i - 1);
        assert(s.skip(1).skip(i - 1) =~= s.skip(i));
    } else {
        assert(s.skip(0) =~= s);
    }
}

/// Updating the pair that names one address leaves every other lookup alone.
proof fn lemma_lookup_update_other(s: Seq<(u32, u32)>, j: int, p: (u32, u32), b: u32)
    requires
        0 <= j < s.len(),
        s[j].0 == p.0,
        b != p.0,
    ensures
        lookup(s.update(j, p), b) == lookup(s, b),
    decreases j,
{
    let t = s.update(j, p);
    if j == 0 {
        assert(t.skip(1) =~= s.skip(1));
    } else {
        assert(t.skip(1) =~= s.skip(1).update(j - 1, p));
        lemma_lookup_update_other(s.skip(1), j - 1, p, b);
    }
}

/// Appending a pair with a different address leaves a lookup alone.
proof fn lemma_lookup_push_other(s: Seq<(u32, u32)>, p: (u32, u32), b: u32)
    requires
        p.0 != b,
    ensures
        lookup(s.push(p), b) == lookup(s, b),
    decreases s.len(),
{
    assert(s.push(p)[s.len() as int] == p);
    if s.len() == 0 {
        assert(s.push(p).skip(1) =~= Seq::<(u32, u32)>::empty());
        assert(lookup(s.push(p), b) == lookup(s.push(p).skip(1), b));
    } else {
        assert(s.push(p)[0] == s[0]);
        assert(s.push(p).skip(1) =~= s.skip(1).push(p));
        lemma_lookup_push_other(s.skip(1), p, b);
    }
}

/// Appending a pair for an address no earlier pair names makes the lookup
/// find it.
proof fn lemma_lookup_push_new(s: Seq<(u32, u32)>, p: (u32, u32))
    requires
        forall|j: int| 0 <= j < s.len() ==> s[j].0 != p.0,
    ensures
        lookup(s.push(p), p.0) == p.1,
    decreases s.len(),
{
    assert(s.push(p)[s.len() as int] == p);
    if s.len() == 0 {
        assert(s.push(p).skip(1) =~= Seq::<(u32, u32)>::empty());
    } else {
        assert(s.push(p)[0] == s[0]);
        assert(s.push(p).skip(1) =~= s.skip(1).push(p));
        lemma_lookup_push_new(s.skip(1), p);
    }
}

/// One cache line: a tag, the cached word, and the valid and dirty marks.
#[derive(Copy, Clone, Debug, PartialEq, Eq, Structural)]
pub struct DMCacheLine {
    /// High-order address bits of the cached word.
    pub tag: u32,
    /// The cached word.
    pub data: u32,
    /// Whether the line holds anything at all.
    pub valid: bool,
    /// Whether the line holds a write not yet pushed to the next level.
    pub dirty: bool,
}

impl DMCacheLine {
    /// An empty, invalid line.
    pub fn new() -> (r: DMCacheLine)
        ensures
            r == (DMCacheLine { tag: 0, data: 0, valid: false, dirty: false }),
    {
        DMCacheLine { tag: 0, data: 0, valid: false, dirty: false }
    }
}

/// The ghost state of the backing store: its delay and the word every
/// address observes.
pub struct DramModel {
    /// The fixed per-access delay.
    pub delay: u16,
    /// The word at each address; an untouched address holds 0.
    pub words: Map<u32, u32>,
}

/// The ghost state of one cache level.
pub struct CacheModel {
    /// The fixed per-access delay.
    pub delay: u16,
    /// The line array.
    pub lines: Seq<DMCacheLine>,
    /// The level this cache wraps.
    pub base: Box<MemModel>,
}

/// The ghost state of a memory level: the backing store, or a cache over
/// the next level down.
pub enum MemModel {
    Dram(DramModel),
    Cache(CacheModel),
}

impl CacheModel {
    /// The number of lines.
    pub open spec fn nl(self) -> int {
        self.lines.len() as int
    }

    /// The line index an address maps to. With a power-of-two line count
    /// this is exactly the address's low index bits.
    pub open spec fn idx_of(self, a: u32) -> int {
        a as int % self.nl()
    }

    /// The tag an address carries: its high bits above the index.
    pub open spec fn tag_of(self, a: u32) -> int {
        a as int / self.nl()
    }

    /// The address a line caches, reconstructed from its tag and index.
    pub open spec fn line_addr(self, i: int) -> int {
        self.lines[i].tag * self.nl() + i
    }

    /// Whether an access to `a` hits: its line is valid and carries its tag.
    pub open spec fn hit(self, a: u32) -> bool {
        let l = self.lines[self.idx_of(a)];
        l.valid && l.tag == self.tag_of(a)
    }

    /// Whether an access to `a` must first push the displaced line down:
    /// the occupying line is valid with a different tag, and dirty.
    pub open spec fn evicts(self, a: u32) -> bool {
        let l = self.lines[self.idx_of(a)];
        !self.hit(a) && l.valid && l.dirty
    }

    /// The address of the line an access to `a` displaces.
    pub open spec fn victim_of(self, a: u32) -> u32 {
        self.line_addr(self.idx_of(a)) as u32
    }
}

impl MemModel {
    /// How many caches stand above the backing store at this level.
    pub open spec fn cdepth(self) -> nat
        decreases self,
    {
        match self {
            MemModel::Dram(_) => 0,
            MemModel::Cache(c) => 1 + (*c.base).cdepth(),
        }
    }

    /// The fixed delay this level charges per access.
    pub open spec fn spec_delay(self) -> u16 {
        match self {
            MemModel::Dram(d) => d.delay,
            MemModel::Cache(c) => c.delay,
        }
    }

    /// Well-formedness: the store observes every address; a cache has at
    /// least one line and no more than an address can index, every valid
    /// line caches an address a 32-bit word can name, every valid clean
    /// line agrees with the level below, and at most three caches stand in
    /// the chain.
    pub open spec fn wf(self) -> bool
        decreases self,
    {
        match self {
            MemModel::Dram(d) => forall|a: u32| d.words.dom().contains(a),
            MemModel::Cache(c) => {
                &&& 1 <= c.nl() <= 0xFFFF_FFFF
                &&& forall|i: int|
                    0 <= i < c.nl() && c.lines[i].valid ==> #[trigger] c.line_addr(i)
                        < 0x1_0000_0000
                &&& forall|i: int|
                    0 <= i < c.nl() && c.lines[i].valid && !c.lines[i].dirty
                        ==> c.lines[i].data == (*c.base).word_at(#[trigger] c.line_addr(i) as u32)
                &&& (*c.base).wf()
                &&& (*c.base).cdepth() <= 2
            },
        }
    }

    /// The word this level observes at an address: the cached word on a
    /// hit, else whatever the level below observes.
    pub open spec fn word_at(self, a: u32) -> u32
        decreases self,
    {
        match self {
            MemModel::Dram(d) => d.words[a],
            MemModel::Cache(c) => if c.hit(a) {
                c.lines[c.idx_of(a)].data
            } else {
                (*c.base).word_at(a)
            },
        }
    }

    /// The state after `set(a, v)`. A write hit updates the line and marks
    /// it dirty without touching the level below; a write miss first pushes
    /// a dirty conflicting line down, then overwrites the line; it fetches
    /// nothing.
    pub open spec fn set_m(self, a: u32, v: u32) -> MemModel
        decreases self,
    {
        match self {
            MemModel::Dram(d) => MemModel::Dram(
                DramModel { delay: d.delay, words: d.words.insert(a, v) },
            ),
            MemModel::Cache(c) => {
                let idx = c.idx_of(a);
                let newline = DMCacheLine {
                    tag: c.tag_of(a) as u32,
                    data: v,
                    valid: true,
                    dirty: true,
                };
                if c.evicts(a) {
                    MemModel::Cache(
                        CacheModel {
                            delay: c.delay,
                            lines: c.lines.update(idx, newline),
                            base: Box::new((*c.base).set_m(c.victim_of(a), c.lines[idx].data)),
                        },
                    )
                } else {
                    MemModel::Cache(
                        CacheModel {
                            delay: c.delay,
                            lines: c.lines.update(idx, newline),
                            base: c.base,
                        },
                    )
                }
            },
        }
    }

    /// The cycles a `set(a, v)` reports: the level's own delay, plus the
    /// eviction write below on a dirty conflict.
    pub open spec fn set_cost(self, a: u32) -> int
        decreases self,
    {
        match self {
            MemModel::Dram(d) => d.delay as int,
            MemModel::Cache(c) => c.delay + (if c.evicts(a) {
                (*c.base).set_cost(c.victim_of(a))
            } else {
                0
            }),
        }
    }

    /// The state after `get(a)`. A hit changes nothing; a miss pushes a
    /// dirty conflicting line down, fetches the word from the level below,
    /// and installs it as a clean line.
    pub open spec fn get_m(self, a: u32) -> MemModel
        decreases self.cdepth(),
        via Self::get_m_decreases
    {
        match self {
            MemModel::Dram(d) => MemModel::Dram(d),
            MemModel::Cache(c) => if c.hit(a) {
                MemModel::Cache(c)
            } else {
                let idx = c.idx_of(a);
                let base1 = if c.evicts(a) {
                    (*c.base).set_m(c.victim_of(a), c.lines[idx].data)
                } else {
                    *c.base
                };
                let newline = DMCacheLine {
                    tag: c.tag_of(a) as u32,
                    data: base1.word_at(a),
                    valid: true,
                    dirty: false,
                };
                MemModel::Cache(
                    CacheModel {
                        delay: c.delay,
                        lines: c.lines.update(idx, newline),
                        base: Box::new(base1.get_m(a)),
                    },
                )
            },
        }
    }

    #[via_fn]
    proof fn get_m_decreases(self, a: u32) {
        match self {
            MemModel::Dram(_) => {},
            MemModel::Cache(c) => {
                if !c.hit(a) && c.evicts(a) {
                    lemma_set_m_cdepth(*c.base, c.victim_of(a), c.lines[c.idx_of(a)].data);
                }
            },
        }
    }

    /// The cycles a `get(a)` reports: the level's own delay plus, on a
    /// miss, the eviction write (if one is due) and the fetch from the
    /// level below, each costed in the state it actually runs in.
    pub open spec fn get_cost(self, a: u32) -> int
        decreases self.cdepth(),
        via Self::get_cost_decreases
    {
        match self {
            MemModel::Dram(d) => d.delay as int,
            MemModel::Cache(c) => if c.hit(a) {
                c.delay as int
            } else {
                let ecost = if c.evicts(a) {
                    (*c.base).set_cost(c.victim_of(a))
                } else {
                    0
                };
                let base1 = if c.evicts(a) {
                    (*c.base).set_m(c.victim_of(a), c.lines[c.idx_of(a)].data)
                } else {
                    *c.base
                };
                c.delay + ecost + base1.get_cost(a)
            },
        }
    }

    #[via_fn]
    proof fn get_cost_decreases(self, a: u32) {
        match self {
            MemModel::Dram(_) => {},
            MemModel::Cache(c) => {
                if !c.hit(a) && c.evicts(a) {
                    lemma_set_m_cdepth(*c.base, c.victim_of(a), c.lines[c.idx_of(a)].data);
                }
            },
        }
    }
}

/// A set never changes how many caches stand in the chain.
pub proof fn lemma_set_m_cdepth(m: MemModel, a: u32, v: u32)
    ensures
        m.set_m(a, v).cdepth() == m.cdepth(),
    decreases m,
{
    match m {
        MemModel::Dram(_) => {},
        MemModel::Cache(c) => {
            if c.evicts(a) {
                lemma_set_m_cdepth(*c.base, c.victim_of(a), c.lines[c.idx_of(a)].data);
            }
        },
    }
}

/// An address splits into its tag and index and is reassembled from them.
proof fn lemma_addr_recompose(a: u32, len: int)
    requires
        1 <= len,
    ensures
        0 <= a as int % len < len,
        0 <= a as int / len <= a as int,
        (a as int / len) * len + (a as int % len) == a as int,
{
    vstd::arithmetic::div_mod::lemma_mod_division_less_than_divisor(a as int, len);
    vstd::arithmetic::div_mod::lemma_div_pos_is_pos(a as int, len);
    vstd::arithmetic::div_mod::lemma_div_nonincreasing(a as int, len);
    vstd::arithmetic::div_mod::lemma_fundamental_div_mod(a as int, len);
    vstd::arithmetic::mul::lemma_mul_is_commutative(len, a as int / len);
}

/// A reassembled line address splits back into the same tag and index.
proof fn lemma_line_addr_split(len: int, t: int, i: int)
    requires
        1 <= len,
        0 <= t,
        0 <= i < len,
    ensures
        (t * len + i) % len == i,
        (t * len + i) / len == t,
{
    vstd::arithmetic::div_mod::lemma_fundamental_div_mod_converse_mod(t * len + i, len, t, i);
    vstd::arithmetic::div_mod::lemma_fundamental_div_mod_converse_div(t * len + i, len, t, i);
}

/// What a `set` does to a well-formed level: it stays well formed and of
/// the same shape, the written address observes the new word, and every
/// other address observes what it did before.
pub proof fn lemma_set_m_props(m: MemModel, a: u32, v: u32)
    requires
        m.wf(),
    ensures
        m.set_m(a, v).wf(),
        m.set_m(a, v).cdepth() == m.cdepth(),
        m.set_m(a, v).spec_delay() == m.spec_delay(),
        m.set_m(a, v).word_at(a) == v,
        forall|b: u32| b != a ==> m.set_m(a, v).word_at(b) == m.word_at(b),
    decreases m,
{
    lemma_set_m_cdepth(m, a, v);
    match m {
        MemModel::Dram(_) => {},
        MemModel::Cache(c) => {
            let len = c.nl();
            let idx = c.idx_of(a);
            let tag = c.tag_of(a);
            let old_line = c.lines[idx];
            lemma_addr_recompose(a, len);
            let m2 = m.set_m(a, v);
            let c2 = m2->Cache_0;
            if c.evicts(a) {
                lemma_set_m_props(*c.base, c.victim_of(a), old_line.data);
                lemma_line_addr_split(len, old_line.tag as int, idx);
            }
            assert(c2.line_addr(idx) == a as int);
            assert forall|i: int| 0 <= i < len && i != idx implies c2.line_addr(i)
                == c.line_addr(i) && (c.evicts(a) && c.lines[i].valid ==> c.line_addr(i)
                != c.victim_of(a)) by {
                assert(c2.lines[i] == c.lines[i]);
                if c.evicts(a) && c.lines[i].valid {
                    lemma_line_addr_split(len, c.lines[i].tag as int, i);
                    lemma_line_addr_split(len, old_line.tag as int, idx);
                }
            }
            assert(m2.wf());
            assert(m2.word_at(a) == v);
            assert forall|b: u32| b != a implies m2.word_at(b) == m.word_at(b) by {
                lemma_addr_recompose(b, len);
                let bidx = c.idx_of(b);
                if bidx == idx {
                    assert(c.tag_of(b) != tag);
                    assert(c2.idx_of(b) == bidx);
                    assert(c2.tag_of(b) == c.tag_of(b));
                    assert(c2.lines[bidx].tag == tag);
                    assert(!c2.hit(b));
                    if old_line.valid && old_line.tag == c.tag_of(b) {
                        assert(c.hit(b));
                        assert(m.word_at(b) == old_line.data);
                        lemma_line_addr_split(len, old_line.tag as int, idx);
                        assert(c.line_addr(idx) == b as int);
                        if c.evicts(a) {
                            assert(c.victim_of(a) == b);
                            assert((*c2.base).word_at(b) == old_line.data);
                            assert(m2.word_at(b) == old_line.data);
                        } else {
                            assert(!old_line.dirty);
                            assert((*c.base).word_at(b) == old_line.data);
                            assert(c2.base == c.base);
                            assert(m2.word_at(b) == old_line.data);
                        }
                    } else {
                        assert(!c.hit(b));
                        assert(m.word_at(b) == (*c.base).word_at(b));
                        if c.evicts(a) {
                            lemma_line_addr_split(len, old_line.tag as int, idx);
                            assert(c.victim_of(a) != b);
                            assert((*c2.base).word_at(b) == (*c.base).word_at(b));
                        } else {
                            assert(c2.base == c.base);
                        }
                        assert(m2.word_at(b) == (*c2.base).word_at(b));
                    }
                } else {
                    assert(c2.lines[bidx] == c.lines[bidx]);
                    assert(c2.hit(b) == c.hit(b));
                    if !c.hit(b) && c.evicts(a) {
                        lemma_line_addr_split(len, old_line.tag as int, idx);
                        assert(c.victim_of(a) as int % len == idx);
                        assert(c.victim_of(a) != b);
                        assert((*c2.base).word_at(b) == (*c.base).word_at(b));
                    }
                }
            }
        },
    }
}

/// What a `get` does to a well-formed level: it stays well formed and of
/// the same shape, and every address observes what it did before.
pub proof fn lemma_get_m_props(m: MemModel, a: u32)
    requires
        m.wf(),
    ensures
        m.get_m(a).wf(),
        m.get_m(a).cdepth() == m.cdepth(),
        m.get_m(a).spec_delay() == m.spec_delay(),
        forall|b: u32| m.get_m(a).word_at(b) == m.word_at(b),
    decreases m.cdepth(),
{
    match m {
        MemModel::Dram(_) => {},
        MemModel::Cache(c) => {
            if c.hit(a) {
            } else {
                let len = c.nl();
                let idx = c.idx_of(a);
                let tag = c.tag_of(a);
                let old_line = c.lines[idx];
                lemma_addr_recompose(a, len);
                let base1 = if c.evicts(a) {
                    (*c.base).set_m(c.victim_of(a), old_line.data)
                } else {
                    *c.base
                };
                if c.evicts(a) {
                    lemma_set_m_props(*c.base, c.victim_of(a), old_line.data);
                    lemma_line_addr_split(len, old_line.tag as int, idx);
                    assert(c.victim_of(a) != a);
                }
                lemma_get_m_props(base1, a);
                let base2 = base1.get_m(a);
                let m2 = m.get_m(a);
                let c2 = m2->Cache_0;
                assert(c2.line_addr(idx) == a as int);
                assert forall|i: int| 0 <= i < len && i != idx implies c2.line_addr(i)
                    == c.line_addr(i) && (c.evicts(a) && c.lines[i].valid ==> c.line_addr(i)
                    != c.victim_of(a)) by {
                    assert(c2.lines[i] == c.lines[i]);
                    if c.evicts(a) && c.lines[i].valid {
                        lemma_line_addr_split(len, c.lines[i].tag as int, i);
                        lemma_line_addr_split(len, old_line.tag as int, idx);
                    }
                }
                assert(c2.lines[idx].data == base2.word_at(a));
                assert(m2.wf());
                assert forall|b: u32| m2.word_at(b) == m.word_at(b) by {
                    lemma_addr_recompose(b, len);
                    let bidx = c.idx_of(b);
                    if bidx == idx {
                        assert(c2.idx_of(b) == bidx);
                        assert(c2.tag_of(b) == c.tag_of(b));
                        assert(c2.lines[idx].tag == tag);
                        if b == a {
                            assert(c2.hit(a));
                            assert(m2.word_at(a) == base1.word_at(a));
                            assert(base1.word_at(a) == (*c.base).word_at(a));
                            assert(m.word_at(a) == (*c.base).word_at(a));
                        } else {
                            assert(c.tag_of(b) != tag);
                            assert(!c2.hit(b));
                            if old_line.valid && old_line.tag == c.tag_of(b) {
                                assert(c.hit(b));
                                assert(m.word_at(b) == old_line.data);
                                lemma_line_addr_split(len, old_line.tag as int, idx);
                                assert(c.line_addr(idx) == b as int);
                                if c.evicts(a) {
                                    assert(c.victim_of(a) == b);
                                    assert(base1.word_at(b) == old_line.data);
                                } else {
                                    assert(!old_line.dirty);
                                    assert(base1.word_at(b) == old_line.data);
                                }
                                assert(base2.word_at(b) == old_line.data);
                                assert(m2.word_at(b) == old_line.data);
                            } else {
                                assert(!c.hit(b));
                                assert(m.word_at(b) == (*c.base).word_at(b));
                                if c.evicts(a) {
                                    lemma_line_addr_split(len, old_line.tag as int, idx);
                                    assert(c.victim_of(a) != b);
                                }
                                assert(base1.word_at(b) == (*c.base).word_at(b));
                                assert(base2.word_at(b) == (*c.base).word_at(b));
                                assert(m2.word_at(b) == base2.word_at(b));
                            }
                        }
                    } else {
                        assert(c2.lines[bidx] == c.lines[bidx]);
                        assert(c2.idx_of(b) == bidx);
                        assert(c2.tag_of(b) == c.tag_of(b));
                        assert(c2.hit(b) == c.hit(b));
                        if !c.hit(b) {
                            assert(m.word_at(b) == (*c.base).word_at(b));
                            if c.evicts(a) {
                                lemma_line_addr_split(len, old_line.tag as int, idx);
                                assert(c.victim_of(a) as int % len == idx);
                                assert(c.victim_of(a) != b);
                            }
                            assert(base1.word_at(b) == (*c.base).word_at(b));
                            assert(base2.word_at(b) == (*c.base).word_at(b));
                            assert(m2.word_at(b) == base2.word_at(b));
                        }
                    }
                }
            }
        },
    }
}

/// The largest cost a `set` can report at a level `d` caches deep: each
/// level adds its own delay, plus one eviction write per level below.
pub open spec fn set_cost_bound(d: nat) -> int {
    0xFFFF * (d + 1) as int
}

/// The largest cost a `get` can report at a level `d` caches deep.
pub open spec fn get_cost_bound(d: nat) -> int
    decreases d,
{
    if d == 0 {
        0xFFFF
    } else {
        0xFFFF + set_cost_bound((d - 1) as nat) + get_cost_bound((d - 1) as nat)
    }
}

/// Access costs never exceed the depth-indexed bounds.
pub proof fn lemma_cost_bounds(m: MemModel, a: u32)
    requires
        m.wf(),
    ensures
        0 <= m.set_cost(a) <= set_cost_bound(m.cdepth()),
        0 <= m.get_cost(a) <= get_cost_bound(m.cdepth()),
    decreases m.cdepth(),
{
    match m {
        MemModel::Dram(_) => {},
        MemModel::Cache(c) => {
            let idx = c.idx_of(a);
            lemma_cost_bounds(*c.base, c.victim_of(a));
            if !c.hit(a) {
                let base1 = if c.evicts(a) {
                    (*c.base).set_m(c.victim_of(a), c.lines[idx].data)
                } else {
                    *c.base
                };
                if c.evicts(a) {
                    lemma_set_m_props(*c.base, c.victim_of(a), c.lines[idx].data);
                }
                lemma_cost_bounds(base1, a);
            }
        },
    }
}

/// At chain depths the hierarchy allows, every access cost fits easily in
/// 32 bits.
pub proof fn lemma_cost_bound_values(d: nat)
    requires
        d <= 3,
    ensures
        set_cost_bound(d) <= 0x4_0000,
        get_cost_bound(d) <= 0xA_0000,
{
    assert(get_cost_bound(0) == 0xFFFF);
    assert(get_cost_bound(1) == 0xFFFF + set_cost_bound(0) + get_cost_bound(0));
    assert(get_cost_bound(2) == 0xFFFF + set_cost_bound(1) + get_cost_bound(1));
    assert(get_cost_bound(3) == 0xFFFF + set_cost_bound(2) + get_cost_bound(2));
}

/// Simulates the slow backing store: a sparse map from 32-bit addresses to
/// 32-bit words with a fixed per-access delay. An address never written or
/// read holds 0; a read of such an address also initializes it to 0. It
/// never fails and never evicts.
#[derive(Debug)]
pub struct DRAM {
    delay: u16,
    data: Vec<(u32, u32)>,
}

impl View for DRAM {
    type V = DramModel;

    closed spec fn view(&self) -> DramModel {
        DramModel { delay: self.spec_delay(), words: self.words() }
    }
}

impl DRAM {
    /// The stored (address, value) pairs, in insertion order.
    pub closed spec fn entries(&self) -> Seq<(u32, u32)> {
        self.data@
    }

    /// The fixed delay charged per access.
    pub closed spec fn spec_delay(&self) -> u16 {
        self.delay
    }

    /// The word the store holds at each address (0 where untouched).
    pub open spec fn words(&self) -> Map<u32, u32> {
        Map::new(|a: u32| true, |a: u32| lookup(self.entries(), a))
    }

    /// Creates an empty store with the given per-access delay.
    pub fn new(delay: u16) -> (r: DRAM)
        ensures
            r@.delay == delay,
            forall|a: u32| r@.words.dom().contains(a),
            forall|a: u32| r@.words[a] == 0,
            r.entries() == Seq::<(u32, u32)>::empty(),
    {
        DRAM { delay, data: Vec::new() }
    }

    /// Places `value` at `address`, with no delay accounting. The timed
    /// `set` and the image loader are built on this.
    fn store(&mut self, address: u32, value: u32)
        ensures
            final(self)@.delay == old(self)@.delay,
            final(self)@.words == old(self)@.words.insert(address, value),
            final(self).entries().len() <= old(self).entries().len() + 1,
    {
        let ghost s = self.data@;
        let n = self.data.len();
        let mut i: usize = 0;
        while i < n
            invariant
                *self == *old(self),
                self.data@ == s,
                n == s.len(),
                i <= n,
                forall|j: int| 0 <= j < i ==> s[j].0 != address,
            decreases n - i,
        {
            if self.data[i].0 == address {
                self.data.set(i, (address, value));
                proof {
                    lemma_lookup_skip_prefix(self.data@, address, i as int);
                    assert(self.data@.skip(i as int)[0] == (address, value));
                    assert forall|b: u32| b != address implies lookup(self.data@, b) == lookup(
                        s,
                        b,
                    ) by {
                        lemma_lookup_update_other(s, i as int, (address, value), b);
                    }
                    assert(self@.words =~= old(self)@.words.insert(address, value));
                }
                return ;
            }
            i += 1;
        }
        proof {
            lemma_lookup_push_new(s, (address, value));
            assert forall|b: u32| b != address implies lookup(s.push((address, value)), b)
                == lookup(s, b) by {
                lemma_lookup_push_other(s, (address, value), b);
            }
        }
        self.data.push((address, value));
        proof {
            assert(self@.words =~= old(self)@.words.insert(address, value));
        }
    }

    /// Retrieves the word at `address` after the store's fixed delay. A read
    /// of an untouched address returns 0 and initializes the address to 0.
    /// It never fails, and the words held are unchanged.
    pub fn get(&mut self, address: u32) -> (r: SimResult<u32, SimError>)
        ensures
            final(self)@ == old(self)@,
            r == SimResult::<u32, SimError>::Wait(
                old(self)@.delay as u32,
                old(self)@.words[address],
            ),
    {
        let ghost s = self.data@;
        let n = self.data.len();
        let mut i: usize = 0;
        while i < n
            invariant
                *self == *old(self),
                self.data@ == s,
                n == s.len(),
                i <= n,
                forall|j: int| 0 <= j < i ==> s[j].0 != address,
            decreases n - i,
        {
            if self.data[i].0 == address {
                proof {
                    lemma_lookup_skip_prefix(s, address, i as int);
                }
                return SimResult::Wait(self.delay as u32, self.data[i].1);
            }
            i += 1;
        }
        proof {
            lemma_lookup_skip_prefix(s, address, n as int);
            assert(s.skip(n as int) =~= Seq::<(u32, u32)>::empty());
            lemma_lookup_push_new(s, (address, 0));
            assert forall|b: u32| b != address implies lookup(s.push((address, 0)), b) == lookup(
                s,
                b,
            ) by {
                lemma_lookup_push_other(s, (address, 0), b);
            }
        }
        self.data.push((address, 0));
        proof {
            assert(self@.words =~= old(self)@.words);
            assert(self@ == old(self)@);
        }
        SimResult::Wait(self.delay as u32, 0)
    }

    /// Places `value` at `address` after the store's fixed delay. It always
    /// succeeds; every other address is unchanged.
    pub fn set(&mut self, address: u32, value: u32) -> (r: SimResult<(), SimError>)
        ensures
            final(self)@.delay == old(self)@.delay,
            final(self)@.words == old(self)@.words.insert(address, value),
            r == SimResult::<(), SimError>::Wait(old(self)@.delay as u32, ()),
    {
        self.store(address, value);
        SimResult::Wait(self.delay as u32, ())
    }
}


/// A direct-mapped write-back cache in front of another memory level.
///
/// An address maps to the line `address % lines`, tagged `address / lines`;
/// with a power-of-two line count these are exactly its low index bits and
/// high tag bits. A dirty line is pushed to the next level only when a
/// conflicting address displaces it.
#[derive(Debug)]
pub struct DMCache {
    delay: u16,
    lines: Vec<DMCacheLine>,
    base: Box<Memory>,
}

/// A level of the memory hierarchy: the backing store, or a cache wrapping
/// the next level down. The control unit owns the head of the chain and
/// each level owns the next.
#[derive(Debug)]
pub enum Memory {
    Dram(DRAM),
    Cache(DMCache),
}

impl DMCache {
    /// The ghost state of this cache, the level below included.
    pub closed spec fn model(&self) -> CacheModel
        decreases self,
    {
        CacheModel { delay: self.delay, lines: self.lines@, base: Box::new((*self.base).model()) }
    }
}

impl View for DMCache {
    type V = CacheModel;

    open spec fn view(&self) -> CacheModel {
        self.model()
    }
}

impl Memory {
    /// The ghost state of this level, everything below included.
    pub closed spec fn model(&self) -> MemModel
        decreases self,
    {
        match self {
            Memory::Dram(d) => MemModel::Dram(d@),
            Memory::Cache(c) => MemModel::Cache(c.model()),
        }
    }
}

impl View for Memory {
    type V = MemModel;

    open spec fn view(&self) -> MemModel {
        self.model()
    }
}

impl DMCache {
    /// Creates a cache of `num_lines` empty lines with the given per-access
    /// delay, wrapping `base`. Until lines fill, every address observes
    /// what `base` observes.
    pub fn new(delay: u16, num_lines: u32, base: Memory) -> (r: DMCache)
        requires
            num_lines >= 1,
            base@.wf(),
            base@.cdepth() <= 2,
        ensures
            MemModel::Cache(r@).wf(),
            r@.delay == delay,
            r@.nl() == num_lines,
            forall|i: int| 0 <= i < num_lines ==> !r@.lines[i].valid,
            *r@.base == base@,
            MemModel::Cache(r@).cdepth() == base@.cdepth() + 1,
            forall|a: u32| MemModel::Cache(r@).word_at(a) == base@.word_at(a),
    {
        let mut lines: Vec<DMCacheLine> = Vec::new();
        let mut i: u32 = 0;
        while i < num_lines
            invariant
                i <= num_lines,
                lines@.len() == i,
                forall|j: int| 0 <= j < i ==> !lines@[j].valid,
            decreases num_lines - i,
        {
            lines.push(DMCacheLine::new());
            i += 1;
        }
        let r = DMCache { delay, lines, base: Box::new(base) };
        proof {
            assert forall|a: u32| MemModel::Cache(r@).word_at(a) == base@.word_at(a) by {
                lemma_addr_recompose(a, r@.nl());
            }
        }
        r
    }

    /// Retrieves the word at `address`: the cached word on a hit; on a
    /// miss, a dirty conflicting line is first pushed down, the word is
    /// fetched from below and installed as a clean line. The reported
    /// cycles are exactly the cost the model assigns, and no address
    /// changes the word it observes.
    pub fn get(&mut self, address: u32) -> (r: SimResult<u32, SimError>)
        requires
            MemModel::Cache(old(self)@).wf(),
        ensures
            MemModel::Cache(final(self)@) == MemModel::Cache(old(self)@).get_m(address),
            r matches SimResult::Wait(cycles, v) && cycles == MemModel::Cache(
                old(self)@,
            ).get_cost(address) && v == MemModel::Cache(old(self)@).word_at(address),
        decreases MemModel::Cache(old(self)@).cdepth(), 0int,
    {
        let ghost pre = MemModel::Cache(self@);
        let len32 = self.lines.len() as u32;
        let idx32 = address % len32;
        let idx = idx32 as usize;
        let tag = address / len32;
        proof {
            lemma_addr_recompose(address, pre->Cache_0.nl());
        }
        let line = self.lines[idx];
        if line.valid && line.tag == tag {
            SimResult::Wait(self.delay as u32, line.data)
        } else {
            let ghost cpre = pre->Cache_0;
            let mut total: u32 = self.delay as u32;
            proof {
                lemma_cost_bounds(*cpre.base, cpre.victim_of(address));
                lemma_cost_bound_values((*cpre.base).cdepth());
            }
            if line.valid && line.dirty {
                proof {
                    assert(cpre.line_addr(idx as int) < 0x1_0000_0000);
                }
                let victim = line.tag * len32 + idx32;
                let res = self.base.set(victim, line.data);
                let (cyc, _unit) = res.unwrap();
                total = total + cyc;
                proof {
                    lemma_set_m_props(*cpre.base, victim, line.data);
                    lemma_line_addr_split(cpre.nl(), line.tag as int, idx as int);
                    assert(victim != address);
                }
            }
            let ghost base1 = (*self.base)@;
            proof {
                lemma_cost_bounds(base1, address);
                lemma_cost_bound_values(base1.cdepth());
            }
            let res2 = self.base.get(address);
            let (cyc2, data) = res2.unwrap();
            total = total + cyc2;
            self.lines.set(idx, DMCacheLine { tag, data, valid: true, dirty: false });
            proof {
                if cpre.evicts(address) {
                    assert((*cpre.base).set_m(
                        cpre.victim_of(address),
                        cpre.lines[cpre.idx_of(address)].data,
                    ).word_at(address) == (*cpre.base).word_at(address));
                }
            }
            SimResult::Wait(total, data)
        }
    }

    /// Places `value` at `address`. A write hit updates the line in place
    /// and marks it dirty; a write miss first pushes a dirty conflicting
    /// line down, then overwrites the line without fetching anything. The
    /// reported cycles are exactly the cost the model assigns, and the
    /// written address is the only one that changes the word it observes.
    pub fn set(&mut self, address: u32, value: u32) -> (r: SimResult<(), SimError>)
        requires
            MemModel::Cache(old(self)@).wf(),
        ensures
            MemModel::Cache(final(self)@) == MemModel::Cache(old(self)@).set_m(address, value),
            r matches SimResult::Wait(cycles, u) && cycles == MemModel::Cache(
                old(self)@,
            ).set_cost(address),
        decreases MemModel::Cache(old(self)@).cdepth(), 0int,
    {
        let ghost pre = MemModel::Cache(self@);
        let len32 = self.lines.len() as u32;
        let idx32 = address % len32;
        let idx = idx32 as usize;
        let tag = address / len32;
        proof {
            lemma_addr_recompose(address, pre->Cache_0.nl());
        }
        let line = self.lines[idx];
        if line.valid && line.tag == tag {
            self.lines.set(idx, DMCacheLine { tag, data: value, valid: true, dirty: true });
            SimResult::Wait(self.delay as u32, ())
        } else {
            let ghost cpre = pre->Cache_0;
            let mut total: u32 = self.delay as u32;
            proof {
                lemma_cost_bounds(*cpre.base, cpre.victim_of(address));
                lemma_cost_bound_values((*cpre.base).cdepth());
            }
            if line.valid && line.dirty {
                proof {
                    assert(cpre.line_addr(idx as int) < 0x1_0000_0000);
                }
                let victim = line.tag * len32 + idx32;
                let res = self.base.set(victim, line.data);
                let (cyc, _unit) = res.unwrap();
                total = total + cyc;
            }
            self.lines.set(idx, DMCacheLine { tag, data: value, valid: true, dirty: true });
            SimResult::Wait(total, ())
        }
    }
}

impl Memory {
    /// Retrieves the word at `address` from this level of the chain.
    pub fn get(&mut self, address: u32) -> (r: SimResult<u32, SimError>)
        requires
            old(self)@.wf(),
        ensures
            final(self)@ == old(self)@.get_m(address),
            r matches SimResult::Wait(cycles, v) && cycles == old(self)@.get_cost(address) && v
                == old(self)@.word_at(address),
        decreases old(self)@.cdepth(), 1int,
    {
        match self {
            Memory::Dram(d) => d.get(address),
            Memory::Cache(c) => c.get(address),
        }
    }

    /// Places `value` at `address` through this level of the chain.
    pub fn set(&mut self, address: u32, value: u32) -> (r: SimResult<(), SimError>)
        requires
            old(self)@.wf(),
        ensures
            final(self)@ == old(self)@.set_m(address, value),
            r matches SimResult::Wait(cycles, u) && cycles == old(self)@.set_cost(address),
        decreases old(self)@.cdepth(), 1int,
    {
        match self {
            Memory::Dram(d) => d.set(address, value),
            Memory::Cache(c) => c.set(address, value),
        }
    }
}


/// Law: a word just written is the word then observed and read back at
/// that address, at whatever level the access is served, while every
/// other address keeps its word.
pub proof fn lemma_set_then_get(m: MemModel, a: u32, v: u32)
    requires
        m.wf(),
    ensures
        m.set_m(a, v).word_at(a) == v,
        m.set_m(a, v).get_m(a).word_at(a) == v,
        forall|b: u32| b != a ==> m.set_m(a, v).word_at(b) == m.word_at(b),
{
    lemma_set_m_props(m, a, v);
    lemma_get_m_props(m.set_m(a, v), a);
}

/// Law: when a write to `a2` displaces the dirty line a write to `a1`
/// left behind (equal index, different tag), the level below has received
/// `a1`'s value before the line is overwritten.
pub proof fn lemma_eviction_writes_back(c: CacheModel, a1: u32, a2: u32, v1: u32, v2: u32)
    requires
        MemModel::Cache(c).wf(),
        c.idx_of(a1) == c.idx_of(a2),
        c.tag_of(a1) != c.tag_of(a2),
    ensures
        ({
            let m1 = MemModel::Cache(c).set_m(a1, v1);
            let m2 = m1.set_m(a2, v2);
            &&& m1->Cache_0.lines[c.idx_of(a1)].dirty
            &&& (*m2->Cache_0.base).word_at(a1) == v1
        }),
{
    let len = c.nl();
    lemma_addr_recompose(a1, len);
    lemma_addr_recompose(a2, len);
    lemma_set_m_props(MemModel::Cache(c), a1, v1);
    let m1 = MemModel::Cache(c).set_m(a1, v1);
    let c1 = m1->Cache_0;
    let idx = c.idx_of(a1);
    assert(c1.lines[idx] == (DMCacheLine {
        tag: c.tag_of(a1) as u32,
        data: v1,
        valid: true,
        dirty: true,
    }));
    assert(!c1.hit(a2));
    assert(c1.evicts(a2));
    lemma_line_addr_split(len, c.tag_of(a1), idx);
    assert(c1.victim_of(a2) == a1);
    lemma_set_m_props(*c1.base, a1, v1);
}

/// Law: over the backing store, a cache hit costs the cache's own delay
/// alone; a miss adds the store's delay for each level actually
/// traversed — once for the fetch, and once more when a dirty
/// conflicting line must be pushed down first.
pub proof fn lemma_latency_additive(c: CacheModel, a: u32)
    requires
        MemModel::Cache(c).wf(),
        (*c.base) is Dram,
    ensures
        c.hit(a) ==> MemModel::Cache(c).get_cost(a) == c.delay,
        !c.hit(a) && !c.evicts(a) ==> MemModel::Cache(c).get_cost(a) == c.delay + (
        *c.base).spec_delay(),
        c.evicts(a) ==> MemModel::Cache(c).get_cost(a) == c.delay + 2 * (*c.base).spec_delay(),
        c.hit(a) || !c.evicts(a) ==> MemModel::Cache(c).set_cost(a) == c.delay,
        c.evicts(a) ==> MemModel::Cache(c).set_cost(a) == c.delay + (*c.base).spec_delay(),
{
    match *c.base {
        MemModel::Dram(d) => {
            assert((*c.base).get_cost(a) == d.delay);
            assert((*c.base).set_cost(c.victim_of(a)) == d.delay);
            if c.evicts(a) {
                let base1 = (*c.base).set_m(c.victim_of(a), c.lines[c.idx_of(a)].data);
                assert(base1 == MemModel::Dram(
                    DramModel {
                        delay: d.delay,
                        words: d.words.insert(c.victim_of(a), c.lines[c.idx_of(a)].data),
                    },
                ));
                assert(base1.get_cost(a) == d.delay);
            }
        },
        MemModel::Cache(_) => {},
    }
}

/// The word the `k`-th big-endian 4-byte group of an image denotes.
pub open spec fn word_be(bytes: Seq<u8>, k: int) -> u32 {
    (bytes[4 * k] * 0x100_0000 + bytes[4 * k + 1] * 0x1_0000 + bytes[4 * k + 2] * 0x100 + bytes[4
        * k + 3]) as u32
}

impl DRAM {
    /// Loads a memory image: a sequence of 4-byte big-endian words, the
    /// k-th placed at address k. Loading stops at the end of the input; a
    /// length that is not a multiple of four bytes is a load error and
    /// leaves the store untouched.
    pub fn load_image(&mut self, bytes: &Vec<u8>) -> (r: Result<(), SimError>)
        requires
            bytes@.len() / 4 <= 0xFFFF_FFFF,
        ensures
            r is Ok <==> bytes@.len() % 4 == 0,
            bytes@.len() % 4 != 0 ==> r == Err::<(), SimError>(SimError::Load(bytes@.len() as usize))
                && final(self)@ == old(self)@,
            final(self)@.delay == old(self)@.delay,
            r is Ok ==> (forall|k: u32|
                (k as int) < bytes@.len() / 4 ==> final(self)@.words[k] == word_be(
                    bytes@,
                    k as int,
                )),
            r is Ok ==> (forall|a: u32|
                (a as int) >= bytes@.len() / 4 ==> final(self)@.words[a] == old(self)@.words[a]),
    {
        let n = bytes.len();
        if n % 4 != 0 {
            return Err(SimError::Load(n));
        }
        let words = n / 4;
        let mut k: usize = 0;
        let mut off: usize = 0;
        while k < words
            invariant
                n == bytes@.len(),
                words == bytes@.len() / 4,
                bytes@.len() % 4 == 0,
                words <= 0xFFFF_FFFF,
                k <= words,
                off == 4 * k,
                self@.delay == old(self)@.delay,
                forall|j: u32| (j as int) < k ==> self@.words[j] == word_be(bytes@, j as int),
                forall|a: u32| a as int >= k ==> self@.words[a] == old(self)@.words[a],
            decreases words - k,
        {
            proof {
                vstd::arithmetic::div_mod::lemma_fundamental_div_mod(bytes@.len() as int, 4);
                assert(4 * (words as int) == bytes@.len());
            }
            let b0 = bytes[off];
            let b1 = bytes[off + 1];
            let b2 = bytes[off + 2];
            let b3 = bytes[off + 3];
            let w = (b0 as u32) * 0x100_0000 + (b1 as u32) * 0x1_0000 + (b2 as u32) * 0x100 + (
            b3 as u32);
            self.store(k as u32, w);
            k += 1;
            off += 4;
        }
        Ok(())
    }
}

/// A memory unit that can be inspected for display: a snapshot of address
/// and value pairs, consumed by front ends only.
pub trait InspectableMemory {
    /// What the unit asks of itself before a snapshot is taken.
    spec fn inspect_wf(&self) -> bool;

    /// What the returned snapshot must be.
    spec fn snapshot_ok(&self, r: Seq<(u32, u32)>) -> bool;

    /// Returns a snapshot of the unit's contents, as address and value
    /// pairs.
    fn inspect(&self) -> (r: Vec<(u32, u32)>)
        requires
            self.inspect_wf(),
        ensures
            self.snapshot_ok(r@),
    ;
}

impl InspectableMemory for DRAM {
    /// A store can always be inspected.
    open spec fn inspect_wf(&self) -> bool {
        true
    }

    /// The snapshot is exactly the stored pairs, in insertion order.
    open spec fn snapshot_ok(&self, r: Seq<(u32, u32)>) -> bool {
        r == self.entries()
    }

    fn inspect(&self) -> (r: Vec<(u32, u32)>)
    {
        let mut out: Vec<(u32, u32)> = Vec::new();
        let n = self.data.len();
        let mut i: usize = 0;
        while i < n
            invariant
                n == self.data@.len(),
                i <= n,
                out@ == self.data@.take(i as int),
            decreases n - i,
        {
            out.push(self.data[i]);
            proof {
                assert(self.data@.take(i + 1) =~= self.data@.take(i as int).push(
                    self.data@[i as int],
                ));
            }
            i += 1;
        }
        proof {
            assert(self.data@.take(n as int) =~= self.data@);
        }
        out
    }
}

/// The (address, value) pairs of the valid lines of a line array, in line
/// order.
pub open spec fn cache_snapshot(lines: Seq<DMCacheLine>, len: int) -> Seq<(u32, u32)>
    decreases lines.len(),
{
    if lines.len() == 0 {
        Seq::empty()
    } else {
        let prev = cache_snapshot(lines.drop_last(), len);
        let i = lines.len() - 1;
        let l = lines.last();
        if l.valid {
            prev.push(((l.tag * len + i) as u32, l.data))
        } else {
            prev
        }
    }
}

impl InspectableMemory for DMCache {
    /// Inspecting reconstructs line addresses, so the cache must be well
    /// formed.
    open spec fn inspect_wf(&self) -> bool {
        MemModel::Cache(self@).wf()
    }

    /// The snapshot lists each valid line's cached address and word.
    open spec fn snapshot_ok(&self, r: Seq<(u32, u32)>) -> bool {
        r == cache_snapshot(self@.lines, self@.nl())
    }

    fn inspect(&self) -> (r: Vec<(u32, u32)>)
    {
        let ghost cm = self@;
        let mut out: Vec<(u32, u32)> = Vec::new();
        let n = self.lines.len();
        let len32 = n as u32;
        let mut i: usize = 0;
        while i < n
            invariant
                MemModel::Cache(cm).wf(),
                cm == self@,
                n == self.lines@.len(),
                len32 == n,
                i <= n,
                out@ == cache_snapshot(self.lines@.take(i as int), cm.nl()),
            decreases n - i,
        {
            let line = self.lines[i];
            proof {
                assert(self.lines@.take(i + 1).drop_last() =~= self.lines@.take(i as int));
                if line.valid {
                    assert(cm.line_addr(i as int) < 0x1_0000_0000);
                }
            }
            if line.valid {
                out.push((line.tag * len32 + (i as u32), line.data));
            }
            i += 1;
        }
        proof {
            assert(self.lines@.take(n as int) =~= self.lines@);
        }
        out
    }
}

impl InspectableMemory for Memory {
    /// Inspecting a cache level reconstructs line addresses, so it must be
    /// well formed; the store needs nothing.
    open spec fn inspect_wf(&self) -> bool {
        match self {
            Memory::Dram(d) => d.inspect_wf(),
            Memory::Cache(c) => c.inspect_wf(),
        }
    }

    /// The snapshot is whatever this level's own snapshot is.
    open spec fn snapshot_ok(&self, r: Seq<(u32, u32)>) -> bool {
        match self {
            Memory::Dram(d) => d.snapshot_ok(r),
            Memory::Cache(c) => c.snapshot_ok(r),
        }
    }

    fn inspect(&self) -> (r: Vec<(u32, u32)>)
    {
        match self {
            Memory::Dram(d) => d.inspect(),
            Memory::Cache(c) => c.inspect(),
        }
    }
}

} // verus!
