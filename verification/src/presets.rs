//! Style presets for the enhancement operation.
//!
//! A preset is a named bundle of tone, formality and instruction text that
//! steers the rewrite. A fixed built-in set is always present; entries from
//! an external declarative source may be merged in by key at startup, later
//! entries overriding earlier ones. Lookup is by key; keys stay unique.

use crate::text::str_eq;
use vstd::prelude::*;

verus! {

/// A named, immutable style descriptor.
pub struct StylePreset {
    pub name: String,
    pub tone: String,
    pub formality: String,
    pub instructions: String,
}

/// The mathematical shape of a [`StylePreset`].
pub struct StylePresetV {
    pub name: Seq<char>,
    pub tone: Seq<char>,
    pub formality: Seq<char>,
    pub instructions: Seq<char>,
}

impl View for StylePreset {
    type V = StylePresetV;

    open spec fn view(&self) -> StylePresetV {
        StylePresetV {
            name: self.name@,
            tone: self.tone@,
            formality: self.formality@,
            instructions: self.instructions@,
        }
    }
}

impl StylePreset {
    /// An owned copy with the same contents.
    pub fn duplicate(&self) -> (r: StylePreset)
        ensures
            r@ == self@,
    {
        StylePreset {
            name: self.name.clone(),
            tone: self.tone.clone(),
            formality: self.formality.clone(),
            instructions: self.instructions.clone(),
        }
    }
}

/// The key/preset pairs a [`PresetManager`] holds, in storage order.
pub type PresetTable = Seq<(Seq<char>, StylePresetV)>;

/// The index of the entry under `key`, or `-1` when there is none.
pub open spec fn spec_find(m: PresetTable, key: Seq<char>) -> int
    decreases m.len(),
{
    if m.len() == 0 {
        -1
    } else if m[0].0 == key {
        0
    } else {
        let r = spec_find(m.drop_first(), key);
        if r < 0 {
            -1
        } else {
            r + 1
        }
    }
}

/// The preset stored under `key`, if any.
pub open spec fn spec_get(m: PresetTable, key: Seq<char>) -> Option<StylePresetV> {
    let i = spec_find(m, key);
    if i >= 0 {
        Some(m[i].1)
    } else {
        None
    }
}

/// `m` with `v` stored under `key`: replaces the entry in place when the
/// key is present, appends otherwise.
pub open spec fn spec_put(m: PresetTable, key: Seq<char>, v: StylePresetV) -> PresetTable {
    let i = spec_find(m, key);
    if i >= 0 {
        m.update(i, (key, v))
    } else {
        m.push((key, v))
    }
}

/// `m` after storing every entry of `es` in order; a later entry for the
/// same key overrides an earlier one and the built-in one.
pub open spec fn spec_merge(m: PresetTable, es: PresetTable) -> PresetTable
    decreases es.len(),
{
    if es.len() == 0 {
        m
    } else {
        spec_merge(spec_put(m, es[0].0, es[0].1), es.drop_first())
    }
}

/// No two entries share a key.
pub open spec fn keys_unique(m: PresetTable) -> bool {
    forall|i: int, j: int| 0 <= i < j < m.len() ==> m[i].0 != m[j].0
}

proof fn lemma_find_bounds(m: PresetTable, key: Seq<char>)
    ensures
        spec_find(m, key) >= 0 ==> spec_find(m, key) < m.len() && m[spec_find(m, key)].0 == key,
        spec_find(m, key) < 0 ==> forall|i: int| 0 <= i < m.len() ==> m[i].0 != key,
    decreases m.len(),
{
    if m.len() > 0 && m[0].0 != key {
        lemma_find_bounds(m.drop_first(), key);
        if spec_find(m.drop_first(), key) < 0 {
            assert(forall|i: int|
                1 <= i < m.len() ==> m[i].0 == m.drop_first()[i - 1].0 && m.drop_first()[i
                    - 1].0 != key);
        }
    }
}

proof fn lemma_find_same_keys(m1: PresetTable, m2: PresetTable, key: Seq<char>)
    requires
        m1.len() == m2.len(),
        forall|i: int| 0 <= i < m1.len() ==> m1[i].0 == m2[i].0,
    ensures
        spec_find(m1, key) == spec_find(m2, key),
    decreases m1.len(),
{
    if m1.len() > 0 {
        assert(forall|i: int|
            0 <= i < m1.drop_first().len() ==> m1.drop_first()[i].0 == m2.drop_first()[i].0);
        lemma_find_same_keys(m1.drop_first(), m2.drop_first(), key);
    }
}

proof fn lemma_find_push(m: PresetTable, x: (Seq<char>, StylePresetV), key: Seq<char>)
    ensures
        spec_find(m.push(x), key) == (if spec_find(m, key) >= 0 {
            spec_find(m, key)
        } else if x.0 == key {
            m.len() as int
        } else {
            -1
        }),
    decreases m.len(),
{
    if m.len() == 0 {
        assert(m.push(x)[0] == x);
        assert(m.push(x).drop_first() =~= m);
    } else {
        assert(m.push(x)[0] == m[0]);
        assert(m.push(x).drop_first() =~= m.drop_first().push(x));
        lemma_find_push(m.drop_first(), x, key);
    }
}

/// What storing under one key does to lookups: the stored key resolves to
/// the stored preset, and every other key resolves as before.
pub proof fn lemma_put_get(m: PresetTable, key: Seq<char>, v: StylePresetV, k: Seq<char>)
    ensures
        spec_get(spec_put(m, key, v), k) == (if k == key {
            Some(v)
        } else {
            spec_get(m, k)
        }),
{
    lemma_find_bounds(m, key);
    lemma_find_bounds(m, k);
    let i = spec_find(m, key);
    if i >= 0 {
        let m2 = m.update(i, (key, v));
        assert(forall|j: int| 0 <= j < m.len() ==> m[j].0 == m2[j].0);
        lemma_find_same_keys(m, m2, k);
        lemma_find_bounds(m2, k);
    } else {
        lemma_find_push(m, (key, v), k);
        lemma_find_bounds(m.push((key, v)), k);
    }
}

/// Storing preserves key uniqueness.
pub proof fn lemma_put_keys_unique(m: PresetTable, key: Seq<char>, v: StylePresetV)
    requires
        keys_unique(m),
    ensures
        keys_unique(spec_put(m, key, v)),
{
    lemma_find_bounds(m, key);
    let i = spec_find(m, key);
    if i >= 0 {
        let m2 = m.update(i, (key, v));
        assert(forall|j: int| 0 <= j < m.len() ==> m[j].0 == m2[j].0);
    }
}

/// The last preset the entries carry for `k`, if any.
pub open spec fn spec_last_entry(es: PresetTable, k: Seq<char>) -> Option<StylePresetV>
    decreases es.len(),
{
    if es.len() == 0 {
        None
    } else {
        match spec_last_entry(es.drop_first(), k) {
            Some(v) => Some(v),
            None => {
                if es[0].0 == k {
                    Some(es[0].1)
                } else {
                    None
                }
            },
        }
    }
}

/// Later-loaded entries merge into the stored table and override it by
/// key: after a merge, a key the entries name resolves to its last entry,
/// and a key they do not name keeps the preset it had, so nothing stored
/// is lost except what an entry deliberately overrides.
pub proof fn lemma_merge_overrides(m: PresetTable, es: PresetTable, k: Seq<char>)
    ensures
        spec_get(spec_merge(m, es), k) == (match spec_last_entry(es, k) {
            Some(v) => Some(v),
            None => spec_get(m, k),
        }),
    decreases es.len(),
{
    if es.len() > 0 {
        lemma_merge_overrides(spec_put(m, es[0].0, es[0].1), es.drop_first(), k);
        lemma_put_get(m, es[0].0, es[0].1, k);
    }
}

/// Merging preserves key uniqueness.
pub proof fn lemma_merge_keys_unique(m: PresetTable, es: PresetTable)
    requires
        keys_unique(m),
    ensures
        keys_unique(spec_merge(m, es)),
    decreases es.len(),
{
    if es.len() > 0 {
        lemma_put_keys_unique(m, es[0].0, es[0].1);
        lemma_merge_keys_unique(spec_put(m, es[0].0, es[0].1), es.drop_first());
    }
}

/// The manager of the preset table.
pub struct PresetManager {
    entries: Vec<(String, StylePreset)>,
}

impl View for PresetManager {
    type V = PresetTable;

    closed spec fn view(&self) -> PresetTable {
        Seq::new(
            self.entries@.len(),
            |i: int|
                if 0 <= i < self.entries.len() {
                    (self.entries[i].0@, self.entries[i].1@)
                } else {
                    (Seq::empty(), StylePresetV {
                        name: Seq::empty(),
                        tone: Seq::empty(),
                        formality: Seq::empty(),
                        instructions: Seq::empty(),
                    })
                },
        )
    }
}

/// The built-in preset table, in its fixed order.
pub open spec fn builtin_presets() -> PresetTable {
    seq![
        (
            "casual"@,
            StylePresetV {
                name: "Casual"@,
                tone: "friendly, conversational"@,
                formality: "informal"@,
                instructions: "Use simple words, contractions are okay, keep it natural and relaxed"@,
            },
        ),
        (
            "business"@,
            StylePresetV {
                name: "Business"@,
                tone: "professional, polite"@,
                formality: "formal"@,
                instructions: "Clear and concise, avoid slang, maintain professional courtesy"@,
            },
        ),
        (
            "academic"@,
            StylePresetV {
                name: "Academic"@,
                tone: "objective, analytical"@,
                formality: "highly formal"@,
                instructions: "Use precise terminology, passive voice acceptable, maintain scholarly tone"@,
            },
        ),
        (
            "creative"@,
            StylePresetV {
                name: "Creative"@,
                tone: "expressive, vivid"@,
                formality: "flexible"@,
                instructions: "Encourage creativity, use varied sentence structures, be engaging"@,
            },
        ),
    ]
}

impl PresetManager {
    /// A manager holding exactly the built-in presets.
    pub fn new() -> (r: PresetManager)
        ensures
            r@ == builtin_presets(),
            keys_unique(r@),
    {
        let mut entries: Vec<(String, StylePreset)> = Vec::new();
        entries.push(
            (
                String::from_str("casual"),
                StylePreset {
                    name: String::from_str("Casual"),
                    tone: String::from_str("friendly, conversational"),
                    formality: String::from_str("informal"),
                    instructions: String::from_str(
                        "Use simple words, contractions are okay, keep it natural and relaxed",
                    ),
                },
            ),
        );
        entries.push(
            (
                String::from_str("business"),
                StylePreset {
                    name: String::from_str("Business"),
                    tone: String::from_str("professional, polite"),
                    formality: String::from_str("formal"),
                    instructions: String::from_str(
                        "Clear and concise, avoid slang, maintain professional courtesy",
                    ),
                },
            ),
        );
        entries.push(
            (
                String::from_str("academic"),
                StylePreset {
                    name: String::from_str("Academic"),
                    tone: String::from_str("objective, analytical"),
                    formality: String::from_str("highly formal"),
                    instructions: String::from_str(
                        "Use precise terminology, passive voice acceptable, maintain scholarly tone",
                    ),
                },
            ),
        );
        entries.push(
            (
                String::from_str("creative"),
                StylePreset {
                    name: String::from_str("Creative"),
                    tone: String::from_str("expressive, vivid"),
                    formality: String::from_str("flexible"),
                    instructions: String::from_str(
                        "Encourage creativity, use varied sentence structures, be engaging",
                    ),
                },
            ),
        );
        let r = PresetManager { entries };
        proof {
            assert(r@ =~= builtin_presets());
            reveal_strlit("casual");
            reveal_strlit("business");
            reveal_strlit("academic");
            reveal_strlit("creative");
            assert("casual"@.len() == 6);
            assert("business"@.len() == 8);
            assert("academic"@.len() == 8);
            assert("creative"@.len() == 8);
            assert(("business"@)[0] != ("academic"@)[0]);
            assert(("business"@)[0] != ("creative"@)[0]);
            assert(("academic"@)[0] != ("creative"@)[0]);
            assert(keys_unique(r@));
        }
        r
    }

    /// The preset under `key`, if any.
    pub fn get<'a>(&'a self, key: &str) -> (r: Option<&'a StylePreset>)
        ensures
            match spec_get(self@, key@) {
                Some(v) => r matches Some(p) && p@ == v,
                None => r is None,
            },
    {
        proof {
            lemma_find_bounds(self@, key@);
        }
        match self.find_index(key) {
            Some(i) => Some(&self.entries[i].1),
            None => None,
        }
    }

    /// The index of the entry under `key`, if any.
    fn find_index(&self, key: &str) -> (r: Option<usize>)
        ensures
            match r {
                Some(i) => spec_find(self@, key@) == i as int && i < self.entries@.len(),
                None => spec_find(self@, key@) == -1,
            },
    {
        let ghost m = self@;
        proof {
            assert(m.skip(0) =~= m);
        }
        let n = self.entries.len();
        let mut i: usize = 0;
        while i < n
            invariant
                n == self.entries@.len(),
                i <= n,
                m == self@,
                m.len() == n,
                spec_find(m, key@) == if spec_find(m.skip(i as int), key@) >= 0 {
                    spec_find(m.skip(i as int), key@) + i
                } else {
                    -1
                },
            decreases n - i,
        {
            proof {
                assert(m.skip(i as int)[0] == (self.entries[i as int].0@, self.entries[i as int].1@));
            }
            if str_eq(self.entries[i].0.as_str(), key) {
                return Some(i);
            }
            i = i + 1;
            proof {
                assert(m.skip(i - 1).drop_first() =~= m.skip(i as int));
            }
        }
        proof {
            assert(m.skip(n as int) =~= Seq::<(Seq<char>, StylePresetV)>::empty());
        }
        None
    }

    /// All preset keys, in storage order.
    pub fn keys(&self) -> (r: Vec<String>)
        ensures
            r@.len() == self@.len(),
            forall|i: int| 0 <= i < r@.len() ==> r@[i]@ == self@[i].0,
    {
        let n = self.entries.len();
        let mut r: Vec<String> = Vec::new();
        let mut i: usize = 0;
        while i < n
            invariant
                n == self.entries@.len(),
                i <= n,
                n == self@.len(),
                r@.len() == i,
                forall|j: int| 0 <= j < i ==> r@[j]@ == self@[j].0,
            decreases n - i,
        {
            r.push(self.entries[i].0.clone());
            i = i + 1;
        }
        r
    }

    /// All key/preset pairs, in storage order.
    pub fn all(&self) -> (r: Vec<(String, StylePreset)>)
        ensures
            r@.len() == self@.len(),
            forall|i: int|
                0 <= i < r@.len() ==> r@[i].0@ == self@[i].0 && r@[i].1@ == self@[i].1,
    {
        let n = self.entries.len();
        let mut r: Vec<(String, StylePreset)> = Vec::new();
        let mut i: usize = 0;
        while i < n
            invariant
                n == self.entries@.len(),
                i <= n,
                n == self@.len(),
                r@.len() == i,
                forall|j: int| 0 <= j < i ==> r@[j].0@ == self@[j].0 && r@[j].1@ == self@[j].1,
            decreases n - i,
        {
            r.push((self.entries[i].0.clone(), self.entries[i].1.duplicate()));
            i = i + 1;
        }
        r
    }

    /// Stores `v` under `key`, overriding an entry already there.
    pub fn put(&mut self, key: String, v: StylePreset)
        ensures
            final(self)@ == spec_put(old(self)@, key@, v@),
    {
        let ghost pre = self@;
        proof {
            lemma_find_bounds(pre, key@);
        }
        match self.find_index(key.as_str()) {
            Some(i) => {
                self.entries[i] = (key, v);
                proof {
                    assert(self@ =~= spec_put(pre, key@, v@));
                }
            },
            None => {
                self.entries.push((key, v));
                proof {
                    assert(self@ =~= spec_put(pre, key@, v@));
                }
            },
        }
    }

    /// Merges externally supplied entries into the table, in order, each
    /// overriding by key.
    pub fn merge(&mut self, entries: Vec<(String, StylePreset)>)
        ensures
            final(self)@ == spec_merge(old(self)@, entry_views(entries@)),
    {
        let ghost pre = self@;
        let ghost es0 = entry_views(entries@);
        let mut rest = entries;
        while rest.len() > 0
            invariant
                spec_merge(pre, es0) == spec_merge(self@, entry_views(rest@)),
            decreases rest@.len(),
        {
            let ghost before = rest@;
            let (key, v) = rest.remove(0);
            proof {
                assert(entry_views(before)[0] == (key@, v@));
                assert(entry_views(before).drop_first() =~= entry_views(rest@));
            }
            self.put(key, v);
        }
        proof {
            assert(entry_views(rest@) =~= Seq::<(Seq<char>, StylePresetV)>::empty());
        }
    }
}

impl Default for PresetManager {
    /// The built-in presets.
    fn default() -> (r: PresetManager)
        ensures
            r@ == builtin_presets(),
    {
        PresetManager::new()
    }
}

/// The element-wise views of a sequence of owned entries.
pub open spec fn entry_views(es: Seq<(String, StylePreset)>) -> PresetTable {
    Seq::new(es.len(), |i: int| (es[i].0@, es[i].1@))
}

} // verus!
