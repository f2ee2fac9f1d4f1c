//! Preference maps: sets of preference fields with JSON values, their validation and cleanup.

use vstd::prelude::*;

use super::json::{json_as_u64, JsonValue};

verus! {

#[derive(Debug, Clone, Copy, PartialEq, Eq, Structural)]
pub enum PreferenceErrorKind {
    InvalidType,
    InvalidValue,
}

#[derive(Debug, Clone, Copy)]
pub struct PreferenceError<P> {
    pub field: P,
    pub kind: PreferenceErrorKind,
}

/// A preference field: it says which JSON values it accepts and which one is its default.
pub trait Preference: Sized + Copy + core::fmt::Debug {
    type Flags: Copy;

    /// `Ok` when `value` is an acceptable value of this field, else the error to report.
    spec fn spec_validate(self, value: JsonValue) -> Result<(), PreferenceError<Self>>;

    /// Whether `value` is the default value of this field, given the flags of the map.
    spec fn spec_is_default(self, value: JsonValue, flags: Self::Flags) -> bool;

    /// The field that holds the flags of the map.
    spec fn spec_flags_key() -> Self;

    /// The name of the field.
    spec fn spec_name(self) -> Seq<char>;

    /// The flags that the value of the flags field gives: `Some` of its value when it is a
    /// non-negative integer, else `None`.
    spec fn spec_flags_from(value: Option<u64>) -> Self::Flags;

    fn flags_key() -> (r: Self)
        ensures
            r == Self::spec_flags_key(),
    ;

    fn validate(&self, value: &JsonValue) -> (r: Result<(), PreferenceError<Self>>)
        ensures
            r == self.spec_validate(*value),
    ;

    fn is_default(&self, value: &JsonValue, flags: Self::Flags) -> (r: bool)
        ensures
            r == self.spec_is_default(*value, flags),
    ;

    fn flags_from(value: Option<u64>) -> (r: Self::Flags)
        ensures
            r == Self::spec_flags_from(value),
    ;

    fn same_field(&self, other: &Self) -> (r: bool)
        ensures
            r == (*self == *other),
    ;

    /// The name of the field.
    fn name(&self) -> (r: &'static str)
        ensures
            r@ == self.spec_name(),
    ;
}

/// The message of a preference error: the field's name in quotes, then what is wrong.
pub open spec fn preference_error_text<P: Preference>(e: PreferenceError<P>) -> Seq<char> {
    "Preference Error: \""@ + e.field.spec_name() + "\" "@ + match e.kind {
        PreferenceErrorKind::InvalidType => "is invalid type"@,
        PreferenceErrorKind::InvalidValue => "has an invalid value"@,
    }
}

impl<P: Preference> PreferenceError<P> {
    /// The message of the error: the field's name in quotes, then what is wrong.
    pub fn to_string(&self) -> (r: String)
        ensures
            r@ == preference_error_text(*self),
    {
        let mut out = String::from_str("Preference Error: \"");
        out.append(self.field.name());
        out.append("\" ");
        match self.kind {
            PreferenceErrorKind::InvalidType => out.append("is invalid type"),
            PreferenceErrorKind::InvalidValue => out.append("has an invalid value"),
        }
        out
    }
}

/// The map that a sequence of entries stands for; a later entry wins over an earlier one.
pub open spec fn entries_map<K, V>(s: Seq<(K, V)>) -> Map<K, V>
    decreases s.len(),
{
    if s.len() == 0 {
        Map::empty()
    } else {
        entries_map(s.drop_last()).insert(s.last().0, s.last().1)
    }
}

/// No key occurs twice among the entries.
pub open spec fn keys_distinct<K, V>(s: Seq<(K, V)>) -> bool {
    forall|i: int, j: int| 0 <= i < s.len() && 0 <= j < s.len() && i != j ==> s[i].0 != s[j].0
}

proof fn lemma_entries_map_dom<K, V>(s: Seq<(K, V)>, k: K)
    ensures
        entries_map(s).dom().contains(k) <==> exists|i: int| 0 <= i < s.len() && s[i].0 == k,
    decreases s.len(),
{
    if s.len() > 0 {
        lemma_entries_map_dom(s.drop_last(), k);
        if entries_map(s).dom().contains(k) && s.last().0 != k {
            let i = choose|i: int| 0 <= i < s.drop_last().len() && s.drop_last()[i].0 == k;
            assert(s[i].0 == k);
        }
        if exists|i: int| 0 <= i < s.len() && s[i].0 == k {
            let i = choose|i: int| 0 <= i < s.len() && s[i].0 == k;
            if i < s.len() - 1 {
                assert(s.drop_last()[i].0 == k);
            }
        }
    }
}

proof fn lemma_entries_map_index<K, V>(s: Seq<(K, V)>, i: int)
    requires
        keys_distinct(s),
        0 <= i < s.len(),
    ensures
        entries_map(s).dom().contains(s[i].0),
        entries_map(s)[s[i].0] == s[i].1,
    decreases s.len(),
{
    if i < s.len() - 1 {
        assert(keys_distinct(s.drop_last()));
        assert(s.drop_last()[i] == s[i]);
        lemma_entries_map_index(s.drop_last(), i);
    }
}

proof fn lemma_entries_map_finite<K, V>(s: Seq<(K, V)>)
    ensures
        entries_map(s).dom().finite(),
        entries_map(s).dom().len() <= s.len(),
    decreases s.len(),
{
    if s.len() > 0 {
        lemma_entries_map_finite(s.drop_last());
    }
}

/// Replacing the value of the entry at `i` replaces the value of its key.
proof fn lemma_entries_map_update<K, V>(s: Seq<(K, V)>, i: int, v: V)
    requires
        keys_distinct(s),
        0 <= i < s.len(),
    ensures
        keys_distinct(s.update(i, (s[i].0, v))),
        entries_map(s.update(i, (s[i].0, v))) == entries_map(s).insert(s[i].0, v),
{
    let t = s.update(i, (s[i].0, v));
    assert(keys_distinct(t));
    assert forall|k: K| entries_map(t).dom().contains(k) <==> entries_map(s).insert(s[i].0, v).dom().contains(
        k,
    ) by {
        lemma_entries_map_dom(t, k);
        lemma_entries_map_dom(s, k);
        if exists|j: int| 0 <= j < s.len() && s[j].0 == k {
            let j = choose|j: int| 0 <= j < s.len() && s[j].0 == k;
            assert(t[j].0 == k);
        }
        if exists|j: int| 0 <= j < t.len() && t[j].0 == k {
            let j = choose|j: int| 0 <= j < t.len() && t[j].0 == k;
            assert(s[j].0 == k);
        }
    }
    assert forall|k: K| #[trigger] entries_map(t).dom().contains(k) implies entries_map(t)[k] == entries_map(
        s,
    ).insert(s[i].0, v)[k] by {
        lemma_entries_map_dom(t, k);
        let j = choose|j: int| 0 <= j < t.len() && t[j].0 == k;
        lemma_entries_map_index(t, j);
        if j != i {
            lemma_entries_map_index(s, j);
        }
    }
    assert(entries_map(t) =~= entries_map(s).insert(s[i].0, v));
}

/// Removing the last entry removes its key.
proof fn lemma_entries_map_pop<K, V>(s: Seq<(K, V)>)
    requires
        keys_distinct(s),
        s.len() > 0,
    ensures
        keys_distinct(s.drop_last()),
        entries_map(s.drop_last()) == entries_map(s).remove(s.last().0),
        !entries_map(s.drop_last()).dom().contains(s.last().0),
{
    let t = s.drop_last();
    assert(keys_distinct(t));
    lemma_entries_map_dom(t, s.last().0);
    if entries_map(t).dom().contains(s.last().0) {
        let j = choose|j: int| 0 <= j < t.len() && t[j].0 == s.last().0;
        assert(s[j].0 == s[s.len() - 1].0);
    }
    assert(entries_map(t) =~= entries_map(s).remove(s.last().0));
}

/// A set of preference fields with their JSON values, at most one value per field.
#[derive(Debug)]
pub struct PreferenceMap<P: Preference> {
    entries: Vec<(P, JsonValue)>,
}

impl<P: Preference> View for PreferenceMap<P> {
    type V = Map<P, JsonValue>;

    closed spec fn view(&self) -> Map<P, JsonValue> {
        entries_map(self.entries@)
    }
}

/// The flags of a preference map: those that the value of the flags field gives.
pub open spec fn spec_map_flags<P: Preference>(m: Map<P, JsonValue>) -> P::Flags {
    P::spec_flags_from(
        if m.dom().contains(P::spec_flags_key()) {
            json_as_u64(m[P::spec_flags_key()])
        } else {
            None
        },
    )
}

/// Whether every field of the map holds an acceptable value.
pub open spec fn spec_map_valid<P: Preference>(m: Map<P, JsonValue>) -> bool {
    forall|k: P| #[trigger] m.dom().contains(k) ==> k.spec_validate(m[k]) is Ok
}

/// The fields of the map whose values are acceptable.
pub open spec fn spec_map_clean<P: Preference>(m: Map<P, JsonValue>) -> Map<P, JsonValue> {
    Map::new(|k: P| m.dom().contains(k) && k.spec_validate(m[k]) is Ok, |k: P| m[k])
}

/// The map with every default value replaced by `null`.
pub open spec fn spec_map_nullify<P: Preference>(m: Map<P, JsonValue>) -> Map<P, JsonValue> {
    Map::new(
        |k: P| m.dom().contains(k),
        |k: P|
            if k.spec_is_default(m[k], spec_map_flags(m)) {
                JsonValue::Null
            } else {
                m[k]
            },
    )
}

impl<P: Preference> PreferenceMap<P> {
    #[verifier::type_invariant]
    spec fn distinct_fields(self) -> bool {
        keys_distinct(self.entries@)
    }

    /// The fields and their values, each field once.
    pub fn entries(&self) -> (r: &Vec<(P, JsonValue)>)
        ensures
            entries_map(r@) == self@,
            keys_distinct(r@),
    {
        proof {
            use_type_invariant(self);
        }
        &self.entries
    }

    /// An empty map.
    pub fn new() -> (r: Self)
        ensures
            r@ == Map::<P, JsonValue>::empty(),
    {
        PreferenceMap { entries: Vec::new() }
    }

    /// The number of fields in the map.
    pub fn len(&self) -> (r: usize)
        ensures
            r as nat == self@.dom().len(),
    {
        proof {
            use_type_invariant(self);
            lemma_seq_map_len(self.entries@);
        }
        self.entries.len()
    }

    fn find(&self, field: &P) -> (r: Option<usize>)
        ensures
            match r {
                Some(i) => i < self.entries@.len() && self.entries@[i as int].0 == *field,
                None => !self@.dom().contains(*field),
            },
    {
        let mut i: usize = 0;
        while i < self.entries.len()
            invariant
                i <= self.entries@.len(),
                forall|j: int| 0 <= j < i ==> self.entries@[j].0 != *field,
            decreases self.entries@.len() - i,
        {
            if self.entries[i].0.same_field(field) {
                return Some(i);
            }
            i += 1;
        }
        proof {
            lemma_entries_map_dom(self.entries@, *field);
        }
        None
    }

    /// The value of `field`, if the map has one.
    pub fn get(&self, field: &P) -> (r: Option<&JsonValue>)
        ensures
            match r {
                Some(v) => self@.dom().contains(*field) && self@[*field] == *v,
                None => !self@.dom().contains(*field),
            },
    {
        proof {
            use_type_invariant(self);
        }
        match self.find(field) {
            Some(i) => {
                proof {
                    lemma_entries_map_index(self.entries@, i as int);
                }
                Some(&self.entries[i].1)
            },
            None => None,
        }
    }

    /// Sets the value of `field`, replacing the one it had.
    pub fn insert(&mut self, field: P, value: JsonValue)
        ensures
            final(self)@ == old(self)@.insert(field, value),
    {
        proof {
            use_type_invariant(&*self);
        }
        let found = self.find(&field);
        let mut v: Vec<(P, JsonValue)> = Vec::new();
        std::mem::swap(&mut v, &mut self.entries);
        match found {
            Some(i) => {
                proof {
                    lemma_entries_map_update(v@, i as int, value);
                }
                v.set(i, (field, value));
            },
            None => {
                let ghost s = v@;
                proof {
                    lemma_entries_map_dom(s, field);
                    assert(s.push((field, value)).drop_last() =~= s);
                    assert(keys_distinct(s.push((field, value)))) by {
                        if exists|j: int| 0 <= j < s.len() && s[j].0 == field {
                            let j = choose|j: int| 0 <= j < s.len() && s[j].0 == field;
                            lemma_entries_map_index(s, j);
                        }
                    }
                }
                v.push((field, value));
            },
        }
        self.entries = v;
    }

    /// Checks if there are any invalid preference fields.
    pub fn validate(&self) -> (r: Result<(), PreferenceError<P>>)
        ensures
            r is Ok <==> spec_map_valid(self@),
            r matches Err(e) ==> exists|k: P|
                #[trigger] self@.dom().contains(k) && k.spec_validate(self@[k]) == Err::<(), _>(e),
    {
        proof {
            use_type_invariant(self);
        }
        let mut i: usize = 0;
        while i < self.entries.len()
            invariant
                keys_distinct(self.entries@),
                i <= self.entries@.len(),
                forall|j: int|
                    0 <= j < i ==> (#[trigger] self.entries@[j]).0.spec_validate(self.entries@[j].1) is Ok,
            decreases self.entries@.len() - i,
        {
            let (field, value) = (&self.entries[i].0, &self.entries[i].1);
            match field.validate(value) {
                Err(e) => {
                    proof {
                        lemma_entries_map_index(self.entries@, i as int);
                    }
                    return Err(e);
                },
                Ok(()) => {},
            }
            i += 1;
        }
        proof {
            assert forall|k: P| #[trigger] self@.dom().contains(k) implies k.spec_validate(self@[k]) is Ok by {
                lemma_entries_map_dom(self.entries@, k);
                let j = choose|j: int| 0 <= j < self.entries@.len() && self.entries@[j].0 == k;
                lemma_entries_map_index(self.entries@, j);
                assert(self.entries@[j].0.spec_validate(self.entries@[j].1) is Ok);
            }
        }
        Ok(())
    }

    /// Removes any invalid preference fields.
    pub fn clean(&mut self)
        ensures
            final(self)@ == spec_map_clean(old(self)@),
    {
        proof {
            use_type_invariant(&*self);
        }
        let ghost m0 = self@;
        let mut rest: Vec<(P, JsonValue)> = Vec::new();
        std::mem::swap(&mut rest, &mut self.entries);
        let mut kept: Vec<(P, JsonValue)> = Vec::new();
        proof {
            assert(entries_map(kept@) =~= Map::<P, JsonValue>::empty());
        }
        while rest.len() > 0
            invariant
                keys_distinct(rest@),
                keys_distinct(kept@),
                forall|k: P| #[trigger] entries_map(rest@).dom().contains(k) ==> m0.dom().contains(k)
                    && m0[k] == entries_map(rest@)[k],
                forall|k: P| #[trigger] m0.dom().contains(k) ==> (entries_map(rest@).dom().contains(k)
                    || (entries_map(kept@).dom().contains(k) <==> k.spec_validate(m0[k]) is Ok)),
                forall|k: P| #[trigger] entries_map(kept@).dom().contains(k) ==> m0.dom().contains(k) && entries_map(kept@)[k] == m0[k]
                    && k.spec_validate(m0[k]) is Ok && !entries_map(rest@).dom().contains(k),
            decreases rest@.len(),
        {
            let ghost before = rest@;
            let ghost mine = kept@;
            proof {
                lemma_entries_map_pop(before);
                lemma_entries_map_index(before, before.len() - 1);
            }
            let (field, value) = rest.pop().unwrap();
            assert(rest@ == before.drop_last());
            let ok = field.validate(&value).is_ok();
            if ok {
                proof {
                    lemma_entries_map_dom(mine, field);
                    assert(mine.push((field, value)).drop_last() =~= mine);
                    assert(keys_distinct(mine.push((field, value)))) by {
                        if exists|j: int| 0 <= j < mine.len() && mine[j].0 == field {
                            let j = choose|j: int| 0 <= j < mine.len() && mine[j].0 == field;
                            lemma_entries_map_index(mine, j);
                        }
                    }
                }
                kept.push((field, value));
            }
        }
        proof {
            assert(rest@.len() == 0);
            assert(entries_map(rest@) =~= Map::<P, JsonValue>::empty());
            assert(entries_map(kept@) =~= spec_map_clean(m0));
        }
        self.entries = kept;
    }

    /// Retrieves the `flags` field.
    pub fn flags(&self) -> (r: P::Flags)
        ensures
            r == spec_map_flags(self@),
    {
        let key = P::flags_key();
        match self.get(&key) {
            Some(value) => P::flags_from(value.as_u64()),
            None => P::flags_from(None),
        }
    }

    /// If a field is the default value, set it to `null`.
    pub fn nullify_defaults(&mut self)
        ensures
            final(self)@ == spec_map_nullify(old(self)@),
    {
        proof {
            use_type_invariant(&*self);
        }
        let ghost m0 = self@;
        let ghost s0 = self.entries@;
        let flags = self.flags();
        let mut v: Vec<(P, JsonValue)> = Vec::new();
        std::mem::swap(&mut v, &mut self.entries);
        let mut i: usize = 0;
        while i < v.len()
            invariant
                i <= v@.len(),
                v@.len() == s0.len(),
                keys_distinct(s0),
                keys_distinct(v@),
                m0 == entries_map(s0),
                flags == spec_map_flags(m0),
                forall|j: int| #![trigger v@[j]] 0 <= j < v@.len() ==> v@[j].0 == s0[j].0,
                forall|j: int| #![trigger v@[j]] i <= j < v@.len() ==> v@[j] == s0[j],
                forall|j: int| #![trigger v@[j]] 0 <= j < i ==> v@[j].1 == (if s0[j].0.spec_is_default(
                    s0[j].1,
                    flags,
                ) {
                    JsonValue::Null
                } else {
                    s0[j].1
                }),
            decreases v@.len() - i,
        {
            let field = v[i].0;
            if field.is_default(&v[i].1, flags) {
                proof {
                    lemma_entries_map_update(v@, i as int, JsonValue::Null);
                }
                v.set(i, (field, JsonValue::Null));
            }
            i += 1;
        }
        proof {
            let s1 = v@;
            assert forall|k: P| #[trigger] entries_map(v@).dom().contains(k) == m0.dom().contains(k) by {
                lemma_entries_map_dom(s1, k);
                lemma_entries_map_dom(s0, k);
                if exists|j: int| 0 <= j < s0.len() && s0[j].0 == k {
                    let j = choose|j: int| 0 <= j < s0.len() && s0[j].0 == k;
                    assert(s1[j].0 == k);
                }
                if exists|j: int| 0 <= j < s1.len() && s1[j].0 == k {
                    let j = choose|j: int| 0 <= j < s1.len() && s1[j].0 == k;
                    assert(s0[j].0 == k);
                }
            }
            assert forall|k: P| #[trigger] entries_map(v@).dom().contains(k) implies entries_map(v@)[k] == spec_map_nullify(m0)[k] by {
                lemma_entries_map_dom(s1, k);
                let j = choose|j: int| 0 <= j < s1.len() && s1[j].0 == k;
                lemma_entries_map_index(s1, j);
                lemma_entries_map_index(s0, j);
            }
            assert(entries_map(v@) =~= spec_map_nullify(m0));
        }
        self.entries = v;
    }

    /// Moves every field of `new` into this map, replacing the values of the fields that both have.
    pub fn merge(&mut self, new: &mut Self)
        ensures
            final(self)@ == old(self)@.union_prefer_right(old(new)@),
            final(new)@ == Map::<P, JsonValue>::empty(),
    {
        proof {
            use_type_invariant(&*new);
        }
        let ghost m0 = self@;
        let ghost n0 = new@;
        let mut rest: Vec<(P, JsonValue)> = Vec::new();
        std::mem::swap(&mut rest, &mut new.entries);
        proof {
            assert(entries_map(new.entries@) =~= Map::<P, JsonValue>::empty());
        }
        while rest.len() > 0
            invariant
                keys_distinct(rest@),
                forall|k: P| #[trigger] entries_map(rest@).dom().contains(k) ==> n0.dom().contains(k)
                    && n0[k] == entries_map(rest@)[k],
                forall|k: P| #[trigger] n0.dom().contains(k) ==> (entries_map(rest@).dom().contains(k)
                    || (self@.dom().contains(k) && self@[k] == n0[k])),
                forall|k: P| #[trigger] self@.dom().contains(k) ==> (m0.dom().contains(k) || n0.dom().contains(k)),
                forall|k: P| #[trigger] m0.dom().contains(k) ==> self@.dom().contains(k),
                forall|k: P| #[trigger] self@.dom().contains(k) && !n0.dom().contains(k) ==> self@[k] == m0[k],
                forall|k: P| #[trigger] n0.dom().contains(k) && self@.dom().contains(k) && entries_map(rest@).dom().contains(k)
                    ==> m0.dom().contains(k) && self@[k] == m0[k],
            decreases rest@.len(),
        {
            let ghost before = rest@;
            proof {
                lemma_entries_map_pop(before);
                lemma_entries_map_index(before, before.len() - 1);
            }
            let (field, value) = rest.pop().unwrap();
            assert(rest@ == before.drop_last());
            self.insert(field, value);
        }
        proof {
            assert(rest@.len() == 0);
            assert(entries_map(rest@) =~= Map::<P, JsonValue>::empty());
            assert(self@ =~= m0.union_prefer_right(n0));
        }
    }
}

proof fn lemma_seq_map_len<K, V>(s: Seq<(K, V)>)
    requires
        keys_distinct(s),
    ensures
        entries_map(s).dom().len() == s.len(),
    decreases s.len(),
{
    lemma_entries_map_finite(s);
    if s.len() > 0 {
        lemma_entries_map_pop(s);
        lemma_seq_map_len(s.drop_last());
        lemma_entries_map_finite(s.drop_last());
    }
}

/// After removing the invalid fields, every field that is left is valid.
pub proof fn law_clean_makes_valid<P: Preference>(m: Map<P, JsonValue>)
    ensures
        spec_map_valid(spec_map_clean(m)),
{
}

/// Removing the invalid fields of a map whose fields are all valid leaves it as it was.
pub proof fn law_clean_keeps_valid_map<P: Preference>(m: Map<P, JsonValue>)
    requires
        spec_map_valid(m),
    ensures
        spec_map_clean(m) == m,
{
    assert(spec_map_clean(m) =~= m);
}

/// Removing the invalid fields twice removes no more than doing it once.
pub proof fn law_clean_idempotent<P: Preference>(m: Map<P, JsonValue>)
    ensures
        spec_map_clean(spec_map_clean(m)) == spec_map_clean(m),
{
    law_clean_makes_valid(m);
    law_clean_keeps_valid_map(spec_map_clean(m));
}

/// Replacing default values by `null` keeps the fields of the map, and the values that are
/// not defaults.
pub proof fn law_nullify_keeps_fields<P: Preference>(m: Map<P, JsonValue>, k: P)
    ensures
        spec_map_nullify(m).dom() == m.dom(),
        m.dom().contains(k) && !k.spec_is_default(m[k], spec_map_flags(m)) ==> spec_map_nullify(m)[k] == m[k],
        m.dom().contains(k) && k.spec_is_default(m[k], spec_map_flags(m)) ==> spec_map_nullify(m)[k] == JsonValue::Null,
{
    assert(spec_map_nullify(m).dom() =~= m.dom());
}

/// Merging keeps every field of either map, with the value of the merged-in map where both
/// have the field.
pub proof fn law_merge_prefers_new<P: Preference>(old_map: Map<P, JsonValue>, new_map: Map<P, JsonValue>, k: P)
    ensures
        old_map.union_prefer_right(new_map).dom().contains(k) <==> (old_map.dom().contains(k)
            || new_map.dom().contains(k)),
        new_map.dom().contains(k) ==> old_map.union_prefer_right(new_map)[k] == new_map[k],
        old_map.dom().contains(k) && !new_map.dom().contains(k) ==> old_map.union_prefer_right(new_map)[k]
            == old_map[k],
{
}

impl<P: Preference> Clone for PreferenceMap<P> {
    /// A copy of the map, with the same fields and copies of their values.
    fn clone(&self) -> (r: Self)
        ensures
            r@.dom() == self@.dom(),
            forall|k: P| #[trigger] self@.dom().contains(k) ==> json_as_u64(r@[k]) == json_as_u64(self@[k]),
    {
        proof {
            use_type_invariant(self);
        }
        let mut v: Vec<(P, JsonValue)> = Vec::new();
        let mut i: usize = 0;
        while i < self.entries.len()
            invariant
                i <= self.entries@.len(),
                v@.len() == i,
                keys_distinct(self.entries@),
                forall|j: int| 0 <= j < i ==> (#[trigger] v@[j]).0 == self.entries@[j].0 && json_as_u64(v@[j].1)
                    == json_as_u64(self.entries@[j].1),
            decreases self.entries@.len() - i,
        {
            let field = self.entries[i].0;
            let value = self.entries[i].1.clone();
            v.push((field, value));
            i += 1;
        }
        proof {
            let (s, t) = (self.entries@, v@);
            assert(keys_distinct(t)) by {
                assert forall|a: int, b: int| 0 <= a < t.len() && 0 <= b < t.len() && a != b implies t[a].0 != t[b].0 by {
                    assert(t[a].0 == s[a].0 && t[b].0 == s[b].0);
                }
            }
            assert forall|k: P| #[trigger] entries_map(t).dom().contains(k) == entries_map(s).dom().contains(k) by {
                lemma_entries_map_dom(t, k);
                lemma_entries_map_dom(s, k);
                if exists|j: int| 0 <= j < s.len() && s[j].0 == k {
                    let j = choose|j: int| 0 <= j < s.len() && s[j].0 == k;
                    assert(t[j].0 == k);
                }
                if exists|j: int| 0 <= j < t.len() && t[j].0 == k {
                    let j = choose|j: int| 0 <= j < t.len() && t[j].0 == k;
                    assert(s[j].0 == k);
                }
            }
            assert(entries_map(t).dom() =~= entries_map(s).dom());
            assert forall|k: P| #[trigger] entries_map(s).dom().contains(k) implies json_as_u64(entries_map(t)[k])
                == json_as_u64(entries_map(s)[k]) by {
                lemma_entries_map_dom(s, k);
                let j = choose|j: int| 0 <= j < s.len() && s[j].0 == k;
                lemma_entries_map_index(s, j);
                lemma_entries_map_index(t, j);
            }
        }
        PreferenceMap { entries: v }
    }
}

} // verus!
