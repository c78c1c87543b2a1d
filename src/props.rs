//! Property settings: a map from property names to values, kept in the
//! order in which names were first set, and their `-o name=value` options.
use vstd::prelude::*;

verus! {

/// No two pairs share a key.
pub open spec fn keys_unique(ps: Seq<(Seq<char>, Seq<char>)>) -> bool {
    forall|i: int, j: int| 0 <= i < j < ps.len() ==> ps[i].0 != ps[j].0
}

/// The map that a sequence of pairs describes, later pairs taking precedence.
pub open spec fn pairs_map(ps: Seq<(Seq<char>, Seq<char>)>) -> Map<Seq<char>, Seq<char>>
    decreases ps.len(),
{
    if ps.len() == 0 {
        Map::empty()
    } else {
        pairs_map(ps.drop_last()).insert(ps.last().0, ps.last().1)
    }
}

/// The `name=value` token of a property.
pub open spec fn property_token(p: (Seq<char>, Seq<char>)) -> Seq<char> {
    p.0 + "="@ + p.1
}

/// The `-o name=value` argument pairs of a sequence of properties.
pub open spec fn option_args(ps: Seq<(Seq<char>, Seq<char>)>) -> Seq<Seq<char>>
    decreases ps.len(),
{
    if ps.len() == 0 {
        seq![]
    } else {
        option_args(ps.drop_last()) + seq!["-o"@, property_token(ps.last())]
    }
}

proof fn lemma_pairs_map_keys(ps: Seq<(Seq<char>, Seq<char>)>, k: Seq<char>)
    ensures
        pairs_map(ps).contains_key(k) <==> exists|i: int| 0 <= i < ps.len() && ps[i].0 == k,
    decreases ps.len(),
{
    if ps.len() > 0 {
        lemma_pairs_map_keys(ps.drop_last(), k);
        if pairs_map(ps.drop_last()).contains_key(k) {
            let i = choose|i: int| 0 <= i < ps.drop_last().len() && ps.drop_last()[i].0 == k;
            assert(ps[i].0 == k);
        }
        if exists|i: int| 0 <= i < ps.len() && ps[i].0 == k {
            let i = choose|i: int| 0 <= i < ps.len() && ps[i].0 == k;
            if i < ps.len() - 1 {
                assert(ps.drop_last()[i].0 == k);
            }
        }
    }
}

proof fn lemma_pairs_map_update(ps: Seq<(Seq<char>, Seq<char>)>, i: int, v: Seq<char>)
    requires
        keys_unique(ps),
        0 <= i < ps.len(),
    ensures
        pairs_map(ps.update(i, (ps[i].0, v))) == pairs_map(ps).insert(ps[i].0, v),
    decreases ps.len(),
{
    let k = ps[i].0;
    let qs = ps.update(i, (k, v));
    if i == ps.len() - 1 {
        assert(qs.drop_last() =~= ps.drop_last());
        assert(pairs_map(qs) =~= pairs_map(ps).insert(k, v));
    } else {
        assert(qs.drop_last() =~= ps.drop_last().update(i, (k, v)));
        lemma_pairs_map_update(ps.drop_last(), i, v);
        assert(ps.last().0 != k);
        assert(pairs_map(qs) =~= pairs_map(ps).insert(k, v));
    }
}

/// `new` is `old` with `key` set to `value`: the pair of `key` replaced in
/// place where `old` has one, `(key, value)` appended otherwise.
pub open spec fn replaced_or_appended(
    old: Seq<(Seq<char>, Seq<char>)>,
    new: Seq<(Seq<char>, Seq<char>)>,
    key: Seq<char>,
    value: Seq<char>,
) -> bool {
    if exists|i: int| 0 <= i < old.len() && #[trigger] old[i].0 == key {
        exists|i: int|
            0 <= i < old.len() && #[trigger] old[i].0 == key && new == old.update(i, (key, value))
    } else {
        new == old.push((key, value))
    }
}

/// With unique keys, the map of the pairs has one entry per pair, and each
/// pair's value is its key's value.
pub proof fn lemma_unique_pairs_map(ps: Seq<(Seq<char>, Seq<char>)>)
    requires
        keys_unique(ps),
    ensures
        pairs_map(ps).dom().finite(),
        pairs_map(ps).dom().len() == ps.len(),
        forall|i: int| 0 <= i < ps.len() ==> #[trigger] pairs_map(ps)[ps[i].0] == ps[i].1,
    decreases ps.len(),
{
    if ps.len() > 0 {
        let init = ps.drop_last();
        lemma_unique_pairs_map(init);
        lemma_pairs_map_keys(init, ps.last().0);
        assert(!pairs_map(init).contains_key(ps.last().0));
        assert forall|i: int| 0 <= i < ps.len() implies #[trigger] pairs_map(ps)[ps[i].0]
            == ps[i].1 by {
            if i < ps.len() - 1 {
                assert(init[i] == ps[i]);
                assert(ps[i].0 != ps.last().0);
            }
        }
    }
}

/// The property options are two arguments per pair.
pub proof fn lemma_option_args_len(ps: Seq<(Seq<char>, Seq<char>)>)
    ensures
        option_args(ps).len() == 2 * ps.len(),
    decreases ps.len(),
{
    if ps.len() > 0 {
        lemma_option_args_len(ps.drop_last());
    }
}

/// The names and values of a sequence of pairs of strings.
pub open spec fn pairs_of(v: Seq<(String, String)>) -> Seq<(Seq<char>, Seq<char>)> {
    v.map_values(|p: (String, String)| (p.0@, p.1@))
}

/// Property settings of a storage object: names mapped to values.
#[derive(Debug)]
pub struct ZfsProperties {
    entries: Vec<(String, String)>,
}

impl ZfsProperties {
    /// The settings in the order in which their names were first added.
    pub closed spec fn pairs(&self) -> Seq<(Seq<char>, Seq<char>)> {
        pairs_of(self.entries@)
    }

    /// No name is set twice.
    #[verifier::type_invariant]
    closed spec fn inv(&self) -> bool {
        keys_unique(self.pairs())
    }

    /// The settings as a map from name to value.
    pub open spec fn to_map(&self) -> Map<Seq<char>, Seq<char>> {
        pairs_map(self.pairs())
    }

    /// No settings.
    pub fn new() -> (r: ZfsProperties)
        ensures
            keys_unique(r.pairs()),
            r.pairs() == Seq::<(Seq<char>, Seq<char>)>::empty(),
    {
        let r = ZfsProperties { entries: Vec::new() };
        assert(r.pairs() =~= Seq::<(Seq<char>, Seq<char>)>::empty());
        r
    }

    /// Sets `key` to `value`, replacing an earlier value of `key`; a new key
    /// goes last.
    pub fn insert(&mut self, key: String, value: String)
        ensures
            keys_unique(old(self).pairs()),
            keys_unique(final(self).pairs()),
            replaced_or_appended(old(self).pairs(), final(self).pairs(), key@, value@),
            final(self).to_map() == old(self).to_map().insert(key@, value@),
    {
        proof {
            use_type_invariant(&*self);
        }
        let ghost ps = self.pairs();
        let mut entries: Vec<(String, String)> = Vec::new();
        std::mem::swap(&mut entries, &mut self.entries);
        assert(pairs_of(entries@) == ps);
        let mut i: usize = 0;
        while i < entries.len()
            invariant
                pairs_of(entries@) == ps,
                old(self).pairs() == ps,
                keys_unique(ps),
                entries@.len() == ps.len(),
                i <= ps.len(),
                forall|j: int| 0 <= j < i ==> ps[j].0 != key@,
            decreases ps.len() - i,
        {
            if entries[i].0 == key {
                assert(ps[i as int].0 == key@);
                proof {
                    lemma_pairs_map_keys(ps, key@);
                }
                entries[i] = (key, value);
                proof {
                    assert(pairs_of(entries@) =~= ps.update(i as int, (key@, value@)));
                    lemma_pairs_map_update(ps, i as int, value@);
                    assert(keys_unique(pairs_of(entries@)));
                    assert(replaced_or_appended(ps, pairs_of(entries@), key@, value@));
                }
                self.entries = entries;
                return;
            }
            i = i + 1;
        }
        entries.push((key, value));
        proof {
            lemma_pairs_map_keys(ps, key@);
            assert(pairs_of(entries@) =~= ps.push((key@, value@)));
            assert(pairs_of(entries@).drop_last() =~= ps);
            assert(keys_unique(pairs_of(entries@)));
            assert(replaced_or_appended(ps, pairs_of(entries@), key@, value@));
        }
        self.entries = entries;
    }

    /// A copy of these settings.
    pub fn duplicate(&self) -> (r: ZfsProperties)
        ensures
            keys_unique(r.pairs()),
            keys_unique(r.pairs()),
            r.pairs() == self.pairs(),
    {
        let mut entries: Vec<(String, String)> = Vec::new();
        let mut i: usize = 0;
        while i < self.entries.len()
            invariant
                i <= self.entries@.len(),
                pairs_of(entries@) == self.pairs().take(
                    i as int,
                ),
            decreases self.entries@.len() - i,
        {
            let ghost before = pairs_of(entries@);
            entries.push((self.entries[i].0.clone(), self.entries[i].1.clone()));
            proof {
                assert(pairs_of(entries@) =~= before.push(
                    self.pairs()[i as int],
                ));
                assert(self.pairs().take(i + 1) =~= self.pairs().take(i as int).push(
                    self.pairs()[i as int],
                ));
            }
            i = i + 1;
        }
        proof {
            use_type_invariant(self);
            assert(pairs_of(entries@) =~= self.pairs());
        }
        let r = ZfsProperties { entries };
        r
    }

    /// Appends the `-o name=value` pair of each setting to `args`.
    pub fn push_option_args(&self, args: &mut Vec<String>)
        ensures
            keys_unique(self.pairs()),
            final(args).deep_view() == old(args).deep_view() + option_args(self.pairs()),
            self.to_map().dom().finite(),
            option_args(self.pairs()).len() == 2 * self.to_map().dom().len(),
    {
        proof {
            use_type_invariant(self);
            lemma_unique_pairs_map(self.pairs());
            lemma_option_args_len(self.pairs());
        }
        let ghost start = args.deep_view();
        let mut i: usize = 0;
        while i < self.entries.len()
            invariant
                args.deep_view() == start + option_args(self.pairs().take(i as int)),
                i <= self.entries@.len(),
                self.pairs().len() == self.entries@.len(),
            decreases self.entries@.len() - i,
        {
            let ghost before = args.deep_view();
            args.push(String::from_str("-o"));
            let tok = self.entries[i].0.clone().concat("=").concat(self.entries[i].1.as_str());
            args.push(tok);
            proof {
                let ps = self.pairs().take(i + 1);
                assert(ps.drop_last() =~= self.pairs().take(i as int));
                assert(args.deep_view() =~= before + seq!["-o"@, property_token(ps.last())]);
            }
            i = i + 1;
        }
        assert(self.pairs().take(i as int) =~= self.pairs());
    }
}


/// Each argument of the property options is `-o` or holds `=`.
pub proof fn lemma_option_args_shape(ps: Seq<(Seq<char>, Seq<char>)>)
    ensures
        forall|i: int|
            0 <= i < option_args(ps).len() ==> #[trigger] option_args(ps)[i] == "-o"@
                || option_args(ps)[i].contains('='),
    decreases ps.len(),
{
    reveal_strlit("=");
    if ps.len() > 0 {
        lemma_option_args_shape(ps.drop_last());
        let t = property_token(ps.last());
        assert(t[ps.last().0.len() as int] == '=');
        let prev = option_args(ps.drop_last());
        assert forall|i: int| 0 <= i < option_args(ps).len() implies #[trigger] option_args(ps)[i]
            == "-o"@ || option_args(ps)[i].contains('=') by {
            if i < prev.len() {
                assert(option_args(ps)[i] == prev[i]);
            }
        }
    }
}

/// Setting a property twice with the same key keeps only the later value:
/// `first`, `second` are the property sequences after adding `key` with
/// `v1` to `initial`, then with `v2`. The second setting replaces the pair in
/// place, and no pair of `key` with another value than `v2` is left.
pub proof fn add_property_twice(
    initial: Seq<(Seq<char>, Seq<char>)>,
    first: Seq<(Seq<char>, Seq<char>)>,
    second: Seq<(Seq<char>, Seq<char>)>,
    key: Seq<char>,
    v1: Seq<char>,
    v2: Seq<char>,
)
    requires
        keys_unique(initial),
        keys_unique(first),
        replaced_or_appended(initial, first, key, v1),
        replaced_or_appended(first, second, key, v2),
        pairs_map(first) == pairs_map(initial).insert(key, v1),
        pairs_map(second) == pairs_map(first).insert(key, v2),
    ensures
        pairs_map(second) == pairs_map(initial).insert(key, v2),
        pairs_map(second)[key] == v2,
        second.len() == first.len(),
        forall|j: int| 0 <= j < second.len() && second[j].0 == key ==> second[j].1 == v2,
        exists|j: int| 0 <= j < second.len() && second[j] == (key, v2),
{
    assert(pairs_map(second) =~= pairs_map(initial).insert(key, v2));
    let k = if exists|i: int| 0 <= i < initial.len() && #[trigger] initial[i].0 == key {
        choose|i: int| 0 <= i < initial.len() && #[trigger] initial[i].0 == key && first
            == initial.update(i, (key, v1))
    } else {
        initial.len() as int
    };
    assert(first[k].0 == key);
    let i = choose|i: int| 0 <= i < first.len() && #[trigger] first[i].0 == key && second
        == first.update(i, (key, v2));
    assert(second[i] == (key, v2));
    assert forall|j: int| 0 <= j < second.len() && second[j].0 == key implies second[j].1
        == v2 by {
        if j != i {
            assert(second[j] == first[j]);
        }
    }
}

} // verus!
