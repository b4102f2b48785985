use vstd::prelude::*;
use vstd::utf8::*;

verus! {

/// The UTF-8 bytes of a string.
pub open spec fn str_bytes(s: String) -> Seq<u8> {
    encode_utf8(s@)
}

/// Lexicographic order on byte strings; a proper prefix comes first.
/// This is the order of `String`'s `Ord`.
pub open spec fn lex_lt(a: Seq<u8>, b: Seq<u8>) -> bool
    decreases a.len(),
{
    if b.len() == 0 {
        false
    } else if a.len() == 0 {
        true
    } else if a[0] != b[0] {
        a[0] < b[0]
    } else {
        lex_lt(a.drop_first(), b.drop_first())
    }
}

pub proof fn lemma_lex_irreflexive(a: Seq<u8>)
    ensures
        !lex_lt(a, a),
    decreases a.len(),
{
    if a.len() > 0 {
        lemma_lex_irreflexive(a.drop_first());
    }
}

pub proof fn lemma_lex_transitive(a: Seq<u8>, b: Seq<u8>, c: Seq<u8>)
    requires
        lex_lt(a, b),
        lex_lt(b, c),
    ensures
        lex_lt(a, c),
    decreases a.len(),
{
    if a.len() > 0 && a[0] == b[0] && b[0] == c[0] {
        lemma_lex_transitive(a.drop_first(), b.drop_first(), c.drop_first());
    }
}

pub proof fn lemma_lex_asymmetric(a: Seq<u8>, b: Seq<u8>)
    requires
        lex_lt(a, b),
    ensures
        !lex_lt(b, a),
        a != b,
{
    lemma_lex_irreflexive(a);
    if lex_lt(b, a) {
        lemma_lex_transitive(a, b, a);
    }
}

/// Strings with the same UTF-8 bytes are the same text.
pub proof fn lemma_str_bytes_injective(s: String, t: String)
    requires
        str_bytes(s) == str_bytes(t),
    ensures
        s@ == t@,
{
    encode_utf8_decode_utf8(s@);
    encode_utf8_decode_utf8(t@);
}

/// Compares two byte strings: negative, zero or positive as `a` comes before,
/// equals, or comes after `b`.
pub fn compare_bytes(a: &[u8], b: &[u8]) -> (r: i8)
    ensures
        r < 0 <==> lex_lt(a@, b@),
        r == 0 <==> a@ == b@,
        r > 0 <==> lex_lt(b@, a@),
{
    let mut i: usize = 0;
    assert(a@.subrange(0, a@.len() as int) =~= a@);
    assert(b@.subrange(0, b@.len() as int) =~= b@);
    while i < a.len() && i < b.len() && a[i] == b[i]
        invariant
            i <= a@.len(),
            i <= b@.len(),
            a@.subrange(0, i as int) == b@.subrange(0, i as int),
            lex_lt(a@, b@) == lex_lt(a@.subrange(i as int, a@.len() as int), b@.subrange(i as int, b@.len() as int)),
            lex_lt(b@, a@) == lex_lt(b@.subrange(i as int, b@.len() as int), a@.subrange(i as int, a@.len() as int)),
        decreases a@.len() - i,
    {
        proof {
            let sa = a@.subrange(i as int, a@.len() as int);
            let sb = b@.subrange(i as int, b@.len() as int);
            assert(sa.drop_first() =~= a@.subrange(i + 1, a@.len() as int));
            assert(sb.drop_first() =~= b@.subrange(i + 1, b@.len() as int));
            assert(a@.subrange(0, i + 1) =~= a@.subrange(0, i as int).push(a@[i as int]));
            assert(b@.subrange(0, i + 1) =~= b@.subrange(0, i as int).push(b@[i as int]));
        }
        i = i + 1;
    }
    let sa = Ghost(a@.subrange(i as int, a@.len() as int));
    let sb = Ghost(b@.subrange(i as int, b@.len() as int));
    if i == a.len() && i == b.len() {
        proof {
            assert(a@ =~= a@.subrange(0, i as int));
            assert(b@ =~= b@.subrange(0, i as int));
            lemma_lex_irreflexive(a@);
        }
        0
    } else if i == a.len() {
        proof {
            assert(sa@.len() == 0);
            if a@ == b@ {
                assert(a@.len() == b@.len());
            }
        }
        -1
    } else if i == b.len() {
        proof {
            assert(sb@.len() == 0);
            if a@ == b@ {
                assert(a@.len() == b@.len());
            }
        }
        1
    } else if a[i] < b[i] {
        proof {
            assert(sa@[0] == a@[i as int]);
            assert(sb@[0] == b@[i as int]);
            if a@ == b@ {
                assert(a@[i as int] == b@[i as int]);
            }
        }
        -1
    } else {
        proof {
            assert(sa@[0] == a@[i as int]);
            assert(sb@[0] == b@[i as int]);
            if a@ == b@ {
                assert(a@[i as int] == b@[i as int]);
            }
        }
        1
    }
}


/// Keys strictly increasing in byte order.
pub open spec fn sorted_pairs(ps: Seq<(String, String)>) -> bool {
    forall|i: int, j: int|
        0 <= i < j < ps.len() ==> lex_lt(str_bytes(#[trigger] ps[i].0), str_bytes(#[trigger] ps[j].0))
}

/// No key text occurs twice.
pub open spec fn unique_keys(ps: Seq<(String, String)>) -> bool {
    forall|i: int, j: int| 0 <= i < ps.len() && 0 <= j < ps.len() && i != j ==> (#[trigger] ps[i].0)@ != (#[trigger] ps[j].0)@
}

/// The map from key text to value text that a list of pairs holds.
pub open spec fn map_of(ps: Seq<(String, String)>) -> Map<Seq<char>, Seq<char>> {
    Map::new(
        |k: Seq<char>| exists|i: int| 0 <= i < ps.len() && (#[trigger] ps[i].0)@ == k,
        |k: Seq<char>| ps[choose|i: int| 0 <= i < ps.len() && (#[trigger] ps[i].0)@ == k].1@,
    )
}

pub proof fn lemma_sorted_unique(ps: Seq<(String, String)>)
    requires
        sorted_pairs(ps),
    ensures
        unique_keys(ps),
{
    assert forall|i: int, j: int| 0 <= i < ps.len() && 0 <= j < ps.len() && i != j implies (#[trigger] ps[i].0)@ != (#[trigger] ps[j].0)@ by {
        if i < j {
            lemma_lex_asymmetric(str_bytes(ps[i].0), str_bytes(ps[j].0));
        } else {
            lemma_lex_asymmetric(str_bytes(ps[j].0), str_bytes(ps[i].0));
        }
    }
}

pub proof fn lemma_map_of_at(ps: Seq<(String, String)>, i: int)
    requires
        unique_keys(ps),
        0 <= i < ps.len(),
    ensures
        map_of(ps).contains_key(ps[i].0@),
        map_of(ps)[ps[i].0@] == ps[i].1@,
{
    let k = ps[i].0@;
    assert(exists|j: int| 0 <= j < ps.len() && (#[trigger] ps[j].0)@ == k);
    let j = choose|j: int| 0 <= j < ps.len() && (#[trigger] ps[j].0)@ == k;
    assert(j == i);
}

/// The map that inserting the pairs one after another, in order, gives:
/// a later pair overrides an earlier one with the same key.
pub open spec fn pairs_map(ps: Seq<(String, String)>) -> Map<Seq<char>, Seq<char>>
    decreases ps.len(),
{
    if ps.len() == 0 {
        Map::empty()
    } else {
        pairs_map(ps.drop_last()).insert(ps.last().0@, ps.last().1@)
    }
}

/// Where no key repeats, the order of insertion does not matter.
pub proof fn lemma_unique_map_of(ps: Seq<(String, String)>)
    requires
        unique_keys(ps),
    ensures
        map_of(ps) == pairs_map(ps),
    decreases ps.len(),
{
    if ps.len() == 0 {
        assert(map_of(ps) =~= Map::empty());
    } else {
        let d = ps.drop_last();
        let n = ps.len() - 1;
        assert(unique_keys(d)) by {
            assert forall|i: int, j: int| 0 <= i < d.len() && 0 <= j < d.len() && i != j implies (#[trigger] d[i].0)@ != (#[trigger] d[j].0)@ by {
                assert(d[i] == ps[i] && d[j] == ps[j]);
            }
        }
        lemma_unique_map_of(d);
        assert forall|k: Seq<char>| #[trigger] map_of(ps).contains_key(k) == map_of(d).insert(ps.last().0@, ps.last().1@).contains_key(k) && (map_of(ps).contains_key(k) ==> map_of(ps)[k] == map_of(d).insert(ps.last().0@, ps.last().1@)[k]) by {
            if k == ps.last().0@ {
                lemma_map_of_at(ps, n);
            } else if map_of(ps).contains_key(k) {
                let j = choose|j: int| 0 <= j < ps.len() && (#[trigger] ps[j].0)@ == k;
                lemma_map_of_at(ps, j);
                assert(d[j] == ps[j]);
                lemma_map_of_at(d, j);
            } else if map_of(d).contains_key(k) {
                let j = choose|j: int| 0 <= j < d.len() && (#[trigger] d[j].0)@ == k;
                assert(ps[j] == d[j]);
            }
        }
        assert(map_of(ps) =~= map_of(d).insert(ps.last().0@, ps.last().1@));
    }
}


proof fn lemma_map_of_drop_last(ps: Seq<(String, String)>)
    requires
        unique_keys(ps),
        ps.len() > 0,
    ensures
        map_of(ps.drop_last()) == map_of(ps).remove(ps.last().0@),
        !map_of(ps.drop_last()).contains_key(ps.last().0@),
{
    let d = ps.drop_last();
    assert(unique_keys(d)) by {
        assert forall|i: int, j: int| 0 <= i < d.len() && 0 <= j < d.len() && i != j implies (#[trigger] d[i].0)@ != (#[trigger] d[j].0)@ by {
            assert(d[i] == ps[i] && d[j] == ps[j]);
        }
    }
    lemma_unique_map_of(ps);
    lemma_unique_map_of(d);
    if map_of(d).contains_key(ps.last().0@) {
        let j = choose|j: int| 0 <= j < d.len() && (#[trigger] d[j].0)@ == ps.last().0@;
        assert(ps[j] == d[j]);
    }
    assert(map_of(d) =~= map_of(ps).remove(ps.last().0@));
}

/// The largest key of a sorted list is its last.
proof fn lemma_sorted_last_max(ps: Seq<(String, String)>, i: int)
    requires
        sorted_pairs(ps),
        0 <= i < ps.len() - 1,
    ensures
        lex_lt(str_bytes(ps[i].0), str_bytes(ps.last().0)),
{
}

/// Two sorted lists that hold the same map hold the same keys and values, in
/// the same order.
pub proof fn lemma_same_map_same_pairs(ps: Seq<(String, String)>, qs: Seq<(String, String)>)
    requires
        sorted_pairs(ps),
        sorted_pairs(qs),
        map_of(ps) == map_of(qs),
    ensures
        ps.len() == qs.len(),
        forall|i: int| 0 <= i < ps.len() ==> (#[trigger] ps[i]).0@ == qs[i].0@ && ps[i].1@ == qs[i].1@,
    decreases ps.len(),
{
    lemma_sorted_unique(ps);
    lemma_sorted_unique(qs);
    if ps.len() == 0 {
        if qs.len() > 0 {
            lemma_map_of_at(qs, 0);
        }
    } else if qs.len() == 0 {
        lemma_map_of_at(ps, 0);
    } else {
        let a = ps.last();
        let b = qs.last();
        let np = ps.len() - 1;
        let nq = qs.len() - 1;
        lemma_map_of_at(ps, np);
        lemma_map_of_at(qs, nq);
        if a.0@ != b.0@ {
            // a's key is in qs before its last, and b's key is in ps before its last.
            let j = choose|j: int| 0 <= j < qs.len() && (#[trigger] qs[j].0)@ == a.0@;
            let k = choose|k: int| 0 <= k < ps.len() && (#[trigger] ps[k].0)@ == b.0@;
            assert(j != nq);
            assert(k != np);
            lemma_sorted_last_max(qs, j);
            lemma_sorted_last_max(ps, k);
            assert(str_bytes(qs[j].0) == str_bytes(a.0));
            assert(str_bytes(ps[k].0) == str_bytes(b.0));
            lemma_lex_asymmetric(str_bytes(a.0), str_bytes(b.0));
        }
        lemma_map_of_drop_last(ps);
        lemma_map_of_drop_last(qs);
        let dp = ps.drop_last();
        let dq = qs.drop_last();
        assert(sorted_pairs(dp)) by {
            assert forall|i: int, j: int| 0 <= i < j < dp.len() implies lex_lt(str_bytes(#[trigger] dp[i].0), str_bytes(#[trigger] dp[j].0)) by {
                assert(dp[i] == ps[i] && dp[j] == ps[j]);
            }
        }
        assert(sorted_pairs(dq)) by {
            assert forall|i: int, j: int| 0 <= i < j < dq.len() implies lex_lt(str_bytes(#[trigger] dq[i].0), str_bytes(#[trigger] dq[j].0)) by {
                assert(dq[i] == qs[i] && dq[j] == qs[j]);
            }
        }
        lemma_same_map_same_pairs(dp, dq);
        assert forall|i: int| 0 <= i < ps.len() implies (#[trigger] ps[i]).0@ == qs[i].0@ && ps[i].1@ == qs[i].1@ by {
            if i < np {
                assert(ps[i] == dp[i] && qs[i] == dq[i]);
            }
        }
    }
}

/// A map from strings to strings, kept in increasing byte order of its keys.
/// The order is a property of the representation: two maps with the same
/// contents hold the same list of pairs, whatever order they were filled in.
#[derive(Debug, PartialEq, Eq)]
pub struct StrMap {
    entries: Vec<(String, String)>,
}

impl Clone for StrMap {
    fn clone(&self) -> (r: Self)
        ensures
            r.pairs() == self.pairs(),
    {
        proof {
            use_type_invariant(self);
        }
        let mut out: Vec<(String, String)> = Vec::new();
        let mut i: usize = 0;
        while i < self.entries.len()
            invariant
                i <= self.entries@.len(),
                sorted_pairs(self.entries@),
                out@ == self.entries@.subrange(0, i as int),
            decreases self.entries@.len() - i,
        {
            out.push((self.entries[i].0.clone(), self.entries[i].1.clone()));
            assert(self.entries@.subrange(0, i + 1) =~= self.entries@.subrange(0, i as int).push(self.entries@[i as int]));
            i = i + 1;
        }
        assert(self.entries@.subrange(0, self.entries@.len() as int) =~= self.entries@);
        StrMap { entries: out }
    }
}

impl View for StrMap {
    type V = Map<Seq<char>, Seq<char>>;

    closed spec fn view(&self) -> Map<Seq<char>, Seq<char>> {
        map_of(self.entries@)
    }
}

impl StrMap {
    /// The pairs in increasing key order.
    pub closed spec fn pairs(self) -> Seq<(String, String)> {
        self.entries@
    }

    /// Every map keeps its keys in strictly increasing byte order.
    #[verifier::type_invariant]
    pub open spec fn wf(self) -> bool {
        sorted_pairs(self.pairs())
    }

    pub proof fn lemma_view(self)
        ensures
            self@ == map_of(self.pairs()),
    {
    }

    pub fn new() -> (r: Self)
        ensures
            r.wf(),
            r.pairs() == Seq::<(String, String)>::empty(),
            r@ == Map::<Seq<char>, Seq<char>>::empty(),
    {
        let r = StrMap { entries: Vec::new() };
        assert(r@ =~= Map::<Seq<char>, Seq<char>>::empty());
        r
    }

    pub fn len(&self) -> (r: usize)
        ensures
            r == self.pairs().len(),
    {
        self.entries.len()
    }

    /// The pairs in increasing key order.
    pub fn entries(&self) -> (r: &Vec<(String, String)>)
        ensures
            r@ == self.pairs(),
    {
        &self.entries
    }

    /// Gives up the map and returns its pairs in increasing key order.
    pub fn into_pairs(self) -> (r: Vec<(String, String)>)
        ensures
            r@ == self.pairs(),
    {
        self.entries
    }

    /// The map that the pairs give, later pairs overriding earlier ones.
    /// Pairs already in increasing key order are kept as they are.
    pub fn from_pairs(v: Vec<(String, String)>) -> (r: Self)
        ensures
            r.wf(),
            r@ == pairs_map(v@),
            sorted_pairs(v@) ==> r.pairs() == v@,
    {
        let n = v.len();
        let mut i: usize = 1;
        let mut ok = true;
        while i < n
            invariant
                1 <= i,
                n == v@.len(),
                ok ==> forall|a: int, b: int| 0 <= a < b < i && b < n ==> lex_lt(str_bytes(#[trigger] v@[a].0), str_bytes(#[trigger] v@[b].0)),
                !ok ==> !sorted_pairs(v@),
            decreases n - i,
        {
            let c = compare_bytes(v[i - 1].0.as_str().as_bytes(), v[i].0.as_str().as_bytes());
            if c >= 0 {
                ok = false;
                proof {
                    if c > 0 {
                        lemma_lex_asymmetric(str_bytes(v@[i as int].0), str_bytes(v@[i - 1].0));
                    }
                    if c > 0 && sorted_pairs(v@) {
                        assert(lex_lt(str_bytes(v@[i - 1].0), str_bytes(v@[i as int].0)));
                    }
                    if c == 0 && sorted_pairs(v@) {
                        lemma_lex_irreflexive(str_bytes(v@[i as int].0));
                        assert(lex_lt(str_bytes(v@[i - 1].0), str_bytes(v@[i as int].0)));
                    }
                }
            } else if ok {
                proof {
                    assert forall|a: int, b: int| 0 <= a < b < i + 1 && b < n implies lex_lt(str_bytes(#[trigger] v@[a].0), str_bytes(#[trigger] v@[b].0)) by {
                        if b == i && a < i - 1 {
                            lemma_lex_transitive(str_bytes(v@[a].0), str_bytes(v@[i - 1].0), str_bytes(v@[b].0));
                        }
                    }
                }
            }
            i = i + 1;
        }
        if ok {
            proof {
                lemma_sorted_unique(v@);
                lemma_unique_map_of(v@);
            }
            StrMap { entries: v }
        } else {
            let mut m = StrMap::new();
            let mut j: usize = 0;
            while j < n
                invariant
                    n == v@.len(),
                    j <= n,
                    m.wf(),
                    m@ == pairs_map(v@.subrange(0, j as int)),
                decreases n - j,
            {
                m.insert(v[j].0.clone(), v[j].1.clone());
                proof {
                    assert(v@.subrange(0, j + 1).drop_last() =~= v@.subrange(0, j as int));
                }
                j = j + 1;
            }
            assert(v@.subrange(0, n as int) =~= v@);
            m
        }
    }

    /// Sets `key` to `value`, replacing an earlier value of the same key.
    pub fn insert(&mut self, key: String, value: String)
        ensures
            final(self).wf(),
            final(self)@ == old(self)@.insert(key@, value@),
    {
        proof {
            use_type_invariant(&*self);
        }
        let mut entries: Vec<(String, String)> = Vec::new();
        std::mem::swap(&mut entries, &mut self.entries);
        let ghost old_ps = entries@;
        let kb = key.as_str().as_bytes();
        let n = entries.len();
        let mut i: usize = 0;
        let mut c: i8 = 1;
        while i < n
            invariant
                n == entries@.len(),
                entries@ == old_ps,
                sorted_pairs(old_ps),
                i <= n,
                kb@ == str_bytes(key),
                forall|j: int| 0 <= j < i ==> lex_lt(str_bytes(#[trigger] old_ps[j].0), kb@),
            ensures
                i <= n,
                entries@ == old_ps,
                forall|j: int| 0 <= j < i ==> lex_lt(str_bytes(#[trigger] old_ps[j].0), kb@),
                i < n ==> (c == 0 ==> str_bytes(old_ps[i as int].0) == kb@),
                i < n ==> (c != 0 ==> lex_lt(kb@, str_bytes(old_ps[i as int].0))),
            decreases n - i,
        {
            c = compare_bytes(entries[i].0.as_str().as_bytes(), kb);
            if c >= 0 {
                break;
            }
            i = i + 1;
        }
        proof {
            lemma_sorted_unique(old_ps);
        }
        if i < n && c == 0 {
            proof {
                lemma_str_bytes_injective(old_ps[i as int].0, key);
            }
            let ghost kk = entries@[i as int].0;
            entries.set(i, (key, value));
            proof {
                let ps = entries@;
                assert(ps[i as int].0@ == kk@);
                assert forall|a: int, b: int| 0 <= a < b < ps.len() implies lex_lt(str_bytes(#[trigger] ps[a].0), str_bytes(#[trigger] ps[b].0)) by {
                    assert(old_ps[a].0@ == ps[a].0@);
                    assert(old_ps[b].0@ == ps[b].0@);
                }
                lemma_sorted_unique(ps);
                assert forall|k: Seq<char>| #[trigger] map_of(ps).contains_key(k) == old(self)@.insert(key@, value@).contains_key(k) && (map_of(ps).contains_key(k) ==> map_of(ps)[k] == old(self)@.insert(key@, value@)[k]) by {
                    if k == key@ {
                        lemma_map_of_at(ps, i as int);
                    } else if map_of(ps).contains_key(k) {
                        let j = choose|j: int| 0 <= j < ps.len() && (#[trigger] ps[j].0)@ == k;
                        lemma_map_of_at(ps, j);
                        lemma_map_of_at(old_ps, j);
                    } else if map_of(old_ps).contains_key(k) {
                        let j = choose|j: int| 0 <= j < old_ps.len() && (#[trigger] old_ps[j].0)@ == k;
                        assert(ps[j].0@ == k);
                    }
                }
                assert(map_of(ps) =~= old(self)@.insert(key@, value@));
            }
        } else {
            proof {
                if i < n {
                    assert(lex_lt(kb@, str_bytes(old_ps[i as int].0)));
                }
            }
            entries.insert(i, (key, value));
            proof {
                let ps = entries@;
                assert forall|a: int, b: int| 0 <= a < b < ps.len() implies lex_lt(str_bytes(#[trigger] ps[a].0), str_bytes(#[trigger] ps[b].0)) by {
                    if b < i {
                    } else if b == i {
                    } else if a < i {
                        lemma_lex_transitive(str_bytes(ps[a].0), kb@, str_bytes(old_ps[i as int].0));
                        if b - 1 > i {
                            lemma_lex_transitive(str_bytes(ps[a].0), str_bytes(old_ps[i as int].0), str_bytes(ps[b].0));
                        }
                    } else if a == i {
                        if b - 1 > i {
                            lemma_lex_transitive(kb@, str_bytes(old_ps[i as int].0), str_bytes(ps[b].0));
                        }
                    } else {
                        assert(ps[a] == old_ps[a - 1]);
                        assert(ps[b] == old_ps[b - 1]);
                    }
                }
                lemma_sorted_unique(ps);
                assert forall|k: Seq<char>| #[trigger] map_of(ps).contains_key(k) == old(self)@.insert(key@, value@).contains_key(k) && (map_of(ps).contains_key(k) ==> map_of(ps)[k] == old(self)@.insert(key@, value@)[k]) by {
                    if k == key@ {
                        lemma_map_of_at(ps, i as int);
                    } else if map_of(ps).contains_key(k) {
                        let j = choose|j: int| 0 <= j < ps.len() && (#[trigger] ps[j].0)@ == k;
                        lemma_map_of_at(ps, j);
                        let oj = if j < i { j } else { j - 1 };
                        assert(ps[j] == old_ps[oj]);
                        lemma_map_of_at(old_ps, oj);
                    } else if map_of(old_ps).contains_key(k) {
                        let j = choose|j: int| 0 <= j < old_ps.len() && (#[trigger] old_ps[j].0)@ == k;
                        let nj = if j < i { j } else { j + 1 };
                        assert(ps[nj].0@ == k);
                    }
                }
                assert(map_of(ps) =~= old(self)@.insert(key@, value@));
            }
        }
        self.entries = entries;
    }
}

} // verus!
