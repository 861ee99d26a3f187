//! Keyed collections of the model: entries looked up by key, first match
//! wins, and a href ordering that matches the byte order of strings.
use vstd::prelude::*;
use vstd::utf8::encode_utf8;
use vstd::utf8::encode_utf8_decode_utf8;

verus! {

/// A key that can be compared for equality, with a mathematical identity.
pub trait StoreKey: Sized {
    type Id;

    spec fn id(&self) -> Self::Id;

    fn same_key(&self, other: &Self) -> (r: bool)
        ensures
            r == (self.id() == other.id()),
    ;

    fn copy_key(&self) -> (r: Self)
        ensures
            r.id() == self.id(),
    ;
}

impl StoreKey for u128 {
    type Id = u128;

    open spec fn id(&self) -> u128 {
        *self
    }

    fn same_key(&self, other: &Self) -> (r: bool) {
        *self == *other
    }

    fn copy_key(&self) -> (r: Self) {
        *self
    }
}

impl StoreKey for String {
    type Id = Seq<char>;

    open spec fn id(&self) -> Seq<char> {
        self@
    }

    fn same_key(&self, other: &Self) -> (r: bool) {
        self.eq(other)
    }

    fn copy_key(&self) -> (r: Self) {
        self.clone()
    }
}

/// The value of the first entry whose key is `k`.
pub open spec fn find<K: StoreKey, V>(s: Seq<(K, V)>, k: K::Id) -> Option<V>
    decreases s.len(),
{
    if s.len() == 0 {
        None
    } else if s[0].0.id() == k {
        Some(s[0].1)
    } else {
        find(s.drop_first(), k)
    }
}

/// No entry has key `k`.
pub open spec fn absent<K: StoreKey, V>(s: Seq<(K, V)>, k: K::Id) -> bool {
    forall|j: int| 0 <= j < s.len() ==> #[trigger] s[j].0.id() != k
}

pub proof fn lemma_find_absent<K: StoreKey, V>(s: Seq<(K, V)>, k: K::Id)
    requires
        absent(s, k),
    ensures
        find(s, k) is None,
    decreases s.len(),
{
    if s.len() > 0 {
        assert(s[0].0.id() != k);
        assert(absent(s.drop_first(), k)) by {
            assert forall|j: int| 0 <= j < s.drop_first().len() implies #[trigger] s.drop_first()[j].0.id() != k by {
                assert(s.drop_first()[j] == s[j + 1]);
            }
        }
        lemma_find_absent(s.drop_first(), k);
    }
}

pub proof fn lemma_find_at<K: StoreKey, V>(s: Seq<(K, V)>, i: int, k: K::Id)
    requires
        0 <= i < s.len(),
        s[i].0.id() == k,
        absent(s.take(i), k),
    ensures
        find(s, k) == Some(s[i].1),
    decreases i,
{
    if i > 0 {
        assert(s.take(i)[0] == s[0]);
        assert(absent(s.drop_first().take(i - 1), k)) by {
            assert forall|j: int| 0 <= j < i - 1 implies #[trigger] s.drop_first().take(i - 1)[j].0.id() != k by {
                assert(s.drop_first().take(i - 1)[j] == s.take(i)[j + 1]);
            }
        }
        lemma_find_at(s.drop_first(), i - 1, k);
    }
}

proof fn lemma_find_update<K: StoreKey, V>(s: Seq<(K, V)>, i: int, e: (K, V), kk: K::Id)
    requires
        0 <= i < s.len(),
        e.0.id() == s[i].0.id(),
        absent(s.take(i), e.0.id()),
    ensures
        find(s.update(i, e), kk) == if kk == e.0.id() { Some(e.1) } else { find(s, kk) },
    decreases i,
{
    if i == 0 {
        assert(s.update(0, e).drop_first() =~= s.drop_first());
    } else {
        assert(s.take(i)[0] == s[0]);
        assert(s.update(i, e)[0] == s[0]);
        assert(s.update(i, e).drop_first() =~= s.drop_first().update(i - 1, e));
        assert(absent(s.drop_first().take(i - 1), e.0.id())) by {
            assert forall|j: int| 0 <= j < i - 1 implies #[trigger] s.drop_first().take(i - 1)[j].0.id() != e.0.id() by {
                assert(s.drop_first().take(i - 1)[j] == s.take(i)[j + 1]);
            }
        }
        lemma_find_update(s.drop_first(), i - 1, e, kk);
    }
}

proof fn lemma_find_push<K: StoreKey, V>(s: Seq<(K, V)>, e: (K, V), kk: K::Id)
    requires
        absent(s, e.0.id()),
    ensures
        find(s.push(e), kk) == if kk == e.0.id() { Some(e.1) } else { find(s, kk) },
    decreases s.len(),
{
    if s.len() == 0 {
        assert(s.push(e).drop_first() =~= s);
    } else {
        assert(s[0].0.id() != e.0.id());
        assert(s.push(e)[0] == s[0]);
        assert(s.push(e).drop_first() =~= s.drop_first().push(e));
        assert(absent(s.drop_first(), e.0.id())) by {
            assert forall|j: int| 0 <= j < s.drop_first().len() implies #[trigger] s.drop_first()[j].0.id() != e.0.id() by {
                assert(s.drop_first()[j] == s[j + 1]);
            }
        }
        lemma_find_push(s.drop_first(), e, kk);
    }
}

/// The position of the first entry with the key of `k`, if any.
pub fn position<K: StoreKey, V>(entries: &Vec<(K, V)>, k: &K) -> (r: Option<usize>)
    ensures
        match r {
            Some(i) => i < entries@.len() && entries@[i as int].0.id() == k.id() && absent(
                entries@.take(i as int),
                k.id(),
            ),
            None => absent(entries@, k.id()),
        },
{
    let mut i: usize = 0;
    while i < entries.len()
        invariant
            i <= entries@.len(),
            absent(entries@.take(i as int), k.id()),
        decreases entries@.len() - i,
    {
        if entries[i].0.same_key(k) {
            return Some(i);
        }
        assert(absent(entries@.take(i as int + 1), k.id())) by {
            assert forall|j: int| 0 <= j < i + 1 implies #[trigger] entries@.take(i as int + 1)[j].0.id() != k.id() by {
                if j < i {
                    assert(entries@.take(i as int + 1)[j] == entries@.take(i as int)[j]);
                }
            }
        }
        i = i + 1;
    }
    assert(entries@.take(i as int) =~= entries@);
    None
}

/// Entries looked up by key, the first entry with a key winning.
#[derive(Debug)]
pub struct Store<K, V> {
    pub entries: Vec<(K, V)>,
}

impl<K: StoreKey, V> Store<K, V> {
    pub open spec fn lookup(&self, k: K::Id) -> Option<V> {
        find(self.entries@, k)
    }

    /// What the store holds, by key.
    pub open spec fn view(&self) -> Map<K::Id, V> {
        Map::new(|k: K::Id| self.lookup(k) is Some, |k: K::Id| self.lookup(k)->0)
    }

    /// A store with nothing in it.
    pub fn new() -> (r: Self)
        ensures
            r.entries@.len() == 0,
            forall|k: K::Id| #[trigger] r.lookup(k) is None,
            r@ == Map::<K::Id, V>::empty(),
    {
        let r = Store { entries: Vec::new() };
        assert(r@ =~= Map::<K::Id, V>::empty());
        r
    }

    /// The value stored under `k`.
    pub fn get(&self, k: &K) -> (r: Option<&V>)
        ensures
            match r {
                Some(v) => self.lookup(k.id()) == Some(*v) && self@.contains_key(k.id()) && self@[k.id()] == *v,
                None => self.lookup(k.id()) is None && !self@.contains_key(k.id()),
            },
    {
        match position(&self.entries, k) {
            Some(i) => {
                proof {
                    lemma_find_at(self.entries@, i as int, k.id());
                }
                Some(&self.entries[i].1)
            },
            None => {
                proof {
                    lemma_find_absent(self.entries@, k.id());
                }
                None
            },
        }
    }

    /// Stores `v` under `k`, in place of what was there.
    pub fn upsert(&mut self, k: K, v: V)
        ensures
            forall|kk: K::Id| #[trigger]
                final(self).lookup(kk) == if kk == k.id() {
                    Some(v)
                } else {
                    old(self).lookup(kk)
                },
            final(self)@ == old(self)@.insert(k.id(), v),
    {
        let ghost e = (k, v);
        let ghost kid = k.id();
        match position(&self.entries, &k) {
            Some(i) => {
                let ghost s = self.entries@;
                self.entries.set(i, (k, v));
                proof {
                    assert(self.entries@ == s.update(i as int, e));
                    assert forall|kk: K::Id| #[trigger]
                        self.lookup(kk) == if kk == kid {
                            Some(e.1)
                        } else {
                            find(s, kk)
                        } by {
                        lemma_find_update(s, i as int, e, kk);
                    }
                    assert(self@ =~= old(self)@.insert(kid, e.1));
                }
            },
            None => {
                let ghost s = self.entries@;
                self.entries.push((k, v));
                proof {
                    assert forall|kk: K::Id| #[trigger]
                        self.lookup(kk) == if kk == kid {
                            Some(e.1)
                        } else {
                            find(s, kk)
                        } by {
                        lemma_find_push(s, e, kk);
                    }
                    assert(self@ =~= old(self)@.insert(kid, e.1));
                }
            },
        }
    }
}

/// The byte order of strings: lexicographic on the UTF-8 bytes.
pub open spec fn bytes_lt(a: Seq<u8>, b: Seq<u8>) -> bool
    decreases a.len(),
{
    if a.len() == 0 {
        b.len() > 0
    } else if b.len() == 0 {
        false
    } else if a[0] != b[0] {
        a[0] < b[0]
    } else {
        bytes_lt(a.drop_first(), b.drop_first())
    }
}

/// `a` comes before `b` in the byte order of strings.
pub open spec fn href_lt(a: Seq<char>, b: Seq<char>) -> bool {
    bytes_lt(encode_utf8(a), encode_utf8(b))
}

pub proof fn lemma_bytes_lt_irreflexive(a: Seq<u8>)
    ensures
        !bytes_lt(a, a),
    decreases a.len(),
{
    if a.len() > 0 {
        lemma_bytes_lt_irreflexive(a.drop_first());
    }
}

pub proof fn lemma_bytes_lt_transitive(a: Seq<u8>, b: Seq<u8>, c: Seq<u8>)
    requires
        bytes_lt(a, b),
        bytes_lt(b, c),
    ensures
        bytes_lt(a, c),
    decreases a.len(),
{
    if a.len() > 0 && b.len() > 0 && c.len() > 0 && a[0] == b[0] && b[0] == c[0] {
        lemma_bytes_lt_transitive(a.drop_first(), b.drop_first(), c.drop_first());
    }
}

pub proof fn lemma_bytes_lt_total(a: Seq<u8>, b: Seq<u8>)
    ensures
        a == b || bytes_lt(a, b) || bytes_lt(b, a),
    decreases a.len(),
{
    if a.len() > 0 && b.len() > 0 && a[0] == b[0] {
        lemma_bytes_lt_total(a.drop_first(), b.drop_first());
        if a.drop_first() == b.drop_first() {
            assert(a =~= seq![a[0]] + a.drop_first());
            assert(b =~= seq![b[0]] + b.drop_first());
        }
    } else if a.len() == 0 && b.len() == 0 {
        assert(a =~= b);
    }
}

pub proof fn lemma_bytes_lt_asymmetric(a: Seq<u8>, b: Seq<u8>)
    requires
        bytes_lt(a, b),
    ensures
        !bytes_lt(b, a),
    decreases a.len(),
{
    if a.len() > 0 && b.len() > 0 && a[0] == b[0] {
        lemma_bytes_lt_asymmetric(a.drop_first(), b.drop_first());
    }
}

/// Distinct hrefs are ordered one way or the other.
pub proof fn lemma_href_total(a: Seq<char>, b: Seq<char>)
    ensures
        a == b || href_lt(a, b) || href_lt(b, a),
{
    lemma_bytes_lt_total(encode_utf8(a), encode_utf8(b));
    if encode_utf8(a) == encode_utf8(b) {
        encode_utf8_decode_utf8(a);
        encode_utf8_decode_utf8(b);
    }
}

/// Whether `a` comes before `b` in the byte order of strings.
pub fn href_less(a: &String, b: &String) -> (r: bool)
    ensures
        r == href_lt(a@, b@),
{
    let x = a.as_str().as_bytes();
    let y = b.as_str().as_bytes();
    let ghost xs = encode_utf8(a@);
    let ghost ys = encode_utf8(b@);
    assert(x@ == xs);
    assert(y@ == ys);
    assert(xs.skip(0) =~= xs);
    assert(ys.skip(0) =~= ys);
    let mut i: usize = 0;
    while i < x.len() && i < y.len()
        invariant
            x@ == xs,
            y@ == ys,
            xs == encode_utf8(a@),
            ys == encode_utf8(b@),
            i <= xs.len(),
            i <= ys.len(),
            bytes_lt(xs, ys) == bytes_lt(xs.skip(i as int), ys.skip(i as int)),
        decreases xs.len() - i,
    {
        if x[i] != y[i] {
            assert(xs.skip(i as int)[0] == x[i as int]);
            assert(ys.skip(i as int)[0] == y[i as int]);
            let r = x[i] < y[i];
            assert(bytes_lt(xs.skip(i as int), ys.skip(i as int)) == r);
            return r;
        }
        assert(xs.skip(i as int).drop_first() =~= xs.skip(i as int + 1));
        assert(ys.skip(i as int).drop_first() =~= ys.skip(i as int + 1));
        i = i + 1;
    }
    i < y.len()
}

} // verus!
