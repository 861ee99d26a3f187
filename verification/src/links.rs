//! The resources that the model needs to be kept up to date with, by href,
//! kept in the byte order of their hrefs, and the events that announce a
//! change to them.
use vstd::prelude::*;

use crate::ResourceKind;
use crate::scheduler::Event;
use crate::store::{
    StoreKey,
    absent, find, href_less, href_lt, lemma_bytes_lt_asymmetric, lemma_bytes_lt_irreflexive,
    lemma_bytes_lt_transitive, lemma_find_absent, lemma_find_at, lemma_href_total, position,
};

verus! {

/// A resource the model needs to be kept up to date with, and the poll rate
/// that applies to it.
#[derive(Clone, Copy, Debug, PartialEq, Eq, Structural)]
pub struct ResourceLink {
    pub kind: ResourceKind,
    pub poll_rate: Option<u32>,
}

/// Links by href, in the byte order of the hrefs.
#[derive(Debug)]
pub struct LinkMap {
    pub entries: Vec<(String, ResourceLink)>,
}

/// The hrefs of `s` strictly increase.
pub open spec fn sorted(s: Seq<(String, ResourceLink)>) -> bool {
    forall|i: int, j: int| 0 <= i < j < s.len() ==> href_lt(#[trigger] s[i].0@, #[trigger] s[j].0@)
}

/// The links of `s`, by href.
pub open spec fn map_of(s: Seq<(String, ResourceLink)>) -> Map<Seq<char>, ResourceLink> {
    Map::new(|k: Seq<char>| find(s, k) is Some, |k: Seq<char>| find(s, k)->0)
}

proof fn lemma_lt_ne(a: Seq<char>, b: Seq<char>)
    requires
        href_lt(a, b),
    ensures
        a != b,
        !href_lt(b, a),
{
    if a == b {
        lemma_bytes_lt_irreflexive(vstd::utf8::encode_utf8(a));
    }
    lemma_bytes_lt_asymmetric(vstd::utf8::encode_utf8(a), vstd::utf8::encode_utf8(b));
}

proof fn lemma_lt_trans(a: Seq<char>, b: Seq<char>, c: Seq<char>)
    requires
        href_lt(a, b),
        href_lt(b, c),
    ensures
        href_lt(a, c),
{
    lemma_bytes_lt_transitive(
        vstd::utf8::encode_utf8(a),
        vstd::utf8::encode_utf8(b),
        vstd::utf8::encode_utf8(c),
    );
}

proof fn lemma_find_insert(s: Seq<(String, ResourceLink)>, p: int, e: (String, ResourceLink), kk: Seq<char>)
    requires
        0 <= p <= s.len(),
        absent(s, e.0@),
    ensures
        find(s.insert(p, e), kk) == if kk == e.0@ { Some(e.1) } else { find(s, kk) },
    decreases p,
{
    if p == 0 {
        assert(s.insert(0, e).drop_first() =~= s);
        if kk != e.0@ {
        }
    } else {
        assert(s[0].0@ != e.0@);
        assert(s.insert(p, e)[0] == s[0]);
        assert(s.insert(p, e).drop_first() =~= s.drop_first().insert(p - 1, e));
        assert(absent(s.drop_first(), e.0@)) by {
            assert forall|j: int| 0 <= j < s.drop_first().len() implies #[trigger] s.drop_first()[j].0@ != e.0@ by {
                assert(s.drop_first()[j] == s[j + 1]);
                assert(s[j + 1].0.id() != e.0@);
            }
        }
        lemma_find_insert(s.drop_first(), p - 1, e, kk);
    }
}

proof fn lemma_find_set(s: Seq<(String, ResourceLink)>, i: int, e: (String, ResourceLink), kk: Seq<char>)
    requires
        0 <= i < s.len(),
        e.0@ == s[i].0@,
        absent(s.take(i), e.0@),
    ensures
        find(s.update(i, e), kk) == if kk == e.0@ { Some(e.1) } else { find(s, kk) },
    decreases i,
{
    if i == 0 {
        assert(s.update(0, e).drop_first() =~= s.drop_first());
    } else {
        assert(s.take(i)[0] == s[0]);
        assert(s.update(i, e)[0] == s[0]);
        assert(s.update(i, e).drop_first() =~= s.drop_first().update(i - 1, e));
        assert(absent(s.drop_first().take(i - 1), e.0@)) by {
            assert forall|j: int| 0 <= j < i - 1 implies #[trigger] s.drop_first().take(i - 1)[j].0@ != e.0@ by {
                assert(s.drop_first().take(i - 1)[j] == s.take(i)[j + 1]);
                assert(s.take(i)[j + 1].0.id() != e.0@);
            }
        }
        lemma_find_set(s.drop_first(), i - 1, e, kk);
    }
}

/// In a sorted listing, each entry is found under its href.
proof fn lemma_sorted_find(s: Seq<(String, ResourceLink)>, i: int)
    requires
        sorted(s),
        0 <= i < s.len(),
    ensures
        find(s, s[i].0@) == Some(s[i].1),
{
    assert(absent(s.take(i), s[i].0@)) by {
        assert forall|j: int| 0 <= j < i implies #[trigger] s.take(i)[j].0@ != s[i].0@ by {
            assert(s.take(i)[j] == s[j]);
            lemma_lt_ne(s[j].0@, s[i].0@);
        }
    }
    lemma_find_at(s, i, s[i].0@);
}

/// Every href of a listing is found in it.
proof fn lemma_find_present(s: Seq<(String, ResourceLink)>, i: int)
    requires
        0 <= i < s.len(),
    ensures
        find(s, s[i].0@) is Some,
    decreases s.len(),
{
    if i > 0 && s[0].0@ != s[i].0@ {
        assert(s.drop_first()[i - 1] == s[i]);
        lemma_find_present(s.drop_first(), i - 1);
    }
}

proof fn lemma_none_removed(prior: Seq<(String, ResourceLink)>, post: Map<Seq<char>, ResourceLink>)
    requires
        forall|i: int| 0 <= i < prior.len() ==> post.contains_key(#[trigger] prior[i].0@),
    ensures
        removed_events(prior, post) == Seq::<Event>::empty(),
    decreases prior.len(),
{
    if prior.len() > 0 {
        assert forall|i: int| 0 <= i < prior.drop_last().len() implies post.contains_key(
            #[trigger] prior.drop_last()[i].0@,
        ) by {
            assert(prior.drop_last()[i] == prior[i]);
        }
        lemma_none_removed(prior.drop_last(), post);
        assert(post.contains_key(prior[prior.len() - 1].0@));
        assert(removed_events(prior, post) =~= Seq::<Event>::empty());
    }
}

proof fn lemma_none_added(post: Seq<(String, ResourceLink)>, prior: Map<Seq<char>, ResourceLink>)
    requires
        forall|i: int|
            0 <= i < post.len() ==> prior.contains_key(#[trigger] post[i].0@) && prior[post[i].0@] == post[i].1,
    ensures
        added_events(post, prior) == Seq::<Event>::empty(),
    decreases post.len(),
{
    if post.len() > 0 {
        assert forall|i: int| 0 <= i < post.drop_last().len() implies prior.contains_key(
            #[trigger] post.drop_last()[i].0@,
        ) && prior[post.drop_last()[i].0@] == post.drop_last()[i].1 by {
            assert(post.drop_last()[i] == post[i]);
        }
        lemma_none_added(post.drop_last(), prior);
        assert(prior.contains_key(post[post.len() - 1].0@));
        assert(added_events(post, prior) =~= Seq::<Event>::empty());
    }
}

/// Two listings of the same links announce nothing to each other: no link
/// is removed and none is added or changed.
pub proof fn same_links_announce_nothing(prior: Seq<(String, ResourceLink)>, post: Seq<(String, ResourceLink)>)
    requires
        sorted(post),
        map_of(prior) == map_of(post),
    ensures
        removed_events(prior, map_of(post)) == Seq::<Event>::empty(),
        added_events(post, map_of(prior)) == Seq::<Event>::empty(),
{
    assert forall|i: int| 0 <= i < prior.len() implies map_of(post).contains_key(#[trigger] prior[i].0@) by {
        lemma_find_present(prior, i);
        assert(map_of(prior).contains_key(prior[i].0@));
    }
    lemma_none_removed(prior, map_of(post));
    assert forall|i: int| 0 <= i < post.len() implies map_of(prior).contains_key(#[trigger] post[i].0@)
        && map_of(prior)[post[i].0@] == post[i].1 by {
        lemma_sorted_find(post, i);
    }
    lemma_none_added(post, map_of(prior));
}

/// The map of a sorted listing grows by its next entry.
proof fn lemma_map_of_take(s: Seq<(String, ResourceLink)>, k: int)
    requires
        sorted(s),
        0 <= k < s.len(),
    ensures
        map_of(s.take(k + 1)) == map_of(s.take(k)).insert(s[k].0@, s[k].1),
{
    let t = s.take(k);
    assert(s.take(k + 1) =~= t.push(s[k]));
    assert(absent(t, s[k].0@)) by {
        assert forall|j: int| 0 <= j < t.len() implies #[trigger] t[j].0@ != s[k].0@ by {
            assert(t[j] == s[j]);
            lemma_lt_ne(s[j].0@, s[k].0@);
        }
    }
    assert forall|kk: Seq<char>| #[trigger] find(t.push(s[k]), kk) == (if kk == s[k].0@ {
        Some(s[k].1)
    } else {
        find(t, kk)
    }) by {
        assert(t.push(s[k]) =~= t.insert(t.len() as int, s[k]));
        lemma_find_insert(t, t.len() as int, s[k], kk);
    }
    assert(map_of(s.take(k + 1)) =~= map_of(t).insert(s[k].0@, s[k].1));
}

impl LinkMap {
    pub open spec fn view(&self) -> Map<Seq<char>, ResourceLink> {
        map_of(self.entries@)
    }

    pub open spec fn wf(&self) -> bool {
        sorted(self.entries@)
    }

    /// No links.
    pub fn new() -> (r: LinkMap)
        ensures
            r.wf(),
            r@ == Map::<Seq<char>, ResourceLink>::empty(),
    {
        let r = LinkMap { entries: Vec::new() };
        assert(r@ =~= Map::<Seq<char>, ResourceLink>::empty());
        r
    }

    /// The link under `href`.
    pub fn get(&self, href: &String) -> (r: Option<ResourceLink>)
        ensures
            r == (if self@.contains_key(href@) { Some(self@[href@]) } else { None }),
    {
        match position(&self.entries, href) {
            Some(i) => {
                proof {
                    lemma_find_at(self.entries@, i as int, href@);
                }
                Some(self.entries[i].1)
            },
            None => {
                proof {
                    lemma_find_absent(self.entries@, href@);
                }
                None
            },
        }
    }

    /// Whether there is a link under `href`.
    pub fn contains(&self, href: &String) -> (r: bool)
        ensures
            r == self@.contains_key(href@),
    {
        match self.get(href) {
            Some(_) => true,
            None => false,
        }
    }

    /// Puts `link` under `href`, in place of what was there.
    pub fn insert(&mut self, href: String, link: ResourceLink)
        requires
            old(self).wf(),
        ensures
            final(self).wf(),
            final(self)@ == old(self)@.insert(href@, link),
    {
        let ghost s = self.entries@;
        let ghost h = href@;
        let ghost e = (href, link);
        let mut i: usize = 0;
        while i < self.entries.len() && href_less(&self.entries[i].0, &href)
            invariant
                self.entries@ == s,
                sorted(s),
                h == href@,
                i <= s.len(),
                forall|j: int| 0 <= j < i ==> href_lt(#[trigger] s[j].0@, h),
            decreases s.len() - i,
        {
            i = i + 1;
        }
        assert(absent(s.take(i as int), h)) by {
            assert forall|j: int| 0 <= j < i implies #[trigger] s.take(i as int)[j].0@ != h by {
                assert(s.take(i as int)[j] == s[j]);
                lemma_lt_ne(s[j].0@, h);
            }
        }
        if i < self.entries.len() && self.entries[i].0 == href {
            self.entries.set(i, (href, link));
            proof {
                let t = s.update(i as int, e);
                assert(self.entries@ == t);
                assert forall|a: int, b: int| 0 <= a < b < t.len() implies href_lt(#[trigger] t[a].0@, #[trigger] t[b].0@) by {
                    assert(s[a].0@ == t[a].0@);
                    assert(s[b].0@ == t[b].0@);
                }
                assert forall|kk: Seq<char>| #[trigger] find(t, kk) == (if kk == h {
                    Some(link)
                } else {
                    find(s, kk)
                }) by {
                    lemma_find_set(s, i as int, e, kk);
                }
                assert(map_of(t) =~= map_of(s).insert(h, link));
            }
        } else {
            proof {
                if (i as int) < s.len() {
                    lemma_href_total(s[i as int].0@, h);
                }
            }
            self.entries.insert(i, (href, link));
            proof {
                let t = s.insert(i as int, e);
                assert(self.entries@ == t);
                assert(absent(s, h)) by {
                    assert forall|j: int| 0 <= j < s.len() implies #[trigger] s[j].0@ != h by {
                        if j < i {
                            lemma_lt_ne(s[j].0@, h);
                        } else {
                            if j > i {
                                lemma_lt_trans(h, s[i as int].0@, s[j].0@);
                            }
                            lemma_lt_ne(h, s[j].0@);
                        }
                    }
                }
                assert forall|a: int, b: int| 0 <= a < b < t.len() implies href_lt(#[trigger] t[a].0@, #[trigger] t[b].0@) by {
                    if b < i {
                        assert(t[a] == s[a] && t[b] == s[b]);
                    } else if b == i {
                        assert(t[a] == s[a]);
                    } else if a < i {
                        assert(t[a] == s[a] && t[b] == s[b - 1]);
                        if b - 1 > i {
                            lemma_lt_trans(h, s[i as int].0@, s[b - 1].0@);
                        }
                        lemma_lt_trans(s[a].0@, h, s[b - 1].0@);
                    } else if a == i {
                        assert(t[b] == s[b - 1]);
                        if b - 1 > i {
                            lemma_lt_trans(h, s[i as int].0@, s[b - 1].0@);
                        }
                    } else {
                        assert(t[a] == s[a - 1] && t[b] == s[b - 1]);
                    }
                }
                assert forall|kk: Seq<char>| #[trigger] find(t, kk) == (if kk == h {
                    Some(link)
                } else {
                    find(s, kk)
                }) by {
                    lemma_find_insert(s, i as int, e, kk);
                }
                assert(map_of(t) =~= map_of(s).insert(h, link));
            }
        }
    }

    /// Adds the links of `other`, which take the place of any under the same
    /// href.
    pub fn extend(&mut self, other: LinkMap)
        requires
            old(self).wf(),
            other.wf(),
        ensures
            final(self).wf(),
            final(self)@ == old(self)@.union_prefer_right(other@),
    {
        let ghost s = other.entries@;
        let ghost start = self@;
        let mut rest = other.entries;
        assert(rest@.len() == rest.len());
        let mut k: usize = 0;
        assert(map_of(s.take(0)) =~= Map::<Seq<char>, ResourceLink>::empty());
        assert(start.union_prefer_right(Map::<Seq<char>, ResourceLink>::empty()) =~= start);
        while rest.len() > 0
            invariant
                k <= s.len(),
                s.len() <= usize::MAX,
                sorted(s),
                rest@ == s.skip(k as int),
                self.wf(),
                self@ == start.union_prefer_right(map_of(s.take(k as int))),
            decreases rest@.len(),
        {
            let (href, link) = rest.remove(0);
            assert(href == s[k as int].0 && link == s[k as int].1);
            assert(rest@ =~= s.skip(k as int + 1));
            proof {
                lemma_map_of_take(s, k as int);
            }
            self.insert(href, link);
            assert(self@ =~= start.union_prefer_right(map_of(s.take(k as int + 1))));
            k = k + 1;
        }
        assert(s.take(k as int) =~= s);
    }
}

/// The announcements of links that `prior` has and `post` has not, in the
/// order of `prior`.
pub open spec fn removed_events(prior: Seq<(String, ResourceLink)>, post: Map<Seq<char>, ResourceLink>) -> Seq<Event>
    decreases prior.len(),
{
    if prior.len() == 0 {
        Seq::empty()
    } else {
        removed_events(prior.drop_last(), post) + if post.contains_key(prior.last().0@) {
            Seq::empty()
        } else {
            seq![Event::LinkRemoved { href: prior.last().0, kind: prior.last().1.kind }]
        }
    }
}

/// The announcements of links of `post` that `prior` lacks or holds with
/// another kind or poll rate, in the order of `post`.
pub open spec fn added_events(post: Seq<(String, ResourceLink)>, prior: Map<Seq<char>, ResourceLink>) -> Seq<Event>
    decreases post.len(),
{
    if post.len() == 0 {
        Seq::empty()
    } else {
        added_events(post.drop_last(), prior) + if prior.contains_key(post.last().0@) && prior[post.last().0@]
            == post.last().1 {
            Seq::empty()
        } else {
            seq![
                Event::LinkAddedOrUpdated {
                    href: post.last().0,
                    kind: post.last().1.kind,
                    poll_rate: post.last().1.poll_rate,
                },
            ]
        }
    }
}

/// Compares the resources needed by the model against a prior set: first
/// those removed, then those added or changed.
pub fn resource_link_events(prior: &LinkMap, post: &LinkMap) -> (r: Vec<Event>)
    ensures
        r@ == removed_events(prior.entries@, post@) + added_events(post.entries@, prior@),
{
    let mut events: Vec<Event> = Vec::new();
    let mut i: usize = 0;
    while i < prior.entries.len()
        invariant
            i <= prior.entries@.len(),
            events@ == removed_events(prior.entries@.take(i as int), post@),
        decreases prior.entries@.len() - i,
    {
        assert(prior.entries@.take(i as int + 1).drop_last() =~= prior.entries@.take(i as int));
        let (href, link) = &prior.entries[i];
        if !post.contains(href) {
            events.push(Event::LinkRemoved { href: href.clone(), kind: link.kind });
        } else {
            assert(events@ + Seq::<Event>::empty() =~= events@);
        }
        i = i + 1;
    }
    assert(prior.entries@.take(prior.entries@.len() as int) =~= prior.entries@);
    let ghost removed = events@;
    let mut j: usize = 0;
    while j < post.entries.len()
        invariant
            j <= post.entries@.len(),
            events@ == removed + added_events(post.entries@.take(j as int), prior@),
        decreases post.entries@.len() - j,
    {
        assert(post.entries@.take(j as int + 1).drop_last() =~= post.entries@.take(j as int));
        let (href, link) = &post.entries[j];
        let same = match prior.get(href) {
            Some(l) => l == *link,
            None => false,
        };
        if !same {
            events.push(Event::LinkAddedOrUpdated { href: href.clone(), kind: link.kind, poll_rate: link.poll_rate });
            assert(events@ =~= removed + added_events(post.entries@.take(j as int + 1), prior@));
        } else {
            assert(events@ =~= removed + added_events(post.entries@.take(j as int + 1), prior@));
        }
        j = j + 1;
    }
    assert(post.entries@.take(post.entries@.len() as int) =~= post.entries@);
    events
}

} // verus!
