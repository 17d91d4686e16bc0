//! The cargo features a protocol's generated model is built with: one per
//! domain, gated on the domains it depends on.

use vstd::prelude::*;
use crate::protocol::{Domain, Protocol};
use crate::text::{str_eq, strs};

verus! {

/// A list of features with their dependencies; a later entry for a feature
/// replaces an earlier one.
pub struct FeatureMap {
    pub entries: Vec<(String, Vec<String>)>,
}

/// The map that a list of entries denotes: each entry inserted in turn.
pub open spec fn map_of(es: Seq<(String, Vec<String>)>) -> Map<Seq<char>, Seq<Seq<char>>>
    decreases es.len(),
{
    if es.len() == 0 {
        Map::empty()
    } else {
        map_of(es.drop_last()).insert(es.last().0@, strs(es.last().1@))
    }
}

impl View for FeatureMap {
    type V = Map<Seq<char>, Seq<Seq<char>>>;

    open spec fn view(&self) -> Map<Seq<char>, Seq<Seq<char>>> {
        map_of(self.entries@)
    }
}

proof fn lemma_map_of_tail(es: Seq<(String, Vec<String>)>, n: int, k: Seq<char>)
    requires
        0 <= n <= es.len(),
        forall|j: int| n <= j < es.len() ==> (#[trigger] es[j]).0@ != k,
    ensures
        map_of(es).contains_key(k) == map_of(es.take(n)).contains_key(k),
        map_of(es).contains_key(k) ==> map_of(es)[k] == map_of(es.take(n))[k],
    decreases es.len() - n,
{
    if n == es.len() {
        assert(es.take(n) =~= es);
    } else {
        assert(es.drop_last().take(n) =~= es.take(n));
        assert forall|j: int| n <= j < es.drop_last().len() implies (#[trigger] es.drop_last()[j]).0@ != k by {
            assert(es.drop_last()[j] == es[j]);
        }
        lemma_map_of_tail(es.drop_last(), n, k);
    }
}

proof fn lemma_map_of_keys(es: Seq<(String, Vec<String>)>, k: Seq<char>)
    ensures
        map_of(es).contains_key(k) <==> exists|j: int| 0 <= j < es.len() && (#[trigger] es[j]).0@ == k,
    decreases es.len(),
{
    if es.len() > 0 {
        lemma_map_of_keys(es.drop_last(), k);
        if exists|j: int| 0 <= j < es.len() && (#[trigger] es[j]).0@ == k {
            let j = choose|j: int| 0 <= j < es.len() && (#[trigger] es[j]).0@ == k;
            if j < es.len() - 1 {
                assert(es.drop_last()[j] == es[j]);
            }
        }
        if exists|j: int| 0 <= j < es.drop_last().len() && (#[trigger] es.drop_last()[j]).0@ == k {
            let j = choose|j: int| 0 <= j < es.drop_last().len() && (#[trigger] es.drop_last()[j]).0@ == k;
            assert(es[j] == es.drop_last()[j]);
        }
    }
}

impl FeatureMap {
    /// An empty list.
    pub fn new() -> (r: Self)
        ensures
            r@ == Map::<Seq<char>, Seq<Seq<char>>>::empty(),
    {
        FeatureMap { entries: Vec::new() }
    }

    /// Sets the dependencies of `feature`.
    pub fn insert(&mut self, feature: String, deps: Vec<String>)
        ensures
            final(self)@ == old(self)@.insert(feature@, strs(deps@)),
    {
        let ghost k = feature@;
        let ghost v = strs(deps@);
        self.entries.push((feature, deps));
        assert(self.entries@.drop_last() =~= old(self).entries@);
    }

    /// The dependencies of `feature`, if it is listed.
    pub fn get(&self, feature: &str) -> (r: Option<&Vec<String>>)
        ensures
            match r {
                Some(v) => self@.contains_key(feature@) && self@[feature@] == strs(v@),
                None => !self@.contains_key(feature@),
            },
    {
        let mut i = self.entries.len();
        while i > 0
            invariant
                i <= self.entries@.len(),
                forall|j: int| i <= j < self.entries@.len() ==> (#[trigger] self.entries@[j]).0@ != feature@,
            decreases i,
        {
            if str_eq(self.entries[i - 1].0.as_str(), feature) {
                proof {
                    let es = self.entries@;
                    assert forall|j: int| i <= j < es.len() implies (#[trigger] es[j]).0@ != feature@ by {}
                    lemma_map_of_tail(es, i as int, feature@);
                    let t = es.take(i as int);
                    assert(t.drop_last() =~= es.take(i - 1));
                    assert(t.last() == es[i - 1]);
                }
                return Some(&self.entries[i - 1].1);
            }
            i = i - 1;
        }
        proof {
            lemma_map_of_tail(self.entries@, 0, feature@);
            assert(self.entries@.take(0) =~= Seq::<(String, Vec<String>)>::empty());
        }
        None
    }
}

fn same_strings(a: &Vec<String>, b: &Vec<String>) -> (r: bool)
    ensures
        r == (strs(a@) == strs(b@)),
{
    if a.len() != b.len() {
        assert(strs(a@).len() != strs(b@).len());
        return false;
    }
    let mut i: usize = 0;
    while i < a.len()
        invariant
            a@.len() == b@.len(),
            i <= a@.len(),
            forall|j: int| 0 <= j < i ==> a@[j]@ == b@[j]@,
        decreases a@.len() - i,
    {
        if !str_eq(a[i].as_str(), b[i].as_str()) {
            assert(strs(a@)[i as int] != strs(b@)[i as int]);
            return false;
        }
        i = i + 1;
    }
    assert(strs(a@) =~= strs(b@));
    true
}

/// Whether two feature lists denote the same features with the same
/// dependencies.
pub fn features_eq(a: &FeatureMap, b: &FeatureMap) -> (r: bool)
    ensures
        r == (a@ == b@),
{
    let mut i: usize = 0;
    while i < a.entries.len()
        invariant
            i <= a.entries@.len(),
            forall|j: int| 0 <= j < i ==> {
                let k = (#[trigger] a.entries@[j]).0@;
                a@.contains_key(k) && b@.contains_key(k) && a@[k] == b@[k]
            },
        decreases a.entries@.len() - i,
    {
        let k = a.entries[i].0.as_str();
        proof {
            lemma_map_of_keys(a.entries@, k@);
        }
        match (a.get(k), b.get(k)) {
            (Some(x), Some(y)) => {
                if !same_strings(x, y) {
                    return false;
                }
            },
            _ => {
                return false;
            },
        }
        i = i + 1;
    }
    let mut i: usize = 0;
    while i < b.entries.len()
        invariant
            i <= b.entries@.len(),
            forall|j: int| 0 <= j < a.entries@.len() ==> {
                let k = (#[trigger] a.entries@[j]).0@;
                a@.contains_key(k) && b@.contains_key(k) && a@[k] == b@[k]
            },
            forall|j: int| 0 <= j < i ==> a@.contains_key((#[trigger] b.entries@[j]).0@),
        decreases b.entries@.len() - i,
    {
        let k = b.entries[i].0.as_str();
        proof {
            lemma_map_of_keys(b.entries@, k@);
        }
        match a.get(k) {
            Some(_) => {},
            None => {
                return false;
            },
        }
        i = i + 1;
    }
    assert forall|k: Seq<char>|
        #![trigger a@.dom().contains(k)]
        #![trigger b@.dom().contains(k)]
        #![trigger a@[k]]
        #![trigger b@[k]]
        a@.dom().contains(k) == b@.dom().contains(k) && (a@.dom().contains(k) ==> a@[k] == b@[k]) by {
        lemma_map_of_keys(a.entries@, k);
        lemma_map_of_keys(b.entries@, k);
        if a@.contains_key(k) {
            let j = choose|j: int| 0 <= j < a.entries@.len() && (#[trigger] a.entries@[j]).0@ == k;
            assert(a@.contains_key(a.entries@[j].0@));
        }
        if b@.contains_key(k) {
            let j = choose|j: int| 0 <= j < b.entries@.len() && (#[trigger] b.entries@[j]).0@ == k;
            assert(a@.contains_key(b.entries@[j].0@));
        }
    }
    assert(a@.dom() =~= b@.dom());
    assert(a@ =~= b@);
    true
}

/// The dependencies a domain's feature gets: `experimental` for an
/// experimental domain, then the domains it depends on.
pub open spec fn domain_feature_deps(d: Domain) -> Seq<Seq<char>> {
    (if d.annotation.experimental {
        seq!["experimental"@]
    } else {
        seq![]
    }) + strs(d.dependencies@)
}

/// The features before any domain: `default` (the browser, target and page
/// domains) and `experimental`.
pub open spec fn base_features() -> Map<Seq<char>, Seq<Seq<char>>> {
    Map::empty().insert("default"@, seq!["Browser"@, "Target"@, "Page"@]).insert("experimental"@, seq![])
}

/// The features after the first `n` domains of `ds`.
pub open spec fn features_upto(ds: Seq<Domain>, n: int) -> Map<Seq<char>, Seq<Seq<char>>>
    decreases n,
{
    if n <= 0 || n > ds.len() {
        base_features()
    } else {
        features_upto(ds, n - 1).insert(ds[n - 1].domain@, domain_feature_deps(ds[n - 1]))
    }
}

/// The features a protocol's model is expected to declare.
pub open spec fn expected_features_of(p: Protocol) -> Map<Seq<char>, Seq<Seq<char>>> {
    features_upto(p.domains@, p.domains@.len() as int)
}

/// The features a protocol's model is expected to declare.
pub fn expected_features(p: &Protocol) -> (r: FeatureMap)
    ensures
        r@ == expected_features_of(*p),
{
    let mut m = FeatureMap::new();
    let mut default_deps: Vec<String> = Vec::new();
    default_deps.push(String::from_str("Browser"));
    default_deps.push(String::from_str("Target"));
    default_deps.push(String::from_str("Page"));
    assert(strs(default_deps@) =~= seq!["Browser"@, "Target"@, "Page"@]);
    m.insert(String::from_str("default"), default_deps);
    let none: Vec<String> = Vec::new();
    assert(strs(none@) =~= Seq::<Seq<char>>::empty());
    m.insert(String::from_str("experimental"), none);
    let mut i: usize = 0;
    while i < p.domains.len()
        invariant
            i <= p.domains@.len(),
            m@ == features_upto(p.domains@, i as int),
        decreases p.domains@.len() - i,
    {
        let d = &p.domains[i];
        let mut deps: Vec<String> = Vec::new();
        if d.annotation.experimental {
            deps.push(String::from_str("experimental"));
        }
        let mut j: usize = 0;
        while j < d.dependencies.len()
            invariant
                *d == p.domains@[i as int],
                j <= d.dependencies@.len(),
                strs(deps@) =~= (if d.annotation.experimental {
                    seq!["experimental"@]
                } else {
                    seq![]
                }) + strs(d.dependencies@).take(j as int),
            decreases d.dependencies@.len() - j,
        {
            let ghost before = deps@;
            deps.push(d.dependencies[j].clone());
            assert(strs(deps@) =~= strs(before).push(d.dependencies@[j as int]@));
            assert(strs(d.dependencies@).take(j + 1) =~= strs(d.dependencies@).take(j as int).push(
                d.dependencies@[j as int]@));
            j = j + 1;
        }
        assert(strs(d.dependencies@).take(j as int) =~= strs(d.dependencies@));
        m.insert(d.domain.clone(), deps);
        i = i + 1;
    }
    m
}

proof fn lemma_feature_of_domain(ds: Seq<Domain>, n: int, i: int)
    requires
        0 <= i < n <= ds.len(),
        forall|j: int| i < j < n ==> (#[trigger] ds[j]).domain@ != ds[i].domain@,
    ensures
        features_upto(ds, n).contains_key(ds[i].domain@),
        features_upto(ds, n)[ds[i].domain@] == domain_feature_deps(ds[i]),
    decreases n,
{
    if n - 1 > i {
        lemma_feature_of_domain(ds, n - 1, i);
        assert(ds[n - 1].domain@ != ds[i].domain@);
    }
}

/// The feature of every domain (the last domain of its name) lists the
/// domains it depends on, all of them and in their order, at its end; it
/// begins with `experimental` as one entry more exactly where the domain is
/// experimental, and holds nothing else.
pub proof fn law_domain_feature_lists_its_dependencies(p: Protocol, i: int)
    requires
        0 <= i < p.domains@.len(),
        forall|j: int| i < j < p.domains@.len() ==> (#[trigger] p.domains@[j]).domain@ != p.domains@[i].domain@,
    ensures
        ({
            let d = p.domains@[i];
            let deps = strs(d.dependencies@);
            let m = expected_features_of(p);
            &&& m.contains_key(d.domain@)
            &&& m[d.domain@].len() == deps.len() + (if d.annotation.experimental { 1int } else { 0int })
            &&& m[d.domain@].subrange(m[d.domain@].len() - deps.len(), m[d.domain@].len() as int) == deps
            &&& d.annotation.experimental ==> m[d.domain@][0] == "experimental"@
        }),
{
    lemma_feature_of_domain(p.domains@, p.domains@.len() as int, i);
    let d = p.domains@[i];
    let deps = strs(d.dependencies@);
    let f = domain_feature_deps(d);
    assert(f.subrange(f.len() - deps.len(), f.len() as int) =~= deps);
}

} // verus!
