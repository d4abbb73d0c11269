//! Trust bundles by trust domain: a list in which no trust domain occurs
//! twice, kept in the order in which the domains were first put in.

use vstd::prelude::*;
use vstd::string::*;
use crate::text::same_text;

verus! {

/// The views of a list of bundles, each with the name of its trust domain.
pub open spec fn bundle_views(bundles: Seq<(String, Vec<u8>)>) -> Seq<(Seq<char>, Seq<u8>)> {
    bundles.map_values(|b: (String, Vec<u8>)| (b.0@, b.1@))
}

/// Whether no trust domain occurs twice in `bundles`.
pub open spec fn distinct_domains(bundles: Seq<(Seq<char>, Seq<u8>)>) -> bool {
    forall|i: int, j: int|
        0 <= i < j < bundles.len() ==> (#[trigger] bundles[i]).0 != (#[trigger] bundles[j]).0
}

/// Whether `bundles` has a bundle for `domain`.
pub open spec fn holds_domain(bundles: Seq<(Seq<char>, Seq<u8>)>, domain: Seq<char>) -> bool {
    exists|i: int| 0 <= i < bundles.len() && (#[trigger] bundles[i]).0 == domain
}

/// Bundles by trust domain. No trust domain has more than one bundle.
pub struct BundleSet {
    entries: Vec<(String, Vec<u8>)>,
}

impl View for BundleSet {
    type V = Seq<(Seq<char>, Seq<u8>)>;

    /// The bundles with their trust domains, in the order in which the
    /// domains were first put in.
    closed spec fn view(&self) -> Seq<(Seq<char>, Seq<u8>)> {
        bundle_views(self.entries@)
    }
}

impl BundleSet {
    #[verifier::type_invariant]
    spec fn no_domain_twice(self) -> bool {
        distinct_domains(bundle_views(self.entries@))
    }

    /// The set without any bundle.
    pub fn new() -> (set: BundleSet)
        ensures
            set@ == Seq::<(Seq<char>, Seq<u8>)>::empty(),
    {
        let entries: Vec<(String, Vec<u8>)> = Vec::new();
        assert(bundle_views(entries@) =~= Seq::empty());
        BundleSet { entries }
    }

    /// Puts the bundle of a trust domain into the set. Where the domain
    /// has a bundle already, the new one takes its place and the answer is
    /// `true`; otherwise the domain comes last and the answer is `false`.
    pub fn insert(self, domain: String, bundle: Vec<u8>) -> (changed: (BundleSet, bool))
        ensures
            changed.1 == holds_domain(self@, domain@),
            changed.1 ==> exists|i: int|
                0 <= i < self@.len() && (#[trigger] self@[i]).0 == domain@ && changed.0@
                    == self@.update(i, (domain@, bundle@)),
            !changed.1 ==> changed.0@ == self@.push((domain@, bundle@)),
            distinct_domains(changed.0@),
    {
        proof {
            use_type_invariant(&self);
        }
        let mut entries = self.entries;
        let ghost before = bundle_views(entries@);
        let mut i: usize = 0;
        while i < entries.len()
            invariant
                i <= entries@.len(),
                before == bundle_views(entries@),
                before == self@,
                distinct_domains(before),
                forall|k: int| 0 <= k < i ==> (#[trigger] before[k]).0 != domain@,
            decreases entries@.len() - i,
        {
            assert(before[i as int].0 == entries@[i as int].0@);
            if same_text(entries[i].0.as_str(), domain.as_str()) {
                entries.set(i, (domain, bundle));
                proof {
                    let after = bundle_views(entries@);
                    assert(after =~= before.update(i as int, (domain@, bundle@)));
                    assert(before[i as int].0 == domain@);
                    assert forall|a: int, b: int| 0 <= a < b < after.len() implies (
                    #[trigger] after[a]).0 != (#[trigger] after[b]).0 by {
                        assert(after[a].0 == before[a].0);
                        assert(after[b].0 == before[b].0);
                        assert(before[a].0 != before[b].0);
                    }
                }
                return (BundleSet { entries }, true);
            }
            i += 1;
        }
        entries.push((domain, bundle));
        proof {
            let after = bundle_views(entries@);
            assert(after =~= before.push((domain@, bundle@)));
            assert forall|a: int, b: int| 0 <= a < b < after.len() implies (#[trigger] after[a]).0
                != (#[trigger] after[b]).0 by {
                assert(after[a] == before[a]);
                if b < before.len() {
                    assert(after[b] == before[b]);
                    assert(before[a].0 != before[b].0);
                } else {
                    assert(before[a].0 != domain@);
                }
            }
        }
        (BundleSet { entries }, false)
    }

    /// The set that holds the bundle of one trust domain.
    pub fn single(domain: String, bundle: Vec<u8>) -> (set: BundleSet)
        ensures
            set@ == seq![(domain@, bundle@)],
    {
        let (set, _) = BundleSet::new().insert(domain, bundle);
        assert(set@ =~= seq![(domain@, bundle@)]);
        set
    }

    /// The bundles with their trust domains, in order. No trust domain
    /// occurs twice among them.
    pub fn entries(&self) -> (entries: &Vec<(String, Vec<u8>)>)
        ensures
            bundle_views(entries@) == self@,
            distinct_domains(self@),
    {
        proof {
            use_type_invariant(self);
        }
        &self.entries
    }

    /// How many trust domains have a bundle.
    pub fn len(&self) -> (count: usize)
        ensures
            count == self@.len(),
            distinct_domains(self@),
    {
        proof {
            use_type_invariant(self);
        }
        self.entries.len()
    }
}

} // verus!
