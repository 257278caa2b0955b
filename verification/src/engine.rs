//! The engine-side registry of image providers.
//!
//! Registration constructs one [`ProviderAdapter`] per provider name and
//! installs it under that name. A later registration under the same name
//! replaces the earlier one: every subsequent lookup observes only the
//! newest adapter for a name, so requests after a re-registration are
//! served by the second supplier alone.

use vstd::prelude::*;

use crate::adapter::ProviderAdapter;

verus! {

/// The adapter a sequence of registrations yields for `name`: the newest
/// entry under that name, if any entry carries it at all.
pub open spec fn registered_adapter<F>(
    entries: Seq<(String, ProviderAdapter<F>)>,
    name: Seq<char>,
) -> Option<ProviderAdapter<F>>
    decreases entries.len(),
{
    if entries.len() == 0 {
        None
    } else if entries.last().0@ == name {
        Some(entries.last().1)
    } else {
        registered_adapter(entries.drop_last(), name)
    }
}

/// The engine-lifecycle object, reduced to what the bridge reads of it:
/// its image-provider registry.
pub struct QmlEngine<F> {
    providers: Vec<(String, ProviderAdapter<F>)>,
}

impl<F> QmlEngine<F> {
    /// The registrations made so far, oldest first.
    pub closed spec fn spec_providers(self) -> Seq<(String, ProviderAdapter<F>)> {
        self.providers@
    }

    /// The adapter a request under `name` would reach.
    pub open spec fn spec_lookup(self, name: Seq<char>) -> Option<ProviderAdapter<F>> {
        registered_adapter(self.spec_providers(), name)
    }

    /// An engine with no image provider registered.
    pub fn new() -> (e: Self)
        ensures
            forall|name: Seq<char>| e.spec_lookup(name) is None,
    {
        QmlEngine { providers: Vec::new() }
    }

    /// Registers `provider_function` as the image supplier under `name`:
    /// constructs one provider adapter holding it and installs the adapter
    /// so that it replaces any earlier registration under `name`, while
    /// every other name keeps the adapter it had.
    pub fn add_proxy_image_provider(&mut self, name: String, provider_function: F)
        ensures
            (final(self).spec_lookup(name@) matches Some(a) && a.spec_supplier()
                == provider_function),
            forall|other: Seq<char>|
                other != name@ ==> final(self).spec_lookup(other) == old(self).spec_lookup(other),
    {
        let adapter = ProviderAdapter::new(provider_function);
        self.providers.push((name, adapter));
        proof {
            assert(self.providers@.drop_last() =~= old(self).providers@);
        }
    }

    /// The adapter registered under `name`, if any: the one installed by
    /// the newest registration under that name.
    pub fn image_provider(&self, name: &String) -> (r: Option<&ProviderAdapter<F>>)
        ensures
            match r {
                Some(a) => self.spec_lookup(name@) == Some(*a),
                None => self.spec_lookup(name@) is None,
            },
    {
        let n = self.providers.len();
        proof {
            assert(self.providers@.take(n as int) =~= self.providers@);
        }
        let mut i: usize = n;
        while i > 0
            invariant
                n == self.providers@.len(),
                0 <= i <= n,
                registered_adapter(self.providers@, name@) == registered_adapter(
                    self.providers@.take(i as int),
                    name@,
                ),
            decreases i,
        {
            i = i - 1;
            let entry = &self.providers[i];
            proof {
                assert(self.providers@.take(i + 1 as int).drop_last() =~= self.providers@.take(
                    i as int,
                ));
                assert(self.providers@.take(i + 1 as int).last() == self.providers@[i as int]);
            }
            if entry.0 == *name {
                return Some(&entry.1);
            }
            proof {
                assert(registered_adapter(self.providers@.take(i + 1 as int), name@)
                    == registered_adapter(self.providers@.take(i as int), name@));
            }
        }
        proof {
            assert(self.providers@.take(0) =~= Seq::<(String, ProviderAdapter<F>)>::empty());
        }
        None
    }
}

/// Registration is idempotent in its effect on later requests: after a
/// second registration under the same name, only the second adapter is
/// observed under that name, whatever was registered before.
pub proof fn lemma_registration_replaces<F>(
    entries: Seq<(String, ProviderAdapter<F>)>,
    name1: String,
    name2: String,
    first: ProviderAdapter<F>,
    second: ProviderAdapter<F>,
)
    requires
        name1@ == name2@,
    ensures
        registered_adapter(entries.push((name1, first)).push((name2, second)), name1@) == Some(
            second,
        ),
{
    let once = entries.push((name1, first));
    assert(once.push((name2, second)).last() == (name2, second));
}

} // verus!
