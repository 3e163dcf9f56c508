//! The voice profile store: preloaded profiles keyed by voice identifier,
//! filled once at start-up and only read afterwards.

use vstd::prelude::*;

verus! {

/// Profiles of type `P`, at most one per identifier.
pub struct VoiceStore<P> {
    pub entries: Vec<(String, P)>,
}

impl<P> VoiceStore<P> {
    /// The identifiers, in order of loading.
    pub open spec fn ids(&self) -> Seq<Seq<char>> {
        self.entries@.map_values(|e: (String, P)| e.0@)
    }

    /// No identifier is held twice.
    pub open spec fn wf(&self) -> bool {
        forall|i: int, j: int|
            0 <= i < j < self.entries@.len() ==> #[trigger] self.entries@[i].0@ != #[trigger] self.entries@[j].0@
    }

    /// An empty store.
    pub fn new() -> (r: VoiceStore<P>)
        ensures
            r.wf(),
            r.entries@.len() == 0,
    {
        VoiceStore { entries: Vec::new() }
    }

    /// Index of the entry for `id`, if any.
    fn find(&self, id: &str) -> (r: Option<usize>)
        ensures
            r is None <==> !self.ids().contains(id@),
            r matches Some(i) ==> i < self.entries@.len() && self.entries@[i as int].0@ == id@,
    {
        let mut i: usize = 0;
        while i < self.entries.len()
            invariant
                i <= self.entries@.len(),
                forall|k: int| 0 <= k < i ==> self.entries@[k].0@ != id@,
            decreases self.entries.len() - i,
        {
            if self.entries[i].0.as_str().unicode_len() == id.unicode_len() && string_eq(
                &self.entries[i].0,
                id,
            ) {
                assert(self.ids()[i as int] == id@);
                return Some(i);
            }
            i += 1;
        }
        proof {
            if self.ids().contains(id@) {
                let k = choose|k: int| 0 <= k < self.ids().len() && self.ids()[k] == id@;
                assert(self.entries@[k].0@ == id@);
            }
        }
        None
    }

    /// Adds the profile loaded for `id`. A profile is loaded at most once
    /// per identifier: when `id` is already held, the store is unchanged and
    /// the result is `false`.
    pub fn insert(&mut self, id: String, profile: P) -> (r: bool)
        requires
            old(self).wf(),
        ensures
            final(self).wf(),
            r == !old(self).ids().contains(id@),
            r ==> final(self).entries@ == old(self).entries@.push((id, profile)),
            !r ==> final(self).entries@ == old(self).entries@,
    {
        match self.find(id.as_str()) {
            Some(_) => false,
            None => {
                proof {
                    assert forall|k: int| 0 <= k < old(self).entries@.len() implies old(
                        self,
                    ).entries@[k].0@ != id@ by {
                        assert(old(self).ids()[k] == old(self).entries@[k].0@);
                    }
                }
                self.entries.push((id, profile));
                true
            },
        }
    }

    /// Whether a profile is held for `id`.
    pub fn contains(&self, id: &str) -> (r: bool)
        ensures
            r == self.ids().contains(id@),
    {
        self.find(id).is_some()
    }

    /// The profile held for `id`, if any.
    pub fn get(&self, id: &str) -> (r: Option<&P>)
        ensures
            r is Some <==> self.ids().contains(id@),
            r matches Some(p) ==> exists|i: int|
                0 <= i < self.entries@.len() && self.entries@[i].0@ == id@ && *p == self.entries@[i].1,
    {
        match self.find(id) {
            Some(i) => Some(&self.entries[i].1),
            None => None,
        }
    }

    /// Whether the store holds no profile.
    pub fn is_empty(&self) -> (r: bool)
        ensures
            r == (self.entries@.len() == 0),
    {
        self.entries.len() == 0
    }

    /// The identifiers held, in order of loading.
    pub fn ids_vec(&self) -> (r: Vec<String>)
        ensures
            r@.map_values(|s: String| s@) == self.ids(),
    {
        let mut r: Vec<String> = Vec::new();
        let mut i: usize = 0;
        while i < self.entries.len()
            invariant
                i <= self.entries@.len(),
                r@.len() == i,
                r@.map_values(|s: String| s@) == self.ids().take(i as int),
            decreases self.entries.len() - i,
        {
            let ghost before = r@;
            r.push(self.entries[i].0.clone());
            proof {
                assert(r@ == before.push(r@[i as int]));
                assert(r@[i as int]@ == self.ids()[i as int]);
                assert(before.map_values(|s: String| s@) == self.ids().take(i as int));
                assert(r@.map_values(|s: String| s@) =~= self.ids().take(i as int + 1));
            }
            i += 1;
        }
        proof {
            assert(self.ids().take(self.entries@.len() as int) =~= self.ids());
        }
        r
    }
}

/// Whether two texts of equal length are equal, character by character.
fn string_eq(a: &String, b: &str) -> (r: bool)
    requires
        a@.len() == b@.len(),
    ensures
        r == (a@ == b@),
{
    let n = b.unicode_len();
    let mut i: usize = 0;
    while i < n
        invariant
            n == b@.len(),
            a@.len() == b@.len(),
            i <= n,
            forall|k: int| 0 <= k < i ==> a@[k] == b@[k],
        decreases n - i,
    {
        if a.as_str().get_char(i) != b.get_char(i) {
            return false;
        }
        i += 1;
    }
    proof {
        assert(a@ =~= b@);
    }
    true
}

} // verus!
