//! Nations and the profile that holds them.

use vstd::prelude::*;
use crate::credentials::Auth;
use crate::credentials::AuthView;

verus! {

/// A nation: its name and what it authenticates with.
pub struct Nation {
    pub name: String,
    pub auth: Auth,
}

/// A `Nation` with its strings as sequences of characters.
pub struct NationView {
    pub name: Seq<char>,
    pub auth: AuthView,
}

impl View for Nation {
    type V = NationView;

    open spec fn view(&self) -> NationView {
        NationView { name: self.name@, auth: self.auth@ }
    }
}

/// The place of the first nation called `name` in `nations`, if there
/// is one.
#[verifier::opaque]
pub open spec fn first_named(nations: Seq<NationView>, name: Seq<char>) -> Option<int> {
    if exists|i: int| 0 <= i < nations.len() && (#[trigger] nations[i]).name == name {
        Some(
            choose|i: int|
                0 <= i < nations.len() && (#[trigger] nations[i]).name == name && forall|j: int|
                    0 <= j < i ==> (#[trigger] nations[j]).name != name,
        )
    } else {
        None
    }
}

/// Whether no two nations of `nations` share a name.
pub open spec fn unique_names(nations: Seq<NationView>) -> bool {
    forall|i: int, j: int|
        0 <= i < j < nations.len() ==> (#[trigger] nations[i]).name != (#[trigger] nations[j]).name
}

/// `first_named` finds `i` where `i` is the first place that holds the
/// name.
pub proof fn lemma_first_named_is(nations: Seq<NationView>, name: Seq<char>, i: int)
    requires
        0 <= i < nations.len(),
        nations[i].name == name,
        forall|j: int| 0 <= j < i ==> (#[trigger] nations[j]).name != name,
    ensures
        first_named(nations, name) == Some(i),
{
    reveal(first_named);
    let found = first_named(nations, name)->0;
    assert(0 <= found < nations.len() && nations[found].name == name && forall|j: int|
        0 <= j < found ==> (#[trigger] nations[j]).name != name);
    if found < i {
        assert(nations[found].name != name);
    } else if i < found {
        assert(nations[i].name != name);
    }
}

/// `first_named` finds nothing exactly where no nation has the name,
/// and otherwise a nation that has it.
pub proof fn lemma_first_named(nations: Seq<NationView>, name: Seq<char>)
    ensures
        first_named(nations, name) matches Some(i) ==> 0 <= i < nations.len() && nations[i].name
            == name && forall|j: int| 0 <= j < i ==> (#[trigger] nations[j]).name != name,
        first_named(nations, name) is None ==> forall|j: int|
            0 <= j < nations.len() ==> (#[trigger] nations[j]).name != name,
{
    reveal(first_named);
    if exists|i: int| 0 <= i < nations.len() && (#[trigger] nations[i]).name == name {
        let w = choose|i: int| 0 <= i < nations.len() && (#[trigger] nations[i]).name == name;
        lemma_has_first(nations, name, w);
    }
}

/// Where some nation before or at `bound` has the name, one of them is
/// the first.
proof fn lemma_has_first(nations: Seq<NationView>, name: Seq<char>, bound: int)
    requires
        0 <= bound < nations.len(),
        nations[bound].name == name,
    ensures
        exists|i: int|
            0 <= i < nations.len() && (#[trigger] nations[i]).name == name && forall|j: int|
                0 <= j < i ==> (#[trigger] nations[j]).name != name,
    decreases bound,
{
    if exists|k: int| 0 <= k < bound && (#[trigger] nations[k]).name == name {
        let k = choose|k: int| 0 <= k < bound && (#[trigger] nations[k]).name == name;
        lemma_has_first(nations, name, k);
    } else {
        assert(forall|j: int| 0 <= j < bound ==> (#[trigger] nations[j]).name != name);
    }
}

/// Replacing a nation by one of the same name does not change where a
/// name is first found.
pub proof fn lemma_first_named_update(
    nations: Seq<NationView>,
    name: Seq<char>,
    i: int,
    nation: NationView,
)
    requires
        0 <= i < nations.len(),
        nation.name == nations[i].name,
    ensures
        first_named(nations.update(i, nation), name) == first_named(nations, name),
{
    let updated = nations.update(i, nation);
    assert forall|j: int| 0 <= j < nations.len() implies (#[trigger] updated[j]).name
        == nations[j].name by {}
    lemma_first_named(nations, name);
    match first_named(nations, name) {
        Some(k) => {
            assert forall|j: int| 0 <= j < k implies (#[trigger] updated[j]).name != name by {
                assert(nations[j].name != name);
            }
            lemma_first_named_is(updated, name, k);
        },
        None => {
            lemma_first_named(updated, name);
            if first_named(updated, name) is Some {
                let k = first_named(updated, name)->0;
                assert(nations[k].name != name);
            }
        },
    }
}

/// Where no two nations share a name, a name is found at the one place
/// that holds it.
pub proof fn unique_name_is_found(nations: Seq<NationView>, name: Seq<char>, i: int)
    requires
        unique_names(nations),
        0 <= i < nations.len(),
        nations[i].name == name,
    ensures
        first_named(nations, name) == Some(i),
{
    lemma_first_named_is(nations, name, i);
}

/// A collection of nations.
pub struct Nations {
    pub inner: Vec<Nation>,
}

impl View for Nations {
    type V = Seq<NationView>;

    open spec fn view(&self) -> Seq<NationView> {
        Seq::new(self.inner@.len(), |i: int| self.inner@[i]@)
    }
}

impl Nations {
    /// Make a new collection of `Nation`s.
    pub fn new() -> (r: Self)
        ensures
            r@ == Seq::<NationView>::empty(),
            unique_names(r@),
    {
        let r = Self { inner: Vec::new() };
        assert(r@ == Seq::<NationView>::empty());
        r
    }

    /// Finds the first nation called `name`.
    pub fn position(&self, name: &str) -> (r: Option<usize>)
        ensures
            r matches Some(i) ==> i < self.inner.len() && first_named(self@, name@) == Some(
                i as int,
            ),
            r is None ==> first_named(self@, name@) is None,
    {
        let wanted = name.to_owned();
        let mut i: usize = 0;
        while i < self.inner.len()
            invariant
                i <= self.inner.len(),
                wanted@ == name@,
                forall|j: int| 0 <= j < i ==> (#[trigger] self@[j]).name != name@,
            decreases self.inner.len() - i,
        {
            if self.inner[i].name == wanted {
                proof {
                    lemma_first_named_is(self@, name@, i as int);
                }
                return Some(i);
            }
            i += 1;
        }
        proof {
            lemma_first_named(self@, name@);
        }
        None
    }
}

/// The stored state: every nation with its credentials.
pub struct Profile {
    pub nations: Nations,
}

impl View for Profile {
    type V = Seq<NationView>;

    open spec fn view(&self) -> Seq<NationView> {
        self.nations@
    }
}

impl Profile {
    /// The profile that the store holds: its nations where it has any
    /// on record, and the empty profile where it has no record at all.
    /// The lack of a record is no error.
    pub fn from_stored(stored: Option<Nations>) -> (r: Self)
        ensures
            r@ == match stored {
                Some(nations) => nations@,
                None => Seq::<NationView>::empty(),
            },
    {
        match stored {
            Some(nations) => Self { nations },
            None => Self::default(),
        }
    }
}

impl Default for Profile {
    fn default() -> (r: Self)
        ensures
            r@ == Seq::<NationView>::empty(),
    {
        Self { nations: Nations::new() }
    }
}

} // verus!
