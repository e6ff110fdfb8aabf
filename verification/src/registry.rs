//! The registry of external symbols that one unit's emission collects.

use vstd::prelude::*;

verus! {

/// The names after `name` has been registered with `names`: unchanged where
/// `name` is already there, else with `name` at the end.
pub open spec fn register_one(names: Seq<Seq<char>>, name: Seq<char>) -> Seq<Seq<char>> {
    if names.contains(name) {
        names
    } else {
        names.push(name)
    }
}

/// The names after every element of `added` has been registered with `names`,
/// from the first to the last.
pub open spec fn register_all(names: Seq<Seq<char>>, added: Seq<Seq<char>>) -> Seq<Seq<char>>
    decreases added.len(),
{
    if added.len() == 0 {
        names
    } else {
        register_one(register_all(names, added.drop_last()), added.last())
    }
}

/// The texts of a sequence of strings.
pub open spec fn texts(strings: Seq<String>) -> Seq<Seq<char>> {
    Seq::new(strings.len(), |i: int| strings[i]@)
}

/// Symbol names referenced by emitted function bodies and not defined in the
/// unit. A name is kept once, at the place where it was first registered.
pub struct ExternalRegistry {
    names: Vec<String>,
}

impl View for ExternalRegistry {
    type V = Seq<Seq<char>>;

    /// The registered names in first-seen order.
    closed spec fn view(&self) -> Seq<Seq<char>> {
        texts(self.names@)
    }
}

impl ExternalRegistry {
    /// No name is held twice. `new` establishes this and `register` keeps
    /// it.
    pub open spec fn wf(&self) -> bool {
        self@.no_duplicates()
    }

    /// An empty registry.
    pub fn new() -> (r: ExternalRegistry)
        ensures
            r.wf(),
            r@ == Seq::<Seq<char>>::empty(),
    {
        let r = ExternalRegistry { names: Vec::new() };
        assert(r@ =~= Seq::<Seq<char>>::empty());
        r
    }

    /// Registers `name`: adds it at the end if it is absent, and does nothing
    /// if it is present.
    pub fn register(&mut self, name: String)
        ensures
            final(self)@ == register_one(old(self)@, name@),
            old(self).wf() ==> final(self).wf(),
    {
        let mut i: usize = 0;
        while i < self.names.len()
            invariant
                i <= self.names.len(),
                *self == *old(self),
                forall|j: int| 0 <= j < i ==> self.names@[j]@ != name@,
            decreases self.names.len() - i,
        {
            if self.names[i] == name {
                assert(texts(self.names@)[i as int] == name@);
                return ;
            }
            i += 1;
        }
        assert(!texts(self.names@).contains(name@));
        self.names.push(name);
        assert(texts(self.names@) =~= texts(old(self).names@).push(name@));
        proof {
            lemma_register_one(old(self)@, name@);
        }
    }

    /// Whether `name` has been registered.
    pub fn contains(&self, name: &String) -> (r: bool)
        ensures
            r == self@.contains(name@),
    {
        let mut i: usize = 0;
        while i < self.names.len()
            invariant
                i <= self.names.len(),
                forall|j: int| 0 <= j < i ==> self.names@[j]@ != name@,
            decreases self.names.len() - i,
        {
            if self.names[i] == *name {
                assert(texts(self.names@)[i as int] == name@);
                return true;
            }
            i += 1;
        }
        false
    }

    /// The number of registered names.
    pub fn len(&self) -> (n: usize)
        ensures
            n == self@.len(),
    {
        self.names.len()
    }

    /// Every registered name exactly once, in first-seen order.
    pub fn enumerate(&self) -> (names: &Vec<String>)
        ensures
            texts(names@) == self@,
    {
        &self.names
    }
}

/// Registering a name a second time changes nothing.
pub proof fn lemma_register_idempotent(names: Seq<Seq<char>>, name: Seq<char>)
    ensures
        register_one(register_one(names, name), name) == register_one(names, name),
{
    if !names.contains(name) {
        assert(names.push(name)[names.len() as int] == name);
    }
}

/// Registering keeps the names that are there, in their places, and leaves
/// exactly the registered name added.
pub proof fn lemma_register_one(names: Seq<Seq<char>>, name: Seq<char>)
    ensures
        names.is_prefix_of(register_one(names, name)),
        names.no_duplicates() ==> register_one(names, name).no_duplicates(),
        forall|x: Seq<char>| #[trigger]
            register_one(names, name).contains(x) <==> names.contains(x) || x == name,
{
    let after = register_one(names, name);
    if !names.contains(name) {
        assert(after[names.len() as int] == name);
        assert forall|x: Seq<char>| #[trigger] after.contains(x) implies names.contains(x) || x
            == name by {
            let k = choose|k: int| 0 <= k < after.len() && after[k] == x;
            if k < names.len() {
                assert(names[k] == x);
            }
        }
        assert forall|x: Seq<char>| names.contains(x) implies #[trigger] after.contains(x) by {
            let k = choose|k: int| 0 <= k < names.len() && names[k] == x;
            assert(after[k] == x);
        }
    }
}

/// Registering `first` and then `second` is registering `first + second`.
pub proof fn lemma_register_all_split(
    names: Seq<Seq<char>>,
    first: Seq<Seq<char>>,
    second: Seq<Seq<char>>,
)
    ensures
        register_all(names, first + second) == register_all(register_all(names, first), second),
    decreases second.len(),
{
    if second.len() == 0 {
        assert(first + second =~= first);
    } else {
        assert((first + second).drop_last() =~= first + second.drop_last());
        assert((first + second).last() == second.last());
        lemma_register_all_split(names, first, second.drop_last());
    }
}

/// However often and in whatever order names are registered, the names that
/// were there stay in front, no name is held twice, and the names held are
/// those that were there and those that were registered.
pub proof fn lemma_register_all(names: Seq<Seq<char>>, added: Seq<Seq<char>>)
    ensures
        names.is_prefix_of(register_all(names, added)),
        names.no_duplicates() ==> register_all(names, added).no_duplicates(),
        forall|x: Seq<char>| #[trigger]
            register_all(names, added).contains(x) <==> names.contains(x) || added.contains(x),
    decreases added.len(),
{
    let after = register_all(names, added);
    if added.len() > 0 {
        let rest = added.drop_last();
        let middle = register_all(names, rest);
        lemma_register_all(names, rest);
        lemma_register_one(middle, added.last());
        assert forall|x: Seq<char>| #[trigger] after.contains(x) implies names.contains(x)
            || added.contains(x) by {
            if x == added.last() {
                assert(added[added.len() - 1] == x);
            } else {
                assert(middle.contains(x));
                if rest.contains(x) {
                    let k = choose|k: int| 0 <= k < rest.len() && rest[k] == x;
                    assert(added[k] == x);
                }
            }
        }
        assert forall|x: Seq<char>| names.contains(x) || added.contains(x) implies #[trigger]
            after.contains(x) by {
            if added.contains(x) && !names.contains(x) {
                let k = choose|k: int| 0 <= k < added.len() && added[k] == x;
                if k < rest.len() {
                    assert(rest[k] == x);
                }
            }
        }
    }
}

/// Names are enumerated in the order in which they were first registered:
/// the names met among the first `k` registrations are exactly the names
/// that the registry held after them, and they stay in front of every name
/// that is first met later.
pub proof fn lemma_first_seen_order(added: Seq<Seq<char>>, k: int)
    requires
        0 <= k <= added.len(),
    ensures
        register_all(Seq::empty(), added.take(k)).is_prefix_of(register_all(Seq::empty(), added)),
        forall|x: Seq<char>| #[trigger]
            register_all(Seq::empty(), added.take(k)).contains(x) <==> added.take(k).contains(x),
{
    let empty = Seq::<Seq<char>>::empty();
    assert(added =~= added.take(k) + added.skip(k));
    lemma_register_all_split(empty, added.take(k), added.skip(k));
    lemma_register_all(register_all(empty, added.take(k)), added.skip(k));
    lemma_register_all(empty, added.take(k));
}

} // verus!
