use vstd::prelude::*;

use crate::ast::Ident;
use crate::value::{Value, ValueView};

verus! {

/// The single mutable mapping from identifiers to values of one interpreter
/// session.  It lives for the whole session, is read by `Ident` evaluation
/// and is written only by `Bind` evaluation, which inserts or overwrites.
pub struct Environment {
    bindings: Vec<(Ident, Value)>,
}

/// Whether each name is bound by at most one entry.
spec fn distinct_keys(s: Seq<(Ident, Value)>) -> bool {
    forall|i: int, j: int| 0 <= i < j < s.len() ==> s[i].0@ != s[j].0@
}

/// The mapping that a sequence of entries denotes; a later entry for a name
/// overrides an earlier one.
spec fn map_of(s: Seq<(Ident, Value)>) -> Map<Seq<char>, ValueView>
    decreases s.len(),
{
    if s.len() == 0 {
        Map::empty()
    } else {
        map_of(s.drop_last()).insert(s.last().0@, s.last().1@)
    }
}

proof fn lemma_map_of_get(s: Seq<(Ident, Value)>, i: int)
    requires
        distinct_keys(s),
        0 <= i < s.len(),
    ensures
        map_of(s).contains_key(s[i].0@),
        map_of(s)[s[i].0@] == s[i].1@,
    decreases s.len(),
{
    if i < s.len() - 1 {
        assert(distinct_keys(s.drop_last()));
        lemma_map_of_get(s.drop_last(), i);
        assert(s.drop_last()[i] == s[i]);
        assert(s[i].0@ != s.last().0@);
    }
}

proof fn lemma_map_of_absent(s: Seq<(Ident, Value)>, k: Seq<char>)
    requires
        forall|i: int| 0 <= i < s.len() ==> s[i].0@ != k,
    ensures
        !map_of(s).contains_key(k),
    decreases s.len(),
{
    if s.len() > 0 {
        lemma_map_of_absent(s.drop_last(), k);
    }
}

proof fn lemma_map_of_update(s: Seq<(Ident, Value)>, i: int, e: (Ident, Value))
    requires
        distinct_keys(s),
        0 <= i < s.len(),
        s[i].0@ == e.0@,
    ensures
        map_of(s.update(i, e)) == map_of(s).insert(e.0@, e.1@),
    decreases s.len(),
{
    if i == s.len() - 1 {
        assert(s.update(i, e).drop_last() =~= s.drop_last());
        assert(map_of(s.update(i, e)) =~= map_of(s).insert(e.0@, e.1@));
    } else {
        assert(distinct_keys(s.drop_last()));
        assert(s.update(i, e).drop_last() =~= s.drop_last().update(i, e));
        lemma_map_of_update(s.drop_last(), i, e);
        assert(s[i].0@ != s.last().0@);
        assert(map_of(s.drop_last()).insert(e.0@, e.1@).insert(s.last().0@, s.last().1@)
            =~= map_of(s).insert(e.0@, e.1@));
    }
}

impl View for Environment {
    type V = Map<Seq<char>, ValueView>;

    closed spec fn view(&self) -> Map<Seq<char>, ValueView> {
        map_of(self.bindings@)
    }
}

impl Environment {
    #[verifier::type_invariant]
    spec fn wf(&self) -> bool {
        distinct_keys(self.bindings@)
    }

    /// A fresh environment with no binding.
    pub fn new() -> (r: Environment)
        ensures
            r@ == Map::<Seq<char>, ValueView>::empty(),
    {
        Environment { bindings: Vec::new() }
    }

    /// Looks a name up; yields the value bound to it, if there is one.
    pub fn get(&self, name: &Ident) -> (r: Option<&Value>)
        ensures
            match r {
                Some(v) => self@.contains_key(name@) && v@ == self@[name@],
                None => !self@.contains_key(name@),
            },
    {
        proof {
            use_type_invariant(&*self);
        }
        let n = self.bindings.len();
        let mut i: usize = 0;
        while i < n
            invariant
                n == self.bindings@.len(),
                0 <= i <= n,
                distinct_keys(self.bindings@),
                forall|k: int| 0 <= k < i ==> self.bindings@[k].0@ != name@,
            decreases n - i,
        {
            if self.bindings[i].0.0 == name.0 {
                proof {
                    lemma_map_of_get(self.bindings@, i as int);
                }
                return Some(&self.bindings[i].1);
            }
            i += 1;
        }
        proof {
            lemma_map_of_absent(self.bindings@, name@);
        }
        None
    }

    /// Binds a name to a value, replacing any earlier binding of that name.
    pub fn insert(&mut self, name: Ident, value: Value)
        ensures
            final(self)@ == old(self)@.insert(name@, value@),
    {
        proof {
            use_type_invariant(&*self);
        }
        let mut entries: Vec<(Ident, Value)> = Vec::new();
        std::mem::swap(&mut entries, &mut self.bindings);
        let ghost s0 = entries@;
        let n = entries.len();
        let mut i: usize = 0;
        while i < n
            invariant
                n == entries@.len(),
                0 <= i <= n,
                entries@ == s0,
                distinct_keys(s0),
                map_of(s0) == old(self)@,
                forall|k: int| 0 <= k < i ==> s0[k].0@ != name@,
            decreases n - i,
        {
            if entries[i].0.0 == name.0 {
                let ghost e = (name, value);
                entries.set(i, (name, value));
                proof {
                    lemma_map_of_update(s0, i as int, e);
                }
                self.bindings = entries;
                return;
            }
            i += 1;
        }
        entries.push((name, value));
        proof {
            assert(entries@.drop_last() =~= s0);
        }
        self.bindings = entries;
    }
}

} // verus!
