//! Query parameters of a request: an ordered mapping from names to values.

use vstd::prelude::*;

verus! {

/// A parameter list as a mathematical value: pairs of name and value, in the
/// order in which they are written into the URL.
pub type ParamSeq = Seq<(Seq<char>, Seq<char>)>;

/// No name occurs twice.
pub open spec fn names_distinct(params: ParamSeq) -> bool {
    forall|i: int, j: int| 0 <= i < j < params.len() ==> params[i].0 != params[j].0
}

/// Some pair carries `name`.
pub open spec fn has_param(params: ParamSeq, name: Seq<char>) -> bool {
    exists|i: int| 0 <= i < params.len() && params[i].0 == name
}

/// The place of a pair that carries `name`, where there is one.
pub open spec fn param_index(params: ParamSeq, name: Seq<char>) -> int {
    choose|i: int| 0 <= i < params.len() && params[i].0 == name
}

/// The value bound to `name`, if any.
pub open spec fn param_value(params: ParamSeq, name: Seq<char>) -> Option<Seq<char>> {
    if has_param(params, name) {
        Some(params[param_index(params, name)].1)
    } else {
        None
    }
}

/// Binds `name` to `value`: a name already present keeps its place and gets
/// the new value, a new name goes to the end.
pub open spec fn with_param(params: ParamSeq, name: Seq<char>, value: Seq<char>) -> ParamSeq {
    if has_param(params, name) {
        params.update(param_index(params, name), (name, value))
    } else {
        params.push((name, value))
    }
}

/// The pairs of an executable list as mathematical values.
pub open spec fn pairs_view(entries: Seq<(String, String)>) -> ParamSeq {
    Seq::new(entries.len(), |i: int| (entries[i].0@, entries[i].1@))
}

/// Binding a name keeps the names distinct, and afterwards the name has the
/// value just given while every other name has what it had.
pub proof fn lemma_with_param(params: ParamSeq, name: Seq<char>, value: Seq<char>)
    requires
        names_distinct(params),
    ensures
        names_distinct(with_param(params, name, value)),
        param_value(with_param(params, name, value), name) == Some(value),
        forall|other: Seq<char>|
            other != name ==> param_value(with_param(params, name, value), other) == param_value(
                params,
                other,
            ),
{
    let after = with_param(params, name, value);
    let at = if has_param(params, name) {
        param_index(params, name)
    } else {
        params.len() as int
    };
    assert(0 <= at < after.len() && after[at] == (name, value));
    assert(forall|i: int| 0 <= i < after.len() && i != at ==> after[i] == params[i]);
    assert(forall|i: int| 0 <= i < after.len() && i != at ==> after[i].0 != name);
    assert(names_distinct(after));
    assert(has_param(after, name));
    assert(param_index(after, name) == at);
    assert forall|other: Seq<char>| other != name implies param_value(after, other)
        == param_value(params, other) by {
        if has_param(params, other) {
            let k = param_index(params, other);
            assert(k != at);
            assert(after[k].0 == other);
            assert(has_param(after, other));
            let k2 = param_index(after, other);
            assert(k2 != at);
            assert(params[k2].0 == other);
            assert(k2 == k);
        } else if has_param(after, other) {
            let k2 = param_index(after, other);
            assert(k2 != at);
            assert(params[k2].0 == other);
            assert(false);
        }
    }
}

/// The parameters of one request. Names are unique; the order is that of
/// first insertion.
pub struct QueryParams {
    entries: Vec<(String, String)>,
}

impl View for QueryParams {
    type V = ParamSeq;

    closed spec fn view(&self) -> ParamSeq {
        pairs_view(self.entries@)
    }
}

impl QueryParams {
    #[verifier::type_invariant]
    spec fn well_formed(self) -> bool {
        names_distinct(pairs_view(self.entries@))
    }

    /// No parameters.
    pub fn new() -> (params: QueryParams)
        ensures
            params@ == Seq::<(Seq<char>, Seq<char>)>::empty(),
            names_distinct(params@),
    {
        let params = QueryParams { entries: Vec::new() };
        assert(params@ =~= Seq::<(Seq<char>, Seq<char>)>::empty());
        params
    }

    /// The number of parameters.
    pub fn len(&self) -> (n: usize)
        ensures
            n == self@.len(),
    {
        self.entries.len()
    }

    /// The place of `name`, if it is bound.
    fn find(&self, name: &String) -> (found: Option<usize>)
        ensures
            names_distinct(self@),
            found is Some <==> has_param(self@, name@),
            found matches Some(i) ==> i < self@.len() && self@[i as int].0 == name@
                && param_index(self@, name@) == i,
    {
        proof {
            use_type_invariant(self);
        }
        let mut i: usize = 0;
        while i < self.entries.len()
            invariant
                i <= self.entries.len(),
                forall|k: int| 0 <= k < i ==> self@[k].0 != name@,
                self@ == pairs_view(self.entries@),
                names_distinct(self@),
            decreases self.entries.len() - i,
        {
            if self.entries[i].0 == *name {
                assert(self@[i as int].0 == name@);
                return Some(i);
            }
            i += 1;
        }
        None
    }

    /// The value bound to `name`, if any.
    pub fn get(&self, name: &str) -> (value: Option<&str>)
        ensures
            names_distinct(self@),
            match value {
                Some(v) => param_value(self@, name@) == Some(v@),
                None => param_value(self@, name@) is None,
            },
    {
        let key = name.to_owned();
        match self.find(&key) {
            Some(i) => Some(self.entries[i].1.as_str()),
            None => None,
        }
    }

    /// Binds `name` to `value`, replacing the value of a name already bound.
    pub fn insert(&mut self, name: String, value: String)
        ensures
            final(self)@ == with_param(old(self)@, name@, value@),
            names_distinct(final(self)@),
    {
        proof {
            use_type_invariant(&*self);
            lemma_with_param(self@, name@, value@);
        }
        let ghost before = self@;
        let ghost n = name@;
        let ghost v = value@;
        let found = self.find(&name);
        let mut entries: Vec<(String, String)> = Vec::new();
        assert(pairs_view(entries@) =~= Seq::<(Seq<char>, Seq<char>)>::empty());
        core::mem::swap(&mut self.entries, &mut entries);
        assert(pairs_view(entries@) == before);
        match found {
            Some(i) => {
                entries.set(i, (name, value));
            },
            None => {
                entries.push((name, value));
            },
        }
        assert(pairs_view(entries@) =~= with_param(before, n, v));
        self.entries = entries;
    }

    /// A list of its own that holds these parameters with `name` bound to
    /// `value`. This list stays as it is.
    pub fn with(&self, name: String, value: String) -> (bound: QueryParams)
        ensures
            bound@ == with_param(self@, name@, value@),
            names_distinct(bound@),
    {
        proof {
            use_type_invariant(self);
        }
        let ghost all = pairs_view(self.entries@);
        let mut entries: Vec<(String, String)> = Vec::new();
        let mut i: usize = 0;
        while i < self.entries.len()
            invariant
                i <= self.entries.len(),
                all == pairs_view(self.entries@),
                entries@.len() == i,
                pairs_view(entries@) =~= all.take(i as int),
            decreases self.entries.len() - i,
        {
            let name_copy = self.entries[i].0.clone();
            let value_copy = self.entries[i].1.clone();
            let ghost before = entries@;
            entries.push((name_copy, value_copy));
            assert(entries@.len() == i + 1);
            assert(forall|k: int| 0 <= k < i ==> entries@[k] == before[k]);
            assert(pairs_view(entries@)[i as int] == all[i as int]);
            i += 1;
        }
        assert(pairs_view(entries@) =~= all);
        let mut bound = QueryParams { entries };
        bound.insert(name, value);
        bound
    }

    /// The pairs, in order.
    pub fn pairs(&self) -> (entries: &Vec<(String, String)>)
        ensures
            pairs_view(entries@) == self@,
            names_distinct(self@),
    {
        proof {
            use_type_invariant(self);
        }
        &self.entries
    }
}

} // verus!
