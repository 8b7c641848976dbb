//! A SQL statement with named parameters.
//!
//! A parameter placeholder consists of `@` followed by the parameter name.
//! The same name may appear more than once, and a bound name need not appear
//! in the text at all; binding a name again overwrites the earlier binding.

use vstd::prelude::*;

use crate::marshal::{names_of, ToKind};
use crate::types::{type_fields_view, Type, TypeModel};
use crate::value::{kind_fields_view, Kind, KindModel};

verus! {

broadcast use vstd::std_specs::vec::group_vec_axioms;

/// The map that a sequence of (name, item) pairs denotes, later pairs
/// overriding earlier ones.
pub open spec fn map_of_pairs<V>(s: Seq<(Seq<char>, V)>) -> Map<Seq<char>, V>
    decreases s.len(),
{
    if s.len() == 0 {
        Map::empty()
    } else {
        map_of_pairs(s.drop_last()).insert(s.last().0, s.last().1)
    }
}

/// Appending a pair inserts its binding into the denoted map.
proof fn lemma_map_of_pairs_push<V>(s: Seq<(Seq<char>, V)>, name: Seq<char>, v: V)
    ensures
        map_of_pairs(s.push((name, v))) == map_of_pairs(s).insert(name, v),
{
    assert(s.push((name, v)).drop_last() =~= s);
}

/// Overwriting the pair at `i` in place, keeping its name, inserts the new
/// binding into the denoted map, provided names do not repeat.
proof fn lemma_map_of_pairs_update<V>(s: Seq<(Seq<char>, V)>, i: int, v: V)
    requires
        0 <= i < s.len(),
        names_of(s).no_duplicates(),
    ensures
        map_of_pairs(s.update(i, (s[i].0, v))) == map_of_pairs(s).insert(s[i].0, v),
    decreases s.len(),
{
    let t = s.update(i, (s[i].0, v));
    if i == s.len() - 1 {
        assert(t.drop_last() =~= s.drop_last());
        assert(map_of_pairs(s.drop_last()).insert(s[i].0, s[i].1).insert(s[i].0, v)
            =~= map_of_pairs(s.drop_last()).insert(s[i].0, v));
    } else {
        assert(names_of(s.drop_last()) =~= names_of(s).drop_last());
        assert(names_of(s.drop_last()).no_duplicates());
        lemma_map_of_pairs_update(s.drop_last(), i, v);
        assert(t.drop_last() =~= s.drop_last().update(i, (s[i].0, v)));
        assert(t.last() == s.last());
        assert(names_of(s)[i] != names_of(s)[s.len() - 1]);
        assert(s[i].0 != s.last().0);
        assert(map_of_pairs(s.drop_last()).insert(s[i].0, v).insert(s.last().0, s.last().1)
            =~= map_of_pairs(s.drop_last()).insert(s.last().0, s.last().1).insert(s[i].0, v));
    }
}

/// A SQL text together with the dynamic values and type descriptors bound so
/// far, both keyed by parameter name and kept in lockstep.
pub struct Statement {
    pub sql: String,
    pub params: Vec<(String, Kind)>,
    pub param_types: Vec<(String, Type)>,
}

impl Statement {
    /// The stored (name, dynamic value) pairs, in binding order.
    pub open spec fn param_pairs(&self) -> Seq<(Seq<char>, KindModel)> {
        kind_fields_view(self.params@)
    }

    /// The stored (name, type descriptor) pairs, in binding order.
    pub open spec fn type_pairs(&self) -> Seq<(Seq<char>, TypeModel)> {
        type_fields_view(self.param_types@)
    }

    /// Well-formedness: every stored name occurs once, and the value and
    /// type entries carry exactly the same names in the same order.
    pub open spec fn wf(&self) -> bool {
        &&& names_of(self.param_pairs()).no_duplicates()
        &&& names_of(self.type_pairs()) == names_of(self.param_pairs())
    }

    /// The bound dynamic values, as a map from parameter name.
    pub open spec fn params_map(&self) -> Map<Seq<char>, KindModel> {
        map_of_pairs(self.param_pairs())
    }

    /// The bound type descriptors, as a map from parameter name.
    pub open spec fn param_types_map(&self) -> Map<Seq<char>, TypeModel> {
        map_of_pairs(self.type_pairs())
    }

    /// A statement with the given SQL text and no bindings. The text is not
    /// validated in any way.
    pub fn new(sql: String) -> (r: Statement)
        ensures
            r.sql@ == sql@,
            r.wf(),
            r.params@.len() == 0,
            r.param_types@.len() == 0,
            r.params_map() == Map::<Seq<char>, KindModel>::empty(),
            r.param_types_map() == Map::<Seq<char>, TypeModel>::empty(),
    {
        let r = Statement { sql, params: Vec::new(), param_types: Vec::new() };
        proof {
            assert(r.param_pairs() =~= Seq::empty());
            assert(r.type_pairs() =~= Seq::empty());
            assert(names_of(r.param_pairs()) =~= Seq::<Seq<char>>::empty());
            assert(names_of(r.type_pairs()) =~= Seq::<Seq<char>>::empty());
        }
        r
    }

    /// Binds `name` to `value`: stores the marshalled dynamic value and the
    /// shape's type descriptor under `name` in lockstep, overwriting any
    /// earlier binding of that name. Binding a name that the SQL text never
    /// mentions is accepted.
    pub fn add_param<T: ToKind>(&mut self, name: &str, value: T)
        requires
            old(self).wf(),
        ensures
            final(self).wf(),
            final(self).sql == old(self).sql,
            final(self).params_map() == old(self).params_map().insert(
                name@,
                value.kind_spec(),
            ),
            final(self).param_types_map() == old(self).param_types_map().insert(
                name@,
                <T as ToKind>::type_spec(),
            ),
            final(self).params@.len() == if names_of(old(self).param_pairs()).contains(name@) {
                old(self).params@.len() as int
            } else {
                (old(self).params@.len() + 1) as int
            },
            final(self).param_types@.len() == final(self).params@.len(),
    {
        let t = T::get_type();
        let k = value.to_kind();
        let key: String = name.to_owned();
        match find_name(&self.params, &key) {
            Option::Some(i) => {
                proof {
                    assert(names_of(old(self).type_pairs()) == names_of(old(self).param_pairs()));
                    assert(names_of(old(self).type_pairs()).len() == old(self).type_pairs().len());
                    assert(names_of(old(self).param_pairs()).len() == old(
                        self,
                    ).param_pairs().len());
                    assert(old(self).type_pairs().len() == old(self).param_types@.len());
                    assert(old(self).param_pairs().len() == old(self).params@.len());
                    assert(old(self).param_types@.len() == old(self).params@.len());
                    assert(names_of(old(self).param_pairs())[i as int] == name@);
                    assert(names_of(old(self).type_pairs())[i as int] == name@);
                    assert(names_of(old(self).param_pairs()).contains(name@));
                }
                let ghost old_pairs = self.param_pairs();
                let ghost old_types = self.type_pairs();
                self.params[i] = (key.clone(), k);
                self.param_types[i] = (key, t);
                proof {
                    assert(self.param_pairs() =~= old_pairs.update(
                        i as int,
                        (old_pairs[i as int].0, k@),
                    ));
                    assert(self.type_pairs() =~= old_types.update(
                        i as int,
                        (old_types[i as int].0, t@),
                    ));
                    lemma_map_of_pairs_update(old_pairs, i as int, k@);
                    lemma_map_of_pairs_update(old_types, i as int, t@);
                    assert(names_of(self.param_pairs()) =~= names_of(old_pairs));
                    assert(names_of(self.type_pairs()) =~= names_of(old_types));
                }
            },
            Option::None => {
                let ghost old_pairs = self.param_pairs();
                let ghost old_types = self.type_pairs();
                self.params.push((key.clone(), k));
                self.param_types.push((key, t));
                proof {
                    assert(self.param_pairs() =~= old_pairs.push((name@, k@)));
                    assert(self.type_pairs() =~= old_types.push((name@, t@)));
                    lemma_map_of_pairs_push(old_pairs, name@, k@);
                    lemma_map_of_pairs_push(old_types, name@, t@);
                    assert(names_of(self.param_pairs()) =~= names_of(old_pairs).push(name@));
                    assert(names_of(self.type_pairs()) =~= names_of(old_types).push(name@));
                    assert forall|a: int, b: int|
                        0 <= a < names_of(self.param_pairs()).len() && 0 <= b < names_of(
                            self.param_pairs(),
                        ).len() && a != b implies names_of(self.param_pairs())[a] != names_of(
                        self.param_pairs(),
                    )[b] by {
                        if a < old_pairs.len() && b < old_pairs.len() {
                            assert(names_of(old_pairs)[a] != names_of(old_pairs)[b]);
                        }
                    }
                }
            },
        }
    }
}

/// The index of the entry bound to `name`, if any.
fn find_name<X>(v: &Vec<(String, X)>, name: &String) -> (r: Option<usize>)
    ensures
        match r {
            Option::Some(i) => i < v@.len() && v@[i as int].0@ == name@,
            Option::None => forall|j: int| 0 <= j < v@.len() ==> v@[j].0@ != name@,
        },
{
    let mut i: usize = 0;
    while i < v.len()
        invariant
            i <= v@.len(),
            forall|j: int| 0 <= j < i ==> v@[j].0@ != name@,
        decreases v@.len() - i,
    {
        if v[i].0 == *name {
            return Some(i);
        }
        i += 1;
    }
    None
}

/// Rebinding a name keeps the later binding only: inserting twice under one
/// name denotes the same map as inserting the second value once.
pub proof fn lemma_rebind_last_wins<V>(m: Map<Seq<char>, V>, name: Seq<char>, v1: V, v2: V)
    ensures
        m.insert(name, v1).insert(name, v2) == m.insert(name, v2),
{
    assert(m.insert(name, v1).insert(name, v2) =~= m.insert(name, v2));
}

/// A well-formed statement holds at most one entry per parameter name.
pub proof fn lemma_one_entry_per_name(st: &Statement, i: int, j: int)
    requires
        st.wf(),
        0 <= i < st.params@.len(),
        0 <= j < st.params@.len(),
        st.params@[i].0@ == st.params@[j].0@,
    ensures
        i == j,
{
    assert(names_of(st.param_pairs())[i] == st.params@[i].0@);
    assert(names_of(st.param_pairs())[j] == st.params@[j].0@);
}

} // verus!
