//! A sample record shape: how a user-defined composite type implements
//! `ToStruct` so that the generic composite marshaller can produce its
//! struct-typed value and descriptor.

use vstd::prelude::*;

use crate::digits::{i64_to_string, int_chars};
use crate::marshal::{kind_pairs_view, names_of, type_pairs_view, Kinds, ToStruct, Types};
use crate::types::{Type, TypeModel};
use crate::value::{Kind, KindModel};

verus! {

/// A record with an integer field `x` and a text field `y`.
pub struct XyRecord {
    pub x: i64,
    pub y: String,
}

impl ToStruct for XyRecord {
    open spec fn kinds_spec(&self) -> Seq<(Seq<char>, KindModel)> {
        seq![
            ("x"@, KindModel::StringValue(int_chars(self.x as int))),
            ("y"@, KindModel::StringValue(self.y@)),
        ]
    }

    open spec fn types_spec() -> Seq<(Seq<char>, TypeModel)> {
        seq![("x"@, TypeModel::Int64), ("y"@, TypeModel::Str)]
    }

    proof fn fields_consistent(&self) {
        reveal_strlit("x");
        reveal_strlit("y");
        assert(names_of(self.kinds_spec()) =~= seq!["x"@, "y"@]);
        assert(names_of(Self::types_spec()) =~= seq!["x"@, "y"@]);
        assert(("x")@ =~= seq!['x']);
        assert(("y")@ =~= seq!['y']);
        assert(("x")@[0] == 'x' && ("y")@[0] == 'y');
        assert(("x")@ != ("y")@);
    }

    fn to_kinds(&self) -> (r: Kinds) {
        let mut r: Kinds = Vec::new();
        r.push(("x", Kind::StringValue(i64_to_string(self.x))));
        r.push(("y", Kind::StringValue(self.y.clone())));
        proof {
            assert(kind_pairs_view(r@) =~= self.kinds_spec());
        }
        r
    }

    fn get_types() -> (r: Types) {
        let mut r: Types = Vec::new();
        r.push(("x", Type::Int64));
        r.push(("y", Type::Str));
        proof {
            assert(type_pairs_view(r@) =~= Self::types_spec());
        }
        r
    }
}

} // verus!
