//! Type descriptors: the structural type tag that accompanies a dynamic wire
//! value, needed because the wire value model itself is untyped.

use vstd::prelude::*;

verus! {

broadcast use vstd::std_specs::vec::group_vec_axioms;

/// A type descriptor. A scalar descriptor names the semantic kind of the
/// value; `Array` wraps exactly one element descriptor; `Struct` wraps an
/// ordered sequence of (field name, descriptor) pairs.
#[derive(Debug, PartialEq, Eq)]
pub enum Type {
    Str,
    Int64,
    Float64,
    Bool,
    Date,
    Timestamp,
    Numeric,
    Bytes,
    Array(Box<Type>),
    Struct(Vec<(String, Type)>),
}

/// The mathematical shape of a `Type`.
pub enum TypeModel {
    Str,
    Int64,
    Float64,
    Bool,
    Date,
    Timestamp,
    Numeric,
    Bytes,
    Array(Box<TypeModel>),
    Struct(Seq<(Seq<char>, TypeModel)>),
}

/// The abstraction of a type descriptor.
pub open spec fn type_view(t: Type) -> TypeModel
    decreases t,
{
    match t {
        Type::Str => TypeModel::Str,
        Type::Int64 => TypeModel::Int64,
        Type::Float64 => TypeModel::Float64,
        Type::Bool => TypeModel::Bool,
        Type::Date => TypeModel::Date,
        Type::Timestamp => TypeModel::Timestamp,
        Type::Numeric => TypeModel::Numeric,
        Type::Bytes => TypeModel::Bytes,
        Type::Array(elem) => TypeModel::Array(Box::new(type_view(*elem))),
        Type::Struct(fs) => TypeModel::Struct(type_fields_view(fs@)),
    }
}

/// The elementwise abstraction of a sequence of named type descriptors.
pub open spec fn type_fields_view(s: Seq<(String, Type)>) -> Seq<(Seq<char>, TypeModel)>
    decreases s,
{
    Seq::new(
        s.len(),
        |i: int|
            if 0 <= i < s.len() {
                (s[i].0@, type_view(s[i].1))
            } else {
                (Seq::empty(), TypeModel::Str)
            },
    )
}

impl View for Type {
    type V = TypeModel;

    open spec fn view(&self) -> TypeModel {
        type_view(*self)
    }
}

} // verus!
