//! The dynamic wire value: a tagged union of null, string, number, boolean,
//! ordered list, and composite record (ordered field name / value pairs).

use vstd::prelude::*;

verus! {

broadcast use vstd::std_specs::vec::group_vec_axioms;

/// A dynamic wire value. The wire model has no integer, date, timestamp,
/// byte, or decimal kind, so those scalars are carried as strings and their
/// semantic type travels separately in a type descriptor.
///
/// `NumberValue` carries the IEEE 754 bit pattern of a 64-bit float; the
/// numeric payload itself is opaque to the marshalling logic.
#[derive(Debug, PartialEq, Eq)]
pub enum Kind {
    NullValue,
    StringValue(String),
    NumberValue(u64),
    BoolValue(bool),
    ListValue(Vec<Kind>),
    StructValue(Vec<(String, Kind)>),
}

/// The mathematical shape of a `Kind`: strings become character sequences,
/// vectors become sequences.
pub enum KindModel {
    NullValue,
    StringValue(Seq<char>),
    NumberValue(u64),
    BoolValue(bool),
    ListValue(Seq<KindModel>),
    StructValue(Seq<(Seq<char>, KindModel)>),
}

/// The abstraction of a dynamic value.
pub open spec fn kind_view(k: Kind) -> KindModel
    decreases k,
{
    match k {
        Kind::NullValue => KindModel::NullValue,
        Kind::StringValue(s) => KindModel::StringValue(s@),
        Kind::NumberValue(bits) => KindModel::NumberValue(bits),
        Kind::BoolValue(b) => KindModel::BoolValue(b),
        Kind::ListValue(vs) => KindModel::ListValue(kinds_view(vs@)),
        Kind::StructValue(fs) => KindModel::StructValue(kind_fields_view(fs@)),
    }
}

/// The elementwise abstraction of a sequence of dynamic values.
pub open spec fn kinds_view(s: Seq<Kind>) -> Seq<KindModel>
    decreases s,
{
    Seq::new(
        s.len(),
        |i: int|
            if 0 <= i < s.len() {
                kind_view(s[i])
            } else {
                KindModel::NullValue
            },
    )
}

/// The elementwise abstraction of a sequence of named dynamic values.
pub open spec fn kind_fields_view(s: Seq<(String, Kind)>) -> Seq<(Seq<char>, KindModel)>
    decreases s,
{
    Seq::new(
        s.len(),
        |i: int|
            if 0 <= i < s.len() {
                (s[i].0@, kind_view(s[i].1))
            } else {
                (Seq::empty(), KindModel::NullValue)
            },
    )
}

impl View for Kind {
    type V = KindModel;

    open spec fn view(&self) -> KindModel {
        kind_view(*self)
    }
}

} // verus!
