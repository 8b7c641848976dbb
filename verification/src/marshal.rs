//! The value marshaller: one `ToKind` implementation per native shape
//! produces a dynamic wire value and the matching type descriptor, and a
//! `ToStruct` implementation lets a user-defined record marshal as a
//! composite value with a struct descriptor.

use vstd::prelude::*;
use vstd::string::StringExecFns;

use base64::Engine;

use crate::digits::{i64_to_string, int_chars};
use crate::native::{date_chars, datetime_chars, CommitTimestamp, Date, DateTime, Decimal, Float64};
use crate::types::{type_fields_view, type_view, Type, TypeModel};
use crate::value::{kind_fields_view, kind_view, kinds_view, Kind, KindModel};

verus! {

/// What the base64 encoder returns for a byte sequence.
pub uninterp spec fn base64_chars(bytes: Seq<u8>) -> Seq<char>;

/// What the decimal library renders for a sign, coefficient and scale.
pub uninterp spec fn decimal_chars(negative: bool, coefficient: u128, scale: u32) -> Seq<char>;

/// Relies on `base64::engine::general_purpose::STANDARD.encode`: the standard
/// alphabet with padding, so the output is a function of the input bytes
/// alone and consists of four characters per three-byte chunk, the last
/// chunk padded (the crate's `encoded_len` with padding).
#[verifier::external_body]
fn base64_encode(bytes: &[u8]) -> (r: String)
    ensures
        r@ == base64_chars(bytes@),
        r@.len() == 4 * ((bytes@.len() + 2) / 3),
{
    base64::engine::general_purpose::STANDARD.encode(bytes)
}

/// Relies on `rust_decimal`: `Decimal::from_i128_with_scale` builds the value
/// from sign, coefficient and scale (panicking only above 96 coefficient bits
/// or scale 28, which the preconditions exclude), and `to_string` renders its
/// canonical textual form, a function of those three parts alone.
#[verifier::external_body]
fn decimal_render(negative: bool, coefficient: u128, scale: u32) -> (r: String)
    requires
        coefficient < 0x1000000000000000000000000,
        scale <= 28,
    ensures
        r@ == decimal_chars(negative, coefficient, scale),
{
    let signed: i128 = if negative {
        -(coefficient as i128)
    } else {
        coefficient as i128
    };
    rust_decimal::Decimal::from_i128_with_scale(signed, scale).to_string()
}

/// A native shape that can marshal itself: `to_kind` produces the dynamic
/// value, `get_type` the type descriptor. The descriptor depends on the
/// shape alone, never on a particular value.
pub trait ToKind {
    /// The dynamic value this native value marshals to.
    spec fn kind_spec(&self) -> KindModel;

    /// The type descriptor of this native shape.
    spec fn type_spec() -> TypeModel;

    /// Marshals this value into a dynamic wire value.
    fn to_kind(&self) -> (k: Kind)
        ensures
            k@ == self.kind_spec(),
    ;

    /// The type descriptor for this shape; no value is consulted.
    fn get_type() -> (t: Type)
        ensures
            t@ == Self::type_spec(),
    ;
}

impl ToKind for String {
    open spec fn kind_spec(&self) -> KindModel {
        KindModel::StringValue(self@)
    }

    open spec fn type_spec() -> TypeModel {
        TypeModel::Str
    }

    fn to_kind(&self) -> (k: Kind) {
        Kind::StringValue(self.clone())
    }

    fn get_type() -> (t: Type) {
        Type::Str
    }
}

impl<'a> ToKind for &'a str {
    open spec fn kind_spec(&self) -> KindModel {
        KindModel::StringValue(self@)
    }

    open spec fn type_spec() -> TypeModel {
        TypeModel::Str
    }

    fn to_kind(&self) -> (k: Kind) {
        Kind::StringValue((*self).to_owned())
    }

    fn get_type() -> (t: Type) {
        Type::Str
    }
}

impl ToKind for i64 {
    open spec fn kind_spec(&self) -> KindModel {
        KindModel::StringValue(int_chars(*self as int))
    }

    open spec fn type_spec() -> TypeModel {
        TypeModel::Int64
    }

    fn to_kind(&self) -> (k: Kind) {
        Kind::StringValue(i64_to_string(*self))
    }

    fn get_type() -> (t: Type) {
        Type::Int64
    }
}

impl ToKind for Float64 {
    open spec fn kind_spec(&self) -> KindModel {
        KindModel::NumberValue(self.bits)
    }

    open spec fn type_spec() -> TypeModel {
        TypeModel::Float64
    }

    fn to_kind(&self) -> (k: Kind) {
        Kind::NumberValue(self.bits)
    }

    fn get_type() -> (t: Type) {
        Type::Float64
    }
}

impl ToKind for bool {
    open spec fn kind_spec(&self) -> KindModel {
        KindModel::BoolValue(*self)
    }

    open spec fn type_spec() -> TypeModel {
        TypeModel::Bool
    }

    fn to_kind(&self) -> (k: Kind) {
        Kind::BoolValue(*self)
    }

    fn get_type() -> (t: Type) {
        Type::Bool
    }
}

impl ToKind for Date {
    open spec fn kind_spec(&self) -> KindModel {
        KindModel::StringValue(date_chars(*self))
    }

    open spec fn type_spec() -> TypeModel {
        TypeModel::Date
    }

    fn to_kind(&self) -> (k: Kind) {
        Kind::StringValue(self.render())
    }

    fn get_type() -> (t: Type) {
        Type::Date
    }
}

impl ToKind for DateTime {
    open spec fn kind_spec(&self) -> KindModel {
        KindModel::StringValue(datetime_chars(*self))
    }

    open spec fn type_spec() -> TypeModel {
        TypeModel::Timestamp
    }

    fn to_kind(&self) -> (k: Kind) {
        Kind::StringValue(self.render())
    }

    fn get_type() -> (t: Type) {
        Type::Timestamp
    }
}

impl ToKind for CommitTimestamp {
    open spec fn kind_spec(&self) -> KindModel {
        KindModel::StringValue("spanner.commit_timestamp()"@)
    }

    open spec fn type_spec() -> TypeModel {
        TypeModel::Timestamp
    }

    fn to_kind(&self) -> (k: Kind) {
        Kind::StringValue("spanner.commit_timestamp()".to_owned())
    }

    fn get_type() -> (t: Type) {
        Type::Timestamp
    }
}

impl<'a> ToKind for &'a [u8] {
    open spec fn kind_spec(&self) -> KindModel {
        KindModel::StringValue(base64_chars(self@))
    }

    open spec fn type_spec() -> TypeModel {
        TypeModel::Bytes
    }

    fn to_kind(&self) -> (k: Kind) {
        Kind::StringValue(base64_encode(self))
    }

    fn get_type() -> (t: Type) {
        Type::Bytes
    }
}

impl ToKind for Decimal {
    open spec fn kind_spec(&self) -> KindModel {
        KindModel::StringValue(
            decimal_chars(self.negative_spec(), self.coefficient_spec(), self.scale_spec()),
        )
    }

    open spec fn type_spec() -> TypeModel {
        TypeModel::Numeric
    }

    fn to_kind(&self) -> (k: Kind) {
        Kind::StringValue(decimal_render(self.is_negative(), self.coefficient(), self.scale()))
    }

    fn get_type() -> (t: Type) {
        Type::Numeric
    }
}

impl<T: ToKind> ToKind for Option<T> {
    open spec fn kind_spec(&self) -> KindModel {
        match self {
            Option::Some(v) => v.kind_spec(),
            Option::None => KindModel::NullValue,
        }
    }

    open spec fn type_spec() -> TypeModel {
        T::type_spec()
    }

    fn to_kind(&self) -> (k: Kind) {
        match self {
            Option::Some(v) => v.to_kind(),
            Option::None => Kind::NullValue,
        }
    }

    fn get_type() -> (t: Type) {
        T::get_type()
    }
}

/// The elementwise marshalling of a sequence of native values.
pub open spec fn seq_kind_specs<T: ToKind>(s: Seq<T>) -> Seq<KindModel> {
    Seq::new(s.len(), |i: int| s[i].kind_spec())
}

impl<T: ToKind> ToKind for Vec<T> {
    open spec fn kind_spec(&self) -> KindModel {
        KindModel::ListValue(seq_kind_specs(self@))
    }

    open spec fn type_spec() -> TypeModel {
        TypeModel::Array(Box::new(T::type_spec()))
    }

    fn to_kind(&self) -> (k: Kind) {
        let mut out: Vec<Kind> = Vec::new();
        let n: usize = self.len();
        let mut i: usize = 0;
        while i < n
            invariant
                n == self@.len(),
                i <= n,
                out@.len() == i as int,
                forall|j: int| 0 <= j < i ==> kind_view(out@[j]) == self@[j].kind_spec(),
            decreases n - i,
        {
            let e = &self[i];
            out.push(e.to_kind());
            i += 1;
        }
        let k = Kind::ListValue(out);
        proof {
            assert(kinds_view(k.arrow_ListValue_0()@) =~= seq_kind_specs(self@));
        }
        k
    }

    fn get_type() -> (t: Type) {
        Type::Array(Box::new(T::get_type()))
    }
}

/// The field names of a sequence of named items.
pub open spec fn names_of<A>(s: Seq<(Seq<char>, A)>) -> Seq<Seq<char>> {
    s.map_values(|p: (Seq<char>, A)| p.0)
}

/// An enumeration of marshalled fields: (field name, dynamic value) pairs.
pub type Kinds = Vec<(&'static str, Kind)>;

/// An enumeration of declared fields: (field name, type descriptor) pairs.
pub type Types = Vec<(&'static str, Type)>;

/// The abstraction of an enumeration of marshalled fields.
pub open spec fn kind_pairs_view(s: Seq<(&'static str, Kind)>) -> Seq<(Seq<char>, KindModel)> {
    s.map_values(|p: (&'static str, Kind)| (p.0@, kind_view(p.1)))
}

/// The abstraction of an enumeration of declared fields.
pub open spec fn type_pairs_view(s: Seq<(&'static str, Type)>) -> Seq<(Seq<char>, TypeModel)> {
    s.map_values(|p: (&'static str, Type)| (p.0@, type_view(p.1)))
}

/// A composite (record) shape: it enumerates its marshalled field values,
/// and, independently of any value, its declared field shapes. Any type
/// implementing this marshals as a composite value with a struct descriptor.
pub trait ToStruct: Sized {
    /// The enumerated (field name, marshalled value) pairs.
    spec fn kinds_spec(&self) -> Seq<(Seq<char>, KindModel)>;

    /// The enumerated (field name, type descriptor) pairs.
    spec fn types_spec() -> Seq<(Seq<char>, TypeModel)>;

    /// The caller contract of the composite marshaller: the two enumerations
    /// agree in field names and order, for every value of the shape, and no
    /// field name repeats.
    proof fn fields_consistent(&self)
        ensures
            names_of(self.kinds_spec()) == names_of(Self::types_spec()),
            names_of(Self::types_spec()).no_duplicates(),
    ;

    /// Enumerates this value's fields, each already marshalled.
    fn to_kinds(&self) -> (r: Kinds)
        ensures
            kind_pairs_view(r@) == self.kinds_spec(),
    ;

    /// Enumerates the declared field shapes; no value is consulted.
    fn get_types() -> (r: Types)
        ensures
            type_pairs_view(r@) == Self::types_spec(),
    ;
}

impl<T: ToStruct> ToKind for T {
    open spec fn kind_spec(&self) -> KindModel {
        KindModel::StructValue(self.kinds_spec())
    }

    open spec fn type_spec() -> TypeModel {
        TypeModel::Struct(T::types_spec())
    }

    fn to_kind(&self) -> (k: Kind) {
        let mut pairs = self.to_kinds();
        let ghost all = pairs@;
        let mut fields: Vec<(String, Kind)> = Vec::new();
        while pairs.len() > 0
            invariant
                fields@.len() + pairs@.len() == all.len(),
                pairs@ == all.skip(fields@.len() as int),
                kind_fields_view(fields@) == kind_pairs_view(all.take(fields@.len() as int)),
            decreases pairs@.len(),
        {
            let ghost k: int = fields@.len() as int;
            let p = pairs.remove(0);
            let name: String = p.0.to_owned();
            fields.push((name, p.1));
            proof {
                assert(p == all.skip(k)[0]);
                assert(p == all[k]);
                assert(pairs@ =~= all.skip(k + 1));
                assert forall|j: int| 0 <= j < k + 1 implies kind_fields_view(fields@)[j]
                    == kind_pairs_view(all.take(k + 1))[j] by {
                    if j < k {
                        assert(kind_fields_view(fields@)[j] == kind_pairs_view(all.take(k))[j]);
                    }
                }
                assert(kind_fields_view(fields@) =~= kind_pairs_view(all.take(k + 1)));
            }
        }
        proof {
            assert(all.take(all.len() as int) =~= all);
        }
        Kind::StructValue(fields)
    }

    fn get_type() -> (t: Type) {
        let mut pairs = T::get_types();
        let ghost all = pairs@;
        let mut fields: Vec<(String, Type)> = Vec::new();
        while pairs.len() > 0
            invariant
                fields@.len() + pairs@.len() == all.len(),
                pairs@ == all.skip(fields@.len() as int),
                type_fields_view(fields@) == type_pairs_view(all.take(fields@.len() as int)),
            decreases pairs@.len(),
        {
            let ghost k: int = fields@.len() as int;
            let p = pairs.remove(0);
            let name: String = p.0.to_owned();
            fields.push((name, p.1));
            proof {
                assert(p == all.skip(k)[0]);
                assert(p == all[k]);
                assert(pairs@ =~= all.skip(k + 1));
                assert forall|j: int| 0 <= j < k + 1 implies type_fields_view(fields@)[j]
                    == type_pairs_view(all.take(k + 1))[j] by {
                    if j < k {
                        assert(type_fields_view(fields@)[j] == type_pairs_view(all.take(k))[j]);
                    }
                }
                assert(type_fields_view(fields@) =~= type_pairs_view(all.take(k + 1)));
            }
        }
        proof {
            assert(all.take(all.len() as int) =~= all);
        }
        Type::Struct(fields)
    }
}

/// Every scalar shape's type descriptor is a constant of the shape: the
/// descriptor never depends on the value marshalled.
pub proof fn lemma_scalar_type_descriptors()
    ensures
        <String as ToKind>::type_spec() == TypeModel::Str,
        <&'static str as ToKind>::type_spec() == TypeModel::Str,
        <i64 as ToKind>::type_spec() == TypeModel::Int64,
        <Float64 as ToKind>::type_spec() == TypeModel::Float64,
        <bool as ToKind>::type_spec() == TypeModel::Bool,
        <Date as ToKind>::type_spec() == TypeModel::Date,
        <DateTime as ToKind>::type_spec() == TypeModel::Timestamp,
        <CommitTimestamp as ToKind>::type_spec() == TypeModel::Timestamp,
        <&'static [u8] as ToKind>::type_spec() == TypeModel::Bytes,
        <Decimal as ToKind>::type_spec() == TypeModel::Numeric,
{
}

/// A nullable wrapper reports the inner shape's type descriptor whether or
/// not a value is present; an absent value marshals to null, and a present
/// one marshals exactly as the inner value does.
pub proof fn lemma_option_marshal<T: ToKind>(x: Option<T>)
    ensures
        <Option<T> as ToKind>::type_spec() == T::type_spec(),
        x is None ==> x.kind_spec() == KindModel::NullValue,
        x matches Some(v) ==> x.kind_spec() == v.kind_spec(),
{
}

/// A sequence marshals elementwise with order preserved: element `i` of the
/// produced list is the marshalling of input element `i`; an empty sequence
/// yields the empty list; and the array descriptor wraps the element shape's
/// descriptor, derivable from the shape alone.
pub proof fn lemma_sequence_marshal<T: ToKind>(v: Vec<T>)
    ensures
        <Vec<T> as ToKind>::type_spec() == TypeModel::Array(Box::new(T::type_spec())),
        v.kind_spec() == KindModel::ListValue(seq_kind_specs(v@)),
        seq_kind_specs(v@).len() == v@.len(),
        forall|i: int| 0 <= i < v@.len() ==> seq_kind_specs(v@)[i] == v@[i].kind_spec(),
        v@.len() == 0 ==> v.kind_spec() == KindModel::ListValue(Seq::empty()),
{
    if v@.len() == 0 {
        assert(seq_kind_specs(v@) =~= Seq::empty());
    }
}

/// Marshalling the same native value twice yields structurally equal trees:
/// every result of `to_kind` abstracts to `kind_spec`, a function of the
/// value alone, and every result of `get_type` abstracts to `type_spec`, a
/// function of the shape alone, so any two such results agree.
pub proof fn lemma_marshal_idempotent<T: ToKind>(x: &T, k1: Kind, k2: Kind, t1: Type, t2: Type)
    requires
        k1@ == x.kind_spec(),
        k2@ == x.kind_spec(),
        t1@ == <T as ToKind>::type_spec(),
        t2@ == <T as ToKind>::type_spec(),
    ensures
        k1@ == k2@,
        t1@ == t2@,
{
}

/// The field-name sequence of a composite shape's struct descriptor matches
/// the field-name sequence of its composite value, with no duplicates.
pub proof fn lemma_struct_fields_agree<T: ToStruct>(x: &T)
    ensures
        x.kind_spec() == KindModel::StructValue(x.kinds_spec()),
        <T as ToKind>::type_spec() == TypeModel::Struct(T::types_spec()),
        names_of(x.kinds_spec()) == names_of(T::types_spec()),
        names_of(x.kinds_spec()).no_duplicates(),
{
    x.fields_consistent();
}

} // verus!
