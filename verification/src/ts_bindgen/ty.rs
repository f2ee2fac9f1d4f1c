//! The TypeScript type model: primitive types, literals, arrays, interfaces, unions and
//! intersections, enums, and the cleanup that merges nested unions and intersections.

use vstd::prelude::*;
use vstd::string::StringSliceAdditionalSpecFns;

use crate::util::digits::{ascii_string, ascii_text, digits, digits_bytes};
use crate::util::text::str_eq;

verus! {

/// Integer that'll be printed as a hexadecimal number in TypeScript.
///
/// This utility type ensures that values won't be sign-extended when converted
/// to TypeScript integers, even if negative signed integers are used. All values
/// are treated as unsigned integers for printing.
#[derive(Debug, Clone, Copy, PartialEq, Eq, Structural, PartialOrd, Ord, Hash)]
pub struct BinaryInteger(pub u128);

impl From<i8> for BinaryInteger {
    fn from(value: i8) -> (r: BinaryInteger) {
        BinaryInteger((value as u8) as u128)
    }
}

impl vstd::std_specs::convert::FromSpecImpl<i8> for BinaryInteger {
    open spec fn obeys_from_spec() -> bool {
        true
    }

    open spec fn from_spec(value: i8) -> BinaryInteger {
        BinaryInteger((value as u8) as u128)
    }
}

impl From<u8> for BinaryInteger {
    fn from(value: u8) -> (r: BinaryInteger) {
        BinaryInteger(value as u128)
    }
}

impl vstd::std_specs::convert::FromSpecImpl<u8> for BinaryInteger {
    open spec fn obeys_from_spec() -> bool {
        true
    }

    open spec fn from_spec(value: u8) -> BinaryInteger {
        BinaryInteger(value as u128)
    }
}

impl From<i16> for BinaryInteger {
    fn from(value: i16) -> (r: BinaryInteger) {
        BinaryInteger((value as u16) as u128)
    }
}

impl vstd::std_specs::convert::FromSpecImpl<i16> for BinaryInteger {
    open spec fn obeys_from_spec() -> bool {
        true
    }

    open spec fn from_spec(value: i16) -> BinaryInteger {
        BinaryInteger((value as u16) as u128)
    }
}

impl From<u16> for BinaryInteger {
    fn from(value: u16) -> (r: BinaryInteger) {
        BinaryInteger(value as u128)
    }
}

impl vstd::std_specs::convert::FromSpecImpl<u16> for BinaryInteger {
    open spec fn obeys_from_spec() -> bool {
        true
    }

    open spec fn from_spec(value: u16) -> BinaryInteger {
        BinaryInteger(value as u128)
    }
}

impl From<i32> for BinaryInteger {
    fn from(value: i32) -> (r: BinaryInteger) {
        BinaryInteger((value as u32) as u128)
    }
}

impl vstd::std_specs::convert::FromSpecImpl<i32> for BinaryInteger {
    open spec fn obeys_from_spec() -> bool {
        true
    }

    open spec fn from_spec(value: i32) -> BinaryInteger {
        BinaryInteger((value as u32) as u128)
    }
}

impl From<u32> for BinaryInteger {
    fn from(value: u32) -> (r: BinaryInteger) {
        BinaryInteger(value as u128)
    }
}

impl vstd::std_specs::convert::FromSpecImpl<u32> for BinaryInteger {
    open spec fn obeys_from_spec() -> bool {
        true
    }

    open spec fn from_spec(value: u32) -> BinaryInteger {
        BinaryInteger(value as u128)
    }
}

impl From<i64> for BinaryInteger {
    fn from(value: i64) -> (r: BinaryInteger) {
        BinaryInteger((value as u64) as u128)
    }
}

impl vstd::std_specs::convert::FromSpecImpl<i64> for BinaryInteger {
    open spec fn obeys_from_spec() -> bool {
        true
    }

    open spec fn from_spec(value: i64) -> BinaryInteger {
        BinaryInteger((value as u64) as u128)
    }
}

impl From<u64> for BinaryInteger {
    fn from(value: u64) -> (r: BinaryInteger) {
        BinaryInteger(value as u128)
    }
}

impl vstd::std_specs::convert::FromSpecImpl<u64> for BinaryInteger {
    open spec fn obeys_from_spec() -> bool {
        true
    }

    open spec fn from_spec(value: u64) -> BinaryInteger {
        BinaryInteger(value as u128)
    }
}

impl From<i128> for BinaryInteger {
    fn from(value: i128) -> (r: BinaryInteger) {
        BinaryInteger((value as u128) as u128)
    }
}

impl vstd::std_specs::convert::FromSpecImpl<i128> for BinaryInteger {
    open spec fn obeys_from_spec() -> bool {
        true
    }

    open spec fn from_spec(value: i128) -> BinaryInteger {
        BinaryInteger((value as u128) as u128)
    }
}

impl From<u128> for BinaryInteger {
    fn from(value: u128) -> (r: BinaryInteger) {
        BinaryInteger(value as u128)
    }
}

impl vstd::std_specs::convert::FromSpecImpl<u128> for BinaryInteger {
    open spec fn obeys_from_spec() -> bool {
        true
    }

    open spec fn from_spec(value: u128) -> BinaryInteger {
        BinaryInteger(value as u128)
    }
}

/// JavaScript can't represent integers larger than or equal to 2^53 - 1,
/// so we need to represent them as strings.
pub const MAX_SAFE_NUMBER: u64 = 9007199254740991u64;

/// Value of an enum member: a number, a number printed in hexadecimal, or a string.
#[derive(Debug, Clone, Copy, PartialEq, Eq, PartialOrd, Ord, Hash)]
pub enum Discriminator {
    Simple(i64),
    BinaryHex(BinaryInteger),
    String(&'static str),
}

/// What a discriminator stands for: a number, a hexadecimal number, or the characters of a
/// string.
pub enum DiscriminatorModel {
    Simple(i64),
    BinaryHex(u128),
    Text(Seq<char>),
}

impl View for Discriminator {
    type V = DiscriminatorModel;

    open spec fn view(&self) -> DiscriminatorModel {
        match *self {
            Discriminator::Simple(i) => DiscriminatorModel::Simple(i),
            Discriminator::BinaryHex(b) => DiscriminatorModel::BinaryHex(b.0),
            Discriminator::String(s) => DiscriminatorModel::Text(s@),
        }
    }
}

/// A TypeScript type.
#[derive(Debug)]
pub enum TypeScriptType {
    Null,
    Undefined,
    /// A number, or a number literal held by the bits of its IEEE-754 `f64` encoding.
    Number(Option<u64>),
    String(Option<String>),
    Boolean(Option<bool>),
    Array(Box<TypeScriptType>, Option<usize>),
    /// Array or Tuple literal
    ArrayLiteral(Vec<TypeScriptType>),
    Interface { members: Vec<(String, TypeScriptType, String)>, extends: Vec<TypeScriptType> },
    Union(Vec<TypeScriptType>),
    Intersection(Vec<TypeScriptType>),
    Enum(Vec<(String, Option<Discriminator>, String)>),
    Tuple(Vec<(TypeScriptType, String)>),
    Partial(Box<TypeScriptType>),
    ReadOnly(Box<TypeScriptType>),
    /// [key: K]: T
    Record(Box<TypeScriptType>, Box<TypeScriptType>),
    /// `export const enum`
    ConstEnum(Vec<(String, Option<Discriminator>, String)>),
    /// Field of an enum: ty.value
    EnumValue(&'static str, &'static str),
    /// Type that's been registered with the type registry under the given name.
    Named(&'static str),
    ApiDecl {
        // vec of EnumValue entries
        command_flags: Vec<TypeScriptType>,
        name: String,
        method: String,
        form_type: Box<TypeScriptType>,
        return_type: Box<TypeScriptType>,
        body_type: Option<Box<TypeScriptType>>,
        // if the path contains `${`, it'll be treated as a template string
        path: &'static str,
    },
}

/// What a TypeScript type stands for, with strings as their characters and vectors as
/// sequences.
#[verifier::ext_equal]
pub enum TsModel {
    Null,
    Undefined,
    Number(Option<u64>),
    Text(Option<Seq<char>>),
    Boolean(Option<bool>),
    Array(Box<TsModel>, Option<usize>),
    ArrayLiteral(Seq<TsModel>),
    Interface(Seq<(Seq<char>, TsModel, Seq<char>)>, Seq<TsModel>),
    Union(Seq<TsModel>),
    Intersection(Seq<TsModel>),
    Enum(Seq<(Seq<char>, Option<DiscriminatorModel>, Seq<char>)>),
    Tuple(Seq<(TsModel, Seq<char>)>),
    Partial(Box<TsModel>),
    ReadOnly(Box<TsModel>),
    Record(Box<TsModel>, Box<TsModel>),
    ConstEnum(Seq<(Seq<char>, Option<DiscriminatorModel>, Seq<char>)>),
    EnumValue(Seq<char>, Seq<char>),
    Named(Seq<char>),
    ApiDecl(Seq<TsModel>, Seq<char>, Seq<char>, Box<TsModel>, Box<TsModel>, Option<Box<TsModel>>, Seq<char>),
}

/// The entries of an enum, with their strings as characters.
pub open spec fn enum_entries_view(v: Vec<(String, Option<Discriminator>, String)>) -> Seq<
    (Seq<char>, Option<DiscriminatorModel>, Seq<char>),
> {
    Seq::new(
        v.len() as nat,
        |i: int|
            (
                v@[i].0@,
                match v@[i].1 {
                    Some(d) => Some(d@),
                    None => None,
                },
                v@[i].2@,
            ),
    )
}

/// The model of a type.
pub open spec fn ts_view(t: TypeScriptType) -> TsModel
    decreases t,
{
    match t {
        TypeScriptType::Null => TsModel::Null,
        TypeScriptType::Undefined => TsModel::Undefined,
        TypeScriptType::Number(n) => TsModel::Number(n),
        TypeScriptType::String(s) => TsModel::Text(
            match s {
                Some(v) => Some(v@),
                None => None,
            },
        ),
        TypeScriptType::Boolean(b) => TsModel::Boolean(b),
        TypeScriptType::Array(b, n) => TsModel::Array(Box::new(ts_view(*b)), n),
        TypeScriptType::ArrayLiteral(v) => TsModel::ArrayLiteral(
            Seq::new(v.len() as nat, |i: int| if 0 <= i < v.len() { ts_view(v@[i]) } else { TsModel::Null }),
        ),
        TypeScriptType::Interface { members, extends } => TsModel::Interface(
            Seq::new(
                members.len() as nat,
                |i: int|
                    if 0 <= i < members.len() {
                        (members@[i].0@, ts_view(members@[i].1), members@[i].2@)
                    } else {
                        (Seq::empty(), TsModel::Null, Seq::empty())
                    },
            ),
            Seq::new(
                extends.len() as nat,
                |i: int| if 0 <= i < extends.len() { ts_view(extends@[i]) } else { TsModel::Null },
            ),
        ),
        TypeScriptType::Union(v) => TsModel::Union(
            Seq::new(v.len() as nat, |i: int| if 0 <= i < v.len() { ts_view(v@[i]) } else { TsModel::Null }),
        ),
        TypeScriptType::Intersection(v) => TsModel::Intersection(
            Seq::new(v.len() as nat, |i: int| if 0 <= i < v.len() { ts_view(v@[i]) } else { TsModel::Null }),
        ),
        TypeScriptType::Enum(v) => TsModel::Enum(enum_entries_view(v)),
        TypeScriptType::Tuple(v) => TsModel::Tuple(
            Seq::new(
                v.len() as nat,
                |i: int| if 0 <= i < v.len() { (ts_view(v@[i].0), v@[i].1@) } else { (TsModel::Null, Seq::empty()) },
            ),
        ),
        TypeScriptType::Partial(b) => TsModel::Partial(Box::new(ts_view(*b))),
        TypeScriptType::ReadOnly(b) => TsModel::ReadOnly(Box::new(ts_view(*b))),
        TypeScriptType::Record(k, v) => TsModel::Record(Box::new(ts_view(*k)), Box::new(ts_view(*v))),
        TypeScriptType::ConstEnum(v) => TsModel::ConstEnum(enum_entries_view(v)),
        TypeScriptType::EnumValue(a, b) => TsModel::EnumValue(a@, b@),
        TypeScriptType::Named(n) => TsModel::Named(n@),
        TypeScriptType::ApiDecl { command_flags, name, method, form_type, return_type, body_type, path } => {
            TsModel::ApiDecl(
                Seq::new(
                    command_flags.len() as nat,
                    |i: int| if 0 <= i < command_flags.len() { ts_view(command_flags@[i]) } else { TsModel::Null },
                ),
                name@,
                method@,
                Box::new(ts_view(*form_type)),
                Box::new(ts_view(*return_type)),
                match body_type {
                    Some(b) => Some(Box::new(ts_view(*b))),
                    None => None,
                },
                path@,
            )
        },
    }
}

impl View for TypeScriptType {
    type V = TsModel;

    open spec fn view(&self) -> TsModel {
        ts_view(*self)
    }
}


/// The models of a sequence of types.
pub open spec fn ts_views(s: Seq<TypeScriptType>) -> Seq<TsModel> {
    Seq::new(s.len(), |i: int| ts_view(s[i]))
}

/// The model of a union or an intersection is that of its members.
pub(crate) proof fn lemma_view_members(t: TypeScriptType)
    ensures
        t matches TypeScriptType::Union(v) ==> t@ == TsModel::Union(ts_views(v@)),
        t matches TypeScriptType::Intersection(v) ==> t@ == TsModel::Intersection(ts_views(v@)),
        t matches TypeScriptType::ArrayLiteral(v) ==> t@ == TsModel::ArrayLiteral(ts_views(v@)),
{
    match t {
        TypeScriptType::Union(v) => {
            assert(t@->Union_0 =~= ts_views(v@));
        },
        TypeScriptType::Intersection(v) => {
            assert(t@->Intersection_0 =~= ts_views(v@));
        },
        TypeScriptType::ArrayLiteral(v) => {
            assert(t@->ArrayLiteral_0 =~= ts_views(v@));
        },
        _ => {},
    }
}

/// Whether the type is `null`, `undefined`, or a number, string or boolean type or literal.
pub open spec fn model_is_primitive(m: TsModel) -> bool {
    m is Null || m is Undefined || m is Number || m is Text || m is Boolean
}

/// Whether the type can key a record: a string, number or boolean type or literal.
pub open spec fn model_is_key_type(m: TsModel) -> bool {
    m is Text || m is Number || m is Boolean
}

/// Whether the type is a literal: a number, string or boolean literal, an enum value, an
/// array literal, or a read-only literal.
pub open spec fn model_is_literal(m: TsModel) -> bool
    decreases m,
{
    match m {
        TsModel::Number(Some(_)) | TsModel::Text(Some(_)) | TsModel::Boolean(Some(_)) | TsModel::EnumValue(_, _)
        | TsModel::ArrayLiteral(_) => true,
        TsModel::ReadOnly(t) => model_is_literal(*t),
        _ => false,
    }
}

/// Whether the type is a value: a literal, an enum, or an API declaration.
pub open spec fn model_is_value(m: TsModel) -> bool {
    model_is_literal(m) || m is ConstEnum || m is Enum || m is ApiDecl
}

/// Whether the type is a union with `undefined` among its members.
pub open spec fn model_is_optional(m: TsModel) -> bool {
    match m {
        TsModel::Union(ts) => exists|i: int| 0 <= i < ts.len() && ts[i] is Undefined,
        _ => false,
    }
}

/// Whether the type is a union with `null` among its members.
pub open spec fn model_is_nullable(m: TsModel) -> bool {
    match m {
        TsModel::Union(ts) => exists|i: int| 0 <= i < ts.len() && ts[i] is Null,
        _ => false,
    }
}

/// The union of two types: the members of unions are joined, in order.
pub open spec fn model_union(a: TsModel, b: TsModel) -> TsModel {
    match (a, b) {
        (TsModel::Union(x), TsModel::Union(y)) => TsModel::Union(x + y),
        (TsModel::Union(x), o) => TsModel::Union(x.push(o)),
        (o, TsModel::Union(y)) => TsModel::Union(seq![o] + y),
        (p, q) => TsModel::Union(seq![p, q]),
    }
}

/// The intersection of two types: the members of intersections are joined, in order.
pub open spec fn model_intersection(a: TsModel, b: TsModel) -> TsModel {
    match (a, b) {
        (TsModel::Intersection(x), TsModel::Intersection(y)) => TsModel::Intersection(x + y),
        (TsModel::Intersection(x), o) => TsModel::Intersection(x.push(o)),
        (o, TsModel::Intersection(y)) => TsModel::Intersection(seq![o] + y),
        (p, q) => TsModel::Intersection(seq![p, q]),
    }
}

/// The type, or its union with `null` when it is not nullable already.
pub open spec fn model_into_nullable(m: TsModel) -> TsModel {
    if model_is_nullable(m) {
        m
    } else {
        model_union(m, TsModel::Null)
    }
}

/// The type, or its union with `undefined` when it is not optional already.
pub open spec fn model_into_optional(m: TsModel) -> TsModel {
    if model_is_optional(m) {
        m
    } else {
        model_union(m, TsModel::Undefined)
    }
}

/// The type of an optional field: the last member of a union that stands for an `Option` is
/// replaced by `undefined`; any other type is made optional.
pub open spec fn model_into_optional_internal(m: TsModel, is_option: bool) -> TsModel {
    match m {
        TsModel::Union(ts) => if is_option {
            TsModel::Union(
                (if ts.len() > 0 {
                    ts.drop_last()
                } else {
                    ts
                }).push(TsModel::Undefined),
            )
        } else {
            model_into_optional(m)
        },
        _ => model_into_optional(m),
    }
}

impl TypeScriptType {
    pub fn is_primitive(&self) -> (r: bool)
        ensures
            r == model_is_primitive(self@),
    {
        matches!(
            self,
            TypeScriptType::Null | TypeScriptType::Undefined | TypeScriptType::Number(_) | TypeScriptType::String(_)
                | TypeScriptType::Boolean(_)
        )
    }

    pub fn is_key_type(&self) -> (r: bool)
        ensures
            r == model_is_key_type(self@),
    {
        matches!(self, TypeScriptType::String(_) | TypeScriptType::Number(_) | TypeScriptType::Boolean(_))
    }

    pub fn is_literal(&self) -> (r: bool)
        ensures
            r == model_is_literal(self@),
        decreases self,
    {
        match self {
            TypeScriptType::Number(Some(_)) | TypeScriptType::String(Some(_)) | TypeScriptType::Boolean(Some(_))
            | TypeScriptType::EnumValue(_, _) | TypeScriptType::ArrayLiteral(_) => true,
            TypeScriptType::ReadOnly(ty) => ty.is_literal(),
            _ => false,
        }
    }

    pub fn is_value(&self) -> (r: bool)
        ensures
            r == model_is_value(self@),
    {
        if self.is_literal() {
            return true;
        }
        matches!(self, TypeScriptType::ConstEnum(_) | TypeScriptType::Enum(_) | TypeScriptType::ApiDecl { .. })
    }

    pub fn is_optional(&self) -> (r: bool)
        ensures
            r == model_is_optional(self@),
    {
        proof {
            lemma_view_members(*self);
        }
        match self {
            TypeScriptType::Union(types) => {
                let r = any_undefined(types);
                proof {
                    if r {
                        let j = choose|j: int| 0 <= j < types@.len() && ts_view(types@[j]) is Undefined;
                        assert(ts_views(types@)[j] is Undefined);
                    }
                }
                r
            },
            _ => false,
        }
    }

    pub fn is_nullable(&self) -> (r: bool)
        ensures
            r == model_is_nullable(self@),
    {
        proof {
            lemma_view_members(*self);
        }
        match self {
            TypeScriptType::Union(types) => {
                let mut i: usize = 0;
                while i < types.len()
                    invariant
                        i <= types@.len(),
                        self@ == TsModel::Union(ts_views(types@)),
                        forall|j: int| 0 <= j < i ==> !(ts_view(#[trigger] types@[j]) is Null),
                    decreases types@.len() - i,
                {
                    if types[i].is_null() {
                        assert(ts_views(types@)[i as int] is Null);
                        return true;
                    }
                    i += 1;
                }
                false
            },
            _ => false,
        }
    }

    pub fn is_null(&self) -> (r: bool)
        ensures
            r == (self@ is Null),
    {
        matches!(self, TypeScriptType::Null)
    }

    pub fn is_undefined(&self) -> (r: bool)
        ensures
            r == (self@ is Undefined),
    {
        matches!(self, TypeScriptType::Undefined)
    }

    fn boxed(self) -> (r: Box<TypeScriptType>)
        ensures
            *r == self,
    {
        Box::new(self)
    }

    pub fn interface(members: Vec<(String, TypeScriptType, String)>, extend_hint: usize) -> (r: TypeScriptType)
        ensures
            r == (TypeScriptType::Interface { members, extends: r->extends }),
            r->extends@.len() == 0,
    {
        TypeScriptType::Interface { members, extends: Vec::with_capacity(extend_hint) }
    }

    pub fn undefined() -> (r: TypeScriptType)
        ensures
            r@ == TsModel::Undefined,
    {
        TypeScriptType::Undefined
    }

    pub fn null() -> (r: TypeScriptType)
        ensures
            r@ == TsModel::Null,
    {
        TypeScriptType::Null
    }

    pub fn boolean() -> (r: TypeScriptType)
        ensures
            r@ == TsModel::Boolean(None),
    {
        TypeScriptType::Boolean(None)
    }

    pub fn boolean_value(value: bool) -> (r: TypeScriptType)
        ensures
            r@ == TsModel::Boolean(Some(value)),
    {
        TypeScriptType::Boolean(Some(value))
    }

    pub fn number() -> (r: TypeScriptType)
        ensures
            r@ == TsModel::Number(None),
    {
        TypeScriptType::Number(None)
    }

    /// The number literal whose `f64` encoding has the given bits.
    pub fn number_value(bits: u64) -> (r: TypeScriptType)
        ensures
            r@ == TsModel::Number(Some(bits)),
    {
        TypeScriptType::Number(Some(bits))
    }

    pub fn string() -> (r: TypeScriptType)
        ensures
            r@ == TsModel::Text(None),
    {
        TypeScriptType::String(None)
    }

    pub fn string_value(value: String) -> (r: TypeScriptType)
        ensures
            r@ == TsModel::Text(Some(value@)),
    {
        TypeScriptType::String(Some(value))
    }

    pub fn into_array(self) -> (r: TypeScriptType)
        ensures
            r@ == TsModel::Array(Box::new(self@), None),
    {
        TypeScriptType::Array(self.boxed(), None)
    }

    pub fn into_sized_array(self, size: usize) -> (r: TypeScriptType)
        ensures
            r@ == TsModel::Array(Box::new(self@), Some(size)),
    {
        TypeScriptType::Array(self.boxed(), Some(size))
    }

    pub fn union(self, other: TypeScriptType) -> (r: TypeScriptType)
        ensures
            r@ == model_union(self@, other@),
    {
        proof {
            lemma_view_members(self);
            lemma_view_members(other);
        }
        let ghost a = self;
        let ghost b = other;
        match (self, other) {
            (TypeScriptType::Union(mut types), TypeScriptType::Union(mut other_types)) => {
                let ghost x = types@;
                let ghost y = other_types@;
                types.append(&mut other_types);
                let r = TypeScriptType::Union(types);
                proof {
                    lemma_view_members(r);
                    assert(ts_views(x + y) =~= ts_views(x) + ts_views(y));
                }
                r
            },
            (TypeScriptType::Union(mut types), other) => {
                let ghost x = types@;
                types.push(other);
                let r = TypeScriptType::Union(types);
                proof {
                    lemma_view_members(r);
                    assert(ts_views(x.push(other)) =~= ts_views(x).push(other@));
                }
                r
            },
            (a, TypeScriptType::Union(mut types)) => {
                let ghost y = types@;
                types.insert(0, a);
                let r = TypeScriptType::Union(types);
                proof {
                    lemma_view_members(r);
                    assert(ts_views(y.insert(0, a)) =~= seq![a@] + ts_views(y));
                }
                r
            },
            (a, other) => {
                let r = TypeScriptType::Union(vec![a, other]);
                proof {
                    lemma_view_members(r);
                    assert(ts_views(seq![a, other]) =~= seq![a@, other@]);
                }
                r
            },
        }
    }

    pub fn intersection(self, other: TypeScriptType) -> (r: TypeScriptType)
        ensures
            r@ == model_intersection(self@, other@),
    {
        proof {
            lemma_view_members(self);
            lemma_view_members(other);
        }
        match (self, other) {
            (TypeScriptType::Intersection(mut types), TypeScriptType::Intersection(mut other_types)) => {
                let ghost x = types@;
                let ghost y = other_types@;
                types.append(&mut other_types);
                let r = TypeScriptType::Intersection(types);
                proof {
                    lemma_view_members(r);
                    assert(ts_views(x + y) =~= ts_views(x) + ts_views(y));
                }
                r
            },
            (TypeScriptType::Intersection(mut types), other) => {
                let ghost x = types@;
                types.push(other);
                let r = TypeScriptType::Intersection(types);
                proof {
                    lemma_view_members(r);
                    assert(ts_views(x.push(other)) =~= ts_views(x).push(other@));
                }
                r
            },
            (a, TypeScriptType::Intersection(mut types)) => {
                let ghost y = types@;
                types.insert(0, a);
                let r = TypeScriptType::Intersection(types);
                proof {
                    lemma_view_members(r);
                    assert(ts_views(y.insert(0, a)) =~= seq![a@] + ts_views(y));
                }
                r
            },
            (a, other) => {
                let r = TypeScriptType::Intersection(vec![a, other]);
                proof {
                    lemma_view_members(r);
                    assert(ts_views(seq![a, other]) =~= seq![a@, other@]);
                }
                r
            },
        }
    }

    pub fn into_nullable(self) -> (r: TypeScriptType)
        ensures
            r@ == model_into_nullable(self@),
    {
        if self.is_nullable() {
            return self;
        }
        self.union(TypeScriptType::Null)
    }

    pub fn into_optional(self) -> (r: TypeScriptType)
        ensures
            r@ == model_into_optional(self@),
    {
        if self.is_optional() {
            return self;
        }
        self.union(TypeScriptType::Undefined)
    }

    /// The type of a field: for a field of type `Option`, whose type is a union ending in
    /// `null`, that last member becomes `undefined`; any other type is made optional.
    pub fn _into_optional_internal(self, is_option: bool) -> (r: TypeScriptType)
        ensures
            r@ == model_into_optional_internal(self@, is_option),
    {
        proof {
            lemma_view_members(self);
        }
        match (self, is_option) {
            (TypeScriptType::Union(mut types), true) => {
                let ghost x = types@;
                types.pop();
                types.push(TypeScriptType::Undefined);
                let r = TypeScriptType::Union(types);
                proof {
                    lemma_view_members(r);
                    let kept = if x.len() > 0 {
                        x.drop_last()
                    } else {
                        x
                    };
                    assert(ts_views(kept.push(TypeScriptType::Undefined)) =~= (if ts_views(x).len() > 0 {
                        ts_views(x).drop_last()
                    } else {
                        ts_views(x)
                    }).push(TsModel::Undefined));
                }
                r
            },
            (a, _) => a.into_optional(),
        }
    }
}

/// Whether any of the types is `undefined`.
fn any_undefined(types: &Vec<TypeScriptType>) -> (r: bool)
    ensures
        r == exists|j: int| 0 <= j < types@.len() && ts_view(types@[j]) is Undefined,
{
    let mut i: usize = 0;
    while i < types.len()
        invariant
            i <= types@.len(),
            forall|j: int| 0 <= j < i ==> !(ts_view(#[trigger] types@[j]) is Undefined),
        decreases types@.len() - i,
    {
        if types[i].is_undefined() {
            return true;
        }
        i += 1;
    }
    false
}

/// Whether the bits encode a NaN: every exponent bit set, and a mantissa that is not zero.
pub open spec fn f64_bits_is_nan(x: u64) -> bool {
    x & 0x7ff0_0000_0000_0000u64 == 0x7ff0_0000_0000_0000u64 && x & 0x000f_ffff_ffff_ffffu64 != 0
}

/// Whether two `f64` values, given by their bits, compare equal: neither is NaN, and the bits
/// are the same or both values are zero, whatever their signs.
pub open spec fn f64_bits_eq(a: u64, b: u64) -> bool {
    !f64_bits_is_nan(a) && !f64_bits_is_nan(b) && (a == b || (a | b) & 0x7fff_ffff_ffff_ffffu64 == 0)
}

/// Whether two optional number literals compare equal.
pub open spec fn opt_f64_bits_eq(a: Option<u64>, b: Option<u64>) -> bool {
    match (a, b) {
        (None, None) => true,
        (Some(x), Some(y)) => f64_bits_eq(x, y),
        _ => false,
    }
}

/// Whether two types compare equal: the same variant with equal parts, where number literals
/// compare as `f64` values do.
pub open spec fn model_eq(a: TsModel, b: TsModel) -> bool
    decreases a,
{
    match (a, b) {
        (TsModel::Null, TsModel::Null) => true,
        (TsModel::Undefined, TsModel::Undefined) => true,
        (TsModel::Number(x), TsModel::Number(y)) => opt_f64_bits_eq(x, y),
        (TsModel::Text(x), TsModel::Text(y)) => x == y,
        (TsModel::Boolean(x), TsModel::Boolean(y)) => x == y,
        (TsModel::Array(x, n), TsModel::Array(y, m)) => model_eq(*x, *y) && n == m,
        (TsModel::ArrayLiteral(x), TsModel::ArrayLiteral(y)) => x.len() == y.len() && forall|i: int|
            0 <= i < x.len() ==> model_eq(#[trigger] x[i], y[i]),
        (TsModel::Interface(xm, xe), TsModel::Interface(ym, ye)) => {
            &&& xm.len() == ym.len()
            &&& forall|i: int|
                0 <= i < xm.len() ==> (#[trigger] xm[i]).0 == ym[i].0 && model_eq(xm[i].1, ym[i].1) && xm[i].2
                    == ym[i].2
            &&& xe.len() == ye.len()
            &&& forall|i: int| 0 <= i < xe.len() ==> model_eq(#[trigger] xe[i], ye[i])
        },
        (TsModel::Union(x), TsModel::Union(y)) => x.len() == y.len() && forall|i: int|
            0 <= i < x.len() ==> model_eq(#[trigger] x[i], y[i]),
        (TsModel::Intersection(x), TsModel::Intersection(y)) => x.len() == y.len() && forall|i: int|
            0 <= i < x.len() ==> model_eq(#[trigger] x[i], y[i]),
        (TsModel::Enum(x), TsModel::Enum(y)) => x == y,
        (TsModel::Tuple(x), TsModel::Tuple(y)) => x.len() == y.len() && forall|i: int|
            0 <= i < x.len() ==> model_eq((#[trigger] x[i]).0, y[i].0) && x[i].1 == y[i].1,
        (TsModel::Partial(x), TsModel::Partial(y)) => model_eq(*x, *y),
        (TsModel::ReadOnly(x), TsModel::ReadOnly(y)) => model_eq(*x, *y),
        (TsModel::Record(k1, v1), TsModel::Record(k2, v2)) => model_eq(*k1, *k2) && model_eq(*v1, *v2),
        (TsModel::ConstEnum(x), TsModel::ConstEnum(y)) => x == y,
        (TsModel::EnumValue(a1, b1), TsModel::EnumValue(a2, b2)) => a1 == a2 && b1 == b2,
        (TsModel::Named(x), TsModel::Named(y)) => x == y,
        (TsModel::ApiDecl(c1, n1, m1, f1, r1, b1, p1), TsModel::ApiDecl(c2, n2, m2, f2, r2, b2, p2)) => {
            &&& c1.len() == c2.len()
            &&& forall|i: int| 0 <= i < c1.len() ==> model_eq(#[trigger] c1[i], c2[i])
            &&& n1 == n2
            &&& m1 == m2
            &&& model_eq(*f1, *f2)
            &&& model_eq(*r1, *r2)
            &&& match (b1, b2) {
                (None, None) => true,
                (Some(x), Some(y)) => model_eq(*x, *y),
                _ => false,
            }
            &&& p1 == p2
        },
        _ => false,
    }
}

/// Whether two `f64` values, given by their bits, compare equal.
fn f64_bits_equal(a: u64, b: u64) -> (r: bool)
    ensures
        r == f64_bits_eq(a, b),
{
    let a_nan = a & 0x7ff0_0000_0000_0000u64 == 0x7ff0_0000_0000_0000u64 && a & 0x000f_ffff_ffff_ffffu64 != 0;
    let b_nan = b & 0x7ff0_0000_0000_0000u64 == 0x7ff0_0000_0000_0000u64 && b & 0x000f_ffff_ffff_ffffu64 != 0;
    !a_nan && !b_nan && (a == b || (a | b) & 0x7fff_ffff_ffff_ffffu64 == 0)
}

/// Whether two optional number literals, given by their bits, compare equal.
fn opt_f64_bits_equal(a: Option<u64>, b: Option<u64>) -> (r: bool)
    ensures
        r == opt_f64_bits_eq(a, b),
{
    match a {
        None => b.is_none(),
        Some(x) => match b {
            Some(y) => f64_bits_equal(x, y),
            None => false,
        },
    }
}

/// Whether two discriminators are equal.
fn discriminator_eq(a: &Option<Discriminator>, b: &Option<Discriminator>) -> (r: bool)
    ensures
        r == ((match *a {
            Some(d) => Some(d@),
            None => None,
        }) == (match *b {
            Some(d) => Some(d@),
            None => None,
        })),
{
    match (a, b) {
        (None, None) => true,
        (Some(Discriminator::Simple(x)), Some(Discriminator::Simple(y))) => *x == *y,
        (Some(Discriminator::BinaryHex(x)), Some(Discriminator::BinaryHex(y))) => x.0 == y.0,
        (Some(Discriminator::String(x)), Some(Discriminator::String(y))) => str_eq(x, y),
        _ => false,
    }
}

/// Whether two lists of enum entries are equal.
fn enum_entries_eq(x: &Vec<(String, Option<Discriminator>, String)>, y: &Vec<(String, Option<Discriminator>, String)>) -> (r:
    bool)
    ensures
        r == (enum_entries_view(*x) == enum_entries_view(*y)),
{
    if x.len() != y.len() {
        assert(enum_entries_view(*x).len() != enum_entries_view(*y).len());
        return false;
    }
    let mut i: usize = 0;
    while i < x.len()
        invariant
            i <= x@.len(),
            x@.len() == y@.len(),
            forall|j: int| 0 <= j < i ==> enum_entries_view(*x)[j] == enum_entries_view(*y)[j],
        decreases x@.len() - i,
    {
        let same = x[i].0 == y[i].0 && discriminator_eq(&x[i].1, &y[i].1) && x[i].2 == y[i].2;
        if !same {
            assert(enum_entries_view(*x)[i as int] != enum_entries_view(*y)[i as int]);
            return false;
        }
        i += 1;
    }
    assert(enum_entries_view(*x) =~= enum_entries_view(*y));
    true
}

/// Whether two lists of types are equal, member by member.
fn types_eq(x: &Vec<TypeScriptType>, y: &Vec<TypeScriptType>) -> (r: bool)
    ensures
        r == (x@.len() == y@.len() && forall|i: int| 0 <= i < x@.len() ==> model_eq(ts_view(#[trigger] x@[i]), ts_view(y@[i]))),
    decreases x, 0nat,
{
    if x.len() != y.len() {
        return false;
    }
    let mut i: usize = 0;
    while i < x.len()
        invariant
            i <= x@.len(),
            x@.len() == y@.len(),
            forall|j: int| 0 <= j < i ==> model_eq(ts_view(#[trigger] x@[j]), ts_view(y@[j])),
        decreases x@.len() - i,
    {
        if !ts_eq(&x[i], &y[i]) {
            return false;
        }
        i += 1;
    }
    true
}

/// Comparing lists of types member by member is comparing their models member by member.
proof fn lemma_types_eq(x: Seq<TypeScriptType>, y: Seq<TypeScriptType>)
    ensures
        (x.len() == y.len() && forall|i: int| 0 <= i < x.len() ==> model_eq(ts_view(#[trigger] x[i]), ts_view(y[i])))
            <==> (ts_views(x).len() == ts_views(y).len() && forall|i: int|
            0 <= i < ts_views(x).len() ==> model_eq(#[trigger] ts_views(x)[i], ts_views(y)[i])),
{
    if x.len() == y.len() {
        if forall|i: int| 0 <= i < x.len() ==> model_eq(ts_view(#[trigger] x[i]), ts_view(y[i])) {
            assert forall|i: int| 0 <= i < ts_views(x).len() implies model_eq(
                #[trigger] ts_views(x)[i],
                ts_views(y)[i],
            ) by {
                assert(model_eq(ts_view(x[i]), ts_view(y[i])));
            }
        } else {
            let j = choose|j: int| 0 <= j < x.len() && !model_eq(ts_view(#[trigger] x[j]), ts_view(y[j]));
            assert(!model_eq(ts_views(x)[j], ts_views(y)[j]));
        }
    }
}

/// Comparing lists of interface members member by member is comparing their models.
proof fn lemma_members_eq(t: TypeScriptType, u: TypeScriptType)
    requires
        t is Interface,
        u is Interface,
    ensures
        (t->members@.len() == u->members@.len() && forall|i: int|
            0 <= i < t->members@.len() ==> (#[trigger] t->members@[i]).0@ == u->members@[i].0@ && model_eq(
                ts_view(t->members@[i].1),
                ts_view(u->members@[i].1),
            ) && t->members@[i].2@ == u->members@[i].2@) <==> ({
            let (xm, ym) = (t@->Interface_0, u@->Interface_0);
            &&& xm.len() == ym.len()
            &&& forall|i: int|
                0 <= i < xm.len() ==> (#[trigger] xm[i]).0 == ym[i].0 && model_eq(xm[i].1, ym[i].1) && xm[i].2
                    == ym[i].2
        }),
        t@->Interface_1 == ts_views(t->extends@),
        u@->Interface_1 == ts_views(u->extends@),
{
    let (x, y) = (t->members@, u->members@);
    let (xm, ym) = (t@->Interface_0, u@->Interface_0);
    assert(t@->Interface_1 =~= ts_views(t->extends@));
    assert(u@->Interface_1 =~= ts_views(u->extends@));
    assert forall|i: int| 0 <= i < x.len() implies xm[i] == (x[i].0@, ts_view(x[i].1), x[i].2@) by {}
    assert forall|i: int| 0 <= i < y.len() implies ym[i] == (y[i].0@, ts_view(y[i].1), y[i].2@) by {}
    if x.len() == y.len() {
        if forall|i: int|
            0 <= i < x.len() ==> (#[trigger] x[i]).0@ == y[i].0@ && model_eq(ts_view(x[i].1), ts_view(y[i].1))
                && x[i].2@ == y[i].2@ {
            assert forall|i: int| 0 <= i < xm.len() implies (#[trigger] xm[i]).0 == ym[i].0 && model_eq(
                xm[i].1,
                ym[i].1,
            ) && xm[i].2 == ym[i].2 by {
                assert(x[i].0@ == y[i].0@ && model_eq(ts_view(x[i].1), ts_view(y[i].1)) && x[i].2@ == y[i].2@);
            }
        } else {
            let j = choose|j: int|
                0 <= j < x.len() && !((#[trigger] x[j]).0@ == y[j].0@ && model_eq(ts_view(x[j].1), ts_view(y[j].1))
                    && x[j].2@ == y[j].2@);
            assert(!(xm[j].0 == ym[j].0 && model_eq(xm[j].1, ym[j].1) && xm[j].2 == ym[j].2));
        }
    }
}

/// Whether two types compare equal.
fn ts_eq(a: &TypeScriptType, b: &TypeScriptType) -> (r: bool)
    ensures
        r == model_eq(a@, b@),
    decreases a, 1nat,
{
    match (a, b) {
        (TypeScriptType::Null, TypeScriptType::Null) => {
            let r = true;
            assert(r == model_eq(a@, b@));
            r
        },
        (TypeScriptType::Undefined, TypeScriptType::Undefined) => {
            let r = true;
            assert(r == model_eq(a@, b@));
            r
        },
        (TypeScriptType::Number(x), TypeScriptType::Number(y)) => {
            let r = opt_f64_bits_equal(*x, *y);
            assert(r == model_eq(a@, b@));
            r
        },
        (TypeScriptType::String(x), TypeScriptType::String(y)) => {
            let r = match x {
                None => y.is_none(),
                Some(p) => match y {
                    Some(q) => *p == *q,
                    None => false,
                },
            };
            assert(r == model_eq(a@, b@));
            r
        },
        (TypeScriptType::Boolean(x), TypeScriptType::Boolean(y)) => {
            let r = *x == *y;
            assert(r == model_eq(a@, b@));
            r
        },
        (TypeScriptType::Array(x, n), TypeScriptType::Array(y, m)) => {
            let r = ts_eq(x, y) && *n == *m;
            assert(r == model_eq(a@, b@));
            r
        },
        (TypeScriptType::ArrayLiteral(x), TypeScriptType::ArrayLiteral(y)) => {
            let r = types_eq(x, y);
            proof {
                lemma_view_members(*a);
                lemma_view_members(*b);
                lemma_types_eq(x@, y@);
            }
            r
        },
        (TypeScriptType::Interface { members: xm, extends: xe }, TypeScriptType::Interface { members: ym, extends: ye }) => {
            let same_members = members_eq(xm, ym);
            let r = same_members && types_eq(xe, ye);
            proof {
                lemma_members_eq(*a, *b);
                lemma_types_eq(xe@, ye@);
            }
            r
        },
        (TypeScriptType::Union(x), TypeScriptType::Union(y)) => {
            let r = types_eq(x, y);
            proof {
                lemma_view_members(*a);
                lemma_view_members(*b);
                lemma_types_eq(x@, y@);
            }
            r
        },
        (TypeScriptType::Intersection(x), TypeScriptType::Intersection(y)) => {
            let r = types_eq(x, y);
            proof {
                lemma_view_members(*a);
                lemma_view_members(*b);
                lemma_types_eq(x@, y@);
            }
            r
        },
        (TypeScriptType::Enum(x), TypeScriptType::Enum(y)) => {
            let r = enum_entries_eq(x, y);
            assert(r == model_eq(a@, b@));
            r
        },
        (TypeScriptType::Tuple(x), TypeScriptType::Tuple(y)) => {
            let r = tuple_items_eq(x, y);
            proof {
                let (mx, my) = (a@->Tuple_0, b@->Tuple_0);
                assert forall|i: int| 0 <= i < x@.len() implies mx[i] == (ts_view(x@[i].0), x@[i].1@) by {}
                assert forall|i: int| 0 <= i < y@.len() implies my[i] == (ts_view(y@[i].0), y@[i].1@) by {}
                if r {
                    assert forall|i: int| 0 <= i < mx.len() implies model_eq((#[trigger] mx[i]).0, my[i].0) && mx[i].1
                        == my[i].1 by {
                        assert(model_eq(ts_view(x@[i].0), ts_view(y@[i].0)) && x@[i].1@ == y@[i].1@);
                    }
                } else if x@.len() == y@.len() {
                    let j = choose|j: int|
                        0 <= j < x@.len() && !(model_eq(ts_view((#[trigger] x@[j]).0), ts_view(y@[j].0)) && x@[j].1@
                            == y@[j].1@);
                    assert(!(model_eq(mx[j].0, my[j].0) && mx[j].1 == my[j].1));
                }
            }
            r
        },
        (TypeScriptType::Partial(x), TypeScriptType::Partial(y)) => {
            let r = ts_eq(x, y);
            assert(r == model_eq(a@, b@));
            r
        },
        (TypeScriptType::ReadOnly(x), TypeScriptType::ReadOnly(y)) => {
            let r = ts_eq(x, y);
            assert(r == model_eq(a@, b@));
            r
        },
        (TypeScriptType::Record(k1, v1), TypeScriptType::Record(k2, v2)) => {
            let r = ts_eq(k1, k2) && ts_eq(v1, v2);
            assert(r == model_eq(a@, b@));
            r
        },
        (TypeScriptType::ConstEnum(x), TypeScriptType::ConstEnum(y)) => {
            let r = enum_entries_eq(x, y);
            assert(r == model_eq(a@, b@));
            r
        },
        (TypeScriptType::EnumValue(a1, b1), TypeScriptType::EnumValue(a2, b2)) => {
            let r = str_eq(a1, a2) && str_eq(b1, b2);
            assert(r == model_eq(a@, b@));
            r
        },
        (TypeScriptType::Named(x), TypeScriptType::Named(y)) => {
            let r = str_eq(x, y);
            assert(r == model_eq(a@, b@));
            r
        },
        (
            TypeScriptType::ApiDecl {
                command_flags: c1,
                name: n1,
                method: m1,
                form_type: f1,
                return_type: r1,
                body_type: b1,
                path: p1,
            },
            TypeScriptType::ApiDecl {
                command_flags: c2,
                name: n2,
                method: m2,
                form_type: f2,
                return_type: r2,
                body_type: b2,
                path: p2,
            },
        ) => {
            let flags = types_eq(c1, c2);
            proof {
                assert(a@->ApiDecl_0 =~= ts_views(c1@));
                assert(b@->ApiDecl_0 =~= ts_views(c2@));
                lemma_types_eq(c1@, c2@);
            }
            let body = match (b1, b2) {
                (None, None) => true,
                (Some(x), Some(y)) => ts_eq(x, y),
                _ => false,
            };
            flags && *n1 == *n2 && *m1 == *m2 && ts_eq(f1, f2) && ts_eq(r1, r2) && body && str_eq(p1, p2)
        },
        _ => false,
    }
}

/// Whether two lists of interface members are equal, member by member.
fn members_eq(x: &Vec<(String, TypeScriptType, String)>, y: &Vec<(String, TypeScriptType, String)>) -> (r: bool)
    ensures
        r == (x@.len() == y@.len() && forall|i: int|
            0 <= i < x@.len() ==> (#[trigger] x@[i]).0@ == y@[i].0@ && model_eq(ts_view(x@[i].1), ts_view(y@[i].1))
                && x@[i].2@ == y@[i].2@),
    decreases x, 0nat,
{
    if x.len() != y.len() {
        return false;
    }
    let mut i: usize = 0;
    while i < x.len()
        invariant
            i <= x@.len(),
            x@.len() == y@.len(),
            forall|j: int|
                0 <= j < i ==> (#[trigger] x@[j]).0@ == y@[j].0@ && model_eq(ts_view(x@[j].1), ts_view(y@[j].1))
                    && x@[j].2@ == y@[j].2@,
        decreases x@.len() - i,
    {
        if !(x[i].0 == y[i].0 && ts_eq(&x[i].1, &y[i].1) && x[i].2 == y[i].2) {
            return false;
        }
        i += 1;
    }
    true
}

/// Whether two lists of tuple items are equal, item by item.
fn tuple_items_eq(x: &Vec<(TypeScriptType, String)>, y: &Vec<(TypeScriptType, String)>) -> (r: bool)
    ensures
        r == (x@.len() == y@.len() && forall|i: int|
            0 <= i < x@.len() ==> model_eq(ts_view((#[trigger] x@[i]).0), ts_view(y@[i].0)) && x@[i].1@ == y@[i].1@),
    decreases x, 0nat,
{
    if x.len() != y.len() {
        return false;
    }
    let mut i: usize = 0;
    while i < x.len()
        invariant
            i <= x@.len(),
            x@.len() == y@.len(),
            forall|j: int| 0 <= j < i ==> model_eq(ts_view((#[trigger] x@[j]).0), ts_view(y@[j].0)) && x@[j].1@ == y@[j].1@,
        decreases x@.len() - i,
    {
        if !(ts_eq(&x[i].0, &y[i].0) && x[i].1 == y[i].1) {
            return false;
        }
        i += 1;
    }
    true
}

impl PartialEq for TypeScriptType {
    fn eq(&self, other: &Self) -> (r: bool) {
        ts_eq(self, other)
    }
}

impl vstd::std_specs::cmp::PartialEqSpecImpl for TypeScriptType {
    open spec fn obeys_eq_spec() -> bool {
        true
    }

    open spec fn eq_spec(&self, other: &Self) -> bool {
        model_eq(self@, other@)
    }
}

impl Clone for TypeScriptType {
    fn clone(&self) -> (r: Self)
        ensures
            r@ == self@,
    {
        ts_clone(self)
    }
}

/// A copy of an optional string.
fn opt_string_clone(s: &Option<String>) -> (r: Option<String>)
    ensures
        r == *s,
{
    match s {
        Some(v) => Some(v.clone()),
        None => None,
    }
}

/// A copy of a type.
pub(crate) fn ts_clone(t: &TypeScriptType) -> (r: TypeScriptType)
    ensures
        r@ == t@,
    decreases t, 1nat,
{
    match t {
        TypeScriptType::Null => TypeScriptType::Null,
        TypeScriptType::Undefined => TypeScriptType::Undefined,
        TypeScriptType::Number(x) => TypeScriptType::Number(*x),
        TypeScriptType::String(x) => TypeScriptType::String(opt_string_clone(x)),
        TypeScriptType::Boolean(x) => TypeScriptType::Boolean(*x),
        TypeScriptType::Array(b, n) => TypeScriptType::Array(Box::new(ts_clone(b)), *n),
        TypeScriptType::ArrayLiteral(v) => {
            let r = TypeScriptType::ArrayLiteral(types_clone(v));
            proof {
                lemma_view_members(*t);
                lemma_view_members(r);
            }
            r
        },
        TypeScriptType::Interface { members, extends } => {
            let r = TypeScriptType::Interface { members: members_clone(members), extends: types_clone(extends) };
            proof {
                lemma_members_eq(r, *t);
                assert(r@->Interface_0 =~= t@->Interface_0);
            }
            r
        },
        TypeScriptType::Union(v) => {
            let r = TypeScriptType::Union(types_clone(v));
            proof {
                lemma_view_members(*t);
                lemma_view_members(r);
            }
            r
        },
        TypeScriptType::Intersection(v) => {
            let r = TypeScriptType::Intersection(types_clone(v));
            proof {
                lemma_view_members(*t);
                lemma_view_members(r);
            }
            r
        },
        TypeScriptType::Enum(v) => TypeScriptType::Enum(enum_entries_clone(v)),
        TypeScriptType::Tuple(v) => {
            let r = TypeScriptType::Tuple(tuple_items_clone(v));
            proof {
                assert(r@->Tuple_0 =~= t@->Tuple_0);
            }
            r
        },
        TypeScriptType::Partial(b) => TypeScriptType::Partial(Box::new(ts_clone(b))),
        TypeScriptType::ReadOnly(b) => TypeScriptType::ReadOnly(Box::new(ts_clone(b))),
        TypeScriptType::Record(k, v) => TypeScriptType::Record(Box::new(ts_clone(k)), Box::new(ts_clone(v))),
        TypeScriptType::ConstEnum(v) => TypeScriptType::ConstEnum(enum_entries_clone(v)),
        TypeScriptType::EnumValue(a, b) => TypeScriptType::EnumValue(a, b),
        TypeScriptType::Named(n) => TypeScriptType::Named(n),
        TypeScriptType::ApiDecl { command_flags, name, method, form_type, return_type, body_type, path } => {
            let body = match body_type {
                Some(b) => Some(Box::new(ts_clone(b))),
                None => None,
            };
            let r = TypeScriptType::ApiDecl {
                command_flags: types_clone(command_flags),
                name: name.clone(),
                method: method.clone(),
                form_type: Box::new(ts_clone(form_type)),
                return_type: Box::new(ts_clone(return_type)),
                body_type: body,
                path,
            };
            proof {
                assert(r@->ApiDecl_0 =~= ts_views(r->command_flags@));
                assert(t@->ApiDecl_0 =~= ts_views(command_flags@));
            }
            r
        },
    }
}

/// Copies of a list of types.
fn types_clone(v: &Vec<TypeScriptType>) -> (r: Vec<TypeScriptType>)
    ensures
        ts_views(r@) == ts_views(v@),
    decreases v, 0nat,
{
    let mut r: Vec<TypeScriptType> = Vec::new();
    let mut i: usize = 0;
    while i < v.len()
        invariant
            i <= v@.len(),
            r@.len() == i,
            forall|j: int| 0 <= j < i ==> ts_view(#[trigger] r@[j]) == ts_view(v@[j]),
        decreases v@.len() - i,
    {
        r.push(ts_clone(&v[i]));
        i += 1;
    }
    assert(ts_views(r@) =~= ts_views(v@));
    r
}

/// Copies of a list of interface members.
fn members_clone(v: &Vec<(String, TypeScriptType, String)>) -> (r: Vec<(String, TypeScriptType, String)>)
    ensures
        r@.len() == v@.len(),
        forall|j: int|
            0 <= j < v@.len() ==> (#[trigger] r@[j]).0 == v@[j].0 && ts_view(r@[j].1) == ts_view(v@[j].1) && r@[j].2
                == v@[j].2,
    decreases v, 0nat,
{
    let mut r: Vec<(String, TypeScriptType, String)> = Vec::new();
    let mut i: usize = 0;
    while i < v.len()
        invariant
            i <= v@.len(),
            r@.len() == i,
            forall|j: int|
                0 <= j < i ==> (#[trigger] r@[j]).0 == v@[j].0 && ts_view(r@[j].1) == ts_view(v@[j].1) && r@[j].2
                    == v@[j].2,
        decreases v@.len() - i,
    {
        r.push((v[i].0.clone(), ts_clone(&v[i].1), v[i].2.clone()));
        i += 1;
    }
    r
}

/// Copies of a list of tuple items.
fn tuple_items_clone(v: &Vec<(TypeScriptType, String)>) -> (r: Vec<(TypeScriptType, String)>)
    ensures
        r@.len() == v@.len(),
        forall|j: int| 0 <= j < v@.len() ==> ts_view((#[trigger] r@[j]).0) == ts_view(v@[j].0) && r@[j].1 == v@[j].1,
    decreases v, 0nat,
{
    let mut r: Vec<(TypeScriptType, String)> = Vec::new();
    let mut i: usize = 0;
    while i < v.len()
        invariant
            i <= v@.len(),
            r@.len() == i,
            forall|j: int| 0 <= j < i ==> ts_view((#[trigger] r@[j]).0) == ts_view(v@[j].0) && r@[j].1 == v@[j].1,
        decreases v@.len() - i,
    {
        r.push((ts_clone(&v[i].0), v[i].1.clone()));
        i += 1;
    }
    r
}

/// Copies of a list of enum entries.
fn enum_entries_clone(v: &Vec<(String, Option<Discriminator>, String)>) -> (r: Vec<
    (String, Option<Discriminator>, String),
>)
    ensures
        enum_entries_view(r) == enum_entries_view(*v),
{
    let mut r: Vec<(String, Option<Discriminator>, String)> = Vec::new();
    let mut i: usize = 0;
    while i < v.len()
        invariant
            i <= v@.len(),
            r@.len() == i,
            forall|j: int| 0 <= j < i ==> #[trigger] r@[j] == v@[j],
        decreases v@.len() - i,
    {
        r.push((v[i].0.clone(), v[i].1, v[i].2.clone()));
        i += 1;
    }
    assert(enum_entries_view(r) =~= enum_entries_view(*v));
    r
}

/// The types without the `undefined` ones, in order.
pub open spec fn without_undefined(ts: Seq<TsModel>) -> Seq<TsModel>
    decreases ts.len(),
{
    if ts.len() == 0 {
        ts
    } else if ts.last() is Undefined {
        without_undefined(ts.drop_last())
    } else {
        without_undefined(ts.drop_last()).push(ts.last())
    }
}

/// For an optional type, the union of its members other than `undefined`.
pub open spec fn model_take_optional(m: TsModel) -> Option<TsModel> {
    if model_is_optional(m) {
        Some(TsModel::Union(without_undefined(m->Union_0)))
    } else {
        None
    }
}

/// Whether a field of the type `field` can be merged into the type `into`: two named types,
/// or an interface and a named type, an interface, `null`, `undefined`, or an optional named
/// type.
pub open spec fn flatten_accepts(into: TsModel, field: TsModel) -> bool {
    match (into, field) {
        (TsModel::Named(_), TsModel::Named(_)) => true,
        (TsModel::Interface(_, _), TsModel::Named(_)) => true,
        (TsModel::Interface(_, _), TsModel::Interface(_, _)) => true,
        (TsModel::Interface(_, _), TsModel::Null) => true,
        (TsModel::Interface(_, _), TsModel::Undefined) => true,
        (TsModel::Interface(_, _), TsModel::Union(ts)) => ts.len() == 2 && ts[0] is Named && ts[1] is Undefined,
        _ => false,
    }
}

/// The type with `field` merged into it: two different names make their union; an interface
/// extends a named type, takes the members and extensions of another interface, ignores
/// `null` and `undefined`, and extends an optional named type as a `Partial` one.
pub open spec fn model_flatten(into: TsModel, field: TsModel) -> TsModel {
    match (into, field) {
        (TsModel::Named(x), TsModel::Named(y)) => if x == y {
            TsModel::Named(x)
        } else {
            TsModel::Union(seq![TsModel::Named(x), TsModel::Named(y)])
        },
        (TsModel::Interface(m, e), TsModel::Named(n)) => TsModel::Interface(m, e.push(TsModel::Named(n))),
        (TsModel::Interface(m1, e1), TsModel::Interface(m2, e2)) => TsModel::Interface(m1 + m2, e1 + e2),
        (TsModel::Interface(m, e), TsModel::Union(ts)) => TsModel::Interface(m, e.push(TsModel::Partial(Box::new(ts[0])))),
        _ => into,
    }
}

proof fn lemma_without_undefined_push(ts: Seq<TsModel>, t: TsModel)
    ensures
        without_undefined(ts.push(t)) == (if t is Undefined {
            without_undefined(ts)
        } else {
            without_undefined(ts).push(t)
        }),
{
    assert(ts.push(t).drop_last() =~= ts);
}

impl TypeScriptType {
    /// For an optional type, the union of its members other than `undefined`; the type itself
    /// otherwise.
    pub fn take_optional(&self) -> (r: Result<TypeScriptType, &TypeScriptType>)
        ensures
            match r {
                Ok(t) => model_take_optional(self@) == Some(t@),
                Err(s) => model_take_optional(self@) is None && s == self,
            },
    {
        proof {
            lemma_view_members(*self);
        }
        if !self.is_optional() {
            return Err(self);
        }
        match self {
            TypeScriptType::Union(types) => {
                let mut new_types: Vec<TypeScriptType> = Vec::new();
                let mut i: usize = 0;
                proof {
                    assert(ts_views(types@).take(0) =~= Seq::<TsModel>::empty());
                    assert(ts_views(new_types@) =~= Seq::<TsModel>::empty());
                }
                while i < types.len()
                    invariant
                        i <= types@.len(),
                        ts_views(new_types@) == without_undefined(ts_views(types@).take(i as int)),
                    decreases types@.len() - i,
                {
                    let ghost before = new_types@;
                    proof {
                        assert(ts_views(types@).take(i + 1) =~= ts_views(types@).take(i as int).push(
                            ts_view(types@[i as int]),
                        ));
                        lemma_without_undefined_push(ts_views(types@).take(i as int), ts_view(types@[i as int]));
                    }
                    if !types[i].is_undefined() {
                        new_types.push(ts_clone(&types[i]));
                        proof {
                            assert(ts_views(new_types@) =~= ts_views(before).push(ts_view(types@[i as int])));
                        }
                    }
                    i += 1;
                }
                proof {
                    assert(ts_views(types@).take(types@.len() as int) =~= ts_views(types@));
                }
                let r = TypeScriptType::Union(new_types);
                proof {
                    lemma_view_members(r);
                }
                Ok(r)
            },
            _ => Err(self),
        }
    }

    /// Merge `field` into this type.
    pub fn flatten(self, field: TypeScriptType) -> (r: TypeScriptType)
        requires
            flatten_accepts(self@, field@),
        ensures
            r@ == model_flatten(self@, field@),
    {
        proof {
            lemma_view_members(field);
        }
        match (self, field) {
            (TypeScriptType::Named(a), TypeScriptType::Named(b)) => {
                if str_eq(a, b) {
                    return TypeScriptType::Named(a);
                }
                let r = TypeScriptType::Union(vec![TypeScriptType::Named(a), TypeScriptType::Named(b)]);
                proof {
                    lemma_view_members(r);
                    assert(ts_views(seq![TypeScriptType::Named(a), TypeScriptType::Named(b)]) =~= seq![
                        TsModel::Named(a@),
                        TsModel::Named(b@),
                    ]);
                }
                r
            },
            (TypeScriptType::Interface { members, mut extends }, TypeScriptType::Named(name)) => {
                let ghost t = TypeScriptType::Interface { members, extends };
                let ghost e0 = extends@;
                extends.push(TypeScriptType::Named(name));
                let r = TypeScriptType::Interface { members, extends };
                proof {
                    lemma_members_eq(r, t);
                    assert(r@->Interface_0 =~= t@->Interface_0);
                    assert(ts_views(extends@) =~= ts_views(e0).push(TsModel::Named(name@)));
                }
                r
            },
            (
                TypeScriptType::Interface { members: mut am, extends: mut ae },
                TypeScriptType::Interface { members: mut bm, extends: mut be },
            ) => {
                let ghost ta = TypeScriptType::Interface { members: am, extends: ae };
                let ghost tb = TypeScriptType::Interface { members: bm, extends: be };
                let ghost (am0, ae0, bm0, be0) = (am@, ae@, bm@, be@);
                am.append(&mut bm);
                ae.append(&mut be);
                let r = TypeScriptType::Interface { members: am, extends: ae };
                proof {
                    lemma_members_eq(r, ta);
                    lemma_members_eq(tb, ta);
                    assert(ts_views(ae@) =~= ts_views(ae0) + ts_views(be0));
                    assert(r@->Interface_0 =~= ta@->Interface_0 + tb@->Interface_0);
                }
                r
            },
            (TypeScriptType::Interface { members, mut extends }, TypeScriptType::Union(types)) => {
                if types.len() == 2 && matches!(types[0], TypeScriptType::Named(_)) && types[1].is_undefined() {
                    let ghost t = TypeScriptType::Interface { members, extends };
                    let ghost e0 = extends@;
                    let first = ts_clone(&types[0]);
                    extends.push(TypeScriptType::Partial(first.boxed()));
                    let r = TypeScriptType::Interface { members, extends };
                    proof {
                        lemma_members_eq(r, t);
                        assert(r@->Interface_0 =~= t@->Interface_0);
                        assert(ts_views(extends@) =~= ts_views(e0).push(TsModel::Partial(Box::new(ts_view(types@[0])))));
                    }
                    r
                } else {
                    TypeScriptType::Interface { members, extends }
                }
            },
            (a, _) => a,
        }
    }
}

/// Whether one of the types compares equal to `t`.
pub open spec fn contains_eq(acc: Seq<TsModel>, t: TsModel) -> bool {
    exists|j: int| 0 <= j < acc.len() && model_eq(#[trigger] acc[j], t)
}

/// The list with `t` added at its end, unless a type equal to it is there already.
pub open spec fn push_unique(acc: Seq<TsModel>, t: TsModel) -> Seq<TsModel> {
    if contains_eq(acc, t) {
        acc
    } else {
        acc.push(t)
    }
}

/// The list with each of the types added in turn, unless a type equal to it is there already.
pub open spec fn push_all_unique(acc: Seq<TsModel>, ts: Seq<TsModel>) -> Seq<TsModel>
    decreases ts.len(),
{
    if ts.len() == 0 {
        acc
    } else {
        push_unique(push_all_unique(acc, ts.drop_last()), ts.last())
    }
}

/// The list with a cleaned-up member added: the members of a nested union (or, in an
/// intersection, of a nested intersection) are added one by one; any other type is added.
pub open spec fn absorb(acc: Seq<TsModel>, u: TsModel, is_union: bool) -> Seq<TsModel> {
    match u {
        TsModel::Union(inner) => if is_union {
            push_all_unique(acc, inner)
        } else {
            push_unique(acc, u)
        },
        TsModel::Intersection(inner) => if !is_union {
            push_all_unique(acc, inner)
        } else {
            push_unique(acc, u)
        },
        _ => push_unique(acc, u),
    }
}

/// The cleaned-up members of a union (or intersection), in order and without duplicates;
/// with `skip_undefined`, the `undefined` members are left out first.
pub open spec fn unify_members(ts: Seq<TsModel>, is_union: bool, skip_undefined: bool) -> Seq<TsModel>
    decreases ts,
{
    if ts.len() == 0 {
        Seq::empty()
    } else {
        let prev = unify_members(ts.drop_last(), is_union, skip_undefined);
        if skip_undefined && ts.last() is Undefined {
            prev
        } else {
            absorb(prev, unified(ts.last()), is_union)
        }
    }
}

/// The type once cleaned up: nested unions and intersections merged into their parent, their
/// duplicate members removed, inner types cleaned up, `undefined` removed from the union
/// inside a `Partial`, and nested `Partial`s and `ReadOnly`s collapsed.
pub open spec fn unified(m: TsModel) -> TsModel
    decreases m,
{
    match m {
        TsModel::Union(ts) => TsModel::Union(unify_members(ts, true, false)),
        TsModel::Intersection(ts) => TsModel::Intersection(unify_members(ts, false, false)),
        TsModel::Array(t, n) => TsModel::Array(Box::new(unified(*t)), n),
        TsModel::Record(k, v) => TsModel::Record(Box::new(unified(*k)), Box::new(unified(*v))),
        TsModel::Tuple(items) => TsModel::Tuple(
            Seq::new(
                items.len(),
                |i: int|
                    if 0 <= i < items.len() {
                        (unified(items[i].0), items[i].1)
                    } else {
                        (TsModel::Null, Seq::empty())
                    },
            ),
        ),
        TsModel::Interface(members, extends) => TsModel::Interface(
            Seq::new(
                members.len(),
                |i: int|
                    if 0 <= i < members.len() {
                        (members[i].0, unified(members[i].1), members[i].2)
                    } else {
                        (Seq::empty(), TsModel::Null, Seq::empty())
                    },
            ),
            extends,
        ),
        TsModel::Partial(t) => {
            let u = match *t {
                TsModel::Union(ts) => TsModel::Union(unify_members(ts, true, true)),
                _ => unified(*t),
            };
            match u {
                TsModel::Partial(inner) => TsModel::Partial(inner),
                _ => TsModel::Partial(Box::new(u)),
            }
        },
        TsModel::ReadOnly(t) => {
            let u = unified(*t);
            match u {
                TsModel::ReadOnly(inner) => TsModel::ReadOnly(inner),
                _ => TsModel::ReadOnly(Box::new(u)),
            }
        },
        _ => m,
    }
}

/// Whether one of the types is a union (or, for an intersection, an intersection).
pub open spec fn has_nested(ts: Seq<TsModel>, is_union: bool) -> bool {
    exists|j: int|
        0 <= j < ts.len() && (if is_union {
            #[trigger] ts[j] is Union
        } else {
            ts[j] is Intersection
        })
}

proof fn lemma_push_unique_flat(acc: Seq<TsModel>, t: TsModel, is_union: bool)
    requires
        !has_nested(acc, is_union),
        !(if is_union {
            t is Union
        } else {
            t is Intersection
        }),
    ensures
        !has_nested(push_unique(acc, t), is_union),
{
    let r = push_unique(acc, t);
    assert forall|j: int| 0 <= j < r.len() implies !(if is_union {
        #[trigger] r[j] is Union
    } else {
        r[j] is Intersection
    }) by {
        if j < acc.len() {
            assert(r[j] == acc[j]);
        }
    }
}

proof fn lemma_push_all_unique_flat(acc: Seq<TsModel>, ts: Seq<TsModel>, is_union: bool)
    requires
        !has_nested(acc, is_union),
        !has_nested(ts, is_union),
    ensures
        !has_nested(push_all_unique(acc, ts), is_union),
    decreases ts.len(),
{
    if ts.len() > 0 {
        assert(!has_nested(ts.drop_last(), is_union)) by {
            assert forall|j: int| 0 <= j < ts.drop_last().len() implies !(if is_union {
                #[trigger] ts.drop_last()[j] is Union
            } else {
                ts.drop_last()[j] is Intersection
            }) by {
                assert(ts.drop_last()[j] == ts[j]);
            }
        }
        lemma_push_all_unique_flat(acc, ts.drop_last(), is_union);
        assert(!(if is_union {
            ts[ts.len() - 1] is Union
        } else {
            ts[ts.len() - 1] is Intersection
        }));
        lemma_push_unique_flat(push_all_unique(acc, ts.drop_last()), ts.last(), is_union);
    }
}

/// A cleaned-up union holds no union, and a cleaned-up intersection no intersection.
pub proof fn law_unified_flat(m: TsModel)
    ensures
        unified(m) matches TsModel::Union(xs) ==> !has_nested(xs, true),
        unified(m) matches TsModel::Intersection(xs) ==> !has_nested(xs, false),
    decreases m,
{
    match m {
        TsModel::Union(ts) => {
            lemma_unify_members_flat(ts, true, false);
        },
        TsModel::Intersection(ts) => {
            lemma_unify_members_flat(ts, false, false);
        },
        _ => {},
    }
}

proof fn lemma_unify_members_flat(ts: Seq<TsModel>, is_union: bool, skip_undefined: bool)
    ensures
        !has_nested(unify_members(ts, is_union, skip_undefined), is_union),
    decreases ts,
{
    if ts.len() > 0 {
        lemma_unify_members_flat(ts.drop_last(), is_union, skip_undefined);
        let prev = unify_members(ts.drop_last(), is_union, skip_undefined);
        if !(skip_undefined && ts.last() is Undefined) {
            let u = unified(ts.last());
            law_unified_flat(ts.last());
            match u {
                TsModel::Union(inner) => if is_union {
                    lemma_push_all_unique_flat(prev, inner, is_union);
                } else {
                    lemma_push_unique_flat(prev, u, is_union);
                },
                TsModel::Intersection(inner) => if !is_union {
                    lemma_push_all_unique_flat(prev, inner, is_union);
                } else {
                    lemma_push_unique_flat(prev, u, is_union);
                },
                _ => {
                    lemma_push_unique_flat(prev, u, is_union);
                },
            }
        }
    }
}

/// The elements of the vector, last first.
fn reversed<T>(v: Vec<T>) -> (r: Vec<T>)
    ensures
        r@.len() == v@.len(),
        forall|j: int| 0 <= j < v@.len() ==> #[trigger] r@[j] == v@[v@.len() - 1 - j],
{
    let ghost orig = v@;
    let mut v = v;
    let mut r: Vec<T> = Vec::new();
    while v.len() > 0
        invariant
            v@.len() + r@.len() == orig.len(),
            v@ == orig.subrange(0, v@.len() as int),
            forall|j: int| 0 <= j < r@.len() ==> #[trigger] r@[j] == orig[orig.len() - 1 - j],
        decreases v@.len(),
    {
        let ghost before = v@;
        let x = v.pop().unwrap();
        proof {
            assert(x == orig[v@.len() as int]);
            assert(v@ =~= orig.subrange(0, v@.len() as int));
        }
        r.push(x);
    }
    r
}

/// Whether one of the types compares equal to `t`.
fn contains_type(v: &Vec<TypeScriptType>, t: &TypeScriptType) -> (r: bool)
    ensures
        r == contains_eq(ts_views(v@), t@),
{
    let mut j: usize = 0;
    while j < v.len()
        invariant
            j <= v@.len(),
            forall|k: int| 0 <= k < j ==> !model_eq(#[trigger] ts_views(v@)[k], t@),
        decreases v@.len() - j,
    {
        if ts_eq(&v[j], t) {
            assert(model_eq(ts_views(v@)[j as int], t@));
            return true;
        }
        j += 1;
    }
    false
}

/// Adds `t` at the end of the list, unless a type equal to it is there already.
fn push_type_unique(acc: &mut Vec<TypeScriptType>, t: TypeScriptType)
    ensures
        ts_views(final(acc)@) == push_unique(ts_views(old(acc)@), t@),
{
    if !contains_type(acc, &t) {
        let ghost before = acc@;
        acc.push(t);
        proof {
            assert(ts_views(acc@) =~= ts_views(before).push(t@));
        }
    }
}

/// Adds each of the types in turn, unless a type equal to it is there already.
fn push_all_types_unique(acc: &mut Vec<TypeScriptType>, ts: Vec<TypeScriptType>)
    ensures
        ts_views(final(acc)@) == push_all_unique(ts_views(old(acc)@), ts_views(ts@)),
{
    let ghost start = ts_views(acc@);
    let ghost orig = ts@;
    let n = ts.len();
    let mut rest = reversed(ts);
    let mut k: usize = 0;
    proof {
        assert(ts_views(orig).take(0) =~= Seq::<TsModel>::empty());
    }
    while rest.len() > 0
        invariant
            n == orig.len(),
            k <= n,
            rest@.len() == n - k,
            forall|j: int| 0 <= j < rest@.len() ==> #[trigger] rest@[j] == orig[n - 1 - j],
            ts_views(acc@) == push_all_unique(start, ts_views(orig).take(k as int)),
        decreases rest@.len(),
    {
        let x = rest.pop().unwrap();
        proof {
            assert(x == orig[k as int]);
            assert(ts_views(orig).take(k + 1).drop_last() =~= ts_views(orig).take(k as int));
            assert(ts_views(orig).take(k + 1).last() == x@);
        }
        push_type_unique(acc, x);
        k += 1;
    }
    proof {
        assert(ts_views(orig).take(n as int) =~= ts_views(orig));
    }
}

/// The cleaned-up members of a union (or intersection), in order and without duplicates;
/// with `skip_undefined`, the `undefined` members are left out. A single pass suffices: the
/// members of a cleaned-up union hold no union (see [`law_unified_flat`]).
fn unify_member_list(types: Vec<TypeScriptType>, is_union: bool, skip_undefined: bool) -> (r: Vec<TypeScriptType>)
    ensures
        ts_views(r@) == unify_members(ts_views(types@), is_union, skip_undefined),
    decreases types, 1nat,
{
    let ghost orig = types@;
    let ghost orig_vec = types;
    let n = types.len();
    let mut rest = reversed(types);
    let mut new_types: Vec<TypeScriptType> = Vec::new();
    let mut k: usize = 0;
    proof {
        assert(ts_views(orig).take(0) =~= Seq::<TsModel>::empty());
        assert(ts_views(new_types@) =~= Seq::<TsModel>::empty());
    }
    while rest.len() > 0
        invariant
            n == orig.len(),
            orig == orig_vec@,
            orig_vec == types,
            k <= n,
            rest@.len() == n - k,
            forall|j: int| 0 <= j < rest@.len() ==> #[trigger] rest@[j] == orig[n - 1 - j],
            ts_views(new_types@) == unify_members(ts_views(orig).take(k as int), is_union, skip_undefined),
        decreases rest@.len(),
    {
        let ty = rest.pop().unwrap();
        let ghost prefix = ts_views(orig).take(k as int);
        proof {
            assert(ty == orig[k as int]);
            assert(ts_views(orig).take(k + 1).drop_last() =~= prefix);
            assert(ts_views(orig).take(k + 1).last() == ty@);
            assert(decreases_to!(orig_vec => orig_vec@[k as int]));
        }
        if skip_undefined && ty.is_undefined() {
            k += 1;
            continue;
        }
        let ty = unify_owned(ty);
        match ty {
            TypeScriptType::Union(inner) => {
                proof {
                    lemma_view_members(TypeScriptType::Union(inner));
                }
                if is_union {
                    push_all_types_unique(&mut new_types, inner);
                } else {
                    push_type_unique(&mut new_types, TypeScriptType::Union(inner));
                }
            },
            TypeScriptType::Intersection(inner) => {
                proof {
                    lemma_view_members(TypeScriptType::Intersection(inner));
                }
                if !is_union {
                    push_all_types_unique(&mut new_types, inner);
                } else {
                    push_type_unique(&mut new_types, TypeScriptType::Intersection(inner));
                }
            },
            ty => {
                push_type_unique(&mut new_types, ty);
            },
        }
        k += 1;
    }
    proof {
        assert(ts_views(orig).take(n as int) =~= ts_views(orig));
    }
    new_types
}

/// The tuple items with their types cleaned up.
fn unify_tuple_items(items: Vec<(TypeScriptType, String)>) -> (r: Vec<(TypeScriptType, String)>)
    ensures
        r@.len() == items@.len(),
        forall|j: int|
            0 <= j < items@.len() ==> ts_view((#[trigger] r@[j]).0) == unified(ts_view(items@[j].0)) && r@[j].1
                == items@[j].1,
    decreases items, 1nat,
{
    let ghost orig = items@;
    let ghost orig_vec = items;
    let n = items.len();
    let mut rest = reversed(items);
    let mut out: Vec<(TypeScriptType, String)> = Vec::new();
    while rest.len() > 0
        invariant
            n == orig.len(),
            orig == orig_vec@,
            orig_vec == items,
            rest@.len() + out@.len() == n,
            forall|j: int| 0 <= j < rest@.len() ==> #[trigger] rest@[j] == orig[n - 1 - j],
            forall|j: int|
                0 <= j < out@.len() ==> ts_view((#[trigger] out@[j]).0) == unified(ts_view(orig[j].0)) && out@[j].1
                    == orig[j].1,
        decreases rest@.len(),
    {
        let (ty, comment) = rest.pop().unwrap();
        proof {
            let k = out@.len() as int;
            assert((ty, comment) == orig[k]);
            assert(decreases_to!(orig_vec => orig_vec@[k]));
            assert(decreases_to!(orig_vec@[k] => orig_vec@[k].0));
        }
        out.push((unify_owned(ty), comment));
    }
    out
}

/// The interface members with their types cleaned up.
fn unify_interface_members(members: Vec<(String, TypeScriptType, String)>) -> (r: Vec<
    (String, TypeScriptType, String),
>)
    ensures
        r@.len() == members@.len(),
        forall|j: int|
            0 <= j < members@.len() ==> (#[trigger] r@[j]).0 == members@[j].0 && ts_view(r@[j].1) == unified(
                ts_view(members@[j].1),
            ) && r@[j].2 == members@[j].2,
    decreases members, 1nat,
{
    let ghost orig = members@;
    let ghost orig_vec = members;
    let n = members.len();
    let mut rest = reversed(members);
    let mut out: Vec<(String, TypeScriptType, String)> = Vec::new();
    while rest.len() > 0
        invariant
            n == orig.len(),
            orig == orig_vec@,
            orig_vec == members,
            rest@.len() + out@.len() == n,
            forall|j: int| 0 <= j < rest@.len() ==> #[trigger] rest@[j] == orig[n - 1 - j],
            forall|j: int|
                0 <= j < out@.len() ==> (#[trigger] out@[j]).0 == orig[j].0 && ts_view(out@[j].1) == unified(
                    ts_view(orig[j].1),
                ) && out@[j].2 == orig[j].2,
        decreases rest@.len(),
    {
        let (name, ty, comment) = rest.pop().unwrap();
        proof {
            let k = out@.len() as int;
            assert((name, ty, comment) == orig[k]);
            assert(decreases_to!(orig_vec => orig_vec@[k]));
            assert(decreases_to!(orig_vec@[k] => orig_vec@[k].1));
        }
        out.push((name, unify_owned(ty), comment));
    }
    out
}

/// The type once cleaned up.
fn unify_owned(t: TypeScriptType) -> (r: TypeScriptType)
    ensures
        r@ == unified(t@),
    decreases t, 2nat,
{
    let ghost t0 = t;
    proof {
        lemma_view_members(t);
    }
    match t {
        TypeScriptType::Union(types) => {
            let r = TypeScriptType::Union(unify_member_list(types, true, false));
            proof {
                lemma_view_members(r);
            }
            r
        },
        TypeScriptType::Intersection(types) => {
            let r = TypeScriptType::Intersection(unify_member_list(types, false, false));
            proof {
                lemma_view_members(r);
            }
            r
        },
        TypeScriptType::Array(ty, n) => TypeScriptType::Array(Box::new(unify_owned(*ty)), n),
        TypeScriptType::Record(key, value) => TypeScriptType::Record(
            Box::new(unify_owned(*key)),
            Box::new(unify_owned(*value)),
        ),
        TypeScriptType::Tuple(types) => {
            let items = unify_tuple_items(types);
            let r = TypeScriptType::Tuple(items);
            proof {
                assert(r@->Tuple_0 =~= unified(t0@)->Tuple_0);
            }
            r
        },
        TypeScriptType::Interface { members, extends } => {
            let ghost ext0 = extends;
            let new_members = unify_interface_members(members);
            let r = TypeScriptType::Interface { members: new_members, extends };
            proof {
                assert(r@->Interface_0 =~= unified(t0@)->Interface_0);
                assert(r@->Interface_1 =~= t0@->Interface_1);
            }
            r
        },
        TypeScriptType::Partial(ty) => {
            let inner = *ty;
            proof {
                lemma_view_members(inner);
            }
            let u = match inner {
                TypeScriptType::Union(types) => {
                    let r = TypeScriptType::Union(unify_member_list(types, true, true));
                    proof {
                        lemma_view_members(r);
                    }
                    r
                },
                other => unify_owned(other),
            };
            match u {
                TypeScriptType::Partial(inner) => TypeScriptType::Partial(inner),
                other => TypeScriptType::Partial(Box::new(other)),
            }
        },
        TypeScriptType::ReadOnly(ty) => {
            let u = unify_owned(*ty);
            match u {
                TypeScriptType::ReadOnly(inner) => TypeScriptType::ReadOnly(inner),
                other => TypeScriptType::ReadOnly(Box::new(other)),
            }
        },
        other => other,
    }
}

impl TypeScriptType {
    /// Performs simple cleanup of nested unions and intersections and removes duplicates.
    pub fn unify(&mut self)
        ensures
            final(self)@ == unified(old(self)@),
            deeply_clean(final(self)@),
    {
        let mut t = TypeScriptType::Null;
        std::mem::swap(&mut t, self);
        *self = unify_owned(t);
        proof {
            law_unified_deeply_clean(old(self)@);
        }
    }
}

/// Whether no two of the types compare equal, the earlier one on the left.
pub open spec fn no_duplicates(ts: Seq<TsModel>) -> bool {
    forall|i: int, j: int| 0 <= i < j < ts.len() ==> !model_eq(#[trigger] ts[i], #[trigger] ts[j])
}

proof fn lemma_push_unique_no_dup(acc: Seq<TsModel>, t: TsModel)
    requires
        no_duplicates(acc),
    ensures
        no_duplicates(push_unique(acc, t)),
{
    let r = push_unique(acc, t);
    if !contains_eq(acc, t) {
        assert forall|i: int, j: int| 0 <= i < j < r.len() implies !model_eq(#[trigger] r[i], #[trigger] r[j]) by {
            if j == acc.len() {
                assert(r[i] == acc[i]);
            } else {
                assert(r[i] == acc[i] && r[j] == acc[j]);
            }
        }
    }
}

proof fn lemma_push_all_unique_no_dup(acc: Seq<TsModel>, ts: Seq<TsModel>)
    requires
        no_duplicates(acc),
    ensures
        no_duplicates(push_all_unique(acc, ts)),
    decreases ts.len(),
{
    if ts.len() > 0 {
        lemma_push_all_unique_no_dup(acc, ts.drop_last());
        lemma_push_unique_no_dup(push_all_unique(acc, ts.drop_last()), ts.last());
    }
}

proof fn lemma_unify_members_no_dup(ts: Seq<TsModel>, is_union: bool, skip_undefined: bool)
    ensures
        no_duplicates(unify_members(ts, is_union, skip_undefined)),
    decreases ts.len(),
{
    if ts.len() == 0 {
        assert(no_duplicates(Seq::<TsModel>::empty()));
    } else {
        lemma_unify_members_no_dup(ts.drop_last(), is_union, skip_undefined);
        let prev = unify_members(ts.drop_last(), is_union, skip_undefined);
        if !(skip_undefined && ts.last() is Undefined) {
            let u = unified(ts.last());
            match u {
                TsModel::Union(inner) => if is_union {
                    lemma_push_all_unique_no_dup(prev, inner);
                } else {
                    lemma_push_unique_no_dup(prev, u);
                },
                TsModel::Intersection(inner) => if !is_union {
                    lemma_push_all_unique_no_dup(prev, inner);
                } else {
                    lemma_push_unique_no_dup(prev, u);
                },
                _ => {
                    lemma_push_unique_no_dup(prev, u);
                },
            }
        }
    }
}

/// No two members of a cleaned-up union or intersection compare equal.
pub proof fn law_unified_no_duplicates(m: TsModel)
    ensures
        unified(m) matches TsModel::Union(xs) ==> no_duplicates(xs),
        unified(m) matches TsModel::Intersection(xs) ==> no_duplicates(xs),
{
    match m {
        TsModel::Union(ts) => lemma_unify_members_no_dup(ts, true, false),
        TsModel::Intersection(ts) => lemma_unify_members_no_dup(ts, false, false),
        TsModel::Partial(t) => match *t {
            TsModel::Union(ts) => lemma_unify_members_no_dup(ts, true, true),
            _ => {},
        },
        _ => {},
    }
}

/// Whether a union holds no union and no two equal members, and an intersection holds no
/// intersection and no two equal members.
pub open spec fn union_clean(m: TsModel) -> bool {
    match m {
        TsModel::Union(xs) => !has_nested(xs, true) && no_duplicates(xs),
        TsModel::Intersection(xs) => !has_nested(xs, false) && no_duplicates(xs),
        _ => true,
    }
}

/// Whether every union and intersection inside the type, at any depth through unions,
/// intersections, arrays, records, tuples, interface members, `Partial` and `ReadOnly`, holds
/// no nested union (intersection) and no duplicate member.
pub open spec fn deeply_clean(m: TsModel) -> bool
    decreases m,
{
    &&& union_clean(m)
    &&& match m {
        TsModel::Union(xs) => forall|i: int| 0 <= i < xs.len() ==> deeply_clean(#[trigger] xs[i]),
        TsModel::Intersection(xs) => forall|i: int| 0 <= i < xs.len() ==> deeply_clean(#[trigger] xs[i]),
        TsModel::Array(t, _) => deeply_clean(*t),
        TsModel::Record(k, v) => deeply_clean(*k) && deeply_clean(*v),
        TsModel::Tuple(items) => forall|i: int| 0 <= i < items.len() ==> deeply_clean(#[trigger] items[i].0),
        TsModel::Interface(members, _) => forall|i: int|
            0 <= i < members.len() ==> deeply_clean(#[trigger] members[i].1),
        TsModel::Partial(t) => deeply_clean(*t),
        TsModel::ReadOnly(t) => deeply_clean(*t),
        _ => true,
    }
}

/// Whether every type of the list is deeply clean.
pub open spec fn all_deeply_clean(ts: Seq<TsModel>) -> bool {
    forall|i: int| 0 <= i < ts.len() ==> deeply_clean(#[trigger] ts[i])
}

proof fn lemma_push_unique_deep(acc: Seq<TsModel>, t: TsModel)
    requires
        all_deeply_clean(acc),
        deeply_clean(t),
    ensures
        all_deeply_clean(push_unique(acc, t)),
{
    let r = push_unique(acc, t);
    assert forall|i: int| 0 <= i < r.len() implies deeply_clean(#[trigger] r[i]) by {
        if i < acc.len() {
            assert(r[i] == acc[i]);
        }
    }
}

proof fn lemma_push_all_unique_deep(acc: Seq<TsModel>, ts: Seq<TsModel>)
    requires
        all_deeply_clean(acc),
        all_deeply_clean(ts),
    ensures
        all_deeply_clean(push_all_unique(acc, ts)),
    decreases ts.len(),
{
    if ts.len() > 0 {
        assert(all_deeply_clean(ts.drop_last())) by {
            assert forall|i: int| 0 <= i < ts.drop_last().len() implies deeply_clean(#[trigger] ts.drop_last()[i]) by {
                assert(ts.drop_last()[i] == ts[i]);
            }
        }
        lemma_push_all_unique_deep(acc, ts.drop_last());
        assert(deeply_clean(ts[ts.len() - 1]));
        lemma_push_unique_deep(push_all_unique(acc, ts.drop_last()), ts.last());
    }
}

proof fn lemma_unify_members_deep(ts: Seq<TsModel>, is_union: bool, skip_undefined: bool)
    requires
        forall|j: int| 0 <= j < ts.len() ==> deeply_clean(unified(#[trigger] ts[j])),
    ensures
        all_deeply_clean(unify_members(ts, is_union, skip_undefined)),
    decreases ts.len(),
{
    if ts.len() == 0 {
        assert(all_deeply_clean(Seq::<TsModel>::empty()));
    } else {
        assert forall|j: int| 0 <= j < ts.drop_last().len() implies deeply_clean(
            unified(#[trigger] ts.drop_last()[j]),
        ) by {
            assert(ts.drop_last()[j] == ts[j]);
        }
        lemma_unify_members_deep(ts.drop_last(), is_union, skip_undefined);
        let prev = unify_members(ts.drop_last(), is_union, skip_undefined);
        if !(skip_undefined && ts.last() is Undefined) {
            let u = unified(ts.last());
            assert(deeply_clean(unified(ts[ts.len() - 1])));
            match u {
                TsModel::Union(inner) => if is_union {
                    assert(all_deeply_clean(inner));
                    lemma_push_all_unique_deep(prev, inner);
                } else {
                    lemma_push_unique_deep(prev, u);
                },
                TsModel::Intersection(inner) => if !is_union {
                    assert(all_deeply_clean(inner));
                    lemma_push_all_unique_deep(prev, inner);
                } else {
                    lemma_push_unique_deep(prev, u);
                },
                _ => {
                    lemma_push_unique_deep(prev, u);
                },
            }
        }
    }
}

/// A cleaned-up type is clean all the way down: no union or intersection inside it, at any
/// depth (array elements, record keys and values, tuple items, interface members, `Partial`
/// and `ReadOnly` included), directly holds a nested union (intersection) or two equal
/// members.
pub proof fn law_unified_deeply_clean(m: TsModel)
    ensures
        deeply_clean(unified(m)),
    decreases m,
{
    match m {
        TsModel::Union(ts) => {
            assert forall|j: int| 0 <= j < ts.len() implies deeply_clean(unified(#[trigger] ts[j])) by {
                law_unified_deeply_clean(ts[j]);
            }
            lemma_unify_members_deep(ts, true, false);
            lemma_unify_members_flat(ts, true, false);
            lemma_unify_members_no_dup(ts, true, false);
            let xs = unify_members(ts, true, false);
            assert(unified(m) == TsModel::Union(xs));
            assert(union_clean(TsModel::Union(xs)));
            assert(forall|i: int| 0 <= i < xs.len() ==> deeply_clean(#[trigger] xs[i]));
        },
        TsModel::Intersection(ts) => {
            assert forall|j: int| 0 <= j < ts.len() implies deeply_clean(unified(#[trigger] ts[j])) by {
                law_unified_deeply_clean(ts[j]);
            }
            lemma_unify_members_deep(ts, false, false);
            lemma_unify_members_flat(ts, false, false);
            lemma_unify_members_no_dup(ts, false, false);
            let xs = unify_members(ts, false, false);
            assert(unified(m) == TsModel::Intersection(xs));
            assert(union_clean(TsModel::Intersection(xs)));
            assert(forall|i: int| 0 <= i < xs.len() ==> deeply_clean(#[trigger] xs[i]));
        },
        TsModel::Array(t, n) => {
            law_unified_deeply_clean(*t);
        },
        TsModel::Record(k, v) => {
            law_unified_deeply_clean(*k);
            law_unified_deeply_clean(*v);
        },
        TsModel::Tuple(items) => {
            let r = unified(m);
            assert forall|i: int| 0 <= i < r->Tuple_0.len() implies deeply_clean(#[trigger] r->Tuple_0[i].0) by {
                law_unified_deeply_clean(items[i].0);
            }
        },
        TsModel::Interface(members, extends) => {
            let r = unified(m);
            assert forall|i: int| 0 <= i < r->Interface_0.len() implies deeply_clean(
                #[trigger] r->Interface_0[i].1,
            ) by {
                law_unified_deeply_clean(members[i].1);
            }
        },
        TsModel::Partial(t) => {
            match *t {
                TsModel::Union(ts) => {
                    assert forall|j: int| 0 <= j < ts.len() implies deeply_clean(unified(#[trigger] ts[j])) by {
                        law_unified_deeply_clean(ts[j]);
                    }
                    lemma_unify_members_deep(ts, true, true);
                    lemma_unify_members_flat(ts, true, true);
                    lemma_unify_members_no_dup(ts, true, true);
                    let xs = unify_members(ts, true, true);
                    assert(union_clean(TsModel::Union(xs)));
                    assert(forall|i: int| 0 <= i < xs.len() ==> deeply_clean(#[trigger] xs[i]));
                    assert(deeply_clean(TsModel::Union(xs)));
                },
                _ => {
                    law_unified_deeply_clean(*t);
                },
            }
        },
        TsModel::ReadOnly(t) => {
            law_unified_deeply_clean(*t);
        },
        _ => {},
    }
}

/// Making a type optional gives an optional type, and a type that is optional already is
/// left as it is.
pub proof fn law_into_optional(m: TsModel)
    ensures
        model_is_optional(model_into_optional(m)),
        model_is_optional(m) ==> model_into_optional(m) == m,
{
    if !model_is_optional(m) {
        let r = model_into_optional(m);
        let xs = r->Union_0;
        assert(xs[xs.len() - 1] is Undefined);
    }
}

/// Making a type nullable gives a nullable type, and a type that is nullable already is left
/// as it is.
pub proof fn law_into_nullable(m: TsModel)
    ensures
        model_is_nullable(model_into_nullable(m)),
        model_is_nullable(m) ==> model_into_nullable(m) == m,
{
    if !model_is_nullable(m) {
        let r = model_into_nullable(m);
        let xs = r->Union_0;
        assert(xs[xs.len() - 1] is Null);
    }
}

/// What is taken out of an optional type holds no `undefined`.
pub proof fn law_take_optional_removes_undefined(m: TsModel)
    ensures
        model_take_optional(m) matches Some(TsModel::Union(xs)) ==> forall|i: int|
            0 <= i < xs.len() ==> !(#[trigger] xs[i] is Undefined),
{
    if model_is_optional(m) {
        lemma_without_undefined_has_none(m->Union_0);
    }
}

proof fn lemma_without_undefined_has_none(ts: Seq<TsModel>)
    ensures
        forall|i: int| 0 <= i < without_undefined(ts).len() ==> !(#[trigger] without_undefined(ts)[i] is Undefined),
    decreases ts.len(),
{
    if ts.len() > 0 {
        lemma_without_undefined_has_none(ts.drop_last());
    }
}

/// The text between double quotes.
pub open spec fn quoted(t: Seq<char>) -> Seq<char> {
    seq!['"'] + t + seq!['"']
}

/// How a discriminator is written in TypeScript: a decimal or hexadecimal number, in quotes
/// when JavaScript cannot hold it exactly, or a string in quotes.
pub open spec fn disc_text(d: DiscriminatorModel) -> Seq<char> {
    match d {
        DiscriminatorModel::Simple(i) => {
            let mag: nat = if i < 0 {
                (-i) as nat
            } else {
                i as nat
            };
            let t = (if i < 0 {
                seq!['-']
            } else {
                Seq::empty()
            }) + ascii_text(digits_bytes(mag, 10));
            if mag > MAX_SAFE_NUMBER {
                quoted(t)
            } else {
                t
            }
        },
        DiscriminatorModel::BinaryHex(u) => {
            let t = seq!['0', 'x'] + ascii_text(digits_bytes(u as nat, 16));
            if u > MAX_SAFE_NUMBER {
                quoted(t)
            } else {
                t
            }
        },
        DiscriminatorModel::Text(s) => quoted(s),
    }
}

impl Discriminator {
    /// How the discriminator is written in TypeScript: a decimal or hexadecimal number, in
    /// quotes when JavaScript cannot hold it exactly, or a string in quotes.
    pub fn to_string(&self) -> (r: String)
        ensures
            r@ == disc_text(self@),
    {
        proof {
            reveal_strlit("\"");
            reveal_strlit("-");
            reveal_strlit("0x");
        }
        match *self {
            Discriminator::Simple(i) => {
                let negative = i < 0;
                let mag: u64 = if negative {
                    (0i128 - i as i128) as u64
                } else {
                    i as u64
                };
                let digits = digits(mag as u128, 10);
                let mut t = String::new();
                if negative {
                    t.append("-");
                }
                t.append(ascii_string(digits.as_slice()).as_str());
                if mag > MAX_SAFE_NUMBER {
                    let mut q = String::new();
                    q.append("\"");
                    q.append(t.as_str());
                    q.append("\"");
                    q
                } else {
                    t
                }
            },
            Discriminator::BinaryHex(b) => {
                let u = b.0;
                let digits = digits(u, 16);
                let mut t = String::new();
                t.append("0x");
                t.append(ascii_string(digits.as_slice()).as_str());
                if u > MAX_SAFE_NUMBER as u128 {
                    let mut q = String::new();
                    q.append("\"");
                    q.append(t.as_str());
                    q.append("\"");
                    q
                } else {
                    t
                }
            },
            Discriminator::String(s) => {
                let mut q = String::new();
                q.append("\"");
                q.append(s);
                q.append("\"");
                q
            },
        }
    }
}

} // verus!
