//! What deriving a TypeScript definition for a Rust type registers and returns, decided from a
//! description of the type: its fields or variants, their serialized names and serde
//! attributes, and the TypeScript types that registering each field's own type gave.
//!
//! Reading the Rust item and its attributes, and emitting the `register` function, are left to
//! the derive macro: it describes the item with the types of this module and calls
//! [`struct_definition`] or [`enum_definition`].

use vstd::prelude::*;
use vstd::string::StringSliceAdditionalSpecFns;

use crate::ts_bindgen::ty::{
    enum_entries_view, flatten_accepts, lemma_view_members, model_flatten, model_into_optional_internal, ts_clone, ts_view,
    ts_views, Discriminator, DiscriminatorModel, TsModel, TypeScriptType,
};

verus! {

/// How serde tags the variants of an enum.
#[derive(Debug, Clone)]
pub enum TagStyle {
    /// `{ "variant": content }`
    External,
    /// `{ tag: "variant", ...content }`
    Internal { tag: String },
    /// `{ tag: "variant", content: content }`
    Adjacent { tag: String, content: String },
    /// `content`
    Untagged,
}

/// A field of a struct or of an enum variant.
#[derive(Debug)]
pub struct FieldDesc {
    /// Serialized name of the field, after the rename rules (unused for tuple fields).
    pub name: String,
    /// The type that registering the field's Rust type gave.
    pub ty: TypeScriptType,
    /// Whether the field's Rust type is an `Option`.
    pub is_option: bool,
    /// Whether serde may skip the field when serializing (`skip_serializing` or
    /// `skip_serializing_if`).
    pub skipped: bool,
    /// Whether the field or its container has a serde default.
    pub has_default: bool,
    /// Whether the field is flattened into its container.
    pub flatten: bool,
    /// Doc comment of the field.
    pub comment: String,
}

/// The fields of a struct or of an enum variant.
#[derive(Debug)]
pub enum FieldsDesc {
    Unit,
    Named(Vec<FieldDesc>),
    Unnamed(Vec<FieldDesc>),
}

/// A variant of an enum.
#[derive(Debug)]
pub struct VariantDesc {
    /// Rust name of the variant.
    pub ident: String,
    /// Serialized name of the variant, after the rename rules.
    pub name: &'static str,
    /// Name under which the variant's own interface is registered: the enum's name followed by
    /// the variant's.
    pub interface: &'static str,
    /// Doc comment of the variant.
    pub comment: String,
    /// The explicit discriminant, if any: the literal, when it is one.
    pub discriminant: Option<Option<Discriminator>>,
    pub fields: FieldsDesc,
}

/// Why a type gets no TypeScript definition.
#[derive(Debug, Clone, Copy, PartialEq, Eq, Structural)]
pub enum DeriveError {
    /// A field may be skipped when serializing but has no default value.
    SkipWithoutDefault,
    /// A unit variant of an externally tagged enum that has variants with fields: the
    /// generated code builds its interface from members without comments, and does not
    /// compile.
    ExternalUnitVariant,
    /// A tuple variant of more than one field in an externally tagged enum: the generated code
    /// registers its tuple without a comment, and does not compile.
    ExternalTupleVariant,
    /// A tuple variant of more than one field in an internally tagged enum.
    InternalTagOnTupleVariant,
}

/// What registering a type does: the types it registers, in order, each with its name and
/// comment, and the type it returns.
#[derive(Debug)]
pub struct Definition {
    pub registrations: Vec<(&'static str, TypeScriptType, String)>,
    pub ty: TypeScriptType,
}

/// A registration, with strings as characters.
pub type RegModel = (Seq<char>, TsModel, Seq<char>);

/// The registrations, with strings as characters.
pub open spec fn regs_view(v: Seq<(&'static str, TypeScriptType, String)>) -> Seq<RegModel> {
    Seq::new(v.len(), |i: int| (v[i].0@, ts_view(v[i].1), v[i].2@))
}

/// The members of an interface, with strings as characters.
pub open spec fn members_view(v: Seq<(String, TypeScriptType, String)>) -> Seq<(Seq<char>, TsModel, Seq<char>)> {
    Seq::new(v.len(), |i: int| (v[i].0@, ts_view(v[i].1), v[i].2@))
}

/// The fields of a tuple, with strings as characters.
pub open spec fn tuple_view(v: Seq<(TypeScriptType, String)>) -> Seq<(TsModel, Seq<char>)> {
    Seq::new(v.len(), |i: int| (ts_view(v[i].0), v[i].1@))
}

/// A definition or an error, with strings as characters.
pub open spec fn definition_view(r: Result<Definition, DeriveError>) -> Result<(Seq<RegModel>, TsModel), DeriveError> {
    match r {
        Ok(d) => Ok((regs_view(d.registrations@), d.ty@)),
        Err(e) => Err(e),
    }
}

/// The type that a field contributes: a field that may be skipped becomes optional.
pub open spec fn field_type(f: FieldDesc) -> TsModel {
    if f.skipped {
        model_into_optional_internal(f.ty@, f.is_option)
    } else {
        f.ty@
    }
}

/// Whether the field may be skipped while it has no default value.
pub open spec fn field_refused(f: FieldDesc) -> bool {
    f.skipped && !f.has_default
}

/// Whether one of the fields may be skipped while it has no default value.
pub open spec fn any_refused(fs: Seq<FieldDesc>) -> bool {
    exists|i: int| 0 <= i < fs.len() && field_refused(#[trigger] fs[i])
}

/// The members that named fields give, in order: each field that is not flattened, by its
/// serialized name, with its type and comment.
pub open spec fn named_members(fs: Seq<FieldDesc>) -> Seq<(Seq<char>, TsModel, Seq<char>)>
    decreases fs.len(),
{
    if fs.len() == 0 {
        Seq::empty()
    } else {
        let rest = named_members(fs.drop_last());
        if fs.last().flatten {
            rest
        } else {
            rest.push((fs.last().name@, field_type(fs.last()), fs.last().comment@))
        }
    }
}

/// The types of the flattened fields, in order.
pub open spec fn flattened_types(fs: Seq<FieldDesc>) -> Seq<TsModel>
    decreases fs.len(),
{
    if fs.len() == 0 {
        Seq::empty()
    } else {
        let rest = flattened_types(fs.drop_last());
        if fs.last().flatten {
            rest.push(field_type(fs.last()))
        } else {
            rest
        }
    }
}

/// The type with each of the types merged into it, in order.
#[verifier::opaque]
pub open spec fn flatten_all(into: TsModel, ts: Seq<TsModel>) -> TsModel
    decreases ts.len(),
{
    if ts.len() == 0 {
        into
    } else {
        model_flatten(flatten_all(into, ts.drop_last()), ts.last())
    }
}

/// Whether each of the types, in order, can be merged into what the ones before it made.
pub open spec fn flatten_all_accepts(into: TsModel, ts: Seq<TsModel>) -> bool {
    forall|i: int| 0 <= i < ts.len() ==> flatten_accepts(flatten_all(into, ts.take(i)), #[trigger] ts[i])
}

/// The interface of named fields: their members, with the flattened fields merged in.
pub open spec fn named_interface(fs: Seq<FieldDesc>) -> TsModel {
    flatten_all(TsModel::Interface(named_members(fs), Seq::empty()), flattened_types(fs))
}

/// Whether the flattened fields of named fields can be merged into their interface.
pub open spec fn named_fields_mergeable(fs: Seq<FieldDesc>) -> bool {
    flatten_all_accepts(TsModel::Interface(named_members(fs), Seq::empty()), flattened_types(fs))
}

/// The fields of a tuple: the type and comment of each field.
pub open spec fn tuple_fields(fs: Seq<FieldDesc>) -> Seq<(TsModel, Seq<char>)> {
    Seq::new(fs.len(), |i: int| (field_type(fs[i]), fs[i].comment@))
}

/// Two comments joined by a line break, when both are present.
pub open spec fn join_comments(a: Seq<char>, b: Seq<char>) -> Seq<char> {
    if a.len() > 0 && b.len() > 0 {
        a + seq!['\n'] + b
    } else {
        a + b
    }
}

/// What deriving a definition for a struct gives.
///
/// A unit struct is `null`; a struct of one unnamed field is that field's type, with the
/// comments of the struct and the field joined; a struct of other unnamed fields is a tuple;
/// a struct of named fields is an interface of its members with its flattened fields merged
/// in. Unless inlined, the type is registered under the struct's name, which is returned.
pub open spec fn spec_struct_definition(name: Seq<char>, comment: Seq<char>, inline: bool, fields: FieldsDesc) -> Result<
    (Seq<RegModel>, TsModel),
    DeriveError,
> {
    match fields {
        FieldsDesc::Unit => if inline {
            Ok((Seq::empty(), TsModel::Null))
        } else {
            Ok((seq![(name, TsModel::Null, comment)], TsModel::Named(name)))
        },
        FieldsDesc::Unnamed(fs) => if any_refused(fs@) {
            Err(DeriveError::SkipWithoutDefault)
        } else if fs@.len() == 1 {
            if inline {
                Ok((Seq::empty(), field_type(fs@[0])))
            } else {
                Ok(
                    (
                        seq![(name, field_type(fs@[0]), join_comments(comment, fs@[0].comment@))],
                        TsModel::Named(name),
                    ),
                )
            }
        } else {
            Ok((seq![(name, TsModel::Tuple(tuple_fields(fs@)), comment)], TsModel::Named(name)))
        },
        FieldsDesc::Named(fs) => if any_refused(fs@) {
            Err(DeriveError::SkipWithoutDefault)
        } else {
            Ok((seq![(name, named_interface(fs@), comment)], TsModel::Named(name)))
        },
    }
}

/// Whether the struct's flattened fields can be merged where its definition merges them.
pub open spec fn struct_mergeable(fields: FieldsDesc) -> bool {
    fields matches FieldsDesc::Named(fs) ==> (!any_refused(fs@) ==> named_fields_mergeable(fs@))
}

/// The string literal type of a variant's serialized name.
pub open spec fn name_literal(v: VariantDesc) -> TsModel {
    TsModel::Text(Some(v.name@))
}

/// Whether a variant has a field that may be skipped while it has no default value.
pub open spec fn variant_refused(v: VariantDesc) -> bool {
    match v.fields {
        FieldsDesc::Unit => false,
        FieldsDesc::Named(fs) => any_refused(fs@),
        FieldsDesc::Unnamed(fs) => any_refused(fs@),
    }
}

/// What one variant of an enum with fields gives: the types it registers, and the member it
/// adds to the union of the enum, if any.
pub open spec fn variant_outcome(tag: TagStyle, v: VariantDesc) -> Result<(Seq<RegModel>, Option<TsModel>), DeriveError> {
    let lit = name_literal(v);
    match v.fields {
        FieldsDesc::Unit => match tag {
            TagStyle::External => Err(DeriveError::ExternalUnitVariant),
            TagStyle::Internal { tag } => Ok(
                (Seq::empty(), Some(TsModel::Interface(seq![(tag@, lit, v.comment@)], Seq::empty()))),
            ),
            TagStyle::Adjacent { tag, content } => Ok(
                (
                    Seq::empty(),
                    Some(
                        TsModel::Interface(
                            seq![(tag@, lit, v.comment@), (content@, TsModel::Null, Seq::empty())],
                            Seq::empty(),
                        ),
                    ),
                ),
            ),
            TagStyle::Untagged => Ok((Seq::empty(), Some(TsModel::Null))),
        },
        FieldsDesc::Named(fs) => if any_refused(fs@) {
            Err(DeriveError::SkipWithoutDefault)
        } else {
            let reg = seq![(v.interface@, named_interface(fs@), v.comment@)];
            let named = TsModel::Named(v.interface@);
            match tag {
                TagStyle::External => Ok(
                    (reg, Some(TsModel::Interface(seq![(v.name@, named, v.comment@)], Seq::empty()))),
                ),
                TagStyle::Internal { .. } => Ok((Seq::empty(), None)),
                TagStyle::Adjacent { tag, content } => Ok(
                    (
                        reg,
                        Some(
                            TsModel::Interface(
                                seq![(tag@, lit, Seq::empty()), (content@, named, Seq::empty())],
                                Seq::empty(),
                            ),
                        ),
                    ),
                ),
                TagStyle::Untagged => Ok((reg, Some(named))),
            }
        },
        FieldsDesc::Unnamed(fs) => if any_refused(fs@) {
            Err(DeriveError::SkipWithoutDefault)
        } else if fs@.len() == 1 {
            let ft = field_type(fs@[0]);
            let fc = fs@[0].comment@;
            match tag {
                TagStyle::External => Ok((Seq::empty(), Some(TsModel::Interface(seq![(v.name@, ft, fc)], Seq::empty())))),
                TagStyle::Internal { tag } => Ok(
                    (Seq::empty(), Some(model_flatten(TsModel::Interface(seq![(tag@, lit, fc)], Seq::empty()), ft))),
                ),
                TagStyle::Adjacent { tag, content } => Ok(
                    (
                        Seq::empty(),
                        Some(TsModel::Interface(seq![(tag@, lit, Seq::empty()), (content@, ft, fc)], Seq::empty())),
                    ),
                ),
                TagStyle::Untagged => Ok((Seq::empty(), Some(ft))),
            }
        } else {
            let reg = seq![(v.interface@, TsModel::Tuple(tuple_fields(fs@)), v.comment@)];
            let named = TsModel::Named(v.interface@);
            match tag {
                TagStyle::External => Err(DeriveError::ExternalTupleVariant),
                TagStyle::Internal { .. } => Err(DeriveError::InternalTagOnTupleVariant),
                TagStyle::Adjacent { tag, content } => Ok(
                    (
                        reg,
                        Some(
                            TsModel::Interface(
                                seq![(tag@, lit, Seq::empty()), (content@, named, Seq::empty())],
                                Seq::empty(),
                            ),
                        ),
                    ),
                ),
                TagStyle::Untagged => Ok((reg, Some(named))),
            }
        },
    }
}

/// Whether a variant's flattened fields can be merged where its definition merges them.
pub open spec fn variant_mergeable(tag: TagStyle, v: VariantDesc) -> bool {
    match v.fields {
        FieldsDesc::Unit => true,
        FieldsDesc::Named(fs) => !any_refused(fs@) && !(tag is Internal) ==> named_fields_mergeable(fs@),
        FieldsDesc::Unnamed(fs) => (!any_refused(fs@) && fs@.len() == 1 && tag is Internal) ==> flatten_accepts(
            TsModel::Interface(seq![(tag->Internal_tag@, name_literal(v), fs@[0].comment@)], Seq::empty()),
            field_type(fs@[0]),
        ),
    }
}

/// What the variants give together, in order: the first error, or the registrations of all
/// of them and the members they add to the union.
pub open spec fn variants_outcome(tag: TagStyle, vs: Seq<VariantDesc>) -> Result<(Seq<RegModel>, Seq<TsModel>), DeriveError>
    decreases vs.len(),
{
    if vs.len() == 0 {
        Ok((Seq::empty(), Seq::empty()))
    } else {
        match variants_outcome(tag, vs.drop_last()) {
            Err(e) => Err(e),
            Ok((regs, members)) => match variant_outcome(tag, vs.last()) {
                Err(e) => Err(e),
                Ok((more, member)) => Ok(
                    (
                        regs + more,
                        match member {
                            Some(t) => members.push(t),
                            None => members,
                        },
                    ),
                ),
            },
        }
    }
}

/// Whether every variant is a unit variant.
pub open spec fn all_unit(vs: Seq<VariantDesc>) -> bool {
    forall|i: int| 0 <= i < vs.len() ==> (#[trigger] vs[i]).fields is Unit
}

/// Whether a variant has an explicit discriminant.
pub open spec fn any_discriminant(vs: Seq<VariantDesc>) -> bool {
    exists|i: int| 0 <= i < vs.len() && (#[trigger] vs[i]).discriminant is Some
}

/// Whether a variant has a field that may be skipped while it has no default value.
pub open spec fn any_variant_refused(vs: Seq<VariantDesc>) -> bool {
    exists|i: int| 0 <= i < vs.len() && variant_refused(#[trigger] vs[i])
}

/// The entries of an enum of string values: each variant by its Rust name, valued by its
/// serialized name.
pub open spec fn string_entries(vs: Seq<VariantDesc>) -> Seq<(Seq<char>, Option<DiscriminatorModel>, Seq<char>)> {
    Seq::new(vs.len(), |i: int| (vs[i].ident@, Some(DiscriminatorModel::Text(vs[i].name@)), vs[i].comment@))
}

/// The entries of a `const enum`: each variant by its Rust name, valued by its literal
/// discriminant, if it has one.
pub open spec fn const_entries(vs: Seq<VariantDesc>) -> Seq<(Seq<char>, Option<DiscriminatorModel>, Seq<char>)> {
    Seq::new(
        vs.len(),
        |i: int|
            (
                vs[i].ident@,
                match vs[i].discriminant {
                    Some(Some(d)) => Some(d@),
                    _ => None,
                },
                vs[i].comment@,
            ),
    )
}

/// What deriving a definition for an enum gives.
///
/// An enum of unit variants only is a TypeScript enum of string values, or a `const enum`
/// when a variant has an explicit discriminant. Otherwise a field that may be skipped without
/// a default refuses the enum; failing that, the variants, in order, give the registrations
/// of their own interfaces and the members of the union that is registered under the enum's
/// name. The enum's name is returned.
pub open spec fn spec_enum_definition(name: Seq<char>, comment: Seq<char>, tag: TagStyle, vs: Seq<VariantDesc>) -> Result<
    (Seq<RegModel>, TsModel),
    DeriveError,
> {
    if all_unit(vs) {
        let ty = if any_discriminant(vs) {
            TsModel::ConstEnum(const_entries(vs))
        } else {
            TsModel::Enum(string_entries(vs))
        };
        Ok((seq![(name, ty, comment)], TsModel::Named(name)))
    } else if any_variant_refused(vs) {
        Err(DeriveError::SkipWithoutDefault)
    } else {
        match variants_outcome(tag, vs) {
            Err(e) => Err(e),
            Ok((regs, members)) => Ok((regs.push((name, TsModel::Union(members), comment)), TsModel::Named(name))),
        }
    }
}

/// Whether `m` is the externally tagged form of the variant `v`: an interface with no
/// extension and exactly one member, keyed by the variant's serialized name and holding the
/// variant's content: the variant's own interface for named fields, the field's type for a
/// single unnamed field.
pub open spec fn keyed_by_variant(m: TsModel, v: VariantDesc) -> bool {
    &&& m matches TsModel::Interface(members, extends)
    &&& extends.len() == 0
    &&& members.len() == 1
    &&& members[0].0 == v.name@
    &&& v.fields is Named ==> members[0].1 == TsModel::Named(v.interface@)
    &&& v.fields matches FieldsDesc::Unnamed(fs) ==> (fs@.len() == 1 ==> members[0].1 == field_type(fs@[0]))
}

proof fn lemma_external_variants_keyed(vs: Seq<VariantDesc>)
    ensures
        variants_outcome(TagStyle::External, vs) matches Ok((regs, ms)) ==> ms.len() == vs.len() && forall|i: int|
            0 <= i < vs.len() ==> keyed_by_variant(#[trigger] ms[i], vs[i]),
    decreases vs.len(),
{
    if vs.len() > 0 {
        lemma_external_variants_keyed(vs.drop_last());
        if variants_outcome(TagStyle::External, vs) is Ok {
            let (regs, ms) = variants_outcome(TagStyle::External, vs)->Ok_0;
            let (regs0, ms0) = variants_outcome(TagStyle::External, vs.drop_last())->Ok_0;
            let v = vs.last();
            let out = variant_outcome(TagStyle::External, v);
            assert(out is Ok);
            assert(out->Ok_0.1 is Some);
            assert(ms == ms0.push(out->Ok_0.1->Some_0));
            assert(keyed_by_variant(out->Ok_0.1->Some_0, v));
            assert forall|i: int| 0 <= i < vs.len() implies keyed_by_variant(#[trigger] ms[i], vs[i]) by {
                if i < vs.len() - 1 {
                    assert(vs.drop_last()[i] == vs[i]);
                    assert(ms[i] == ms0[i]);
                }
            }
        }
    }
}

/// With serde's default external tagging, an enum that has variants with fields is the union
/// of one member per variant, in order, each an interface of a single member keyed by the
/// variant's serialized name and holding the variant's content.
pub proof fn law_external_tagging_keys_variants(name: Seq<char>, comment: Seq<char>, vs: Seq<VariantDesc>)
    requires
        !all_unit(vs),
    ensures
        spec_enum_definition(name, comment, TagStyle::External, vs) matches Ok((regs, ty)) ==> {
            &&& ty == TsModel::Named(name)
            &&& regs.len() > 0
            &&& regs.last().0 == name
            &&& regs.last().1 matches TsModel::Union(ms)
            &&& ms.len() == vs.len()
            &&& forall|i: int| 0 <= i < vs.len() ==> keyed_by_variant(#[trigger] ms[i], vs[i])
        },
{
    lemma_external_variants_keyed(vs);
}

/// Whether the enum's flattened fields can be merged where its definition merges them.
pub open spec fn enum_mergeable(tag: TagStyle, vs: Seq<VariantDesc>) -> bool {
    forall|i: int| 0 <= i < vs.len() ==> variant_mergeable(tag, #[trigger] vs[i])
}

/// The model of an interface is made of the models of its members and extensions.
proof fn lemma_interface_view(t: TypeScriptType)
    requires
        t is Interface,
    ensures
        t@ == TsModel::Interface(members_view(t->members@), ts_views(t->extends@)),
{
    assert(t@->Interface_0 =~= members_view(t->members@));
    assert(t@->Interface_1 =~= ts_views(t->extends@));
}

/// The model of a tuple is made of the models of its fields.
proof fn lemma_tuple_view(t: TypeScriptType)
    requires
        t is Tuple,
    ensures
        t@ == TsModel::Tuple(tuple_view(t->Tuple_0@)),
{
    assert(t@->Tuple_0 =~= tuple_view(t->Tuple_0@));
}

/// The type that a field contributes.
fn field_ts(f: &FieldDesc) -> (r: TypeScriptType)
    ensures
        r@ == field_type(*f),
{
    let t = ts_clone(&f.ty);
    if f.skipped {
        t._into_optional_internal(f.is_option)
    } else {
        t
    }
}

/// Whether one of the fields may be skipped while it has no default value.
fn fields_refused(fs: &Vec<FieldDesc>) -> (r: bool)
    ensures
        r == any_refused(fs@),
{
    let mut i: usize = 0;
    while i < fs.len()
        invariant
            i <= fs@.len(),
            forall|j: int| 0 <= j < i ==> !field_refused(#[trigger] fs@[j]),
        decreases fs@.len() - i,
    {
        if fs[i].skipped && !fs[i].has_default {
            return true;
        }
        i += 1;
    }
    false
}

/// The members of named fields and the types of the flattened ones, in order.
fn named_parts(fs: &Vec<FieldDesc>) -> (r: (Vec<(String, TypeScriptType, String)>, Vec<TypeScriptType>))
    ensures
        members_view(r.0@) == named_members(fs@),
        ts_views(r.1@) == flattened_types(fs@),
{
    let mut members: Vec<(String, TypeScriptType, String)> = Vec::new();
    let mut flattened: Vec<TypeScriptType> = Vec::new();
    let mut i: usize = 0;
    while i < fs.len()
        invariant
            i <= fs@.len(),
            members_view(members@) == named_members(fs@.take(i as int)),
            ts_views(flattened@) == flattened_types(fs@.take(i as int)),
        decreases fs@.len() - i,
    {
        proof {
            assert(fs@.take(i + 1).drop_last() =~= fs@.take(i as int));
        }
        let t = field_ts(&fs[i]);
        if fs[i].flatten {
            let ghost before = flattened@;
            flattened.push(t);
            proof {
                assert(ts_views(flattened@) =~= ts_views(before).push(field_type(fs@[i as int])));
            }
        } else {
            let ghost before = members@;
            members.push((fs[i].name.clone(), t, fs[i].comment.clone()));
            proof {
                assert(members_view(members@) =~= members_view(before).push(
                    (fs@[i as int].name@, field_type(fs@[i as int]), fs@[i as int].comment@),
                ));
            }
        }
        i += 1;
    }
    proof {
        assert(fs@.take(fs@.len() as int) =~= fs@);
    }
    (members, flattened)
}

/// Merging one more type: it is accepted, and the result is that of merging it into what the
/// ones before it made.
proof fn lemma_flatten_step(b: TsModel, fl: Seq<TsModel>, k: int)
    requires
        flatten_all_accepts(b, fl),
        0 <= k < fl.len(),
    ensures
        flatten_accepts(flatten_all(b, fl.take(k)), fl[k]),
        flatten_all(b, fl.take(k + 1)) == model_flatten(flatten_all(b, fl.take(k)), fl[k]),
{
    reveal(flatten_all);
    assert(fl.take(k + 1).drop_last() =~= fl.take(k));
    assert(fl.take(k + 1).last() == fl[k]);
}

/// Merging no type leaves the type as it is.
proof fn lemma_flatten_none(b: TsModel, fl: Seq<TsModel>)
    ensures
        flatten_all(b, fl.take(0)) == b,
{
    reveal(flatten_all);
    assert(fl.take(0).len() == 0);
}

/// The type with each of the types merged into it, in order.
fn flatten_in(base: TypeScriptType, flattened: &Vec<TypeScriptType>) -> (r: TypeScriptType)
    requires
        flatten_all_accepts(base@, ts_views(flattened@)),
    ensures
        r@ == flatten_all(base@, ts_views(flattened@)),
{
    let ghost b = base@;
    let ghost fl = ts_views(flattened@);
    let mut acc = base;
    let mut k: usize = 0;
    proof {
        lemma_flatten_none(b, fl);
    }
    while k < flattened.len()
        invariant
            k <= flattened@.len(),
            fl == ts_views(flattened@),
            flatten_all_accepts(b, fl),
            acc@ == flatten_all(b, fl.take(k as int)),
        decreases flattened@.len() - k,
    {
        proof {
            lemma_flatten_step(b, fl, k as int);
        }
        let f = ts_clone(&flattened[k]);
        acc = acc.flatten(f);
        k += 1;
    }
    proof {
        assert(fl.take(fl.len() as int) =~= fl);
    }
    acc
}

/// The interface of named fields, with the flattened fields merged in.
fn named_fields_interface(fs: &Vec<FieldDesc>) -> (r: TypeScriptType)
    requires
        named_fields_mergeable(fs@),
    ensures
        r@ == named_interface(fs@),
{
    let (members, flattened) = named_parts(fs);
    let base = TypeScriptType::interface(members, flattened.len());
    proof {
        lemma_interface_view(base);
        assert(ts_views(base->extends@) =~= Seq::<TsModel>::empty());
    }
    flatten_in(base, &flattened)
}

/// The fields of a tuple: the type and comment of each field.
fn tuple_of(fs: &Vec<FieldDesc>) -> (r: Vec<(TypeScriptType, String)>)
    ensures
        tuple_view(r@) == tuple_fields(fs@),
{
    let mut r: Vec<(TypeScriptType, String)> = Vec::new();
    let mut i: usize = 0;
    while i < fs.len()
        invariant
            i <= fs@.len(),
            tuple_view(r@) == tuple_fields(fs@.take(i as int)),
        decreases fs@.len() - i,
    {
        let ghost before = r@;
        r.push((field_ts(&fs[i]), fs[i].comment.clone()));
        proof {
            assert(tuple_view(r@) =~= tuple_view(before).push((field_type(fs@[i as int]), fs@[i as int].comment@)));
            assert(tuple_fields(fs@.take(i + 1)) =~= tuple_fields(fs@.take(i as int)).push(
                (field_type(fs@[i as int]), fs@[i as int].comment@),
            ));
        }
        i += 1;
    }
    proof {
        assert(fs@.take(fs@.len() as int) =~= fs@);
    }
    r
}

/// The definition that registers one type under a name and returns that name.
fn register_named(name: &'static str, ty: TypeScriptType, comment: String) -> (r: Definition)
    ensures
        regs_view(r.registrations@) == seq![(name@, ty@, comment@)],
        r.ty@ == TsModel::Named(name@),
{
    let r = Definition { registrations: vec![(name, ty, comment)], ty: TypeScriptType::Named(name) };
    proof {
        assert(regs_view(r.registrations@) =~= seq![(name@, ty@, comment@)]);
    }
    r
}

/// Two comments joined by a line break, when both are present.
fn join_comment_text(a: &str, b: &str) -> (r: String)
    ensures
        r@ == join_comments(a@, b@),
{
    let mut c = String::from_str(a);
    if a.unicode_len() > 0 && b.unicode_len() > 0 {
        proof {
            reveal_strlit("\n");
        }
        c.append("\n");
    }
    c.append(b);
    c
}

/// The TypeScript definition that deriving it gives a struct named `name`, with the doc
/// comment `comment`, whose definition is inlined or not, and whose fields are `fields`.
pub fn struct_definition(name: &'static str, comment: &str, inline: bool, fields: &FieldsDesc) -> (r: Result<
    Definition,
    DeriveError,
>)
    requires
        struct_mergeable(*fields),
    ensures
        definition_view(r) == spec_struct_definition(name@, comment@, inline, *fields),
{
    match fields {
        FieldsDesc::Unit => {
            if inline {
                let r = Definition { registrations: Vec::new(), ty: TypeScriptType::Null };
                proof {
                    assert(regs_view(r.registrations@) =~= Seq::<RegModel>::empty());
                }
                Ok(r)
            } else {
                Ok(register_named(name, TypeScriptType::Null, String::from_str(comment)))
            }
        },
        FieldsDesc::Unnamed(fs) => {
            if fields_refused(fs) {
                return Err(DeriveError::SkipWithoutDefault);
            }
            if fs.len() == 1 {
                let t = field_ts(&fs[0]);
                if inline {
                    let r = Definition { registrations: Vec::new(), ty: t };
                    proof {
                        assert(regs_view(r.registrations@) =~= Seq::<RegModel>::empty());
                    }
                    Ok(r)
                } else {
                    let c = join_comment_text(comment, fs[0].comment.as_str());
                    Ok(register_named(name, t, c))
                }
            } else {
                let fields = tuple_of(fs);
                let t = TypeScriptType::Tuple(fields);
                proof {
                    lemma_tuple_view(t);
                }
                Ok(register_named(name, t, String::from_str(comment)))
            }
        },
        FieldsDesc::Named(fs) => {
            if fields_refused(fs) {
                return Err(DeriveError::SkipWithoutDefault);
            }
            let t = named_fields_interface(fs);
            Ok(register_named(name, t, String::from_str(comment)))
        },
    }
}

/// What one variant gives, with strings as characters.
pub open spec fn variant_plan_view(r: Result<(Vec<(&'static str, TypeScriptType, String)>, Option<TypeScriptType>), DeriveError>) -> Result<
    (Seq<RegModel>, Option<TsModel>),
    DeriveError,
> {
    match r {
        Ok((regs, member)) => Ok(
            (
                regs_view(regs@),
                match member {
                    Some(t) => Some(t@),
                    None => None,
                },
            ),
        ),
        Err(e) => Err(e),
    }
}

/// An interface of the given members and no extension.
fn plain_interface(members: Vec<(String, TypeScriptType, String)>) -> (r: TypeScriptType)
    ensures
        r@ == TsModel::Interface(members_view(members@), Seq::empty()),
{
    let r = TypeScriptType::interface(members, 0);
    proof {
        lemma_interface_view(r);
        assert(ts_views(r->extends@) =~= Seq::<TsModel>::empty());
    }
    r
}

/// The string literal type of a variant's serialized name.
fn name_literal_ts(v: &VariantDesc) -> (r: TypeScriptType)
    ensures
        r@ == name_literal(*v),
{
    TypeScriptType::string_value(String::from_str(v.name))
}

/// An interface of one member.
fn one_member(name: String, ty: TypeScriptType, comment: String) -> (r: TypeScriptType)
    ensures
        r@ == TsModel::Interface(seq![(name@, ty@, comment@)], Seq::empty()),
{
    let ghost m = (name@, ty@, comment@);
    let members = vec![(name, ty, comment)];
    proof {
        assert(members_view(members@) =~= seq![m]);
    }
    plain_interface(members)
}

/// An interface of two members.
fn two_members(a: (String, TypeScriptType, String), b: (String, TypeScriptType, String)) -> (r: TypeScriptType)
    ensures
        r@ == TsModel::Interface(seq![(a.0@, a.1@, a.2@), (b.0@, b.1@, b.2@)], Seq::empty()),
{
    let ghost ma = (a.0@, a.1@, a.2@);
    let ghost mb = (b.0@, b.1@, b.2@);
    let members = vec![a, b];
    proof {
        assert(members_view(members@) =~= seq![ma, mb]);
    }
    plain_interface(members)
}

/// One registration.
fn one_registration(name: &'static str, ty: TypeScriptType, comment: String) -> (r: Vec<(&'static str, TypeScriptType, String)>)
    ensures
        regs_view(r@) == seq![(name@, ty@, comment@)],
{
    let r = vec![(name, ty, comment)];
    proof {
        assert(regs_view(r@) =~= seq![(name@, ty@, comment@)]);
    }
    r
}

/// No registration.
fn no_registration() -> (r: Vec<(&'static str, TypeScriptType, String)>)
    ensures
        regs_view(r@) == Seq::<RegModel>::empty(),
{
    let r: Vec<(&'static str, TypeScriptType, String)> = Vec::new();
    proof {
        assert(regs_view(r@) =~= Seq::<RegModel>::empty());
    }
    r
}

/// What one variant of an enum with fields gives.
fn variant_plan(tag: &TagStyle, v: &VariantDesc) -> (r: Result<(Vec<(&'static str, TypeScriptType, String)>, Option<TypeScriptType>), DeriveError>)
    requires
        variant_mergeable(*tag, *v),
    ensures
        variant_plan_view(r) == variant_outcome(*tag, *v),
{
    match &v.fields {
        FieldsDesc::Unit => match tag {
            TagStyle::External => Err(DeriveError::ExternalUnitVariant),
            TagStyle::Internal { tag } => {
                let t = one_member(tag.clone(), name_literal_ts(v), v.comment.clone());
                Ok((no_registration(), Some(t)))
            },
            TagStyle::Adjacent { tag, content } => {
                let t = two_members(
                    (tag.clone(), name_literal_ts(v), v.comment.clone()),
                    (content.clone(), TypeScriptType::Null, String::new()),
                );
                Ok((no_registration(), Some(t)))
            },
            TagStyle::Untagged => Ok((no_registration(), Some(TypeScriptType::Null))),
        },
        FieldsDesc::Named(fs) => {
            if fields_refused(fs) {
                return Err(DeriveError::SkipWithoutDefault);
            }
            match tag {
                TagStyle::Internal { .. } => Ok((no_registration(), None)),
                _ => {
                    let ity = named_fields_interface(fs);
                    let regs = one_registration(v.interface, ity, v.comment.clone());
                    match tag {
                        TagStyle::External => {
                            let t = one_member(
                                String::from_str(v.name),
                                TypeScriptType::Named(v.interface),
                                v.comment.clone(),
                            );
                            Ok((regs, Some(t)))
                        },
                        TagStyle::Adjacent { tag, content } => {
                            let t = two_members(
                                (tag.clone(), name_literal_ts(v), String::new()),
                                (content.clone(), TypeScriptType::Named(v.interface), String::new()),
                            );
                            Ok((regs, Some(t)))
                        },
                        _ => Ok((regs, Some(TypeScriptType::Named(v.interface)))),
                    }
                },
            }
        },
        FieldsDesc::Unnamed(fs) => {
            if fields_refused(fs) {
                return Err(DeriveError::SkipWithoutDefault);
            }
            if fs.len() == 1 {
                let ft = field_ts(&fs[0]);
                let fc = fs[0].comment.clone();
                match tag {
                    TagStyle::External => Ok((no_registration(), Some(one_member(String::from_str(v.name), ft, fc)))),
                    TagStyle::Internal { tag } => {
                        let base = one_member(tag.clone(), name_literal_ts(v), fc);
                        Ok((no_registration(), Some(base.flatten(ft))))
                    },
                    TagStyle::Adjacent { tag, content } => {
                        let t = two_members(
                            (tag.clone(), name_literal_ts(v), String::new()),
                            (content.clone(), ft, fc),
                        );
                        Ok((no_registration(), Some(t)))
                    },
                    TagStyle::Untagged => Ok((no_registration(), Some(ft))),
                }
            } else {
                match tag {
                    TagStyle::External => Err(DeriveError::ExternalTupleVariant),
                    TagStyle::Internal { .. } => Err(DeriveError::InternalTagOnTupleVariant),
                    TagStyle::Adjacent { tag, content } => {
                        let tup = TypeScriptType::Tuple(tuple_of(fs));
                        proof {
                            lemma_tuple_view(tup);
                        }
                        let regs = one_registration(v.interface, tup, v.comment.clone());
                        let t = two_members(
                            (tag.clone(), name_literal_ts(v), String::new()),
                            (content.clone(), TypeScriptType::Named(v.interface), String::new()),
                        );
                        Ok((regs, Some(t)))
                    },
                    TagStyle::Untagged => {
                        let tup = TypeScriptType::Tuple(tuple_of(fs));
                        proof {
                            lemma_tuple_view(tup);
                        }
                        let regs = one_registration(v.interface, tup, v.comment.clone());
                        Ok((regs, Some(TypeScriptType::Named(v.interface))))
                    },
                }
            }
        },
    }
}

/// Once a prefix of the variants gives an error, all of them give that error.
proof fn lemma_variants_error_stays(tag: TagStyle, vs: Seq<VariantDesc>, k: int)
    requires
        0 <= k <= vs.len(),
        variants_outcome(tag, vs.take(k)) is Err,
    ensures
        variants_outcome(tag, vs) == variants_outcome(tag, vs.take(k)),
    decreases vs.len(),
{
    if k == vs.len() {
        assert(vs.take(k) =~= vs);
    } else {
        assert(vs.drop_last().take(k) =~= vs.take(k));
        lemma_variants_error_stays(tag, vs.drop_last(), k);
    }
}

/// Whether every variant is a unit variant.
fn variants_all_unit(vs: &[VariantDesc]) -> (r: bool)
    ensures
        r == all_unit(vs@),
{
    let mut i: usize = 0;
    while i < vs.len()
        invariant
            i <= vs@.len(),
            forall|j: int| 0 <= j < i ==> (#[trigger] vs@[j]).fields is Unit,
        decreases vs@.len() - i,
    {
        match &vs[i].fields {
            FieldsDesc::Unit => {},
            _ => return false,
        }
        i += 1;
    }
    true
}

/// Whether a variant has an explicit discriminant.
fn variants_any_discriminant(vs: &[VariantDesc]) -> (r: bool)
    ensures
        r == any_discriminant(vs@),
{
    let mut i: usize = 0;
    while i < vs.len()
        invariant
            i <= vs@.len(),
            forall|j: int| 0 <= j < i ==> !((#[trigger] vs@[j]).discriminant is Some),
        decreases vs@.len() - i,
    {
        if vs[i].discriminant.is_some() {
            return true;
        }
        i += 1;
    }
    false
}

/// Whether a variant has a field that may be skipped while it has no default value.
fn variants_any_refused(vs: &[VariantDesc]) -> (r: bool)
    ensures
        r == any_variant_refused(vs@),
{
    let mut i: usize = 0;
    while i < vs.len()
        invariant
            i <= vs@.len(),
            forall|j: int| 0 <= j < i ==> !variant_refused(#[trigger] vs@[j]),
        decreases vs@.len() - i,
    {
        let refused = match &vs[i].fields {
            FieldsDesc::Unit => false,
            FieldsDesc::Named(fs) => fields_refused(fs),
            FieldsDesc::Unnamed(fs) => fields_refused(fs),
        };
        if refused {
            return true;
        }
        i += 1;
    }
    false
}

/// The entries of an enum of unit variants: valued by their serialized names, or by their
/// literal discriminants when `by_discriminant` holds.
fn unit_entries(vs: &[VariantDesc], by_discriminant: bool) -> (r: Vec<(String, Option<Discriminator>, String)>)
    ensures
        enum_entries_view(r) == (if by_discriminant {
            const_entries(vs@)
        } else {
            string_entries(vs@)
        }),
{
    let ghost target = if by_discriminant {
        const_entries(vs@)
    } else {
        string_entries(vs@)
    };
    let mut r: Vec<(String, Option<Discriminator>, String)> = Vec::new();
    let mut i: usize = 0;
    while i < vs.len()
        invariant
            i <= vs@.len(),
            target == (if by_discriminant {
                const_entries(vs@)
            } else {
                string_entries(vs@)
            }),
            enum_entries_view(r) == target.take(i as int),
        decreases vs@.len() - i,
    {
        let d = if by_discriminant {
            match vs[i].discriminant {
                Some(Some(d)) => Some(d),
                _ => None,
            }
        } else {
            Some(Discriminator::String(vs[i].name))
        };
        let ghost before = r;
        let ident = vs[i].ident.clone();
        let cmt = vs[i].comment.clone();
        let ghost entry = (ident@, match d {
            Some(x) => Some(x@),
            None => None,
        }, cmt@);
        r.push((ident, d, cmt));
        proof {
            assert(entry == target[i as int]);
            assert(enum_entries_view(r) =~= enum_entries_view(before).push(entry));
            assert(target.take(i + 1) =~= target.take(i as int).push(target[i as int]));
        }
        i += 1;
    }
    proof {
        assert(target.take(vs@.len() as int) =~= target);
    }
    r
}

/// The TypeScript definition that deriving it gives an enum named `name`, with the doc
/// comment `comment`, tagged as `tag`, whose variants are `variants`.
pub fn enum_definition(name: &'static str, comment: &str, tag: &TagStyle, variants: &[VariantDesc]) -> (r: Result<
    Definition,
    DeriveError,
>)
    requires
        enum_mergeable(*tag, variants@),
    ensures
        definition_view(r) == spec_enum_definition(name@, comment@, *tag, variants@),
{
    if variants_all_unit(variants) {
        let by_discriminant = variants_any_discriminant(variants);
        let entries = unit_entries(variants, by_discriminant);
        let ty = if by_discriminant {
            TypeScriptType::ConstEnum(entries)
        } else {
            TypeScriptType::Enum(entries)
        };
        return Ok(register_named(name, ty, String::from_str(comment)));
    }
    if variants_any_refused(variants) {
        return Err(DeriveError::SkipWithoutDefault);
    }
    let mut regs: Vec<(&'static str, TypeScriptType, String)> = Vec::new();
    let mut members: Vec<TypeScriptType> = Vec::new();
    let mut i: usize = 0;
    proof {
        assert(variants@.take(0) =~= Seq::<VariantDesc>::empty());
        assert(regs_view(regs@) =~= Seq::<RegModel>::empty());
        assert(ts_views(members@) =~= Seq::<TsModel>::empty());
    }
    while i < variants.len()
        invariant
            i <= variants@.len(),
            enum_mergeable(*tag, variants@),
            !all_unit(variants@),
            !any_variant_refused(variants@),
            variants_outcome(*tag, variants@.take(i as int)) == Ok::<(Seq<RegModel>, Seq<TsModel>), DeriveError>(
                (regs_view(regs@), ts_views(members@)),
            ),
        decreases variants@.len() - i,
    {
        proof {
            assert(variants@.take(i + 1).drop_last() =~= variants@.take(i as int));
            assert(variant_mergeable(*tag, variants@[i as int]));
        }
        match variant_plan(tag, &variants[i]) {
            Err(e) => {
                proof {
                    assert(variants@.take(i + 1).last() == variants@[i as int]);
                    assert(variants_outcome(*tag, variants@.take(i + 1)) == Err::<(Seq<RegModel>, Seq<TsModel>), DeriveError>(e));
                    lemma_variants_error_stays(*tag, variants@, i + 1);
                    assert(!all_unit(variants@));
                    assert(!any_variant_refused(variants@));
                }
                return Err(e);
            },
            Ok((more, member)) => {
                let ghost (regs0, members0, more0) = (regs@, members@, more@);
                let mut more = more;
                regs.append(&mut more);
                proof {
                    assert(regs_view(regs@) =~= regs_view(regs0) + regs_view(more0));
                }
                match member {
                    Some(t) => {
                        members.push(t);
                        proof {
                            assert(ts_views(members@) =~= ts_views(members0).push(t@));
                        }
                    },
                    None => {},
                }
            },
        }
        i += 1;
    }
    proof {
        assert(variants@.take(variants@.len() as int) =~= variants@);
    }
    let union = TypeScriptType::Union(members);
    proof {
        lemma_view_members(union);
    }
    let mut r = register_named(name, union, String::from_str(comment));
    let mut all = regs;
    let ghost (a0, last) = (all@, r.registrations@);
    all.append(&mut r.registrations);
    proof {
        assert(regs_view(all@) =~= regs_view(a0) + regs_view(last));
        assert(regs_view(all@) =~= regs_view(a0).push((name@, union@, comment@)));
        assert(!all_unit(variants@));
        assert(!any_variant_refused(variants@));
    }
    Ok(Definition { registrations: all, ty: r.ty })
}

} // verus!
