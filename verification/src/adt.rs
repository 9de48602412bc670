//! Structs, unions, enums, their fields and variants.
use vstd::prelude::*;
use crate::generics::{GenericParams, write_generic_params, write_where_clause};
use crate::sink::{RenderError, Sink, group_sink};
use crate::types::{Type, TypeRef, Visibility, lemma_join, spec_join, spec_join_from};

verus! {

broadcast use group_sink;

/// The shape of a struct's body.
#[derive(Debug)]
pub enum StructKind {
    Tuple,
    Record,
    Unit,
}

/// A field of a struct or a union.
#[derive(Debug)]
pub struct Field {
    pub visibility: Visibility,
    pub name: String,
    pub ty: Type,
}

/// A struct.
#[derive(Debug)]
pub struct Struct {
    pub visibility: Visibility,
    pub name: String,
    pub generic_params: GenericParams,
    pub kind: StructKind,
    pub fields: Vec<Field>,
}

/// A union.
#[derive(Debug)]
pub struct Union {
    pub visibility: Visibility,
    pub name: String,
    pub generic_params: GenericParams,
    pub fields: Vec<Field>,
}

/// A field of an enum variant, with its type as written.
#[derive(Debug)]
pub struct FieldData {
    pub name: String,
    pub type_ref: TypeRef,
}

/// The body of an enum variant.
#[derive(Debug)]
pub enum VariantData {
    Unit,
    Tuple(Vec<FieldData>),
    Record(Vec<FieldData>),
}

/// A variant of an enum.
#[derive(Debug)]
pub struct Variant {
    pub name: String,
    pub data: VariantData,
}

/// An enum.
#[derive(Debug)]
pub struct Enum {
    pub visibility: Visibility,
    pub name: String,
    pub generic_params: GenericParams,
    pub variants: Vec<Variant>,
}

/// A struct, a union or an enum.
#[derive(Debug)]
pub enum Adt {
    Struct(Struct),
    Union(Union),
    Enum(Enum),
}

impl Field {
    /// Visibility, name, `: ` and type.
    pub open spec fn spec_text(&self) -> Seq<char> {
        self.visibility.spec_text() + self.name@ + ": "@ + self.ty.spec_text()
    }

    /// Writes the field.
    pub fn hir_fmt(&self, f: &mut Sink) -> (r: Result<(), RenderError>)
        ensures
            final(f)@ == old(f)@.write(self.spec_text()),
            r == old(f)@.result(self.spec_text()),
    {
        self.visibility.hir_fmt(f)?;
        f.write_str(self.name.as_str())?;
        f.write_str(": ")?;
        self.ty.hir_fmt(f)
    }
}

/// The types of the fields.
pub open spec fn spec_field_types(fields: Seq<Field>) -> Seq<Seq<char>> {
    fields.map_values(|field: Field| field.ty.spec_text())
}

/// One line for each field from the `i`-th on: four spaces, the field, a
/// comma.
pub open spec fn spec_record_fields_from(fields: Seq<Field>, i: int) -> Seq<char>
    decreases fields.len() - i,
{
    if 0 <= i < fields.len() {
        "    "@ + fields[i].spec_text() + ",\n"@ + spec_record_fields_from(fields, i + 1)
    } else {
        Seq::empty()
    }
}

/// A body of named fields: ` {}` where there is none, else the fields on
/// lines of their own between ` {` and `}`.
pub open spec fn spec_record_body(fields: Seq<Field>) -> Seq<char> {
    if fields.len() == 0 {
        " {}"@
    } else {
        " {\n"@ + spec_record_fields_from(fields, 0) + "}"@
    }
}

fn write_tuple_fields(fields: &Vec<Field>, f: &mut Sink) -> (r: Result<(), RenderError>)
    ensures
        final(f)@ == old(f)@.write(spec_join(spec_field_types(fields@), ", "@)),
        r == old(f)@.result(spec_join(spec_field_types(fields@), ", "@)),
{
    let ghost parts = spec_field_types(fields@);
    proof {
        lemma_join(parts, ", "@);
    }
    let mut i: usize = 0;
    while i < fields.len()
        invariant
            i <= fields.len(),
            parts == spec_field_types(fields@),
            old(f)@.write(spec_join(parts, ", "@)) == f@.write(spec_join_from(parts, ", "@, i as int)),
            old(f)@.fits(spec_join(parts, ", "@)) == f@.fits(spec_join_from(parts, ", "@, i as int)),
        decreases fields.len() - i,
    {
        if i != 0 {
            f.write_str(", ")?;
        }
        fields[i].ty.hir_fmt(f)?;
        i += 1;
    }
    Ok(())
}

fn write_record_fields(fields: &Vec<Field>, f: &mut Sink) -> (r: Result<(), RenderError>)
    ensures
        final(f)@ == old(f)@.write(spec_record_fields_from(fields@, 0)),
        r == old(f)@.result(spec_record_fields_from(fields@, 0)),
{
    let mut i: usize = 0;
    while i < fields.len()
        invariant
            i <= fields.len(),
            old(f)@.write(spec_record_fields_from(fields@, 0)) == f@.write(
                spec_record_fields_from(fields@, i as int),
            ),
            old(f)@.fits(spec_record_fields_from(fields@, 0)) == f@.fits(
                spec_record_fields_from(fields@, i as int),
            ),
        decreases fields.len() - i,
    {
        f.write_str("    ")?;
        fields[i].hir_fmt(f)?;
        f.write_str(",\n")?;
        i += 1;
    }
    Ok(())
}

fn write_record_body(fields: &Vec<Field>, f: &mut Sink) -> (r: Result<(), RenderError>)
    ensures
        final(f)@ == old(f)@.write(spec_record_body(fields@)),
        r == old(f)@.result(spec_record_body(fields@)),
{
    if fields.len() == 0 {
        f.write_str(" {}")
    } else {
        f.write_str(" {\n")?;
        write_record_fields(fields, f)?;
        f.write_str("}")
    }
}

impl Struct {
    /// `struct Name`, the generic parameters, and then by shape: for a tuple
    /// struct the field types in parentheses and joined by `, `, then `;` and
    /// the where clause; for a record struct the where clause and the body;
    /// for a unit struct the where clause.
    pub open spec fn spec_text(&self) -> Seq<char> {
        self.visibility.spec_text() + "struct "@ + self.name@
            + self.generic_params.spec_generic_params() + (if self.kind is Tuple {
            "("@ + spec_join(spec_field_types(self.fields@), ", "@) + ");"@
        } else {
            Seq::empty()
        }) + self.generic_params.spec_where_clause() + (if self.kind is Record {
            spec_record_body(self.fields@)
        } else {
            Seq::empty()
        })
    }

    /// Writes the struct with its fields.
    pub fn hir_fmt(&self, f: &mut Sink) -> (r: Result<(), RenderError>)
        requires
            self.generic_params.wf(),
        ensures
            final(f)@ == old(f)@.write(self.spec_text()),
            r == old(f)@.result(self.spec_text()),
    {
        self.visibility.hir_fmt(f)?;
        f.write_str("struct ")?;
        f.write_str(self.name.as_str())?;
        write_generic_params(&self.generic_params, f)?;

        if let StructKind::Tuple = self.kind {
            f.write_str("(")?;
            write_tuple_fields(&self.fields, f)?;
            f.write_str(");")?;
        }
        write_where_clause(&self.generic_params, f)?;

        if let StructKind::Record = self.kind {
            write_record_body(&self.fields, f)?;
        }
        Ok(())
    }
}

impl Union {
    /// `union Name`, the generic parameters, the where clause, and the body
    /// as that of a record struct.
    pub open spec fn spec_text(&self) -> Seq<char> {
        self.visibility.spec_text() + "union "@ + self.name@
            + self.generic_params.spec_generic_params() + self.generic_params.spec_where_clause()
            + spec_record_body(self.fields@)
    }

    /// Writes the union with its fields.
    pub fn hir_fmt(&self, f: &mut Sink) -> (r: Result<(), RenderError>)
        requires
            self.generic_params.wf(),
        ensures
            final(f)@ == old(f)@.write(self.spec_text()),
            r == old(f)@.result(self.spec_text()),
    {
        self.visibility.hir_fmt(f)?;
        f.write_str("union ")?;
        f.write_str(self.name.as_str())?;
        write_generic_params(&self.generic_params, f)?;
        write_where_clause(&self.generic_params, f)?;
        write_record_body(&self.fields, f)
    }
}

/// The types of the fields of a variant.
pub open spec fn spec_variant_types(fields: Seq<FieldData>) -> Seq<Seq<char>> {
    fields.map_values(|field: FieldData| field.type_ref.spec_text())
}

/// The fields of a variant, each as `name: Type`.
pub open spec fn spec_variant_fields(fields: Seq<FieldData>) -> Seq<Seq<char>> {
    fields.map_values(|field: FieldData| field.name@ + ": "@ + field.type_ref.spec_text())
}

fn write_variant_types(fields: &Vec<FieldData>, f: &mut Sink) -> (r: Result<(), RenderError>)
    ensures
        final(f)@ == old(f)@.write(spec_join(spec_variant_types(fields@), ", "@)),
        r == old(f)@.result(spec_join(spec_variant_types(fields@), ", "@)),
{
    let ghost parts = spec_variant_types(fields@);
    proof {
        lemma_join(parts, ", "@);
    }
    let mut i: usize = 0;
    while i < fields.len()
        invariant
            i <= fields.len(),
            parts == spec_variant_types(fields@),
            old(f)@.write(spec_join(parts, ", "@)) == f@.write(spec_join_from(parts, ", "@, i as int)),
            old(f)@.fits(spec_join(parts, ", "@)) == f@.fits(spec_join_from(parts, ", "@, i as int)),
        decreases fields.len() - i,
    {
        if i != 0 {
            f.write_str(", ")?;
        }
        fields[i].type_ref.hir_fmt(f)?;
        i += 1;
    }
    Ok(())
}

fn write_variant_fields(fields: &Vec<FieldData>, f: &mut Sink) -> (r: Result<(), RenderError>)
    ensures
        final(f)@ == old(f)@.write(spec_join(spec_variant_fields(fields@), ", "@)),
        r == old(f)@.result(spec_join(spec_variant_fields(fields@), ", "@)),
{
    let ghost parts = spec_variant_fields(fields@);
    proof {
        lemma_join(parts, ", "@);
    }
    let mut i: usize = 0;
    while i < fields.len()
        invariant
            i <= fields.len(),
            parts == spec_variant_fields(fields@),
            old(f)@.write(spec_join(parts, ", "@)) == f@.write(spec_join_from(parts, ", "@, i as int)),
            old(f)@.fits(spec_join(parts, ", "@)) == f@.fits(spec_join_from(parts, ", "@, i as int)),
        decreases fields.len() - i,
    {
        if i != 0 {
            f.write_str(", ")?;
        }
        f.write_str(fields[i].name.as_str())?;
        f.write_str(": ")?;
        fields[i].type_ref.hir_fmt(f)?;
        i += 1;
    }
    Ok(())
}

impl Variant {
    /// The name, and then by shape: nothing for a unit variant; for a tuple
    /// variant the field types, without names, joined by `, ` in parentheses;
    /// for a record variant the fields joined by `, ` between ` { ` and ` }`,
    /// or ` { }` where it has none.
    pub open spec fn spec_text(&self) -> Seq<char> {
        self.name@ + (match self.data {
            VariantData::Unit => Seq::empty(),
            VariantData::Tuple(fields) => "("@ + spec_join(spec_variant_types(fields@), ", "@)
                + ")"@,
            VariantData::Record(fields) => " {"@ + (if fields@.len() > 0 {
                " "@ + spec_join(spec_variant_fields(fields@), ", "@)
            } else {
                Seq::empty()
            }) + " }"@,
        })
    }

    /// Writes the variant with its fields.
    pub fn hir_fmt(&self, f: &mut Sink) -> (r: Result<(), RenderError>)
        ensures
            final(f)@ == old(f)@.write(self.spec_text()),
            r == old(f)@.result(self.spec_text()),
    {
        f.write_str(self.name.as_str())?;
        match &self.data {
            VariantData::Unit => {},
            VariantData::Tuple(fields) => {
                f.write_str("(")?;
                write_variant_types(fields, f)?;
                f.write_str(")")?;
            },
            VariantData::Record(fields) => {
                f.write_str(" {")?;
                if fields.len() > 0 {
                    f.write_str(" ")?;
                    write_variant_fields(fields, f)?;
                }
                f.write_str(" }")?;
            },
        }
        Ok(())
    }
}

/// One line for each variant from the `i`-th on: four spaces, the variant, a
/// comma.
pub open spec fn spec_variants_from(variants: Seq<Variant>, i: int) -> Seq<char>
    decreases variants.len() - i,
{
    if 0 <= i < variants.len() {
        "    "@ + variants[i].spec_text() + ",\n"@ + spec_variants_from(variants, i + 1)
    } else {
        Seq::empty()
    }
}

fn write_variants(variants: &Vec<Variant>, f: &mut Sink) -> (r: Result<(), RenderError>)
    ensures
        final(f)@ == old(f)@.write(spec_variants_from(variants@, 0)),
        r == old(f)@.result(spec_variants_from(variants@, 0)),
{
    let mut i: usize = 0;
    while i < variants.len()
        invariant
            i <= variants.len(),
            old(f)@.write(spec_variants_from(variants@, 0)) == f@.write(
                spec_variants_from(variants@, i as int),
            ),
            old(f)@.fits(spec_variants_from(variants@, 0)) == f@.fits(
                spec_variants_from(variants@, i as int),
            ),
        decreases variants.len() - i,
    {
        f.write_str("    ")?;
        variants[i].hir_fmt(f)?;
        f.write_str(",\n")?;
        i += 1;
    }
    Ok(())
}

impl Enum {
    /// `enum Name`, the generic parameters, the where clause and, where there
    /// are variants, the variants on lines of their own between ` {` and `}`.
    pub open spec fn spec_text(&self) -> Seq<char> {
        self.visibility.spec_text() + "enum "@ + self.name@
            + self.generic_params.spec_generic_params() + self.generic_params.spec_where_clause() + (
        if self.variants@.len() > 0 {
            " {\n"@ + spec_variants_from(self.variants@, 0) + "}"@
        } else {
            Seq::empty()
        })
    }

    /// Writes the enum with its variants.
    pub fn hir_fmt(&self, f: &mut Sink) -> (r: Result<(), RenderError>)
        requires
            self.generic_params.wf(),
        ensures
            final(f)@ == old(f)@.write(self.spec_text()),
            r == old(f)@.result(self.spec_text()),
    {
        self.visibility.hir_fmt(f)?;
        f.write_str("enum ")?;
        f.write_str(self.name.as_str())?;
        write_generic_params(&self.generic_params, f)?;
        write_where_clause(&self.generic_params, f)?;

        if self.variants.len() > 0 {
            f.write_str(" {\n")?;
            write_variants(&self.variants, f)?;
            f.write_str("}")?;
        }
        Ok(())
    }
}

impl Adt {
    /// Every where predicate of the type is on a target that exists.
    pub open spec fn wf(&self) -> bool {
        match *self {
            Adt::Struct(it) => it.generic_params.wf(),
            Adt::Union(it) => it.generic_params.wf(),
            Adt::Enum(it) => it.generic_params.wf(),
        }
    }

    /// The text of the struct, union or enum.
    pub open spec fn spec_text(&self) -> Seq<char> {
        match *self {
            Adt::Struct(it) => it.spec_text(),
            Adt::Union(it) => it.spec_text(),
            Adt::Enum(it) => it.spec_text(),
        }
    }

    /// Writes the struct, union or enum.
    pub fn hir_fmt(&self, f: &mut Sink) -> (r: Result<(), RenderError>)
        requires
            self.wf(),
        ensures
            final(f)@ == old(f)@.write(self.spec_text()),
            r == old(f)@.result(self.spec_text()),
    {
        match self {
            Adt::Struct(it) => it.hir_fmt(f),
            Adt::Union(it) => it.hir_fmt(f),
            Adt::Enum(it) => it.hir_fmt(f),
        }
    }
}

} // verus!
