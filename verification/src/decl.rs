//! Any declaration that can be rendered, as one type.
use vstd::prelude::*;
use crate::adt::{Enum, Field, Struct, Union, Variant};
use crate::function::{Function, SelfParam};
use crate::items::{Const, ExternCrateDecl, Macro, Module, Static, Trait, TraitAlias, TypeAlias};
use crate::params::{ConstParam, LifetimeParam, TypeParam};
use crate::sink::{RenderError, Sink, SinkState};

verus! {

/// A declaration of any kind.
#[derive(Debug)]
pub enum Declaration<'a> {
    Function(Function),
    Struct(Struct),
    Enum(Enum),
    Union(Union),
    Field(Field),
    Variant(Variant),
    Const(Const),
    Static(Static),
    Trait(Trait),
    TraitAlias(TraitAlias),
    TypeAlias(TypeAlias),
    Module(Module),
    Macro(Macro),
    ExternCrate(ExternCrateDecl),
    SelfParam(SelfParam<'a>),
    TypeParam(TypeParam),
    ConstParam(ConstParam),
    LifetimeParam(LifetimeParam),
}

impl<'a> Declaration<'a> {
    /// What rendering relies on, by kind.
    pub open spec fn wf(&self) -> bool {
        match *self {
            Declaration::Function(it) => it.wf(),
            Declaration::Struct(it) => it.generic_params.wf(),
            Declaration::Enum(it) => it.generic_params.wf(),
            Declaration::Union(it) => it.generic_params.wf(),
            Declaration::Trait(it) => it.generic_params.wf(),
            Declaration::TraitAlias(it) => it.generic_params.wf(),
            Declaration::TypeAlias(it) => it.generic_params.wf(),
            Declaration::SelfParam(it) => it.wf(),
            _ => true,
        }
    }

    /// The text of the declaration under the modes of the sink `s`.
    pub open spec fn spec_text(&self, s: SinkState) -> Seq<char> {
        match *self {
            Declaration::Function(it) => it.spec_text(),
            Declaration::Struct(it) => it.spec_text(),
            Declaration::Enum(it) => it.spec_text(),
            Declaration::Union(it) => it.spec_text(),
            Declaration::Field(it) => it.spec_text(),
            Declaration::Variant(it) => it.spec_text(),
            Declaration::Const(it) => it.spec_text(),
            Declaration::Static(it) => it.spec_text(),
            Declaration::Trait(it) => it.spec_text(),
            Declaration::TraitAlias(it) => it.spec_text(),
            Declaration::TypeAlias(it) => it.spec_text(),
            Declaration::Module(it) => it.spec_text(),
            Declaration::Macro(it) => it.spec_text(),
            Declaration::ExternCrate(it) => it.spec_text(),
            Declaration::SelfParam(it) => it.spec_text(),
            Declaration::TypeParam(it) => it.spec_text(s),
            Declaration::ConstParam(it) => it.spec_text(),
            Declaration::LifetimeParam(it) => it.spec_text(),
        }
    }

    /// Tells whether the declaration has the shape that rendering relies on.
    pub fn is_well_formed(&self) -> (r: bool)
        ensures
            r == self.wf(),
    {
        match self {
            Declaration::Function(it) => it.is_well_formed(),
            Declaration::Struct(it) => it.generic_params.is_well_formed(),
            Declaration::Enum(it) => it.generic_params.is_well_formed(),
            Declaration::Union(it) => it.generic_params.is_well_formed(),
            Declaration::Trait(it) => it.generic_params.is_well_formed(),
            Declaration::TraitAlias(it) => it.generic_params.is_well_formed(),
            Declaration::TypeAlias(it) => it.generic_params.is_well_formed(),
            Declaration::SelfParam(it) => it.is_well_formed(),
            _ => true,
        }
    }

    /// The text of the declaration under the given modes, as a string of its
    /// own.
    pub fn render_to_string(
        &self,
        omit_verbose_bounds: bool,
        implicit_sized_default: bool,
    ) -> (r: String)
        requires
            self.wf(),
        ensures
            r@ == self.spec_text(
                SinkState {
                    text: Seq::empty(),
                    room: None,
                    omit_verbose_bounds,
                    implicit_sized_default,
                },
            ),
    {
        let mut f = Sink::new();
        f.set_omit_verbose_bounds(omit_verbose_bounds);
        f.set_implicit_sized_default(implicit_sized_default);
        let ghost before = f@;
        let _ = self.hir_fmt(&mut f);
        proof {
            before.lemma_write(self.spec_text(before));
            assert(Seq::<char>::empty() + self.spec_text(before) =~= self.spec_text(before));
        }
        f.into_string()
    }

    /// Renders the declaration into the sink.
    ///
    /// The sink then holds what it held before, followed by the text of the
    /// declaration, or by as much of it as there was room for. The call fails
    /// exactly when the text did not fit.
    pub fn hir_fmt(&self, f: &mut Sink) -> (r: Result<(), RenderError>)
        requires
            self.wf(),
        ensures
            final(f)@ == old(f)@.write(self.spec_text(old(f)@)),
            r == old(f)@.result(self.spec_text(old(f)@)),
    {
        match self {
            Declaration::Function(it) => it.hir_fmt(f),
            Declaration::Struct(it) => it.hir_fmt(f),
            Declaration::Enum(it) => it.hir_fmt(f),
            Declaration::Union(it) => it.hir_fmt(f),
            Declaration::Field(it) => it.hir_fmt(f),
            Declaration::Variant(it) => it.hir_fmt(f),
            Declaration::Const(it) => it.hir_fmt(f),
            Declaration::Static(it) => it.hir_fmt(f),
            Declaration::Trait(it) => it.hir_fmt(f),
            Declaration::TraitAlias(it) => it.hir_fmt(f),
            Declaration::TypeAlias(it) => it.hir_fmt(f),
            Declaration::Module(it) => it.hir_fmt(f),
            Declaration::Macro(it) => it.hir_fmt(f),
            Declaration::ExternCrate(it) => it.hir_fmt(f),
            Declaration::SelfParam(it) => it.hir_fmt(f),
            Declaration::TypeParam(it) => it.hir_fmt(f),
            Declaration::ConstParam(it) => it.hir_fmt(f),
            Declaration::LifetimeParam(it) => it.hir_fmt(f),
        }
    }
}

} // verus!
