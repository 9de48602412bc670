//! Generic parameters rendered on their own.
use either::Either;
use vstd::prelude::*;
use crate::sink::{RenderError, Sink, SinkState, group_sink};
use crate::types::Type;

verus! {

broadcast use group_sink;

/// A predicate on a type parameter, as far as rendering tells them apart.
#[derive(Debug)]
pub enum ParamPredicate {
    /// The parameter implements `Sized`.
    ImplementsSized,
    /// Any other predicate.
    Other,
}

/// A type parameter with the predicates on it. `bounds` is what follows the
/// name when the bounds are shown: `:` and the list of the bounds, as the
/// bound formatter renders them under the sink's modes.
#[derive(Debug)]
pub struct TypeParam {
    pub name: String,
    pub predicates: Vec<ParamPredicate>,
    pub bounds: String,
}

/// A const parameter.
#[derive(Debug)]
pub struct ConstParam {
    pub name: String,
    pub ty: Type,
}

/// A lifetime parameter.
#[derive(Debug)]
pub struct LifetimeParam {
    pub name: String,
}

/// The two-way sum type of the `either` crate, with its variants `Left` and
/// `Right`.
#[verifier::external_type_specification]
#[verifier::reject_recursive_types(L)]
#[verifier::reject_recursive_types(R)]
pub struct ExEither<L, R>(Either<L, R>);

/// A parameter of which only its place in the list says nothing about its
/// kind: a type parameter on the left, a const parameter on the right.
#[derive(Debug)]
pub struct TypeOrConstParam {
    pub param: Either<TypeParam, ConstParam>,
}

/// A generic parameter of any kind.
#[derive(Debug)]
pub enum GenericParam {
    TypeParam(TypeParam),
    ConstParam(ConstParam),
    LifetimeParam(LifetimeParam),
}

impl TypeParam {
    /// Whether every predicate says that the parameter is `Sized`.
    pub open spec fn has_only_sized_bound(&self) -> bool {
        forall|i: int| 0 <= i < self.predicates@.len() ==> self.predicates@[i] is ImplementsSized
    }

    /// Whether the bound list says more than the name alone. Where `Sized` is
    /// implicit, a list of nothing but `Sized` says nothing, and an empty list
    /// says that the parameter need not be `Sized`. Where it is not implicit,
    /// only an empty list says nothing.
    pub open spec fn shows_bounds(&self, sized_by_default: bool) -> bool {
        if sized_by_default {
            !self.has_only_sized_bound() || self.predicates@.len() == 0
        } else {
            self.predicates@.len() > 0
        }
    }

    /// The name, followed by the bounds where the sink's modes ask for them
    /// and they say more than the name.
    pub open spec fn spec_text(&self, s: SinkState) -> Seq<char> {
        self.name@ + (if !s.omit_verbose_bounds && self.shows_bounds(s.implicit_sized_default) {
            self.bounds@
        } else {
            Seq::empty()
        })
    }

    /// Tells whether every predicate says that the parameter is `Sized`.
    pub fn only_sized_bounds(&self) -> (r: bool)
        ensures
            r == self.has_only_sized_bound(),
    {
        let mut i: usize = 0;
        while i < self.predicates.len()
            invariant
                i <= self.predicates.len(),
                forall|j: int| 0 <= j < i ==> self.predicates@[j] is ImplementsSized,
            decreases self.predicates.len() - i,
        {
            match self.predicates[i] {
                ParamPredicate::ImplementsSized => {},
                ParamPredicate::Other => {
                    return false;
                },
            }
            i += 1;
        }
        true
    }

    /// Writes the type parameter, with its bounds where the sink's modes ask for them.
    pub fn hir_fmt(&self, f: &mut Sink) -> (r: Result<(), RenderError>)
        ensures
            final(f)@ == old(f)@.write(self.spec_text(old(f)@)),
            r == old(f)@.result(self.spec_text(old(f)@)),
    {
        f.write_str(self.name.as_str())?;
        if f.omit_verbose_bounds() {
            return Ok(());
        }
        let sized_by_default = f.implicit_sized_default();
        let has_only_sized_bound = self.only_sized_bounds();
        let has_only_not_sized_bound = self.predicates.len() == 0;
        let shown = if sized_by_default {
            !has_only_sized_bound || has_only_not_sized_bound
        } else {
            !has_only_not_sized_bound
        };
        if shown {
            f.write_str(self.bounds.as_str())?;
        }
        Ok(())
    }
}

impl LifetimeParam {
    /// The name.
    pub open spec fn spec_text(&self) -> Seq<char> {
        self.name@
    }

    /// Writes the lifetime parameter.
    pub fn hir_fmt(&self, f: &mut Sink) -> (r: Result<(), RenderError>)
        ensures
            final(f)@ == old(f)@.write(self.spec_text()),
            r == old(f)@.result(self.spec_text()),
    {
        f.write_str(self.name.as_str())
    }
}

impl ConstParam {
    /// `const NAME: TYPE`.
    pub open spec fn spec_text(&self) -> Seq<char> {
        "const "@ + self.name@ + ": "@ + self.ty.spec_text()
    }

    /// Writes the const parameter.
    pub fn hir_fmt(&self, f: &mut Sink) -> (r: Result<(), RenderError>)
        ensures
            final(f)@ == old(f)@.write(self.spec_text()),
            r == old(f)@.result(self.spec_text()),
    {
        f.write_str("const ")?;
        f.write_str(self.name.as_str())?;
        f.write_str(": ")?;
        self.ty.hir_fmt(f)
    }
}

impl TypeOrConstParam {
    /// The text of the parameter under the modes of the sink `s`.
    pub open spec fn spec_text(&self, s: SinkState) -> Seq<char> {
        match self.param {
            Either::Left(it) => it.spec_text(s),
            Either::Right(it) => it.spec_text(),
        }
    }

    /// The parameter as what it is.
    pub fn split(&self) -> (r: Either<&TypeParam, &ConstParam>)
        ensures
            match self.param {
                Either::Left(it) => r == Either::<&TypeParam, &ConstParam>::Left(&it),
                Either::Right(it) => r == Either::<&TypeParam, &ConstParam>::Right(&it),
            },
    {
        match &self.param {
            Either::Left(it) => Either::Left(it),
            Either::Right(it) => Either::Right(it),
        }
    }

    /// Writes the parameter as what it is.
    pub fn hir_fmt(&self, f: &mut Sink) -> (r: Result<(), RenderError>)
        ensures
            final(f)@ == old(f)@.write(self.spec_text(old(f)@)),
            r == old(f)@.result(self.spec_text(old(f)@)),
    {
        match self.split() {
            Either::Left(it) => it.hir_fmt(f),
            Either::Right(it) => it.hir_fmt(f),
        }
    }
}

impl GenericParam {
    /// The text of the parameter under the modes of the sink `s`.
    pub open spec fn spec_text(&self, s: SinkState) -> Seq<char> {
        match *self {
            GenericParam::TypeParam(it) => it.spec_text(s),
            GenericParam::ConstParam(it) => it.spec_text(),
            GenericParam::LifetimeParam(it) => it.spec_text(),
        }
    }

    /// Writes the parameter as what it is.
    pub fn hir_fmt(&self, f: &mut Sink) -> (r: Result<(), RenderError>)
        ensures
            final(f)@ == old(f)@.write(self.spec_text(old(f)@)),
            r == old(f)@.result(self.spec_text(old(f)@)),
    {
        match self {
            GenericParam::TypeParam(it) => it.hir_fmt(f),
            GenericParam::ConstParam(it) => it.hir_fmt(f),
            GenericParam::LifetimeParam(it) => it.hir_fmt(f),
        }
    }
}

} // verus!
