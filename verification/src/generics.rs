//! Generic parameter lists and where clauses.
use vstd::prelude::*;
use crate::sink::{RenderError, Sink, group_sink};
use crate::types::{
    TypeBound, TypeRef, lemma_join, spec_join, spec_join_from, spec_names, write_names,
};

verus! {

broadcast use group_sink;

/// Where a type parameter comes from.
#[derive(Debug)]
pub enum TypeParamProvenance {
    /// Written in the parameter list.
    TypeParamList,
    /// The implicit `Self` of a trait.
    TraitSelf,
    /// Made for an `impl Trait` in argument position.
    ArgumentImplTrait,
}

/// A type parameter; one that was not written has no name.
#[derive(Debug)]
pub struct TypeParamData {
    pub name: Option<String>,
    pub default: Option<TypeRef>,
    pub provenance: TypeParamProvenance,
}

/// A const parameter; its default, if any, as its literal text.
#[derive(Debug)]
pub struct ConstParamData {
    pub name: String,
    pub ty: TypeRef,
    pub default: Option<String>,
}

/// An entry of the sequence that holds type and const parameters in the order
/// of their declaration.
#[derive(Debug)]
pub enum TypeOrConstParamData {
    TypeParamData(TypeParamData),
    ConstParamData(ConstParamData),
}

/// A lifetime parameter.
#[derive(Debug)]
pub struct LifetimeParamData {
    pub name: String,
}

/// What a bound is put on: a written type, or the entry with this index among
/// the type and const parameters.
#[derive(Debug)]
pub enum WherePredicateTypeTarget {
    TypeRef(TypeRef),
    TypeOrConstParam(usize),
}

/// A predicate of a where clause.
#[derive(Debug)]
#[allow(inconsistent_fields)]
pub enum WherePredicate {
    /// `target: bound`
    TypeBound { target: WherePredicateTypeTarget, bound: TypeBound },
    /// `'target: 'bound`, both given by name.
    Lifetime { target: String, bound: String },
    /// `for<lifetimes> target: bound`
    ForLifetime { lifetimes: Vec<String>, target: WherePredicateTypeTarget, bound: TypeBound },
}

/// The generic parameters of one declaration and the predicates on them.
#[derive(Debug)]
pub struct GenericParams {
    pub type_or_consts: Vec<TypeOrConstParamData>,
    pub lifetimes: Vec<LifetimeParamData>,
    pub where_predicates: Vec<WherePredicate>,
}

/// Whether two lists hold the same names in the same order.
pub open spec fn spec_same_names(a: Seq<String>, b: Seq<String>) -> bool {
    a.len() == b.len() && forall|i: int| 0 <= i < a.len() ==> a[i]@ == b[i]@
}

/// Tells whether two lists hold the same names in the same order.
pub fn same_names(a: &Vec<String>, b: &Vec<String>) -> (r: bool)
    ensures
        r == spec_same_names(a@, b@),
{
    if a.len() != b.len() {
        return false;
    }
    let mut i: usize = 0;
    while i < a.len()
        invariant
            i <= a.len(),
            a.len() == b.len(),
            forall|j: int| 0 <= j < i ==> a@[j]@ == b@[j]@,
        decreases a.len() - i,
    {
        if a[i] != b[i] {
            return false;
        }
        i += 1;
    }
    true
}

impl WherePredicateTypeTarget {
    /// Two targets are the same when both are the same written type or both
    /// are the same parameter.
    pub open spec fn same_as(&self, other: &WherePredicateTypeTarget) -> bool {
        match (*self, *other) {
            (WherePredicateTypeTarget::TypeRef(a), WherePredicateTypeTarget::TypeRef(b)) => a.same_as(&b),
            (
                WherePredicateTypeTarget::TypeOrConstParam(a),
                WherePredicateTypeTarget::TypeOrConstParam(b),
            ) => a == b,
            _ => false,
        }
    }

    /// Tells whether two targets are the same.
    pub fn is_same(&self, other: &WherePredicateTypeTarget) -> (r: bool)
        ensures
            r == self.same_as(other),
    {
        match self {
            WherePredicateTypeTarget::TypeRef(a) => match other {
                WherePredicateTypeTarget::TypeRef(b) => a.is_same(b),
                WherePredicateTypeTarget::TypeOrConstParam(_) => false,
            },
            WherePredicateTypeTarget::TypeOrConstParam(a) => match other {
                WherePredicateTypeTarget::TypeRef(_) => false,
                WherePredicateTypeTarget::TypeOrConstParam(b) => *a == *b,
            },
        }
    }
}

impl WherePredicate {
    /// Whether this predicate goes on the group that `prev` is in: both are of
    /// one kind, on the same target and, where they have binders, under the
    /// same binders in the same order.
    pub open spec fn extends(&self, prev: &WherePredicate) -> bool {
        match (*prev, *self) {
            (
                WherePredicate::TypeBound { target: t0, .. },
                WherePredicate::TypeBound { target: t1, .. },
            ) => t0.same_as(&t1),
            (
                WherePredicate::Lifetime { target: t0, .. },
                WherePredicate::Lifetime { target: t1, .. },
            ) => t0@ == t1@,
            (
                WherePredicate::ForLifetime { lifetimes: l0, target: t0, .. },
                WherePredicate::ForLifetime { lifetimes: l1, target: t1, .. },
            ) => spec_same_names(l0@, l1@) && t0.same_as(&t1),
            _ => false,
        }
    }

    /// Tells whether this predicate goes on the group that `prev` is in.
    pub fn is_extending(&self, prev: &WherePredicate) -> (r: bool)
        ensures
            r == self.extends(prev),
    {
        match self {
            WherePredicate::TypeBound { target, .. } => match prev {
                WherePredicate::TypeBound { target: target_, .. } => target_.is_same(target),
                _ => false,
            },
            WherePredicate::Lifetime { target, .. } => match prev {
                WherePredicate::Lifetime { target: target_, .. } => *target_ == *target,
                _ => false,
            },
            WherePredicate::ForLifetime { lifetimes, target, .. } => match prev {
                WherePredicate::ForLifetime { lifetimes: lifetimes_, target: target_, .. } => {
                    same_names(lifetimes_, lifetimes) && target_.is_same(target)
                },
                _ => false,
            },
        }
    }
}

impl TypeOrConstParamData {
    /// The parameter's name, if it has one.
    pub open spec fn spec_name(&self) -> Option<Seq<char>> {
        match *self {
            TypeOrConstParamData::TypeParamData(ty) => match ty.name {
                Some(name) => Some(name@),
                None => None,
            },
            TypeOrConstParamData::ConstParamData(c) => Some(c.name@),
        }
    }

    /// Whether the parameter counts for the presence of a parameter list: a
    /// const parameter, or a type parameter that was written in the list.
    pub open spec fn calls_for_list(&self) -> bool {
        match *self {
            TypeOrConstParamData::TypeParamData(ty) => ty.provenance is TypeParamList,
            TypeOrConstParamData::ConstParamData(_) => true,
        }
    }

    /// Whether the parameter is shown in the list: as above, and it has a name.
    pub open spec fn is_listed(&self) -> bool {
        self.calls_for_list() && self.spec_name() is Some
    }

    /// The parameter as the list shows it: `T` or `T = Default`,
    /// `const N: Type` or `const N: Type = default`.
    pub open spec fn spec_text(&self) -> Seq<char> {
        match *self {
            TypeOrConstParamData::TypeParamData(ty) => (match ty.name {
                Some(name) => name@,
                None => Seq::empty(),
            }) + (match ty.default {
                Some(default) => " = "@ + default.spec_text(),
                None => Seq::empty(),
            }),
            TypeOrConstParamData::ConstParamData(c) => "const "@ + c.name@ + ": "@
                + c.ty.spec_text() + (match c.default {
                Some(default) => " = "@ + default@,
                None => Seq::empty(),
            }),
        }
    }

    /// The parameter's name, if it has one.
    pub fn name(&self) -> (r: Option<&str>)
        ensures
            match r {
                Some(name) => self.spec_name() == Some(name@),
                None => self.spec_name() is None,
            },
    {
        match self {
            TypeOrConstParamData::TypeParamData(ty) => match &ty.name {
                Some(name) => Some(name.as_str()),
                None => None,
            },
            TypeOrConstParamData::ConstParamData(c) => Some(c.name.as_str()),
        }
    }

    /// Tells whether the parameter counts for the presence of a parameter list.
    pub fn is_in_list(&self) -> (r: bool)
        ensures
            r == self.calls_for_list(),
    {
        match self {
            TypeOrConstParamData::TypeParamData(ty) => match ty.provenance {
                TypeParamProvenance::TypeParamList => true,
                _ => false,
            },
            TypeOrConstParamData::ConstParamData(_) => true,
        }
    }

    /// Writes the parameter as the list shows it.
    pub fn hir_fmt(&self, f: &mut Sink) -> (r: Result<(), RenderError>)
        ensures
            final(f)@ == old(f)@.write(self.spec_text()),
            r == old(f)@.result(self.spec_text()),
    {
        match self {
            TypeOrConstParamData::TypeParamData(ty) => {
                if let Some(name) = &ty.name {
                    f.write_str(name.as_str())?;
                }
                if let Some(default) = &ty.default {
                    f.write_str(" = ")?;
                    default.hir_fmt(f)?;
                }
                Ok(())
            },
            TypeOrConstParamData::ConstParamData(c) => {
                f.write_str("const ")?;
                f.write_str(c.name.as_str())?;
                f.write_str(": ")?;
                c.ty.hir_fmt(f)?;
                if let Some(default) = &c.default {
                    f.write_str(" = ")?;
                    f.write_str(default.as_str())?;
                }
                Ok(())
            },
        }
    }
}

impl GenericParams {
    /// No parameters and no predicates.
    pub fn new() -> (r: GenericParams)
        ensures
            r.type_or_consts@.len() == 0,
            r.lifetimes@.len() == 0,
            r.where_predicates@.len() == 0,
            r.wf(),
    {
        GenericParams { type_or_consts: Vec::new(), lifetimes: Vec::new(), where_predicates: Vec::new() }
    }

    // ---- the parameter list ----

    /// Whether there is a parameter list at all: there is a lifetime
    /// parameter, a const parameter, or a type parameter that was written.
    pub open spec fn has_param_list(&self) -> bool {
        self.lifetimes@.len() > 0 || exists|i: int|
            0 <= i < self.type_or_consts@.len() && (#[trigger] self.type_or_consts@[i]).calls_for_list()
    }

    /// The names of the lifetime parameters.
    pub open spec fn spec_lifetime_texts(&self) -> Seq<Seq<char>> {
        self.lifetimes@.map_values(|lifetime: LifetimeParamData| lifetime.name@)
    }

    /// The listed type and const parameters from the `i`-th entry on, each as
    /// the list shows it.
    pub open spec fn spec_listed_from(&self, i: int) -> Seq<Seq<char>>
        decreases self.type_or_consts@.len() - i,
    {
        if 0 <= i < self.type_or_consts@.len() {
            (if self.type_or_consts@[i].is_listed() {
                seq![self.type_or_consts@[i].spec_text()]
            } else {
                Seq::empty()
            }) + self.spec_listed_from(i + 1)
        } else {
            Seq::empty()
        }
    }

    /// What the parameter list holds: the lifetimes, then the listed type and
    /// const parameters in the order of their declaration.
    pub open spec fn spec_entries(&self) -> Seq<Seq<char>> {
        self.spec_lifetime_texts() + self.spec_listed_from(0)
    }

    /// The parameter list: nothing where there is none, else its entries
    /// joined by `, ` between `<` and `>`.
    pub open spec fn spec_generic_params(&self) -> Seq<char> {
        if self.has_param_list() {
            "<"@ + spec_join(self.spec_entries(), ", "@) + ">"@
        } else {
            Seq::empty()
        }
    }

    /// Tells whether there is a parameter list at all.
    pub fn needs_param_list(&self) -> (r: bool)
        ensures
            r == self.has_param_list(),
    {
        if self.lifetimes.len() > 0 {
            return true;
        }
        let mut i: usize = 0;
        while i < self.type_or_consts.len()
            invariant
                i <= self.type_or_consts.len(),
                forall|j: int| 0 <= j < i ==> !(#[trigger] self.type_or_consts@[j]).calls_for_list(),
            decreases self.type_or_consts.len() - i,
        {
            if self.type_or_consts[i].is_in_list() {
                return true;
            }
            i += 1;
        }
        false
    }

    fn write_entries(&self, f: &mut Sink) -> (r: Result<(), RenderError>)
        ensures
            final(f)@ == old(f)@.write(spec_join(self.spec_entries(), ", "@)),
            r == old(f)@.result(spec_join(self.spec_entries(), ", "@)),
    {
        let ghost entries = self.spec_entries();
        proof {
            lemma_join(entries, ", "@);
        }
        let mut first = true;
        let mut j: usize = 0;
        while j < self.lifetimes.len()
            invariant
                j <= self.lifetimes.len(),
                entries == self.spec_entries(),
                first == (j == 0),
                old(f)@.write(spec_join(entries, ", "@)) == f@.write(
                    spec_join_from(entries, ", "@, j as int),
                ),
                old(f)@.fits(spec_join(entries, ", "@)) == f@.fits(
                    spec_join_from(entries, ", "@, j as int),
                ),
            decreases self.lifetimes.len() - j,
        {
            if first {
                first = false;
            } else {
                f.write_str(", ")?;
            }
            f.write_str(self.lifetimes[j].name.as_str())?;
            j += 1;
        }
        let ghost mut k: int = self.lifetimes@.len() as int;
        proof {
            assert(entries.skip(k) =~= self.spec_listed_from(0));
        }
        let mut i: usize = 0;
        while i < self.type_or_consts.len()
            invariant
                i <= self.type_or_consts.len(),
                entries == self.spec_entries(),
                0 <= k <= entries.len(),
                entries.skip(k) == self.spec_listed_from(i as int),
                first == (k == 0),
                old(f)@.write(spec_join(entries, ", "@)) == f@.write(spec_join_from(entries, ", "@, k)),
                old(f)@.fits(spec_join(entries, ", "@)) == f@.fits(spec_join_from(entries, ", "@, k)),
            decreases self.type_or_consts.len() - i,
        {
            let data = &self.type_or_consts[i];
            if data.is_in_list() && data.name().is_some() {
                proof {
                    let rest = self.spec_listed_from(i + 1);
                    assert(entries.skip(k) == seq![data.spec_text()] + rest);
                    assert(entries.skip(k).len() == 1 + rest.len());
                    assert(entries[k] == entries.skip(k)[0]);
                    assert forall|m: int| 0 <= m < rest.len() implies entries.skip(k + 1)[m]
                        == rest[m] by {
                        assert(entries.skip(k)[m + 1] == rest[m]);
                    }
                    assert(entries.skip(k + 1) =~= rest);
                }
                if first {
                    first = false;
                } else {
                    f.write_str(", ")?;
                }
                data.hir_fmt(f)?;
                proof {
                    k = k + 1;
                }
            } else {
                proof {
                    assert(self.spec_listed_from(i as int) =~= self.spec_listed_from(i + 1));
                }
            }
            i += 1;
        }
        Ok(())
    }

    // ---- the where clause ----

    /// Whether the target names an entry that exists.
    pub open spec fn has_target(&self, target: &WherePredicateTypeTarget) -> bool {
        match *target {
            WherePredicateTypeTarget::TypeRef(_) => true,
            WherePredicateTypeTarget::TypeOrConstParam(id) => id < self.type_or_consts@.len(),
        }
    }

    /// Whether the `i`-th predicate is on a target that exists.
    pub open spec fn predicate_wf(&self, i: int) -> bool {
        match self.where_predicates@[i] {
            WherePredicate::TypeBound { target, .. } => self.has_target(&target),
            WherePredicate::Lifetime { .. } => true,
            WherePredicate::ForLifetime { target, .. } => self.has_target(&target),
        }
    }

    /// Every predicate that is on a parameter is on one that exists.
    pub open spec fn wf(&self) -> bool {
        forall|i: int| 0 <= i < self.where_predicates@.len() ==> #[trigger] self.predicate_wf(i)
    }

    /// Whether the target is a parameter without a name.
    pub open spec fn is_unnamed_target(&self, target: &WherePredicateTypeTarget) -> bool {
        match *target {
            WherePredicateTypeTarget::TypeRef(_) => false,
            WherePredicateTypeTarget::TypeOrConstParam(id) => self.type_or_consts@[id as int].spec_name()
                is None,
        }
    }

    /// Whether the `i`-th predicate is left out of the clause: a bound on a
    /// parameter without a name, which is shown where the parameter is used.
    pub open spec fn is_hidden(&self, i: int) -> bool {
        match self.where_predicates@[i] {
            WherePredicate::TypeBound { target, .. } => self.is_unnamed_target(&target),
            _ => false,
        }
    }

    /// Whether any predicate is shown.
    pub open spec fn has_displayable_predicate(&self) -> bool {
        exists|i: int| 0 <= i < self.where_predicates@.len() && !#[trigger] self.is_hidden(i)
    }

    /// A target as it is shown: the written type, the parameter's name, or
    /// `{unnamed}` for a parameter without one.
    pub open spec fn spec_target(&self, target: &WherePredicateTypeTarget) -> Seq<char> {
        match *target {
            WherePredicateTypeTarget::TypeRef(ty) => ty.spec_text(),
            WherePredicateTypeTarget::TypeOrConstParam(id) => match self.type_or_consts@[id as int].spec_name() {
                Some(name) => name,
                None => "{unnamed}"@,
            },
        }
    }

    /// Whether the `i`-th predicate goes on the group of the one before it.
    pub open spec fn continues_group(&self, i: int) -> bool {
        i > 0 && self.where_predicates@[i].extends(&self.where_predicates@[i - 1])
    }

    /// Whether a predicate before the `i`-th is shown.
    pub open spec fn shown_before(&self, i: int) -> bool {
        exists|j: int|
            0 <= j < i && j < self.where_predicates@.len() && !#[trigger] self.is_hidden(j)
    }

    /// What starts a group: a new line and four spaces, after a comma that
    /// closes the group before it unless the group is the `first` one shown.
    pub open spec fn spec_group_start(first: bool) -> Seq<char> {
        if first {
            "\n    "@
        } else {
            ",\n    "@
        }
    }

    /// What starts the group of the `i`-th predicate: the start of the first
    /// group if no predicate before it is shown.
    pub open spec fn spec_new_predicate(&self, i: int) -> Seq<char> {
        Self::spec_group_start(!self.shown_before(i))
    }

    /// What the `i`-th predicate adds to the clause. A hidden one adds
    /// nothing. One that continues a group adds ` + ` and its bound. Any other
    /// starts a group: its binders if it has any, its target, `: ` and its
    /// bound.
    pub open spec fn spec_predicate(&self, i: int) -> Seq<char> {
        match self.where_predicates@[i] {
            WherePredicate::TypeBound { target, bound } => if self.is_unnamed_target(&target) {
                Seq::empty()
            } else {
                (if self.continues_group(i) {
                    " + "@
                } else {
                    self.spec_new_predicate(i) + self.spec_target(&target) + ": "@
                }) + bound.spec_text()
            },
            WherePredicate::Lifetime { target, bound } => (if self.continues_group(i) {
                " + "@
            } else {
                self.spec_new_predicate(i) + target@ + ": "@
            }) + bound@,
            WherePredicate::ForLifetime { lifetimes, target, bound } => (if self.continues_group(i) {
                " + "@
            } else {
                self.spec_new_predicate(i) + "for<"@ + spec_names(lifetimes@, ", "@) + "> "@
                    + self.spec_target(&target) + ": "@
            }) + bound.spec_text(),
        }
    }

    /// What the predicates from the `i`-th on add to the clause.
    pub open spec fn spec_predicates_from(&self, i: int) -> Seq<char>
        decreases self.where_predicates@.len() - i,
    {
        if 0 <= i < self.where_predicates@.len() {
            self.spec_predicate(i) + self.spec_predicates_from(i + 1)
        } else {
            Seq::empty()
        }
    }

    /// The where clause: nothing where no predicate is shown, else a new line
    /// and `where`, the predicates, and a closing comma.
    pub open spec fn spec_where_clause(&self) -> Seq<char> {
        if self.has_displayable_predicate() {
            "\nwhere"@ + self.spec_predicates_from(0) + ","@
        } else {
            Seq::empty()
        }
    }

    /// Tells whether every predicate that is on a parameter is on one that exists.
    pub fn is_well_formed(&self) -> (r: bool)
        ensures
            r == self.wf(),
    {
        let mut i: usize = 0;
        while i < self.where_predicates.len()
            invariant
                i <= self.where_predicates.len(),
                forall|j: int| 0 <= j < i ==> #[trigger] self.predicate_wf(j),
            decreases self.where_predicates.len() - i,
        {
            let ok = match &self.where_predicates[i] {
                WherePredicate::TypeBound { target, .. } => self.target_exists(target),
                WherePredicate::Lifetime { .. } => true,
                WherePredicate::ForLifetime { target, .. } => self.target_exists(target),
            };
            if !ok {
                assert(!self.predicate_wf(i as int));
                return false;
            }
            i += 1;
        }
        true
    }

    fn target_exists(&self, target: &WherePredicateTypeTarget) -> (r: bool)
        ensures
            r == self.has_target(target),
    {
        match target {
            WherePredicateTypeTarget::TypeRef(_) => true,
            WherePredicateTypeTarget::TypeOrConstParam(id) => *id < self.type_or_consts.len(),
        }
    }

    fn is_unnamed_type_target(&self, target: &WherePredicateTypeTarget) -> (r: bool)
        requires
            self.has_target(target),
        ensures
            r == self.is_unnamed_target(target),
    {
        match target {
            WherePredicateTypeTarget::TypeRef(_) => false,
            WherePredicateTypeTarget::TypeOrConstParam(id) => self.type_or_consts[*id].name().is_none(),
        }
    }

    /// Tells whether any predicate is shown.
    pub fn any_displayable_predicate(&self) -> (r: bool)
        requires
            self.wf(),
        ensures
            r == self.has_displayable_predicate(),
    {
        let mut i: usize = 0;
        while i < self.where_predicates.len()
            invariant
                i <= self.where_predicates.len(),
                self.wf(),
                forall|j: int| 0 <= j < i ==> #[trigger] self.is_hidden(j),
            decreases self.where_predicates.len() - i,
        {
            if !self.is_hidden_predicate(i) {
                assert(!self.is_hidden(i as int));
                return true;
            }
            i += 1;
        }
        false
    }

    fn write_target(&self, target: &WherePredicateTypeTarget, f: &mut Sink) -> (r: Result<
        (),
        RenderError,
    >)
        requires
            self.has_target(target),
        ensures
            final(f)@ == old(f)@.write(self.spec_target(target)),
            r == old(f)@.result(self.spec_target(target)),
    {
        match target {
            WherePredicateTypeTarget::TypeRef(ty) => ty.hir_fmt(f),
            WherePredicateTypeTarget::TypeOrConstParam(id) => match self.type_or_consts[*id].name() {
                Some(name) => f.write_str(name),
                None => f.write_str("{unnamed}"),
            },
        }
    }

    fn new_predicate(first: bool, f: &mut Sink) -> (r: Result<(), RenderError>)
        ensures
            final(f)@ == old(f)@.write(Self::spec_group_start(first)),
            r == old(f)@.result(Self::spec_group_start(first)),
    {
        f.write_str(
            if first {
                "\n    "
            } else {
                ",\n    "
            },
        )
    }

    fn is_hidden_predicate(&self, i: usize) -> (r: bool)
        requires
            self.wf(),
            i < self.where_predicates@.len(),
        ensures
            r == self.is_hidden(i as int),
    {
        assert(self.predicate_wf(i as int));
        match &self.where_predicates[i] {
            WherePredicate::TypeBound { target, .. } => self.is_unnamed_type_target(target),
            _ => false,
        }
    }

    fn write_predicate(&self, i: usize, first: bool, f: &mut Sink) -> (r: Result<(), RenderError>)
        requires
            self.wf(),
            i < self.where_predicates@.len(),
            first == !self.shown_before(i as int),
        ensures
            final(f)@ == old(f)@.write(self.spec_predicate(i as int)),
            r == old(f)@.result(self.spec_predicate(i as int)),
    {
        assert(self.predicate_wf(i as int));
        let pred = &self.where_predicates[i];
        let continues = i > 0 && pred.is_extending(&self.where_predicates[i - 1]);
        match pred {
            WherePredicate::TypeBound { target, bound } => {
                if self.is_unnamed_type_target(target) {
                    return Ok(());
                }
                if continues {
                    f.write_str(" + ")?;
                } else {
                    Self::new_predicate(first, f)?;
                    self.write_target(target, f)?;
                    f.write_str(": ")?;
                }
                bound.hir_fmt(f)
            },
            WherePredicate::Lifetime { target, bound } => {
                if continues {
                    f.write_str(" + ")?;
                } else {
                    Self::new_predicate(first, f)?;
                    f.write_str(target.as_str())?;
                    f.write_str(": ")?;
                }
                f.write_str(bound.as_str())
            },
            WherePredicate::ForLifetime { lifetimes, target, bound } => {
                if continues {
                    f.write_str(" + ")?;
                } else {
                    Self::new_predicate(first, f)?;
                    f.write_str("for<")?;
                    write_names(lifetimes, ", ", f)?;
                    f.write_str("> ")?;
                    self.write_target(target, f)?;
                    f.write_str(": ")?;
                }
                bound.hir_fmt(f)
            },
        }
    }

    fn write_predicates(&self, f: &mut Sink) -> (r: Result<(), RenderError>)
        requires
            self.wf(),
        ensures
            final(f)@ == old(f)@.write(self.spec_predicates_from(0)),
            r == old(f)@.result(self.spec_predicates_from(0)),
    {
        let mut first = true;
        let mut i: usize = 0;
        while i < self.where_predicates.len()
            invariant
                i <= self.where_predicates.len(),
                self.wf(),
                first == !self.shown_before(i as int),
                old(f)@.write(self.spec_predicates_from(0)) == f@.write(self.spec_predicates_from(i as int)),
                old(f)@.fits(self.spec_predicates_from(0)) == f@.fits(self.spec_predicates_from(i as int)),
            decreases self.where_predicates.len() - i,
        {
            self.write_predicate(i, first, f)?;
            if !self.is_hidden_predicate(i) {
                first = false;
            }
            i += 1;
        }
        Ok(())
    }
}

/// Writes the generic parameter list of a declaration, if it has one.
///
/// Lifetimes come first, then const parameters and the type parameters that
/// were written in the list, in the order of their declaration, separated by
/// `, `.
pub fn write_generic_params(params: &GenericParams, f: &mut Sink) -> (r: Result<(), RenderError>)
    ensures
        final(f)@ == old(f)@.write(params.spec_generic_params()),
        r == old(f)@.result(params.spec_generic_params()),
{
    if !params.needs_param_list() {
        return Ok(());
    }
    f.write_str("<")?;
    params.write_entries(f)?;
    f.write_str(">")
}

/// Writes the where clause of a declaration, if any of its predicates is
/// shown.
///
/// Predicates are grouped by adjacency alone: one that is of the same kind and
/// on the same target as the one just before it is joined to it with ` + `.
/// Each group stands on a line of its own and ends with a comma. A bound on a
/// parameter without a name is left out and leaves no comma behind.
pub fn write_where_clause(params: &GenericParams, f: &mut Sink) -> (r: Result<(), RenderError>)
    requires
        params.wf(),
    ensures
        final(f)@ == old(f)@.write(params.spec_where_clause()),
        r == old(f)@.result(params.spec_where_clause()),
{
    if !params.any_displayable_predicate() {
        return Ok(());
    }
    f.write_str("\nwhere")?;
    params.write_predicates(f)?;
    f.write_str(",")
}

} // verus!
