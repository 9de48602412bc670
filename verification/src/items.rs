//! Constants, statics, traits, aliases, modules and macros.
use vstd::prelude::*;
use crate::sink::{RenderError, Sink, group_sink};
use crate::generics::{GenericParams, write_generic_params, write_where_clause};
use crate::types::{TypeBound, TypeRef, Visibility, spec_bounds, write_joined};

verus! {

broadcast use group_sink;

/// A `static` item.
#[derive(Debug)]
pub struct Static {
    pub visibility: Visibility,
    pub mutable: bool,
    pub name: String,
    pub type_ref: TypeRef,
}

impl Static {
    /// `static NAME: TYPE`, with `mut ` before the name of a mutable one.
    pub open spec fn spec_text(&self) -> Seq<char> {
        self.visibility.spec_text() + "static "@ + (if self.mutable {
            "mut "@
        } else {
            Seq::empty()
        }) + self.name@ + ": "@ + self.type_ref.spec_text()
    }

    /// Writes the static.
    pub fn hir_fmt(&self, f: &mut Sink) -> (r: Result<(), RenderError>)
        ensures
            final(f)@ == old(f)@.write(self.spec_text()),
            r == old(f)@.result(self.spec_text()),
    {
        self.visibility.hir_fmt(f)?;
        f.write_str("static ")?;
        if self.mutable {
            f.write_str("mut ")?;
        }
        f.write_str(self.name.as_str())?;
        f.write_str(": ")?;
        self.type_ref.hir_fmt(f)
    }
}

/// A `const` item; one written as `const _` has no name.
#[derive(Debug)]
pub struct Const {
    pub visibility: Visibility,
    pub name: Option<String>,
    pub type_ref: TypeRef,
}

impl Const {
    /// `const NAME: TYPE`, with `_` for the name of one that has none.
    pub open spec fn spec_text(&self) -> Seq<char> {
        self.visibility.spec_text() + "const "@ + (match self.name {
            Some(name) => name@ + ": "@,
            None => "_: "@,
        }) + self.type_ref.spec_text()
    }

    /// Writes the constant.
    pub fn hir_fmt(&self, f: &mut Sink) -> (r: Result<(), RenderError>)
        ensures
            final(f)@ == old(f)@.write(self.spec_text()),
            r == old(f)@.result(self.spec_text()),
    {
        self.visibility.hir_fmt(f)?;
        f.write_str("const ")?;
        match &self.name {
            Some(name) => {
                f.write_str(name.as_str())?;
                f.write_str(": ")?;
            },
            None => f.write_str("_: ")?,
        }
        self.type_ref.hir_fmt(f)
    }
}

/// A trait.
#[derive(Debug)]
pub struct Trait {
    pub visibility: Visibility,
    pub is_unsafe: bool,
    pub is_auto: bool,
    pub name: String,
    pub generic_params: GenericParams,
}

impl Trait {
    /// `trait NAME` after `unsafe ` and `auto ` where they apply, then the
    /// generic parameters and the where clause.
    pub open spec fn spec_text(&self) -> Seq<char> {
        self.visibility.spec_text() + (if self.is_unsafe {
            "unsafe "@
        } else {
            Seq::empty()
        }) + (if self.is_auto {
            "auto "@
        } else {
            Seq::empty()
        }) + "trait "@ + self.name@ + self.generic_params.spec_generic_params()
            + self.generic_params.spec_where_clause()
    }

    /// Writes the head of the trait.
    pub fn hir_fmt(&self, f: &mut Sink) -> (r: Result<(), RenderError>)
        requires
            self.generic_params.wf(),
        ensures
            final(f)@ == old(f)@.write(self.spec_text()),
            r == old(f)@.result(self.spec_text()),
    {
        self.visibility.hir_fmt(f)?;
        if self.is_unsafe {
            f.write_str("unsafe ")?;
        }
        if self.is_auto {
            f.write_str("auto ")?;
        }
        f.write_str("trait ")?;
        f.write_str(self.name.as_str())?;
        write_generic_params(&self.generic_params, f)?;
        write_where_clause(&self.generic_params, f)
    }
}

/// A trait alias. Its bounds are held as where predicates on `Self`.
#[derive(Debug)]
pub struct TraitAlias {
    pub visibility: Visibility,
    pub name: String,
    pub generic_params: GenericParams,
}

impl TraitAlias {
    /// `trait NAME`, the generic parameters, ` = ` and the where clause.
    pub open spec fn spec_text(&self) -> Seq<char> {
        self.visibility.spec_text() + "trait "@ + self.name@
            + self.generic_params.spec_generic_params() + " = "@
            + self.generic_params.spec_where_clause()
    }

    /// Writes the trait alias.
    pub fn hir_fmt(&self, f: &mut Sink) -> (r: Result<(), RenderError>)
        requires
            self.generic_params.wf(),
        ensures
            final(f)@ == old(f)@.write(self.spec_text()),
            r == old(f)@.result(self.spec_text()),
    {
        self.visibility.hir_fmt(f)?;
        f.write_str("trait ")?;
        f.write_str(self.name.as_str())?;
        write_generic_params(&self.generic_params, f)?;
        f.write_str(" = ")?;
        write_where_clause(&self.generic_params, f)
    }
}

/// A type alias, or an associated type with its bounds.
#[derive(Debug)]
pub struct TypeAlias {
    pub visibility: Visibility,
    pub name: String,
    pub generic_params: GenericParams,
    pub bounds: Vec<TypeBound>,
    pub type_ref: Option<TypeRef>,
}

impl TypeAlias {
    /// `type NAME`, the generic parameters, the where clause, the bounds after
    /// `: ` and joined by ` + ` where there are any, and ` = TYPE` where a
    /// type is given.
    pub open spec fn spec_text(&self) -> Seq<char> {
        self.visibility.spec_text() + "type "@ + self.name@
            + self.generic_params.spec_generic_params() + self.generic_params.spec_where_clause() + (
        if self.bounds@.len() > 0 {
            ": "@ + spec_bounds(self.bounds@, " + "@)
        } else {
            Seq::empty()
        }) + (match self.type_ref {
            Some(ty) => " = "@ + ty.spec_text(),
            None => Seq::empty(),
        })
    }

    /// Writes the type alias.
    pub fn hir_fmt(&self, f: &mut Sink) -> (r: Result<(), RenderError>)
        requires
            self.generic_params.wf(),
        ensures
            final(f)@ == old(f)@.write(self.spec_text()),
            r == old(f)@.result(self.spec_text()),
    {
        self.visibility.hir_fmt(f)?;
        f.write_str("type ")?;
        f.write_str(self.name.as_str())?;
        write_generic_params(&self.generic_params, f)?;
        write_where_clause(&self.generic_params, f)?;
        if self.bounds.len() > 0 {
            f.write_str(": ")?;
            write_joined(&self.bounds, " + ", f)?;
        }
        if let Some(ty) = &self.type_ref {
            f.write_str(" = ")?;
            ty.hir_fmt(f)?;
        }
        Ok(())
    }
}

/// A module. The root module of a crate has no name of its own; it goes by
/// the display name of its crate, if that has one.
#[derive(Debug)]
pub struct Module {
    pub name: Option<String>,
    pub is_crate_root: bool,
    pub krate_display_name: Option<String>,
}

impl Module {
    /// `mod NAME` for a named module; for a crate root `extern crate NAME`,
    /// with `{unknown}` for a crate without a display name; `mod {unnamed}`
    /// for any other.
    pub open spec fn spec_text(&self) -> Seq<char> {
        match self.name {
            Some(name) => "mod "@ + name@,
            None => if self.is_crate_root {
                match self.krate_display_name {
                    Some(name) => "extern crate "@ + name@,
                    None => "extern crate {unknown}"@,
                }
            } else {
                "mod {unnamed}"@
            },
        }
    }

    /// Writes the module.
    pub fn hir_fmt(&self, f: &mut Sink) -> (r: Result<(), RenderError>)
        ensures
            final(f)@ == old(f)@.write(self.spec_text()),
            r == old(f)@.result(self.spec_text()),
    {
        match &self.name {
            Some(name) => {
                f.write_str("mod ")?;
                f.write_str(name.as_str())
            },
            None => if self.is_crate_root {
                match &self.krate_display_name {
                    Some(name) => {
                        f.write_str("extern crate ")?;
                        f.write_str(name.as_str())
                    },
                    None => f.write_str("extern crate {unknown}"),
                }
            } else {
                f.write_str("mod {unnamed}")
            },
        }
    }
}

/// The kinds of macro.
#[derive(Debug)]
pub enum MacroKind {
    /// A `macro` item.
    Macro2,
    /// A `macro_rules!` item.
    MacroRules,
    /// A procedural macro.
    ProcMacro,
}

/// A macro.
#[derive(Debug)]
pub struct Macro {
    pub kind: MacroKind,
    pub name: String,
}

impl Macro {
    /// `macro`, `macro_rules!` or `proc_macro`, a space and the name.
    pub open spec fn spec_text(&self) -> Seq<char> {
        (match self.kind {
            MacroKind::Macro2 => "macro"@,
            MacroKind::MacroRules => "macro_rules!"@,
            MacroKind::ProcMacro => "proc_macro"@,
        }) + " "@ + self.name@
    }

    /// Writes the macro.
    pub fn hir_fmt(&self, f: &mut Sink) -> (r: Result<(), RenderError>)
        ensures
            final(f)@ == old(f)@.write(self.spec_text()),
            r == old(f)@.result(self.spec_text()),
    {
        match self.kind {
            MacroKind::Macro2 => f.write_str("macro"),
            MacroKind::MacroRules => f.write_str("macro_rules!"),
            MacroKind::ProcMacro => f.write_str("proc_macro"),
        }?;
        f.write_str(" ")?;
        f.write_str(self.name.as_str())
    }
}

/// An `extern crate` declaration.
#[derive(Debug)]
pub struct ExternCrateDecl {
    pub visibility: Visibility,
    pub name: String,
    pub alias: Option<String>,
}

impl ExternCrateDecl {
    /// `extern crate NAME`, and ` as ALIAS` where there is an alias.
    pub open spec fn spec_text(&self) -> Seq<char> {
        self.visibility.spec_text() + "extern crate "@ + self.name@ + (match self.alias {
            Some(alias) => " as "@ + alias@,
            None => Seq::empty(),
        })
    }

    /// Writes the declaration.
    pub fn hir_fmt(&self, f: &mut Sink) -> (r: Result<(), RenderError>)
        ensures
            final(f)@ == old(f)@.write(self.spec_text()),
            r == old(f)@.result(self.spec_text()),
    {
        self.visibility.hir_fmt(f)?;
        f.write_str("extern crate ")?;
        f.write_str(self.name.as_str())?;
        if let Some(alias) = &self.alias {
            f.write_str(" as ")?;
            f.write_str(alias.as_str())?;
        }
        Ok(())
    }
}

} // verus!
