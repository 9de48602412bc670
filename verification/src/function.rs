//! Functions and their receivers.
use vstd::prelude::*;
use crate::generics::{GenericParams, write_generic_params, write_where_clause};
use crate::sink::{RenderError, Sink, group_sink};
use crate::types::{TypeRef, TypeRefKind, Visibility, lemma_join, spec_join, spec_join_from};

verus! {

broadcast use group_sink;

/// A parameter of a function: the name it is bound to, if that is known, and
/// its type as written.
#[derive(Debug)]
pub struct Param {
    pub name: Option<String>,
    pub type_ref: TypeRef,
}

/// A function.
///
/// `params` holds all parameters, the receiver first if `has_self_param`.
/// For an `async fn`, `ret_type` is the opaque future type that the function
/// is sugar for.
#[derive(Debug)]
pub struct Function {
    pub visibility: Visibility,
    pub has_default_kw: bool,
    pub has_const_kw: bool,
    pub has_async_kw: bool,
    pub is_unsafe_to_call: bool,
    pub abi: Option<String>,
    pub name: String,
    pub generic_params: GenericParams,
    pub has_self_param: bool,
    pub params: Vec<Param>,
    pub is_varargs: bool,
    pub ret_type: TypeRef,
}

/// The receiver of a function.
#[derive(Debug)]
pub struct SelfParam<'a> {
    pub func: &'a Function,
}

impl Param {
    /// `name: Type`, or `_: Type` where the name is not known.
    pub open spec fn spec_text(&self) -> Seq<char> {
        (match self.name {
            Some(name) => name@ + ": "@,
            None => "_: "@,
        }) + self.type_ref.spec_text()
    }

    fn hir_fmt(&self, f: &mut Sink) -> (r: Result<(), RenderError>)
        ensures
            final(f)@ == old(f)@.write(self.spec_text()),
            r == old(f)@.result(self.spec_text()),
    {
        match &self.name {
            Some(name) => {
                f.write_str(name.as_str())?;
                f.write_str(": ")?;
            },
            None => f.write_str("_: ")?,
        }
        self.type_ref.hir_fmt(f)
    }
}

impl<'a> SelfParam<'a> {
    /// The function has a first parameter to take the receiver from.
    pub open spec fn wf(&self) -> bool {
        self.func.params@.len() > 0
    }

    /// `self` for a receiver of type `Self`; `&self`, with the lifetime and
    /// `mut` that are written, for a reference to `Self`; `self: Type` for any
    /// other.
    pub open spec fn spec_text(&self) -> Seq<char> {
        let ty = self.func.params@[0].type_ref;
        match ty.kind {
            TypeRefKind::SelfType => "self"@,
            TypeRefKind::Reference { inner, lifetime, mutable } => if inner.is_self_type() {
                "&"@ + (match lifetime {
                    Some(lifetime) => lifetime@ + " "@,
                    None => Seq::empty(),
                }) + (if mutable {
                    "mut "@
                } else {
                    Seq::empty()
                }) + "self"@
            } else {
                "self: "@ + ty.spec_text()
            },
            _ => "self: "@ + ty.spec_text(),
        }
    }

    /// Tells whether the function has a first parameter.
    pub fn is_well_formed(&self) -> (r: bool)
        ensures
            r == self.wf(),
    {
        self.func.params.len() > 0
    }

    /// Writes the receiver in its shortest form.
    pub fn hir_fmt(&self, f: &mut Sink) -> (r: Result<(), RenderError>)
        requires
            self.wf(),
        ensures
            final(f)@ == old(f)@.write(self.spec_text()),
            r == old(f)@.result(self.spec_text()),
    {
        let ty = &self.func.params[0].type_ref;
        match &ty.kind {
            TypeRefKind::SelfType => f.write_str("self"),
            TypeRefKind::Reference { inner, lifetime, mutable } => {
                if inner.is_self() {
                    f.write_str("&")?;
                    if let Some(lifetime) = lifetime {
                        f.write_str(lifetime.as_str())?;
                        f.write_str(" ")?;
                    }
                    if *mutable {
                        f.write_str("mut ")?;
                    }
                    f.write_str("self")
                } else {
                    f.write_str("self: ")?;
                    ty.hir_fmt(f)
                }
            },
            _ => {
                f.write_str("self: ")?;
                ty.hir_fmt(f)
            },
        }
    }
}

impl Function {
    /// What rendering relies on: every where predicate is on a target that
    /// exists, a function with a receiver has a first parameter, and the return
    /// type of an `async fn` is an opaque type with a single trait bound that
    /// binds a single associated type.
    pub open spec fn wf(&self) -> bool {
        &&& self.generic_params.wf()
        &&& self.has_self_param ==> self.params@.len() > 0
        &&& self.has_async_kw ==> self.ret_type.single_binding() is Some
    }

    /// The type that the function returns to its caller: for an `async fn`
    /// the type that its future gives, else the return type as written.
    pub open spec fn spec_ret_type(&self) -> TypeRef {
        if self.has_async_kw {
            self.ret_type.single_binding().unwrap()
        } else {
            self.ret_type
        }
    }

    /// The keywords before `fn`, each followed by a space.
    pub open spec fn spec_qualifiers(&self) -> Seq<char> {
        (if self.has_default_kw {
            "default "@
        } else {
            Seq::empty()
        }) + (if self.has_const_kw {
            "const "@
        } else {
            Seq::empty()
        }) + (if self.has_async_kw {
            "async "@
        } else {
            Seq::empty()
        }) + (if self.is_unsafe_to_call {
            "unsafe "@
        } else {
            Seq::empty()
        })
    }

    /// `extern "ABI" ` where an ABI is given.
    pub open spec fn spec_abi(&self) -> Seq<char> {
        match self.abi {
            Some(abi) => "extern \""@ + abi@ + "\" "@,
            None => Seq::empty(),
        }
    }

    /// What stands between the parentheses, one text for each parameter: the
    /// receiver in its short form where the function has one, and each other
    /// parameter as `name: Type`.
    pub open spec fn spec_param_texts(&self) -> Seq<Seq<char>> {
        Seq::new(
            self.params@.len(),
            |i: int|
                if i == 0 && self.has_self_param {
                    (SelfParam { func: self }).spec_text()
                } else {
                    self.params@[i].spec_text()
                },
        )
    }

    /// The parameters joined by `, `, and `, ...` for a variadic function.
    pub open spec fn spec_param_list(&self) -> Seq<char> {
        spec_join(self.spec_param_texts(), ", "@) + (if self.is_varargs {
            ", ..."@
        } else {
            Seq::empty()
        })
    }

    /// ` -> Type`, or nothing where the function returns the unit type.
    pub open spec fn spec_ret(&self) -> Seq<char> {
        if self.spec_ret_type().is_unit() {
            Seq::empty()
        } else {
            " -> "@ + self.spec_ret_type().spec_text()
        }
    }

    /// The whole signature.
    pub open spec fn spec_text(&self) -> Seq<char> {
        self.visibility.spec_text() + self.spec_qualifiers() + self.spec_abi() + "fn "@ + self.name@
            + self.generic_params.spec_generic_params() + "("@ + self.spec_param_list() + ")"@
            + self.spec_ret() + self.generic_params.spec_where_clause()
    }

    /// Tells whether the function has the shape that rendering relies on.
    pub fn is_well_formed(&self) -> (r: bool)
        ensures
            r == self.wf(),
    {
        self.generic_params.is_well_formed()
            && (!self.has_self_param || self.params.len() > 0)
            && (!self.has_async_kw || self.ret_type.unwrap_single_binding().is_some())
    }

    /// The receiver, if the function has one.
    pub fn self_param(&self) -> (r: Option<SelfParam<'_>>)
        ensures
            r is Some == self.has_self_param,
            r matches Some(p) ==> *p.func == *self,
    {
        if self.has_self_param {
            Some(SelfParam { func: self })
        } else {
            None
        }
    }

    /// The type that the function returns to its caller.
    pub fn ret_type(&self) -> (r: &TypeRef)
        requires
            self.wf(),
        ensures
            *r == self.spec_ret_type(),
    {
        if !self.has_async_kw {
            &self.ret_type
        } else {
            match self.ret_type.unwrap_single_binding() {
                Some(ty) => ty,
                None => &self.ret_type,
            }
        }
    }

    fn write_qualifiers(&self, f: &mut Sink) -> (r: Result<(), RenderError>)
        ensures
            final(f)@ == old(f)@.write(self.spec_qualifiers()),
            r == old(f)@.result(self.spec_qualifiers()),
    {
        if self.has_default_kw {
            f.write_str("default ")?;
        }
        if self.has_const_kw {
            f.write_str("const ")?;
        }
        if self.has_async_kw {
            f.write_str("async ")?;
        }
        if self.is_unsafe_to_call {
            f.write_str("unsafe ")?;
        }
        Ok(())
    }

    fn write_params(&self, f: &mut Sink) -> (r: Result<(), RenderError>)
        requires
            self.wf(),
        ensures
            final(f)@ == old(f)@.write(spec_join(self.spec_param_texts(), ", "@)),
            r == old(f)@.result(spec_join(self.spec_param_texts(), ", "@)),
    {
        let ghost parts = self.spec_param_texts();
        proof {
            lemma_join(parts, ", "@);
        }
        let mut i: usize = 0;
        if let Some(self_param) = self.self_param() {
            self_param.hir_fmt(f)?;
            i = 1;
        }
        while i < self.params.len()
            invariant
                i <= self.params.len(),
                self.has_self_param ==> i > 0,
                parts == self.spec_param_texts(),
                old(f)@.write(spec_join(parts, ", "@)) == f@.write(spec_join_from(parts, ", "@, i as int)),
                old(f)@.fits(spec_join(parts, ", "@)) == f@.fits(spec_join_from(parts, ", "@, i as int)),
            decreases self.params.len() - i,
        {
            if i != 0 {
                f.write_str(", ")?;
            }
            self.params[i].hir_fmt(f)?;
            i += 1;
        }
        Ok(())
    }

    fn write_param_list(&self, f: &mut Sink) -> (r: Result<(), RenderError>)
        requires
            self.wf(),
        ensures
            final(f)@ == old(f)@.write(self.spec_param_list()),
            r == old(f)@.result(self.spec_param_list()),
    {
        self.write_params(f)?;
        if self.is_varargs {
            f.write_str(", ...")?;
        }
        Ok(())
    }

    /// Writes the signature: visibility, the keywords `default`, `const`,
    /// `async` and `unsafe` in this order, the ABI, `fn` and the name, the
    /// generic parameters, the parameters, the return type unless it is the
    /// unit type, and the where clause.
    pub fn hir_fmt(&self, f: &mut Sink) -> (r: Result<(), RenderError>)
        requires
            self.wf(),
        ensures
            final(f)@ == old(f)@.write(self.spec_text()),
            r == old(f)@.result(self.spec_text()),
    {
        self.visibility.hir_fmt(f)?;
        self.write_qualifiers(f)?;
        if let Some(abi) = &self.abi {
            f.write_str("extern \"")?;
            f.write_str(abi.as_str())?;
            f.write_str("\" ")?;
        }
        f.write_str("fn ")?;
        f.write_str(self.name.as_str())?;

        write_generic_params(&self.generic_params, f)?;

        f.write_str("(")?;
        self.write_param_list(f)?;
        f.write_str(")")?;

        let ret_type = self.ret_type();
        if !ret_type.is_empty_tuple() {
            f.write_str(" -> ")?;
            ret_type.hir_fmt(f)?;
        }

        write_where_clause(&self.generic_params, f)
    }
}

} // verus!
