//! Visibility, types and bounds: what the formatters of types and of
//! visibility render, together with as much of a type's shape as the
//! declaration renderers decide on.
use vstd::prelude::*;
use crate::sink::{RenderError, Sink, group_sink};

verus! {

broadcast use group_sink;

/// How far a declaration can be seen, as its qualifier is rendered: empty, or
/// text such as `pub ` or `pub(crate) ` that ends with a space.
#[derive(Debug)]
pub struct Visibility {
    pub text: String,
}

impl Visibility {
    /// The qualifier as it is rendered.
    pub open spec fn spec_text(&self) -> Seq<char> {
        self.text@
    }

    /// Writes the qualifier.
    pub fn hir_fmt(&self, f: &mut Sink) -> (r: Result<(), RenderError>)
        ensures
            final(f)@ == old(f)@.write(self.spec_text()),
            r == old(f)@.result(self.spec_text()),
    {
        f.write_str(self.text.as_str())
    }
}

/// A resolved type, as the type formatter renders it.
#[derive(Debug)]
pub struct Type {
    pub text: String,
}

impl Type {
    /// The type as it is rendered.
    pub open spec fn spec_text(&self) -> Seq<char> {
        self.text@
    }

    /// Writes the type.
    pub fn hir_fmt(&self, f: &mut Sink) -> (r: Result<(), RenderError>)
        ensures
            final(f)@ == old(f)@.write(self.spec_text()),
            r == old(f)@.result(self.spec_text()),
    {
        f.write_str(self.text.as_str())
    }
}

/// The shapes of a written type that a renderer tells apart.
#[derive(Debug)]
pub enum TypeRefKind {
    /// A tuple of this many elements; with none it is the unit type.
    Tuple(usize),
    /// A path that is exactly `Self`.
    SelfType,
    /// A reference, with the lifetime's name if one is written.
    Reference { inner: Box<TypeRef>, lifetime: Option<String>, mutable: bool },
    /// An opaque type `impl A + B`, with its bounds in order.
    ImplTrait(Vec<TypeBound>),
    /// Any other type.
    Other,
}

/// A type as it is written in a declaration: its shape, and its text as the
/// type formatter renders it.
#[derive(Debug)]
pub struct TypeRef {
    pub kind: TypeRefKind,
    pub text: String,
}

/// The shapes of a bound that a renderer tells apart.
#[derive(Debug)]
pub enum TypeBoundKind {
    /// A trait path; `bindings` are the associated type bindings of its last
    /// segment, in order.
    Path { bindings: Vec<AssocTypeBinding> },
    /// A lifetime, or any other bound.
    Other,
}

/// A bound as it is written, with its text as the formatter renders it.
#[derive(Debug)]
pub struct TypeBound {
    pub kind: TypeBoundKind,
    pub text: String,
}

/// `Name = Type` among the generic arguments of a path.
#[derive(Debug)]
pub struct AssocTypeBinding {
    pub name: String,
    pub type_ref: Option<TypeRef>,
}

impl TypeRef {
    /// The type as it is rendered.
    pub open spec fn spec_text(&self) -> Seq<char> {
        self.text@
    }

    /// Whether this is the empty tuple.
    pub open spec fn is_unit(&self) -> bool {
        self.kind == TypeRefKind::Tuple(0)
    }

    /// Whether this is the path `Self`.
    pub open spec fn is_self_type(&self) -> bool {
        self.kind is SelfType
    }

    /// Two written types are the same when they are rendered alike. A type is
    /// held by its text and by no more of its shape than the renderers decide
    /// on, so its text is what tells it from every other type.
    pub open spec fn same_as(&self, other: &TypeRef) -> bool {
        self.text@ == other.text@
    }

    /// For an opaque type with a single bound that is a trait path with a
    /// single associated type binding: the type that the binding gives.
    pub open spec fn single_binding(&self) -> Option<TypeRef> {
        match self.kind {
            TypeRefKind::ImplTrait(bounds) => if bounds@.len() == 1 {
                match bounds@[0].kind {
                    TypeBoundKind::Path { bindings } => if bindings@.len() == 1 {
                        bindings@[0].type_ref
                    } else {
                        None
                    },
                    TypeBoundKind::Other => None,
                }
            } else {
                None
            },
            _ => None,
        }
    }

    /// Writes the type.
    pub fn hir_fmt(&self, f: &mut Sink) -> (r: Result<(), RenderError>)
        ensures
            final(f)@ == old(f)@.write(self.spec_text()),
            r == old(f)@.result(self.spec_text()),
    {
        f.write_str(self.text.as_str())
    }

    /// Tells whether this is the empty tuple.
    pub fn is_empty_tuple(&self) -> (r: bool)
        ensures
            r == self.is_unit(),
    {
        match &self.kind {
            TypeRefKind::Tuple(n) => *n == 0,
            _ => false,
        }
    }

    /// Tells whether this is the path `Self`.
    pub fn is_self(&self) -> (r: bool)
        ensures
            r == self.is_self_type(),
    {
        match &self.kind {
            TypeRefKind::SelfType => true,
            _ => false,
        }
    }

    /// Tells whether two written types are the same.
    pub fn is_same(&self, other: &TypeRef) -> (r: bool)
        ensures
            r == self.same_as(other),
    {
        self.text == other.text
    }

    /// The type behind the sugar of an `async fn`'s return type, if this type
    /// has that form.
    pub fn unwrap_single_binding(&self) -> (r: Option<&TypeRef>)
        ensures
            match r {
                Some(t) => self.single_binding() == Some(*t),
                None => self.single_binding() is None,
            },
    {
        match &self.kind {
            TypeRefKind::ImplTrait(bounds) => {
                if bounds.len() != 1 {
                    return None;
                }
                match &bounds[0].kind {
                    TypeBoundKind::Path { bindings } => {
                        if bindings.len() != 1 {
                            return None;
                        }
                        match &bindings[0].type_ref {
                            Some(t) => Some(t),
                            None => None,
                        }
                    },
                    TypeBoundKind::Other => None,
                }
            },
            _ => None,
        }
    }
}

impl TypeBound {
    /// The bound as it is rendered.
    pub open spec fn spec_text(&self) -> Seq<char> {
        self.text@
    }

    /// Writes the bound.
    pub fn hir_fmt(&self, f: &mut Sink) -> (r: Result<(), RenderError>)
        ensures
            final(f)@ == old(f)@.write(self.spec_text()),
            r == old(f)@.result(self.spec_text()),
    {
        f.write_str(self.text.as_str())
    }
}

/// The parts one after another, with `sep` between each two neighbours.
pub open spec fn spec_join(parts: Seq<Seq<char>>, sep: Seq<char>) -> Seq<char>
    decreases parts.len(),
{
    if parts.len() == 0 {
        Seq::empty()
    } else if parts.len() == 1 {
        parts[0]
    } else {
        parts[0] + sep + spec_join(parts.drop_first(), sep)
    }
}

/// The parts from the `i`-th on, each after `sep` but the first of all.
pub open spec fn spec_join_from(parts: Seq<Seq<char>>, sep: Seq<char>, i: int) -> Seq<char>
    decreases parts.len() - i,
{
    if 0 <= i < parts.len() {
        (if i == 0 {
            Seq::empty()
        } else {
            sep
        }) + parts[i] + spec_join_from(parts, sep, i + 1)
    } else {
        Seq::empty()
    }
}

/// What is left of a joined list from the `i`-th part on is the join of those
/// parts, after `sep` unless it is the whole list.
pub proof fn lemma_join_from(parts: Seq<Seq<char>>, sep: Seq<char>, i: int)
    requires
        0 <= i <= parts.len(),
    ensures
        spec_join_from(parts, sep, i) == (if i == 0 || i == parts.len() {
            Seq::empty()
        } else {
            sep
        }) + spec_join(parts.skip(i), sep),
    decreases parts.len() - i,
{
    let rest = parts.skip(i);
    if i < parts.len() {
        lemma_join_from(parts, sep, i + 1);
        assert(rest.drop_first() =~= parts.skip(i + 1));
        assert(rest[0] == parts[i]);
        let lead = if i == 0 {
            Seq::<char>::empty()
        } else {
            sep
        };
        if i + 1 == parts.len() {
            assert(spec_join(parts.skip(i + 1), sep) =~= Seq::<char>::empty());
            assert(lead + parts[i] + (Seq::<char>::empty() + Seq::<char>::empty()) =~= lead
                + parts[i]);
        } else {
            assert(lead + parts[i] + (sep + spec_join(parts.skip(i + 1), sep)) =~= lead + (parts[i]
                + sep + spec_join(parts.skip(i + 1), sep)));
        }
    } else {
        assert(Seq::<char>::empty() + spec_join(rest, sep) =~= Seq::<char>::empty());
    }
}

/// A list written part by part, each after `sep` but the first, is the join
/// of its parts.
pub proof fn lemma_join(parts: Seq<Seq<char>>, sep: Seq<char>)
    ensures
        spec_join_from(parts, sep, 0) == spec_join(parts, sep),
{
    lemma_join_from(parts, sep, 0);
    assert(parts.skip(0) =~= parts);
    assert(Seq::<char>::empty() + spec_join(parts, sep) =~= spec_join(parts, sep));
}

/// The names as texts.
pub open spec fn spec_name_texts(names: Seq<String>) -> Seq<Seq<char>> {
    names.map_values(|name: String| name@)
}

/// The names, joined by `sep`.
pub open spec fn spec_names(names: Seq<String>, sep: Seq<char>) -> Seq<char> {
    spec_join(spec_name_texts(names), sep)
}

/// Writes the names, joined by `sep`.
pub fn write_names(names: &Vec<String>, sep: &str, f: &mut Sink) -> (r: Result<(), RenderError>)
    ensures
        final(f)@ == old(f)@.write(spec_names(names@, sep@)),
        r == old(f)@.result(spec_names(names@, sep@)),
{
    let ghost parts = spec_name_texts(names@);
    proof {
        lemma_join(parts, sep@);
    }
    let mut i: usize = 0;
    while i < names.len()
        invariant
            i <= names.len(),
            parts == spec_name_texts(names@),
            old(f)@.write(spec_join(parts, sep@)) == f@.write(spec_join_from(parts, sep@, i as int)),
            old(f)@.fits(spec_join(parts, sep@)) == f@.fits(spec_join_from(parts, sep@, i as int)),
        decreases names.len() - i,
    {
        if i != 0 {
            f.write_str(sep)?;
        }
        f.write_str(names[i].as_str())?;
        i += 1;
    }
    Ok(())
}

/// The bounds as texts.
pub open spec fn spec_bound_texts(bounds: Seq<TypeBound>) -> Seq<Seq<char>> {
    bounds.map_values(|bound: TypeBound| bound.spec_text())
}

/// The bounds, joined by `sep`.
pub open spec fn spec_bounds(bounds: Seq<TypeBound>, sep: Seq<char>) -> Seq<char> {
    spec_join(spec_bound_texts(bounds), sep)
}

/// Writes the bounds, joined by `sep`.
pub fn write_joined(bounds: &Vec<TypeBound>, sep: &str, f: &mut Sink) -> (r: Result<(), RenderError>)
    ensures
        final(f)@ == old(f)@.write(spec_bounds(bounds@, sep@)),
        r == old(f)@.result(spec_bounds(bounds@, sep@)),
{
    let ghost parts = spec_bound_texts(bounds@);
    proof {
        lemma_join(parts, sep@);
    }
    let mut i: usize = 0;
    while i < bounds.len()
        invariant
            i <= bounds.len(),
            parts == spec_bound_texts(bounds@),
            old(f)@.write(spec_join(parts, sep@)) == f@.write(spec_join_from(parts, sep@, i as int)),
            old(f)@.fits(spec_join(parts, sep@)) == f@.fits(spec_join_from(parts, sep@, i as int)),
        decreases bounds.len() - i,
    {
        if i != 0 {
            f.write_str(sep)?;
        }
        bounds[i].hir_fmt(f)?;
        i += 1;
    }
    Ok(())
}

} // verus!
