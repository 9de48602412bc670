//! What holds of every rendering.
use vstd::prelude::*;
use crate::adt::{Enum, Struct};
use crate::decl::Declaration;
use crate::function::{Function, SelfParam};
use crate::generics::{GenericParams, TypeOrConstParamData, WherePredicate};
use crate::sink::{RenderError, SinkState, group_sink};
use crate::types::TypeRefKind;

verus! {

broadcast use group_sink;

/// The text of a declaration depends on the sink's two modes alone, not on
/// what the sink holds or how much room it has.
pub proof fn lemma_text_depends_on_modes_only(d: Declaration, s1: SinkState, s2: SinkState)
    requires
        s1.omit_verbose_bounds == s2.omit_verbose_bounds,
        s1.implicit_sized_default == s2.implicit_sized_default,
    ensures
        d.spec_text(s1) == d.spec_text(s2),
{
}

/// Rendering a declaration a second time renders the same text again: where
/// both renderings fit, the sink holds the text twice after what it held
/// before.
pub proof fn lemma_rendering_twice(d: Declaration, s: SinkState)
    ensures
        d.spec_text(s.write(d.spec_text(s))) == d.spec_text(s),
        s.fits(d.spec_text(s) + d.spec_text(s)) ==> s.write(d.spec_text(s)).write(
            d.spec_text(s.write(d.spec_text(s))),
        ).text == s.text + d.spec_text(s) + d.spec_text(s),
{
    let t = d.spec_text(s);
    lemma_text_depends_on_modes_only(d, s, s.write(t));
    if s.fits(t + t) {
        s.lemma_write(t + t);
        assert(s.text + (t + t) =~= s.text + t + t);
    }
}

/// When a rendering succeeds: always into a sink without a bound, and into a
/// bounded sink exactly when the text is no longer than the room that is left.
/// The sink then holds the whole text after what it held before.
pub proof fn lemma_success_is_owed(d: Declaration, s: SinkState)
    ensures
        s.room is None ==> s.result(d.spec_text(s)) == Ok::<(), RenderError>(()),
        s.room matches Some(n) ==> (s.result(d.spec_text(s)) is Ok <==> d.spec_text(s).len() <= n),
        s.result(d.spec_text(s)) is Ok ==> s.write(d.spec_text(s)).text == s.text + d.spec_text(s),
{
    s.lemma_write(d.spec_text(s));
}

/// A failed rendering leaves the beginning of the text in the sink: the sink
/// is full, and what it holds is what an unbounded sink would hold, cut off.
pub proof fn lemma_failure_keeps_beginning(d: Declaration, s: SinkState)
    requires
        !s.fits(d.spec_text(s)),
    ensures
        s.room is Some,
        s.write(d.spec_text(s)).room == Some(0nat),
        s.write(d.spec_text(s)).text == (s.text + d.spec_text(s)).take(
            (s.text.len() + s.room.unwrap()) as int,
        ),
{
    let t = d.spec_text(s);
    s.lemma_write(t);
    let n = s.room.unwrap();
    assert(s.text + t.take(n as int) =~= (s.text + t).take((s.text.len() + n) as int));
}

/// A declaration without lifetime and const parameters, whose type parameters
/// were all not written in a parameter list, has no parameter list.
pub proof fn lemma_generics_omitted(params: GenericParams)
    requires
        params.lifetimes@.len() == 0,
        forall|i: int|
            0 <= i < params.type_or_consts@.len() ==> (#[trigger] params.type_or_consts@[i]
                matches TypeOrConstParamData::TypeParamData(ty) && !(ty.provenance is TypeParamList)),
    ensures
        params.spec_generic_params() == Seq::<char>::empty(),
{
}

/// A bound on a parameter without a name adds nothing to the where clause.
pub proof fn lemma_hidden_predicate_adds_nothing(params: GenericParams, i: int)
    requires
        0 <= i < params.where_predicates@.len(),
        params.is_hidden(i),
    ensures
        params.spec_predicate(i) == Seq::<char>::empty(),
{
}

/// Where every predicate is a bound on a parameter without a name, there is
/// no where clause, not even the word `where`.
pub proof fn lemma_unnamed_targets_elided(params: GenericParams)
    requires
        forall|i: int| 0 <= i < params.where_predicates@.len() ==> #[trigger] params.is_hidden(i),
    ensures
        params.spec_where_clause() == Seq::<char>::empty(),
{
}

/// With every predicate before the `k`-th hidden, the `j`-th predicate after
/// them adds what it adds where those before the `k`-th are not there.
proof fn lemma_predicate_after_hidden(p: GenericParams, q: GenericParams, k: int, j: int)
    requires
        0 <= k <= p.where_predicates@.len(),
        forall|h: int| 0 <= h < k ==> #[trigger] p.is_hidden(h),
        q.type_or_consts@ == p.type_or_consts@,
        q.where_predicates@ == p.where_predicates@.skip(k),
        0 <= j < q.where_predicates@.len(),
    ensures
        q.is_hidden(j) == p.is_hidden(k + j),
        q.spec_predicate(j) == p.spec_predicate(k + j),
{
    assert(q.where_predicates@[j] == p.where_predicates@[k + j]);
    assert forall|h: int| 0 <= h < q.where_predicates@.len() implies #[trigger] q.is_hidden(h)
        == p.is_hidden(k + h) by {
        assert(q.where_predicates@[h] == p.where_predicates@[k + h]);
    }
    if q.shown_before(j) {
        let w = choose|w: int|
            0 <= w < j && w < q.where_predicates@.len() && !#[trigger] q.is_hidden(w);
        assert(!p.is_hidden(k + w));
        assert(p.shown_before(k + j));
    }
    if p.shown_before(k + j) {
        let w = choose|w: int|
            0 <= w < k + j && w < p.where_predicates@.len() && !#[trigger] p.is_hidden(w);
        assert(w >= k);
        assert(!q.is_hidden(w - k));
        assert(q.shown_before(j));
    }
    if j > 0 {
        assert(q.where_predicates@[j - 1] == p.where_predicates@[k + j - 1]);
    } else if k > 0 {
        assert(p.is_hidden(k - 1));
    }
}

/// With every predicate before the `k`-th hidden, the predicates from the
/// `j`-th after them on add what they add where those before the `k`-th are
/// not there.
proof fn lemma_predicates_after_hidden(p: GenericParams, q: GenericParams, k: int, j: int)
    requires
        0 <= k <= p.where_predicates@.len(),
        forall|h: int| 0 <= h < k ==> #[trigger] p.is_hidden(h),
        q.type_or_consts@ == p.type_or_consts@,
        q.where_predicates@ == p.where_predicates@.skip(k),
        0 <= j <= q.where_predicates@.len(),
    ensures
        q.spec_predicates_from(j) == p.spec_predicates_from(k + j),
    decreases q.where_predicates@.len() - j,
{
    if j < q.where_predicates@.len() {
        lemma_predicate_after_hidden(p, q, k, j);
        lemma_predicates_after_hidden(p, q, k, j + 1);
    }
}

/// Hidden predicates at the beginning add nothing.
proof fn lemma_hidden_beginning(p: GenericParams, k: int)
    requires
        0 <= k <= p.where_predicates@.len(),
        forall|h: int| 0 <= h < k ==> #[trigger] p.is_hidden(h),
    ensures
        p.spec_predicates_from(0) == p.spec_predicates_from(k),
    decreases k,
{
    if k > 0 {
        lemma_hidden_beginning(p, k - 1);
        assert(p.is_hidden(k - 1));
        assert(p.spec_predicate(k - 1) == Seq::<char>::empty());
        assert(Seq::<char>::empty() + p.spec_predicates_from(k) =~= p.spec_predicates_from(k));
    }
}

/// Bounds on parameters without a name that stand before every other
/// predicate leave no trace: the where clause is the same as without them.
pub proof fn lemma_leading_hidden_predicates_leave_no_trace(
    p: GenericParams,
    q: GenericParams,
    k: int,
)
    requires
        0 <= k <= p.where_predicates@.len(),
        forall|h: int| 0 <= h < k ==> #[trigger] p.is_hidden(h),
        q.type_or_consts@ == p.type_or_consts@,
        q.where_predicates@ == p.where_predicates@.skip(k),
    ensures
        p.spec_where_clause() == q.spec_where_clause(),
{
    lemma_hidden_beginning(p, k);
    lemma_predicates_after_hidden(p, q, k, 0);
    assert forall|h: int| 0 <= h < q.where_predicates@.len() implies #[trigger] q.is_hidden(h)
        == p.is_hidden(k + h) by {
        lemma_predicate_after_hidden(p, q, k, h);
    }
    if q.has_displayable_predicate() {
        let w = choose|w: int| 0 <= w < q.where_predicates@.len() && !#[trigger] q.is_hidden(w);
        assert(!p.is_hidden(k + w));
    }
    if p.has_displayable_predicate() {
        let w = choose|w: int| 0 <= w < p.where_predicates@.len() && !#[trigger] p.is_hidden(w);
        assert(w >= k);
        assert(!q.is_hidden(w - k));
    }
}

/// The first predicate that is shown starts on a new line after `where`,
/// with no comma before it.
pub proof fn lemma_first_shown_group_has_no_comma(params: GenericParams, i: int)
    requires
        0 <= i < params.where_predicates@.len(),
        forall|h: int| 0 <= h < i ==> #[trigger] params.is_hidden(h),
    ensures
        params.spec_new_predicate(i) == "\n    "@,
{
}

/// A where clause that is there ends with a comma.
pub proof fn lemma_where_clause_ends_with_comma(params: GenericParams)
    requires
        params.has_displayable_predicate(),
    ensures
        params.spec_where_clause().len() > 0,
        params.spec_where_clause().last() == ',',
{
    reveal_strlit(",");
}

/// A shown bound on the target of the predicate just before it is joined to
/// that one with ` + `: the target is not written again.
pub proof fn lemma_adjacent_bounds_grouped(params: GenericParams, i: int)
    requires
        0 < i < params.where_predicates@.len(),
        !params.is_hidden(i),
        params.where_predicates@[i] is TypeBound,
        params.where_predicates@[i].extends(&params.where_predicates@[i - 1]),
    ensures
        params.where_predicates@[i] matches WherePredicate::TypeBound { bound, .. }
            && params.spec_predicate(i) == " + "@ + bound.spec_text(),
{
}

/// A record struct without fields has the body ` {}`.
pub proof fn lemma_empty_record_struct(s: Struct)
    requires
        s.kind is Record,
        s.fields@.len() == 0,
    ensures
        s.spec_text() == s.visibility.spec_text() + "struct "@ + s.name@
            + s.generic_params.spec_generic_params() + s.generic_params.spec_where_clause() + " {}"@,
{
    let head = s.visibility.spec_text() + "struct "@ + s.name@ + s.generic_params.spec_generic_params();
    assert(head + Seq::<char>::empty() =~= head);
}

/// An enum without variants has no body: its text ends with the where clause.
pub proof fn lemma_enum_without_variants(e: Enum)
    requires
        e.variants@.len() == 0,
    ensures
        e.spec_text() == e.visibility.spec_text() + "enum "@ + e.name@
            + e.generic_params.spec_generic_params() + e.generic_params.spec_where_clause(),
{
    let head = e.visibility.spec_text() + "enum "@ + e.name@ + e.generic_params.spec_generic_params()
        + e.generic_params.spec_where_clause();
    assert(head + Seq::<char>::empty() =~= head);
}

/// The three forms of a receiver: `self` by value, `&self` with what is
/// written of lifetime and `mut`, and `self: Type` for any other type.
pub proof fn lemma_self_param_forms(p: SelfParam)
    requires
        p.wf(),
    ensures
        ({
            let ty = p.func.params@[0].type_ref;
            match ty.kind {
                TypeRefKind::SelfType => p.spec_text() == "self"@,
                TypeRefKind::Reference { inner, lifetime, mutable } => if inner.is_self_type() {
                    match lifetime {
                        Some(lifetime) => if mutable {
                            p.spec_text() == "&"@ + lifetime@ + " "@ + "mut "@ + "self"@
                        } else {
                            p.spec_text() == "&"@ + lifetime@ + " "@ + "self"@
                        },
                        None => if mutable {
                            p.spec_text() == "&"@ + "mut "@ + "self"@
                        } else {
                            p.spec_text() == "&"@ + "self"@
                        },
                    }
                } else {
                    p.spec_text() == "self: "@ + ty.spec_text()
                },
                _ => p.spec_text() == "self: "@ + ty.spec_text(),
            }
        }),
{
    let ty = p.func.params@[0].type_ref;
    match ty.kind {
        TypeRefKind::Reference { inner, lifetime, mutable } => {
            if inner.is_self_type() {
                match lifetime {
                    Some(lifetime) => {
                        assert("&"@ + (lifetime@ + " "@) =~= "&"@ + lifetime@ + " "@);
                        assert("&"@ + lifetime@ + " "@ + Seq::<char>::empty() =~= "&"@ + lifetime@ + " "@);
                    },
                    None => {
                        assert("&"@ + Seq::<char>::empty() =~= "&"@);
                    },
                }
            }
        },
        _ => {},
    }
}

/// A function that returns the unit type to its caller has no `->`; any
/// other has ` -> ` and the type, with the space before the arrow.
pub proof fn lemma_return_type_elision(func: Function)
    ensures
        func.spec_ret_type().is_unit() ==> func.spec_ret() == Seq::<char>::empty(),
        !func.spec_ret_type().is_unit() ==> func.spec_ret() == " -> "@ + func.spec_ret_type().spec_text()
            && func.spec_ret()[0] == ' ',
{
    reveal_strlit(" -> ");
}

} // verus!
