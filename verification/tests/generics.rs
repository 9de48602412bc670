use hir_display::generics::{
    same_names, write_generic_params, write_where_clause, ConstParamData, GenericParams,
    LifetimeParamData, TypeOrConstParamData, TypeParamData, TypeParamProvenance, WherePredicate,
    WherePredicateTypeTarget,
};
use hir_display::sink::{RenderError, Sink};
use hir_display::types::{TypeBound, TypeBoundKind, TypeRef, TypeRefKind};

fn ty(s: &str) -> TypeRef {
    TypeRef { kind: TypeRefKind::Other, text: s.to_string() }
}

fn bound(s: &str) -> TypeBound {
    TypeBound { kind: TypeBoundKind::Other, text: s.to_string() }
}

fn lifetime(s: &str) -> LifetimeParamData {
    LifetimeParamData { name: s.to_string() }
}

fn type_param(name: &str) -> TypeOrConstParamData {
    TypeOrConstParamData::TypeParamData(TypeParamData {
        name: Some(name.to_string()),
        default: None,
        provenance: TypeParamProvenance::TypeParamList,
    })
}

fn impl_trait_param() -> TypeOrConstParamData {
    TypeOrConstParamData::TypeParamData(TypeParamData {
        name: None,
        default: None,
        provenance: TypeParamProvenance::ArgumentImplTrait,
    })
}

fn const_param(name: &str, t: &str, default: Option<&str>) -> TypeOrConstParamData {
    TypeOrConstParamData::ConstParamData(ConstParamData {
        name: name.to_string(),
        ty: ty(t),
        default: default.map(|d| d.to_string()),
    })
}

fn on_param(id: usize, b: &str) -> WherePredicate {
    WherePredicate::TypeBound { target: WherePredicateTypeTarget::TypeOrConstParam(id), bound: bound(b) }
}

fn on_type(t: &str, b: &str) -> WherePredicate {
    WherePredicate::TypeBound { target: WherePredicateTypeTarget::TypeRef(ty(t)), bound: bound(b) }
}

fn outlives(a: &str, b: &str) -> WherePredicate {
    WherePredicate::Lifetime { target: a.to_string(), bound: b.to_string() }
}

fn for_all(lifetimes: &[&str], id: usize, b: &str) -> WherePredicate {
    WherePredicate::ForLifetime {
        lifetimes: lifetimes.iter().map(|l| l.to_string()).collect(),
        target: WherePredicateTypeTarget::TypeOrConstParam(id),
        bound: bound(b),
    }
}

fn params(
    lifetimes: Vec<LifetimeParamData>,
    type_or_consts: Vec<TypeOrConstParamData>,
    where_predicates: Vec<WherePredicate>,
) -> GenericParams {
    GenericParams { type_or_consts, lifetimes, where_predicates }
}

fn list(p: &GenericParams) -> String {
    let mut f = Sink::new();
    assert_eq!(write_generic_params(p, &mut f), Ok(()));
    f.into_string()
}

fn clause(p: &GenericParams) -> String {
    assert!(p.is_well_formed());
    let mut f = Sink::new();
    assert_eq!(write_where_clause(p, &mut f), Ok(()));
    f.into_string()
}

#[test]
fn no_parameters_no_list() {
    let p = GenericParams::new();
    assert!(!p.needs_param_list());
    assert_eq!(list(&p), "");
    assert_eq!(clause(&p), "");
}

#[test]
fn lifetimes_then_types_and_consts_in_order() {
    let p = params(
        vec![lifetime("'a"), lifetime("'b")],
        vec![type_param("T"), const_param("N", "usize", None), type_param("U")],
        vec![],
    );
    assert!(p.needs_param_list());
    assert_eq!(list(&p), "<'a, 'b, T, const N: usize, U>");
}

#[test]
fn single_lifetime_list() {
    let p = params(vec![lifetime("'a")], vec![], vec![]);
    assert_eq!(list(&p), "<'a>");
}

#[test]
fn defaults_are_rendered_after_an_equals_sign() {
    let with_default = TypeOrConstParamData::TypeParamData(TypeParamData {
        name: Some("T".to_string()),
        default: Some(ty("u32")),
        provenance: TypeParamProvenance::TypeParamList,
    });
    let p = params(vec![], vec![with_default, const_param("N", "usize", Some("3"))], vec![]);
    assert_eq!(list(&p), "<T = u32, const N: usize = 3>");
}

#[test]
fn generics_omission_for_synthetic_type_parameters_only() {
    let trait_self = TypeOrConstParamData::TypeParamData(TypeParamData {
        name: Some("Self".to_string()),
        default: None,
        provenance: TypeParamProvenance::TraitSelf,
    });
    let p = params(vec![], vec![impl_trait_param(), trait_self, impl_trait_param()], vec![]);
    assert!(!p.needs_param_list());
    assert_eq!(list(&p), "");
}

#[test]
fn synthetic_type_parameters_are_skipped_in_the_list() {
    let p = params(
        vec![],
        vec![impl_trait_param(), type_param("T"), impl_trait_param(), type_param("U")],
        vec![],
    );
    assert_eq!(list(&p), "<T, U>");
    let q = params(vec![lifetime("'a")], vec![impl_trait_param()], vec![]);
    assert_eq!(list(&q), "<'a>");
}

#[test]
fn a_const_parameter_alone_calls_for_a_list() {
    let p = params(vec![], vec![impl_trait_param(), const_param("N", "u8", None)], vec![]);
    assert_eq!(list(&p), "<const N: u8>");
}

#[test]
fn a_written_type_parameter_without_a_name_is_not_shown() {
    let unnamed = TypeOrConstParamData::TypeParamData(TypeParamData {
        name: None,
        default: None,
        provenance: TypeParamProvenance::TypeParamList,
    });
    let p = params(vec![], vec![unnamed], vec![]);
    assert!(p.needs_param_list());
    assert_eq!(list(&p), "<>");
}

#[test]
fn parameter_list_that_does_not_fit() {
    let p = params(vec![lifetime("'a")], vec![type_param("T")], vec![]);
    let mut f = Sink::bounded(4);
    assert_eq!(write_generic_params(&p, &mut f), Err(RenderError::SinkFull));
    assert_eq!(f.as_str(), "<'a,");
    let mut g = Sink::bounded(7);
    assert_eq!(write_generic_params(&p, &mut g), Ok(()));
    assert_eq!(g.as_str(), "<'a, T>");
}

#[test]
fn where_clause_grouping() {
    let p = params(
        vec![],
        vec![type_param("T"), type_param("U")],
        vec![on_param(0, "A"), on_param(0, "B"), on_param(1, "C")],
    );
    let text = clause(&p);
    assert_eq!(text, "\nwhere\n    T: A + B,\n    U: C,");
    assert!(text.contains("T: A + B"));
    assert!(text.contains(",\n    U: C,"));
    assert!(!text.contains("T: A, T: B"));
}

#[test]
fn grouping_is_by_adjacency_only() {
    let p = params(
        vec![],
        vec![type_param("T"), type_param("U")],
        vec![on_param(0, "A"), on_param(1, "C"), on_param(0, "B")],
    );
    assert_eq!(clause(&p), "\nwhere\n    T: A,\n    U: C,\n    T: B,");
}

#[test]
fn anonymous_target_elision() {
    let p = params(vec![], vec![impl_trait_param()], vec![on_param(0, "Display")]);
    assert!(!p.any_displayable_predicate());
    assert_eq!(clause(&p), "");
    let q = params(
        vec![],
        vec![impl_trait_param(), impl_trait_param()],
        vec![on_param(0, "Display"), on_param(1, "Debug"), on_param(0, "Clone")],
    );
    assert_eq!(clause(&q), "");
}

#[test]
fn anonymous_target_is_left_out_among_others() {
    let p = params(
        vec![],
        vec![type_param("T"), impl_trait_param()],
        vec![on_param(0, "A"), on_param(1, "Display"), on_param(0, "B")],
    );
    assert!(p.any_displayable_predicate());
    assert_eq!(clause(&p), "\nwhere\n    T: A,\n    T: B,");
}

#[test]
fn anonymous_target_first_leaves_no_comma() {
    let p = params(
        vec![],
        vec![impl_trait_param(), type_param("T")],
        vec![on_param(0, "Display"), on_param(1, "A")],
    );
    assert_eq!(clause(&p), "\nwhere\n    T: A,");
    let q = params(
        vec![],
        vec![impl_trait_param(), type_param("T"), type_param("U")],
        vec![on_param(0, "Display"), on_param(0, "Debug"), on_param(1, "A"), on_param(0, "Clone"), on_param(2, "B")],
    );
    assert_eq!(clause(&q), "\nwhere\n    T: A,\n    U: B,");
}

#[test]
fn anonymous_targets_leave_no_comma_anywhere() {
    let p = params(
        vec![lifetime("'a"), lifetime("'b")],
        vec![impl_trait_param(), type_param("T")],
        vec![
            on_param(0, "Display"),
            outlives("'a", "'b"),
            on_param(0, "Debug"),
            for_all(&["'c"], 1, "Fn(&'c u8)"),
            on_param(0, "Clone"),
        ],
    );
    assert_eq!(clause(&p), "\nwhere\n    'a: 'b,\n    for<'c> T: Fn(&'c u8),");
    let q = params(
        vec![],
        vec![impl_trait_param(), type_param("T")],
        vec![on_param(0, "Display"), for_all(&["'c"], 0, "Fn(&'c u8)"), on_param(1, "A")],
    );
    assert_eq!(clause(&q), "\nwhere\n    for<'c> {unnamed}: Fn(&'c u8),\n    T: A,");
}

#[test]
fn bounds_on_written_types() {
    let p = params(
        vec![],
        vec![type_param("T")],
        vec![on_type("Vec<T>", "Clone"), on_type("Vec<T>", "Send"), on_type("Box<T>", "Sync")],
    );
    assert_eq!(clause(&p), "\nwhere\n    Vec<T>: Clone + Send,\n    Box<T>: Sync,");
}

#[test]
fn a_written_type_and_a_parameter_are_different_targets() {
    let p = params(vec![], vec![type_param("T")], vec![on_param(0, "A"), on_type("T", "B")]);
    assert_eq!(clause(&p), "\nwhere\n    T: A,\n    T: B,");
}

#[test]
fn lifetime_bounds_are_grouped_by_name() {
    let p = params(
        vec![lifetime("'a"), lifetime("'b"), lifetime("'c")],
        vec![],
        vec![outlives("'a", "'b"), outlives("'a", "'c"), outlives("'b", "'c")],
    );
    assert_eq!(clause(&p), "\nwhere\n    'a: 'b + 'c,\n    'b: 'c,");
}

#[test]
fn higher_ranked_bounds() {
    let p = params(
        vec![],
        vec![type_param("F")],
        vec![
            for_all(&["'a", "'b"], 0, "Fn(&'a u8, &'b u8)"),
            for_all(&["'a", "'b"], 0, "Send"),
            for_all(&["'b", "'a"], 0, "Sync"),
            for_all(&[], 0, "Copy"),
        ],
    );
    assert_eq!(
        clause(&p),
        "\nwhere\n    for<'a, 'b> F: Fn(&'a u8, &'b u8) + Send,\n    for<'b, 'a> F: Sync,\n    for<> F: Copy,"
    );
}

#[test]
fn higher_ranked_bound_on_an_unnamed_parameter() {
    let p = params(vec![], vec![impl_trait_param()], vec![for_all(&["'a"], 0, "Fn(&'a u8)")]);
    assert!(p.any_displayable_predicate());
    assert_eq!(clause(&p), "\nwhere\n    for<'a> {unnamed}: Fn(&'a u8),");
}

#[test]
fn predicates_of_different_kinds_are_not_grouped() {
    let p = params(
        vec![],
        vec![type_param("T")],
        vec![on_param(0, "A"), for_all(&["'a"], 0, "B"), on_param(0, "C")],
    );
    assert_eq!(clause(&p), "\nwhere\n    T: A,\n    for<'a> T: B,\n    T: C,");
}

#[test]
fn bound_on_a_const_parameter_target() {
    let p = params(vec![], vec![const_param("N", "usize", None)], vec![on_param(0, "A")]);
    assert_eq!(clause(&p), "\nwhere\n    N: A,");
}

#[test]
fn where_clause_that_does_not_fit() {
    let p = params(vec![], vec![type_param("T")], vec![on_param(0, "A"), on_param(0, "B")]);
    let mut f = Sink::bounded(15);
    assert_eq!(write_where_clause(&p, &mut f), Err(RenderError::SinkFull));
    assert_eq!(f.as_str(), "\nwhere\n    T: A");
    let mut g = Sink::bounded(20);
    assert_eq!(write_where_clause(&p, &mut g), Ok(()));
    assert_eq!(g.as_str(), "\nwhere\n    T: A + B,");
    assert_eq!(g.remaining(), Some(0));
}

#[test]
fn a_target_that_does_not_exist_is_not_well_formed() {
    let p = params(vec![], vec![type_param("T")], vec![on_param(0, "A"), on_param(1, "B")]);
    assert!(!p.is_well_formed());
    let q = params(vec![], vec![], vec![for_all(&["'a"], 0, "B")]);
    assert!(!q.is_well_formed());
    let r = params(vec![], vec![], vec![on_type("u8", "B"), outlives("'a", "'b")]);
    assert!(r.is_well_formed());
}

#[test]
fn same_names_compares_in_order() {
    let a = vec!["'a".to_string(), "'b".to_string()];
    let b = vec!["'a".to_string(), "'b".to_string()];
    let c = vec!["'b".to_string(), "'a".to_string()];
    let d = vec!["'a".to_string()];
    assert!(same_names(&a, &b));
    assert!(!same_names(&a, &c));
    assert!(!same_names(&a, &d));
    assert!(same_names(&Vec::new(), &Vec::new()));
}

#[test]
fn where_targets_compare_by_kind_and_value() {
    let a = WherePredicateTypeTarget::TypeRef(ty("T"));
    let b = WherePredicateTypeTarget::TypeRef(ty("T"));
    let c = WherePredicateTypeTarget::TypeRef(ty("U"));
    let d = WherePredicateTypeTarget::TypeOrConstParam(0);
    let e = WherePredicateTypeTarget::TypeOrConstParam(1);
    assert!(a.is_same(&b));
    assert!(!a.is_same(&c));
    assert!(!a.is_same(&d));
    assert!(!d.is_same(&a));
    assert!(d.is_same(&WherePredicateTypeTarget::TypeOrConstParam(0)));
    assert!(!d.is_same(&e));
}
