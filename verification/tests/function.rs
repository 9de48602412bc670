use hir_display::function::{Function, Param, SelfParam};
use hir_display::generics::{
    GenericParams, TypeOrConstParamData, TypeParamData, TypeParamProvenance, WherePredicate,
    WherePredicateTypeTarget,
};
use hir_display::sink::{RenderError, Sink};
use hir_display::types::{
    AssocTypeBinding, TypeBound, TypeBoundKind, TypeRef, TypeRefKind, Visibility,
};

fn ty(s: &str) -> TypeRef {
    TypeRef { kind: TypeRefKind::Other, text: s.to_string() }
}

fn unit() -> TypeRef {
    TypeRef { kind: TypeRefKind::Tuple(0), text: "()".to_string() }
}

fn self_ty() -> TypeRef {
    TypeRef { kind: TypeRefKind::SelfType, text: "Self".to_string() }
}

fn reference(inner: TypeRef, lifetime: Option<&str>, mutable: bool, text: &str) -> TypeRef {
    TypeRef {
        kind: TypeRefKind::Reference {
            inner: Box::new(inner),
            lifetime: lifetime.map(|l| l.to_string()),
            mutable,
        },
        text: text.to_string(),
    }
}

fn future_of(output: TypeRef) -> TypeRef {
    let text = format!("impl Future<Output = {}>", output.text);
    TypeRef {
        kind: TypeRefKind::ImplTrait(vec![TypeBound {
            kind: TypeBoundKind::Path {
                bindings: vec![AssocTypeBinding { name: "Output".to_string(), type_ref: Some(output) }],
            },
            text: "Future".to_string(),
        }]),
        text,
    }
}

fn param(name: Option<&str>, type_ref: TypeRef) -> Param {
    Param { name: name.map(|n| n.to_string()), type_ref }
}

fn function(name: &str, params: Vec<Param>, ret_type: TypeRef) -> Function {
    Function {
        visibility: Visibility { text: String::new() },
        has_default_kw: false,
        has_const_kw: false,
        has_async_kw: false,
        is_unsafe_to_call: false,
        abi: None,
        name: name.to_string(),
        generic_params: GenericParams::new(),
        has_self_param: false,
        params,
        is_varargs: false,
        ret_type,
    }
}

fn method(name: &str, receiver: TypeRef, mut rest: Vec<Param>, ret_type: TypeRef) -> Function {
    let mut params = vec![param(Some("self"), receiver)];
    params.append(&mut rest);
    let mut func = function(name, params, ret_type);
    func.has_self_param = true;
    func
}

fn render(func: &Function) -> String {
    assert!(func.is_well_formed());
    let mut f = Sink::new();
    assert_eq!(func.hir_fmt(&mut f), Ok(()));
    f.into_string()
}

fn render_self(func: &Function) -> String {
    let self_param = func.self_param().unwrap();
    assert!(self_param.is_well_formed());
    let mut f = Sink::new();
    assert_eq!(self_param.hir_fmt(&mut f), Ok(()));
    f.into_string()
}

#[test]
fn plain_function() {
    assert_eq!(render(&function("foo", vec![], unit())), "fn foo()");
}

#[test]
fn parameters_are_named_or_anonymous() {
    let func = function(
        "foo",
        vec![param(Some("x"), ty("i32")), param(None, ty("u8")), param(Some("y"), ty("&str"))],
        unit(),
    );
    assert_eq!(render(&func), "fn foo(x: i32, _: u8, y: &str)");
}

#[test]
fn qualifiers_come_in_a_fixed_order() {
    let mut func = function("f", vec![], unit());
    func.visibility = Visibility { text: "pub(crate) ".to_string() };
    func.has_default_kw = true;
    func.has_const_kw = true;
    func.is_unsafe_to_call = true;
    func.abi = Some("C".to_string());
    assert_eq!(render(&func), "pub(crate) default const unsafe extern \"C\" fn f()");
    func.has_default_kw = false;
    func.has_const_kw = false;
    func.abi = None;
    assert_eq!(render(&func), "pub(crate) unsafe fn f()");
    func.is_unsafe_to_call = false;
    func.has_const_kw = true;
    assert_eq!(render(&func), "pub(crate) const fn f()");
}

#[test]
fn all_four_qualifiers() {
    let mut func = function("f", vec![], future_of(unit()));
    func.has_default_kw = true;
    func.has_const_kw = true;
    func.has_async_kw = true;
    func.is_unsafe_to_call = true;
    assert_eq!(render(&func), "default const async unsafe fn f()");
}

#[test]
fn variadic_function() {
    let mut func = function("printf", vec![param(Some("fmt"), ty("*const u8"))], ty("i32"));
    func.is_unsafe_to_call = true;
    func.abi = Some("C".to_string());
    func.is_varargs = true;
    assert_eq!(render(&func), "unsafe extern \"C\" fn printf(fmt: *const u8, ...) -> i32");
}

#[test]
fn self_parameter_forms() {
    let by_value = method("f", self_ty(), vec![], unit());
    assert_eq!(render_self(&by_value), "self");
    let by_mut_ref = method("f", reference(self_ty(), Some("'a"), true, "&'a mut Self"), vec![], unit());
    assert_eq!(render_self(&by_mut_ref), "&'a mut self");
    let unrelated = method("f", ty("Box<Foo>"), vec![], unit());
    assert_eq!(render_self(&unrelated), "self: Box<Foo>");
}

#[test]
fn self_parameter_by_reference_without_lifetime() {
    let by_ref = method("f", reference(self_ty(), None, false, "&Self"), vec![], unit());
    assert_eq!(render_self(&by_ref), "&self");
    let by_mut_ref = method("f", reference(self_ty(), None, true, "&mut Self"), vec![], unit());
    assert_eq!(render_self(&by_mut_ref), "&mut self");
    let with_lifetime = method("f", reference(self_ty(), Some("'a"), false, "&'a Self"), vec![], unit());
    assert_eq!(render_self(&with_lifetime), "&'a self");
}

#[test]
fn self_parameter_that_refers_to_another_type() {
    let func = method("f", reference(ty("Foo"), None, true, "&mut Foo"), vec![], unit());
    assert_eq!(render_self(&func), "self: &mut Foo");
    let nested = method(
        "f",
        reference(reference(self_ty(), None, false, "&Self"), None, false, "&&Self"),
        vec![],
        unit(),
    );
    assert_eq!(render_self(&nested), "self: &&Self");
}

#[test]
fn receiver_is_not_counted_among_the_parameters() {
    let func = method(
        "get",
        reference(self_ty(), None, false, "&Self"),
        vec![param(Some("index"), ty("usize")), param(None, ty("bool"))],
        ty("Option<&T>"),
    );
    assert_eq!(render(&func), "fn get(&self, index: usize, _: bool) -> Option<&T>");
    let alone = method("len", reference(self_ty(), None, false, "&Self"), vec![], ty("usize"));
    assert_eq!(render(&alone), "fn len(&self) -> usize");
}

#[test]
fn function_without_receiver_has_no_self_param() {
    let func = function("f", vec![param(Some("self_"), self_ty())], unit());
    assert!(func.self_param().is_none());
    assert_eq!(render(&func), "fn f(self_: Self)");
}

#[test]
fn return_type_elision() {
    assert_eq!(render(&function("f", vec![], unit())), "fn f()");
    assert_eq!(render(&function("f", vec![], ty("i32"))), "fn f() -> i32");
    let pair = TypeRef { kind: TypeRefKind::Tuple(2), text: "(u8, u8)".to_string() };
    assert_eq!(render(&function("f", vec![], pair)), "fn f() -> (u8, u8)");
    assert_eq!(render(&function("f", vec![], ty("!"))), "fn f() -> !");
}

#[test]
fn async_function_shows_the_type_its_future_gives() {
    let mut func = function("fetch", vec![param(Some("url"), ty("&str"))], future_of(ty("Vec<u8>")));
    func.has_async_kw = true;
    assert_eq!(render(&func), "async fn fetch(url: &str) -> Vec<u8>");
    assert_eq!(func.ret_type().text, "Vec<u8>");
    let mut quiet = function("run", vec![], future_of(unit()));
    quiet.has_async_kw = true;
    assert_eq!(render(&quiet), "async fn run()");
}

#[test]
fn function_that_is_not_async_shows_an_opaque_type_as_it_is() {
    let func = function("make", vec![], future_of(ty("u8")));
    assert_eq!(render(&func), "fn make() -> impl Future<Output = u8>");
}

#[test]
fn malformed_functions_are_told_apart() {
    let mut not_a_future = function("f", vec![], ty("u8"));
    not_a_future.has_async_kw = true;
    assert!(!not_a_future.is_well_formed());

    let mut two_bounds = function("f", vec![], future_of(ty("u8")));
    two_bounds.has_async_kw = true;
    if let TypeRefKind::ImplTrait(bounds) = &mut two_bounds.ret_type.kind {
        bounds.push(TypeBound { kind: TypeBoundKind::Other, text: "Send".to_string() });
    }
    assert!(!two_bounds.is_well_formed());

    let mut no_binding = function("f", vec![], ty("impl Future"));
    no_binding.has_async_kw = true;
    no_binding.ret_type.kind = TypeRefKind::ImplTrait(vec![TypeBound {
        kind: TypeBoundKind::Path { bindings: vec![] },
        text: "Future".to_string(),
    }]);
    assert!(!no_binding.is_well_formed());

    let mut no_type = function("f", vec![], ty("impl Future<Output>"));
    no_type.has_async_kw = true;
    no_type.ret_type.kind = TypeRefKind::ImplTrait(vec![TypeBound {
        kind: TypeBoundKind::Path {
            bindings: vec![AssocTypeBinding { name: "Output".to_string(), type_ref: None }],
        },
        text: "Future<Output>".to_string(),
    }]);
    assert!(!no_type.is_well_formed());

    let mut not_a_trait = function("f", vec![], ty("impl 'a"));
    not_a_trait.has_async_kw = true;
    not_a_trait.ret_type.kind =
        TypeRefKind::ImplTrait(vec![TypeBound { kind: TypeBoundKind::Other, text: "'a".to_string() }]);
    assert!(!not_a_trait.is_well_formed());

    let mut no_receiver = function("f", vec![], unit());
    no_receiver.has_self_param = true;
    assert!(!no_receiver.is_well_formed());
    assert!(!SelfParam { func: &no_receiver }.is_well_formed());

    let mut bad_target = function("f", vec![], unit());
    bad_target.generic_params.where_predicates.push(WherePredicate::TypeBound {
        target: WherePredicateTypeTarget::TypeOrConstParam(3),
        bound: TypeBound { kind: TypeBoundKind::Other, text: "A".to_string() },
    });
    assert!(!bad_target.is_well_formed());
}

#[test]
fn generic_function_with_where_clause() {
    let mut func = function("map", vec![param(Some("f"), ty("F"))], ty("U"));
    func.visibility = Visibility { text: "pub ".to_string() };
    for name in ["T", "U", "F"] {
        func.generic_params.type_or_consts.push(TypeOrConstParamData::TypeParamData(TypeParamData {
            name: Some(name.to_string()),
            default: None,
            provenance: TypeParamProvenance::TypeParamList,
        }));
    }
    func.generic_params.where_predicates.push(WherePredicate::TypeBound {
        target: WherePredicateTypeTarget::TypeOrConstParam(2),
        bound: TypeBound { kind: TypeBoundKind::Other, text: "FnOnce(T) -> U".to_string() },
    });
    func.generic_params.where_predicates.push(WherePredicate::TypeBound {
        target: WherePredicateTypeTarget::TypeOrConstParam(2),
        bound: TypeBound { kind: TypeBoundKind::Other, text: "Send".to_string() },
    });
    assert_eq!(
        render(&func),
        "pub fn map<T, U, F>(f: F) -> U\nwhere\n    F: FnOnce(T) -> U + Send,"
    );
}

#[test]
fn function_with_an_impl_trait_argument() {
    let mut func = function("show", vec![param(Some("x"), ty("impl Display"))], unit());
    func.generic_params.type_or_consts.push(TypeOrConstParamData::TypeParamData(TypeParamData {
        name: None,
        default: None,
        provenance: TypeParamProvenance::ArgumentImplTrait,
    }));
    func.generic_params.where_predicates.push(WherePredicate::TypeBound {
        target: WherePredicateTypeTarget::TypeOrConstParam(0),
        bound: TypeBound { kind: TypeBoundKind::Other, text: "Display".to_string() },
    });
    assert_eq!(render(&func), "fn show(x: impl Display)");
}

#[test]
fn function_that_does_not_fit() {
    let func = function("foo", vec![param(Some("x"), ty("i32"))], ty("bool"));
    let whole = "fn foo(x: i32) -> bool";
    let mut n = 0;
    while n < whole.len() {
        let mut f = Sink::bounded(n);
        assert_eq!(func.hir_fmt(&mut f), Err(RenderError::SinkFull));
        assert_eq!(f.as_str(), &whole[..n]);
        n += 1;
    }
    let mut f = Sink::bounded(whole.len());
    assert_eq!(func.hir_fmt(&mut f), Ok(()));
    assert_eq!(f.as_str(), whole);
}

#[test]
fn rendering_goes_on_after_what_the_sink_holds() {
    let func = function("f", vec![], unit());
    let mut f = Sink::new();
    assert_eq!(f.write_str("// "), Ok(()));
    assert_eq!(func.hir_fmt(&mut f), Ok(()));
    assert_eq!(f.as_str(), "// fn f()");
}
