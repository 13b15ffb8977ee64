use async_into_future::async_into_future;
use async_into_future::bounds::parse_bounds;
use async_into_future::generate::generate;
use async_into_future::model::{ExpandError, FnInput, Param, RawFn};
use async_into_future::render::{render, render_fn_decl};
use async_into_future::validate::validate;

fn base_fn(name: &str) -> RawFn {
    RawFn {
        is_async: true,
        is_const: false,
        is_variadic: false,
        attrs: vec![],
        vis: String::new(),
        is_unsafe: false,
        abi: None,
        name: name.to_string(),
        generics: String::new(),
        lifetimes: vec![],
        inputs: vec![],
        output: None,
        body: "{ }".to_string(),
    }
}

fn fetch_fn() -> RawFn {
    let mut f = base_fn("fetch");
    f.inputs = vec![FnInput::Typed(Param {
        pat: "id".to_string(),
        ty: "u32".to_string(),
    })];
    f.output = Some("String".to_string());
    f.body = "{ id.to_string() }".to_string();
    f
}

#[test]
fn fetch_scenario_emits_three_declarations() {
    let decls = async_into_future("Send", fetch_fn()).unwrap();
    assert_eq!(decls.len(), 3);
    assert_eq!(
        decls[0],
        "#[allow(non_camel_case_types)] struct __AsyncIntoFuture__fetch  { id: u32 }"
    );
    assert_eq!(
        decls[1],
        "impl  ::std::future::IntoFuture for __AsyncIntoFuture__fetch  { \
         type IntoFuture = ::std::pin::Pin<::std::boxed::Box<\
         dyn ::std::future::Future<Output = String> + Send>>; \
         type Output = String; \
         fn into_future(self) -> Self::IntoFuture { \
         let Self { id } = self; \
         ::std::boxed::Box::pin(async move { id.to_string() }) } }"
    );
    assert_eq!(
        decls[2],
        " fn fetch  (id: u32) -> __AsyncIntoFuture__fetch { __AsyncIntoFuture__fetch { id } }"
    );
}

#[test]
fn fetch_scenario_structured_pieces() {
    let item = validate(fetch_fn()).unwrap();
    let bounds = parse_bounds("Send").unwrap();
    assert_eq!(bounds, vec!["Send".to_string()]);
    let g = generate(&item, &bounds);
    assert_eq!(g.aux.name, "__AsyncIntoFuture__fetch");
    assert_eq!(g.aux.fields, vec!["id: u32".to_string()]);
    assert_eq!(g.cap.future_bounds, vec!["Send".to_string()]);
    assert_eq!(g.cap.output_ty, "String");
    assert_eq!(g.cap.patterns, vec!["id".to_string()]);
    assert_eq!(g.repl.name, "fetch");
    assert_eq!(g.repl.ret_ty, "__AsyncIntoFuture__fetch");
    assert_eq!(g.repl.params, vec!["id: u32".to_string()]);
    assert_eq!(g.repl.ctor_fields, vec!["id".to_string()]);
}

#[test]
fn sync_function_is_refused_as_not_async() {
    let mut f = base_fn("f");
    f.is_async = false;
    let err = async_into_future("", f).unwrap_err();
    assert!(matches!(err, ExpandError::NotAsync));
    assert_eq!(
        err.message(),
        "`async-into-future` can only be used on async functions"
    );
}

#[test]
fn not_async_takes_priority_over_const() {
    let mut f = base_fn("f");
    f.is_async = false;
    f.is_const = true;
    let err = async_into_future("", f).unwrap_err();
    assert!(matches!(err, ExpandError::NotAsync));
}

#[test]
fn const_async_function_is_refused_as_const() {
    let mut f = base_fn("f");
    f.is_const = true;
    let err = async_into_future("", f).unwrap_err();
    assert!(matches!(err, ExpandError::ConstFn));
    assert_eq!(
        err.message(),
        "`async-into-future` cannot be used on const functions"
    );
}

#[test]
fn variadic_function_is_refused() {
    let mut f = base_fn("f");
    f.is_variadic = true;
    let err = async_into_future("", f).unwrap_err();
    assert!(matches!(err, ExpandError::Variadic));
    assert_eq!(
        err.message(),
        "`async-into-future` cannot be used on variadic functions"
    );
}

#[test]
fn method_receiver_is_refused() {
    let mut f = base_fn("m");
    f.inputs = vec![FnInput::Receiver("&self".to_string())];
    let err = async_into_future("", f).unwrap_err();
    assert!(matches!(err, ExpandError::MethodReceiver));
    assert_eq!(
        err.message(),
        "`async-into-future` cannot be used inside impl blocks"
    );
}

#[test]
fn receiver_after_first_position_is_accepted() {
    let mut f = base_fn("f");
    f.inputs = vec![
        FnInput::Typed(Param {
            pat: "x".to_string(),
            ty: "u8".to_string(),
        }),
        FnInput::Receiver("&self".to_string()),
    ];
    assert!(async_into_future("", f).is_ok());
}

#[test]
fn empty_attribute_yields_empty_bound_list() {
    let bounds = parse_bounds("").unwrap();
    assert!(bounds.is_empty());
}

#[test]
fn empty_bound_list_adds_no_future_bounds() {
    let item = validate(base_fn("f")).unwrap();
    let g = generate(&item, &vec![]);
    assert!(g.cap.future_bounds.is_empty());
    let decls = render(&g);
    assert!(decls[1].contains("Future<Output = ()>>>"));
}

#[test]
fn bound_list_preserves_order() {
    let bounds = parse_bounds("Sync, Send").unwrap();
    assert_eq!(bounds, vec!["Sync".to_string(), "Send".to_string()]);
}

#[test]
fn trailing_comma_in_bound_list_is_accepted() {
    let bounds = parse_bounds("Send,").unwrap();
    assert_eq!(bounds, vec!["Send".to_string()]);
}

#[test]
fn malformed_bound_list_is_refused() {
    let err = parse_bounds("123").unwrap_err();
    assert!(matches!(err, ExpandError::MalformedBounds { .. }));
}

#[test]
fn malformed_bound_list_fails_whole_expansion() {
    let err = async_into_future("123", base_fn("f")).unwrap_err();
    assert!(matches!(err, ExpandError::MalformedBounds { .. }));
}

#[test]
fn item_checks_run_before_the_bound_list() {
    let mut f = base_fn("f");
    f.is_async = false;
    let err = async_into_future("123", f).unwrap_err();
    assert!(matches!(err, ExpandError::NotAsync));
}

#[test]
fn diagnostics_are_repeatable() {
    let mut f = base_fn("f");
    f.is_const = true;
    let first = async_into_future("Send", f).unwrap_err();
    let mut g = base_fn("f");
    g.is_const = true;
    let second = async_into_future("Send", g).unwrap_err();
    assert!(matches!(first, ExpandError::ConstFn));
    assert!(matches!(second, ExpandError::ConstFn));
    assert_eq!(first.message(), second.message());
}

#[test]
fn expansion_is_repeatable() {
    let first = async_into_future("Send", fetch_fn()).unwrap();
    let second = async_into_future("Send", fetch_fn()).unwrap();
    assert_eq!(first, second);
}

#[test]
fn lifetimes_follow_bounds_in_future_type() {
    let mut f = base_fn("f");
    f.generics = "< 'a , T >".to_string();
    f.lifetimes = vec!["'a".to_string()];
    let item = validate(f).unwrap();
    let bounds = parse_bounds("Send").unwrap();
    let g = generate(&item, &bounds);
    assert_eq!(
        g.cap.future_bounds,
        vec!["Send".to_string(), "'a".to_string()]
    );
    let decls = render(&g);
    assert!(decls[1].contains("Future<Output = ()> + Send + 'a>>"));
}

#[test]
fn replacement_function_preserves_signature_pieces() {
    let mut f = base_fn("run");
    f.attrs = vec!["#[inline]".to_string()];
    f.vis = "pub".to_string();
    f.is_unsafe = true;
    f.abi = Some("extern \"C\"".to_string());
    f.generics = "< T >".to_string();
    f.inputs = vec![FnInput::Typed(Param {
        pat: "value".to_string(),
        ty: "T".to_string(),
    })];
    let item = validate(f).unwrap();
    let g = generate(&item, &vec![]);
    assert_eq!(g.repl.attrs, vec!["#[inline]".to_string()]);
    assert_eq!(g.repl.vis, "pub");
    assert!(g.repl.is_unsafe);
    assert_eq!(g.repl.abi, Some("extern \"C\"".to_string()));
    assert_eq!(g.repl.name, "run");
    assert_eq!(g.repl.generics, "< T >");
    assert_eq!(g.repl.params, vec!["value: T".to_string()]);
    let text = render_fn_decl(&g.repl);
    assert_eq!(
        text,
        "#[inline] pub unsafe extern \"C\" fn run < T > (value: T) -> \
         __AsyncIntoFuture__run { __AsyncIntoFuture__run { value } }"
    );
}

#[test]
fn function_with_no_parameters_expands() {
    let decls = async_into_future("", base_fn("f")).unwrap();
    assert_eq!(
        decls[0],
        "#[allow(non_camel_case_types)] struct __AsyncIntoFuture__f  {  }"
    );
    assert_eq!(
        decls[2],
        " fn f  () -> __AsyncIntoFuture__f { __AsyncIntoFuture__f {  } }"
    );
}

#[test]
fn generic_bound_parses_as_one_element() {
    let bounds = parse_bounds("Into<String>").unwrap();
    assert_eq!(bounds, vec!["Into < String >".to_string()]);
}

#[test]
fn plus_joined_bounds_are_not_a_comma_list() {
    let err = parse_bounds("Unpin + Send").unwrap_err();
    assert!(matches!(err, ExpandError::MalformedBounds { .. }));
}
