use std::cell::Cell;

use nkcore::api_name::{
    display_generic_args, ApiNameError, CallExpr, Callee, GenericArg, PathArguments, PathSegment,
};
use nkcore::debug::__api_same_type;
use nkcore::api_name;
use nkcore::debug;
/// The readable name that the generated code obtains for a type.
fn type_name_text(name: &str) -> String {
    name.to_string()
}

fn segment(ident: &str) -> PathSegment {
    PathSegment { ident: ident.to_string(), arguments: PathArguments::NoArguments }
}

fn generic_segment(ident: &str, args: Vec<GenericArg>) -> PathSegment {
    PathSegment { ident: ident.to_string(), arguments: PathArguments::AngleBracketed(args) }
}

fn path_call(segments: Vec<PathSegment>, owner_type_name: String) -> CallExpr {
    CallExpr::Call { func: Callee::Path { segments, owner_type_name } }
}

fn method_call(receiver_type_name: String, method: &str, turbofish: Option<Vec<GenericArg>>) -> CallExpr {
    CallExpr::MethodCall { receiver_type_name, method: method.to_string(), turbofish }
}

fn u32_args() -> Vec<GenericArg> {
    vec![GenericArg::Type(type_name_text("u32")), GenericArg::Type(type_name_text("u32"))]
}

#[allow(dead_code)]
fn foo<P0, P1>(_: P0, _: P1) {}

struct Foo;
impl Foo {
    #[allow(dead_code)]
    fn bar<P0, P1>(&self, _: P0, _: P1) {}
}

struct FallibleApi;
impl FallibleApi {
    fn fail(&self) -> std::io::Result<()> {
        Err(std::io::Error::other("expected failure"))
    }
}

fn make_fallible_api(evaluations: &Cell<usize>) -> FallibleApi {
    evaluations.set(evaluations.get() + 1);
    FallibleApi
}

#[test]
fn api_call() {
    let call = method_call(type_name_text("&str"), "parse", Some(vec![GenericArg::Type(type_name_text("u32"))]));
    assert!(
        debug::api_call("test".parse::<u32>(), &call, "src/lib.rs", 289)
            .unwrap_err()
            .to_display_string()
            .starts_with("str::parse::<u32> failed"));
}

#[test]
fn api_call_evaluates_method_receiver_once_on_failure() {
    let evaluations = Cell::new(0);
    let call = method_call(type_name_text("FallibleApi"), "fail", None);

    let _error = debug::api_call(make_fallible_api(&evaluations).fail(), &call, "src/lib.rs", 318).unwrap_err();

    assert_eq!(evaluations.get(), 1);
}

#[test]
fn api_name_of() {
    let receiver = type_name_text("Foo");
    let owner = type_name_text("Foo");
    assert_eq!(api_name::api_name_of(&method_call(receiver.clone(), "bar", None)).unwrap(), "Foo::bar");
    assert_eq!(api_name::api_name_of(&method_call(receiver, "bar", Some(u32_args()))).unwrap(), "Foo::bar::<u32, u32>");

    assert_eq!(api_name::api_name_of(&path_call(vec![segment("foo")], String::new())).unwrap(), "foo");
    assert_eq!(api_name::api_name_of(&path_call(vec![generic_segment("foo", u32_args())], String::new())).unwrap(), "foo::<u32, u32>");

    assert_eq!(
        api_name::api_name_of(&path_call(vec![segment("super"), segment("test"), segment("foo")], String::new())).unwrap(),
        "foo");
    assert_eq!(
        api_name::api_name_of(&path_call(
            vec![segment("super"), segment("test"), generic_segment("foo", u32_args())],
            String::new())).unwrap(),
        "foo::<u32, u32>");

    assert_eq!(api_name::api_name_of(&path_call(vec![segment("Foo"), segment("bar")], owner.clone())).unwrap(), "Foo::bar");
    assert_eq!(
        api_name::api_name_of(&path_call(vec![segment("Foo"), generic_segment("bar", u32_args())], owner.clone())).unwrap(),
        "Foo::bar::<u32, u32>");

    assert_eq!(
        api_name::api_name_of(&path_call(
            vec![segment("crate"), segment("test"), segment("Foo"), segment("bar")],
            owner.clone())).unwrap(),
        "Foo::bar");
    assert_eq!(
        api_name::api_name_of(&path_call(
            vec![segment("crate"), segment("test"), segment("Foo"), generic_segment("bar", u32_args())],
            owner)).unwrap(),
        "Foo::bar::<u32, u32>");
}

#[test]
fn api_call_error_text_names_call_and_location() {
    let call = method_call(type_name_text("&str"), "parse", Some(vec![GenericArg::Type(type_name_text("u32"))]));
    let error = debug::api_call("test".parse::<u32>(), &call, "src/lib.rs", 289).unwrap_err();
    assert_eq!(error.to_display_string(), "str::parse::<u32> failed\n    at src/lib.rs:289");
    assert_eq!(error.context.message, "str::parse::<u32> failed");
    assert_eq!(error.context.file, "src/lib.rs");
    assert_eq!(error.context.line, 289);
    assert_eq!(error.source, "test".parse::<u32>().unwrap_err());
}

#[test]
fn api_call_line_numbers_in_decimal() {
    let call = path_call(vec![segment("f")], String::new());
    let zero = debug::api_call(Err::<(), u8>(1), &call, "a.rs", 0).unwrap_err();
    assert_eq!(zero.to_display_string(), "f failed\n    at a.rs:0");
    let max = debug::api_call(Err::<(), u8>(1), &call, "a.rs", u32::MAX).unwrap_err();
    assert_eq!(max.to_display_string(), "f failed\n    at a.rs:4294967295");
    let ten = debug::api_call(Err::<(), u8>(1), &call, "a.rs", 10).unwrap_err();
    assert_eq!(ten.to_display_string(), "f failed\n    at a.rs:10");
}

#[test]
fn api_call_passes_success_through() {
    let call = path_call(vec![segment("f")], String::new());
    assert_eq!(debug::api_call(Ok::<u32, u8>(42), &call, "a.rs", 1).ok(), Some(42));
}

#[test]
fn api_name_receiver_references_are_trimmed() {
    assert_eq!(api_name::api_name_of(&method_call("&&str".to_string(), "len", None)).unwrap(), "str::len");
    assert_eq!(api_name::api_name_of(&method_call("&mut Vec<u8>".to_string(), "push", None)).unwrap(), "mut Vec<u8>::push");
    assert_eq!(api_name::api_name_of(&method_call("&&".to_string(), "m", None)).unwrap(), "::m");
}

#[test]
fn api_name_groups_are_transparent() {
    let inner = path_call(vec![segment("foo")], String::new());
    let wrapped = CallExpr::Paren(Box::new(CallExpr::Group(Box::new(inner))));
    assert_eq!(api_name::api_name_of(&wrapped).unwrap(), "foo");
}

#[test]
fn api_name_lifetimes_and_empty_turbofish() {
    let args = vec![GenericArg::Lifetime("'a".to_string()), GenericArg::Type("u8".to_string())];
    assert_eq!(api_name::api_name_of(&path_call(vec![generic_segment("foo", args)], String::new())).unwrap(), "foo::<'a, u8>");
    assert_eq!(api_name::api_name_of(&method_call("S".to_string(), "m", Some(vec![]))).unwrap(), "S::m::<>");
    let parenthesized = PathSegment { ident: "f".to_string(), arguments: PathArguments::Parenthesized };
    assert_eq!(api_name::api_name_of(&path_call(vec![parenthesized], String::new())).unwrap(), "f");
}

#[test]
fn api_name_refuses_unsupported_expressions() {
    assert_eq!(api_name::api_name_of(&CallExpr::Other).unwrap_err(), ApiNameError::NotACall);
    let closure_call = CallExpr::Paren(Box::new(CallExpr::Call { func: Callee::Other }));
    assert_eq!(api_name::api_name_of(&closure_call).unwrap_err(), ApiNameError::NotAFunctionPath);
    assert_eq!(api_name::api_name_of(&path_call(vec![], String::new())).unwrap_err(), ApiNameError::NotAFunctionPath);
    assert_eq!(ApiNameError::NotACall.message(), "expected a function or method call");
    assert_eq!(ApiNameError::NotAFunctionPath.message(), "expected a path to a free or associated function");
}

#[test]
fn api_name_refuses_const_and_associated_arguments() {
    let const_call = path_call(vec![generic_segment("const_generic", vec![GenericArg::Const("1".to_string())])], String::new());
    assert_eq!(api_name::api_name_of(&const_call).unwrap_err(), ApiNameError::ConstGenericArgument);
    let assoc_call = path_call(vec![generic_segment("generic", vec![GenericArg::Associated("Item = u32".to_string())])], String::new());
    assert_eq!(api_name::api_name_of(&assoc_call).unwrap_err(), ApiNameError::AssociatedGenericArgument);
    let mixed = vec![
        GenericArg::Type("u8".to_string()),
        GenericArg::Associated("Item = u32".to_string()),
        GenericArg::Const("1".to_string()),
    ];
    assert_eq!(display_generic_args(&mixed).unwrap_err(), ApiNameError::AssociatedGenericArgument);
    assert_eq!(ApiNameError::ConstGenericArgument.message(), "const generic arguments are not supported");
    assert_eq!(ApiNameError::AssociatedGenericArgument.message(), "associated generic arguments are not supported");
}

#[test]
fn api_name_owner_only_for_type_segments() {
    assert_eq!(api_name::api_name_of(&path_call(vec![segment("Vec"), segment("new")], "Vec<u8>".to_string())).unwrap(), "Vec<u8>::new");
    assert_eq!(api_name::api_name_of(&path_call(vec![segment("vec"), segment("new")], "ignored".to_string())).unwrap(), "new");
    assert_eq!(api_name::api_name_of(&path_call(vec![segment(""), segment("new")], "ignored".to_string())).unwrap(), "new");
}

#[test]
fn display_generic_args_formats_list() {
    assert_eq!(display_generic_args(&vec![]).unwrap(), "::<>");
    assert_eq!(display_generic_args(&u32_args()).unwrap(), "::<u32, u32>");
}

#[test]
fn same_type_does_nothing() {
    let a = 1u8;
    let b = 2u8;
    __api_same_type(&a, &b);
    __api_same_type("x", "yz");
}
