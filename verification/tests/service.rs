use tarpc::service::{check_service, future_type_name, is_identifier, snake_to_camel, Arg, Rpc, ServiceError};

fn rpc(name: &str, args: &[(&str, &str)], output: Option<&str>) -> Rpc {
    Rpc {
        name: name.to_string(),
        args: args
            .iter()
            .map(|(n, t)| Arg { name: n.to_string(), ty: t.to_string() })
            .collect(),
        output: output.map(|o| o.to_string()),
    }
}

#[test]
fn raw_idents_work() {
    // trait r#trait {
    //     async fn r#await(r#struct: r#yield, r#enum: i32) -> (r#yield, i32);
    //     async fn r#fn(r#impl: r#yield) -> r#yield;
    //     async fn r#async();
    // }
    let rpcs = vec![
        rpc("r#await", &[("r#struct", "r#yield"), ("r#enum", "i32")], Some("(r#yield, i32)")),
        rpc("r#fn", &[("r#impl", "r#yield")], Some("r#yield")),
        rpc("r#async", &[], None),
    ];
    assert_eq!(check_service(&rpcs), Ok(()));
    assert_eq!(future_type_name("r#await"), "AwaitFut");
    assert_eq!(future_type_name("r#fn"), "FnFut");
    assert_eq!(future_type_name("r#async"), "AsyncFut");
    assert_eq!(rpcs[0].output_type(), "(r#yield, i32)");
    assert_eq!(rpcs[2].output_type(), "()");
}

fn syntax_rpcs(with_no_lifetimes: bool) -> Vec<Rpc> {
    let mut rpcs = Vec::new();
    if with_no_lifetimes {
        rpcs.push(rpc("no_lifetimes", &[], None));
    }
    rpcs.push(rpc("TestCamelCaseDoesntConflict", &[], None));
    rpcs.push(rpc("hello", &[], Some("String")));
    rpcs.push(rpc("attr", &[("s", "String")], Some("String")));
    rpcs.push(rpc("no_args_no_return", &[], None));
    rpcs.push(rpc("no_args", &[], Some("()")));
    rpcs.push(rpc("one_arg", &[("one", "String")], Some("i32")));
    rpcs.push(rpc("two_args_no_return", &[("one", "String"), ("two", "u64")], None));
    rpcs.push(rpc("two_args", &[("one", "String"), ("two", "u64")], Some("String")));
    rpcs.push(rpc("no_args_ret_error", &[], Some("i32")));
    rpcs.push(rpc("one_arg_ret_error", &[("one", "String")], Some("String")));
    rpcs.push(rpc("no_arg_implicit_return_error", &[], None));
    rpcs.push(rpc("one_arg_implicit_return_error", &[("one", "String")], None));
    rpcs
}

#[test]
fn server_syntax() {
    let rpcs = syntax_rpcs(true);
    assert_eq!(check_service(&rpcs), Ok(()));
    assert_eq!(rpcs[0].output_type(), "()");
    assert_eq!(rpcs[2].output_type(), "String");
    assert_eq!(future_type_name("no_lifetimes"), "NoLifetimesFut");
    assert_eq!(future_type_name("two_args_no_return"), "TwoArgsNoReturnFut");
}

#[test]
fn service_syntax() {
    let rpcs = syntax_rpcs(false);
    assert_eq!(check_service(&rpcs), Ok(()));
    assert_eq!(rpcs[4].output_type(), "()");
    assert_eq!(rpcs[3].output_type(), "()");
    assert_eq!(future_type_name("one_arg_implicit_return_error"), "OneArgImplicitReturnErrorFut");
}

fn foo_rpcs() -> Vec<Rpc> {
    // trait Foo {
    //     async fn two_part(s: String, i: i32) -> (String, i32);
    //     async fn bar(s: String) -> String;
    //     async fn baz();
    // }
    vec![
        rpc("two_part", &[("s", "String"), ("i", "i32")], Some("(String, i32)")),
        rpc("bar", &[("s", "String")], Some("String")),
        rpc("baz", &[], None),
    ]
}

#[test]
fn type_generation_works() {
    let rpcs = foo_rpcs();
    assert_eq!(check_service(&rpcs), Ok(()));
    assert_eq!(future_type_name("two_part"), "TwoPartFut");
    assert_eq!(future_type_name("bar"), "BarFut");
    assert_eq!(future_type_name("baz"), "BazFut");
    assert_eq!(rpcs[0].output_type(), "(String, i32)");
    assert_eq!(rpcs[1].output_type(), "String");
    assert_eq!(rpcs[2].output_type(), "()");
}

#[test]
fn att_service_trait() {
    assert_eq!(check_service(&foo_rpcs()), Ok(()));
}

#[test]
fn raw_idents() {
    let rpcs = vec![
        rpc("r#await", &[("r#struct", "r#yield"), ("r#enum", "i32")], Some("(r#yield, i32)")),
        rpc("r#fn", &[("r#impl", "r#yield")], Some("r#yield")),
        rpc("r#async", &[], None),
    ];
    assert_eq!(check_service(&rpcs), Ok(()));
    let names: Vec<String> = rpcs.iter().map(|r| future_type_name(&r.name)).collect();
    assert_eq!(names, vec!["AwaitFut", "FnFut", "AsyncFut"]);
}

#[test]
fn snake_to_camel_cases() {
    assert_eq!(snake_to_camel("abc_def"), "AbcDef");
    assert_eq!(snake_to_camel("abc_def_"), "AbcDef");
    assert_eq!(snake_to_camel("_abc_def"), "AbcDef");
    assert_eq!(snake_to_camel("abc__def"), "AbcDef");
    assert_eq!(snake_to_camel("aBc_dEf"), "AbcDef");
    assert_eq!(snake_to_camel("_"), "");
    assert_eq!(snake_to_camel("ärger_öl"), "ÄrgerÖl");
}

#[test]
fn rpc_named_serve_is_refused() {
    let rpcs = vec![rpc("hello", &[], Some("String")), rpc("serve", &[], None)];
    assert_eq!(check_service(&rpcs), Err(ServiceError::ReservedName { rpc: 1 }));
}

#[test]
fn rpc_named_new_is_refused() {
    let rpcs = vec![rpc("new", &[], None)];
    assert_eq!(check_service(&rpcs), Err(ServiceError::ReservedName { rpc: 0 }));
}

#[test]
fn pattern_argument_is_refused() {
    let rpcs = vec![
        rpc("serve", &[], None),
        rpc("pat", &[("a", "u8"), ("(a, b)", "(u8, u32)")], None),
    ];
    assert_eq!(check_service(&rpcs), Err(ServiceError::PatternArgument { rpc: 1, arg: 1 }));
}

#[test]
fn identifiers() {
    assert!(is_identifier("one"));
    assert!(is_identifier("r#struct"));
    assert!(is_identifier("_unused"));
    assert!(is_identifier("x1"));
    assert!(!is_identifier("_"));
    assert!(!is_identifier("1x"));
    assert!(!is_identifier("(a, b)"));
    assert!(!is_identifier(""));
    assert!(!is_identifier("r#"));
}
