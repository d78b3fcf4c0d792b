//! The three attributes on source text. Where a test pins the text of a part
//! that the parser handed back, the text is laid out as the lexer crate's own
//! printer lays it out: one space between tokens.
use lazy_attribute::args::{LazyArgs, MapArgs, Transform};
use lazy_attribute::decl::FnDecl;
use lazy_attribute::diag::{Anchor, Diagnostic, Expected, Facility};
use lazy_attribute::emit::{Fragment, Replacement, Storage};
use lazy_attribute::expand::{expand, rewrite, serialize};
use lazy_attribute::grammar::parse_map_args;
use lazy_attribute::resolve::Discovery;
use lazy_attribute::{lazy as lazy_attr, lazy_map, lazy_ref};

fn strings(items: &[&str]) -> Vec<String> {
    items.iter().map(|item| item.to_string()).collect()
}

fn alias(name: &str) -> Discovery {
    Discovery::Alias(name.to_string())
}

#[test]
fn lazy() {
    // A function without parameters is rewritten.
    let correct = "fn foo() -> i32 {\n    println!(\"Called once!\");\n    42\n}";
    let generated = lazy_attr("", correct, false, &alias("lazy_attr"));
    let expected = Fragment {
        storage: Storage {
            name: "__lazy_static_foo".to_string(),
            facility: "lazy_attr".to_string(),
            is_async: false,
            cached_type: "i32".to_string(),
        },
        function: Replacement {
            attrs: vec![],
            vis: String::new(),
            is_async: false,
            name: "foo".to_string(),
            cached_type: "i32".to_string(),
            storage: "__lazy_static_foo".to_string(),
            original_type: "i32".to_string(),
            stmts: strings(&["println ! (\"Called once!\") ;", "42"]),
            transform: "|__lazy_value| __lazy_value".to_string(),
        },
    };
    assert_eq!(generated, Ok(expected));

    // So is an async function, where support for async is switched on.
    let correct_async = "async fn foo() -> i32 {\n    println!(\"Called once!\");\n    42\n}";
    let generated = lazy_attr("", correct_async, true, &alias("lazy_attr"));
    let fragment = generated.expect("an async function is accepted");
    assert!(fragment.storage.is_async);
    assert!(fragment.function.is_async);

    // A function with parameters is refused.
    let unsupported_args = "fn foo(a: i32) -> i32 {\n    a\n}";
    let refused = lazy_attr("", unsupported_args, true, &alias("lazy_attr"));
    assert_eq!(refused, Err(Diagnostic::UnsupportedParameters));
}

#[test]
fn lib_lazy() {
    let home = alias("lazy_attribute");

    // A function without parameters is rewritten.
    let correct = "fn get_foo() -> Foo {\n    println!(\"get_foo called once!\");\n    Foo()\n}";
    let fragment = lazy_ref("", correct, false, &home).expect("the function is accepted");
    assert_eq!(fragment.storage.name, "__lazy_static_get_foo");
    assert_eq!(fragment.storage.facility, "lazy_attribute");
    assert_eq!(fragment.storage.cached_type, "Foo");
    assert_eq!(fragment.function.name, "get_foo");
    assert_eq!(fragment.function.cached_type, "Foo");
    assert_eq!(
        fragment.function.stmts,
        strings(&["println ! (\"get_foo called once!\") ;", "Foo ()"])
    );
    assert!(!fragment.function.is_async);

    // So is an async function, where support for async is switched on.
    let correct_async = "async fn get_foo() -> Foo {\n    Foo()\n}";
    let fragment = lazy_ref("", correct_async, true, &home).expect("async is accepted");
    assert!(fragment.function.is_async);
    assert!(fragment.storage.is_async);

    // The map attribute caches what the transform makes of the value.
    let fragment = lazy_map("u8, |foo: Foo| foo.0", "fn get_foo() -> Foo {\n    Foo(3)\n}", false, &home)
        .expect("the map attribute is accepted");
    assert_eq!(fragment.storage.cached_type, "u8");
    assert_eq!(fragment.function.cached_type, "u8");
    assert_eq!(fragment.function.original_type, "Foo");
    assert_eq!(fragment.function.transform, "| foo : Foo | foo . 0");

    // A function with parameters is refused.
    let unsupported_args = "fn get_foo(a: usize) -> Foo {\n    Foo(a)\n}";
    assert_eq!(
        lazy_ref("", unsupported_args, false, &home),
        Err(Diagnostic::UnsupportedParameters)
    );
    assert_eq!(
        lazy_map("Foo, |x| x", unsupported_args, false, &home),
        Err(Diagnostic::UnsupportedParameters)
    );

    // Arguments that are not a type, a comma and a transform are refused.
    let refused = lazy_map("Foo", correct, false, &home);
    assert_eq!(refused, Err(Diagnostic::MalformedArguments(Expected::TypeThenComma)));
}

#[test]
fn parameters_are_refused_whatever_else_holds() {
    let sources = [
        "fn f(a: i32) {}",
        "pub fn f(a: i32, b: &str) -> i32 { a }",
        "async fn f(a: i32) -> i32 { a }",
        "#[inline] pub(crate) async fn f(mut a: Vec<u8>) -> usize { a.len() }",
    ];
    let discoveries = [Discovery::Itself, alias("other"), Discovery::NotFound];
    for source in sources.iter() {
        for discovery in discoveries.iter() {
            for async_support in [false, true] {
                let plain = lazy_attr("", source, async_support, discovery);
                assert_eq!(plain, Err(Diagnostic::UnsupportedParameters));
                let by_ref = lazy_ref("", source, async_support, discovery);
                assert_eq!(by_ref, Err(Diagnostic::UnsupportedParameters));
                let mapped = lazy_map("u8, |x| x", source, async_support, discovery);
                assert_eq!(mapped, Err(Diagnostic::UnsupportedParameters));
            }
        }
    }
    let diagnostic = Diagnostic::UnsupportedParameters;
    assert_eq!(diagnostic.anchor(), Anchor::ParameterList);
    assert_eq!(diagnostic.message(), "Arguments are not supported on lazy functions");
}

#[test]
fn async_needs_the_switch() {
    let source = "pub async fn load() -> Vec<u8> { Vec::new() }";
    let refused = lazy_ref("", source, false, &Discovery::Itself);
    assert_eq!(refused, Err(Diagnostic::UnsupportedAsync));
    let diagnostic = Diagnostic::UnsupportedAsync;
    assert_eq!(diagnostic.anchor(), Anchor::AsyncMarker);
    assert_eq!(
        diagnostic.message(),
        "Async functions are only supported when the async feature is enabled"
    );

    let fragment = lazy_ref("", source, true, &Discovery::Itself).expect("async is accepted");
    assert!(fragment.function.is_async);
    assert!(fragment.storage.is_async);
    let text = fragment.render();
    assert!(text.contains("pub async fn load () -> & 'static Vec < u8 >"));
    assert!(text.contains(":: __internal :: async_once_cell :: OnceCell < Vec < u8 > >"));
    assert!(text.ends_with("}) . await }"));
}

#[test]
fn parameters_are_checked_before_async() {
    let source = "async fn f(a: i32) -> i32 { a }";
    assert_eq!(
        lazy_ref("", source, false, &Discovery::Itself),
        Err(Diagnostic::UnsupportedParameters)
    );
}

#[test]
fn shape_is_checked_before_the_facility() {
    let with_parameters = "fn f(a: i32) -> i32 { a }";
    assert_eq!(
        lazy_ref("", with_parameters, false, &Discovery::NotFound),
        Err(Diagnostic::UnsupportedParameters)
    );
    let with_async = "async fn f() -> i32 { 1 }";
    assert_eq!(
        lazy_ref("", with_async, false, &Discovery::NotFound),
        Err(Diagnostic::UnsupportedAsync)
    );
}

#[test]
fn missing_facility_is_reported() {
    let source = "fn f() -> i32 { 1 }";
    let refused = lazy_attr("", source, false, &Discovery::NotFound);
    assert_eq!(refused, Err(Diagnostic::MissingFacility(Facility::LazyAttr)));
    let refused = lazy_ref("", source, false, &Discovery::NotFound);
    assert_eq!(refused, Err(Diagnostic::MissingFacility(Facility::LazyAttribute)));
    let refused = lazy_map("i64, i64::from", source, false, &Discovery::NotFound);
    assert_eq!(refused, Err(Diagnostic::MissingFacility(Facility::LazyAttribute)));

    let diagnostic = Diagnostic::MissingFacility(Facility::LazyAttribute);
    assert_eq!(diagnostic.anchor(), Anchor::FunctionName);
    assert_eq!(
        diagnostic.message(),
        "Could not find `lazy-attribute` crate in your `Cargo.toml`"
    );
    assert_eq!(
        Diagnostic::MissingFacility(Facility::LazyAttr).message(),
        "Could not find `lazy-attr` crate in your `Cargo.toml`"
    );
}

#[test]
fn facility_is_named_by_itself_or_by_its_alias() {
    let source = "fn f() -> i32 { 1 }";
    let inside = lazy_ref("", source, false, &Discovery::Itself).expect("accepted");
    let outside = lazy_ref("", source, false, &alias("renamed")).expect("accepted");
    assert_eq!(inside.storage.facility, "lazy_attribute");
    assert_eq!(outside.storage.facility, "renamed");
    assert_eq!(inside.function, outside.function);
    assert_eq!(inside.storage.name, outside.storage.name);
    assert_eq!(inside.storage.cached_type, outside.storage.cached_type);
    assert_eq!(inside.storage.is_async, outside.storage.is_async);
    assert!(inside.storage.render().contains(
        "lazy_attribute :: __internal :: once_cell :: sync :: OnceCell < i32 >"
    ));
    assert!(outside.storage.render().contains(
        "renamed :: __internal :: once_cell :: sync :: OnceCell < i32 >"
    ));

    let plain = lazy_attr("", source, false, &Discovery::Itself).expect("accepted");
    assert_eq!(plain.storage.facility, "lazy_attr");
}

#[test]
fn item_that_is_no_function_is_reported() {
    let refused = lazy_ref("", "struct Foo;", false, &Discovery::Itself);
    assert_eq!(refused, Err(Diagnostic::MalformedFunction("expected `fn`".to_string())));
    let refused = lazy_ref("", "fn f() -> i32 { 42", false, &Discovery::Itself);
    assert!(matches!(refused, Err(Diagnostic::MalformedFunction(_))));
    let refused = lazy_ref("", "", false, &Discovery::Itself);
    assert!(matches!(refused, Err(Diagnostic::MalformedFunction(_))));
    let diagnostic = Diagnostic::MalformedFunction("expected `fn`".to_string());
    assert_eq!(diagnostic.anchor(), Anchor::Item);
    assert_eq!(diagnostic.message(), "expected `fn`");
}

#[test]
fn arguments_are_read_before_the_item() {
    let refused = lazy_map("Foo", "struct Foo;", false, &Discovery::Itself);
    assert_eq!(refused, Err(Diagnostic::MalformedArguments(Expected::TypeThenComma)));
    let refused = lazy_map("Foo, |x| x", "struct Foo;", false, &Discovery::Itself);
    assert!(matches!(refused, Err(Diagnostic::MalformedFunction(_))));
}

#[test]
fn attributes_of_the_other_modes_ignore_their_arguments() {
    let source = "fn f() -> i32 { 1 }";
    let bare = lazy_ref("", source, false, &Discovery::Itself);
    let noisy = lazy_ref("anything at all (", source, false, &Discovery::Itself);
    assert_eq!(bare, noisy);
    let bare = lazy_attr("", source, false, &Discovery::Itself);
    let noisy = lazy_attr("u8, |x| x", source, false, &Discovery::Itself);
    assert_eq!(bare, noisy);
}

#[test]
fn missing_return_type_is_the_unit_type() {
    let fragment = lazy_ref("", "fn setup() { }", false, &Discovery::Itself).expect("accepted");
    assert_eq!(fragment.function.original_type, "()");
    assert_eq!(fragment.function.cached_type, "()");
    assert_eq!(fragment.storage.cached_type, "()");
    assert!(fragment.function.stmts.is_empty());
}

#[test]
fn attributes_and_visibility_are_kept() {
    let source = "#[inline]\n/// Gets it.\npub(crate) fn get_foo() -> Foo { Foo() }";
    let fragment = lazy_ref("", source, false, &Discovery::Itself).expect("accepted");
    assert_eq!(fragment.function.attrs, strings(&["# [inline]", "# [doc = \" Gets it.\"]"]));
    assert_eq!(fragment.function.vis, "pub (crate)");
    assert!(fragment
        .function
        .render()
        .starts_with("# [inline] # [doc = \" Gets it.\"] pub (crate) fn get_foo () -> & 'static Foo {"));
}

#[test]
fn raw_identifier_gives_a_plain_storage_name() {
    let fragment = lazy_ref("", "fn r#try() -> u8 { 1 }", false, &Discovery::Itself)
        .expect("accepted");
    assert_eq!(fragment.function.name, "r#try");
    assert_eq!(fragment.storage.name, "__lazy_static_try");
    assert_eq!(fragment.function.storage, "__lazy_static_try");
}

#[test]
fn map_argument_grammar() {
    assert_eq!(
        parse_map_args("SomeType, |x| x.field"),
        Ok(MapArgs {
            ty: "SomeType".to_string(),
            transform: Transform::Closure("| x | x . field".to_string()),
        })
    );
    assert_eq!(
        parse_map_args("SomeType"),
        Err(Diagnostic::MalformedArguments(Expected::TypeThenComma))
    );
    assert_eq!(
        parse_map_args("SomeType, some_module::convert"),
        Ok(MapArgs {
            ty: "SomeType".to_string(),
            transform: Transform::Path("some_module :: convert".to_string()),
        })
    );
    let fragment = lazy_map(
        "SomeType, some_module::convert",
        "fn make() -> Raw { Raw::new() }",
        false,
        &Discovery::Itself,
    )
    .expect("accepted");
    assert_eq!(fragment.function.transform, "|__lazy_value| some_module :: convert (__lazy_value)");
    assert!(fragment.function.render().contains(
        ", |__lazy_value| some_module :: convert (__lazy_value)) ; __lazy_transform (__lazy_value)"
    ));

    let diagnostic = Diagnostic::MalformedArguments(Expected::TypeThenComma);
    assert_eq!(diagnostic.anchor(), Anchor::Arguments);
    assert_eq!(diagnostic.message(), "Expected a type followed by `,` and a closure or path");
    let diagnostic = Diagnostic::MalformedArguments(Expected::ClosureOrPath);
    assert_eq!(diagnostic.anchor(), Anchor::Arguments);
    assert_eq!(diagnostic.message(), "Expected closure or path");
}

#[test]
fn map_arguments_divide_at_the_first_comma_behind_a_type() {
    assert_eq!(
        parse_map_args("HashMap<u8, Vec<(u8, u16)>>, |x| x.into_iter().collect()"),
        Ok(MapArgs {
            ty: "HashMap < u8 , Vec < (u8 , u16) >>".to_string(),
            transform: Transform::Closure("| x | x . into_iter () . collect ()".to_string()),
        })
    );
    assert_eq!(
        parse_map_args("fn(A, B) -> C, a::b::<C>"),
        Ok(MapArgs {
            ty: "fn (A , B) -> C".to_string(),
            transform: Transform::Path("a :: b ::< C >".to_string()),
        })
    );
    assert_eq!(
        parse_map_args("&'static str, |(a, b)| a"),
        Ok(MapArgs {
            ty: "&'static str".to_string(),
            transform: Transform::Closure("| (a , b) | a".to_string()),
        })
    );
}

#[test]
fn map_arguments_that_do_not_fit_the_grammar() {
    let no_type = Err(Diagnostic::MalformedArguments(Expected::TypeThenComma));
    let no_transform = Err(Diagnostic::MalformedArguments(Expected::ClosureOrPath));
    assert_eq!(parse_map_args(""), no_type);
    assert_eq!(parse_map_args(", |x| x"), no_type);
    assert_eq!(parse_map_args("|x| x, SomeType"), no_type);
    assert_eq!(parse_map_args("SomeType |x| x"), no_type);
    assert_eq!(parse_map_args("SomeType, (unclosed"), no_type);
    assert_eq!(parse_map_args("Vec<u8, |x| x"), no_type);
    assert_eq!(parse_map_args("SomeType,"), no_transform);
    assert_eq!(parse_map_args("SomeType, 42"), no_transform);
    assert_eq!(parse_map_args("SomeType, a + b"), no_transform);
    assert_eq!(parse_map_args("A, B, C"), no_transform);
    assert_eq!(parse_map_args("SomeType, |x| x, extra"), no_transform);
}

#[test]
fn closure_is_tried_before_path() {
    let as_closure = lazy_attribute::grammar::classify_transform("t".to_string(), true, true);
    assert_eq!(as_closure, Ok(Transform::Closure("t".to_string())));
    let as_path = lazy_attribute::grammar::classify_transform("t".to_string(), false, true);
    assert_eq!(as_path, Ok(Transform::Path("t".to_string())));
    let neither = lazy_attribute::grammar::classify_transform("t".to_string(), false, false);
    assert_eq!(neither, Err(Diagnostic::MalformedArguments(Expected::ClosureOrPath)));
    let read = lazy_attribute::grammar::read_transform("move |x| x".to_string());
    assert_eq!(read, Ok(Transform::Closure("move |x| x".to_string())));
    let read = lazy_attribute::grammar::read_transform("::a::b".to_string());
    assert_eq!(read, Ok(Transform::Path("::a::b".to_string())));
}

#[test]
fn rewrite_of_a_declaration_built_by_hand() {
    let decl = FnDecl {
        attrs: strings(&["#[inline]"]),
        vis: "pub".to_string(),
        is_async: false,
        name: "answer".to_string(),
        parameters: 0,
        output: Some("i32".to_string()),
        body: strings(&["41 + 1"]),
    };
    let args = LazyArgs::Mapped(MapArgs {
        ty: "i64".to_string(),
        transform: Transform::Path("i64::from".to_string()),
    });
    let fragment = expand(&args, decl.clone(), false, &alias("la")).expect("accepted");
    assert_eq!(fragment.storage.cached_type, "i64");
    assert_eq!(fragment.function.original_type, "i32");
    assert_eq!(fragment.function.transform, "|__lazy_value| i64::from (__lazy_value)");
    assert_eq!(fragment.storage.facility, "la");

    let mut with_parameters = decl.clone();
    with_parameters.parameters = 1;
    assert_eq!(
        expand(&args, with_parameters, false, &alias("la")),
        Err(Diagnostic::UnsupportedParameters)
    );
    let mut with_async = decl.clone();
    with_async.is_async = true;
    assert_eq!(
        expand(&args, with_async.clone(), false, &alias("la")),
        Err(Diagnostic::UnsupportedAsync)
    );
    assert!(expand(&args, with_async, true, &alias("la")).is_ok());
    assert_eq!(
        rewrite(&args, "fn answer() -> i32 { 41 + 1 }", false, &alias("la"))
            .map(|fragment| fragment.function.name),
        Ok("answer".to_string())
    );
}

#[test]
fn outcome_is_code_or_a_diagnostic_and_never_empty() {
    let code = lazy_ref("", "fn f() -> i32 { 1 }", false, &Discovery::Itself);
    let text = serialize(&code);
    assert!(text.starts_with("#[allow(non_upper_case_globals)] static __lazy_static_f :"));
    assert!(!text.contains("compile_error"));

    let failure = lazy_ref("", "fn f(a: i32) -> i32 { a }", false, &Discovery::Itself);
    assert_eq!(
        serialize(&failure),
        ":: core :: compile_error ! { \"Arguments are not supported on lazy functions\" }"
    );
    let failure = lazy_ref("", "fn f() {}", false, &Discovery::NotFound);
    assert_eq!(
        serialize(&failure),
        ":: core :: compile_error ! { \"Could not find `lazy-attribute` crate in your `Cargo.toml`\" }"
    );
}

#[test]
fn diagnostic_text_escapes_the_message() {
    let diagnostic = Diagnostic::MalformedFunction("a \"b\" \\ c\n'd'".to_string());
    assert_eq!(
        diagnostic.render(),
        ":: core :: compile_error ! { \"a \\\"b\\\" \\\\ c\\n'd'\" }"
    );
}
