use rust_autoargs::codegen::{
    autoargs, generate_args_struct, generate_function_macro_arms, generate_method_macro_arms,
    impl_autoargs, is_autoargs_method, struct_name_for,
};
use rust_autoargs::model::{find_receiver, parse_fn_args, AttrValue, AttrInfo, FnItem, FnParam, ImplBlock, ImplMember, ParamPattern};
use rust_autoargs::codegen::{args_struct_for, expand_function_with, generate_args_struct_with, impl_autoargs_with};
use rust_autoargs::syntax::{attr_info_from, expand_autoargs, expand_impl_autoargs, read_fn_item, read_impl_block};
use rust_autoargs::tokens::{default_value_from, default_value_tokens, default_values};

fn tokens(s: &str) -> String {
    s.parse::<proc_macro2::TokenStream>().unwrap().to_string()
}

fn attr(path: &[&str], value: Option<&str>) -> AttrInfo {
    AttrInfo {
        path: path.iter().map(|s| s.to_string()).collect(),
        value: match value {
            Some(v) => AttrValue::Str(v.to_string()),
            None => AttrValue::Other,
        },
    }
}

fn typed(name: &str, ty: &str, attrs: Vec<AttrInfo>) -> FnParam {
    FnParam::Typed { pattern: ParamPattern::Ident(name.to_string()), ty: ty.to_string(), attrs }
}

fn item(attrs: Vec<AttrInfo>, name: &str, params: Vec<FnParam>) -> FnItem {
    FnItem {
        attrs,
        vis: "pub".to_string(),
        name: name.to_string(),
        params,
        output: String::new(),
        body: "{ }".to_string(),
    }
}

#[test]
fn parse_fn_args_skips_receivers_self_and_patterns() {
    let params = vec![
        FnParam::Receiver("&self".to_string()),
        typed("self", "Self", vec![]),
        FnParam::Typed { pattern: ParamPattern::Other, ty: "(i32, i32)".to_string(), attrs: vec![] },
        typed("count", "usize", vec![attr(&["default"], Some("42"))]),
        typed("name", "String", vec![]),
    ];
    let args = parse_fn_args(&params);
    assert_eq!(args.len(), 2);
    assert_eq!(args[0].name, "count");
    assert_eq!(args[0].ty, "usize");
    assert_eq!(args[0].default_expr, Some("42".to_string()));
    assert_eq!(args[1].name, "name");
    assert_eq!(args[1].default_expr, None);
}

#[test]
fn parse_fn_args_takes_first_default_attribute() {
    let params = vec![typed(
        "a",
        "i32",
        vec![
            attr(&["doc"], Some("not a default")),
            attr(&["default"], None),
            attr(&["rust_autoargs", "default"], Some("1")),
            attr(&["default"], Some("2")),
        ],
    )];
    let args = parse_fn_args(&params);
    assert_eq!(args.len(), 1);
    assert_eq!(args[0].default_expr, Some("1".to_string()));
}

#[test]
fn receiver_is_found_first() {
    let params = vec![typed("a", "i32", vec![]), FnParam::Receiver("&mut self".to_string())];
    assert_eq!(find_receiver(&params), Some("&mut self".to_string()));
    assert_eq!(find_receiver(&vec![typed("a", "i32", vec![])]), None);
}

#[test]
fn default_values_for_attributes() {
    assert_eq!(default_value_tokens(&None), "Default::default()");
    assert_eq!(tokens(&default_value_tokens(&Some("42".to_string()))), tokens("42"));
    assert_eq!(tokens(&default_value_tokens(&Some("vec![1, 2]".to_string()))), tokens("vec![1, 2]"));
    // An expression that does not lex becomes a string literal parsed at run time.
    assert_eq!(tokens(&default_value_tokens(&Some("foo(".to_string()))), tokens("\"foo(\".parse().unwrap()"));
}

#[test]
fn lexing_and_literals() {
    // Lexed expressions come back as the lexer prints them.
    let lexed = default_value_tokens(&Some("a  +  b".to_string()));
    assert_ne!(lexed, "a  +  b");
    assert_eq!(tokens(&lexed), tokens("a + b"));
    // Expressions that do not lex become escaped string literals.
    let open = default_value_tokens(&Some("\"open".to_string()));
    assert_eq!(tokens(&open), tokens("\"\\\"open\".parse().unwrap()"));
    let bad = default_value_tokens(&Some("(]".to_string()));
    assert_eq!(tokens(&bad), tokens("\"(]\".parse().unwrap()"));
}

#[test]
fn default_value_from_outcomes() {
    assert_eq!(default_value_from(&None, Some("x".to_string()), "\"y\"".to_string()), "Default::default()");
    assert_eq!(default_value_from(&Some("f()".to_string()), Some("f ()".to_string()), String::new()), "f ()");
    assert_eq!(default_value_from(&Some("f(".to_string()), None, "\"f(\"".to_string()), "\"f(\".parse().unwrap()");
}

#[test]
fn default_values_per_argument() {
    let args = parse_fn_args(&vec![typed("a", "u8", vec![]), typed("b", "u8", vec![attr(&["default"], Some("3"))])]);
    let values = default_values(&args);
    assert_eq!(values, vec!["Default::default()".to_string(), "3".to_string()]);
}

#[test]
fn exact_expansions_with_given_values() {
    let args = parse_fn_args(&vec![typed("a", "u8", vec![attr(&["default"], Some("ignored"))])]);
    let out = args_struct_for("pub", "FArgs", &args, &vec!["LEXED".to_string()]);
    assert_eq!(
        tokens(&out),
        tokens("pub struct FArgs { pub a: u8 } impl Default for FArgs { fn default() -> Self { Self { a: LEXED } } }")
    );
    let f = item(vec![], "f", vec![typed("a", "u8", vec![])]);
    let out = expand_function_with(&f, &vec!["V".to_string()]);
    assert!(tokens(&out).starts_with(&tokens("pub struct FArgs { pub a: u8 } impl Default for FArgs { fn default() -> Self { Self { a: V } } }")));
    let imp = ImplBlock {
        members: vec![ImplMember::Other, ImplMember::Method(item(vec![attr(&["autoargs"], None)], "g", vec![typed("k", "u8", vec![])]))],
        text: String::new(),
    };
    let out = impl_autoargs_with(&imp, &vec![vec![], vec!["K".to_string()]]);
    assert_eq!(tokens(&out), tokens("pub struct GArgs { pub k: u8 } impl Default for GArgs { fn default() -> Self { Self { k: K } } }"));
}

#[test]
fn reading_items() {
    let (as_method, as_function) = read_fn_item("pub fn f(&self, #[default = \"1\"] a: u8, (x, y): (u8, u8)) -> u8 { a }");
    let m = as_method.unwrap();
    assert_eq!(m.name, "f");
    assert_eq!(m.vis, "pub");
    assert_eq!(tokens(&m.output), tokens("-> u8"));
    assert_eq!(m.params.len(), 3);
    assert!(matches!(&m.params[0], FnParam::Receiver(t) if tokens(t) == tokens("&self")));
    match &m.params[1] {
        FnParam::Typed { pattern: ParamPattern::Ident(n), ty, attrs } => {
            assert_eq!(n, "a");
            assert_eq!(ty, "u8");
            assert_eq!(attrs.len(), 1);
            assert_eq!(attrs[0].path, vec!["default".to_string()]);
            assert!(matches!(&attrs[0].value, AttrValue::Str(v) if v == "1"));
        },
        _ => panic!("typed parameter expected"),
    }
    assert!(matches!(&m.params[2], FnParam::Typed { pattern: ParamPattern::Other, .. }));
    assert!(as_function.is_ok());

    let (as_method, as_function) = read_fn_item("struct S;");
    assert!(as_method.is_none());
    assert!(matches!(&as_function, Err(e) if e.contains("compile_error")));

    let block = read_impl_block("impl S { #[autoargs] fn g(&self) {} const C: u8 = 1; }").unwrap();
    assert_eq!(block.members.len(), 2);
    assert!(matches!(&block.members[0], ImplMember::Method(m) if m.name == "g" && m.attrs[0].path == vec!["autoargs".to_string()]));
    assert!(matches!(&block.members[1], ImplMember::Other));
    assert!(read_impl_block("fn f() {}").is_err());
}

#[test]
fn expansions_from_source_text() {
    let out = expand_autoargs("fn go(#[default = \"7\"] n: u8) {}");
    assert!(tokens(&out).starts_with(&tokens("struct GoArgs { pub n: u8 } impl Default for GoArgs { fn default() -> Self { Self { n: 7 } } }")));
    assert!(expand_autoargs("struct S;").contains("compile_error"));
    assert!(expand_impl_autoargs("fn f() {}").contains("compile_error"));
}

#[test]
fn struct_names() {
    assert_eq!(struct_name_for("draw"), "DrawArgs");
    assert_eq!(struct_name_for("draw_rectangle"), "DrawRectangleArgs");
    assert_eq!(struct_name_for("__"), "Args");
}

#[test]
fn args_struct_without_arguments() {
    let out = generate_args_struct("nothing", &vec![FnParam::Receiver("self".to_string())], "pub(crate)");
    assert_eq!(
        tokens(&out),
        tokens("pub(crate) struct NothingArgs { } impl Default for NothingArgs { fn default() -> Self { Self { } } }")
    );
}

#[test]
fn args_struct_with_default_trait_fallback() {
    let params = vec![typed("name", "String", vec![]), typed("value", "Option<i32>", vec![attr(&["default"], Some("Some(3)"))])];
    let out = generate_args_struct("simple", &params, "");
    assert_eq!(
        tokens(&out),
        tokens("struct SimpleArgs { pub name: String, pub value: Option<i32> } impl Default for SimpleArgs { fn default() -> Self { Self { name: Default::default(), value: Some(3) } } }")
    );
}

#[test]
fn macro_arms() {
    let f = generate_function_macro_arms("DrawArgs", "draw");
    assert_eq!(f.len(), 3);
    assert_eq!(tokens(&f[0]), tokens("() => { draw(DrawArgs::default()) };"));
    assert_eq!(tokens(&f[2]), tokens("( $args:expr ) => { draw($args) };"));
    let m = generate_method_macro_arms("ScaleArgs", "scale");
    assert_eq!(m.len(), 3);
    assert_eq!(tokens(&m[0]), tokens("($self:expr) => { $self.scale(ScaleArgs::default()) };"));
    assert_eq!(tokens(&m[2]), tokens("($self:expr, $args:expr) => { $self.scale($args) };"));
}

#[test]
fn autoargs_without_receiver_expands_as_function() {
    let read = || item(vec![], "go", vec![typed("n", "u8", vec![attr(&["default"], Some("7"))])]);
    let out = autoargs(Some(read()), Ok(read()));
    let expected = "pub struct GoArgs { pub n: u8 } impl Default for GoArgs { fn default() -> Self { Self { n: 7 } } } \
        #[allow(unused_parens)] pub fn go(args: GoArgs) { let (n) = (args.n); { } } \
        #[macro_export] macro_rules! go { () => { go(GoArgs::default()) }; \
        ( $( $name:ident = $value:expr ),* $(,)? ) => { { let mut args = GoArgs::default(); $( args.$name = $value; )* go(args) } }; \
        ( $args:expr ) => { go($args) }; }";
    assert_eq!(tokens(&out), tokens(expected));
    // The same when the item does not read as a method.
    assert_eq!(autoargs(None, Ok(read())), out);
}

#[test]
fn autoargs_error_is_passed_through() {
    let error = "::core::compile_error! { \"expected `fn`\" }".to_string();
    assert_eq!(autoargs(None, Err(error.clone())), error);
}

#[test]
fn impl_autoargs_selects_marked_methods() {
    let marked = attr(&["autoargs"], None);
    let imp = ImplBlock {
        members: vec![
            ImplMember::Method(item(vec![], "plain", vec![FnParam::Receiver("&self".to_string())])),
            ImplMember::Other,
            ImplMember::Method(item(vec![marked], "assoc", vec![typed("k", "u8", vec![])])),
            ImplMember::Method(item(
                vec![attr(&["rust_autoargs", "autoargs"], None)],
                "run",
                vec![FnParam::Receiver("&self".to_string()), typed("k", "u8", vec![])],
            )),
        ],
        text: "impl T { }".to_string(),
    };
    let out = tokens(&impl_autoargs(&imp));
    let expected = "pub struct AssocArgs { pub k: u8 } impl Default for AssocArgs { fn default() -> Self { Self { k: Default::default() } } } \
        pub struct RunArgs { pub k: u8 } impl Default for RunArgs { fn default() -> Self { Self { k: Default::default() } } } \
        #[macro_export] macro_rules! run { ($self:expr) => { $self.run(RunArgs::default()) }; \
        ($self:expr, $( $name:ident = $value:expr ),* $(,)? ) => { { let mut args = RunArgs::default(); $( args.$name = $value; )* $self.run(args) } }; \
        ($self:expr, $args:expr) => { $self.run($args) }; } \
        impl T { }";
    assert_eq!(out, tokens(expected));
}

#[test]
fn autoargs_marker_detection() {
    assert!(is_autoargs_method(&item(vec![attr(&["autoargs"], None)], "f", vec![])));
    assert!(!is_autoargs_method(&item(vec![attr(&["inline"], None)], "f", vec![])));
    assert!(!is_autoargs_method(&item(vec![], "f", vec![])));
}

#[test]
fn default_attribute_leaves_item_unchanged() {
    assert_eq!(rust_autoargs::codegen::default("", "fn f() { }"), "fn f() { }");
    assert_eq!(rust_autoargs::codegen::default("= \"x\"", ""), "");
}

#[test]
fn function_expansion_begins_with_args_struct_law() {
    let params = || vec![typed("n", "u8", vec![attr(&["default"], Some("7"))]), typed("m", "bool", vec![])];
    let values = vec!["7".to_string(), "Default::default()".to_string()];
    let st = generate_args_struct_with("go", &params(), "pub", &values);
    let f = item(vec![], "go", params());
    let whole = expand_function_with(&f, &values);
    assert!(whole.starts_with(&st));
    assert_eq!(
        tokens(&st),
        tokens("pub struct GoArgs { pub n: u8, pub m: bool } impl Default for GoArgs { fn default() -> Self { Self { n: 7, m: Default::default() } } }")
    );
}

#[test]
fn impl_prefix_depends_on_members_only_law() {
    let a = expand_impl_autoargs("impl X { #[autoargs] fn f(&self, #[default = \"1\"] k: u8) {} }");
    let b = expand_impl_autoargs("impl Y { #[autoargs] fn f(&self, #[default = \"1\"] k: u8) {} }");
    let a_prefix = &a[..a.find("impl X").unwrap()];
    let b_prefix = &b[..b.find("impl Y").unwrap()];
    assert_eq!(a_prefix, b_prefix);
    assert!(a_prefix.contains("FArgs"));
}

#[test]
fn parse_errors_are_compile_errors() {
    assert!(expand_impl_autoargs("struct S;").contains("compile_error"));
    assert!(matches!(read_impl_block("struct S;"), Err(e) if e.contains("compile_error")));
    assert!(!expand_autoargs("fn f() {}").contains("compile_error"));
}

#[test]
fn attribute_descriptions() {
    let a = attr_info_from(vec!["default".to_string()], Some("3".to_string()));
    assert_eq!(a.path, vec!["default".to_string()]);
    assert!(matches!(a.value, AttrValue::Str(ref v) if v == "3"));
    assert!(matches!(attr_info_from(vec![], None).value, AttrValue::Other));
}
