use qeap::binding::{BindingKind, ParameterBinding};
use qeap::diagnostic::Diagnostic;
use qeap::mode::Mode;
use qeap::scoped::{create_scoped_fn, expand, gather_bindings, scoped, ScopedFn, SynthesizedFunction};
use qeap::signature::{
    DeclaredReturn, GenericArgument, OriginalSignature, Parameter, PathArguments, PathSegment,
    Pattern, TypeExpr, TypeShape, TypedParameter,
};

fn reference(name: &str, mutable: bool, referent: &str) -> Parameter {
    let tokens = if mutable { format!("&mut {referent}") } else { format!("&{referent}") };
    Parameter::Typed(TypedParameter {
        pattern: Pattern::Ident(name.to_string()),
        ty: TypeExpr {
            tokens,
            shape: TypeShape::Reference { mutable, referent: referent.to_string() },
        },
    })
}

fn by_value(name: &str, tokens: &str) -> Parameter {
    Parameter::Typed(TypedParameter {
        pattern: Pattern::Ident(name.to_string()),
        ty: TypeExpr { tokens: tokens.to_string(), shape: TypeShape::Other },
    })
}

fn unsupported(pattern: &str) -> Parameter {
    Parameter::Typed(TypedParameter {
        pattern: Pattern::Other(pattern.to_string()),
        ty: TypeExpr { tokens: "(A, B)".to_string(), shape: TypeShape::Other },
    })
}

fn result_of(ok: &str, err: &str) -> DeclaredReturn {
    DeclaredReturn::Type(TypeExpr {
        tokens: format!("Result<{ok}, {err}>"),
        shape: TypeShape::Path {
            last: PathSegment {
                ident: "Result".to_string(),
                arguments: PathArguments::AngleBracketed(vec![
                    GenericArgument::Type(ok.to_string()),
                    GenericArgument::Type(err.to_string()),
                ]),
            },
        },
    })
}

fn incomplete_result() -> DeclaredReturn {
    DeclaredReturn::Type(TypeExpr {
        tokens: "QeapResult<u8>".to_string(),
        shape: TypeShape::Path {
            last: PathSegment {
                ident: "QeapResult".to_string(),
                arguments: PathArguments::AngleBracketed(vec![GenericArgument::Type(
                    "u8".to_string(),
                )]),
            },
        },
    })
}

fn three_parameters(output: DeclaredReturn) -> OriginalSignature {
    OriginalSignature {
        prefix: "fn".to_string(),
        name: "work".to_string(),
        suffix: "(a: &mut A, b: &B, c: Rc<C>) { body(a, b, c) }".to_string(),
        parameters: vec![
            reference("a", true, "A"),
            reference("b", false, "B"),
            by_value("c", "Rc<C>"),
        ],
        output,
    }
}

fn scoped_func() -> OriginalSignature {
    OriginalSignature {
        prefix: "fn".to_string(),
        name: "scoped_func".to_string(),
        suffix: "(data: &mut Something) -> Result<(), Box<dyn Error>> { data.field = 4; Ok(()) }"
            .to_string(),
        parameters: vec![reference("data", true, "Something")],
        output: result_of("()", "Box<dyn Error>"),
    }
}

#[test]
fn bindings_are_gathered_in_declaration_order() {
    let bindings = gather_bindings(&three_parameters(DeclaredReturn::Absent)).unwrap();
    assert_eq!(
        bindings,
        vec![
            ParameterBinding {
                name: "a".to_string(),
                declared_type: "A".to_string(),
                kind: BindingKind::MutableBorrow,
            },
            ParameterBinding {
                name: "b".to_string(),
                declared_type: "B".to_string(),
                kind: BindingKind::ImmutableBorrow,
            },
            ParameterBinding {
                name: "c".to_string(),
                declared_type: "Rc<C>".to_string(),
                kind: BindingKind::Handle,
            },
        ]
    );
}

#[test]
fn receivers_are_passed_over() {
    let mut declaration = three_parameters(DeclaredReturn::Absent);
    declaration.parameters.insert(0, Parameter::Receiver);
    declaration.parameters.insert(2, Parameter::Receiver);
    let names: Vec<String> =
        gather_bindings(&declaration).unwrap().into_iter().map(|b| b.name).collect();
    assert_eq!(names, vec!["a", "b", "c"]);
}

#[test]
fn no_parameters_give_no_bindings() {
    let mut declaration = three_parameters(DeclaredReturn::Absent);
    declaration.parameters.clear();
    assert_eq!(gather_bindings(&declaration), Ok(vec![]));
}

#[test]
fn the_first_unsupported_pattern_refuses_the_list() {
    let mut declaration = three_parameters(DeclaredReturn::Absent);
    declaration.parameters.insert(1, unsupported("(x, y)"));
    declaration.parameters.push(unsupported("[z]"));
    assert_eq!(
        gather_bindings(&declaration),
        Err(Diagnostic::UnsupportedPattern("(x, y)".to_string()))
    );
}

#[test]
fn loads_arguments_and_saves_keep_the_declaration_order() {
    let analysed = create_scoped_fn(Mode::Nested, three_parameters(DeclaredReturn::Absent)).unwrap();
    let function = analysed.synthesize();
    assert_eq!(
        function.loads,
        vec![
            "let mut a: A = ::qeap::Qeap::load()?;",
            "let b: B = ::qeap::Qeap::load()?;",
            "let c: Rc<C> = ::qeap::Qeap::load()?;",
        ]
    );
    assert_eq!(
        function.invocation,
        "let result = work_inner(&mut a, &b, ::qeap::Handle::new_handle(&c));"
    );
    assert_eq!(
        function.saves,
        vec![
            "::qeap::Qeap::save(&a)?;",
            "::qeap::Qeap::save(&b)?;",
            "::qeap::Qeap::save(&c)?;",
        ]
    );
}

#[test]
fn the_parts_are_rendered_in_the_order_load_call_save_adapt() {
    let text = expand(None, three_parameters(DeclaredReturn::Absent)).unwrap();
    assert_eq!(
        text,
        "fn work() -> ::std::result::Result<(), ::qeap::error::Error> { \
         fn work_inner (a: &mut A, b: &B, c: Rc<C>) { body(a, b, c) } \
         let mut a: A = ::qeap::Qeap::load()?; \
         let b: B = ::qeap::Qeap::load()?; \
         let c: Rc<C> = ::qeap::Qeap::load()?; \
         let result = work_inner(&mut a, &b, ::qeap::Handle::new_handle(&c)); \
         ::qeap::Qeap::save(&a)?; \
         ::qeap::Qeap::save(&b)?; \
         ::qeap::Qeap::save(&c)?; \
         Ok(result) }"
    );
}

#[test]
fn nested_is_the_mode_without_a_token() {
    let text = expand(None, scoped_func()).unwrap();
    assert_eq!(
        text,
        "fn scoped_func() -> ::std::result::Result<Result<(), Box<dyn Error>>, ::qeap::error::Error> { \
         fn scoped_func_inner (data: &mut Something) -> Result<(), Box<dyn Error>> { data.field = 4; Ok(()) } \
         let mut data: Something = ::qeap::Qeap::load()?; \
         let result = scoped_func_inner(&mut data); \
         ::qeap::Qeap::save(&data)?; \
         Ok(result) }"
    );
}

#[test]
fn absorb_hands_the_result_on_as_it_is() {
    let text = expand(Some("absorb"), scoped_func()).unwrap();
    assert_eq!(
        text,
        "fn scoped_func() -> Result<(), Box<dyn Error>> { \
         fn scoped_func_inner (data: &mut Something) -> Result<(), Box<dyn Error>> { data.field = 4; Ok(()) } \
         let mut data: Something = ::qeap::Qeap::load()?; \
         let result = scoped_func_inner(&mut data); \
         ::qeap::Qeap::save(&data)?; \
         result }"
    );
}

#[test]
fn flatten_passes_the_call_through_the_adapter() {
    let text = expand(Some("flatten"), scoped_func()).unwrap();
    assert_eq!(
        text,
        "fn scoped_func() -> ::std::result::Result<(), ::qeap::error::FlattenedError<Box<dyn Error>>> { \
         fn scoped_func_inner (data: &mut Something) -> Result<(), Box<dyn Error>> { data.field = 4; Ok(()) } \
         let mut data: Something = ::qeap::Qeap::load()?; \
         let result = ::qeap::transform::IntoFlattenedResult::into_flattened(scoped_func_inner(&mut data)); \
         ::qeap::Qeap::save(&data)?; \
         result }"
    );
}

#[test]
fn flatten_erased_boxes_the_error_of_a_result() {
    let mut declaration = scoped_func();
    declaration.output = result_of("u16", "MyErr");
    let function = create_scoped_fn(Mode::FlattenErased, declaration).unwrap().synthesize();
    assert_eq!(
        function.return_type,
        "::std::result::Result<u16, ::qeap::error::FlattenedError<::std::boxed::Box<dyn ::std::error::Error>>>"
    );
    assert_eq!(
        function.invocation,
        "let result = ::qeap::transform::IntoFlattenedResult::into_flattened(\
         scoped_func_inner(&mut data).map_err(::std::boxed::Box::<dyn ::std::error::Error>::from));"
    );
    assert_eq!(function.adaptation, "result");
}

#[test]
fn flatten_erased_has_nothing_to_box_without_a_result() {
    let mut declaration = scoped_func();
    declaration.output = DeclaredReturn::Absent;
    let function = create_scoped_fn(Mode::FlattenErased, declaration).unwrap().synthesize();
    assert_eq!(
        function.invocation,
        "let result = ::qeap::transform::IntoFlattenedResult::into_flattened(scoped_func_inner(&mut data));"
    );
}

#[test]
fn expect_aborts_with_a_message_that_names_the_binding_and_the_step() {
    let declaration = OriginalSignature {
        prefix: "pub fn".to_string(),
        name: "port".to_string(),
        suffix: "(config: &Config) -> u16 { config.port }".to_string(),
        parameters: vec![reference("config", false, "Config")],
        output: DeclaredReturn::Type(TypeExpr {
            tokens: "u16".to_string(),
            shape: TypeShape::Other,
        }),
    };
    let function = create_scoped_fn(Mode::Expect, declaration).unwrap().synthesize();
    assert_eq!(
        function.loads,
        vec!["let config: Config = ::qeap::Qeap::load().expect(\"config data should load successfully\");"]
    );
    assert_eq!(
        function.saves,
        vec!["::qeap::Qeap::save(&config).expect(\"config data should save successfully\");"]
    );
    assert!(function.loads[0].contains("config"));
    assert!(function.loads[0].contains("load"));
    assert_eq!(function.return_type, "u16");
    assert_eq!(function.adaptation, "result");
    assert_eq!(function.inner, "pub fn port_inner (config: &Config) -> u16 { config.port }");
}

#[test]
fn a_function_without_parameters_only_calls() {
    let declaration = OriginalSignature {
        prefix: "fn".to_string(),
        name: "tick".to_string(),
        suffix: "() { }".to_string(),
        parameters: vec![],
        output: DeclaredReturn::Absent,
    };
    assert_eq!(
        expand(Some("expect"), declaration).unwrap(),
        "fn tick() -> () { fn tick_inner () { } let result = tick_inner(); result }"
    );
}

#[test]
fn an_unknown_token_is_refused_before_the_declaration_is_read() {
    let mut declaration = three_parameters(incomplete_result());
    declaration.parameters.push(unsupported("(x, y)"));
    assert_eq!(
        expand(Some("nested"), declaration),
        Err(Diagnostic::UnknownMode("nested".to_string()))
    );
}

#[test]
fn a_parameter_is_refused_before_the_return_type() {
    let mut declaration = three_parameters(incomplete_result());
    declaration.parameters.push(unsupported("(x, y)"));
    assert_eq!(
        expand(Some("flatten"), declaration),
        Err(Diagnostic::UnsupportedPattern("(x, y)".to_string()))
    );
}

#[test]
fn an_incomplete_result_is_refused_only_when_flattening() {
    assert_eq!(
        expand(Some("flatten"), three_parameters(incomplete_result())),
        Err(Diagnostic::IncompleteResult)
    );
    assert_eq!(
        expand(Some("flatten_erased"), three_parameters(incomplete_result())),
        Err(Diagnostic::IncompleteResult)
    );
    assert!(expand(None, three_parameters(incomplete_result())).is_ok());
    assert!(expand(Some("absorb"), three_parameters(incomplete_result())).is_ok());
    assert!(expand(Some("expect"), three_parameters(incomplete_result())).is_ok());
}

#[test]
fn the_token_is_read_in_any_case() {
    assert_eq!(
        expand(Some("ABSORB"), scoped_func()).unwrap(),
        expand(Some("absorb"), scoped_func()).unwrap()
    );
}

#[test]
fn the_analysis_keeps_the_declaration_and_the_mode() {
    let analysed = create_scoped_fn(Mode::Flatten, scoped_func()).unwrap();
    assert_eq!(analysed.mode, Mode::Flatten);
    assert_eq!(analysed.declaration, scoped_func());
    assert_eq!(
        analysed.output,
        "::std::result::Result<(), ::qeap::error::FlattenedError<Box<dyn Error>>>"
    );
    assert_eq!(analysed.bindings.len(), 1);
}

#[test]
fn to_tokens_appends_to_what_is_there() {
    let analysed = create_scoped_fn(Mode::Nested, scoped_func()).unwrap();
    let mut tokens = String::from("struct Before;");
    analysed.to_tokens(&mut tokens);
    assert_eq!(tokens, format!("struct Before;{}", analysed.synthesize().render()));
}

#[test]
fn rendering_joins_the_parts_with_spaces() {
    let function = SynthesizedFunction {
        name: "f".to_string(),
        return_type: "R".to_string(),
        inner: "I".to_string(),
        loads: vec!["L1".to_string(), "L2".to_string()],
        invocation: "C".to_string(),
        saves: vec!["S1".to_string()],
        adaptation: "A".to_string(),
    };
    assert_eq!(function.render(), "fn f() -> R { I L1 L2 C S1 A }");
}

#[test]
fn synthesis_reads_the_fields_of_the_analysis() {
    let analysed = ScopedFn {
        mode: Mode::Expect,
        bindings: vec![ParameterBinding {
            name: "x".to_string(),
            declared_type: "X".to_string(),
            kind: BindingKind::Handle,
        }],
        output: "u8".to_string(),
        declaration: OriginalSignature {
            prefix: "fn".to_string(),
            name: "g".to_string(),
            suffix: "(x: X) -> u8 { 0 }".to_string(),
            parameters: vec![by_value("x", "X")],
            output: DeclaredReturn::Type(TypeExpr {
                tokens: "u8".to_string(),
                shape: TypeShape::Other,
            }),
        },
    };
    assert_eq!(
        analysed.synthesize().render(),
        "fn g() -> u8 { fn g_inner (x: X) -> u8 { 0 } \
         let x: X = ::qeap::Qeap::load().expect(\"x data should load successfully\"); \
         let result = g_inner(::qeap::Handle::new_handle(&x)); \
         ::qeap::Qeap::save(&x).expect(\"x data should save successfully\"); \
         result }"
    );
}

#[test]
fn scoped_hands_back_the_tokens_of_the_text() {
    for token in [None, Some("flatten"), Some("flatten_erased"), Some("absorb"), Some("expect")] {
        let text = expand(token, scoped_func()).unwrap();
        let tokens = scoped(token, scoped_func()).unwrap();
        let lexed: proc_macro2::TokenStream = text.parse().unwrap();
        assert_eq!(tokens.to_string(), lexed.to_string());
        assert!(!tokens.is_empty());
    }
}

#[test]
fn scoped_refuses_as_expand_does() {
    let mut declaration = three_parameters(incomplete_result());
    declaration.parameters.push(unsupported("(x, y)"));
    assert_eq!(
        scoped(Some("nested"), declaration.clone()).unwrap_err(),
        Diagnostic::UnknownMode("nested".to_string())
    );
    assert_eq!(
        scoped(Some("flatten"), declaration).unwrap_err(),
        Diagnostic::UnsupportedPattern("(x, y)".to_string())
    );
    assert_eq!(
        scoped(Some("flatten"), three_parameters(incomplete_result())).unwrap_err(),
        Diagnostic::IncompleteResult
    );
}

#[test]
fn scoped_refuses_a_declaration_that_is_no_token_stream() {
    let mut declaration = scoped_func();
    declaration.suffix = "(data: &mut Something) { data.field = 4; ".to_string();
    assert!(expand(None, declaration.clone()).is_ok());
    assert_eq!(scoped(None, declaration).unwrap_err(), Diagnostic::MalformedTokens);

    let mut declaration = scoped_func();
    declaration.suffix = "(data: &mut Something) { \"open".to_string();
    assert_eq!(scoped(Some("expect"), declaration).unwrap_err(), Diagnostic::MalformedTokens);
}

#[test]
fn a_refused_declaration_is_refused_before_it_is_lexed() {
    let mut declaration = three_parameters(DeclaredReturn::Absent);
    declaration.suffix = "(".to_string();
    declaration.parameters.push(unsupported("(x, y)"));
    assert_eq!(
        scoped(None, declaration).unwrap_err(),
        Diagnostic::UnsupportedPattern("(x, y)".to_string())
    );
}
