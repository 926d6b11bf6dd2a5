use proc_macro2::{TokenStream, TokenTree};
use quote::ToTokens;

use qeap::diagnostic::Diagnostic;
use qeap::scoped::{expand, scoped};
use qeap::signature::{
    DeclaredReturn, GenericArgument, OriginalSignature, Parameter, PathArguments, PathSegment,
    Pattern, TypeExpr, TypeShape, TypedParameter,
};

fn text_of<T: ToTokens>(node: &T) -> String {
    node.to_token_stream().to_string()
}

fn segment_of(segment: &syn::PathSegment) -> PathSegment {
    let arguments = match &segment.arguments {
        syn::PathArguments::None => PathArguments::Bare,
        syn::PathArguments::AngleBracketed(list) => PathArguments::AngleBracketed(
            list.args
                .iter()
                .map(|argument| match argument {
                    syn::GenericArgument::Type(ty) => GenericArgument::Type(text_of(ty)),
                    _ => GenericArgument::Other,
                })
                .collect(),
        ),
        syn::PathArguments::Parenthesized(_) => PathArguments::Parenthesized,
    };
    PathSegment { ident: segment.ident.to_string(), arguments }
}

fn type_of(ty: &syn::Type) -> TypeExpr {
    let shape = match ty {
        syn::Type::Reference(reference) => TypeShape::Reference {
            mutable: reference.mutability.is_some(),
            referent: text_of(&*reference.elem),
        },
        syn::Type::Path(path) => match path.path.segments.last() {
            Some(last) => TypeShape::Path { last: segment_of(last) },
            None => TypeShape::Other,
        },
        _ => TypeShape::Other,
    };
    TypeExpr { tokens: text_of(ty), shape }
}

fn declaration_of(source: &str) -> OriginalSignature {
    let item: syn::ItemFn = syn::parse_str(source).unwrap();
    let mut prefix = TokenStream::new();
    let mut suffix = TokenStream::new();
    let mut before_name = true;
    let mut at_name = false;
    for tree in item.to_token_stream() {
        if at_name {
            at_name = false;
        } else if before_name {
            let is_fn = matches!(&tree, TokenTree::Ident(word) if word == "fn");
            prefix.extend([tree]);
            if is_fn {
                before_name = false;
                at_name = true;
            }
        } else {
            suffix.extend([tree]);
        }
    }
    OriginalSignature {
        prefix: prefix.to_string(),
        name: item.sig.ident.to_string(),
        suffix: suffix.to_string(),
        parameters: item
            .sig
            .inputs
            .iter()
            .map(|input| match input {
                syn::FnArg::Receiver(_) => Parameter::Receiver,
                syn::FnArg::Typed(typed) => Parameter::Typed(TypedParameter {
                    pattern: match &*typed.pat {
                        syn::Pat::Ident(name) => Pattern::Ident(name.ident.to_string()),
                        other => Pattern::Other(format!("{other:?}")),
                    },
                    ty: type_of(&typed.ty),
                }),
            })
            .collect(),
        output: match &item.sig.output {
            syn::ReturnType::Default => DeclaredReturn::Absent,
            syn::ReturnType::Type(_, ty) => DeclaredReturn::Type(type_of(ty)),
        },
    }
}

fn same_tokens(left: &str, right: &str) -> bool {
    let left: TokenStream = left.parse().unwrap();
    let right: TokenStream = right.parse().unwrap();
    left.to_string() == right.to_string()
}

#[test]
fn a_declaration_is_split_around_its_name() {
    let declaration = declaration_of(
        "#[inline] pub(crate) fn mut_ref(config: &mut Config) -> Result<(), MyError> { config.port = 8080; Ok(()) }",
    );
    assert!(same_tokens(&declaration.prefix, "#[inline] pub(crate) fn"));
    assert_eq!(declaration.name, "mut_ref");
    assert!(same_tokens(
        &declaration.suffix,
        "(config: &mut Config) -> Result<(), MyError> { config.port = 8080; Ok(()) }"
    ));
    assert_eq!(declaration.parameters.len(), 1);
}

#[test]
fn the_synthesized_text_is_a_function_of_no_arguments() {
    let sources = [
        "pub fn immut_ref(data: &Config) { println!(\"{}\", data.something_something); }",
        "fn mut_ref(config: &mut Config) -> Result<(), MyError> { config.port = 8080; Ok(()) }",
        "fn config_rc(config: Rc<Config>) { println!(\"{}\", config.port); }",
        "fn config_arc_mutex(config: Arc<Mutex<Config>>) { let c = config.lock().unwrap(); println!(\"{}\", c.port); }",
        "fn three<'a, T: Clone>(a: &mut A, b: &'a B, c: Rc<RefCell<C>>) -> std::io::Result<T, E> where T: Default { todo!() }",
        "fn none() -> u16 { 7 }",
    ];
    for source in sources {
        for token in [None, Some("flatten"), Some("flatten_erased"), Some("absorb"), Some("expect")] {
            let declaration = declaration_of(source);
            let text = expand(token, declaration.clone()).unwrap();
            let function: syn::ItemFn = syn::parse_str(&text).unwrap();
            assert_eq!(function.sig.ident, declaration.name.as_str());
            assert!(function.sig.inputs.is_empty());
            let first = match &function.block.stmts[0] {
                syn::Stmt::Item(syn::Item::Fn(inner)) => inner,
                other => panic!("the body starts with {other:?}"),
            };
            assert_eq!(first.sig.ident.to_string(), format!("{}_inner", declaration.name));
            let mut renamed: syn::ItemFn = syn::parse_str(source).unwrap();
            renamed.sig.ident = first.sig.ident.clone();
            assert_eq!(text_of(first), text_of(&renamed));
            let typed = declaration
                .parameters
                .iter()
                .filter(|parameter| matches!(parameter, Parameter::Typed(_)))
                .count();
            assert_eq!(function.block.stmts.len(), 1 + typed + 1 + typed + 1);
        }
    }
}

#[test]
fn a_scoped_function_is_synthesized_from_source() {
    let declaration = declaration_of(
        "fn work(a: &mut A, b: &B, c: Rc<C>) -> Result<u16, MyErr> { body(a, b, c) }",
    );
    let text = expand(Some("flatten"), declaration).unwrap();
    assert!(same_tokens(
        &text,
        "fn work() -> ::std::result::Result<u16, ::qeap::error::FlattenedError<MyErr>> {
            fn work_inner(a: &mut A, b: &B, c: Rc<C>) -> Result<u16, MyErr> { body(a, b, c) }
            let mut a: A = ::qeap::Qeap::load()?;
            let b: B = ::qeap::Qeap::load()?;
            let c: Rc<C> = ::qeap::Qeap::load()?;
            let result = ::qeap::transform::IntoFlattenedResult::into_flattened(
                work_inner(&mut a, &b, ::qeap::Handle::new_handle(&c)));
            ::qeap::Qeap::save(&a)?;
            ::qeap::Qeap::save(&b)?;
            ::qeap::Qeap::save(&c)?;
            result
        }"
    ));
}

#[test]
fn a_receiver_is_passed_over_in_source() {
    let item: syn::ImplItemFn =
        syn::parse_str("fn method(&self, config: &Config) -> u16 { config.port }").unwrap();
    let source = text_of(&item);
    let declaration = declaration_of(&source);
    assert_eq!(declaration.parameters[0], Parameter::Receiver);
    let text = expand(Some("expect"), declaration).unwrap();
    let function: syn::ItemFn = syn::parse_str(&text).unwrap();
    assert_eq!(function.block.stmts.len(), 5);
}

#[test]
fn a_pattern_in_source_is_refused() {
    let declaration = declaration_of("fn pair((a, b): (A, B)) { }");
    match expand(None, declaration) {
        Err(Diagnostic::UnsupportedPattern(pattern)) => assert!(pattern.starts_with("Pat::Tuple")),
        other => panic!("expected a refused pattern, got {other:?}"),
    }
}

#[test]
fn a_mutable_name_is_still_a_name() {
    let declaration = declaration_of("fn bump(mut count: Rc<Count>) { }");
    let text = expand(None, declaration).unwrap();
    assert!(text.contains("let count: Rc < Count > = ::qeap::Qeap::load()?;"));
}

#[test]
fn a_lifetime_among_the_arguments_of_a_result_is_refused() {
    let declaration = declaration_of("fn get<'a>(a: &A) -> MyResult<'a, T, E> { todo!() }");
    assert_eq!(expand(Some("flatten"), declaration), Err(Diagnostic::IncompleteResult));
    let declaration = declaration_of("fn get(a: &A) -> QeapResult<T> { todo!() }");
    assert_eq!(expand(Some("flatten_erased"), declaration), Err(Diagnostic::IncompleteResult));
}

#[test]
fn a_referent_keeps_its_lifetime_out_of_the_declaration() {
    let declaration = declaration_of("fn get<'a>(a: &'a mut Vec<u8>) { }");
    let text = expand(Some("absorb"), declaration).unwrap();
    assert!(text.contains("let mut a: Vec < u8 > = ::qeap::Qeap::load()?;"));
    assert!(text.contains("let result = get_inner(&mut a);"));
}

#[test]
fn the_tokens_of_a_scoped_function_are_an_item() {
    let declaration = declaration_of(
        "fn mut_ref(config: &mut Config) -> Result<(), MyError> { config.port = 8080; Ok(()) }",
    );
    let tokens = scoped(Some("absorb"), declaration).unwrap();
    let function: syn::ItemFn = syn::parse2(tokens).unwrap();
    assert_eq!(function.sig.ident, "mut_ref");
    assert!(function.sig.inputs.is_empty());
    assert_eq!(text_of(&function.sig.output), "-> Result < () , MyError >");
    assert_eq!(function.block.stmts.len(), 5);
}
