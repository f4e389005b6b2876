use axvisor_api::expand::{
    api_def, api_impl, expand_def, expand_impl, usage_error, DEF_INTERFACE, IMPL_INTERFACE,
    NO_ARGUMENTS,
};
use axvisor_api::resolver::{CrateIdent, CrateLookup};
use proc_macro2::{Delimiter, Spacing, Span, TokenStream, TokenTree};
use std::str::FromStr;

const INTERFACE: &str = "pub trait MyApiIf { fn get_value() -> u32; fn set_value(value: u32); }";

const BINDING: &str = "impl MyApiIf for MyApiImpl { fn get_value() -> u32 { 42 } fn set_value(value: u32) { let _ = value; } }";

fn tokens(text: &str) -> TokenStream {
    TokenStream::from_str(text).unwrap()
}

fn same(text: &str) -> String {
    tokens(text).to_string()
}

fn consumer(name: &str) -> CrateLookup {
    CrateLookup::Name(CrateIdent::new(name).unwrap())
}

#[test]
fn api_def_inside_the_defining_library_refers_to_crate() {
    let out = api_def(TokenStream::new(), &CrateLookup::Itself, tokens(INTERFACE));
    let expected = format!(
        "#[crate::__priv::crate_interface::def_interface(gen_caller, namespace = AxVisorApi)] {}",
        INTERFACE
    );
    assert_eq!(out.to_string(), same(&expected));
}

#[test]
fn api_def_in_a_consumer_refers_to_the_import() {
    let out = api_def(TokenStream::new(), &consumer("axvisor_api"), tokens(INTERFACE));
    let expected = format!(
        "#[axvisor_api::__priv::crate_interface::def_interface(gen_caller, namespace = AxVisorApi)] {}",
        INTERFACE
    );
    assert_eq!(out.to_string(), same(&expected));
}

#[test]
fn api_def_follows_a_renamed_import() {
    let out = api_def(TokenStream::new(), &consumer("hv_api"), tokens(INTERFACE));
    let expected = format!(
        "#[hv_api::__priv::crate_interface::def_interface(gen_caller, namespace = AxVisorApi)] {}",
        INTERFACE
    );
    assert_eq!(out.to_string(), same(&expected));
}

#[test]
fn api_def_without_the_defining_library_emits_only_the_fixed_diagnostic() {
    let out = api_def(TokenStream::new(), &CrateLookup::NotFound, tokens(INTERFACE));
    assert_eq!(
        out.to_string(),
        same("compile_error!(\"`axvisor_api` crate not found\")")
    );
    assert_eq!(out.clone().into_iter().count(), 3);
    assert!(!out.to_string().contains("MyApiIf"));
    assert!(!out.to_string().contains("__priv"));
    assert!(!out.to_string().contains("def_interface"));
    assert!(!out.to_string().contains('#'));
}

#[test]
fn api_impl_inside_the_defining_library_refers_to_crate() {
    let out = api_impl(TokenStream::new(), &CrateLookup::Itself, tokens(BINDING));
    let expected = format!(
        "#[crate::__priv::crate_interface::impl_interface(namespace = AxVisorApi)] {}",
        BINDING
    );
    assert_eq!(out.to_string(), same(&expected));
}

#[test]
fn api_impl_in_a_consumer_refers_to_the_import() {
    let out = api_impl(TokenStream::new(), &consumer("axvisor_api"), tokens(BINDING));
    let expected = format!(
        "#[axvisor_api::__priv::crate_interface::impl_interface(namespace = AxVisorApi)] {}",
        BINDING
    );
    assert_eq!(out.to_string(), same(&expected));
}

#[test]
fn api_impl_without_the_defining_library_emits_only_the_fixed_diagnostic() {
    let out = api_impl(TokenStream::new(), &CrateLookup::NotFound, tokens(BINDING));
    assert_eq!(
        out.to_string(),
        same("compile_error!(\"`axvisor_api` crate not found\")")
    );
    assert_eq!(out.clone().into_iter().count(), 3);
    assert!(!out.to_string().contains("MyApiImpl"));
    assert!(!out.to_string().contains("__priv"));
    assert!(!out.to_string().contains("impl_interface"));
    assert!(!out.to_string().contains('#'));
}

#[test]
fn a_missing_library_is_reported_before_the_item_is_looked_at() {
    let expected = same("compile_error!(\"`axvisor_api` crate not found\")");
    for item in ["struct S;", "", "impl S {}", "trait T {}"] {
        let out = api_def(TokenStream::new(), &CrateLookup::NotFound, tokens(item));
        assert_eq!(out.to_string(), expected, "{}", item);
        let out = api_impl(TokenStream::new(), &CrateLookup::NotFound, tokens(item));
        assert_eq!(out.to_string(), expected, "{}", item);
    }
}

#[test]
fn expanding_without_the_defining_library_builds_no_attribute() {
    let expected = same("compile_error!(\"`axvisor_api` crate not found\")");
    let def = expand_def(&CrateLookup::NotFound, Span::call_site(), tokens(INTERFACE));
    assert_eq!(def.to_string(), expected);
    let imp = expand_impl(&CrateLookup::NotFound, Span::call_site(), tokens(BINDING));
    assert_eq!(imp.to_string(), expected);
}

#[test]
fn api_def_with_an_argument_emits_only_the_diagnostic() {
    let out = api_def(tokens("gen_caller"), &CrateLookup::Itself, tokens(INTERFACE));
    assert_eq!(
        out.to_string(),
        same("compile_error!(\"This attribute does not accept any arguments\")")
    );
    assert!(!out.to_string().contains("MyApiIf"));
    assert!(!out.to_string().contains("def_interface"));
}

#[test]
fn api_impl_with_an_argument_emits_only_the_diagnostic() {
    let out = api_impl(tokens("namespace = Other"), &CrateLookup::Itself, tokens(BINDING));
    assert_eq!(
        out.to_string(),
        same("compile_error!(\"This attribute does not accept any arguments\")")
    );
    assert!(!out.to_string().contains("MyApiImpl"));
    assert!(!out.to_string().contains("impl_interface"));
}

#[test]
fn any_kind_of_token_counts_as_an_argument() {
    for attr in ["x", "1", "\"text\"", ",", "()", "[a, b]", "{}", "'a", "a::b(c)"] {
        let out = api_def(tokens(attr), &consumer("axvisor_api"), tokens(INTERFACE));
        assert_eq!(
            out.to_string(),
            same("compile_error!(\"This attribute does not accept any arguments\")"),
            "argument {:?}",
            attr
        );
        let out = api_impl(tokens(attr), &consumer("axvisor_api"), tokens(BINDING));
        assert_eq!(
            out.to_string(),
            same("compile_error!(\"This attribute does not accept any arguments\")"),
            "argument {:?}",
            attr
        );
    }
}

#[test]
fn an_argument_is_rejected_before_the_lookup_matters() {
    let a = api_def(tokens("x"), &CrateLookup::Itself, tokens(INTERFACE));
    let b = api_def(tokens("x"), &CrateLookup::NotFound, tokens(INTERFACE));
    let c = api_def(tokens("x"), &consumer("other"), tokens(BINDING));
    assert_eq!(a.to_string(), b.to_string());
    assert_eq!(a.to_string(), c.to_string());
}

#[test]
fn whitespace_and_comments_are_no_argument() {
    let out = api_def(tokens("  /* nothing */ \n"), &CrateLookup::Itself, tokens(INTERFACE));
    let expected = format!(
        "#[crate::__priv::crate_interface::def_interface(gen_caller, namespace = AxVisorApi)] {}",
        INTERFACE
    );
    assert_eq!(out.to_string(), same(&expected));
}

#[test]
fn usage_error_is_compile_error_with_the_fixed_message() {
    let out: Vec<TokenTree> = usage_error(Span::call_site()).into_iter().collect();
    assert_eq!(out.len(), 3);
    match &out[0] {
        TokenTree::Ident(ident) => assert_eq!(ident.to_string(), "compile_error"),
        other => panic!("unexpected token {:?}", other),
    }
    match &out[1] {
        TokenTree::Punct(punct) => {
            assert_eq!(punct.as_char(), '!');
            assert_eq!(punct.spacing(), Spacing::Alone);
        }
        other => panic!("unexpected token {:?}", other),
    }
    match &out[2] {
        TokenTree::Group(group) => {
            assert_eq!(group.delimiter(), Delimiter::Parenthesis);
            let inner: Vec<TokenTree> = group.stream().into_iter().collect();
            assert_eq!(inner.len(), 1);
            match &inner[0] {
                TokenTree::Literal(literal) => assert_eq!(
                    literal.to_string(),
                    "\"This attribute does not accept any arguments\""
                ),
                other => panic!("unexpected token {:?}", other),
            }
        }
        other => panic!("unexpected token {:?}", other),
    }
}

#[test]
fn the_fixed_texts_are_as_documented() {
    assert_eq!(NO_ARGUMENTS, "This attribute does not accept any arguments");
    assert_eq!(DEF_INTERFACE, "def_interface");
    assert_eq!(IMPL_INTERFACE, "impl_interface");
}

#[test]
fn expand_def_builds_the_attribute_token_by_token() {
    let out: Vec<TokenTree> = expand_def(&CrateLookup::Itself, Span::call_site(), tokens("trait T {}"))
        .into_iter()
        .collect();
    assert_eq!(out.len(), 5);
    match &out[0] {
        TokenTree::Punct(punct) => {
            assert_eq!(punct.as_char(), '#');
            assert_eq!(punct.spacing(), Spacing::Alone);
        }
        other => panic!("unexpected token {:?}", other),
    }
    let attribute = match &out[1] {
        TokenTree::Group(group) => {
            assert_eq!(group.delimiter(), Delimiter::Bracket);
            group.stream().into_iter().collect::<Vec<TokenTree>>()
        }
        other => panic!("unexpected token {:?}", other),
    };
    let shape: Vec<String> = attribute
        .iter()
        .map(|token| match token {
            TokenTree::Ident(ident) => format!("ident {}", ident),
            TokenTree::Punct(punct) => match punct.spacing() {
                Spacing::Joint => format!("joint {}", punct.as_char()),
                Spacing::Alone => format!("alone {}", punct.as_char()),
            },
            TokenTree::Literal(literal) => format!("literal {}", literal),
            TokenTree::Group(group) => format!("group {:?}", group.delimiter()),
        })
        .collect();
    assert_eq!(
        shape,
        vec![
            "ident crate",
            "joint :",
            "alone :",
            "ident __priv",
            "joint :",
            "alone :",
            "ident crate_interface",
            "joint :",
            "alone :",
            "ident def_interface",
            "group Parenthesis",
        ]
    );
    let arguments = match &attribute[10] {
        TokenTree::Group(group) => group.stream().into_iter().collect::<Vec<TokenTree>>(),
        other => panic!("unexpected token {:?}", other),
    };
    let shape: Vec<String> = arguments
        .iter()
        .map(|token| match token {
            TokenTree::Ident(ident) => format!("ident {}", ident),
            TokenTree::Punct(punct) => match punct.spacing() {
                Spacing::Joint => format!("joint {}", punct.as_char()),
                Spacing::Alone => format!("alone {}", punct.as_char()),
            },
            TokenTree::Literal(literal) => format!("literal {}", literal),
            TokenTree::Group(group) => format!("group {:?}", group.delimiter()),
        })
        .collect();
    assert_eq!(
        shape,
        vec![
            "ident gen_caller",
            "alone ,",
            "ident namespace",
            "alone =",
            "ident AxVisorApi",
        ]
    );
    assert_eq!(out[2].to_string(), "trait");
    assert_eq!(out[3].to_string(), "T");
    match &out[4] {
        TokenTree::Group(group) => {
            assert_eq!(group.delimiter(), Delimiter::Brace);
            assert!(group.stream().is_empty());
        }
        other => panic!("unexpected token {:?}", other),
    }
}

#[test]
fn expand_impl_asks_for_no_callers() {
    let out = expand_impl(&CrateLookup::Itself, Span::call_site(), tokens(BINDING)).to_string();
    assert!(!out.contains("gen_caller"));
    assert!(out.contains("impl_interface"));
    assert!(out.contains("AxVisorApi"));
}

#[test]
fn an_empty_item_still_gets_its_attribute() {
    let out = expand_def(&CrateLookup::Itself, Span::call_site(), TokenStream::new());
    assert_eq!(
        out.to_string(),
        same("#[crate::__priv::crate_interface::def_interface(gen_caller, namespace = AxVisorApi)]")
    );
    assert_eq!(out.into_iter().count(), 2);
}

#[test]
fn the_declaration_follows_the_attribute_unchanged() {
    let declaration = "/// The interface.\n#[allow(unused)] pub(crate) trait WideIf { fn a(x: u8, y: &'static str, z: [u16; 4]) -> Option<(u8, i64)>; fn b(); const K: usize = 3; }";
    let given: Vec<String> = tokens(declaration).into_iter().map(|t| t.to_string()).collect();
    let out: Vec<String> = api_def(TokenStream::new(), &CrateLookup::Itself, tokens(declaration))
        .into_iter()
        .map(|t| t.to_string())
        .collect();
    assert_eq!(out.len(), given.len() + 2);
    assert_eq!(&out[2..], &given[..]);
}

#[test]
fn the_binding_follows_the_attribute_unchanged() {
    let given: Vec<String> = tokens(BINDING).into_iter().map(|t| t.to_string()).collect();
    let out: Vec<String> = api_impl(TokenStream::new(), &CrateLookup::Itself, tokens(BINDING))
        .into_iter()
        .map(|t| t.to_string())
        .collect();
    assert_eq!(out.len(), given.len() + 2);
    assert_eq!(&out[2..], &given[..]);
}

#[test]
fn an_availability_predicate_stays_on_its_operation() {
    let declaration = "pub trait ArchIf { #[cfg(target_arch = \"aarch64\")] fn read_vgicd_typer() -> u32; fn always() -> u32; }";
    let out = api_def(TokenStream::new(), &consumer("axvisor_api"), tokens(declaration));
    let expected = format!(
        "#[axvisor_api::__priv::crate_interface::def_interface(gen_caller, namespace = AxVisorApi)] {}",
        declaration
    );
    assert_eq!(out.to_string(), same(&expected));
    assert_eq!(out.to_string().matches("target_arch").count(), 1);
}

#[test]
fn expanding_again_gives_the_same_text() {
    let first = api_def(TokenStream::new(), &consumer("axvisor_api"), tokens(INTERFACE));
    let second = api_def(TokenStream::new(), &consumer("axvisor_api"), tokens(INTERFACE));
    assert_eq!(first.to_string(), second.to_string());
    let first = api_impl(TokenStream::new(), &consumer("axvisor_api"), tokens(BINDING));
    let second = api_impl(TokenStream::new(), &consumer("axvisor_api"), tokens(BINDING));
    assert_eq!(first.to_string(), second.to_string());
    let first = api_def(tokens("x"), &CrateLookup::Itself, tokens(INTERFACE));
    let second = api_def(tokens("x"), &CrateLookup::Itself, tokens(INTERFACE));
    assert_eq!(first.to_string(), second.to_string());
}

#[test]
fn declaration_and_binding_name_the_same_namespace() {
    let def = api_def(TokenStream::new(), &CrateLookup::Itself, tokens(INTERFACE)).to_string();
    let imp = api_impl(TokenStream::new(), &CrateLookup::Itself, tokens(BINDING)).to_string();
    assert!(def.contains("namespace = AxVisorApi"));
    assert!(imp.contains("namespace = AxVisorApi"));
}

#[test]
fn different_items_have_different_expansions() {
    let a = api_def(TokenStream::new(), &CrateLookup::Itself, tokens("trait A { fn f(); }"));
    let b = api_def(TokenStream::new(), &CrateLookup::Itself, tokens("trait A { fn g(); }"));
    assert_ne!(a.to_string(), b.to_string());
}
