use axvisor_api::namespace::{axvisor_api_namespace, AXVISOR_API_NS};
use axvisor_api::resolver::{
    axvisor_api_crate, diagnostic, CrateIdent, CrateLookup, CRATE_NOT_FOUND,
};
use axvisor_api::tokens::plain_ident;
use proc_macro2::{Span, TokenStream, TokenTree};
use std::str::FromStr;

#[test]
fn the_namespace_is_one_fixed_identifier() {
    assert_eq!(AXVISOR_API_NS, "AxVisorApi");
    let ns: Vec<TokenTree> = axvisor_api_namespace(Span::call_site()).into_iter().collect();
    assert_eq!(ns.len(), 1);
    match &ns[0] {
        TokenTree::Ident(ident) => assert_eq!(ident.to_string(), "AxVisorApi"),
        other => panic!("unexpected token {:?}", other),
    }
}

#[test]
fn the_defining_library_refers_to_itself_as_crate() {
    let path: Vec<TokenTree> = axvisor_api_crate(&CrateLookup::Itself, Span::call_site())
        .into_iter()
        .collect();
    assert_eq!(path.len(), 1);
    match &path[0] {
        TokenTree::Ident(ident) => assert_eq!(ident.to_string(), "crate"),
        other => panic!("unexpected token {:?}", other),
    }
}

#[test]
fn a_consumer_refers_to_the_name_of_its_import() {
    for name in ["axvisor_api", "hv_api", "_api", "api2", "A", "crate_interface", "self"] {
        let found = CrateLookup::Name(CrateIdent::new(name).unwrap());
        let path: Vec<TokenTree> = axvisor_api_crate(&found, Span::call_site())
            .into_iter()
            .collect();
        assert_eq!(path.len(), 1);
        match &path[0] {
            TokenTree::Ident(ident) => assert_eq!(ident.to_string(), name),
            other => panic!("unexpected token {:?}", other),
        }
    }
}

#[test]
fn a_failed_lookup_gives_the_fixed_diagnostic_and_no_guess() {
    let path = axvisor_api_crate(&CrateLookup::NotFound, Span::call_site());
    assert_eq!(
        path.to_string(),
        TokenStream::from_str("compile_error!(\"`axvisor_api` crate not found\")")
            .unwrap()
            .to_string()
    );
    assert_eq!(CRATE_NOT_FOUND, "`axvisor_api` crate not found");
    assert_eq!(path.into_iter().count(), 3);
}

#[test]
fn diagnostic_quotes_its_message() {
    let out = diagnostic("say \"no\" \\ twice", Span::call_site());
    assert_eq!(
        out.to_string(),
        TokenStream::from_str("compile_error!(\"say \\\"no\\\" \\\\ twice\")")
            .unwrap()
            .to_string()
    );
    let empty = diagnostic("", Span::call_site());
    assert_eq!(
        empty.to_string(),
        TokenStream::from_str("compile_error!(\"\")").unwrap().to_string()
    );
}

#[test]
fn plain_identifiers_are_accepted() {
    for name in ["a", "Z", "_a", "__", "_0", "axvisor_api", "AxVisorApi", "x86_64", "crate"] {
        assert!(plain_ident(name), "{:?}", name);
        assert_eq!(CrateIdent::new(name).unwrap().as_str(), name);
    }
}

#[test]
fn other_names_are_refused() {
    for name in [
        "", "_", "0", "1abc", "a-b", "a b", " a", "a ", "a.b", "a::b", "r#a", "\u{e9}t\u{e9}",
        "a\u{e9}", "a\n", "a!",
    ] {
        assert!(!plain_ident(name), "{:?}", name);
        assert!(CrateIdent::new(name).is_none(), "{:?}", name);
    }
}
