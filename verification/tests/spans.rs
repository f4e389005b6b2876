use axvisor_api::expand::{api_def, api_impl, assert_empty_attr, expand_def, usage_error};
use axvisor_api::resolver::CrateLookup;
use proc_macro2::{Span, TokenStream, TokenTree};
use std::ops::Range;
use std::str::FromStr;

fn tokens(text: &str) -> TokenStream {
    TokenStream::from_str(text).unwrap()
}

fn ranges(stream: TokenStream) -> Vec<Range<usize>> {
    let mut all = Vec::new();
    for token in stream {
        all.push(token.span().byte_range());
        if let TokenTree::Group(group) = token {
            all.extend(ranges(group.stream()));
        }
    }
    all
}

fn covering(stream: &TokenStream) -> Range<usize> {
    let all: Vec<TokenTree> = stream.clone().into_iter().collect();
    let first = all.first().unwrap().span().byte_range();
    let last = all.last().unwrap().span().byte_range();
    first.start..last.end
}

#[test]
fn the_diagnostic_is_anchored_at_the_argument() {
    let _earlier = tokens("some text that was read before");
    let attr = tokens("first, second");
    let at = covering(&attr);
    assert_eq!(at.end - at.start, "first, second".len());
    let out = api_def(attr, &CrateLookup::Itself, tokens("trait T {}"));
    let found = ranges(out);
    assert_eq!(found.len(), 4);
    for range in found {
        assert_eq!(range, at);
    }
}

#[test]
fn the_diagnostic_of_a_binding_is_anchored_at_the_argument() {
    let _earlier = tokens("other text");
    let attr = tokens("(x)");
    let at = covering(&attr);
    assert_eq!(at.end - at.start, 3);
    let out = api_impl(attr, &CrateLookup::NotFound, tokens("impl T for S {}"));
    let found = ranges(out);
    assert_eq!(found.len(), 4);
    for range in found {
        assert_eq!(range, at);
    }
}

#[test]
fn assert_empty_attr_tells_empty_from_given() {
    assert!(assert_empty_attr(&TokenStream::new()).is_none());
    assert!(assert_empty_attr(&tokens(" ")).is_none());
    let attr = tokens("x");
    let at = covering(&attr);
    let error = assert_empty_attr(&attr).unwrap();
    assert_eq!(
        error.to_string(),
        tokens("compile_error!(\"This attribute does not accept any arguments\")").to_string()
    );
    for range in ranges(error) {
        assert_eq!(range, at);
    }
}

#[test]
fn usage_error_carries_the_span_it_is_given() {
    let _earlier = tokens("a b c d e f");
    let marker = tokens("here");
    let at: Span = marker.into_iter().next().unwrap().span();
    assert_ne!(at.byte_range(), Span::call_site().byte_range());
    let found = ranges(usage_error(at));
    assert_eq!(found.len(), 4);
    for range in found {
        assert_eq!(range, at.byte_range());
    }
}

#[test]
fn generated_tokens_carry_the_site_and_the_item_keeps_its_own() {
    let _earlier = tokens("a b c");
    let marker = tokens("site");
    let site: Span = marker.into_iter().next().unwrap().span();
    let item = tokens("trait T { fn f(); }");
    let given = ranges(item.clone());
    let out: Vec<TokenTree> = expand_def(&CrateLookup::Itself, site, item).into_iter().collect();
    let attribute: TokenStream = out[..2].iter().cloned().collect();
    let generated = ranges(attribute);
    assert_eq!(generated.len(), 2 + 11 + 5);
    for range in generated {
        assert_eq!(range, site.byte_range());
    }
    let kept: TokenStream = out[2..].iter().cloned().collect();
    assert_eq!(ranges(kept), given);
}
