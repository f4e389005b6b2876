//! The two directives: one registers an interface, the other its
//! implementation.
//!
//! Each puts a single attribute of `crate_interface` in front of the item and
//! leaves the item as it is. A directive takes no argument and stands on one
//! kind of item only: given an argument, or another item, it emits a diagnostic
//! and nothing else.

use crate::namespace::axvisor_api_namespace;
use crate::namespace::namespace_tokens;
use crate::resolver::axvisor_api_crate;
use crate::resolver::crate_path_tokens;
use crate::resolver::diagnostic;
use crate::resolver::diagnostic_tokens;
use crate::resolver::CrateLookup;
use crate::resolver::CRATE_NOT_FOUND;
use crate::shape::item_shape;
use crate::shape::judged;
use crate::shape::judged_trees;
use crate::shape::shape_of_trees;
use crate::shape::tree_tokens;
use crate::shape::Shape;
use crate::shape::Target;
use crate::tokens::append_stream;
use crate::tokens::call_site;
use crate::tokens::new_stream;
use crate::tokens::push_group;
use crate::tokens::push_ident;
use crate::tokens::push_punct;
use crate::tokens::spans_all;
use crate::tokens::stream_is_empty;
use crate::tokens::stream_span;
use crate::tokens::stream_tokens;
use crate::tokens::stream_trees;
use crate::tokens::token_span;
use crate::tokens::tree_span;
use crate::tokens::Delimiter;
use crate::tokens::Spacing;
use crate::tokens::Token;
use proc_macro2::Span;
use proc_macro2::TokenStream;
use vstd::prelude::*;

verus! {

/// The text of the diagnostic for a directive that was given an argument.
pub const NO_ARGUMENTS: &'static str = "This attribute does not accept any arguments";

/// The text of the diagnostic for an interface directive on an item that is no
/// trait declaration.
pub const NOT_A_TRAIT: &'static str = "This attribute can only be applied to a trait definition";

/// The text of the diagnostic for an implementation directive on an item that
/// is no `impl` of a trait for a type.
pub const NOT_A_TRAIT_IMPL: &'static str =
    "This attribute can only be applied to an implementation of a trait";

/// The attribute of `crate_interface` that registers an interface.
pub const DEF_INTERFACE: &'static str = "def_interface";

/// The attribute of `crate_interface` that registers an implementation.
pub const IMPL_INTERFACE: &'static str = "impl_interface";

/// The tokens of `::`.
pub open spec fn path_separator_tokens(site: Span) -> Seq<Token> {
    seq![
        Token::Punct { ch: ':', spacing: Spacing::Joint, span: site },
        Token::Punct { ch: ':', spacing: Spacing::Alone, span: site },
    ]
}

/// The tokens of `<library>::__priv::crate_interface::<attribute>`, for a
/// defining library that was found.
pub open spec fn attribute_path_tokens(found: CrateLookup, attribute: Seq<char>, site: Span) -> Seq<
    Token,
> {
    crate_path_tokens(found, site) + path_separator_tokens(site) + seq![
        Token::Ident { name: "__priv"@, span: site },
    ] + path_separator_tokens(site) + seq![Token::Ident { name: "crate_interface"@, span: site }]
        + path_separator_tokens(site) + seq![Token::Ident { name: attribute, span: site }]
}

/// The tokens of `gen_caller, namespace = AxVisorApi`: a caller per operation,
/// under the shared namespace.
pub open spec fn def_argument_tokens(site: Span) -> Seq<Token> {
    seq![
        Token::Ident { name: "gen_caller"@, span: site },
        Token::Punct { ch: ',', spacing: Spacing::Alone, span: site },
        Token::Ident { name: "namespace"@, span: site },
        Token::Punct { ch: '=', spacing: Spacing::Alone, span: site },
    ] + namespace_tokens(site)
}

/// The tokens of `namespace = AxVisorApi`.
pub open spec fn impl_argument_tokens(site: Span) -> Seq<Token> {
    seq![
        Token::Ident { name: "namespace"@, span: site },
        Token::Punct { ch: '=', spacing: Spacing::Alone, span: site },
    ] + namespace_tokens(site)
}

/// The tokens of `#[path(arguments)]`: two token trees.
pub open spec fn attribute_tokens(path: Seq<Token>, arguments: Seq<Token>, site: Span) -> Seq<
    Token,
> {
    seq![
        Token::Punct { ch: '#', spacing: Spacing::Alone, span: site },
        Token::Group {
            delimiter: Delimiter::Bracket,
            inner: path + seq![
                Token::Group { delimiter: Delimiter::Parenthesis, inner: arguments, span: site },
            ],
            span: site,
        },
    ]
}

/// What a directive emits where the defining library was not found: the fixed
/// diagnostic alone. No attribute is built on a guessed path, and nothing of
/// the item is emitted.
pub open spec fn missing_library_tokens(site: Span) -> Seq<Token> {
    diagnostic_tokens(CRATE_NOT_FOUND@, site)
}

/// What the interface directive emits for `item`: the registering attribute,
/// then the item; or the fixed diagnostic alone, where the defining library was
/// not found.
pub open spec fn def_expansion_tokens(found: CrateLookup, site: Span, item: Seq<Token>) -> Seq<
    Token,
> {
    if found is NotFound {
        missing_library_tokens(site)
    } else {
        attribute_tokens(
            attribute_path_tokens(found, DEF_INTERFACE@, site),
            def_argument_tokens(site),
            site,
        ) + item
    }
}

/// What the implementation directive emits for `item`: the registering
/// attribute, then the item; or the fixed diagnostic alone, where the defining
/// library was not found.
pub open spec fn impl_expansion_tokens(found: CrateLookup, site: Span, item: Seq<Token>) -> Seq<
    Token,
> {
    if found is NotFound {
        missing_library_tokens(site)
    } else {
        attribute_tokens(
            attribute_path_tokens(found, IMPL_INTERFACE@, site),
            impl_argument_tokens(site),
            site,
        ) + item
    }
}

/// What either directive emits when it was given an argument: the diagnostic at
/// the argument's span.
pub open spec fn usage_error_tokens(at: Span) -> Seq<Token> {
    diagnostic_tokens(NO_ARGUMENTS@, at)
}

/// The diagnostic for a directive that was given an argument, anchored at `at`.
pub fn usage_error(at: Span) -> (stream: TokenStream)
    ensures
        stream_tokens(stream) == usage_error_tokens(at),
{
    diagnostic(NO_ARGUMENTS, at)
}

/// Appends `::` to `stream`.
fn push_path_separator(stream: &mut TokenStream, site: Span)
    ensures
        stream_tokens(*final(stream)) == stream_tokens(*old(stream)) + path_separator_tokens(site),
{
    push_punct(stream, ':', Spacing::Joint, site);
    push_punct(stream, ':', Spacing::Alone, site);
    assert(stream_tokens(*stream) =~= stream_tokens(*old(stream)) + path_separator_tokens(site));
}

/// Builds `<library>::__priv::crate_interface::<attribute>`.
fn attribute_path(found: &CrateLookup, attribute: &str, site: Span) -> (path: TokenStream)
    requires
        !(*found is NotFound),
        attribute@ == DEF_INTERFACE@ || attribute@ == IMPL_INTERFACE@,
    ensures
        stream_tokens(path) == attribute_path_tokens(*found, attribute@, site),
{
    let mut path = axvisor_api_crate(found, site);
    proof {
        reveal_strlit("__priv");
        reveal_strlit("crate_interface");
        reveal_strlit("def_interface");
        reveal_strlit("impl_interface");
    }
    push_path_separator(&mut path, site);
    push_ident(&mut path, "__priv", site);
    push_path_separator(&mut path, site);
    push_ident(&mut path, "crate_interface", site);
    push_path_separator(&mut path, site);
    push_ident(&mut path, attribute, site);
    assert(stream_tokens(path) =~= attribute_path_tokens(*found, attribute@, site));
    path
}

/// Builds `namespace = AxVisorApi` at the end of `arguments`.
fn push_namespace_argument(arguments: &mut TokenStream, site: Span)
    ensures
        stream_tokens(*final(arguments)) == stream_tokens(*old(arguments)) + impl_argument_tokens(
            site,
        ),
{
    proof {
        reveal_strlit("namespace");
    }
    push_ident(arguments, "namespace", site);
    push_punct(arguments, '=', Spacing::Alone, site);
    append_stream(arguments, axvisor_api_namespace(site));
    assert(stream_tokens(*arguments) =~= stream_tokens(*old(arguments)) + impl_argument_tokens(
        site,
    ));
}

/// Puts `#[path(arguments)]` in front of `item`.
fn annotate(path: TokenStream, arguments: TokenStream, item: TokenStream, site: Span) -> (out:
    TokenStream)
    ensures
        stream_tokens(out) == attribute_tokens(
            stream_tokens(path),
            stream_tokens(arguments),
            site,
        ) + stream_tokens(item),
{
    let ghost path_tokens = stream_tokens(path);
    let ghost call = Token::Group {
        delimiter: Delimiter::Parenthesis,
        inner: stream_tokens(arguments),
        span: site,
    };
    let mut inner = path;
    push_group(&mut inner, Delimiter::Parenthesis, arguments, site);
    assert(stream_tokens(inner) =~= path_tokens + seq![call]);
    let mut out = new_stream();
    push_punct(&mut out, '#', Spacing::Alone, site);
    push_group(&mut out, Delimiter::Bracket, inner, site);
    append_stream(&mut out, item);
    assert(stream_tokens(out) =~= attribute_tokens(path_tokens, stream_tokens(arguments), site)
        + stream_tokens(item));
    out
}

/// Registers the interface `item`: the attribute that asks `crate_interface` for
/// the interface's symbols and for a caller per operation stands in front of the
/// item, which is left as it was given. Where the defining library was not
/// found, the result is the fixed diagnostic and nothing else.
pub fn expand_def(found: &CrateLookup, site: Span, item: TokenStream) -> (out: TokenStream)
    ensures
        stream_tokens(out) == def_expansion_tokens(*found, site, stream_tokens(item)),
{
    if let CrateLookup::NotFound = found {
        return axvisor_api_crate(found, site);
    }
    let path = attribute_path(found, DEF_INTERFACE, site);
    let mut arguments = new_stream();
    proof {
        reveal_strlit("gen_caller");
    }
    push_ident(&mut arguments, "gen_caller", site);
    push_punct(&mut arguments, ',', Spacing::Alone, site);
    push_namespace_argument(&mut arguments, site);
    assert(stream_tokens(arguments) =~= def_argument_tokens(site));
    annotate(path, arguments, item, site)
}

/// Registers the implementation `item`: the attribute that makes
/// `crate_interface` export each operation's body stands in front of the item,
/// which is left as it was given. Where the defining library was not found, the
/// result is the fixed diagnostic and nothing else.
pub fn expand_impl(found: &CrateLookup, site: Span, item: TokenStream) -> (out: TokenStream)
    ensures
        stream_tokens(out) == impl_expansion_tokens(*found, site, stream_tokens(item)),
{
    if let CrateLookup::NotFound = found {
        return axvisor_api_crate(found, site);
    }
    let path = attribute_path(found, IMPL_INTERFACE, site);
    let mut arguments = new_stream();
    push_namespace_argument(&mut arguments, site);
    assert(stream_tokens(arguments) =~= impl_argument_tokens(site));
    annotate(path, arguments, item, site)
}

/// What a directive emits when `arguments` holds a token: the usage diagnostic,
/// at the span of the arguments as a whole.
pub open spec fn is_usage_error(out: Seq<Token>, arguments: Seq<Token>) -> bool {
    exists|at: Span| spans_all(at, arguments) && out == #[trigger] usage_error_tokens(at)
}

/// The text of the diagnostic for an item that is not what the directive is for.
pub open spec fn misuse_message(target: Target) -> Seq<char> {
    match target {
        Target::Interface => NOT_A_TRAIT@,
        Target::Binding => NOT_A_TRAIT_IMPL@,
    }
}

/// What a directive emits for an item of the wrong shape: the diagnostic at the
/// span of the token that does not fit.
pub open spec fn misuse_tokens(target: Target, at: Span) -> Seq<Token> {
    diagnostic_tokens(misuse_message(target), at)
}

/// What a directive emits once the arguments and the item have passed.
pub open spec fn expansion_tokens(
    target: Target,
    found: CrateLookup,
    site: Span,
    item: Seq<Token>,
) -> Seq<Token> {
    match target {
        Target::Interface => def_expansion_tokens(found, site, item),
        Target::Binding => impl_expansion_tokens(found, site, item),
    }
}

/// What a directive emits, case by case. With an argument: the usage
/// diagnostic. Without the defining library: the fixed diagnostic, at the span
/// of the directive's use. For an item of the target's shape: the expansion, at
/// the span of the directive's use. For an item with a token that does not fit:
/// the diagnostic at that token. For an item that ends too early: the
/// diagnostic at the span of the directive's use.
pub open spec fn is_directive_output(
    out: Seq<Token>,
    target: Target,
    arguments: Seq<Token>,
    found: CrateLookup,
    item: Seq<Token>,
) -> bool {
    if arguments.len() > 0 {
        is_usage_error(out, arguments)
    } else if found is NotFound {
        exists|site: Span| out == #[trigger] missing_library_tokens(site)
    } else {
        match item_shape(item, target) {
            Shape::Fits => exists|site: Span|
                out == #[trigger] expansion_tokens(target, found, site, item),
            Shape::Misfit(at) => out == misuse_tokens(
                target,
                token_span(judged(item)[at as int]),
            ),
            Shape::Cut => exists|site: Span| out == #[trigger] misuse_tokens(target, site),
        }
    }
}

/// Checks that a directive was given no argument. For an `attr` that holds a
/// token the result is the usage diagnostic, at the span of `attr` as a whole;
/// for an empty one it is `None`.
pub fn assert_empty_attr(attr: &TokenStream) -> (error: Option<TokenStream>)
    ensures
        error is Some <==> stream_tokens(*attr).len() > 0,
        error is Some ==> is_usage_error(stream_tokens(error->0), stream_tokens(*attr)),
{
    if stream_is_empty(attr) {
        None
    } else {
        let at = stream_span(attr);
        let error = usage_error(at);
        assert(spans_all(at, stream_tokens(*attr)) && stream_tokens(error) == usage_error_tokens(
            at,
        ));
        Some(error)
    }
}

/// The diagnostic for an item that is not what the directive is for, anchored
/// at `at`.
pub fn misuse(target: Target, at: Span) -> (stream: TokenStream)
    ensures
        stream_tokens(stream) == misuse_tokens(target, at),
{
    match target {
        Target::Interface => diagnostic(NOT_A_TRAIT, at),
        Target::Binding => diagnostic(NOT_A_TRAIT_IMPL, at),
    }
}

/// Puts the attribute of the target's directive in front of `item`.
pub fn expand(target: Target, found: &CrateLookup, site: Span, item: TokenStream) -> (out:
    TokenStream)
    ensures
        stream_tokens(out) == expansion_tokens(target, *found, site, stream_tokens(item)),
{
    match target {
        Target::Interface => expand_def(found, site, item),
        Target::Binding => expand_impl(found, site, item),
    }
}

/// A directive as a whole: first the arguments are checked, then the lookup's
/// result, then the item's shape, and only then is the attribute put in front
/// of the item.
pub fn directive(target: Target, attr: TokenStream, found: &CrateLookup, input: TokenStream) -> (out:
    TokenStream)
    ensures
        is_directive_output(
            stream_tokens(out),
            target,
            stream_tokens(attr),
            *found,
            stream_tokens(input),
        ),
{
    match assert_empty_attr(&attr) {
        Some(error) => error,
        None => {
            if let CrateLookup::NotFound = found {
                let site = call_site();
                let out = expand(target, found, site, input);
                assert(stream_tokens(out) == missing_library_tokens(site));
                return out;
            }
            let all = stream_trees(&input);
            assert(tree_tokens(all@) =~= stream_tokens(input));
            let trees = judged_trees(all);
            match shape_of_trees(&trees, target) {
                Shape::Fits => {
                    let site = call_site();
                    let out = expand(target, found, site, input);
                    assert(stream_tokens(out) == expansion_tokens(
                        target,
                        *found,
                        site,
                        stream_tokens(input),
                    ));
                    out
                },
                Shape::Misfit(at) => misuse(target, tree_span(&trees[at])),
                Shape::Cut => {
                    let site = call_site();
                    let out = misuse(target, site);
                    assert(stream_tokens(out) == misuse_tokens(target, site));
                    out
                },
            }
        },
    }
}

/// The interface directive. `attr` holds the directive's arguments, `found` what
/// the build says of the defining library, and `input` the item that the
/// directive stands on.
///
/// With an argument the result is the usage diagnostic alone; without the
/// defining library, the fixed diagnostic alone. For a trait declaration it is
/// [`expand_def`] of `input`. For any other item it is the diagnostic at the
/// token that shows it to be none.
pub fn api_def(attr: TokenStream, found: &CrateLookup, input: TokenStream) -> (out: TokenStream)
    ensures
        is_directive_output(
            stream_tokens(out),
            Target::Interface,
            stream_tokens(attr),
            *found,
            stream_tokens(input),
        ),
{
    directive(Target::Interface, attr, found, input)
}

/// The implementation directive. `attr` holds the directive's arguments, `found`
/// what the build says of the defining library, and `input` the item that the
/// directive stands on.
///
/// With an argument the result is the usage diagnostic alone; without the
/// defining library, the fixed diagnostic alone. For an `impl` of a trait for a
/// type it is [`expand_impl`] of `input`. For any other item it is the
/// diagnostic at the token that shows it to be none.
pub fn api_impl(attr: TokenStream, found: &CrateLookup, input: TokenStream) -> (out: TokenStream)
    ensures
        is_directive_output(
            stream_tokens(out),
            Target::Binding,
            stream_tokens(attr),
            *found,
            stream_tokens(input),
        ),
{
    directive(Target::Binding, attr, found, input)
}

} // verus!
