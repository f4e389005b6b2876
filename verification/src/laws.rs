//! What holds of every expansion.

use crate::expand::def_argument_tokens;
use crate::expand::def_expansion_tokens;
use crate::expand::expansion_tokens;
use crate::expand::impl_argument_tokens;
use crate::expand::impl_expansion_tokens;
use crate::expand::is_directive_output;
use crate::expand::is_usage_error;
use crate::expand::missing_library_tokens;
use crate::expand::misuse_message;
use crate::expand::misuse_tokens;
use crate::expand::usage_error_tokens;
use crate::expand::NO_ARGUMENTS;
use crate::namespace::AXVISOR_API_NS;
use crate::resolver::diagnostic_tokens;
use crate::resolver::CrateLookup;
use crate::resolver::CRATE_NOT_FOUND;
use crate::shape::item_shape;
use crate::shape::judged;
use crate::shape::Shape;
use crate::shape::Target;
use crate::tokens::spans_all;
use crate::tokens::token_span;
use crate::tokens::Delimiter;
use crate::tokens::Spacing;
use crate::tokens::Token;
use proc_macro2::Span;
use vstd::prelude::*;

verus! {

/// An interface passes through its directive unchanged. The expansion is one
/// attribute, which takes two token trees, and then the declaration, token for
/// token: every operation keeps its name, its parameters in their order, its
/// return type and its availability predicate. The callers are generated from
/// this declaration, so each has the signature that was declared.
pub proof fn lemma_def_keeps_declaration(found: CrateLookup, site: Span, item: Seq<Token>)
    requires
        !(found is NotFound),
    ensures
        def_expansion_tokens(found, site, item).len() == 2 + item.len(),
        def_expansion_tokens(found, site, item).take(2) == def_expansion_tokens(
            found,
            site,
            Seq::empty(),
        ),
        def_expansion_tokens(found, site, item).skip(2) == item,
{
    let head = def_expansion_tokens(found, site, Seq::empty());
    let all = def_expansion_tokens(found, site, item);
    assert(all.take(2) =~= head);
    assert(all.skip(2) =~= item);
}

/// An implementation passes through its directive unchanged: the expansion is
/// one attribute, which takes two token trees, and then the `impl` block, token
/// for token.
pub proof fn lemma_impl_keeps_binding(found: CrateLookup, site: Span, item: Seq<Token>)
    requires
        !(found is NotFound),
    ensures
        impl_expansion_tokens(found, site, item).len() == 2 + item.len(),
        impl_expansion_tokens(found, site, item).take(2) == impl_expansion_tokens(
            found,
            site,
            Seq::empty(),
        ),
        impl_expansion_tokens(found, site, item).skip(2) == item,
{
    let head = impl_expansion_tokens(found, site, Seq::empty());
    let all = impl_expansion_tokens(found, site, item);
    assert(all.take(2) =~= head);
    assert(all.skip(2) =~= item);
}

/// The interface directive asks for a caller per operation, and both directives
/// name the one shared namespace: the arguments of the first begin with
/// `gen_caller`, and the arguments of both end with `namespace = AxVisorApi`.
pub proof fn lemma_one_namespace(site: Span)
    ensures
        def_argument_tokens(site).len() == 5,
        impl_argument_tokens(site).len() == 3,
        def_argument_tokens(site)[0] == (Token::Ident { name: "gen_caller"@, span: site }),
        def_argument_tokens(site).subrange(2, 5) == impl_argument_tokens(site),
        impl_argument_tokens(site)[0] == (Token::Ident { name: "namespace"@, span: site }),
        impl_argument_tokens(site)[1] == (Token::Punct { ch: '=', spacing: Spacing::Alone, span: site }),
        impl_argument_tokens(site)[2] == (Token::Ident { name: AXVISOR_API_NS@, span: site }),
{
    assert(def_argument_tokens(site).subrange(2, 5) =~= impl_argument_tokens(site));
}

/// A directive that was given an argument emits the diagnostic and nothing
/// else: `compile_error!("...")`, three token trees, each of them and the
/// message inside at the span of the argument.
pub proof fn lemma_usage_error_is_anchored(at: Span)
    ensures
        usage_error_tokens(at).len() == 3,
        usage_error_tokens(at)[0] == (Token::Ident { name: "compile_error"@, span: at }),
        usage_error_tokens(at)[1] == (Token::Punct { ch: '!', spacing: Spacing::Alone, span: at }),
        usage_error_tokens(at)[2] == (Token::Group {
            delimiter: Delimiter::Parenthesis,
            inner: seq![Token::Str { value: NO_ARGUMENTS@, span: at }],
            span: at,
        }),
        forall|i: int|
            0 <= i < 3 ==> token_span(#[trigger] usage_error_tokens(at)[i]) == at,
{
}

/// Whatever argument a directive is given, every token of what it emits refers
/// to the argument: its span is the span of the argument's tokens as a whole.
/// So the compiler reports the misuse where the argument stands.
pub proof fn lemma_usage_error_refers_to_the_argument(out: Seq<Token>, arguments: Seq<Token>)
    requires
        is_usage_error(out, arguments),
    ensures
        arguments.len() > 0,
        out.len() == 3,
        forall|i: int| 0 <= i < 3 ==> spans_all(token_span(#[trigger] out[i]), arguments),
{
    let at = choose|at: Span|
        spans_all(at, arguments) && out == #[trigger] usage_error_tokens(at);
    lemma_usage_error_is_anchored(at);
}

/// A directive on the wrong item emits the diagnostic and nothing else:
/// `compile_error!("...")`, three token trees, each of them and the message
/// inside at the span of the token that does not fit.
pub proof fn lemma_misuse_is_anchored(target: Target, at: Span)
    ensures
        misuse_tokens(target, at).len() == 3,
        misuse_tokens(target, at)[0] == (Token::Ident { name: "compile_error"@, span: at }),
        misuse_tokens(target, at)[1] == (Token::Punct {
            ch: '!',
            spacing: Spacing::Alone,
            span: at,
        }),
        misuse_tokens(target, at)[2] == (Token::Group {
            delimiter: Delimiter::Parenthesis,
            inner: seq![Token::Str { value: misuse_message(target), span: at }],
            span: at,
        }),
        forall|i: int|
            0 <= i < 3 ==> token_span(#[trigger] misuse_tokens(target, at)[i]) == at,
{
}

/// The diagnostic for an argument is no expansion of any item with a library
/// that was found: it holds none of the item's tokens and begins with no
/// attribute.
pub proof fn lemma_usage_error_generates_no_code(
    at: Span,
    found: CrateLookup,
    site: Span,
    item: Seq<Token>,
)
    requires
        !(found is NotFound),
    ensures
        usage_error_tokens(at) != def_expansion_tokens(found, site, item),
        usage_error_tokens(at) != impl_expansion_tokens(found, site, item),
{
    assert(usage_error_tokens(at)[0] is Ident);
    assert(def_expansion_tokens(found, site, item)[0] is Punct);
    assert(impl_expansion_tokens(found, site, item)[0] is Punct);
}

/// The diagnostic for the wrong item is no expansion of any item either.
pub proof fn lemma_misuse_generates_no_code(
    target: Target,
    at: Span,
    found: CrateLookup,
    site: Span,
    item: Seq<Token>,
)
    requires
        !(found is NotFound),
    ensures
        misuse_tokens(target, at) != def_expansion_tokens(found, site, item),
        misuse_tokens(target, at) != impl_expansion_tokens(found, site, item),
{
    assert(misuse_tokens(target, at)[0] is Ident);
    assert(def_expansion_tokens(found, site, item)[0] is Punct);
    assert(impl_expansion_tokens(found, site, item)[0] is Punct);
}

/// Without the defining library a directive emits the fixed diagnostic and
/// nothing else, whatever the item: `compile_error!("...")`, three token trees
/// at the span of the directive's use. No attribute stands in it, so no
/// reference to a guessed library is generated, and no token of the item.
pub proof fn lemma_missing_library_generates_no_reference(
    target: Target,
    site: Span,
    item: Seq<Token>,
)
    ensures
        expansion_tokens(target, CrateLookup::NotFound, site, item) == missing_library_tokens(site),
        missing_library_tokens(site).len() == 3,
        missing_library_tokens(site)[0] == (Token::Ident { name: "compile_error"@, span: site }),
        missing_library_tokens(site)[1] == (Token::Punct {
            ch: '!',
            spacing: Spacing::Alone,
            span: site,
        }),
        missing_library_tokens(site)[2] == (Token::Group {
            delimiter: Delimiter::Parenthesis,
            inner: seq![Token::Str { value: CRATE_NOT_FOUND@, span: site }],
            span: site,
        }),
{
}

/// Whether two token trees read the same: the same kind, the same text and the
/// same grouping, whatever their spans.
pub open spec fn same_text(a: Token, b: Token) -> bool
    decreases a,
{
    match a {
        Token::Ident { name, .. } => b matches Token::Ident { name: other, .. } && name == other,
        Token::Punct { ch, spacing, .. } => b matches Token::Punct { ch: c, spacing: s, .. } && ch
            == c && spacing == s,
        Token::Str { value, .. } => b matches Token::Str { value: other, .. } && value == other,
        Token::Literal { text, .. } => b matches Token::Literal { text: other, .. } && text
            == other,
        Token::Group { delimiter, inner, .. } => b matches Token::Group {
            delimiter: d,
            inner: other,
            ..
        } && delimiter == d && inner.len() == other.len() && forall|i: int|
            0 <= i < inner.len() ==> same_text(#[trigger] inner[i], other[i]),
    }
}

/// Whether two sequences of token trees read the same, tree by tree.
pub open spec fn same_texts(a: Seq<Token>, b: Seq<Token>) -> bool {
    &&& a.len() == b.len()
    &&& forall|i: int| 0 <= i < a.len() ==> #[trigger] same_text(a[i], b[i])
}

/// A token tree reads the same as itself.
pub proof fn lemma_same_text_reflexive(token: Token)
    ensures
        same_text(token, token),
    decreases token,
{
    if token is Group {
        let inner = token->inner;
        assert forall|i: int| 0 <= i < inner.len() implies same_text(
            #[trigger] inner[i],
            inner[i],
        ) by {
            lemma_same_text_reflexive(inner[i]);
        }
    }
}

/// A diagnostic reads the same at whatever span it is anchored.
pub proof fn lemma_diagnostic_reads_the_same(message: Seq<char>, a: Span, b: Span)
    ensures
        same_texts(diagnostic_tokens(message, a), diagnostic_tokens(message, b)),
{
    reveal_with_fuel(same_text, 3);
    let x = diagnostic_tokens(message, a);
    let y = diagnostic_tokens(message, b);
    assert(same_text(x[0], y[0]));
    assert(same_text(x[1], y[1]));
    assert(same_text(x[2]->inner[0], y[2]->inner[0]));
    assert(same_text(x[2], y[2]));
}

/// An expansion reads the same at whatever span its attribute is generated, and
/// it holds the same item, spans and all.
pub proof fn lemma_expansion_reads_the_same(
    target: Target,
    found: CrateLookup,
    item: Seq<Token>,
    a: Span,
    b: Span,
)
    ensures
        same_texts(expansion_tokens(target, found, a, item), expansion_tokens(target, found, b, item)),
        !(found is NotFound) ==> expansion_tokens(target, found, a, item).skip(2)
            == expansion_tokens(target, found, b, item).skip(2),
{
    let x = expansion_tokens(target, found, a, item);
    let y = expansion_tokens(target, found, b, item);
    if found is NotFound {
        lemma_diagnostic_reads_the_same(CRATE_NOT_FOUND@, a, b);
    } else {
        reveal_with_fuel(same_text, 4);
        assert(x.skip(2) =~= item);
        assert(y.skip(2) =~= item);
        let p = x[1]->inner;
        let q = y[1]->inner;
        assert(p.len() == q.len());
        let n = p.len() - 1;
        assert forall|i: int| 0 <= i < p.len() implies #[trigger] same_text(p[i], q[i]) by {
            if i == n {
                let u = p[n]->inner;
                let v = q[n]->inner;
                assert(u.len() == v.len());
                assert forall|k: int| 0 <= k < u.len() implies #[trigger] same_text(u[k], v[k]) by {
                }
            } else if i == 0 {
            } else {
            }
        }
        assert(same_text(x[0], y[0]));
        assert(same_text(x[1], y[1]));
        assert forall|i: int| 0 <= i < x.len() implies #[trigger] same_text(x[i], y[i]) by {
            if i >= 2 {
                assert(x[i] == item[i - 2]);
                assert(y[i] == item[i - 2]);
                lemma_same_text_reflexive(x[i]);
            }
        }
    }
}

/// Running a directive again on the same arguments, lookup and item gives
/// output that reads the same, token for token. The two outputs can differ in
/// one thing only, the span that the compiler hands out for the generated
/// tokens.
pub proof fn lemma_directive_is_repeatable(
    first: Seq<Token>,
    second: Seq<Token>,
    target: Target,
    arguments: Seq<Token>,
    found: CrateLookup,
    item: Seq<Token>,
)
    requires
        is_directive_output(first, target, arguments, found, item),
        is_directive_output(second, target, arguments, found, item),
    ensures
        same_texts(first, second),
{
    if arguments.len() > 0 {
        let a = choose|at: Span|
            spans_all(at, arguments) && first == #[trigger] usage_error_tokens(at);
        let b = choose|at: Span|
            spans_all(at, arguments) && second == #[trigger] usage_error_tokens(at);
        lemma_diagnostic_reads_the_same(NO_ARGUMENTS@, a, b);
    } else if found is NotFound {
        let a = choose|site: Span| first == #[trigger] missing_library_tokens(site);
        let b = choose|site: Span| second == #[trigger] missing_library_tokens(site);
        lemma_diagnostic_reads_the_same(CRATE_NOT_FOUND@, a, b);
    } else {
        match item_shape(item, target) {
            Shape::Fits => {
                let a = choose|site: Span|
                    first == #[trigger] expansion_tokens(target, found, site, item);
                let b = choose|site: Span|
                    second == #[trigger] expansion_tokens(target, found, site, item);
                lemma_expansion_reads_the_same(target, found, item, a, b);
            },
            Shape::Misfit(at) => {
                let span = token_span(judged(item)[at as int]);
                lemma_diagnostic_reads_the_same(misuse_message(target), span, span);
            },
            Shape::Cut => {
                let a = choose|site: Span| first == #[trigger] misuse_tokens(target, site);
                let b = choose|site: Span| second == #[trigger] misuse_tokens(target, site);
                lemma_diagnostic_reads_the_same(misuse_message(target), a, b);
            },
        }
    }
}

/// Two items with the same expansion are the same item: nothing of a
/// declaration is lost in its expansion.
pub proof fn lemma_expansion_tells_items_apart(
    found: CrateLookup,
    site: Span,
    item_a: Seq<Token>,
    item_b: Seq<Token>,
)
    requires
        !(found is NotFound),
        def_expansion_tokens(found, site, item_a) == def_expansion_tokens(found, site, item_b)
            || impl_expansion_tokens(found, site, item_a) == impl_expansion_tokens(
            found,
            site,
            item_b,
        ),
    ensures
        item_a == item_b,
{
    lemma_def_keeps_declaration(found, site, item_a);
    lemma_def_keeps_declaration(found, site, item_b);
    lemma_impl_keeps_binding(found, site, item_a);
    lemma_impl_keeps_binding(found, site, item_b);
}

} // verus!
