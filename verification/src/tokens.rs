//! Token streams of `proc_macro2`, as the directives read and build them.
//!
//! A stream is kept as the outside type, so that what passes through a directive
//! keeps its spans and hygiene. Contracts speak of a stream through
//! [`stream_tokens`], the sequence of token trees that it holds.
//!
//! `proc_macro2` has two implementations of its types, the compiler's during an
//! expansion and its own elsewhere, and panics where values of the two meet. A
//! process holds values of one kind only, unless it switches with
//! `proc_macro2::fallback::force`, which nothing here does. The contracts below
//! are stated for such a process.

use proc_macro2::Span;
use proc_macro2::TokenStream;
use proc_macro2::TokenTree;
use vstd::prelude::*;

verus! {

/// `proc_macro2::TokenStream`: an ordered sequence of token trees.
#[verifier::external_type_specification]
#[verifier::external_body]
pub struct ExTokenStream(proc_macro2::TokenStream);

/// `proc_macro2::Span`: where a token stands in the source, and how names in it
/// resolve.
#[verifier::external_type_specification]
#[verifier::external_body]
pub struct ExSpan(proc_macro2::Span);

/// `proc_macro2::TokenTree`: one token, or a delimited group of them.
#[verifier::external_type_specification]
#[verifier::external_body]
pub struct ExTokenTree(proc_macro2::TokenTree);

/// How a group of tokens is enclosed.
#[derive(Clone, Copy, Debug, PartialEq, Eq)]
pub enum Delimiter {
    /// `( ... )`
    Parenthesis,
    /// `{ ... }`
    Brace,
    /// `[ ... ]`
    Bracket,
    /// No visible delimiter.
    Invisible,
}

/// Whether a punctuation character is followed immediately by another.
#[derive(Clone, Copy, Debug, PartialEq, Eq)]
pub enum Spacing {
    /// Another token or white space follows.
    Alone,
    /// A punctuation character follows immediately, as after the first `:` of
    /// `::`.
    Joint,
}

/// One token tree, as contracts see it.
pub ghost enum Token {
    /// An identifier or keyword, by its text; a raw identifier with its `r#`.
    Ident { name: Seq<char>, span: Span },
    /// One punctuation character.
    Punct { ch: char, spacing: Spacing, span: Span },
    /// A string literal, by the string that it denotes.
    Str { value: Seq<char>, span: Span },
    /// Any other literal, by its text.
    Literal { text: Seq<char>, span: Span },
    /// A delimited group and the token trees inside it.
    Group { delimiter: Delimiter, inner: Seq<Token>, span: Span },
}

/// What a token tree is, without what a group encloses and without its span.
#[derive(Debug, PartialEq, Eq)]
pub enum Head {
    /// An identifier or keyword, by its text.
    Ident(String),
    /// A punctuation character.
    Punct(char),
    /// A literal of any kind.
    Literal,
    /// A group, by its delimiter.
    Group(Delimiter),
}

/// Whether `head` is what `token` is.
pub open spec fn is_head_of(head: Head, token: Token) -> bool {
    match head {
        Head::Ident(text) => token matches Token::Ident { name, .. } && name == text@,
        Head::Punct(c) => token matches Token::Punct { ch, .. } && ch == c,
        Head::Literal => token is Str || token is Literal,
        Head::Group(d) => token matches Token::Group { delimiter, .. } && delimiter == d,
    }
}

/// The token trees that a stream holds, in order.
pub uninterp spec fn stream_tokens(stream: TokenStream) -> Seq<Token>;

/// What a token tree holds.
pub uninterp spec fn tree_token(tree: TokenTree) -> Token;

/// What `Span::join` makes of two spans where it can join them: the span from
/// the start of `first` to the end of `last`.
pub uninterp spec fn joined_span(first: Span, last: Span) -> Span;

/// The span that a token tree carries.
pub open spec fn token_span(token: Token) -> Span {
    match token {
        Token::Ident { span, .. } => span,
        Token::Punct { span, .. } => span,
        Token::Str { span, .. } => span,
        Token::Literal { span, .. } => span,
        Token::Group { span, .. } => span,
    }
}

/// Whether `span` is the span of a sequence of tokens as a whole: the join of
/// its first and last token's spans, or the first token's span where the
/// compiler joins none.
pub open spec fn spans_all(span: Span, tokens: Seq<Token>) -> bool {
    &&& tokens.len() > 0
    &&& span == token_span(tokens.first()) || span == joined_span(
        token_span(tokens.first()),
        token_span(tokens.last()),
    )
}

/// A character that may begin a plain identifier.
pub open spec fn is_ident_start(c: char) -> bool {
    ('a' <= c && c <= 'z') || ('A' <= c && c <= 'Z') || c == '_'
}

/// A character that may stand inside a plain identifier.
pub open spec fn is_ident_continue(c: char) -> bool {
    is_ident_start(c) || ('0' <= c && c <= '9')
}

/// A plain identifier: ASCII letters, digits and `_`, not beginning with a
/// digit, and more than a lone `_`.
pub open spec fn is_plain_ident(name: Seq<char>) -> bool {
    &&& name.len() > 0
    &&& is_ident_start(name[0])
    &&& forall|i: int| 0 <= i < name.len() ==> is_ident_continue(#[trigger] name[i])
    &&& !(name.len() == 1 && name[0] == '_')
}

/// The punctuation characters of the language.
pub open spec fn is_punct_char(c: char) -> bool {
    c == '!' || c == '#' || c == '$' || c == '%' || c == '&' || c == '\'' || c == '*' || c == '+'
        || c == ',' || c == '-' || c == '.' || c == '/' || c == ':' || c == ';' || c == '<'
        || c == '=' || c == '>' || c == '?' || c == '@' || c == '^' || c == '|' || c == '~'
}

/// Whether `c` may begin a plain identifier.
fn ident_start(c: char) -> (yes: bool)
    ensures
        yes == is_ident_start(c),
{
    ('a' <= c && c <= 'z') || ('A' <= c && c <= 'Z') || c == '_'
}

/// Whether `c` may stand inside a plain identifier.
fn ident_continue(c: char) -> (yes: bool)
    ensures
        yes == is_ident_continue(c),
{
    ident_start(c) || ('0' <= c && c <= '9')
}

/// Whether `name` is a plain identifier.
pub fn plain_ident(name: &str) -> (yes: bool)
    ensures
        yes == is_plain_ident(name@),
{
    let len: usize = name.unicode_len();
    if len == 0 {
        return false;
    }
    let first: char = name.get_char(0);
    if !ident_start(first) {
        return false;
    }
    if len == 1 && first == '_' {
        return false;
    }
    let mut i: usize = 1;
    while i < len
        invariant
            1 <= i <= len,
            len == name@.len(),
            is_ident_start(name@[0]),
            forall|k: int| 0 <= k < i ==> is_ident_continue(#[trigger] name@[k]),
        decreases len - i,
    {
        if !ident_continue(name.get_char(i)) {
            return false;
        }
        i += 1;
    }
    true
}

/// `TokenStream::new`: a stream that holds no token tree.
#[verifier::external_body]
pub(crate) fn new_stream() -> (stream: TokenStream)
    ensures
        stream_tokens(stream) == Seq::<Token>::empty(),
{
    TokenStream::new()
}

/// `TokenStream::is_empty`: whether the stream holds no token tree.
#[verifier::external_body]
pub(crate) fn stream_is_empty(stream: &TokenStream) -> (empty: bool)
    ensures
        empty == (stream_tokens(*stream).len() == 0),
{
    stream.is_empty()
}

/// `Ident::new`: an identifier with the given name and span. It panics on a
/// string that is no identifier of the language; a plain identifier always is
/// one.
#[verifier::external_body]
pub(crate) fn new_ident(name: &str, span: Span) -> (tree: TokenTree)
    requires
        is_plain_ident(name@),
    ensures
        tree_token(tree) == (Token::Ident { name: name@, span }),
{
    TokenTree::Ident(proc_macro2::Ident::new(name, span))
}

/// `Punct::new`, then `Punct::set_span`: a punctuation character with the given
/// spacing and span. `Punct::new` panics on a character that is no punctuation
/// of the language.
#[verifier::external_body]
pub(crate) fn new_punct(ch: char, spacing: Spacing, span: Span) -> (tree: TokenTree)
    requires
        is_punct_char(ch),
    ensures
        tree_token(tree) == (Token::Punct { ch, spacing, span }),
{
    let outside = match spacing {
        Spacing::Alone => proc_macro2::Spacing::Alone,
        Spacing::Joint => proc_macro2::Spacing::Joint,
    };
    let mut punct = proc_macro2::Punct::new(ch, outside);
    punct.set_span(span);
    TokenTree::Punct(punct)
}

/// `Literal::string`, then `Literal::set_span`: a string literal that denotes
/// `value`, with the given span.
#[verifier::external_body]
pub(crate) fn new_str_literal(value: &str, span: Span) -> (tree: TokenTree)
    ensures
        tree_token(tree) == (Token::Str { value: value@, span }),
{
    let mut literal = proc_macro2::Literal::string(value);
    literal.set_span(span);
    TokenTree::Literal(literal)
}

/// `Group::new`, then `Group::set_span`: a group that encloses the token trees
/// of `inner`, with the given delimiter and span.
#[verifier::external_body]
pub(crate) fn new_group(delimiter: Delimiter, inner: TokenStream, span: Span) -> (tree: TokenTree)
    ensures
        tree_token(tree) == (Token::Group { delimiter, inner: stream_tokens(inner), span }),
{
    let outside = match delimiter {
        Delimiter::Parenthesis => proc_macro2::Delimiter::Parenthesis,
        Delimiter::Brace => proc_macro2::Delimiter::Brace,
        Delimiter::Bracket => proc_macro2::Delimiter::Bracket,
        Delimiter::Invisible => proc_macro2::Delimiter::None,
    };
    let mut group = proc_macro2::Group::new(outside, inner);
    group.set_span(span);
    TokenTree::Group(group)
}

/// `Extend<TokenTree>` for `TokenStream`, with one tree: the tree follows those
/// that the stream held. A literal that is no string is left out: `proc_macro2`
/// splits one that begins with a minus sign in two.
#[verifier::external_body]
pub(crate) fn push_token(stream: &mut TokenStream, tree: TokenTree)
    requires
        !(tree_token(tree) is Literal),
    ensures
        stream_tokens(*final(stream)) == stream_tokens(*old(stream)).push(tree_token(tree)),
{
    stream.extend(core::iter::once(tree));
}

/// `Extend<TokenStream>` for `TokenStream`, with one stream: the token trees of
/// `tail` follow those that the stream held.
#[verifier::external_body]
pub(crate) fn append_stream(stream: &mut TokenStream, tail: TokenStream)
    ensures
        stream_tokens(*final(stream)) == stream_tokens(*old(stream)) + stream_tokens(tail),
{
    stream.extend(core::iter::once(tail));
}

/// `Span::call_site`: the span of the directive that is being expanded. It
/// depends on where the expansion runs, so nothing is stated of it.
#[verifier::external_body]
pub(crate) fn call_site() -> (span: Span) {
    Span::call_site()
}

/// `syn::spanned::Spanned::span` of a stream: the span of its tokens as a
/// whole. It joins the first token's span with the last one's where the
/// compiler can do so, and is the first token's span where it cannot. Of an
/// empty stream nothing is stated.
#[verifier::external_body]
pub(crate) fn stream_span(stream: &TokenStream) -> (span: Span)
    ensures
        stream_tokens(*stream).len() > 0 ==> span == token_span(stream_tokens(*stream).first())
            || span == joined_span(
            token_span(stream_tokens(*stream).first()),
            token_span(stream_tokens(*stream).last()),
        ),
{
    syn::spanned::Spanned::span(stream)
}

/// `TokenStream::into_iter` on a clone of the stream, collected: the token trees
/// that the stream holds, in order.
#[verifier::external_body]
pub(crate) fn stream_trees(stream: &TokenStream) -> (trees: Vec<TokenTree>)
    ensures
        trees@.len() == stream_tokens(*stream).len(),
        forall|i: int|
            0 <= i < trees@.len() ==> tree_token(#[trigger] trees@[i]) == stream_tokens(
                *stream,
            )[i],
{
    stream.clone().into_iter().collect()
}

/// The variants of `TokenTree` told apart, with `Ident::to_string`,
/// `Punct::as_char` and `Group::delimiter`: what the tree is.
#[verifier::external_body]
pub(crate) fn tree_head(tree: &TokenTree) -> (head: Head)
    ensures
        is_head_of(head, tree_token(*tree)),
{
    match tree {
        TokenTree::Ident(ident) => Head::Ident(ident.to_string()),
        TokenTree::Punct(punct) => Head::Punct(punct.as_char()),
        TokenTree::Literal(_) => Head::Literal,
        TokenTree::Group(group) => Head::Group(
            match group.delimiter() {
                proc_macro2::Delimiter::Parenthesis => Delimiter::Parenthesis,
                proc_macro2::Delimiter::Brace => Delimiter::Brace,
                proc_macro2::Delimiter::Bracket => Delimiter::Bracket,
                proc_macro2::Delimiter::None => Delimiter::Invisible,
            },
        ),
    }
}

/// `Group::stream`: the token trees that a group encloses, and `None` for a
/// tree that is no group.
#[verifier::external_body]
pub(crate) fn group_stream(tree: &TokenTree) -> (enclosed: Option<TokenStream>)
    ensures
        enclosed is Some <==> tree_token(*tree) is Group,
        enclosed is Some ==> stream_tokens(enclosed->0) == tree_token(*tree)->inner,
{
    match tree {
        TokenTree::Group(group) => Some(group.stream()),
        _ => None,
    }
}

/// `TokenTree::span`: the span that the tree carries.
#[verifier::external_body]
pub(crate) fn tree_span(tree: &TokenTree) -> (span: Span)
    ensures
        span == token_span(tree_token(*tree)),
{
    tree.span()
}

/// Appends an identifier to `stream`.
pub(crate) fn push_ident(stream: &mut TokenStream, name: &str, span: Span)
    requires
        is_plain_ident(name@),
    ensures
        stream_tokens(*final(stream)) == stream_tokens(*old(stream)).push(
            Token::Ident { name: name@, span },
        ),
{
    let tree = new_ident(name, span);
    push_token(stream, tree);
}

/// Appends a punctuation character to `stream`.
pub(crate) fn push_punct(stream: &mut TokenStream, ch: char, spacing: Spacing, span: Span)
    requires
        is_punct_char(ch),
    ensures
        stream_tokens(*final(stream)) == stream_tokens(*old(stream)).push(
            Token::Punct { ch, spacing, span },
        ),
{
    let tree = new_punct(ch, spacing, span);
    push_token(stream, tree);
}

/// Appends a string literal that denotes `value` to `stream`.
pub(crate) fn push_str_literal(stream: &mut TokenStream, value: &str, span: Span)
    ensures
        stream_tokens(*final(stream)) == stream_tokens(*old(stream)).push(
            Token::Str { value: value@, span },
        ),
{
    let tree = new_str_literal(value, span);
    push_token(stream, tree);
}

/// Appends a group that encloses the token trees of `inner` to `stream`.
pub(crate) fn push_group(
    stream: &mut TokenStream,
    delimiter: Delimiter,
    inner: TokenStream,
    span: Span,
)
    ensures
        stream_tokens(*final(stream)) == stream_tokens(*old(stream)).push(
            Token::Group { delimiter, inner: stream_tokens(inner), span },
        ),
{
    let tree = new_group(delimiter, inner, span);
    push_token(stream, tree);
}

} // verus!
