//! Which items a directive can be applied to.
//!
//! The interface directive belongs on a trait declaration, the implementation
//! directive on an `impl` of a trait for a type. Only the item's outline is
//! looked at here: what stands inside the declaration is for `crate_interface`
//! to accept or refuse. An item that is one group without delimiters, as a
//! macro's fragment is, is judged by what the group encloses. Such a group
//! among the tokens that decide leaves the question open, and the item passes.

use crate::tokens::group_stream;
use crate::tokens::is_head_of;
use crate::tokens::stream_tokens;
use crate::tokens::stream_trees;
use crate::tokens::tree_head;
use crate::tokens::tree_token;
use crate::tokens::Delimiter;
use crate::tokens::Head;
use crate::tokens::Token;
use proc_macro2::TokenStream;
use proc_macro2::TokenTree;
use vstd::prelude::*;
use vstd::string::*;

verus! {

/// What a directive expects to be applied to.
#[derive(Clone, Copy, Debug, PartialEq, Eq)]
pub enum Target {
    /// A trait declaration.
    Interface,
    /// An `impl` of a trait for a type.
    Binding,
}

/// How an item stands to the target of its directive.
#[derive(Clone, Copy, Debug, PartialEq, Eq)]
pub enum Shape {
    /// The item has the outline of the target.
    Fits,
    /// The token at this place cannot stand there in the target.
    Misfit(usize),
    /// The item ends before the target's keyword.
    Cut,
}

/// The keyword that introduces the target.
pub open spec fn keyword(target: Target) -> Seq<char> {
    match target {
        Target::Interface => "trait"@,
        Target::Binding => "impl"@,
    }
}

/// Whether `token` is the identifier or keyword `word`.
pub open spec fn is_word(token: Token, word: Seq<char>) -> bool {
    token matches Token::Ident { name, .. } && name == word
}

/// Whether `token` is a group with the given delimiter.
pub open spec fn is_group(token: Token, delimiter: Delimiter) -> bool {
    token matches Token::Group { delimiter: d, .. } && d == delimiter
}

/// Whether `token` is the punctuation character `c`.
pub open spec fn is_punct(token: Token, c: char) -> bool {
    token matches Token::Punct { ch, .. } && ch == c
}

/// Whether an attribute, `#` and a bracketed group, stands at `at`.
pub open spec fn is_attribute_at(tokens: Seq<Token>, at: int) -> bool {
    &&& 0 <= at
    &&& at + 1 < tokens.len()
    &&& is_punct(tokens[at], '#')
    &&& is_group(tokens[at + 1], Delimiter::Bracket)
}

/// Whether `token` is a word that may stand between the attributes and the
/// keyword of the target.
pub open spec fn is_modifier(token: Token, target: Target) -> bool {
    match target {
        Target::Interface => is_word(token, "pub"@) || is_word(token, "unsafe"@) || is_word(
            token,
            "auto"@,
        ),
        Target::Binding => is_word(token, "default"@) || is_word(token, "unsafe"@),
    }
}

/// Whether a restriction of `pub`, a parenthesized group, stands at `at` behind
/// a `pub` of a trait declaration.
pub open spec fn is_restriction_at(tokens: Seq<Token>, at: int, target: Target) -> bool {
    &&& target is Interface
    &&& 1 <= at < tokens.len()
    &&& is_word(tokens[at - 1], "pub"@)
    &&& is_group(tokens[at], Delimiter::Parenthesis)
}

/// Whether the `>` at `at` is the tip of an arrow `->`, and so closes no angle
/// bracket.
pub open spec fn is_arrow_tip(tokens: Seq<Token>, at: int) -> bool {
    &&& 1 <= at < tokens.len()
    &&& is_punct(tokens[at - 1], '-')
    &&& is_punct(tokens[at], '>')
}

/// How many angle brackets are open behind the token at `at`, where `depth`
/// were open in front of it.
pub open spec fn depth_behind(tokens: Seq<Token>, at: int, depth: nat) -> nat {
    if is_punct(tokens[at], '<') {
        depth + 1
    } else if is_punct(tokens[at], '>') && !is_arrow_tip(tokens, at) && depth > 0 {
        (depth - 1) as nat
    } else {
        depth
    }
}

/// Whether an `impl` binds a trait to a type, read from `from` with `depth`
/// angle brackets open: outside of angle brackets a `for` stands before any
/// `where`. A group without delimiters leaves the question open, and counts.
pub open spec fn binds_from(tokens: Seq<Token>, from: int, depth: nat) -> bool
    decreases tokens.len() - from,
{
    if from < 0 || from >= tokens.len() {
        false
    } else if is_group(tokens[from], Delimiter::Invisible) {
        true
    } else if depth == 0 && is_word(tokens[from], "for"@) {
        true
    } else if depth == 0 && is_word(tokens[from], "where"@) {
        false
    } else {
        binds_from(tokens, from + 1, depth_behind(tokens, from, depth))
    }
}

/// What is to be said of an item once the target's keyword was found at `at`.
/// A trait declaration needs no more; an `impl` must bind a trait to a type.
pub open spec fn shape_behind_keyword(tokens: Seq<Token>, target: Target, at: int) -> Shape {
    match target {
        Target::Interface => Shape::Fits,
        Target::Binding => if binds_from(tokens, at + 1, 0) {
            Shape::Fits
        } else {
            Shape::Misfit(at as usize)
        },
    }
}

/// The shape of an item whose tokens before `from` are attributes and
/// modifiers: attributes and modifiers are passed over, the keyword decides,
/// and any other token is the misfit. A group without delimiters, as a macro's
/// fragment is, leaves the question open, and the item passes.
pub open spec fn shape_from(tokens: Seq<Token>, target: Target, from: int) -> Shape
    decreases tokens.len() - from,
{
    if from < 0 || from >= tokens.len() {
        Shape::Cut
    } else if is_group(tokens[from], Delimiter::Invisible) {
        Shape::Fits
    } else if is_attribute_at(tokens, from) {
        shape_from(tokens, target, from + 2)
    } else if is_modifier(tokens[from], target) || is_restriction_at(tokens, from, target) {
        shape_from(tokens, target, from + 1)
    } else if is_word(tokens[from], keyword(target)) {
        shape_behind_keyword(tokens, target, from)
    } else {
        Shape::Misfit(from as usize)
    }
}

/// The tokens by which an item is judged: those inside the group, for an item
/// that is one group without delimiters, and the item's own otherwise.
pub open spec fn judged(tokens: Seq<Token>) -> Seq<Token> {
    if tokens.len() == 1 && is_group(tokens[0], Delimiter::Invisible) {
        tokens[0]->inner
    } else {
        tokens
    }
}

/// The shape of an item for a target. A misfit is counted in [`judged`].
pub open spec fn item_shape(tokens: Seq<Token>, target: Target) -> Shape {
    shape_from(judged(tokens), target, 0)
}

/// The tokens that the trees hold.
pub open spec fn tree_tokens(trees: Seq<TokenTree>) -> Seq<Token> {
    trees.map_values(|tree: TokenTree| tree_token(tree))
}

/// Whether `head` is the identifier or keyword `word`.
fn head_is_word(head: &Head, word: &str) -> (yes: bool)
    ensures
        forall|token: Token| is_head_of(*head, token) ==> yes == is_word(token, word@),
{
    match head {
        Head::Ident(text) => {
            let word = String::from_str(word);
            *text == word
        },
        _ => false,
    }
}

/// Whether `head` is a group with the given delimiter.
fn head_is_group(head: &Head, delimiter: Delimiter) -> (yes: bool)
    ensures
        forall|token: Token| is_head_of(*head, token) ==> yes == is_group(token, delimiter),
{
    match head {
        Head::Group(d) => match (d, delimiter) {
            (Delimiter::Parenthesis, Delimiter::Parenthesis) => true,
            (Delimiter::Brace, Delimiter::Brace) => true,
            (Delimiter::Bracket, Delimiter::Bracket) => true,
            (Delimiter::Invisible, Delimiter::Invisible) => true,
            _ => false,
        },
        _ => false,
    }
}

/// Whether `head` is the punctuation character `c`.
fn head_is_punct(head: &Head, c: char) -> (yes: bool)
    ensures
        forall|token: Token| is_head_of(*head, token) ==> yes == is_punct(token, c),
{
    match head {
        Head::Punct(ch) => *ch == c,
        _ => false,
    }
}

/// Whether `head` is a modifier of the target.
fn head_is_modifier(head: &Head, target: Target) -> (yes: bool)
    ensures
        forall|token: Token| is_head_of(*head, token) ==> yes == is_modifier(token, target),
{
    match target {
        Target::Interface => head_is_word(head, "pub") || head_is_word(head, "unsafe")
            || head_is_word(head, "auto"),
        Target::Binding => head_is_word(head, "default") || head_is_word(head, "unsafe"),
    }
}

/// What each token tree is.
fn heads_of(trees: &Vec<TokenTree>) -> (heads: Vec<Head>)
    ensures
        heads@.len() == trees@.len(),
        forall|i: int|
            0 <= i < heads@.len() ==> is_head_of(#[trigger] heads@[i], tree_token(trees@[i])),
{
    let mut heads: Vec<Head> = Vec::new();
    let mut i: usize = 0;
    while i < trees.len()
        invariant
            i <= trees@.len(),
            heads@.len() == i,
            forall|k: int| 0 <= k < i ==> is_head_of(#[trigger] heads@[k], tree_token(trees@[k])),
        decreases trees@.len() - i,
    {
        heads.push(tree_head(&trees[i]));
        i += 1;
    }
    heads
}

/// Whether `heads` says of each token of `tokens` what it is.
pub open spec fn describes(heads: Seq<Head>, tokens: Seq<Token>) -> bool {
    &&& heads.len() == tokens.len()
    &&& forall|i: int| 0 <= i < heads.len() ==> is_head_of(#[trigger] heads[i], tokens[i])
}

/// Whether the `impl` whose keyword stands at `keyword_at` binds a trait to a
/// type.
fn binds_a_trait(heads: &Vec<Head>, keyword_at: usize, Ghost(tokens): Ghost<Seq<Token>>) -> (yes:
    bool)
    requires
        describes(heads@, tokens),
        keyword_at < heads@.len(),
    ensures
        yes == binds_from(tokens, keyword_at + 1, 0),
{
    let n: usize = heads.len();
    let mut i: usize = keyword_at + 1;
    let mut depth: usize = 0;
    while i < n
        invariant
            keyword_at < i <= n,
            n == heads@.len(),
            depth <= i,
            describes(heads@, tokens),
            binds_from(tokens, keyword_at + 1, 0) == binds_from(tokens, i as int, depth as nat),
        decreases n - i,
    {
        let head = &heads[i];
        if head_is_group(head, Delimiter::Invisible) {
            return true;
        }
        if depth == 0 && head_is_word(head, "for") {
            return true;
        }
        if depth == 0 && head_is_word(head, "where") {
            return false;
        }
        if head_is_punct(head, '<') {
            depth += 1;
        } else if head_is_punct(head, '>') && !head_is_punct(&heads[i - 1], '-') && depth > 0 {
            depth -= 1;
        }
        i += 1;
    }
    false
}

/// The shape of an item, read from its first token.
fn outline(heads: &Vec<Head>, target: Target, Ghost(tokens): Ghost<Seq<Token>>) -> (shape: Shape)
    requires
        describes(heads@, tokens),
    ensures
        shape == shape_from(tokens, target, 0),
{
    let n: usize = heads.len();
    let mut i: usize = 0;
    while i < n
        invariant
            i <= n,
            n == heads@.len(),
            describes(heads@, tokens),
            shape_from(tokens, target, 0) == shape_from(tokens, target, i as int),
        decreases n - i,
    {
        let head = &heads[i];
        if head_is_group(head, Delimiter::Invisible) {
            return Shape::Fits;
        }
        if head_is_punct(head, '#') && i + 1 < n && head_is_group(&heads[i + 1], Delimiter::Bracket) {
            i += 2;
        } else if head_is_modifier(head, target) {
            i += 1;
        } else if matches!(target, Target::Interface) && i >= 1 && head_is_word(
            &heads[i - 1],
            "pub",
        ) && head_is_group(head, Delimiter::Parenthesis) {
            i += 1;
        } else {
            let found = match target {
                Target::Interface => head_is_word(head, "trait"),
                Target::Binding => head_is_word(head, "impl"),
            };
            if !found {
                return Shape::Misfit(i);
            }
            return match target {
                Target::Interface => Shape::Fits,
                Target::Binding => if binds_a_trait(heads, i, Ghost(tokens)) {
                    Shape::Fits
                } else {
                    Shape::Misfit(i)
                },
            };
        }
    }
    Shape::Cut
}

/// The token trees by which the item that `trees` holds is judged.
pub(crate) fn judged_trees(trees: Vec<TokenTree>) -> (inner: Vec<TokenTree>)
    ensures
        tree_tokens(inner@) == judged(tree_tokens(trees@)),
{
    if trees.len() == 1 {
        let head = tree_head(&trees[0]);
        if head_is_group(&head, Delimiter::Invisible) {
            match group_stream(&trees[0]) {
                Some(enclosed) => {
                    let inner = stream_trees(&enclosed);
                    assert(tree_tokens(inner@) =~= stream_tokens(enclosed));
                    return inner;
                },
                None => {},
            }
        }
    }
    trees
}

/// The shape of the item whose judged tokens `trees` holds.
pub(crate) fn shape_of_trees(trees: &Vec<TokenTree>, target: Target) -> (shape: Shape)
    ensures
        shape == shape_from(tree_tokens(trees@), target, 0),
        shape matches Shape::Misfit(at) ==> at < trees@.len(),
{
    let heads = heads_of(trees);
    let n: usize = heads.len();
    let ghost tokens = tree_tokens(trees@);
    assert(describes(heads@, tokens) && tokens.len() == n);
    let shape = outline(&heads, target, Ghost(tokens));
    proof {
        lemma_misfit_is_a_token(tokens, target, 0);
    }
    shape
}

/// The shape of `item` for a target.
pub fn shape_of(item: &TokenStream, target: Target) -> (shape: Shape)
    ensures
        shape == item_shape(stream_tokens(*item), target),
{
    let all = stream_trees(item);
    assert(tree_tokens(all@) =~= stream_tokens(*item));
    let trees = judged_trees(all);
    shape_of_trees(&trees, target)
}

/// A misfit is one of the item's tokens, at or behind the place from which the
/// item was read.
pub proof fn lemma_misfit_is_a_token(tokens: Seq<Token>, target: Target, from: int)
    requires
        0 <= from,
        tokens.len() <= usize::MAX,
    ensures
        shape_from(tokens, target, from) matches Shape::Misfit(at) ==> from <= at < tokens.len(),
    decreases tokens.len() - from,
{
    if from >= tokens.len() {
    } else if is_group(tokens[from], Delimiter::Invisible) {
    } else if is_attribute_at(tokens, from) {
        lemma_misfit_is_a_token(tokens, target, from + 2);
    } else if is_modifier(tokens[from], target) || is_restriction_at(tokens, from, target) {
        lemma_misfit_is_a_token(tokens, target, from + 1);
    } else {
    }
}

} // verus!
