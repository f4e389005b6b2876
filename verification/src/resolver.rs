//! How generated code names the library that defines the mechanism.

use crate::tokens::is_plain_ident;
use crate::tokens::new_stream;
use crate::tokens::plain_ident;
use crate::tokens::push_group;
use crate::tokens::push_ident;
use crate::tokens::push_punct;
use crate::tokens::push_str_literal;
use crate::tokens::stream_tokens;
use crate::tokens::Delimiter;
use crate::tokens::Spacing;
use crate::tokens::Token;
use proc_macro2::Span;
use proc_macro2::TokenStream;
use vstd::prelude::*;
use vstd::string::*;

verus! {

/// The name under which a crate is imported, checked to be a plain identifier.
#[derive(Debug, PartialEq, Eq)]
pub struct CrateIdent {
    name: String,
}

impl View for CrateIdent {
    type V = Seq<char>;

    closed spec fn view(&self) -> Seq<char> {
        self.name@
    }
}

impl CrateIdent {
    #[verifier::type_invariant]
    spec fn well_formed(&self) -> bool {
        is_plain_ident(self.name@)
    }

    /// Accepts `name` when it is a plain identifier, and nothing else.
    pub fn new(name: &str) -> (ident: Option<CrateIdent>)
        ensures
            ident is Some <==> is_plain_ident(name@),
            ident is Some ==> ident->0@ == name@,
    {
        if plain_ident(name) {
            Some(CrateIdent { name: String::from_str(name) })
        } else {
            None
        }
    }

    /// The name as text.
    pub fn as_str(&self) -> (name: &str)
        ensures
            name@ == self@,
            is_plain_ident(name@),
    {
        proof {
            use_type_invariant(self);
        }
        self.name.as_str()
    }
}

/// What the build's dependency graph says of the defining library.
#[derive(Debug, PartialEq, Eq)]
pub enum CrateLookup {
    /// The expansion runs inside the defining library.
    Itself,
    /// The consumer imports the defining library under this name.
    Name(CrateIdent),
    /// The defining library is not among the consumer's dependencies.
    NotFound,
}

/// The text of the diagnostic for a defining library that was not found.
pub const CRATE_NOT_FOUND: &'static str = "`axvisor_api` crate not found";

/// The tokens of `compile_error!(message)`, every one of them at `span`.
pub open spec fn diagnostic_tokens(message: Seq<char>, span: Span) -> Seq<Token> {
    seq![
        Token::Ident { name: "compile_error"@, span },
        Token::Punct { ch: '!', spacing: Spacing::Alone, span },
        Token::Group {
            delimiter: Delimiter::Parenthesis,
            inner: seq![Token::Str { value: message, span }],
            span,
        },
    ]
}

/// The tokens by which generated code names the defining library: `crate` inside
/// it, the import's name in a consumer, and the fixed diagnostic where the
/// lookup failed.
pub open spec fn crate_path_tokens(found: CrateLookup, site: Span) -> Seq<Token> {
    match found {
        CrateLookup::Itself => seq![Token::Ident { name: "crate"@, span: site }],
        CrateLookup::Name(name) => seq![Token::Ident { name: name@, span: site }],
        CrateLookup::NotFound => diagnostic_tokens(CRATE_NOT_FOUND@, site),
    }
}

/// Builds `compile_error!(message)` with every token at `span`.
pub fn diagnostic(message: &str, span: Span) -> (stream: TokenStream)
    ensures
        stream_tokens(stream) == diagnostic_tokens(message@, span),
{
    let mut inner = new_stream();
    push_str_literal(&mut inner, message, span);
    let mut stream = new_stream();
    proof {
        reveal_strlit("compile_error");
    }
    push_ident(&mut stream, "compile_error", span);
    push_punct(&mut stream, '!', Spacing::Alone, span);
    push_group(&mut stream, Delimiter::Parenthesis, inner, span);
    assert(stream_tokens(stream) =~= diagnostic_tokens(message@, span));
    stream
}

/// Names the defining library for generated code at `site`.
pub fn axvisor_api_crate(found: &CrateLookup, site: Span) -> (path: TokenStream)
    ensures
        stream_tokens(path) == crate_path_tokens(*found, site),
{
    match found {
        CrateLookup::Itself => {
            let mut path = new_stream();
            proof {
                reveal_strlit("crate");
            }
            push_ident(&mut path, "crate", site);
            assert(stream_tokens(path) =~= crate_path_tokens(*found, site));
            path
        },
        CrateLookup::Name(name) => {
            let mut path = new_stream();
            push_ident(&mut path, name.as_str(), site);
            assert(stream_tokens(path) =~= crate_path_tokens(*found, site));
            path
        },
        CrateLookup::NotFound => diagnostic(CRATE_NOT_FOUND, site),
    }
}

} // verus!
