//! The one namespace under which every interface is registered.

use crate::tokens::new_stream;
use crate::tokens::push_ident;
use crate::tokens::stream_tokens;
use crate::tokens::Token;
use proc_macro2::Span;
use proc_macro2::TokenStream;
use vstd::prelude::*;

verus! {

/// The namespace that all interfaces and implementations share. It keeps their
/// symbols apart from other users of `crate_interface` in the same build; within
/// it, operation names of one interface must not repeat in another of the same
/// name.
pub const AXVISOR_API_NS: &'static str = "AxVisorApi";

/// The namespace as the tokens of an attribute's argument: one identifier.
pub open spec fn namespace_tokens(site: Span) -> Seq<Token> {
    seq![Token::Ident { name: AXVISOR_API_NS@, span: site }]
}

/// The namespace identifier, for generated code at `site`.
pub fn axvisor_api_namespace(site: Span) -> (ns: TokenStream)
    ensures
        stream_tokens(ns) == namespace_tokens(site),
{
    let mut ns = new_stream();
    proof {
        reveal_strlit("AxVisorApi");
    }
    push_ident(&mut ns, AXVISOR_API_NS, site);
    assert(stream_tokens(ns) =~= namespace_tokens(site));
    ns
}

} // verus!
