//! Token-level services of `proc_macro2` and `syn`, and the default value
//! expression of an argument.
//!
//! Inside a procedural macro `proc_macro2` lexes and prints with the
//! compiler's own lexer and printer, and elsewhere with its own, so what these
//! services give for a text depends on where the process runs. The contracts
//! below therefore take the lexer's outcomes as arguments where a result is
//! exact, and state what holds whatever came back where the call is made.

use vstd::prelude::*;
use crate::model::{ArgInfo, ArgModel, arg_models, opt_text};
use crate::text::texts;

verus! {

/// Lexes `s` into a `proc_macro2::TokenStream` (its `FromStr`) and prints the
/// tokens (its `Display`); `None` when `s` does not lex.
///
/// Trusted, with nothing stated of the result: which texts lex and how the
/// tokens are printed depend on whether the process runs inside the compiler
/// (see `detection.rs` of `proc_macro2`). The `FromStr` documentation warns
/// that some errors may panic; in the version used, the compiler's lexer is
/// only run on text that `proc_macro2`'s own lexer accepts, under
/// `catch_unwind`, and the error is returned.
#[verifier::external_body]
pub(crate) fn tokenstream_from_str(s: &str) -> (r: Option<String>) {
    match s.parse::<proc_macro2::TokenStream>() {
        Ok(tokens) => Some(tokens.to_string()),
        Err(_) => None,
    }
}

/// Builds `syn::LitStr::new(s, Span::call_site())` and prints its token
/// (`quote::ToTokens`, then the `Display` of the token stream).
///
/// Trusted, with nothing stated of the result: the escaping is that of the
/// compiler's `Literal::string` inside a procedural macro and of
/// `proc_macro2`'s own elsewhere.
#[verifier::external_body]
pub(crate) fn string_literal_tokens(s: &str) -> (r: String) {
    let lit = syn::LitStr::new(s, proc_macro2::Span::call_site());
    quote::ToTokens::to_token_stream(&lit).to_string()
}

/// The expression that initialises a field in the generated `Default`
/// implementation, given the field's default attribute `d`, the tokens that
/// lexing `d` gave (`lexed`), and the string literal made of `d` (`literal`):
/// `Default::default()` without an attribute; the lexed tokens when the
/// expression lexes; otherwise the string literal, parsed at run time.
pub open spec fn default_value(d: Option<Seq<char>>, lexed: Option<Seq<char>>, literal: Seq<char>) -> Seq<char> {
    match d {
        None => "Default::default()"@,
        Some(_) => match lexed {
            Some(t) => t,
            None => literal + ".parse().unwrap()"@,
        },
    }
}

/// `t` is an initialising expression for a field with default attribute `d`,
/// for some outcome of the lexer.
pub open spec fn default_outcome(d: Option<Seq<char>>, t: Seq<char>) -> bool {
    exists|lexed: Option<Seq<char>>, literal: Seq<char>| t == #[trigger] default_value(d, lexed, literal)
}

/// `values` holds one initialising expression per argument, in order.
pub open spec fn defaults_ok(args: Seq<ArgModel>, values: Seq<Seq<char>>) -> bool {
    &&& values.len() == args.len()
    &&& forall|i: int| 0 <= i < args.len() ==> default_outcome(args[i].default_expr, #[trigger] values[i])
}

/// The initialising expression of a field, given the lexer's outcomes.
pub fn default_value_from(d: &Option<String>, lexed: Option<String>, literal: String) -> (r: String)
    ensures
        r@ == default_value(opt_text(*d), opt_text(lexed), literal@),
{
    match d {
        None => String::from_str("Default::default()"),
        Some(_) => match lexed {
            Some(t) => t,
            None => {
                let mut lit = literal;
                lit.append(".parse().unwrap()");
                lit
            },
        },
    }
}

/// The initialising expression of a field with the given default attribute:
/// the attribute's expression is lexed, and made a string literal when it
/// does not lex.
pub fn default_value_tokens(d: &Option<String>) -> (r: String)
    ensures
        default_outcome(opt_text(*d), r@),
        *d is None ==> r@ == "Default::default()"@,
{
    let r = match d {
        None => default_value_from(d, None, String::new()),
        Some(e) => match tokenstream_from_str(e.as_str()) {
            Some(t) => default_value_from(d, Some(t), String::new()),
            None => {
                let literal = string_literal_tokens(e.as_str());
                default_value_from(d, None, literal)
            },
        },
    };
    assert(exists|lexed: Option<Seq<char>>, literal: Seq<char>|
        r@ == #[trigger] default_value(opt_text(*d), lexed, literal));
    r
}

/// The initialising expression of each argument's field, in order.
pub fn default_values(args: &Vec<ArgInfo>) -> (r: Vec<String>)
    ensures
        defaults_ok(arg_models(args@), texts(r@)),
{
    let mut r: Vec<String> = Vec::new();
    let n = args.len();
    let mut i: usize = 0;
    while i < n
        invariant
            n == args.len(),
            i <= n,
            r.len() == i,
            forall|j: int| 0 <= j < i ==> default_outcome(args@[j]@.default_expr, #[trigger] r@[j]@),
        decreases n - i,
    {
        let v = default_value_tokens(&args[i].default_expr);
        r.push(v);
        i = i + 1;
    }
    let ghost m = arg_models(args@);
    assert forall|j: int| 0 <= j < m.len() implies default_outcome(m[j].default_expr, #[trigger] texts(r@)[j]) by {
        assert(texts(r@)[j] == r@[j]@);
        assert(m[j] == args@[j]@);
    }
    r
}

} // verus!
