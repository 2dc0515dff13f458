//! Reading an item's source text with `syn` into the library's description
//! of it, and the expansions that start from source text.
//!
//! `syn` lexes through `proc_macro2`, which uses the compiler's lexer and
//! printer inside a procedural macro and its own elsewhere, so what a text
//! reads as is not stated: the trusted items below state nothing of their
//! results but that a parse error renders as a `compile_error!` text. The
//! conversion into the library's description keeps the texts and counts that
//! `syn` gave, and the expansions are stated to be those of some reading, a
//! failed reading giving a `compile_error!` text.

use vstd::prelude::*;
use crate::codegen::{autoargs, autoargs_result, impl_autoargs, impl_result};
use crate::model::{AttrValue, ArgModel, FnItem, FnParam, ImplBlock, ImplMember, ParamPattern, first_default, is_named_param, param_arg};

verus! {

#[verifier::external_type_specification]
#[verifier::external_body]
pub struct ExSynAttribute(syn::Attribute);

#[verifier::external_type_specification]
#[verifier::external_body]
pub struct ExSynSignature(syn::Signature);

#[verifier::external_type_specification]
#[verifier::external_body]
pub struct ExSynFnArg(syn::FnArg);

#[verifier::external_type_specification]
#[verifier::external_body]
pub struct ExSynImplItem(syn::ImplItem);

#[verifier::external_type_specification]
#[verifier::external_body]
pub struct ExSynError(syn::Error);

/// The parts of a function or method that the expansion reads: its
/// attributes, the source text of its visibility, its signature and the
/// source text of its body.
pub struct FnParts {
    pub attrs: Vec<syn::Attribute>,
    pub vis: String,
    pub sig: syn::Signature,
    pub body: String,
}

/// A parameter as `syn` gives it: a receiver with its source text, or a typed
/// parameter with the identifier of its pattern (when the pattern is one),
/// the source text of its type, and its attributes.
pub enum ArgParts {
    Receiver(String),
    Typed(Option<String>, String, Vec<syn::Attribute>),
}

/// Parses `item` as a method of an `impl` block (`syn::parse_str` for
/// `syn::ImplItemFn`); `None` when it does not parse.
///
/// Trusted, with nothing stated of the result: which texts parse, and the
/// printed texts, depend on the lexer and printer in use.
#[verifier::external_body]
fn parse_impl_item_fn(item: &str) -> (r: Option<FnParts>) {
    match syn::parse_str::<syn::ImplItemFn>(item) {
        Ok(m) => Some(FnParts {
            attrs: m.attrs,
            vis: quote::ToTokens::to_token_stream(&m.vis).to_string(),
            sig: m.sig,
            body: quote::ToTokens::to_token_stream(&m.block).to_string(),
        }),
        Err(_) => None,
    }
}

/// Parses `item` as a free function (`syn::parse_str` for `syn::ItemFn`).
///
/// Trusted, with nothing stated of the result, as for `parse_impl_item_fn`.
#[verifier::external_body]
fn parse_item_fn(item: &str) -> (r: Result<FnParts, syn::Error>) {
    match syn::parse_str::<syn::ItemFn>(item) {
        Ok(f) => Ok(FnParts {
            attrs: f.attrs,
            vis: quote::ToTokens::to_token_stream(&f.vis).to_string(),
            sig: f.sig,
            body: quote::ToTokens::to_token_stream(&f.block).to_string(),
        }),
        Err(e) => Err(e),
    }
}

/// Parses `item` as an `impl` block (`syn::parse_str` for `syn::ItemImpl`),
/// giving its items and its printed source text.
///
/// Trusted, with nothing stated of the result, as for `parse_impl_item_fn`.
#[verifier::external_body]
fn parse_item_impl(item: &str) -> (r: Result<(Vec<syn::ImplItem>, String), syn::Error>) {
    match syn::parse_str::<syn::ItemImpl>(item) {
        Ok(imp) => {
            let text = quote::ToTokens::to_token_stream(&imp).to_string();
            Ok((imp.items, text))
        },
        Err(e) => Err(e),
    }
}

/// The source text of the `compile_error!` invocation that reports a parse
/// error (`syn::Error::to_compile_error`).
///
/// Trusted: the text holds `compile_error`, as `to_compile_error` renders an
/// invocation of `::core::compile_error!` for each message of the error (an
/// error has at least one), and both printers print an identifier whole. The
/// message, its escaping and the spacing are not stated.
#[verifier::external_body]
fn compile_error_text(e: &syn::Error) -> (r: String)
    ensures
        is_compile_error(r@),
{
    e.to_compile_error().to_string()
}

/// The parts of an `impl` item that is a method (`syn::ImplItem::Fn`).
///
/// Trusted, with nothing stated of the result: the item is opaque here.
#[verifier::external_body]
fn impl_item_method(item: &syn::ImplItem) -> (r: Option<FnParts>) {
    match item {
        syn::ImplItem::Fn(m) => Some(FnParts {
            attrs: m.attrs.clone(),
            vis: quote::ToTokens::to_token_stream(&m.vis).to_string(),
            sig: m.sig.clone(),
            body: quote::ToTokens::to_token_stream(&m.block).to_string(),
        }),
        _ => None,
    }
}

/// The name (the identifier's `Display`), parameters and printed return type
/// of a signature.
///
/// Trusted, with nothing stated of the result: the signature is opaque here.
#[verifier::external_body]
fn signature_parts(sig: syn::Signature) -> (r: (String, Vec<syn::FnArg>, String)) {
    let output = quote::ToTokens::to_token_stream(&sig.output).to_string();
    (sig.ident.to_string(), sig.inputs.into_iter().collect(), output)
}

/// A parameter split into receiver or typed parameter (`syn::FnArg`), with
/// the identifier of a `syn::Pat::Ident` pattern.
///
/// Trusted, with nothing stated of the result: the parameter is opaque here.
#[verifier::external_body]
fn fn_arg_parts(arg: &syn::FnArg) -> (r: ArgParts) {
    match arg {
        syn::FnArg::Receiver(receiver) => ArgParts::Receiver(quote::ToTokens::to_token_stream(receiver).to_string()),
        syn::FnArg::Typed(p) => ArgParts::Typed(
            match &*p.pat {
                syn::Pat::Ident(pat_ident) => Some(pat_ident.ident.to_string()),
                _ => None,
            },
            quote::ToTokens::to_token_stream(&p.ty).to_string(),
            p.attrs.clone(),
        ),
    }
}

/// The identifiers of an attribute's path (`syn::Attribute::path`).
///
/// Trusted, with nothing stated of the result: the attribute is opaque here.
#[verifier::external_body]
fn attribute_path(attr: &syn::Attribute) -> (r: Vec<String>) {
    attr.path().segments.iter().map(|seg| seg.ident.to_string()).collect()
}

/// The string value of an attribute in `#[path = "..."]` form
/// (`syn::LitStr::value`), `None` for any other form.
///
/// Trusted, with nothing stated of the result: the attribute is opaque here.
#[verifier::external_body]
fn attribute_str_value(attr: &syn::Attribute) -> (r: Option<String>) {
    match &attr.meta {
        syn::Meta::NameValue(meta) => match &meta.value {
            syn::Expr::Lit(expr_lit) => match &expr_lit.lit {
                syn::Lit::Str(lit) => Some(lit.value()),
                _ => None,
            },
            _ => None,
        },
        _ => None,
    }
}

/// `w` occurs in `s`.
pub open spec fn contains_text(s: Seq<char>, w: Seq<char>) -> bool {
    exists|i: int| 0 <= i && i + w.len() <= s.len() && #[trigger] s.subrange(i, i + w.len()) == w
}

/// The text holds `compile_error`: it reports an error through
/// `compile_error!`.
pub open spec fn is_compile_error(s: Seq<char>) -> bool {
    contains_text(s, "compile_error"@)
}

/// The description of an attribute with the given path and string value.
pub fn attr_info_from(path: Vec<String>, value: Option<String>) -> (r: crate::model::AttrInfo)
    ensures
        r == (crate::model::AttrInfo {
            path,
            value: match value {
                Some(s) => AttrValue::Str(s),
                None => AttrValue::Other,
            },
        }),
{
    let value = match value {
        Some(s) => AttrValue::Str(s),
        None => AttrValue::Other,
    };
    crate::model::AttrInfo { path, value }
}

/// The description of each attribute, in order.
fn attributes_of(attrs: &Vec<syn::Attribute>) -> (r: Vec<crate::model::AttrInfo>)
    ensures
        r.len() == attrs.len(),
{
    let mut r: Vec<crate::model::AttrInfo> = Vec::new();
    let n = attrs.len();
    let mut i: usize = 0;
    while i < n
        invariant
            n == attrs.len(),
            i <= n,
            r.len() == i,
        decreases n - i,
    {
        r.push(attr_info_from(attribute_path(&attrs[i]), attribute_str_value(&attrs[i])));
        i = i + 1;
    }
    r
}

/// `r` describes the parameter that `p` gives: the same receiver text, or a
/// typed parameter with the same type text, one attribute per attribute, and
/// an identifier pattern exactly when `p` gives an identifier.
pub open spec fn param_parts_match(p: ArgParts, r: FnParam) -> bool {
    match p {
        ArgParts::Receiver(t) => r == FnParam::Receiver(t),
        ArgParts::Typed(name, ty, attrs) => match r {
            FnParam::Typed { pattern, ty: rty, attrs: rattrs } => {
                &&& rty == ty
                &&& rattrs.len() == attrs.len()
                &&& match name {
                    Some(n) => pattern == ParamPattern::Ident(n),
                    None => pattern is Other,
                }
            },
            FnParam::Receiver(_) => false,
        },
    }
}

/// The description of a parameter from its parts.
fn param_from_parts(p: ArgParts) -> (r: FnParam)
    ensures
        param_parts_match(p, r),
{
    match p {
        ArgParts::Receiver(t) => FnParam::Receiver(t),
        ArgParts::Typed(name, ty, attrs) => {
            let pattern = match name {
                Some(n) => ParamPattern::Ident(n),
                None => ParamPattern::Other,
            };
            FnParam::Typed { pattern, ty, attrs: attributes_of(&attrs) }
        },
    }
}

/// The description of a function from its signature's parts: the given
/// visibility, name, return type and body, one attribute per attribute and
/// one parameter per input.
fn fn_item_from(
    attrs: &Vec<syn::Attribute>,
    vis: String,
    name: String,
    inputs: &Vec<syn::FnArg>,
    output: String,
    body: String,
) -> (r: FnItem)
    ensures
        r.vis == vis,
        r.name == name,
        r.output == output,
        r.body == body,
        r.attrs.len() == attrs.len(),
        r.params.len() == inputs.len(),
{
    let mut params: Vec<FnParam> = Vec::new();
    let n = inputs.len();
    let mut i: usize = 0;
    while i < n
        invariant
            n == inputs.len(),
            i <= n,
            params.len() == i,
        decreases n - i,
    {
        params.push(param_from_parts(fn_arg_parts(&inputs[i])));
        i = i + 1;
    }
    FnItem { attrs: attributes_of(attrs), vis, name, params, output, body }
}

/// The description of a function from its parts: the same visibility and
/// body text, and one attribute per attribute.
fn fn_item_of(parts: FnParts) -> (r: FnItem)
    ensures
        r.vis == parts.vis,
        r.body == parts.body,
        r.attrs.len() == parts.attrs.len(),
{
    let FnParts { attrs, vis, sig, body } = parts;
    let (name, inputs, output) = signature_parts(sig);
    fn_item_from(&attrs, vis, name, &inputs, output, body)
}

/// A reading of an item as a method and as a free function in which a failed
/// reading as a free function gives a `compile_error!` text.
pub open spec fn fn_reading_ok(as_method: Option<FnItem>, as_function: Result<FnItem, String>) -> bool {
    match as_function {
        Ok(_) => true,
        Err(e) => is_compile_error(e@),
    }
}

/// Reads an item's source text as a method of an `impl` block (`None` when
/// it does not read as one) and as a free function (or the source text of the
/// `compile_error!` that reading it as one gives).
pub fn read_fn_item(item: &str) -> (r: (Option<FnItem>, Result<FnItem, String>))
    ensures
        fn_reading_ok(r.0, r.1),
{
    let as_method = match parse_impl_item_fn(item) {
        Some(parts) => Some(fn_item_of(parts)),
        None => None,
    };
    let as_function = match parse_item_fn(item) {
        Ok(parts) => Ok(fn_item_of(parts)),
        Err(e) => Err(compile_error_text(&e)),
    };
    (as_method, as_function)
}

/// The description of an `impl` block with the given items and text: one
/// member per item, and the same text.
fn impl_block_from(items: &Vec<syn::ImplItem>, text: String) -> (r: ImplBlock)
    ensures
        r.members.len() == items.len(),
        r.text == text,
{
    let mut members: Vec<ImplMember> = Vec::new();
    let n = items.len();
    let mut i: usize = 0;
    while i < n
        invariant
            n == items.len(),
            i <= n,
            members.len() == i,
        decreases n - i,
    {
        let member = match impl_item_method(&items[i]) {
            Some(parts) => ImplMember::Method(fn_item_of(parts)),
            None => ImplMember::Other,
        };
        members.push(member);
        i = i + 1;
    }
    ImplBlock { members, text }
}

/// A reading of an `impl` block in which a failed reading gives a
/// `compile_error!` text.
pub open spec fn impl_reading_ok(read: Result<ImplBlock, String>) -> bool {
    match read {
        Ok(_) => true,
        Err(e) => is_compile_error(e@),
    }
}

/// Reads an `impl` block's source text (or gives the source text of the
/// `compile_error!` that reading it gives).
pub fn read_impl_block(item: &str) -> (r: Result<ImplBlock, String>)
    ensures
        impl_reading_ok(r),
{
    match parse_item_impl(item) {
        Ok((items, text)) => Ok(impl_block_from(&items, text)),
        Err(e) => Err(compile_error_text(&e)),
    }
}

/// `#[autoargs]` on an item given as source text: the item is read with
/// `read_fn_item`, and the result is what `codegen::autoargs` gives for that
/// reading: the rewritten method when it reads as a method with a receiver,
/// otherwise the function's expansion, or the `compile_error!` of reading it.
pub fn expand_autoargs(item: &str) -> (r: String)
    ensures
        exists|as_method: Option<FnItem>, as_function: Result<FnItem, String>|
            fn_reading_ok(as_method, as_function) && #[trigger] autoargs_result(as_method, as_function, r@),
{
    let (as_method, as_function) = read_fn_item(item);
    let ghost m = as_method;
    let ghost f = as_function;
    let r = autoargs(as_method, as_function);
    assert(fn_reading_ok(m, f) && autoargs_result(m, f, r@));
    r
}

/// `r` is what `#[impl_autoargs]` gives for a reading of the block: its
/// expansion when it was read, the compile error of reading it otherwise.
pub open spec fn impl_read_result(read: Result<ImplBlock, String>, r: Seq<char>) -> bool {
    match read {
        Ok(block) => impl_result(block, r),
        Err(e) => r == e@,
    }
}

/// `#[impl_autoargs]` on an `impl` block given as source text: the block is
/// read with `read_impl_block`; the result is what `codegen::impl_autoargs`
/// gives for that reading, or the compile error of reading it.
pub fn expand_impl_autoargs(item: &str) -> (r: String)
    ensures
        exists|read: Result<ImplBlock, String>| impl_reading_ok(read) && #[trigger] impl_read_result(read, r@),
{
    let read = read_impl_block(item);
    let ghost g = read;
    let r = match read {
        Ok(block) => impl_autoargs(&block),
        Err(e) => e,
    };
    assert(impl_reading_ok(g) && impl_read_result(g, r@));
    r
}

/// Reading a typed parameter whose pattern is an identifier other than `self`
/// keeps it a named argument, whatever attributes it carries: the reading has
/// that identifier as its pattern and the same type, so the argument it stands
/// for has that name and type.
pub proof fn law_reading_keeps_identifier_parameters(
    name: String,
    ty: String,
    attrs: Vec<syn::Attribute>,
    r: FnParam,
)
    requires
        param_parts_match(ArgParts::Typed(Some(name), ty, attrs), r),
        name@ != "self"@,
    ensures
        is_named_param(r),
        r matches FnParam::Typed { attrs: rattrs, .. } && rattrs.len() == attrs.len()
            && param_arg(r) == Some(ArgModel { name: name@, ty: ty@, default_expr: first_default(rattrs@) }),
{
}

/// Reading a receiver keeps its text, and a receiver stands for no argument.
pub proof fn law_reading_keeps_receivers(t: String, r: FnParam)
    requires
        param_parts_match(ArgParts::Receiver(t), r),
    ensures
        r == FnParam::Receiver(t),
        param_arg(r) is None,
{
}

} // verus!
