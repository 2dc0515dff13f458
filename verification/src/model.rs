//! The library's view of a function signature, and the extraction of its
//! named arguments.

use vstd::prelude::*;
use crate::text::same_text;

verus! {

/// The value part of an attribute: a string literal in `#[name = "..."]`
/// form, or anything else.
pub enum AttrValue {
    Str(String),
    Other,
}

/// An attribute: the identifiers of its path and its value.
pub struct AttrInfo {
    pub path: Vec<String>,
    pub value: AttrValue,
}

/// The pattern of a typed parameter: a plain identifier (possibly with `mut`
/// or `ref`), or any other pattern.
pub enum ParamPattern {
    Ident(String),
    Other,
}

/// A parameter of a function: a receiver (`self`, `&self`, `&mut self`, ...)
/// given by its source text, or a typed parameter with its pattern, the source
/// text of its type and its attributes.
pub enum FnParam {
    Receiver(String),
    Typed { pattern: ParamPattern, ty: String, attrs: Vec<AttrInfo> },
}

/// A function or method: its attributes, the source text of its visibility,
/// its name, its parameters, the source text of its return type (`-> T`, or
/// empty) and the source text of its body (with the braces).
pub struct FnItem {
    pub attrs: Vec<AttrInfo>,
    pub vis: String,
    pub name: String,
    pub params: Vec<FnParam>,
    pub output: String,
    pub body: String,
}

/// An item of an `impl` block: a method, or anything else.
pub enum ImplMember {
    Method(FnItem),
    Other,
}

/// An `impl` block: its items and its whole source text.
pub struct ImplBlock {
    pub members: Vec<ImplMember>,
    pub text: String,
}

/// A named argument: its name, the source text of its type and, when the
/// parameter carries a `#[default = "..."]` attribute, the expression text.
pub struct ArgInfo {
    pub name: String,
    pub ty: String,
    pub default_expr: Option<String>,
}

/// The mathematical value of an [`ArgInfo`].
pub struct ArgModel {
    pub name: Seq<char>,
    pub ty: Seq<char>,
    pub default_expr: Option<Seq<char>>,
}

/// The text held by an optional string.
pub open spec fn opt_text(o: Option<String>) -> Option<Seq<char>> {
    match o {
        Some(s) => Some(s@),
        None => None,
    }
}

impl View for ArgInfo {
    type V = ArgModel;

    open spec fn view(&self) -> ArgModel {
        ArgModel { name: self.name@, ty: self.ty@, default_expr: opt_text(self.default_expr) }
    }
}

/// The values of a sequence of arguments.
pub open spec fn arg_models(v: Seq<ArgInfo>) -> Seq<ArgModel> {
    v.map_values(|a: ArgInfo| a@)
}

/// Some identifier of the path is `word`.
pub open spec fn path_has(path: Seq<String>, word: Seq<char>) -> bool {
    exists|i: int| 0 <= i < path.len() && (#[trigger] path[i])@ == word
}

/// The default expression that an attribute gives: one whose path names
/// `default` and whose value is a string literal gives that string.
pub open spec fn attr_default(a: AttrInfo) -> Option<Seq<char>> {
    if path_has(a.path@, "default"@) {
        match a.value {
            AttrValue::Str(s) => Some(s@),
            AttrValue::Other => None,
        }
    } else {
        None
    }
}

/// The default expression given by the first attribute that gives one.
pub open spec fn first_default(attrs: Seq<AttrInfo>) -> Option<Seq<char>>
    decreases attrs.len(),
{
    if attrs.len() == 0 {
        None
    } else {
        match attr_default(attrs[0]) {
            Some(d) => Some(d),
            None => first_default(attrs.drop_first()),
        }
    }
}

/// The named argument that a parameter stands for: none for a receiver, for
/// a pattern that is not a plain identifier, or for an identifier `self`.
pub open spec fn param_arg(p: FnParam) -> Option<ArgModel> {
    match p {
        FnParam::Receiver(_) => None,
        FnParam::Typed { pattern, ty, attrs } => match pattern {
            ParamPattern::Ident(n) => if n@ == "self"@ {
                None
            } else {
                Some(ArgModel { name: n@, ty: ty@, default_expr: first_default(attrs@) })
            },
            ParamPattern::Other => None,
        },
    }
}

/// The named arguments of a parameter list, in order.
pub open spec fn fn_args(ps: Seq<FnParam>) -> Seq<ArgModel>
    decreases ps.len(),
{
    if ps.len() == 0 {
        Seq::empty()
    } else {
        let rest = fn_args(ps.drop_last());
        match param_arg(ps.last()) {
            Some(a) => rest.push(a),
            None => rest,
        }
    }
}

/// Whether some identifier of `path` is `word`.
pub fn path_contains(path: &Vec<String>, word: &str) -> (r: bool)
    ensures
        r == path_has(path@, word@),
{
    let n = path.len();
    let mut i: usize = 0;
    while i < n
        invariant
            n == path.len(),
            i <= n,
            forall|j: int| 0 <= j < i ==> (#[trigger] path@[j])@ != word@,
        decreases n - i,
    {
        if same_text(path[i].as_str(), word) {
            return true;
        }
        i = i + 1;
    }
    false
}

/// The default expression of the first `#[default = "..."]` attribute.
pub fn find_default(attrs: &Vec<AttrInfo>) -> (r: Option<String>)
    ensures
        opt_text(r) == first_default(attrs@),
{
    let n = attrs.len();
    let mut i: usize = 0;
    assert(attrs@.skip(0) =~= attrs@);
    while i < n
        invariant
            n == attrs.len(),
            i <= n,
            first_default(attrs@) == first_default(attrs@.skip(i as int)),
        decreases n - i,
    {
        let ghost rest = attrs@.skip(i as int);
        assert(rest[0] == attrs@[i as int]);
        assert(rest.drop_first() =~= attrs@.skip(i + 1));
        let a = &attrs[i];
        if path_contains(&a.path, "default") {
            match &a.value {
                AttrValue::Str(s) => {
                    return Some(s.clone());
                },
                AttrValue::Other => {},
            }
        }
        i = i + 1;
    }
    None
}

/// The named arguments of a parameter list: each typed parameter whose
/// pattern is an identifier other than `self`, with its type and default.
pub fn parse_fn_args(inputs: &Vec<FnParam>) -> (r: Vec<ArgInfo>)
    ensures
        arg_models(r@) == fn_args(inputs@),
{
    let mut r: Vec<ArgInfo> = Vec::new();
    let n = inputs.len();
    let mut i: usize = 0;
    while i < n
        invariant
            n == inputs.len(),
            i <= n,
            arg_models(r@) == fn_args(inputs@.take(i as int)),
        decreases n - i,
    {
        let ghost prefix = inputs@.take(i + 1);
        assert(prefix.drop_last() =~= inputs@.take(i as int));
        assert(prefix.last() == inputs@[i as int]);
        match &inputs[i] {
            FnParam::Receiver(_) => {},
            FnParam::Typed { pattern, ty, attrs } => match pattern {
                ParamPattern::Ident(name) => {
                    if !same_text(name.as_str(), "self") {
                        let default_expr = find_default(attrs);
                        let arg = ArgInfo { name: name.clone(), ty: ty.clone(), default_expr };
                        r.push(arg);
                        assert(arg_models(r@) =~= fn_args(prefix));
                    }
                },
                ParamPattern::Other => {},
            },
        }
        i = i + 1;
    }
    assert(inputs@.take(n as int) =~= inputs@);
    r
}

/// The text of the first receiver among the parameters, if there is one.
pub open spec fn first_receiver(ps: Seq<FnParam>) -> Option<Seq<char>>
    decreases ps.len(),
{
    if ps.len() == 0 {
        None
    } else {
        match ps[0] {
            FnParam::Receiver(t) => Some(t@),
            _ => first_receiver(ps.drop_first()),
        }
    }
}

/// The text of the first receiver among the parameters, if there is one.
pub fn find_receiver(ps: &Vec<FnParam>) -> (r: Option<String>)
    ensures
        opt_text(r) == first_receiver(ps@),
{
    let n = ps.len();
    let mut i: usize = 0;
    assert(ps@.skip(0) =~= ps@);
    while i < n
        invariant
            n == ps.len(),
            i <= n,
            first_receiver(ps@) == first_receiver(ps@.skip(i as int)),
        decreases n - i,
    {
        let ghost rest = ps@.skip(i as int);
        assert(rest[0] == ps@[i as int]);
        assert(rest.drop_first() =~= ps@.skip(i + 1));
        match &ps[i] {
            FnParam::Receiver(t) => {
                return Some(t.clone());
            },
            _ => {},
        }
        i = i + 1;
    }
    None
}

/// A typed parameter whose pattern is an identifier other than `self`.
pub open spec fn is_named_param(p: FnParam) -> bool {
    match p {
        FnParam::Typed { pattern, .. } => match pattern {
            ParamPattern::Ident(n) => n@ != "self"@,
            ParamPattern::Other => false,
        },
        FnParam::Receiver(_) => false,
    }
}

/// The arguments are drawn from the parameters in order: there are no more of
/// them than parameters, none is named `self`, and each is what some
/// parameter stands for.
pub proof fn law_arguments_come_from_parameters(ps: Seq<FnParam>)
    ensures
        fn_args(ps).len() <= ps.len(),
        forall|j: int| 0 <= j < fn_args(ps).len() ==> (#[trigger] fn_args(ps)[j]).name != "self"@,
        forall|j: int| 0 <= j < fn_args(ps).len() ==> exists|i: int| 0 <= i < ps.len()
            && param_arg(#[trigger] ps[i]) == Some(#[trigger] fn_args(ps)[j]),
    decreases ps.len(),
{
    if ps.len() > 0 {
        let init = ps.drop_last();
        law_arguments_come_from_parameters(init);
        let rest = fn_args(init);
        assert forall|j: int| 0 <= j < fn_args(ps).len() implies exists|i: int| 0 <= i < ps.len()
            && param_arg(#[trigger] ps[i]) == Some(#[trigger] fn_args(ps)[j]) by {
            if j < rest.len() {
                assert(fn_args(ps)[j] == rest[j]);
                let i = choose|i: int| 0 <= i < init.len() && param_arg(#[trigger] init[i]) == Some(rest[j]);
                assert(ps[i] == init[i]);
            } else {
                assert(ps[ps.len() - 1] == ps.last());
            }
        }
        assert forall|j: int| 0 <= j < fn_args(ps).len() implies (#[trigger] fn_args(ps)[j]).name != "self"@ by {
            if j < rest.len() {
                assert(fn_args(ps)[j] == rest[j]);
            }
        }
    }
}

/// When every parameter is a typed identifier other than `self`, every
/// parameter becomes an argument, in the same place.
pub proof fn law_named_parameters_all_become_arguments(ps: Seq<FnParam>)
    requires
        forall|i: int| 0 <= i < ps.len() ==> is_named_param(#[trigger] ps[i]),
    ensures
        fn_args(ps).len() == ps.len(),
        forall|i: int| 0 <= i < ps.len() ==> Some(#[trigger] fn_args(ps)[i]) == param_arg(ps[i]),
    decreases ps.len(),
{
    if ps.len() > 0 {
        let init = ps.drop_last();
        assert forall|i: int| 0 <= i < init.len() implies is_named_param(#[trigger] init[i]) by {
            assert(init[i] == ps[i]);
        }
        law_named_parameters_all_become_arguments(init);
        assert(is_named_param(ps[ps.len() - 1]));
        assert forall|i: int| 0 <= i < ps.len() implies Some(#[trigger] fn_args(ps)[i]) == param_arg(ps[i]) by {
            if i < init.len() {
                assert(init[i] == ps[i]);
            }
        }
    }
}

/// The default of a parameter comes from its first attribute that gives one:
/// that attribute names `default`, and no attribute before it gives a default.
pub proof fn law_first_default_attribute_wins(attrs: Seq<AttrInfo>)
    ensures
        first_default(attrs) is None <==> forall|i: int| 0 <= i < attrs.len() ==> attr_default(#[trigger] attrs[i]) is None,
        first_default(attrs) is Some ==> exists|i: int| 0 <= i < attrs.len()
            && attr_default(#[trigger] attrs[i]) == first_default(attrs)
            && path_has(attrs[i].path@, "default"@)
            && forall|j: int| 0 <= j < i ==> attr_default(#[trigger] attrs[j]) is None,
    decreases attrs.len(),
{
    if attrs.len() > 0 {
        let rest = attrs.drop_first();
        law_first_default_attribute_wins(rest);
        assert forall|i: int| 0 < i < attrs.len() implies attrs[i] == rest[i - 1] by {}
        if attr_default(attrs[0]) is Some {
            assert(attr_default(attrs[0]) == first_default(attrs));
        } else {
            if first_default(rest) is Some {
                let k = choose|k: int| 0 <= k < rest.len()
                    && attr_default(#[trigger] rest[k]) == first_default(rest)
                    && path_has(rest[k].path@, "default"@)
                    && forall|j: int| 0 <= j < k ==> attr_default(#[trigger] rest[j]) is None;
                assert(attrs[k + 1] == rest[k]);
                assert forall|j: int| 0 <= j < k + 1 implies attr_default(#[trigger] attrs[j]) is None by {
                    if j > 0 {
                        assert(attrs[j] == rest[j - 1]);
                    }
                }
            } else {
                assert forall|i: int| 0 <= i < attrs.len() implies attr_default(#[trigger] attrs[i]) is None by {
                    if i > 0 {
                        assert(attrs[i] == rest[i - 1]);
                    }
                }
            }
        }
    }
}

/// Every typed parameter whose pattern is an identifier other than `self`
/// becomes an argument, whatever attributes it carries: the argument has that
/// name and type, the default of its first default attribute, and no default
/// when it carries no attribute.
pub proof fn law_identifier_parameter_is_an_argument(ps: Seq<FnParam>, i: int)
    requires
        0 <= i < ps.len(),
        is_named_param(ps[i]),
    ensures
        param_arg(ps[i]) is Some,
        exists|j: int| 0 <= j < fn_args(ps).len() && Some(#[trigger] fn_args(ps)[j]) == param_arg(ps[i]),
        match ps[i] {
            FnParam::Typed { pattern: ParamPattern::Ident(n), ty, attrs } => {
                &&& param_arg(ps[i]) == Some(ArgModel { name: n@, ty: ty@, default_expr: first_default(attrs@) })
                &&& attrs.len() == 0 ==> param_arg(ps[i])->0.default_expr is None
            },
            _ => true,
        },
    decreases ps.len(),
{
    let init = ps.drop_last();
    let rest = fn_args(init);
    if i == ps.len() - 1 {
        assert(ps.last() == ps[i]);
        assert(fn_args(ps)[rest.len() as int] == param_arg(ps[i])->0);
    } else {
        assert(init[i] == ps[i]);
        law_identifier_parameter_is_an_argument(init, i);
        let j = choose|j: int| 0 <= j < rest.len() && Some(#[trigger] rest[j]) == param_arg(init[i]);
        assert(fn_args(ps)[j] == rest[j]);
    }
}

} // verus!
