//! The expansion: argument struct, `Default` implementation, rewritten
//! function and calling macro, as Rust source text.

use vstd::prelude::*;
use crate::camel::{camel_case, to_camel_case};
use crate::model::{ArgInfo, ArgModel, FnItem, FnParam, ImplBlock, ImplMember, arg_models, first_receiver, find_receiver, fn_args, parse_fn_args, path_contains, path_has};
use crate::text::{join, join_strings, texts};
use crate::tokens::{default_values, defaults_ok};

verus! {

/// The name of the argument struct of a function: its CamelCase name followed
/// by `Args` (`draw_rectangle` gives `DrawRectangleArgs`).
pub open spec fn args_struct_name(fn_name: Seq<char>) -> Seq<char> {
    camel_case(fn_name) + "Args"@
}

/// The field of the argument struct that holds an argument.
pub open spec fn field_decl(a: ArgModel) -> Seq<char> {
    "pub "@ + a.name + ": "@ + a.ty
}

/// The initialisation of that field in the `Default` implementation, with the
/// given initialising expression.
pub open spec fn field_init(a: ArgModel, value: Seq<char>) -> Seq<char> {
    a.name + ": "@ + value
}

/// The read of that field out of the struct passed as `args`.
pub open spec fn field_read(a: ArgModel) -> Seq<char> {
    "args."@ + a.name
}

/// The field declarations of the arguments, in order.
pub open spec fn field_decls(args: Seq<ArgModel>) -> Seq<Seq<char>> {
    args.map_values(|a: ArgModel| field_decl(a))
}

/// The field initialisations of the arguments, in order.
pub open spec fn field_inits(args: Seq<ArgModel>, values: Seq<Seq<char>>) -> Seq<Seq<char>> {
    Seq::new(args.len(), |i: int| field_init(args[i], values[i]))
}

/// The field reads of the arguments, in order.
pub open spec fn field_reads(args: Seq<ArgModel>) -> Seq<Seq<char>> {
    args.map_values(|a: ArgModel| field_read(a))
}

/// The names of the arguments, in order.
pub open spec fn arg_names(args: Seq<ArgModel>) -> Seq<Seq<char>> {
    args.map_values(|a: ArgModel| a.name)
}

/// The argument struct, with one public field per argument in order, and its
/// `Default` implementation, which initialises each field with the
/// corresponding expression of `values`.
pub open spec fn args_struct_text(
    vis: Seq<char>,
    struct_name: Seq<char>,
    args: Seq<ArgModel>,
    values: Seq<Seq<char>>,
) -> Seq<char> {
    vis + " struct "@ + struct_name + " { "@ + join(field_decls(args), ", "@) + " }\n"@
        + "impl Default for "@ + struct_name + " { fn default() -> Self { Self { "@
        + join(field_inits(args, values), ", "@) + " } } }\n"@
}

/// The three arms of the macro that calls a function: no arguments (all
/// defaults), named arguments (each assigned over the defaults), or one
/// expression that is the argument struct itself.
pub open spec fn function_macro_arms(struct_name: Seq<char>, fn_name: Seq<char>) -> Seq<Seq<char>> {
    seq![
        "() => { "@ + fn_name + "("@ + struct_name + "::default()) };"@,
        "( $( $name:ident = $value:expr ),* $(,)? ) => { { let mut args = "@ + struct_name
            + "::default(); $( args.$name = $value; )* "@ + fn_name + "(args) } };"@,
        "( $args:expr ) => { "@ + fn_name + "($args) };"@,
    ]
}

/// The three arms of the macro that calls a method on the expression given
/// first: as for a function, with the receiver expression in front.
pub open spec fn method_macro_arms(struct_name: Seq<char>, method_name: Seq<char>) -> Seq<Seq<char>> {
    seq![
        "($self:expr) => { $self."@ + method_name + "("@ + struct_name + "::default()) };"@,
        "($self:expr, $( $name:ident = $value:expr ),* $(,)? ) => { { let mut args = "@ + struct_name
            + "::default(); $( args.$name = $value; )* $self."@ + method_name + "(args) } };"@,
        "($self:expr, $args:expr) => { $self."@ + method_name + "($args) };"@,
    ]
}

/// An exported `macro_rules!` macro with the given name and arms.
pub open spec fn macro_text(name: Seq<char>, arms: Seq<Seq<char>>) -> Seq<char> {
    "#[macro_export]\nmacro_rules! "@ + name + " { "@ + join(arms, " "@) + " }\n"@
}

/// A function rewritten to take its arguments as one struct: the parameter
/// list `params` (which ends with `args: <struct>`), the same return type, and
/// a body that first binds each argument name to the field of that name.
pub open spec fn rewritten_fn_text(
    vis: Seq<char>,
    name: Seq<char>,
    params: Seq<char>,
    output: Seq<char>,
    args: Seq<ArgModel>,
    body: Seq<char>,
) -> Seq<char> {
    "#[allow(unused_parens)]\n"@ + vis + " fn "@ + name + "("@ + params + ") "@ + output
        + " { let ("@ + join(arg_names(args), ", "@) + ") = ("@ + join(field_reads(args), ", "@)
        + "); "@ + body + " }\n"@
}

/// The expansion of `#[autoargs]` on a free function: the argument struct and
/// its `Default` implementation (with `values` as the fields' initialising
/// expressions), the rewritten function, and the macro named after the
/// function.
pub open spec fn function_expansion(f: FnItem, values: Seq<Seq<char>>) -> Seq<char> {
    let s = args_struct_name(f.name@);
    let args = fn_args(f.params@);
    args_struct_text(f.vis@, s, args, values)
        + rewritten_fn_text(f.vis@, f.name@, "args: "@ + s, f.output@, args, f.body@)
        + macro_text(f.name@, function_macro_arms(s, f.name@))
}

/// The expansion of `#[autoargs]` on a method with the given receiver: the
/// method alone, rewritten to take the receiver and then the argument struct.
pub open spec fn method_expansion(m: FnItem, receiver: Seq<char>) -> Seq<char> {
    let s = args_struct_name(m.name@);
    rewritten_fn_text(m.vis@, m.name@, receiver + ", args: "@ + s, m.output@, fn_args(m.params@), m.body@)
}

/// What `#[autoargs]` expands an item to, given the item read as a method of
/// an `impl` block (`None` when it does not read as one) and read as a free
/// function (or the compile error that reading it as one gave), with `values`
/// the initialising expressions of the free function's fields: a method with
/// a receiver gets the method expansion; anything else is expanded as a free
/// function, or becomes that compile error.
pub open spec fn autoargs_expansion(
    as_method: Option<FnItem>,
    as_function: Result<FnItem, String>,
    values: Seq<Seq<char>>,
) -> Seq<char> {
    match as_method {
        Some(m) if first_receiver(m.params@) is Some => method_expansion(m, first_receiver(m.params@)->0),
        _ => match as_function {
            Ok(f) => function_expansion(f, values),
            Err(e) => e@,
        },
    }
}

/// `r` is the expansion of a free function for some outcome of the lexer on
/// its default attributes.
pub open spec fn function_result(f: FnItem, r: Seq<char>) -> bool {
    exists|values: Seq<Seq<char>>| defaults_ok(fn_args(f.params@), values) && r == #[trigger] function_expansion(f, values)
}

/// `r` is what `#[autoargs]` expands to, for some outcome of the lexer on the
/// default attributes: for a free function, the expansion with initialising
/// expressions that the lexer could have given.
pub open spec fn autoargs_result(as_method: Option<FnItem>, as_function: Result<FnItem, String>, r: Seq<char>) -> bool {
    match as_method {
        Some(m) if first_receiver(m.params@) is Some => r == method_expansion(m, first_receiver(m.params@)->0),
        _ => match as_function {
            Ok(f) => function_result(f, r),
            Err(e) => r == e@,
        },
    }
}

/// A method carries an attribute whose path names `autoargs`.
pub open spec fn has_autoargs(m: FnItem) -> bool {
    exists|i: int| 0 <= i < m.attrs.len() && path_has((#[trigger] m.attrs@[i]).path@, "autoargs"@)
}

/// The argument struct that `#[impl_autoargs]` emits for one member, with
/// `values` as its fields' initialising expressions: that of a method marked
/// `#[autoargs]`, nothing for anything else.
pub open spec fn member_struct(mem: ImplMember, values: Seq<Seq<char>>) -> Seq<char> {
    match mem {
        ImplMember::Method(m) => if has_autoargs(m) {
            args_struct_text(m.vis@, args_struct_name(m.name@), fn_args(m.params@), values)
        } else {
            Seq::empty()
        },
        ImplMember::Other => Seq::empty(),
    }
}

/// The calling macro that `#[impl_autoargs]` emits for one member: that of a
/// method marked `#[autoargs]` that has a receiver, nothing otherwise.
pub open spec fn member_macro(mem: ImplMember) -> Seq<char> {
    match mem {
        ImplMember::Method(m) => if has_autoargs(m) && first_receiver(m.params@) is Some {
            macro_text(m.name@, method_macro_arms(args_struct_name(m.name@), m.name@))
        } else {
            Seq::empty()
        },
        ImplMember::Other => Seq::empty(),
    }
}

/// The argument structs that `#[impl_autoargs]` emits for the members of an
/// `impl` block, `vals[i]` giving the initialising expressions of member
/// `i`: one per method marked `#[autoargs]`, in order.
pub open spec fn impl_structs(ms: Seq<ImplMember>, vals: Seq<Seq<Seq<char>>>) -> Seq<char>
    decreases ms.len(),
{
    if ms.len() == 0 {
        Seq::empty()
    } else {
        impl_structs(ms.drop_last(), vals.drop_last()) + member_struct(ms.last(), vals.last())
    }
}

/// The calling macros that `#[impl_autoargs]` emits: one per method marked
/// `#[autoargs]` that has a receiver, in order.
pub open spec fn impl_macros(ms: Seq<ImplMember>) -> Seq<char>
    decreases ms.len(),
{
    if ms.len() == 0 {
        Seq::empty()
    } else {
        impl_macros(ms.drop_last()) + member_macro(ms.last())
    }
}

/// The expansion of `#[impl_autoargs]`: the argument structs, the calling
/// macros, then the `impl` block itself, unchanged.
pub open spec fn impl_expansion(imp: ImplBlock, vals: Seq<Seq<Seq<char>>>) -> Seq<char> {
    impl_structs(imp.members@, vals) + impl_macros(imp.members@) + imp.text@
}

/// `vals` holds, for each member that is a method, one initialising
/// expression per argument of that method.
pub open spec fn impl_defaults_ok(ms: Seq<ImplMember>, vals: Seq<Seq<Seq<char>>>) -> bool {
    &&& vals.len() == ms.len()
    &&& forall|i: int| 0 <= i < ms.len() ==> match #[trigger] ms[i] {
        ImplMember::Method(m) => defaults_ok(fn_args(m.params@), vals[i]),
        ImplMember::Other => true,
    }
}

/// `r` is what `#[impl_autoargs]` expands to, for some outcome of the lexer
/// on the default attributes.
pub open spec fn impl_result(imp: ImplBlock, r: Seq<char>) -> bool {
    exists|vals: Seq<Seq<Seq<char>>>| impl_defaults_ok(imp.members@, vals) && r == #[trigger] impl_expansion(imp, vals)
}

/// The texts held by a vector of vectors of strings.
pub open spec fn text_lists(v: Seq<Vec<String>>) -> Seq<Seq<Seq<char>>> {
    v.map_values(|w: Vec<String>| texts(w@))
}

/// The per-argument texts of an argument list.
pub struct FieldTexts {
    pub decls: Vec<String>,
    pub names: Vec<String>,
    pub reads: Vec<String>,
}

/// The field declaration, name and field read of each argument, in order.
pub fn field_texts(args: &Vec<ArgInfo>) -> (r: FieldTexts)
    ensures
        texts(r.decls@) == field_decls(arg_models(args@)),
        texts(r.names@) == arg_names(arg_models(args@)),
        texts(r.reads@) == field_reads(arg_models(args@)),
{
    let mut decls: Vec<String> = Vec::new();
    let mut names: Vec<String> = Vec::new();
    let mut reads: Vec<String> = Vec::new();
    let n = args.len();
    let mut i: usize = 0;
    while i < n
        invariant
            n == args.len(),
            i <= n,
            decls.len() == i,
            names.len() == i,
            reads.len() == i,
            forall|j: int| 0 <= j < i ==> (#[trigger] decls@[j])@ == field_decl(args@[j]@),
            forall|j: int| 0 <= j < i ==> (#[trigger] names@[j])@ == args@[j]@.name,
            forall|j: int| 0 <= j < i ==> (#[trigger] reads@[j])@ == field_read(args@[j]@),
        decreases n - i,
    {
        let a = &args[i];
        let mut decl = String::from_str("pub ");
        decl.append(a.name.as_str());
        decl.append(": ");
        decl.append(a.ty.as_str());
        let mut read = String::from_str("args.");
        read.append(a.name.as_str());
        decls.push(decl);
        names.push(a.name.clone());
        reads.push(read);
        i = i + 1;
    }
    let ghost m = arg_models(args@);
    assert(texts(decls@) =~= field_decls(m));
    assert(texts(names@) =~= arg_names(m));
    assert(texts(reads@) =~= field_reads(m));
    FieldTexts { decls, names, reads }
}

/// The field initialisations of the arguments, with the given initialising
/// expressions.
pub fn field_init_texts(args: &Vec<ArgInfo>, values: &Vec<String>) -> (r: Vec<String>)
    requires
        values.len() == args.len(),
    ensures
        texts(r@) == field_inits(arg_models(args@), texts(values@)),
{
    let mut inits: Vec<String> = Vec::new();
    let n = args.len();
    let mut i: usize = 0;
    while i < n
        invariant
            n == args.len(),
            n == values.len(),
            i <= n,
            inits.len() == i,
            forall|j: int| 0 <= j < i ==> (#[trigger] inits@[j])@ == field_init(args@[j]@, values@[j]@),
        decreases n - i,
    {
        let mut init = args[i].name.clone();
        init.append(": ");
        init.append(values[i].as_str());
        inits.push(init);
        i = i + 1;
    }
    assert(texts(inits@) =~= field_inits(arg_models(args@), texts(values@)));
    inits
}

/// The name of the argument struct of the named function.
pub fn struct_name_for(fn_name: &str) -> (r: String)
    ensures
        r@ == args_struct_name(fn_name@),
{
    let mut s = to_camel_case(fn_name);
    s.append("Args");
    s
}

/// The argument struct with the given visibility and name for the given
/// arguments, and its `Default` implementation with the given initialising
/// expressions.
pub fn args_struct_for(vis: &str, struct_name: &str, args: &Vec<ArgInfo>, values: &Vec<String>) -> (r: String)
    requires
        values.len() == args.len(),
    ensures
        r@ == args_struct_text(vis@, struct_name@, arg_models(args@), texts(values@)),
{
    let ft = field_texts(args);
    let init_list = field_init_texts(args, values);
    let decls = join_strings(&ft.decls, ", ");
    let inits = join_strings(&init_list, ", ");
    let mut out = String::from_str(vis);
    out.append(" struct ");
    out.append(struct_name);
    out.append(" { ");
    out.append(decls.as_str());
    out.append(" }\n");
    out.append("impl Default for ");
    out.append(struct_name);
    out.append(" { fn default() -> Self { Self { ");
    out.append(inits.as_str());
    out.append(" } } }\n");
    assert(out@ =~= args_struct_text(vis@, struct_name@, arg_models(args@), texts(values@)));
    out
}

/// The argument struct of a method or function, named after it and with its
/// visibility, and the struct's `Default` implementation, whose initialising
/// expressions come from lexing the default attributes.
pub fn generate_args_struct(method_name: &str, inputs: &Vec<FnParam>, visibility: &str) -> (r: String)
    ensures
        exists|values: Seq<Seq<char>>| defaults_ok(fn_args(inputs@), values)
            && r@ == #[trigger] args_struct_text(visibility@, args_struct_name(method_name@), fn_args(inputs@), values),
{
    let args = parse_fn_args(inputs);
    let values = default_values(&args);
    let name = struct_name_for(method_name);
    let r = args_struct_for(visibility, name.as_str(), &args, &values);
    assert(defaults_ok(fn_args(inputs@), texts(values@)));
    r
}

/// The argument struct of a method or function and its `Default`
/// implementation, with the given initialising expressions for the fields.
pub fn generate_args_struct_with(
    method_name: &str,
    inputs: &Vec<FnParam>,
    visibility: &str,
    values: &Vec<String>,
) -> (r: String)
    requires
        values.len() == fn_args(inputs@).len(),
    ensures
        r@ == args_struct_text(visibility@, args_struct_name(method_name@), fn_args(inputs@), texts(values@)),
{
    let args = parse_fn_args(inputs);
    let name = struct_name_for(method_name);
    args_struct_for(visibility, name.as_str(), &args, values)
}

/// The arms of the macro that calls a free function.
pub fn generate_function_macro_arms(struct_name: &str, fn_name: &str) -> (r: Vec<String>)
    ensures
        texts(r@) == function_macro_arms(struct_name@, fn_name@),
{
    let mut base = String::from_str("() => { ");
    base.append(fn_name);
    base.append("(");
    base.append(struct_name);
    base.append("::default()) };");
    let mut named = String::from_str("( $( $name:ident = $value:expr ),* $(,)? ) => { { let mut args = ");
    named.append(struct_name);
    named.append("::default(); $( args.$name = $value; )* ");
    named.append(fn_name);
    named.append("(args) } };");
    let mut whole = String::from_str("( $args:expr ) => { ");
    whole.append(fn_name);
    whole.append("($args) };");
    let mut r: Vec<String> = Vec::new();
    r.push(base);
    r.push(named);
    r.push(whole);
    assert(texts(r@) =~= function_macro_arms(struct_name@, fn_name@));
    r
}

/// The arms of the macro that calls a method.
pub fn generate_method_macro_arms(struct_name: &str, method_name: &str) -> (r: Vec<String>)
    ensures
        texts(r@) == method_macro_arms(struct_name@, method_name@),
{
    let mut base = String::from_str("($self:expr) => { $self.");
    base.append(method_name);
    base.append("(");
    base.append(struct_name);
    base.append("::default()) };");
    let mut named = String::from_str("($self:expr, $( $name:ident = $value:expr ),* $(,)? ) => { { let mut args = ");
    named.append(struct_name);
    named.append("::default(); $( args.$name = $value; )* $self.");
    named.append(method_name);
    named.append("(args) } };");
    let mut whole = String::from_str("($self:expr, $args:expr) => { $self.");
    whole.append(method_name);
    whole.append("($args) };");
    let mut r: Vec<String> = Vec::new();
    r.push(base);
    r.push(named);
    r.push(whole);
    assert(texts(r@) =~= method_macro_arms(struct_name@, method_name@));
    r
}

/// An exported macro with the given name and arms.
pub fn macro_rules_text(name: &str, arms: &Vec<String>) -> (r: String)
    ensures
        r@ == macro_text(name@, texts(arms@)),
{
    let body = join_strings(arms, " ");
    let mut out = String::from_str("#[macro_export]\nmacro_rules! ");
    out.append(name);
    out.append(" { ");
    out.append(body.as_str());
    out.append(" }\n");
    assert(out@ =~= macro_text(name@, texts(arms@)));
    out
}

/// A function rewritten to take its arguments as one struct.
pub fn rewritten_fn(
    vis: &str,
    name: &str,
    params: &str,
    output: &str,
    args: &Vec<ArgInfo>,
    body: &str,
) -> (r: String)
    ensures
        r@ == rewritten_fn_text(vis@, name@, params@, output@, arg_models(args@), body@),
{
    let ft = field_texts(args);
    let names = join_strings(&ft.names, ", ");
    let reads = join_strings(&ft.reads, ", ");
    let mut out = String::from_str("#[allow(unused_parens)]\n");
    out.append(vis);
    out.append(" fn ");
    out.append(name);
    out.append("(");
    out.append(params);
    out.append(") ");
    out.append(output);
    out.append(" { let (");
    out.append(names.as_str());
    out.append(") = (");
    out.append(reads.as_str());
    out.append("); ");
    out.append(body);
    out.append(" }\n");
    assert(out@ =~= rewritten_fn_text(vis@, name@, params@, output@, arg_models(args@), body@));
    out
}

/// The expansion of `#[autoargs]` on a free function, with the given
/// initialising expressions for the fields.
pub fn expand_function_with(f: &FnItem, values: &Vec<String>) -> (r: String)
    requires
        values.len() == fn_args(f.params@).len(),
    ensures
        r@ == function_expansion(*f, texts(values@)),
{
    let args = parse_fn_args(&f.params);
    let s = struct_name_for(f.name.as_str());
    let mut out = args_struct_for(f.vis.as_str(), s.as_str(), &args, values);
    let mut params = String::from_str("args: ");
    params.append(s.as_str());
    let func = rewritten_fn(f.vis.as_str(), f.name.as_str(), params.as_str(), f.output.as_str(), &args, f.body.as_str());
    out.append(func.as_str());
    let arms = generate_function_macro_arms(s.as_str(), f.name.as_str());
    let mac = macro_rules_text(f.name.as_str(), &arms);
    out.append(mac.as_str());
    assert(out@ =~= function_expansion(*f, texts(values@)));
    out
}

/// The expansion of `#[autoargs]` on a free function, the initialising
/// expressions coming from lexing the default attributes.
pub fn expand_function(f: &FnItem) -> (r: String)
    ensures
        function_result(*f, r@),
{
    let args = parse_fn_args(&f.params);
    let values = default_values(&args);
    let r = expand_function_with(f, &values);
    assert(defaults_ok(fn_args(f.params@), texts(values@)));
    r
}

/// The expansion of `#[autoargs]` on a method with the given receiver.
pub fn expand_method(m: &FnItem, receiver: &str) -> (r: String)
    ensures
        r@ == method_expansion(*m, receiver@),
{
    let args = parse_fn_args(&m.params);
    let s = struct_name_for(m.name.as_str());
    let mut params = String::from_str(receiver);
    params.append(", args: ");
    params.append(s.as_str());
    rewritten_fn(m.vis.as_str(), m.name.as_str(), params.as_str(), m.output.as_str(), &args, m.body.as_str())
}

/// `#[autoargs]`: expands an item that reads as a method with a receiver into
/// the rewritten method; otherwise expands it as a free function, or gives
/// the compile error of reading it as one.
pub fn autoargs(as_method: Option<FnItem>, as_function: Result<FnItem, String>) -> (r: String)
    ensures
        autoargs_result(as_method, as_function, r@),
{
    if let Some(m) = &as_method {
        if let Some(receiver) = find_receiver(&m.params) {
            return expand_method(m, receiver.as_str());
        }
    }
    match as_function {
        Ok(f) => expand_function(&f),
        Err(e) => e,
    }
}

/// Whether a method carries an attribute whose path names `autoargs`.
pub fn is_autoargs_method(m: &FnItem) -> (r: bool)
    ensures
        r == has_autoargs(*m),
{
    let n = m.attrs.len();
    let mut i: usize = 0;
    while i < n
        invariant
            n == m.attrs.len(),
            i <= n,
            forall|j: int| 0 <= j < i ==> !path_has((#[trigger] m.attrs@[j]).path@, "autoargs"@),
        decreases n - i,
    {
        if path_contains(&m.attrs[i].path, "autoargs") {
            return true;
        }
        i = i + 1;
    }
    false
}

/// `vals` holds, for each member that is a method, one expression per
/// argument of that method.
pub open spec fn impl_values_fit(ms: Seq<ImplMember>, vals: Seq<Vec<String>>) -> bool {
    &&& vals.len() == ms.len()
    &&& forall|i: int| 0 <= i < ms.len() ==> match #[trigger] ms[i] {
        ImplMember::Method(m) => vals[i].len() == fn_args(m.params@).len(),
        ImplMember::Other => true,
    }
}

/// `#[impl_autoargs]` with the given initialising expressions (`vals[i]` for
/// member `i`): the argument struct of each method marked `#[autoargs]`, the
/// calling macro of each such method with a receiver, and then the `impl`
/// block unchanged.
pub fn impl_autoargs_with(imp: &ImplBlock, vals: &Vec<Vec<String>>) -> (r: String)
    requires
        impl_values_fit(imp.members@, vals@),
    ensures
        r@ == impl_expansion(*imp, text_lists(vals@)),
{
    let ghost all = text_lists(vals@);
    let mut structs = String::new();
    let mut macros = String::new();
    let n = imp.members.len();
    let mut i: usize = 0;
    while i < n
        invariant
            n == imp.members.len(),
            i <= n,
            impl_values_fit(imp.members@, vals@),
            all == text_lists(vals@),
            structs@ == impl_structs(imp.members@.take(i as int), all.take(i as int)),
            macros@ == impl_macros(imp.members@.take(i as int)),
        decreases n - i,
    {
        let ghost prefix = imp.members@.take(i + 1);
        let ghost vprefix = all.take(i + 1);
        assert(prefix.drop_last() =~= imp.members@.take(i as int));
        assert(vprefix.drop_last() =~= all.take(i as int));
        assert(prefix.last() == imp.members@[i as int]);
        assert(vprefix.last() == texts(vals@[i as int]@));
        match &imp.members[i] {
            ImplMember::Method(m) => {
                assert(imp.members@[i as int] is Method);
                if is_autoargs_method(m) {
                    let args = parse_fn_args(&m.params);
                    let s = struct_name_for(m.name.as_str());
                    let st = args_struct_for(m.vis.as_str(), s.as_str(), &args, &vals[i]);
                    structs.append(st.as_str());
                    if let Some(_receiver) = find_receiver(&m.params) {
                        let arms = generate_method_macro_arms(s.as_str(), m.name.as_str());
                        let mac = macro_rules_text(m.name.as_str(), &arms);
                        macros.append(mac.as_str());
                    } else {
                        assert(macros@ =~= impl_macros(prefix));
                    }
                } else {
                    assert(structs@ =~= impl_structs(prefix, vprefix));
                    assert(macros@ =~= impl_macros(prefix));
                }
            },
            ImplMember::Other => {
                assert(structs@ =~= impl_structs(prefix, vprefix));
                assert(macros@ =~= impl_macros(prefix));
            },
        }
        i = i + 1;
    }
    assert(imp.members@.take(n as int) =~= imp.members@);
    assert(all.take(n as int) =~= all);
    let mut out = structs;
    out.append(macros.as_str());
    out.append(imp.text.as_str());
    out
}

/// `#[impl_autoargs]`: as [`impl_autoargs_with`], the initialising expressions
/// coming from lexing the default attributes.
pub fn impl_autoargs(imp: &ImplBlock) -> (r: String)
    ensures
        impl_result(*imp, r@),
{
    let mut vals: Vec<Vec<String>> = Vec::new();
    let n = imp.members.len();
    let mut i: usize = 0;
    while i < n
        invariant
            n == imp.members.len(),
            i <= n,
            vals.len() == i,
            forall|j: int| 0 <= j < i ==> match #[trigger] imp.members@[j] {
                ImplMember::Method(m) => defaults_ok(fn_args(m.params@), texts(vals@[j]@)),
                ImplMember::Other => true,
            },
        decreases n - i,
    {
        match &imp.members[i] {
            ImplMember::Method(m) => {
                let args = parse_fn_args(&m.params);
                vals.push(default_values(&args));
            },
            ImplMember::Other => {
                vals.push(Vec::new());
            },
        }
        i = i + 1;
    }
    let ghost all = text_lists(vals@);
    assert forall|j: int| 0 <= j < imp.members@.len() implies match #[trigger] imp.members@[j] {
        ImplMember::Method(m) => defaults_ok(fn_args(m.params@), all[j]) && vals@[j].len() == fn_args(m.params@).len(),
        ImplMember::Other => true,
    } by {
        assert(all[j] == texts(vals@[j]@));
    }
    assert(impl_values_fit(imp.members@, vals@));
    assert(impl_defaults_ok(imp.members@, all));
    impl_autoargs_with(imp, &vals)
}

/// `#[default = "..."]` as an attribute of its own: the item is left as it is.
pub fn default(attr: &str, item: &str) -> (r: String)
    ensures
        r@ == item@,
{
    String::from_str(item)
}

proof fn lemma_impl_pieces_contained(ms: Seq<ImplMember>, vals: Seq<Seq<Seq<char>>>, i: int)
    requires
        0 <= i < ms.len(),
        vals.len() == ms.len(),
    ensures
        exists|pre: Seq<char>, post: Seq<char>| impl_structs(ms, vals) == pre + member_struct(ms[i], vals[i]) + post,
        exists|pre: Seq<char>, post: Seq<char>| impl_macros(ms) == pre + member_macro(ms[i]) + post,
    decreases ms.len(),
{
    let init = ms.drop_last();
    let vinit = vals.drop_last();
    assert(impl_structs(ms, vals) == impl_structs(init, vinit) + member_struct(ms.last(), vals.last()));
    assert(impl_macros(ms) == impl_macros(init) + member_macro(ms.last()));
    if i == ms.len() - 1 {
        let e = Seq::<char>::empty();
        assert(impl_structs(ms, vals) == impl_structs(init, vinit) + member_struct(ms[i], vals[i]) + e);
        assert(impl_macros(ms) == impl_macros(init) + member_macro(ms[i]) + e);
    } else {
        lemma_impl_pieces_contained(init, vinit, i);
        assert(init[i] == ms[i]);
        assert(vinit[i] == vals[i]);
        let (pre, post) = choose|pre: Seq<char>, post: Seq<char>|
            impl_structs(init, vinit) == pre + member_struct(init[i], vinit[i]) + post;
        assert(impl_structs(ms, vals) =~= pre + member_struct(ms[i], vals[i]) + (post + member_struct(ms.last(), vals.last())));
        let (pre2, post2) = choose|pre: Seq<char>, post: Seq<char>|
            impl_macros(init) == pre + member_macro(init[i]) + post;
        assert(impl_macros(ms) =~= pre2 + member_macro(ms[i]) + (post2 + member_macro(ms.last())));
    }
}

/// For a method marked `#[autoargs]` with a receiver inside an `impl` block
/// marked `#[impl_autoargs]`, the two expansions fit together, whatever the
/// initialising expressions: `#[impl_autoargs]` emits the method's argument
/// struct (named after the method, with its visibility and arguments) and its
/// calling macro, and `#[autoargs]` rewrites the method to take that very
/// struct after its receiver.
pub proof fn law_impl_and_method_expansions_agree(
    imp: ImplBlock,
    vals: Seq<Seq<Seq<char>>>,
    i: int,
    as_function: Result<FnItem, String>,
    values: Seq<Seq<char>>,
)
    requires
        0 <= i < imp.members.len(),
        vals.len() == imp.members.len(),
        imp.members@[i] is Method,
        has_autoargs(imp.members@[i]->Method_0),
        first_receiver((imp.members@[i]->Method_0).params@) is Some,
    ensures
        ({
            let m = imp.members@[i]->Method_0;
            let s = args_struct_name(m.name@);
            &&& exists|pre: Seq<char>, post: Seq<char>|
                impl_expansion(imp, vals) == pre + args_struct_text(m.vis@, s, fn_args(m.params@), vals[i]) + post
            &&& exists|pre: Seq<char>, post: Seq<char>|
                impl_expansion(imp, vals) == pre + macro_text(m.name@, method_macro_arms(s, m.name@)) + post
            &&& autoargs_expansion(Some(m), as_function, values) == rewritten_fn_text(
                m.vis@,
                m.name@,
                first_receiver(m.params@)->0 + ", args: "@ + s,
                m.output@,
                fn_args(m.params@),
                m.body@,
            )
        }),
{
    let ms = imp.members@;
    let m = ms[i]->Method_0;
    let s = args_struct_name(m.name@);
    lemma_impl_pieces_contained(ms, vals, i);
    let (pre, post) = choose|pre: Seq<char>, post: Seq<char>| impl_structs(ms, vals) == pre + member_struct(ms[i], vals[i]) + post;
    assert(member_struct(ms[i], vals[i]) == args_struct_text(m.vis@, s, fn_args(m.params@), vals[i]));
    assert(impl_expansion(imp, vals) =~= pre + args_struct_text(m.vis@, s, fn_args(m.params@), vals[i]) + (post + impl_macros(ms) + imp.text@));
    let (pre2, post2) = choose|pre: Seq<char>, post: Seq<char>| impl_macros(ms) == pre + member_macro(ms[i]) + post;
    assert(member_macro(ms[i]) == macro_text(m.name@, method_macro_arms(s, m.name@)));
    assert(impl_expansion(imp, vals) =~= (impl_structs(ms, vals) + pre2) + macro_text(m.name@, method_macro_arms(s, m.name@)) + (post2 + imp.text@));
}

/// With the same initialising expressions, the expansion of `#[autoargs]`
/// on a free function begins with exactly the argument struct and `Default`
/// implementation that `generate_args_struct` builds for the function's name,
/// parameters and visibility.
pub proof fn law_function_expansion_begins_with_args_struct(f: FnItem, values: Seq<Seq<char>>)
    ensures
        exists|rest: Seq<char>| #[trigger] function_expansion(f, values)
            == args_struct_text(f.vis@, args_struct_name(f.name@), fn_args(f.params@), values) + rest,
{
    let s = args_struct_name(f.name@);
    let args = fn_args(f.params@);
    let rest = rewritten_fn_text(f.vis@, f.name@, "args: "@ + s, f.output@, args, f.body@)
        + macro_text(f.name@, function_macro_arms(s, f.name@));
    assert(function_expansion(f, values) =~= args_struct_text(f.vis@, s, args, values) + rest);
}

/// The structs and macros that `#[impl_autoargs]` emits depend on the
/// members alone: two `impl` blocks with the same members (as two blocks that
/// differ only in their self type) get the same ones, with the same
/// initialising expressions, and differ only in the block that follows.
pub proof fn law_impl_prefix_depends_on_members_only(imp1: ImplBlock, imp2: ImplBlock, vals: Seq<Seq<Seq<char>>>)
    requires
        imp1.members@ == imp2.members@,
    ensures
        exists|prefix: Seq<char>|
            #[trigger] impl_expansion(imp1, vals) == prefix + imp1.text@
            && impl_expansion(imp2, vals) == prefix + imp2.text@,
{
    let prefix = impl_structs(imp1.members@, vals) + impl_macros(imp1.members@);
    assert(impl_expansion(imp1, vals) == prefix + imp1.text@);
    assert(impl_expansion(imp2, vals) == prefix + imp2.text@);
}

/// A method is marked for expansion as soon as one of its attributes, at any
/// position among them, names `autoargs`: attributes before it (a doc
/// comment, say) do not matter.
pub proof fn law_autoargs_marker_at_any_position(m: FnItem, j: int)
    requires
        0 <= j < m.attrs.len(),
        path_has(m.attrs@[j].path@, "autoargs"@),
    ensures
        has_autoargs(m),
{
    assert(path_has((m.attrs@[j]).path@, "autoargs"@));
}

/// A method none of whose attributes names `autoargs` is not marked.
pub proof fn law_unmarked_without_autoargs_attribute(m: FnItem)
    requires
        forall|j: int| 0 <= j < m.attrs.len() ==> !path_has((#[trigger] m.attrs@[j]).path@, "autoargs"@),
    ensures
        !has_autoargs(m),
{
}

/// In an `impl` block, a method one of whose attributes (at any position)
/// names `autoargs` gets its argument struct in the expansion, and, when it
/// has a receiver, its calling macro.
pub proof fn law_marked_method_gets_struct_and_macro(imp: ImplBlock, vals: Seq<Seq<Seq<char>>>, i: int, j: int)
    requires
        0 <= i < imp.members.len(),
        vals.len() == imp.members.len(),
        imp.members@[i] is Method,
        0 <= j < (imp.members@[i]->Method_0).attrs.len(),
        path_has((imp.members@[i]->Method_0).attrs@[j].path@, "autoargs"@),
    ensures
        ({
            let m = imp.members@[i]->Method_0;
            let s = args_struct_name(m.name@);
            &&& exists|pre: Seq<char>, post: Seq<char>|
                impl_expansion(imp, vals) == pre + args_struct_text(m.vis@, s, fn_args(m.params@), vals[i]) + post
            &&& first_receiver(m.params@) is Some ==> exists|pre: Seq<char>, post: Seq<char>|
                impl_expansion(imp, vals) == pre + macro_text(m.name@, method_macro_arms(s, m.name@)) + post
        }),
{
    let ms = imp.members@;
    let m = ms[i]->Method_0;
    let s = args_struct_name(m.name@);
    law_autoargs_marker_at_any_position(m, j);
    lemma_impl_pieces_contained(ms, vals, i);
    let (pre, post) = choose|pre: Seq<char>, post: Seq<char>| impl_structs(ms, vals) == pre + member_struct(ms[i], vals[i]) + post;
    assert(member_struct(ms[i], vals[i]) == args_struct_text(m.vis@, s, fn_args(m.params@), vals[i]));
    assert(impl_expansion(imp, vals) =~= pre + args_struct_text(m.vis@, s, fn_args(m.params@), vals[i]) + (post + impl_macros(ms) + imp.text@));
    if first_receiver(m.params@) is Some {
        let (pre2, post2) = choose|pre: Seq<char>, post: Seq<char>| impl_macros(ms) == pre + member_macro(ms[i]) + post;
        assert(member_macro(ms[i]) == macro_text(m.name@, method_macro_arms(s, m.name@)));
        assert(impl_expansion(imp, vals) =~= (impl_structs(ms, vals) + pre2) + macro_text(m.name@, method_macro_arms(s, m.name@)) + (post2 + imp.text@));
    }
}

/// The expansion of a free function keeps its visibility: it starts with the
/// function's visibility before `struct`, and the rewritten function that it
/// holds has the same visibility before `fn`, its name, the single parameter
/// `args` of the argument struct, and the same return type.
pub proof fn law_function_expansion_keeps_visibility(f: FnItem, values: Seq<Seq<char>>)
    ensures
        exists|rest: Seq<char>| #[trigger] function_expansion(f, values) == f.vis@ + " struct "@ + rest,
        exists|a: Seq<char>, b: Seq<char>| #[trigger] function_expansion(f, values) == a + ("#[allow(unused_parens)]\n"@ + f.vis@
            + " fn "@ + f.name@ + "("@ + "args: "@ + args_struct_name(f.name@) + ") "@ + f.output@) + b,
{
    let s = args_struct_name(f.name@);
    let args = fn_args(f.params@);
    let st = args_struct_text(f.vis@, s, args, values);
    let rw = rewritten_fn_text(f.vis@, f.name@, "args: "@ + s, f.output@, args, f.body@);
    let mac = macro_text(f.name@, function_macro_arms(s, f.name@));
    assert(function_expansion(f, values) == st + rw + mac);
    let x = s + " { "@ + join(field_decls(args), ", "@) + " }\n"@
        + "impl Default for "@ + s + " { fn default() -> Self { Self { "@
        + join(field_inits(args, values), ", "@) + " } } }\n"@;
    assert(st =~= f.vis@ + " struct "@ + x);
    assert(function_expansion(f, values) =~= f.vis@ + " struct "@ + (x + rw + mac));
    let head = "#[allow(unused_parens)]\n"@ + f.vis@ + " fn "@ + f.name@ + "("@ + "args: "@ + s + ") "@ + f.output@;
    let tail = " { let ("@ + join(arg_names(args), ", "@) + ") = ("@ + join(field_reads(args), ", "@)
        + "); "@ + f.body@ + " }\n"@;
    assert(rw =~= head + tail);
    assert(function_expansion(f, values) =~= st + head + (tail + mac));
    assert(function_expansion(f, values) == st + ("#[allow(unused_parens)]\n"@ + f.vis@
        + " fn "@ + f.name@ + "("@ + "args: "@ + s + ") "@ + f.output@) + (tail + mac));
}

/// An item that reads as a method with a receiver expands to the method alone,
/// whatever its visibility and whatever its reading as a free function: the
/// rewritten method keeps the visibility, the name and the return type, and its
/// parameters are the receiver followed by `args` of the argument struct.
pub proof fn law_method_with_receiver_is_rewritten(
    m: FnItem,
    as_function: Result<FnItem, String>,
    r: Seq<char>,
)
    requires
        first_receiver(m.params@) is Some,
        autoargs_result(Some(m), as_function, r),
    ensures
        exists|b: Seq<char>| r == "#[allow(unused_parens)]\n"@ + m.vis@ + " fn "@ + m.name@ + "("@
            + first_receiver(m.params@)->0 + ", args: "@ + args_struct_name(m.name@) + ") "@ + m.output@ + #[trigger] (b + Seq::<char>::empty()),
{
    let args = fn_args(m.params@);
    let b = " { let ("@ + join(arg_names(args), ", "@) + ") = ("@ + join(field_reads(args), ", "@)
        + "); "@ + m.body@ + " }\n"@;
    assert(b + Seq::<char>::empty() =~= b);
    assert(r =~= "#[allow(unused_parens)]\n"@ + m.vis@ + " fn "@ + m.name@ + "("@
        + first_receiver(m.params@)->0 + ", args: "@ + args_struct_name(m.name@) + ") "@ + m.output@ + (b + Seq::<char>::empty()));
}

/// Each field of the argument struct is initialised with its own expression:
/// field `i`'s initialisation is its name and `values[i]`, and a field whose
/// parameter has no default attribute gets `Default::default()`.
pub proof fn law_each_field_takes_its_own_default(args: Seq<ArgModel>, values: Seq<Seq<char>>, i: int)
    requires
        defaults_ok(args, values),
        0 <= i < args.len(),
    ensures
        field_inits(args, values)[i] == args[i].name + ": "@ + values[i],
        args[i].default_expr is None ==> values[i] == "Default::default()"@,
{
    assert(crate::tokens::default_outcome(args[i].default_expr, values[i]));
    if args[i].default_expr is None {
        let (lexed, literal) = choose|lexed: Option<Seq<char>>, literal: Seq<char>|
            values[i] == #[trigger] crate::tokens::default_value(args[i].default_expr, lexed, literal);
    }
}

} // verus!
