//! The typed generator: safe wrapper functions over a table of
//! function-pointer slots that are filled on demand.

use vstd::prelude::*;
use vstd::string::*;
use crate::error::GenerationError;
use crate::generators::templates::{
    ARROW, BODY_END, BODY_HEAD, CALL_END, CALL_HEAD, CALL_SLOT, CALL_STORAGE, CLOSE, COMMA,
    FALLBACKS_HEAD, FNPTR_STRUCT, FN_HEAD, HEADER, INDENT, INDENTED_NEWLINE, LIST_CLOSE,
    LIST_OPEN, LOADER_END, LOADER_FALLBACKS, LOADER_HEAD, LOADER_LOAD, LOADER_STORE, LOADER_USES,
    LOAD_CALL_END, LOAD_FN_END, LOAD_FN_HEAD, METALOADFN, NO_FALLBACKS, OPEN, QUOTE, REFERENCE,
    SLOT_END, SLOT_HEAD, STORAGE_END, STORAGE_HEAD, STUB_END, STUB_HEAD, TRACE_FORMAT,
    TRACE_INIT_END, TRACE_INIT_HEAD, TRACE_INIT_MID, TRACE_PRINT, TRACE_PRINT_RESULT_END,
    TRACE_PRINT_RESULT_HEAD, TYPES_END, TYPES_HEAD, TYPES_PREFIX,
};
use crate::generators::{
    enum_item_text, gen_enum_item, gen_parameters, gen_symbol_name, gen_types, parameter_texts,
    symbol_name, types_text, Generator, NEWLINE,
};
use crate::registry::{
    fallbacks_of, find_fallbacks, registry_fault, AliasEntry, AliasView, Api, Binding,
    BindingView, Cmd, CmdView, EnumView, Registry, RegistryView,
};
use crate::rules::{
    conversion_of, is_projected, is_return_type, projection_of, standard_rules, unambiguous,
    ConversionRuleView, ProjectionRuleView, RuleSet, RuleSetView, CMD_KEY, PARAM_KEY,
};
use crate::text::{
    join, joined, lemma_appended, lemma_deep_view_push, mentions, mentions_word, replace_all,
    replaced, same_text,
};

verus! {

/// The generator of typed wrappers over global slots.
#[derive(Clone, Copy, Debug, PartialEq, Eq)]
pub struct GlobalTypedGenerator;

/// The empty native return type: that of a command that returns nothing.
pub const UNIT: &'static str = "()";

/// The local that holds what the native call returned.
pub const RESULT_NAME: &'static str = "func_retv";

/// What follows a parameter's name in the local that holds its value.
pub const RESULT_SUFFIX: &'static str = "_ret";

/// Whether a command with the native return type `ty` returns a value.
pub open spec fn returns_value(ty: Seq<char>) -> bool {
    ty != UNIT@
}

/// How many of `params` match a projection rule.
pub open spec fn projection_count(params: Seq<BindingView>, rules: RuleSetView) -> nat
    decreases params.len(),
{
    if params.len() == 0 {
        0
    } else {
        projection_count(params.drop_last(), rules) + if is_projected(rules, params.last().ty) {
            1nat
        } else {
            0nat
        }
    }
}

/// The parameters that stay inputs: those that match no projection rule, in
/// their order.
pub open spec fn kept_params(params: Seq<BindingView>, rules: RuleSetView) -> Seq<BindingView>
    decreases params.len(),
{
    if params.len() == 0 {
        Seq::empty()
    } else if is_projected(rules, params.last().ty) {
        kept_params(params.drop_last(), rules)
    } else {
        kept_params(params.drop_last(), rules).push(params.last())
    }
}

/// One parameter with the surface type of its conversion rule, or as it is
/// where no rule matches.
pub open spec fn rustified_param(p: BindingView, rules: RuleSetView) -> BindingView {
    match conversion_of(rules, p.ty) {
        Some(rule) => BindingView { ident: p.ident, ty: rule.surface },
        None => p,
    }
}

/// The parameters with converted types replaced by their surface types.
pub open spec fn rustified_params(params: Seq<BindingView>, rules: RuleSetView) -> Seq<
    BindingView,
> {
    Seq::new(params.len(), |i: int| rustified_param(params[i], rules))
}

/// The parameters of the wrapper: projected ones removed, converted ones
/// with their surface types.
pub open spec fn surface_params(params: Seq<BindingView>, rules: RuleSetView) -> Seq<BindingView> {
    rustified_params(kept_params(params, rules), rules)
}

/// The locals that hold the projected values, in parameter order.
pub open spec fn projected_names(params: Seq<BindingView>, rules: RuleSetView) -> Seq<Seq<char>>
    decreases params.len(),
{
    if params.len() == 0 {
        Seq::empty()
    } else if is_projected(rules, params.last().ty) {
        projected_names(params.drop_last(), rules).push(params.last().ident + RESULT_SUFFIX@)
    } else {
        projected_names(params.drop_last(), rules)
    }
}

/// The types of the projected values, in parameter order.
pub open spec fn projected_types(params: Seq<BindingView>, rules: RuleSetView) -> Seq<Seq<char>>
    decreases params.len(),
{
    if params.len() == 0 {
        Seq::empty()
    } else {
        match projection_of(rules, params.last().ty) {
            Some(rule) => projected_types(params.drop_last(), rules).push(rule.value),
            None => projected_types(params.drop_last(), rules),
        }
    }
}

/// The elements of the returned tuple: the call's own result where the
/// native return type is not empty, then the projected values.
pub open spec fn result_names(cmd: CmdView, rules: RuleSetView) -> Seq<Seq<char>> {
    (if returns_value(cmd.proto.ty) {
        seq![RESULT_NAME@]
    } else {
        Seq::empty()
    }) + projected_names(cmd.params, rules)
}

/// The types of the elements of the returned tuple, for the native return
/// type `ty`.
pub open spec fn result_types(params: Seq<BindingView>, ty: Seq<char>, rules: RuleSetView) -> Seq<
    Seq<char>,
> {
    (if returns_value(ty) {
        seq![ty]
    } else {
        Seq::empty()
    }) + projected_types(params, rules)
}

/// `items` as a tuple.
pub open spec fn tuple_text(items: Seq<Seq<char>>) -> Seq<char> {
    OPEN@ + joined(items, COMMA@) + CLOSE@
}

fn tuple_of(items: &Vec<String>) -> (r: String)
    ensures
        r@ == tuple_text(items.deep_view()),
{
    let mut r = String::new();
    r.append(OPEN);
    let inner = join(items, COMMA);
    r.append(inner.as_str());
    r.append(CLOSE);
    proof {
        assert(r@ =~= tuple_text(items.deep_view()));
    }
    r
}

/// The tuple that a wrapper returns.
pub fn get_return_args(cmd: &Cmd, rules: &RuleSet) -> (r: String)
    ensures
        r@ == tuple_text(result_names(cmd@, rules@)),
{
    let mut items: Vec<String> = Vec::new();
    if !same_text(cmd.proto.ty.as_str(), UNIT) {
        let ghost before = items;
        let own = RESULT_NAME.to_owned();
        items.push(own);
        proof {
            lemma_deep_view_push(before, items, own);
            assert(items.deep_view() =~= seq![RESULT_NAME@]);
        }
    }
    let ghost own_part = items.deep_view();
    let ghost params = cmd@.params;
    let mut i: usize = 0;
    proof {
        assert(params.take(0) =~= Seq::<BindingView>::empty());
        assert(items.deep_view() =~= own_part + projected_names(params.take(0), rules@));
    }
    while i < cmd.params.len()
        invariant
            i <= cmd.params.len(),
            params == cmd@.params,
            items.deep_view() == own_part + projected_names(params.take(i as int), rules@),
        decreases cmd.params.len() - i,
    {
        proof {
            assert(params.take(i + 1).drop_last() =~= params.take(i as int));
            assert(params.take(i + 1).last() == cmd.params[i as int]@);
        }
        if is_return_type(rules, cmd.params[i].ty.as_str()) {
            let ghost before = items;
            let mut name = cmd.params[i].ident.clone();
            name.append(RESULT_SUFFIX);
            items.push(name);
            proof {
                lemma_deep_view_push(before, items, name);
                assert(items.deep_view() =~= own_part + projected_names(
                    params.take(i + 1),
                    rules@,
                ));
            }
        }
        i += 1;
    }
    proof {
        assert(params.take(cmd.params.len() as int) =~= params);
    }
    tuple_of(&items)
}

/// The type of the tuple that a wrapper returns, for the native return type
/// `ty`.
pub fn add_return_types(cmd: &Cmd, ty: &str, rules: &RuleSet) -> (r: String)
    ensures
        r@ == tuple_text(result_types(cmd@.params, ty@, rules@)),
{
    let mut items: Vec<String> = Vec::new();
    if !same_text(ty, UNIT) {
        let ghost before = items;
        let own = ty.to_owned();
        items.push(own);
        proof {
            lemma_deep_view_push(before, items, own);
            assert(items.deep_view() =~= seq![ty@]);
        }
    }
    let ghost own_part = items.deep_view();
    let ghost params = cmd@.params;
    let mut i: usize = 0;
    proof {
        assert(params.take(0) =~= Seq::<BindingView>::empty());
        assert(items.deep_view() =~= own_part + projected_types(params.take(0), rules@));
    }
    while i < cmd.params.len()
        invariant
            i <= cmd.params.len(),
            params == cmd@.params,
            items.deep_view() == own_part + projected_types(params.take(i as int), rules@),
        decreases cmd.params.len() - i,
    {
        proof {
            assert(params.take(i + 1).drop_last() =~= params.take(i as int));
            assert(params.take(i + 1).last() == cmd.params[i as int]@);
        }
        match rules.projection(cmd.params[i].ty.as_str()) {
            Some(rule) => {
                let ghost before = items;
                let value = rule.value.clone();
                items.push(value);
                proof {
                    lemma_deep_view_push(before, items, value);
                    assert(items.deep_view() =~= own_part + projected_types(
                        params.take(i + 1),
                        rules@,
                    ));
                }
            },
            None => {},
        }
        i += 1;
    }
    proof {
        assert(params.take(cmd.params.len() as int) =~= params);
    }
    tuple_of(&items)
}

/// `cmd` without the parameters that match a projection rule.
pub fn without_return_types_params(cmd: &Cmd, rules: &RuleSet) -> (r: Cmd)
    ensures
        r@.proto == cmd@.proto,
        r@.params == kept_params(cmd@.params, rules@),
{
    let mut kept: Vec<Binding> = Vec::new();
    let ghost params = cmd@.params;
    let mut i: usize = 0;
    proof {
        assert(params.take(0) =~= Seq::<BindingView>::empty());
        assert(kept.deep_view() =~= kept_params(params.take(0), rules@));
    }
    while i < cmd.params.len()
        invariant
            i <= cmd.params.len(),
            params == cmd@.params,
            kept.deep_view() == kept_params(params.take(i as int), rules@),
        decreases cmd.params.len() - i,
    {
        proof {
            assert(params.take(i + 1).drop_last() =~= params.take(i as int));
            assert(params.take(i + 1).last() == cmd.params[i as int]@);
        }
        if !is_return_type(rules, cmd.params[i].ty.as_str()) {
            let ghost before = kept;
            let binding = cmd.params[i].clone();
            kept.push(binding);
            proof {
                lemma_deep_view_push(before, kept, binding);
            }
        }
        i += 1;
    }
    proof {
        assert(params.take(cmd.params.len() as int) =~= params);
    }
    Cmd { proto: cmd.proto.clone(), params: kept }
}

/// `cmd` with the type of each converted parameter replaced by its surface
/// type.
pub fn get_rustified(cmd: &Cmd, rules: &RuleSet) -> (r: Cmd)
    ensures
        r@.proto == cmd@.proto,
        r@.params == rustified_params(cmd@.params, rules@),
{
    let mut params: Vec<Binding> = Vec::new();
    let mut i: usize = 0;
    while i < cmd.params.len()
        invariant
            i <= cmd.params.len(),
            params.len() == i,
            forall|k: int| 0 <= k < i ==> params@[k]@ == rustified_param(cmd.params@[k]@, rules@),
        decreases cmd.params.len() - i,
    {
        let binding = match rules.conversion(cmd.params[i].ty.as_str()) {
            Some(rule) => Binding { ident: cmd.params[i].ident.clone(), ty: rule.surface.clone() },
            None => cmd.params[i].clone(),
        };
        params.push(binding);
        i += 1;
    }
    proof {
        assert(params.deep_view() =~= rustified_params(cmd@.params, rules@));
    }
    Cmd { proto: cmd.proto.clone(), params }
}

/// How many of `params` match a conversion rule.
pub open spec fn conversion_count(params: Seq<BindingView>, rules: RuleSetView) -> nat
    decreases params.len(),
{
    if params.len() == 0 {
        0
    } else {
        conversion_count(params.drop_last(), rules) + if conversion_of(
            rules,
            params.last().ty,
        ).is_some() {
            1nat
        } else {
            0nat
        }
    }
}

/// The statements `code` as a block of a wrapper's body: each line indented,
/// the last one ended.
pub open spec fn indented(code: Seq<char>) -> Seq<char> {
    INDENT@ + replaced(code, NEWLINE@, INDENTED_NEWLINE@) + NEWLINE@
}

/// The statements of a conversion rule for the parameter `param` of the
/// command `cmd`.
pub open spec fn conversion_statements(
    rule: ConversionRuleView,
    param: Seq<char>,
    cmd: Seq<char>,
) -> Seq<char> {
    replaced(replaced(rule.setup, PARAM_KEY@, param), CMD_KEY@, cmd)
}

/// The statements of a projection rule for the parameter `param`.
pub open spec fn projection_statements(rule: ProjectionRuleView, param: Seq<char>) -> Seq<char> {
    replaced(rule.init, PARAM_KEY@, param)
}

/// The blocks of the converted parameters of the command `cmd`, in
/// parameter order.
pub open spec fn conversion_blocks(
    params: Seq<BindingView>,
    cmd: Seq<char>,
    rules: RuleSetView,
) -> Seq<char>
    decreases params.len(),
{
    if params.len() == 0 {
        Seq::empty()
    } else {
        match conversion_of(rules, params.last().ty) {
            Some(rule) => conversion_blocks(params.drop_last(), cmd, rules) + indented(
                conversion_statements(rule, params.last().ident, cmd),
            ),
            None => conversion_blocks(params.drop_last(), cmd, rules),
        }
    }
}

/// The blocks of the projected parameters, in parameter order.
pub open spec fn projection_blocks(params: Seq<BindingView>, rules: RuleSetView) -> Seq<char>
    decreases params.len(),
{
    if params.len() == 0 {
        Seq::empty()
    } else {
        match projection_of(rules, params.last().ty) {
            Some(rule) => projection_blocks(params.drop_last(), rules) + indented(
                projection_statements(rule, params.last().ident),
            ),
            None => projection_blocks(params.drop_last(), rules),
        }
    }
}

/// What a wrapper does to its converted parameters before the call; nothing
/// where it has none.
pub open spec fn conversions_text(cmd: CmdView, rules: RuleSetView) -> Seq<char> {
    if conversion_count(cmd.params, rules) > 0 {
        NEWLINE@ + conversion_blocks(cmd.params, cmd.proto.ident, rules)
    } else {
        Seq::empty()
    }
}

/// The locals that a wrapper makes for its projected parameters before the
/// call; nothing where it has none.
pub open spec fn initializers_text(cmd: CmdView, rules: RuleSetView) -> Seq<char> {
    if projection_count(cmd.params, rules) > 0 {
        NEWLINE@ + projection_blocks(cmd.params, rules)
    } else {
        Seq::empty()
    }
}

fn append_indented(dest: &mut String, code: &str)
    ensures
        final(dest)@ == old(dest)@ + indented(code@),
{
    let ghost start = dest@;
    let lines = replace_all(code, NEWLINE, INDENTED_NEWLINE);
    dest.append(INDENT);
    dest.append(lines.as_str());
    dest.append(NEWLINE);
    proof {
        assert(dest@ =~= start + indented(code@));
    }
}

/// The setup statements of the converted parameters of `cmd`.
pub fn get_conversions(cmd: &Cmd, rules: &RuleSet) -> (r: String)
    ensures
        r@ == conversions_text(cmd@, rules@),
{
    let mut conversions = String::new();
    conversions.append(NEWLINE);
    let mut any = false;
    let ghost params = cmd@.params;
    let ghost name = cmd@.proto.ident;
    let mut i: usize = 0;
    proof {
        assert(params.take(0) =~= Seq::<BindingView>::empty());
        assert(conversions@ =~= NEWLINE@ + conversion_blocks(params.take(0), name, rules@));
    }
    while i < cmd.params.len()
        invariant
            i <= cmd.params.len(),
            params == cmd@.params,
            name == cmd@.proto.ident,
            any == (conversion_count(params.take(i as int), rules@) > 0),
            conversions@ == NEWLINE@ + conversion_blocks(params.take(i as int), name, rules@),
        decreases cmd.params.len() - i,
    {
        proof {
            assert(params.take(i + 1).drop_last() =~= params.take(i as int));
            assert(params.take(i + 1).last() == cmd.params[i as int]@);
        }
        match rules.conversion(cmd.params[i].ty.as_str()) {
            Some(rule) => {
                let ghost before = conversions@;
                let named = replace_all(
                    rule.setup.as_str(),
                    PARAM_KEY,
                    cmd.params[i].ident.as_str(),
                );
                let code = replace_all(named.as_str(), CMD_KEY, cmd.proto.ident.as_str());
                append_indented(&mut conversions, code.as_str());
                any = true;
                proof {
                    assert(conversions@ =~= NEWLINE@ + conversion_blocks(
                        params.take(i + 1),
                        name,
                        rules@,
                    ));
                }
            },
            None => {},
        }
        i += 1;
    }
    proof {
        assert(params.take(cmd.params.len() as int) =~= params);
    }
    if any {
        conversions
    } else {
        String::new()
    }
}

/// The locals for the projected parameters of `cmd`.
pub fn get_initializers(cmd: &Cmd, rules: &RuleSet) -> (r: String)
    ensures
        r@ == initializers_text(cmd@, rules@),
{
    let mut initializers = String::new();
    initializers.append(NEWLINE);
    let mut any = false;
    let ghost params = cmd@.params;
    let mut i: usize = 0;
    proof {
        assert(params.take(0) =~= Seq::<BindingView>::empty());
        assert(initializers@ =~= NEWLINE@ + projection_blocks(params.take(0), rules@));
    }
    while i < cmd.params.len()
        invariant
            i <= cmd.params.len(),
            params == cmd@.params,
            any == (projection_count(params.take(i as int), rules@) > 0),
            initializers@ == NEWLINE@ + projection_blocks(params.take(i as int), rules@),
        decreases cmd.params.len() - i,
    {
        proof {
            assert(params.take(i + 1).drop_last() =~= params.take(i as int));
            assert(params.take(i + 1).last() == cmd.params[i as int]@);
        }
        match rules.projection(cmd.params[i].ty.as_str()) {
            Some(rule) => {
                let code = replace_all(rule.init.as_str(), PARAM_KEY, cmd.params[i].ident.as_str());
                append_indented(&mut initializers, code.as_str());
                any = true;
                proof {
                    assert(initializers@ =~= NEWLINE@ + projection_blocks(
                        params.take(i + 1),
                        rules@,
                    ));
                }
            },
            None => {},
        }
        i += 1;
    }
    proof {
        assert(params.take(cmd.params.len() as int) =~= params);
    }
    if any {
        initializers
    } else {
        String::new()
    }
}

/// The word that marks a parameter as a function value.
pub const CALLBACK_WORD: &'static str = "callback";

/// What stands for a function value in a trace.
pub const CALLBACK_PLACEHOLDER: &'static str = "\"<callback function as parameter>\"";

/// What stands for all the arguments of a call that has too many of them
/// to format.
pub const TOO_MANY_PLACEHOLDER: &'static str = "\"<too many arguments to display>\"";

/// The most arguments that a trace formats one by one.
pub const TRACE_LIMIT: usize = 14;

/// Whether a parameter of this name holds a function value.
pub open spec fn is_callback(ident: Seq<char>) -> bool {
    mentions(ident, CALLBACK_WORD@)
}

/// One argument as a trace formats it: a reference to it, or the fixed
/// placeholder for a function value.
pub open spec fn trace_argument(p: BindingView) -> Seq<char> {
    if is_callback(p.ident) {
        CALLBACK_PLACEHOLDER@
    } else {
        REFERENCE@ + p.ident
    }
}

/// The arguments of a trace, each as `trace_argument` writes it.
pub open spec fn trace_items(surface: Seq<BindingView>) -> Seq<Seq<char>> {
    Seq::new(surface.len(), |i: int| trace_argument(surface[i]))
}

/// What a trace formats for the surface parameters `surface`: each argument
/// by itself up to the limit, one fixed placeholder for all beyond it.
pub open spec fn trace_arguments(surface: Seq<BindingView>) -> Seq<char> {
    if surface.len() > TRACE_LIMIT {
        TOO_MANY_PLACEHOLDER@
    } else {
        joined(trace_items(surface), COMMA@)
    }
}

/// The arguments that the trace of a call formats, for the surface
/// parameters `surface`.
pub fn get_trace_arguments(surface: &Vec<Binding>) -> (r: String)
    ensures
        r@ == trace_arguments(surface.deep_view()),
{
    if surface.len() > TRACE_LIMIT {
        return TOO_MANY_PLACEHOLDER.to_owned();
    }
    let mut items: Vec<String> = Vec::new();
    let mut i: usize = 0;
    while i < surface.len()
        invariant
            i <= surface.len(),
            items.len() == i,
            forall|k: int| 0 <= k < i ==> items@[k]@ == trace_argument(surface@[k]@),
        decreases surface.len() - i,
    {
        let mut item = String::new();
        if mentions_word(surface[i].ident.as_str(), CALLBACK_WORD) {
            item.append(CALLBACK_PLACEHOLDER);
        } else {
            item.append(REFERENCE);
            item.append(surface[i].ident.as_str());
        }
        proof {
            assert(item@ =~= trace_argument(surface@[i as int]@));
        }
        items.push(item);
        i += 1;
    }
    proof {
        assert(items.deep_view() =~= trace_items(surface.deep_view()));
    }
    join(&items, COMMA)
}

/// The statement that formats the trace of a call before the call is made;
/// nothing where calls are not traced.  A single argument is put in
/// brackets by the format itself, since one value alone is no tuple.
pub open spec fn trace_initializer(
    name: Seq<char>,
    surface: Seq<BindingView>,
    trace_calls: bool,
) -> Seq<char> {
    if trace_calls {
        TRACE_INIT_HEAD@ + name + (if surface.len() == 1 {
            OPEN@
        } else {
            Seq::<char>::empty()
        }) + TRACE_FORMAT@ + (if surface.len() == 1 {
            CLOSE@
        } else {
            Seq::<char>::empty()
        }) + TRACE_INIT_MID@ + trace_arguments(surface) + TRACE_INIT_END@
    } else {
        Seq::empty()
    }
}

/// The statement that prints the trace after the call, with what the
/// wrapper returns unless the native return type is empty; nothing where
/// calls are not traced.
pub open spec fn trace_print(cmd: CmdView, rules: RuleSetView, trace_calls: bool) -> Seq<char> {
    if !trace_calls {
        Seq::empty()
    } else if returns_value(cmd.proto.ty) {
        TRACE_PRINT_RESULT_HEAD@ + tuple_text(result_names(cmd, rules)) + TRACE_PRINT_RESULT_END@
    } else {
        TRACE_PRINT@
    }
}

/// The statement that formats the trace of a call to `name`.
pub fn get_trace_initializer(name: &str, surface: &Vec<Binding>, trace_calls: bool) -> (r: String)
    ensures
        r@ == trace_initializer(name@, surface.deep_view(), trace_calls),
{
    let mut r = String::new();
    if trace_calls {
        r.append(TRACE_INIT_HEAD);
        r.append(name);
        if surface.len() == 1 {
            r.append(OPEN);
        }
        r.append(TRACE_FORMAT);
        if surface.len() == 1 {
            r.append(CLOSE);
        }
        r.append(TRACE_INIT_MID);
        let arguments = get_trace_arguments(surface);
        r.append(arguments.as_str());
        r.append(TRACE_INIT_END);
    }
    proof {
        assert(r@ =~= trace_initializer(name@, surface.deep_view(), trace_calls));
    }
    r
}

/// The statement that prints the trace of a call to `cmd`.
pub fn get_trace_print(cmd: &Cmd, rules: &RuleSet, trace_calls: bool) -> (r: String)
    ensures
        r@ == trace_print(cmd@, rules@, trace_calls),
{
    let mut r = String::new();
    if trace_calls {
        if !same_text(cmd.proto.ty.as_str(), UNIT) {
            r.append(TRACE_PRINT_RESULT_HEAD);
            let ret = get_return_args(cmd, rules);
            r.append(ret.as_str());
            r.append(TRACE_PRINT_RESULT_END);
        } else {
            r.append(TRACE_PRINT);
        }
    }
    proof {
        assert(r@ =~= trace_print(cmd@, rules@, trace_calls));
    }
    r
}

/// The comment that lists the fallback names of `name`; nothing where none
/// are registered.
pub open spec fn fallback_comment(aliases: Seq<AliasView>, name: Seq<char>) -> Seq<char> {
    match fallbacks_of(aliases, name) {
        Some(names) => FALLBACKS_HEAD@ + joined(names, COMMA@) + NEWLINE@,
        None => Seq::empty(),
    }
}

/// The head of the wrapper of `cmd`: its name, its surface parameters and
/// the tuple type that it returns.
pub open spec fn signature_text(cmd: CmdView, rules: RuleSetView) -> Seq<char> {
    FN_HEAD@ + cmd.proto.ident + OPEN@ + joined(
        parameter_texts(surface_params(cmd.params, rules), true, true),
        COMMA@,
    ) + ARROW@ + tuple_text(result_types(cmd.params, cmd.proto.ty, rules)) + BODY_HEAD@
}

/// What the wrapper of `cmd` does before the call.  The trace comes first and
/// so formats the arguments as the caller passed them; then the converted
/// parameters are set up and the locals of the projected ones are made, which
/// binds the parameters' names anew.
pub open spec fn setup_text(cmd: CmdView, rules: RuleSetView, trace_calls: bool) -> Seq<char> {
    trace_initializer(cmd.proto.ident, surface_params(cmd.params, rules), trace_calls)
        + conversions_text(cmd, rules) + initializers_text(cmd, rules)
}

/// The one call through the slot of `cmd`, at the native signature and with
/// the parameters' names as arguments.
pub open spec fn invocation_text(cmd: CmdView) -> Seq<char> {
    CALL_HEAD@ + joined(parameter_texts(cmd.params, false, true), COMMA@) + ARROW@ + cmd.proto.ty
        + CALL_STORAGE@ + cmd.proto.ident + CALL_SLOT@ + joined(
        parameter_texts(cmd.params, true, false),
        COMMA@,
    ) + CALL_END@
}

/// What the wrapper of `cmd` does after the call: the trace, then the tuple
/// of results.
pub open spec fn return_text(cmd: CmdView, rules: RuleSetView, trace_calls: bool) -> Seq<char> {
    trace_print(cmd, rules, trace_calls) + NEWLINE@ + tuple_text(result_names(cmd, rules))
        + BODY_END@
}

/// The wrapper function of `cmd`.
///
/// Its parameters are the surface parameters.  Its body sets up the converted
/// parameters, makes the locals for the projected ones, calls the slot of the
/// command once at the native signature, and returns the tuple of results.
pub open spec fn wrapper_text(
    cmd: CmdView,
    aliases: Seq<AliasView>,
    rules: RuleSetView,
    trace_calls: bool,
) -> Seq<char> {
    fallback_comment(aliases, cmd.proto.ident) + signature_text(cmd, rules) + setup_text(
        cmd,
        rules,
        trace_calls,
    ) + invocation_text(cmd) + return_text(cmd, rules, trace_calls)
}

/// The wrapper functions of `cmds`, in their order.
pub open spec fn wrappers_text(
    cmds: Seq<CmdView>,
    aliases: Seq<AliasView>,
    rules: RuleSetView,
    trace_calls: bool,
) -> Seq<char>
    decreases cmds.len(),
{
    if cmds.len() == 0 {
        Seq::empty()
    } else {
        wrappers_text(cmds.drop_last(), aliases, rules, trace_calls) + wrapper_text(
            cmds.last(),
            aliases,
            rules,
            trace_calls,
        )
    }
}

/// The wrapper's parameters: `cmd` without its projected parameters and with
/// the surface types of its converted ones.
pub fn get_surface(cmd: &Cmd, rules: &RuleSet) -> (r: Cmd)
    ensures
        r@.proto == cmd@.proto,
        r@.params == surface_params(cmd@.params, rules@),
{
    let kept = without_return_types_params(cmd, rules);
    get_rustified(&kept, rules)
}

fn write_fallback_comment(name: &str, aliases: &Vec<AliasEntry>, dest: &mut String)
    ensures
        final(dest)@ == old(dest)@ + fallback_comment(aliases.deep_view(), name@),
{
    let ghost start = dest@;
    match find_fallbacks(aliases, name) {
        Some(names) => {
            dest.append(FALLBACKS_HEAD);
            dest.append(join(names, COMMA).as_str());
            dest.append(NEWLINE);
        },
        None => {},
    }
    proof {
        assert(dest@ =~= start + fallback_comment(aliases.deep_view(), name@));
    }
}

fn write_signature(cmd: &Cmd, surface: &Cmd, rules: &RuleSet, dest: &mut String)
    requires
        surface@.params == surface_params(cmd@.params, rules@),
    ensures
        final(dest)@ == old(dest)@ + signature_text(cmd@, rules@),
{
    let ghost start = dest@;
    let params = join(&gen_parameters(surface, true, true), COMMA);
    let return_suffix = add_return_types(cmd, cmd.proto.ty.as_str(), rules);
    dest.append(FN_HEAD);
    dest.append(cmd.proto.ident.as_str());
    dest.append(OPEN);
    dest.append(params.as_str());
    dest.append(ARROW);
    dest.append(return_suffix.as_str());
    dest.append(BODY_HEAD);
    proof {
        assert(dest@ =~= start + signature_text(cmd@, rules@));
    }
}

fn write_setup(cmd: &Cmd, surface: &Cmd, rules: &RuleSet, trace_calls: bool, dest: &mut String)
    requires
        surface@.params == surface_params(cmd@.params, rules@),
    ensures
        final(dest)@ == old(dest)@ + setup_text(cmd@, rules@, trace_calls),
{
    let ghost start = dest@;
    let conversions = get_conversions(cmd, rules);
    let initializers = get_initializers(cmd, rules);
    let trace = get_trace_initializer(cmd.proto.ident.as_str(), &surface.params, trace_calls);
    dest.append(trace.as_str());
    dest.append(conversions.as_str());
    dest.append(initializers.as_str());
    proof {
        assert(dest@ =~= start + setup_text(cmd@, rules@, trace_calls));
    }
}

fn write_invocation(cmd: &Cmd, dest: &mut String)
    ensures
        final(dest)@ == old(dest)@ + invocation_text(cmd@),
{
    let ghost start = dest@;
    let typed_params = join(&gen_parameters(cmd, false, true), COMMA);
    let idents = join(&gen_parameters(cmd, true, false), COMMA);
    dest.append(CALL_HEAD);
    dest.append(typed_params.as_str());
    dest.append(ARROW);
    dest.append(cmd.proto.ty.as_str());
    dest.append(CALL_STORAGE);
    dest.append(cmd.proto.ident.as_str());
    dest.append(CALL_SLOT);
    dest.append(idents.as_str());
    dest.append(CALL_END);
    proof {
        assert(dest@ =~= start + invocation_text(cmd@));
    }
}

fn write_return(cmd: &Cmd, rules: &RuleSet, trace_calls: bool, dest: &mut String)
    ensures
        final(dest)@ == old(dest)@ + return_text(cmd@, rules@, trace_calls),
{
    let ghost start = dest@;
    let trace = get_trace_print(cmd, rules, trace_calls);
    let ret = get_return_args(cmd, rules);
    dest.append(trace.as_str());
    dest.append(NEWLINE);
    dest.append(ret.as_str());
    dest.append(BODY_END);
    proof {
        assert(dest@ =~= start + return_text(cmd@, rules@, trace_calls));
    }
}

/// Appends the wrapper function of `cmd`.
pub fn write_fn(
    cmd: &Cmd,
    aliases: &Vec<AliasEntry>,
    rules: &RuleSet,
    trace_calls: bool,
    dest: &mut String,
)
    ensures
        final(dest)@ == old(dest)@ + wrapper_text(
            cmd@,
            aliases.deep_view(),
            rules@,
            trace_calls,
        ),
{
    let ghost start = dest@;
    let surface = get_surface(cmd, rules);
    write_fallback_comment(cmd.proto.ident.as_str(), aliases, dest);
    write_signature(cmd, &surface, rules, dest);
    write_setup(cmd, &surface, rules, trace_calls, dest);
    write_invocation(cmd, dest);
    write_return(cmd, rules, trace_calls, dest);
    proof {
        let comment = fallback_comment(aliases.deep_view(), cmd@.proto.ident);
        let head = comment + signature_text(cmd@, rules@);
        let ready = head + setup_text(cmd@, rules@, trace_calls);
        let called = ready + invocation_text(cmd@);
        lemma_appended(start, comment, signature_text(cmd@, rules@));
        lemma_appended(start, head, setup_text(cmd@, rules@, trace_calls));
        lemma_appended(start, ready, invocation_text(cmd@));
        lemma_appended(start, called, return_text(cmd@, rules@, trace_calls));
    }
}

/// Appends the wrapper functions of the registry's commands, in registry
/// order.
pub fn write_fns(registry: &Registry, rules: &RuleSet, dest: &mut String)
    ensures
        final(dest)@ == old(dest)@ + wrappers_text(
            registry@.cmds,
            registry@.aliases,
            rules@,
            registry@.trace_calls,
        ),
{
    let ghost start = dest@;
    let ghost cmds = registry@.cmds;
    let ghost aliases = registry@.aliases;
    let mut i: usize = 0;
    proof {
        assert(cmds.take(0) =~= Seq::<CmdView>::empty());
        assert(dest@ =~= start + wrappers_text(
            cmds.take(0),
            aliases,
            rules@,
            registry.trace_calls,
        ));
    }
    while i < registry.cmds.len()
        invariant
            i <= registry.cmds.len(),
            cmds == registry@.cmds,
            aliases == registry@.aliases,
            dest@ == start + wrappers_text(
                cmds.take(i as int),
                aliases,
                rules@,
                registry.trace_calls,
            ),
        decreases registry.cmds.len() - i,
    {
        proof {
            assert(cmds.take(i + 1).drop_last() =~= cmds.take(i as int));
            assert(cmds.take(i + 1).last() == registry.cmds[i as int]@);
        }
        write_fn(&registry.cmds[i], &registry.aliases, rules, registry.trace_calls, dest);
        proof {
            lemma_appended(
                start,
                wrappers_text(cmds.take(i as int), aliases, rules@, registry.trace_calls),
                wrapper_text(registry.cmds[i as int]@, aliases, rules@, registry.trace_calls),
            );
        }
        i += 1;
    }
    proof {
        assert(cmds.take(registry.cmds.len() as int) =~= cmds);
    }
}

/// Appends the preamble.
pub fn write_header(dest: &mut String)
    ensures
        final(dest)@ == old(dest)@ + HEADER@,
{
    dest.append(HEADER);
}

/// Appends the helper that tries a symbol and then its fallback names.
pub fn write_metaloadfn(dest: &mut String)
    ensures
        final(dest)@ == old(dest)@ + METALOADFN@,
{
    dest.append(METALOADFN);
}

/// The namespace of the native type aliases of the registry's family.
pub open spec fn type_aliases_text(registry: RegistryView) -> Seq<char> {
    TYPES_HEAD@ + types_text(registry.api, registry.types) + TYPES_END@
}

/// Appends the namespace of the native type aliases.
pub fn write_type_aliases(registry: &Registry, dest: &mut String)
    ensures
        final(dest)@ == old(dest)@ + type_aliases_text(registry@),
{
    let ghost start = dest@;
    dest.append(TYPES_HEAD);
    gen_types(registry.api, &registry.types, dest);
    dest.append(TYPES_END);
    proof {
        assert(dest@ =~= start + type_aliases_text(registry@));
    }
}

/// One constant per enum, in their order.
pub open spec fn enums_text(enums: Seq<EnumView>) -> Seq<char>
    decreases enums.len(),
{
    if enums.len() == 0 {
        Seq::empty()
    } else {
        enums_text(enums.drop_last()) + enum_item_text(enums.last(), TYPES_PREFIX@)
    }
}

/// Appends one constant per enum of the registry, in registry order.
pub fn write_enums(registry: &Registry, dest: &mut String)
    ensures
        final(dest)@ == old(dest)@ + enums_text(registry@.enums),
{
    let ghost start = dest@;
    let ghost enums = registry@.enums;
    let mut i: usize = 0;
    proof {
        assert(enums.take(0) =~= Seq::<EnumView>::empty());
        assert(dest@ =~= start + enums_text(enums.take(0)));
    }
    while i < registry.enums.len()
        invariant
            i <= registry.enums.len(),
            enums == registry@.enums,
            dest@ == start + enums_text(enums.take(i as int)),
        decreases registry.enums.len() - i,
    {
        proof {
            assert(enums.take(i + 1).drop_last() =~= enums.take(i as int));
            assert(enums.take(i + 1).last() == registry.enums[i as int]@);
        }
        gen_enum_item(&registry.enums[i], TYPES_PREFIX, dest);
        proof {
            lemma_appended(
                start,
                enums_text(enums.take(i as int)),
                enum_item_text(registry.enums[i as int]@, TYPES_PREFIX@),
            );
        }
        i += 1;
    }
    proof {
        assert(enums.take(registry.enums.len() as int) =~= enums);
    }
}

/// Appends the definition of the slot type.
pub fn write_fnptr_struct_def(dest: &mut String)
    ensures
        final(dest)@ == old(dest)@ + FNPTR_STRUCT@,
{
    dest.append(FNPTR_STRUCT);
}

/// The slot of the command `name`: unresolved, aimed at the stub.
pub open spec fn slot_text(name: Seq<char>) -> Seq<char> {
    SLOT_HEAD@ + name + SLOT_END@
}

/// One slot per command, in their order.
pub open spec fn slots_text(cmds: Seq<CmdView>) -> Seq<char>
    decreases cmds.len(),
{
    if cmds.len() == 0 {
        Seq::empty()
    } else {
        slots_text(cmds.drop_last()) + slot_text(cmds.last().proto.ident)
    }
}

/// The symbol table: one slot per command.
pub open spec fn storage_text(cmds: Seq<CmdView>) -> Seq<char> {
    STORAGE_HEAD@ + slots_text(cmds) + STORAGE_END@
}

/// Appends the symbol table, with one slot per command of the registry in
/// registry order.
pub fn write_ptrs(registry: &Registry, dest: &mut String)
    ensures
        final(dest)@ == old(dest)@ + storage_text(registry@.cmds),
{
    let ghost start = dest@;
    let ghost cmds = registry@.cmds;
    dest.append(STORAGE_HEAD);
    let mut i: usize = 0;
    proof {
        assert(cmds.take(0) =~= Seq::<CmdView>::empty());
        assert(dest@ =~= start + STORAGE_HEAD@ + slots_text(cmds.take(0)));
    }
    while i < registry.cmds.len()
        invariant
            i <= registry.cmds.len(),
            cmds == registry@.cmds,
            dest@ == start + STORAGE_HEAD@ + slots_text(cmds.take(i as int)),
        decreases registry.cmds.len() - i,
    {
        proof {
            assert(cmds.take(i + 1).drop_last() =~= cmds.take(i as int));
            assert(cmds.take(i + 1).last() == registry.cmds[i as int]@);
        }
        dest.append(SLOT_HEAD);
        dest.append(registry.cmds[i].proto.ident.as_str());
        dest.append(SLOT_END);
        proof {
            assert(dest@ =~= start + STORAGE_HEAD@ + slots_text(cmds.take(i + 1)));
        }
        i += 1;
    }
    dest.append(STORAGE_END);
    proof {
        assert(cmds.take(registry.cmds.len() as int) =~= cmds);
        assert(dest@ =~= start + storage_text(cmds));
    }
}

/// The native symbols of the fallback names `names`, each in quotes.
pub open spec fn fallback_symbols(api: Api, names: Seq<Seq<char>>) -> Seq<Seq<char>> {
    Seq::new(names.len(), |i: int| QUOTE@ + symbol_name(api, names[i]) + QUOTE@)
}

/// The list of fallback symbols that the loader of `name` hands to the
/// helper: those registered for it, in registration order.
pub open spec fn fallback_list_text(api: Api, aliases: Seq<AliasView>, name: Seq<char>) -> Seq<
    char,
> {
    match fallbacks_of(aliases, name) {
        Some(names) => LIST_OPEN@ + joined(fallback_symbols(api, names), COMMA@) + LIST_CLOSE@,
        None => NO_FALLBACKS@,
    }
}

/// The loader of the command `name`: whether its slot is resolved, and the
/// load operation.  The operation asks for the canonical symbol, then for
/// the fallbacks, and stores the first address found; where none is found it
/// leaves the slot as it is.
pub open spec fn loader_text(api: Api, aliases: Seq<AliasView>, name: Seq<char>) -> Seq<char> {
    LOADER_HEAD@ + name + LOADER_USES@ + name + LOADER_LOAD@ + symbol_name(api, name)
        + LOADER_FALLBACKS@ + fallback_list_text(api, aliases, name) + LOADER_STORE@ + name
        + LOADER_END@
}

/// One loader per command, in their order.
pub open spec fn loaders_text(api: Api, aliases: Seq<AliasView>, cmds: Seq<CmdView>) -> Seq<char>
    decreases cmds.len(),
{
    if cmds.len() == 0 {
        Seq::empty()
    } else {
        loaders_text(api, aliases, cmds.drop_last()) + loader_text(
            api,
            aliases,
            cmds.last().proto.ident,
        )
    }
}

fn get_fallback_list(api: Api, aliases: &Vec<AliasEntry>, name: &str) -> (r: String)
    ensures
        r@ == fallback_list_text(api, aliases.deep_view(), name@),
{
    match find_fallbacks(aliases, name) {
        Some(names) => {
            let mut symbols: Vec<String> = Vec::new();
            let mut i: usize = 0;
            while i < names.len()
                invariant
                    i <= names.len(),
                    symbols.len() == i,
                    forall|k: int|
                        0 <= k < i ==> symbols@[k]@ == QUOTE@ + symbol_name(api, names@[k]@)
                            + QUOTE@,
                decreases names.len() - i,
            {
                let mut symbol = String::new();
                symbol.append(QUOTE);
                symbol.append(gen_symbol_name(api, names[i].as_str()).as_str());
                symbol.append(QUOTE);
                symbols.push(symbol);
                i += 1;
            }
            proof {
                assert(symbols.deep_view() =~= fallback_symbols(api, names.deep_view()));
            }
            let mut r = String::new();
            r.append(LIST_OPEN);
            r.append(join(&symbols, COMMA).as_str());
            r.append(LIST_CLOSE);
            proof {
                assert(r@ =~= fallback_list_text(api, aliases.deep_view(), name@));
            }
            r
        },
        None => NO_FALLBACKS.to_owned(),
    }
}

fn write_fn_mod(api: Api, aliases: &Vec<AliasEntry>, name: &str, dest: &mut String)
    ensures
        final(dest)@ == old(dest)@ + loader_text(api, aliases.deep_view(), name@),
{
    let ghost start = dest@;
    let fallbacks = get_fallback_list(api, aliases, name);
    let symbol = gen_symbol_name(api, name);
    dest.append(LOADER_HEAD);
    dest.append(name);
    dest.append(LOADER_USES);
    dest.append(name);
    dest.append(LOADER_LOAD);
    dest.append(symbol.as_str());
    dest.append(LOADER_FALLBACKS);
    dest.append(fallbacks.as_str());
    dest.append(LOADER_STORE);
    dest.append(name);
    dest.append(LOADER_END);
    proof {
        assert(dest@ =~= start + loader_text(api, aliases.deep_view(), name@));
    }
}

/// Appends one loader per command of the registry, in registry order.
pub fn write_fn_mods(registry: &Registry, dest: &mut String)
    ensures
        final(dest)@ == old(dest)@ + loaders_text(
            registry@.api,
            registry@.aliases,
            registry@.cmds,
        ),
{
    let ghost start = dest@;
    let ghost cmds = registry@.cmds;
    let ghost aliases = registry@.aliases;
    let mut i: usize = 0;
    proof {
        assert(cmds.take(0) =~= Seq::<CmdView>::empty());
        assert(dest@ =~= start + loaders_text(registry.api, aliases, cmds.take(0)));
    }
    while i < registry.cmds.len()
        invariant
            i <= registry.cmds.len(),
            cmds == registry@.cmds,
            aliases == registry@.aliases,
            dest@ == start + loaders_text(registry.api, aliases, cmds.take(i as int)),
        decreases registry.cmds.len() - i,
    {
        proof {
            assert(cmds.take(i + 1).drop_last() =~= cmds.take(i as int));
            assert(cmds.take(i + 1).last() == registry.cmds[i as int]@);
        }
        write_fn_mod(registry.api, &registry.aliases, registry.cmds[i].proto.ident.as_str(), dest);
        proof {
            lemma_appended(
                start,
                loaders_text(registry.api, aliases, cmds.take(i as int)),
                loader_text(registry.api, aliases, registry.cmds[i as int]@.proto.ident),
            );
        }
        i += 1;
    }
    proof {
        assert(cmds.take(registry.cmds.len() as int) =~= cmds);
    }
}

/// The stub of the family `api`.
pub open spec fn stub_text(api: Api) -> Seq<char> {
    STUB_HEAD@ + api.name_text() + STUB_END@
}

/// Appends the stub that unresolved slots target.
pub fn write_panicking_fns(registry: &Registry, dest: &mut String)
    ensures
        final(dest)@ == old(dest)@ + stub_text(registry@.api),
{
    let ghost start = dest@;
    dest.append(STUB_HEAD);
    dest.append(registry.api.name());
    dest.append(STUB_END);
    proof {
        assert(dest@ =~= start + stub_text(registry@.api));
    }
}

/// One call per command of its loader, in their order.
pub open spec fn load_calls_text(cmds: Seq<CmdView>) -> Seq<char>
    decreases cmds.len(),
{
    if cmds.len() == 0 {
        Seq::empty()
    } else {
        load_calls_text(cmds.drop_last()) + cmds.last().proto.ident + LOAD_CALL_END@
    }
}

/// The function that loads every command with one resolver.
pub open spec fn load_fn_text(cmds: Seq<CmdView>) -> Seq<char> {
    LOAD_FN_HEAD@ + load_calls_text(cmds) + LOAD_FN_END@
}

/// Appends the function that hands one resolver to the loader of every
/// command of the registry, in registry order.
pub fn write_load_fn(registry: &Registry, dest: &mut String)
    ensures
        final(dest)@ == old(dest)@ + load_fn_text(registry@.cmds),
{
    let ghost start = dest@;
    let ghost cmds = registry@.cmds;
    dest.append(LOAD_FN_HEAD);
    let mut i: usize = 0;
    proof {
        assert(cmds.take(0) =~= Seq::<CmdView>::empty());
        assert(dest@ =~= start + LOAD_FN_HEAD@ + load_calls_text(cmds.take(0)));
    }
    while i < registry.cmds.len()
        invariant
            i <= registry.cmds.len(),
            cmds == registry@.cmds,
            dest@ == start + LOAD_FN_HEAD@ + load_calls_text(cmds.take(i as int)),
        decreases registry.cmds.len() - i,
    {
        proof {
            assert(cmds.take(i + 1).drop_last() =~= cmds.take(i as int));
            assert(cmds.take(i + 1).last() == registry.cmds[i as int]@);
        }
        dest.append(registry.cmds[i].proto.ident.as_str());
        dest.append(LOAD_CALL_END);
        proof {
            assert(dest@ =~= start + LOAD_FN_HEAD@ + load_calls_text(cmds.take(i + 1)));
        }
        i += 1;
    }
    dest.append(LOAD_FN_END);
    proof {
        assert(cmds.take(registry.cmds.len() as int) =~= cmds);
        assert(dest@ =~= start + load_fn_text(cmds));
    }
}

/// What the bindings offer to their callers: preamble, resolver helper, type
/// aliases, constants and wrappers, in this order.
pub open spec fn surface_text(registry: RegistryView, rules: RuleSetView) -> Seq<char> {
    HEADER@ + METALOADFN@ + type_aliases_text(registry) + enums_text(registry.enums)
        + wrappers_text(registry.cmds, registry.aliases, rules, registry.trace_calls)
}

/// How the bindings find the native functions: slot type, symbol table,
/// loaders, stub and the function that loads everything, in this order.
pub open spec fn loading_text(registry: RegistryView) -> Seq<char> {
    FNPTR_STRUCT@ + storage_text(registry.cmds) + loaders_text(
        registry.api,
        registry.aliases,
        registry.cmds,
    ) + stub_text(registry.api) + load_fn_text(registry.cmds)
}

/// The whole text of the bindings, its parts in their fixed order: preamble,
/// resolver helper, type aliases, constants, wrappers, slot type, symbol
/// table, loaders, stub, and the function that loads everything.
pub open spec fn artifact(registry: RegistryView, rules: RuleSetView) -> Seq<char> {
    surface_text(registry, rules) + loading_text(registry)
}

/// Why nothing is generated from `registry` under `rules`, if so: ambiguous
/// rules first, then what is wrong with the registry.
pub open spec fn generation_fault(registry: RegistryView, rules: RuleSetView) -> Option<
    GenerationError,
> {
    if !unambiguous(rules) {
        Some(GenerationError::AmbiguousRule)
    } else {
        registry_fault(registry)
    }
}

/// What a generation pass over `registry` under `rules` yields: the whole
/// text, or the reason for which there is none.
pub open spec fn generation_result(registry: RegistryView, rules: RuleSetView) -> Result<
    Seq<char>,
    GenerationError,
> {
    match generation_fault(registry, rules) {
        Some(e) => Err(e),
        None => Ok(artifact(registry, rules)),
    }
}

fn write_surface(registry: &Registry, rules: &RuleSet, dest: &mut String)
    ensures
        final(dest)@ == old(dest)@ + surface_text(registry@, rules@),
{
    let ghost start = dest@;
    write_header(dest);
    write_metaloadfn(dest);
    write_type_aliases(registry, dest);
    write_enums(registry, dest);
    write_fns(registry, rules, dest);
    proof {
        let types = type_aliases_text(registry@);
        let enums = enums_text(registry@.enums);
        let wrappers = wrappers_text(
            registry@.cmds,
            registry@.aliases,
            rules@,
            registry@.trace_calls,
        );
        lemma_appended(start, HEADER@, METALOADFN@);
        lemma_appended(start, HEADER@ + METALOADFN@, types);
        lemma_appended(start, HEADER@ + METALOADFN@ + types, enums);
        lemma_appended(start, HEADER@ + METALOADFN@ + types + enums, wrappers);
    }
}

fn write_loading(registry: &Registry, dest: &mut String)
    ensures
        final(dest)@ == old(dest)@ + loading_text(registry@),
{
    let ghost start = dest@;
    write_fnptr_struct_def(dest);
    write_ptrs(registry, dest);
    write_fn_mods(registry, dest);
    write_panicking_fns(registry, dest);
    write_load_fn(registry, dest);
    proof {
        let storage = storage_text(registry@.cmds);
        let loaders = loaders_text(registry@.api, registry@.aliases, registry@.cmds);
        let stub = stub_text(registry@.api);
        lemma_appended(start, FNPTR_STRUCT@, storage);
        lemma_appended(start, FNPTR_STRUCT@ + storage, loaders);
        lemma_appended(start, FNPTR_STRUCT@ + storage + loaders, stub);
        lemma_appended(
            start,
            FNPTR_STRUCT@ + storage + loaders + stub,
            load_fn_text(registry@.cmds),
        );
    }
}

fn write_all(registry: &Registry, rules: &RuleSet, dest: &mut String)
    ensures
        final(dest)@ == old(dest)@ + artifact(registry@, rules@),
{
    let ghost start = dest@;
    write_surface(registry, rules, dest);
    write_loading(registry, dest);
    proof {
        lemma_appended(start, surface_text(registry@, rules@), loading_text(registry@));
    }
}

/// Generates the bindings for `registry` under `rules`.
///
/// Fails, with no text, if the rules are ambiguous or the registry
/// contradicts itself.
pub fn generate(registry: &Registry, rules: &RuleSet) -> (r: Result<String, GenerationError>)
    ensures
        match r {
            Ok(text) => generation_result(registry@, rules@) == Ok::<Seq<char>, GenerationError>(
                text@,
            ),
            Err(e) => generation_result(registry@, rules@) == Err::<Seq<char>, GenerationError>(e),
        },
{
    match rules.check() {
        Ok(_) => {},
        Err(e) => {
            return Err(e);
        },
    }
    match registry.check() {
        Ok(_) => {},
        Err(e) => {
            return Err(e);
        },
    }
    let mut text = String::new();
    write_all(registry, rules, &mut text);
    proof {
        assert(text@ =~= artifact(registry@, rules@));
    }
    Ok(text)
}

/// Appends the bindings for `registry` under `rules` to `dest`, or leaves
/// `dest` as it is where generation fails.
pub fn write_bindings(registry: &Registry, rules: &RuleSet, dest: &mut String) -> (r: Result<
    (),
    GenerationError,
>)
    ensures
        match r {
            Ok(_) => generation_fault(registry@, rules@).is_none() && final(dest)@ == old(dest)@
                + artifact(registry@, rules@),
            Err(e) => generation_fault(registry@, rules@) == Some(e) && final(dest)@ == old(
                dest,
            )@,
        },
{
    match generate(registry, rules) {
        Ok(text) => {
            dest.append(text.as_str());
            Ok(())
        },
        Err(e) => Err(e),
    }
}

impl Generator for GlobalTypedGenerator {
    /// Appends the bindings for `registry` under the standard rules.
    fn write(&self, registry: &Registry, dest: &mut String) -> (r: Result<(), GenerationError>)
        ensures
            match r {
                Ok(_) => registry_fault(registry@).is_none() && final(dest)@ == old(dest)@
                    + artifact(registry@, standard_rules()),
                Err(e) => registry_fault(registry@) == Some(e) && final(dest)@ == old(dest)@,
            },
    {
        let rules = RuleSet::standard();
        write_bindings(registry, &rules, dest)
    }
}

} // verus!
