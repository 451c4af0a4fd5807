//! What holds of every wrapper and of every generation pass.

use vstd::prelude::*;
use crate::error::GenerationError;
use crate::generators::enum_item_text;
use crate::generators::global_typed_gen::{
    conversion_count, enums_text, generation_result, is_callback, kept_params, projected_names,
    projected_types, projection_count, result_names, result_types, returns_value,
    rustified_params, surface_params, trace_arguments, trace_items, wrapper_text, wrappers_text,
    CALLBACK_PLACEHOLDER, CALLBACK_WORD, TOO_MANY_PLACEHOLDER, TRACE_LIMIT,
};
use crate::generators::templates::{COMMA, REFERENCE, TYPES_PREFIX};
use crate::registry::{AliasView, BindingView, CmdView, EnumView, Registry, RegistryView};
use crate::rules::{
    conversion_of, lemma_unambiguous_exclusive, projection_of, unambiguous, RuleSet, RuleSetView,
};
use crate::text::{folded, joined, lemma_appended, occurs_ignoring_case};

verus! {

proof fn lemma_projected_lengths(params: Seq<BindingView>, rules: RuleSetView)
    ensures
        projected_names(params, rules).len() == projection_count(params, rules),
        projected_types(params, rules).len() == projection_count(params, rules),
    decreases params.len(),
{
    if params.len() > 0 {
        lemma_projected_lengths(params.drop_last(), rules);
    }
}

/// The tuple that a wrapper returns has one element for the call's own
/// result, where the native return type is not empty, and one for each
/// parameter that matches a projection rule.  The tuple's type has as many.
pub proof fn lemma_result_arity(cmd: CmdView, rules: RuleSetView)
    ensures
        result_names(cmd, rules).len() == (if returns_value(cmd.proto.ty) {
            1nat
        } else {
            0nat
        }) + projection_count(cmd.params, rules),
        result_types(cmd.params, cmd.proto.ty, rules).len() == result_names(cmd, rules).len(),
{
    lemma_projected_lengths(cmd.params, rules);
}

proof fn lemma_nothing_projected(params: Seq<BindingView>, rules: RuleSetView)
    requires
        projection_count(params, rules) == 0,
    ensures
        kept_params(params, rules) == params,
    decreases params.len(),
{
    if params.len() > 0 {
        lemma_nothing_projected(params.drop_last(), rules);
        assert(params.drop_last().push(params.last()) =~= params);
    } else {
        assert(kept_params(params, rules) =~= params);
    }
}

proof fn lemma_nothing_converted(params: Seq<BindingView>, rules: RuleSetView, i: int)
    requires
        conversion_count(params, rules) == 0,
        0 <= i < params.len(),
    ensures
        conversion_of(rules, params[i].ty).is_none(),
    decreases params.len(),
{
    if i < params.len() - 1 {
        lemma_nothing_converted(params.drop_last(), rules, i);
    }
}

/// The wrapper of a command has one parameter less than the command for each
/// parameter that matches a projection rule.
pub proof fn lemma_surface_count(cmd: CmdView, rules: RuleSetView)
    ensures
        surface_params(cmd.params, rules).len() + projection_count(cmd.params, rules)
            == cmd.params.len(),
{
    lemma_kept_count(cmd.params, rules);
}

proof fn lemma_kept_count(params: Seq<BindingView>, rules: RuleSetView)
    ensures
        kept_params(params, rules).len() + projection_count(params, rules) == params.len(),
    decreases params.len(),
{
    if params.len() > 0 {
        lemma_kept_count(params.drop_last(), rules);
    }
}

/// A command none of whose parameters matches a conversion or a projection
/// rule has its native parameters as surface parameters: the same names and
/// types in the same order.
pub proof fn lemma_unmatched_surface(cmd: CmdView, rules: RuleSetView)
    requires
        conversion_count(cmd.params, rules) == 0,
        projection_count(cmd.params, rules) == 0,
    ensures
        surface_params(cmd.params, rules) == cmd.params,
{
    lemma_nothing_projected(cmd.params, rules);
    assert forall|i: int| 0 <= i < cmd.params.len() implies rustified_params(cmd.params, rules)[i]
        == cmd.params[i] by {
        lemma_nothing_converted(cmd.params, rules, i);
    }
    assert(rustified_params(cmd.params, rules) =~= cmd.params);
}

proof fn lemma_wrappers_concat(
    a: Seq<CmdView>,
    b: Seq<CmdView>,
    aliases: Seq<AliasView>,
    rules: RuleSetView,
    trace_calls: bool,
)
    ensures
        wrappers_text(a + b, aliases, rules, trace_calls) == wrappers_text(
            a,
            aliases,
            rules,
            trace_calls,
        ) + wrappers_text(b, aliases, rules, trace_calls),
    decreases b.len(),
{
    let left = wrappers_text(a, aliases, rules, trace_calls);
    if b.len() == 0 {
        assert(a + b =~= a);
        assert(left + Seq::<char>::empty() =~= left);
    } else {
        lemma_wrappers_concat(a, b.drop_last(), aliases, rules, trace_calls);
        assert((a + b).drop_last() =~= a + b.drop_last());
        assert((a + b).last() == b.last());
        lemma_appended(
            left,
            wrappers_text(b.drop_last(), aliases, rules, trace_calls),
            wrapper_text(b.last(), aliases, rules, trace_calls),
        );
    }
}

proof fn lemma_enums_concat(a: Seq<EnumView>, b: Seq<EnumView>)
    ensures
        enums_text(a + b) == enums_text(a) + enums_text(b),
    decreases b.len(),
{
    if b.len() == 0 {
        assert(a + b =~= a);
        assert(enums_text(a) + Seq::<char>::empty() =~= enums_text(a));
    } else {
        lemma_enums_concat(a, b.drop_last());
        assert((a + b).drop_last() =~= a + b.drop_last());
        assert((a + b).last() == b.last());
        lemma_appended(
            enums_text(a),
            enums_text(b.drop_last()),
            enum_item_text(b.last(), TYPES_PREFIX@),
        );
    }
}

/// The wrappers stand in the order of the commands: the wrapper of the
/// command at `k` follows those of the commands before it and precedes those
/// of the commands after it.
pub proof fn lemma_wrappers_in_registry_order(
    cmds: Seq<CmdView>,
    aliases: Seq<AliasView>,
    rules: RuleSetView,
    trace_calls: bool,
    k: int,
)
    requires
        0 <= k < cmds.len(),
    ensures
        wrappers_text(cmds, aliases, rules, trace_calls) == wrappers_text(
            cmds.take(k),
            aliases,
            rules,
            trace_calls,
        ) + wrapper_text(cmds[k], aliases, rules, trace_calls) + wrappers_text(
            cmds.skip(k + 1),
            aliases,
            rules,
            trace_calls,
        ),
{
    let upto = cmds.take(k + 1);
    assert(upto + cmds.skip(k + 1) =~= cmds);
    assert(upto.drop_last() =~= cmds.take(k));
    assert(upto.last() == cmds[k]);
    lemma_wrappers_concat(upto, cmds.skip(k + 1), aliases, rules, trace_calls);
}

/// The constants stand in the order of the enums: the constant of the enum
/// at `k` follows those of the enums before it and precedes those of the
/// enums after it.
pub proof fn lemma_enums_in_registry_order(enums: Seq<EnumView>, k: int)
    requires
        0 <= k < enums.len(),
    ensures
        enums_text(enums) == enums_text(enums.take(k)) + enum_item_text(enums[k], TYPES_PREFIX@)
            + enums_text(enums.skip(k + 1)),
{
    let upto = enums.take(k + 1);
    assert(upto + enums.skip(k + 1) =~= enums);
    assert(upto.drop_last() =~= enums.take(k));
    assert(upto.last() == enums[k]);
    lemma_enums_concat(upto, enums.skip(k + 1));
}

/// Generation is a function of what the registry and the rules hold: two
/// passes over equal input yield the same text, or fail alike.
pub proof fn lemma_generation_deterministic(
    first: Registry,
    second: Registry,
    first_rules: RuleSet,
    second_rules: RuleSet,
)
    requires
        first@ == second@,
        first_rules@ == second_rules@,
    ensures
        generation_result(first@, first_rules@) == generation_result(second@, second_rules@),
{
}

/// Where one signature is registered in both tables, generation fails for
/// every registry, and yields no text.
pub proof fn lemma_ambiguity_rejected(registry: RegistryView, rules: RuleSetView, ty: Seq<char>)
    requires
        conversion_of(rules, ty).is_some(),
        projection_of(rules, ty).is_some(),
    ensures
        generation_result(registry, rules) == Err::<Seq<char>, GenerationError>(
            GenerationError::AmbiguousRule,
        ),
{
    if unambiguous(rules) {
        lemma_unambiguous_exclusive(rules, ty);
    }
}

/// A trace of no more arguments than the limit formats every one of them
/// by itself, in their order: a reference to the argument, or the fixed
/// placeholder where the parameter's name marks a function value.
pub proof fn lemma_trace_formats_each(surface: Seq<BindingView>, i: int)
    requires
        surface.len() <= TRACE_LIMIT,
        0 <= i < surface.len(),
    ensures
        trace_arguments(surface) == joined(trace_items(surface), COMMA@),
        trace_items(surface).len() == surface.len(),
        is_callback(surface[i].ident) ==> trace_items(surface)[i] == CALLBACK_PLACEHOLDER@,
        !is_callback(surface[i].ident) ==> trace_items(surface)[i] == REFERENCE@
            + surface[i].ident,
{
}

/// A trace of more arguments than the limit holds one fixed placeholder in
/// place of them all, whatever their names.
pub proof fn lemma_trace_beyond_limit(surface: Seq<BindingView>)
    requires
        surface.len() > TRACE_LIMIT,
    ensures
        trace_arguments(surface) == TOO_MANY_PLACEHOLDER@,
{
}

/// A name marks a function value wherever the word stands in it and
/// whatever the case of its letters.
pub proof fn lemma_callback_anywhere(before: Seq<char>, word: Seq<char>, after: Seq<char>)
    requires
        word.len() == CALLBACK_WORD@.len(),
        forall|j: int| 0 <= j < word.len() ==> folded(word[j]) == folded(CALLBACK_WORD@[j]),
    ensures
        is_callback(before + word + after),
{
    let name = before + word + after;
    let at = before.len() as int;
    assert forall|j: int| 0 <= j < CALLBACK_WORD@.len() implies folded(name[at + j]) == folded(
        #[trigger] CALLBACK_WORD@[j],
    ) by {
        assert(name[at + j] == word[j]);
    }
    assert(occurs_ignoring_case(name, CALLBACK_WORD@, at));
}

} // verus!
