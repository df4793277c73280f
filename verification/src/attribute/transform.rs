use vstd::prelude::*;
use crate::attribute::arguments::{
    argument_lookup_finds_the_first, is_first_value, lemma_only_allowed_names,
    has_tokens, list_arguments, meta_parts, named_arguments, nested_rules, optional_argument,
    owned_arguments, reject_unknown_arguments, require_no_arguments, required_argument, rule_name,
    single_value_argument, spec_find_argument, spec_first_unknown, spec_named_arguments_of,
    spec_single_value, RuleList, RuleMeta, RuleValue,
};
use crate::attribute::types::{collection_inner, spec_collection_inner, spec_wrapper_inner, wrapper_inner, TypeShape};
use crate::text::{str_eq, surround};
use vstd::string::StringExecFns;

verus! {

/// What a `#[transform(...)]` rule does to a field, as the derive emits it.
pub enum TransformPlan<'a, E> {
    /// Apply the inner plan to the value inside an `Option`, when there is one.
    WhenSome(Box<TransformPlan<'a, E>>),
    /// Apply each plan, in order, to every element of a collection.
    Each(Vec<TransformPlan<'a, E>>),
    /// Call the named transformer without arguments.
    Apply(&'a str),
    Replace { from: &'a RuleValue<E>, to: &'a RuleValue<E> },
    Clamp { minimum: &'a RuleValue<E>, maximum: &'a RuleValue<E> },
    /// Round, to the given precision or to zero digits.
    Round { precision: Option<&'a RuleValue<E>> },
    Custom { function: &'a RuleValue<E> },
    /// Call the named transformer with one value.
    ApplyWith(&'a str, &'a RuleValue<E>),
    /// Apply the transformations of a nested input.
    Nested,
}

/// The content of a `TransformPlan`, without references.
pub enum TransformStep<E> {
    WhenSome(Box<TransformStep<E>>),
    Each(Seq<TransformStep<E>>),
    Apply(Seq<char>),
    Replace { from: RuleValue<E>, to: RuleValue<E> },
    Clamp { minimum: RuleValue<E>, maximum: RuleValue<E> },
    Round { precision: Option<RuleValue<E>> },
    Custom { function: RuleValue<E> },
    ApplyWith(Seq<char>, RuleValue<E>),
    Nested,
}

/// The content of `plan`.
pub open spec fn step_of<'a, E>(plan: TransformPlan<'a, E>) -> TransformStep<E>
    decreases plan, 1int,
{
    match plan {
        TransformPlan::WhenSome(inner) => TransformStep::WhenSome(Box::new(step_of(*inner))),
        TransformPlan::Each(plans) => TransformStep::Each(steps_of(plans@)),
        TransformPlan::Apply(name) => TransformStep::Apply(name@),
        TransformPlan::Replace { from, to } => TransformStep::Replace { from: *from, to: *to },
        TransformPlan::Clamp { minimum, maximum } => TransformStep::Clamp {
            minimum: *minimum,
            maximum: *maximum,
        },
        TransformPlan::Round { precision } => TransformStep::Round {
            precision: match precision {
                Some(p) => Some(*p),
                None => None,
            },
        },
        TransformPlan::Custom { function } => TransformStep::Custom { function: *function },
        TransformPlan::ApplyWith(name, value) => TransformStep::ApplyWith(name@, *value),
        TransformPlan::Nested => TransformStep::Nested,
    }
}

/// The contents of `plans`, in order.
pub open spec fn steps_of<'a, E>(plans: Seq<TransformPlan<'a, E>>) -> Seq<TransformStep<E>>
    decreases plans, 0int,
{
    if plans.len() == 0 {
        Seq::empty()
    } else {
        steps_of(plans.drop_last()).push(step_of(plans.last()))
    }
}

/// The transformers that take no argument.
pub open spec fn is_plain_transformer(name: Seq<char>) -> bool {
    ||| name == "trim"@
    ||| name == "trim_start"@
    ||| name == "trim_end"@
    ||| name == "lowercase"@
    ||| name == "uppercase"@
    ||| name == "capitalize"@
    ||| name == "titlecase"@
    ||| name == "collapse_whitespace"@
    ||| name == "remove_whitespace"@
    ||| name == "normalize_nfc"@
    ||| name == "normalize_nfkc"@
    ||| name == "abs"@
    ||| name == "floor"@
    ||| name == "ceil"@
    ||| name == "sort"@
    ||| name == "dedup"@
}

/// The transformers that take one value.
pub open spec fn is_valued_transformer(name: Seq<char>) -> bool {
    name == "truncate"@ || name == "strip_prefix"@ || name == "strip_suffix"@
}

/// The two required arguments `first` and `second` of `rule`, which accepts
/// no others.
pub open spec fn spec_two_arguments<E>(
    arguments: Option<RuleList<E>>,
    rule: Seq<char>,
    first: Seq<char>,
    second: Seq<char>,
) -> Result<(RuleValue<E>, RuleValue<E>), Seq<char>> {
    match spec_named_arguments_of(arguments, rule) {
        Err(message) => Err(message),
        Ok(pairs) => match spec_find_argument(pairs, first) {
            None => Err("missing required `"@ + first + "` argument"@),
            Some(a) => match spec_find_argument(pairs, second) {
                None => Err("missing required `"@ + second + "` argument"@),
                Some(b) => match spec_first_unknown(pairs, seq![first, second]) {
                    Some(unknown) => Err("unknown `"@ + unknown + "` argument"@),
                    None => Ok((a, b)),
                },
            },
        },
    }
}

/// What the rule `rule` does to a field of type `ty`: inside an `Option`, it
/// applies to the wrapped value.
pub open spec fn spec_transform<E, T>(rule: RuleMeta<E>, ty: TypeShape<T>) -> Result<TransformStep<E>, Seq<char>>
    decreases rule, 2int,
{
    match spec_wrapper_inner(ty, "Option"@) {
        Some(inner) => match spec_transform_non_optional(rule, inner) {
            Ok(step) => Ok(TransformStep::WhenSome(Box::new(step))),
            Err(message) => Err(message),
        },
        None => spec_transform_non_optional(rule, ty),
    }
}

/// What the rules `rules` do, in order, to an element of type `ty`; the first
/// refused rule decides the complaint.
pub open spec fn spec_transform_each<E, T>(rules: Seq<RuleMeta<E>>, ty: TypeShape<T>) -> Result<
    Seq<TransformStep<E>>,
    Seq<char>,
>
    decreases rules, 0int,
{
    if rules.len() == 0 {
        Ok(Seq::empty())
    } else {
        match spec_transform_each(rules.drop_last(), ty) {
            Err(message) => Err(message),
            Ok(steps) => match spec_transform(rules.last(), ty) {
                Err(message) => Err(message),
                Ok(step) => Ok(steps.push(step)),
            },
        }
    }
}

/// What the rule `rule` does to a value of type `ty`, which is not unwrapped.
pub open spec fn spec_transform_non_optional<E, T>(rule: RuleMeta<E>, ty: TypeShape<T>) -> Result<
    TransformStep<E>,
    Seq<char>,
>
    decreases rule, 1int,
{
    match rule_name(rule) {
        None => Err("rule names must be single identifiers"@),
        Some(name) => {
            let arguments = list_arguments(rule);
            if name@ == "each"@ {
                match arguments {
                    None => Err("`"@ + "each"@ + "` requires one or more nested rules"@),
                    Some(RuleList::Unparsable(complaint)) => Err(complaint@),
                    Some(RuleList::Parsed(metas)) => if metas@.len() == 0 {
                        Err("`"@ + "each"@ + "` must not be empty"@)
                    } else {
                        match spec_collection_inner(ty) {
                            None => Err("`each` requires Vec<T>, [T; N], or [T]"@),
                            Some(inner) => {
                                proof {
                                    assert(decreases_to!(rule => metas@));
                                }
                                match spec_transform_each(metas@, inner) {
                                    Ok(steps) => Ok(TransformStep::Each(steps)),
                                    Err(message) => Err(message),
                                }
                            },
                        }
                    },
                }
            } else if is_plain_transformer(name@) {
                if rule is NameValue || has_tokens(arguments) {
                    Err("`"@ + name@ + "` does not accept arguments"@)
                } else {
                    Ok(TransformStep::Apply(name@))
                }
            } else if name@ == "replace"@ {
                match spec_two_arguments(arguments, "replace"@, "from"@, "to"@) {
                    Ok((from, to)) => Ok(TransformStep::Replace { from, to }),
                    Err(message) => Err(message),
                }
            } else if name@ == "clamp"@ {
                match spec_two_arguments(arguments, "clamp"@, "min"@, "max"@) {
                    Ok((minimum, maximum)) => Ok(TransformStep::Clamp { minimum, maximum }),
                    Err(message) => Err(message),
                }
            } else if name@ == "round"@ {
                if rule is NameValue {
                    Err("use `round(precision = n)` to configure precision"@)
                } else {
                    match spec_named_arguments_of(arguments, "round"@) {
                        Err(message) => Err(message),
                        Ok(pairs) => match spec_first_unknown(pairs, seq!["precision"@]) {
                            Some(unknown) => Err("unknown `"@ + unknown + "` argument"@),
                            None => Ok(
                                TransformStep::Round { precision: spec_find_argument(pairs, "precision"@) },
                            ),
                        },
                    }
                }
            } else if name@ == "custom"@ {
                match rule {
                    RuleMeta::NameValue { value, .. } => Ok(TransformStep::Custom { function: value }),
                    _ => match spec_named_arguments_of(arguments, "custom"@) {
                        Err(message) => Err(message),
                        Ok(pairs) => match spec_find_argument(pairs, "function"@) {
                            None => Err("missing required `"@ + "function"@ + "` argument"@),
                            Some(function) => match spec_first_unknown(pairs, seq!["function"@]) {
                                Some(unknown) => Err("unknown `"@ + unknown + "` argument"@),
                                None => Ok(TransformStep::Custom { function }),
                            },
                        },
                    },
                }
            } else if is_valued_transformer(name@) {
                match spec_single_value(rule, arguments, name@) {
                    Ok(value) => Ok(TransformStep::ApplyWith(name@, value)),
                    Err(message) => Err(message),
                }
            } else {
                Err("unknown input transformer `"@ + name@ + "`"@)
            }
        },
    }
}

fn is_plain_transformer_name(name: &str) -> (plain: bool)
    ensures
        plain == is_plain_transformer(name@),
{
    str_eq(name, "trim") || str_eq(name, "trim_start") || str_eq(name, "trim_end") || str_eq(
        name,
        "lowercase",
    ) || str_eq(name, "uppercase") || str_eq(name, "capitalize") || str_eq(name, "titlecase")
        || str_eq(name, "collapse_whitespace") || str_eq(name, "remove_whitespace") || str_eq(
        name,
        "normalize_nfc",
    ) || str_eq(name, "normalize_nfkc") || str_eq(name, "abs") || str_eq(name, "floor") || str_eq(
        name,
        "ceil",
    ) || str_eq(name, "sort") || str_eq(name, "dedup")
}

fn is_valued_transformer_name(name: &str) -> (valued: bool)
    ensures
        valued == is_valued_transformer(name@),
{
    str_eq(name, "truncate") || str_eq(name, "strip_prefix") || str_eq(name, "strip_suffix")
}

/// The two required arguments `first` and `second` of `rule`.
pub fn two_arguments<'a, E>(arguments: Option<&'a RuleList<E>>, rule: &str, first: &str, second: &str) -> (found: Result<
    (&'a RuleValue<E>, &'a RuleValue<E>),
    String,
>)
    ensures
        match (found, spec_two_arguments(owned_arguments(arguments), rule@, first@, second@)) {
            (Ok((a, b)), Ok((x, y))) => *a == x && *b == y,
            (Err(message), Err(expected)) => message@ == expected,
            _ => false,
        },
{
    let parsed = match named_arguments(arguments, rule) {
        Ok(parsed) => parsed,
        Err(message) => {
            return Err(message);
        },
    };
    let a = match required_argument(&parsed, first) {
        Ok(a) => a,
        Err(message) => {
            return Err(message);
        },
    };
    let b = match required_argument(&parsed, second) {
        Ok(b) => b,
        Err(message) => {
            return Err(message);
        },
    };
    let allowed: [&str; 2] = [first, second];
    assert(allowed@.map_values(|n: &str| n@) =~= seq![first@, second@]);
    match reject_unknown_arguments(&parsed, allowed.as_slice()) {
        Ok(()) => Ok((a, b)),
        Err(message) => Err(message),
    }
}

/// What the rule `rule` does to a field of type `ty`.
pub fn transform_plan<'a, E, T>(rule: &'a RuleMeta<E>, ty: &TypeShape<T>) -> (plan: Result<TransformPlan<'a, E>, String>)
    ensures
        match (plan, spec_transform(*rule, *ty)) {
            (Ok(p), Ok(step)) => step_of(p) == step,
            (Err(message), Err(expected)) => message@ == expected,
            _ => false,
        },
    decreases rule, 2int,
{
    match wrapper_inner(ty, "Option") {
        Some(inner) => match transform_plan_non_optional(rule, inner) {
            Ok(plan) => Ok(TransformPlan::WhenSome(Box::new(plan))),
            Err(message) => Err(message),
        },
        None => transform_plan_non_optional(rule, ty),
    }
}

/// What the rules `rules` do, in order, to an element of type `ty`.
pub fn transform_each<'a, E, T>(rules: &'a Vec<RuleMeta<E>>, ty: &TypeShape<T>) -> (plans: Result<
    Vec<TransformPlan<'a, E>>,
    String,
>)
    ensures
        match (plans, spec_transform_each(rules@, *ty)) {
            (Ok(p), Ok(steps)) => steps_of(p@) == steps,
            (Err(message), Err(expected)) => message@ == expected,
            _ => false,
        },
    decreases rules, 0int,
{
    let mut plans: Vec<TransformPlan<'a, E>> = Vec::new();
    let mut i: usize = 0;
    assert(rules@.take(0) =~= Seq::<RuleMeta<E>>::empty());
    while i < rules.len()
        invariant
            i <= rules.len(),
            spec_transform_each(rules@.take(i as int), *ty) == Ok::<Seq<TransformStep<E>>, Seq<char>>(
                steps_of(plans@),
            ),
        decreases rules.len() - i,
    {
        let ghost prefix = rules@.take(i as int + 1);
        assert(prefix.drop_last() == rules@.take(i as int));
        assert(prefix.last() == rules@[i as int]);
        assert(decreases_to!(rules => rules[i as int]));
        match transform_plan(&rules[i], ty) {
            Ok(plan) => {
                let ghost before = plans@;
                plans.push(plan);
                assert(plans@.drop_last() == before);
            },
            Err(message) => {
                proof {
                    lemma_transform_each_error_persists(rules@, *ty, i as int + 1);
                }
                return Err(message);
            },
        }
        i += 1;
    }
    assert(rules@.take(rules.len() as int) == rules@);
    Ok(plans)
}

pub(crate) proof fn lemma_transform_each_error_persists<E, T>(rules: Seq<RuleMeta<E>>, ty: TypeShape<T>, n: int)
    requires
        0 <= n <= rules.len(),
        spec_transform_each(rules.take(n), ty) is Err,
    ensures
        spec_transform_each(rules, ty) == spec_transform_each(rules.take(n), ty),
    decreases rules.len() - n,
{
    if n < rules.len() {
        assert(rules.take(n + 1).drop_last() == rules.take(n));
        lemma_transform_each_error_persists(rules, ty, n + 1);
    } else {
        assert(rules.take(n) == rules);
    }
}

/// What the rule `rule` does to a value of type `ty`, which is not unwrapped.
pub fn transform_plan_non_optional<'a, E, T>(rule: &'a RuleMeta<E>, ty: &TypeShape<T>) -> (plan: Result<
    TransformPlan<'a, E>,
    String,
>)
    ensures
        match (plan, spec_transform_non_optional(*rule, *ty)) {
            (Ok(p), Ok(step)) => step_of(p) == step,
            (Err(message), Err(expected)) => message@ == expected,
            _ => false,
        },
    decreases rule, 1int,
{
    let (name, arguments) = match meta_parts(rule) {
        Ok(parts) => parts,
        Err(message) => {
            return Err(message);
        },
    };
    if str_eq(name, "each") {
        let rules = match nested_rules(arguments, "each") {
            Ok(rules) => rules,
            Err(message) => {
                return Err(message);
            },
        };
        let inner = match collection_inner(ty) {
            Some(inner) => inner,
            None => {
                return Err(String::from_str("`each` requires Vec<T>, [T; N], or [T]"));
            },
        };
        proof {
            assert(decreases_to!(rule => *rules));
        }
        return match transform_each(rules, inner) {
            Ok(plans) => Ok(TransformPlan::Each(plans)),
            Err(message) => Err(message),
        };
    }
    if is_plain_transformer_name(name) {
        return match require_no_arguments(rule, arguments, name) {
            Ok(()) => Ok(TransformPlan::Apply(name)),
            Err(message) => Err(message),
        };
    }
    if str_eq(name, "replace") {
        return match two_arguments(arguments, "replace", "from", "to") {
            Ok((from, to)) => Ok(TransformPlan::Replace { from, to }),
            Err(message) => Err(message),
        };
    }
    if str_eq(name, "clamp") {
        return match two_arguments(arguments, "clamp", "min", "max") {
            Ok((minimum, maximum)) => Ok(TransformPlan::Clamp { minimum, maximum }),
            Err(message) => Err(message),
        };
    }
    if str_eq(name, "round") {
        if let RuleMeta::NameValue { .. } = rule {
            return Err(String::from_str("use `round(precision = n)` to configure precision"));
        }
        let parsed = match named_arguments(arguments, "round") {
            Ok(parsed) => parsed,
            Err(message) => {
                return Err(message);
            },
        };
        let precision = optional_argument(&parsed, "precision");
        let allowed: [&str; 1] = ["precision"];
        assert(allowed@.map_values(|n: &str| n@) =~= seq!["precision"@]);
        return match reject_unknown_arguments(&parsed, allowed.as_slice()) {
            Ok(()) => Ok(TransformPlan::Round { precision }),
            Err(message) => Err(message),
        };
    }
    if str_eq(name, "custom") {
        if let RuleMeta::NameValue { value, .. } = rule {
            return Ok(TransformPlan::Custom { function: value });
        }
        let parsed = match named_arguments(arguments, "custom") {
            Ok(parsed) => parsed,
            Err(message) => {
                return Err(message);
            },
        };
        let function = match required_argument(&parsed, "function") {
            Ok(function) => function,
            Err(message) => {
                return Err(message);
            },
        };
        let allowed: [&str; 1] = ["function"];
        assert(allowed@.map_values(|n: &str| n@) =~= seq!["function"@]);
        return match reject_unknown_arguments(&parsed, allowed.as_slice()) {
            Ok(()) => Ok(TransformPlan::Custom { function }),
            Err(message) => Err(message),
        };
    }
    if is_valued_transformer_name(name) {
        return match single_value_argument(rule, arguments, name) {
            Ok(value) => Ok(TransformPlan::ApplyWith(name, value)),
            Err(message) => Err(message),
        };
    }
    Err(surround("unknown input transformer `", name, "`"))
}

/// `step` applied inside an `Option` when `ty` is one.
pub open spec fn spec_wrap_optional<E, T>(ty: TypeShape<T>, step: TransformStep<E>) -> TransformStep<E> {
    match spec_wrapper_inner(ty, "Option"@) {
        Some(_) => TransformStep::WhenSome(Box::new(step)),
        None => step,
    }
}

/// The transformation that the validation rule `rule` implies for a field of
/// type `ty`: a nested input is transformed before it is validated, also
/// inside `each`; other validation rules imply none.
pub open spec fn spec_nested_transform<E, T>(rule: RuleMeta<E>, ty: TypeShape<T>) -> Result<
    Option<TransformStep<E>>,
    Seq<char>,
>
    decreases rule, 1int,
{
    match rule_name(rule) {
        None => Err("rule names must be single identifiers"@),
        Some(name) => {
            let arguments = list_arguments(rule);
            if name@ == "nested"@ {
                if rule is NameValue || has_tokens(arguments) {
                    Err("`"@ + "nested"@ + "` does not accept arguments"@)
                } else {
                    Ok(Some(spec_wrap_optional(ty, TransformStep::Nested)))
                }
            } else if name@ != "each"@ {
                Ok(None)
            } else {
                match arguments {
                    None => Err("`"@ + "each"@ + "` requires one or more nested rules"@),
                    Some(RuleList::Unparsable(complaint)) => Err(complaint@),
                    Some(RuleList::Parsed(metas)) => if metas@.len() == 0 {
                        Err("`"@ + "each"@ + "` must not be empty"@)
                    } else {
                        let collection = match spec_wrapper_inner(ty, "Option"@) {
                            Some(inner) => inner,
                            None => ty,
                        };
                        match spec_collection_inner(collection) {
                            None => Err("`each` requires Vec<T>, [T; N], or [T]"@),
                            Some(inner) => {
                                proof {
                                    assert(decreases_to!(rule => metas@));
                                }
                                match spec_nested_transform_each(metas@, inner) {
                                    Err(message) => Err(message),
                                    Ok(steps) => if steps.len() == 0 {
                                        Ok(None)
                                    } else {
                                        Ok(Some(spec_wrap_optional(ty, TransformStep::Each(steps))))
                                    },
                                }
                            },
                        }
                    },
                }
            }
        },
    }
}

/// The transformations that the rules `rules` imply for an element of type
/// `ty`, in order, leaving out rules that imply none.
pub open spec fn spec_nested_transform_each<E, T>(rules: Seq<RuleMeta<E>>, ty: TypeShape<T>) -> Result<
    Seq<TransformStep<E>>,
    Seq<char>,
>
    decreases rules, 0int,
{
    if rules.len() == 0 {
        Ok(Seq::empty())
    } else {
        match spec_nested_transform_each(rules.drop_last(), ty) {
            Err(message) => Err(message),
            Ok(steps) => match spec_nested_transform(rules.last(), ty) {
                Err(message) => Err(message),
                Ok(None) => Ok(steps),
                Ok(Some(step)) => Ok(steps.push(step)),
            },
        }
    }
}

fn wrap_optional<'a, E, T>(ty: &TypeShape<T>, plan: TransformPlan<'a, E>) -> (wrapped: TransformPlan<'a, E>)
    ensures
        step_of(wrapped) == spec_wrap_optional(*ty, step_of(plan)),
{
    match wrapper_inner(ty, "Option") {
        Some(_) => TransformPlan::WhenSome(Box::new(plan)),
        None => plan,
    }
}

/// The transformation that the validation rule `rule` implies for a field of
/// type `ty`, if any.
pub fn nested_transform_plan<'a, E, T>(rule: &'a RuleMeta<E>, ty: &TypeShape<T>) -> (plan: Result<
    Option<TransformPlan<'a, E>>,
    String,
>)
    ensures
        match (plan, spec_nested_transform(*rule, *ty)) {
            (Ok(Some(p)), Ok(Some(step))) => step_of(p) == step,
            (Ok(None), Ok(None)) => true,
            (Err(message), Err(expected)) => message@ == expected,
            _ => false,
        },
    decreases rule, 1int,
{
    let (name, arguments) = match meta_parts(rule) {
        Ok(parts) => parts,
        Err(message) => {
            return Err(message);
        },
    };
    if str_eq(name, "nested") {
        return match require_no_arguments(rule, arguments, "nested") {
            Ok(()) => Ok(Some(wrap_optional(ty, TransformPlan::Nested))),
            Err(message) => Err(message),
        };
    }
    if !str_eq(name, "each") {
        return Ok(None);
    }
    let rules = match nested_rules(arguments, "each") {
        Ok(rules) => rules,
        Err(message) => {
            return Err(message);
        },
    };
    let collection = match wrapper_inner(ty, "Option") {
        Some(inner) => inner,
        None => ty,
    };
    let inner = match collection_inner(collection) {
        Some(inner) => inner,
        None => {
            return Err(String::from_str("`each` requires Vec<T>, [T; N], or [T]"));
        },
    };
    proof {
        assert(decreases_to!(rule => *rules));
    }
    match nested_transform_each(rules, inner) {
        Err(message) => Err(message),
        Ok(plans) => {
            if plans.len() == 0 {
                Ok(None)
            } else {
                Ok(Some(wrap_optional(ty, TransformPlan::Each(plans))))
            }
        },
    }
}

/// The transformations that the rules `rules` imply for an element of type `ty`.
pub fn nested_transform_each<'a, E, T>(rules: &'a Vec<RuleMeta<E>>, ty: &TypeShape<T>) -> (plans: Result<
    Vec<TransformPlan<'a, E>>,
    String,
>)
    ensures
        match (plans, spec_nested_transform_each(rules@, *ty)) {
            (Ok(p), Ok(steps)) => steps_of(p@) == steps,
            (Err(message), Err(expected)) => message@ == expected,
            _ => false,
        },
    decreases rules, 0int,
{
    let mut plans: Vec<TransformPlan<'a, E>> = Vec::new();
    let mut i: usize = 0;
    assert(rules@.take(0) =~= Seq::<RuleMeta<E>>::empty());
    while i < rules.len()
        invariant
            i <= rules.len(),
            spec_nested_transform_each(rules@.take(i as int), *ty) == Ok::<
                Seq<TransformStep<E>>,
                Seq<char>,
            >(steps_of(plans@)),
        decreases rules.len() - i,
    {
        let ghost prefix = rules@.take(i as int + 1);
        assert(prefix.drop_last() == rules@.take(i as int));
        assert(prefix.last() == rules@[i as int]);
        assert(decreases_to!(rules => rules[i as int]));
        match nested_transform_plan(&rules[i], ty) {
            Ok(Some(plan)) => {
                let ghost before = plans@;
                plans.push(plan);
                assert(plans@.drop_last() == before);
            },
            Ok(None) => {},
            Err(message) => {
                proof {
                    lemma_nested_each_error_persists(rules@, *ty, i as int + 1);
                }
                return Err(message);
            },
        }
        i += 1;
    }
    assert(rules@.take(rules.len() as int) == rules@);
    Ok(plans)
}

pub(crate) proof fn lemma_nested_each_error_persists<E, T>(rules: Seq<RuleMeta<E>>, ty: TypeShape<T>, n: int)
    requires
        0 <= n <= rules.len(),
        spec_nested_transform_each(rules.take(n), ty) is Err,
    ensures
        spec_nested_transform_each(rules, ty) == spec_nested_transform_each(rules.take(n), ty),
    decreases rules.len() - n,
{
    if n < rules.len() {
        assert(rules.take(n + 1).drop_last() == rules.take(n));
        lemma_nested_each_error_persists(rules, ty, n + 1);
    } else {
        assert(rules.take(n) == rules);
    }
}


/// `clamp` clamps between its `min` and `max` arguments: whenever a rule
/// plans a clamp, the rule is `clamp`, its arguments are `name = value`
/// pairs, the lower bound is the value of the (first) argument called `min`
/// and the upper bound that of the argument called `max`.
pub proof fn clamp_bounds_come_from_min_and_max<E, T>(rule: RuleMeta<E>, ty: TypeShape<T>)
    requires
        spec_transform_non_optional(rule, ty) matches Ok(TransformStep::Clamp { .. }),
    ensures
        rule_name(rule) matches Some(n) && n@ == "clamp"@,
        spec_named_arguments_of(list_arguments(rule), "clamp"@) is Ok,
        ({
            let pairs = spec_named_arguments_of(list_arguments(rule), "clamp"@)->Ok_0;
            let step = spec_transform_non_optional(rule, ty)->Ok_0;
            is_first_value(pairs, "min"@, step->Clamp_minimum) && is_first_value(pairs, "max"@, step->Clamp_maximum)
        }),
{
    let arguments = list_arguments(rule);
    let pairs = spec_named_arguments_of(arguments, "clamp"@)->Ok_0;
    argument_lookup_finds_the_first(pairs, "min"@);
    argument_lookup_finds_the_first(pairs, "max"@);
}

/// A `clamp` rule whose arguments are `min` and `max` and nothing else plans
/// a clamp between them.
pub proof fn clamp_with_both_bounds_is_accepted<E, T>(rule: RuleMeta<E>, ty: TypeShape<T>)
    requires
        rule_name(rule) matches Some(n) && n@ == "clamp"@,
        spec_named_arguments_of(list_arguments(rule), "clamp"@) is Ok,
        spec_find_argument(spec_named_arguments_of(list_arguments(rule), "clamp"@)->Ok_0, "min"@) is Some,
        spec_find_argument(spec_named_arguments_of(list_arguments(rule), "clamp"@)->Ok_0, "max"@) is Some,
        forall|i: int|
            0 <= i < spec_named_arguments_of(list_arguments(rule), "clamp"@)->Ok_0.len() ==> (#[trigger] spec_named_arguments_of(
                list_arguments(rule),
                "clamp"@,
            )->Ok_0[i]).0 == "min"@ || spec_named_arguments_of(list_arguments(rule), "clamp"@)->Ok_0[i].0 == "max"@,
    ensures
        spec_transform_non_optional(rule, ty) == Ok::<TransformStep<E>, Seq<char>>(
            TransformStep::Clamp {
                minimum: spec_find_argument(spec_named_arguments_of(list_arguments(rule), "clamp"@)->Ok_0, "min"@)->Some_0,
                maximum: spec_find_argument(spec_named_arguments_of(list_arguments(rule), "clamp"@)->Ok_0, "max"@)->Some_0,
            },
        ),
{
    let pairs = spec_named_arguments_of(list_arguments(rule), "clamp"@)->Ok_0;
    lemma_only_allowed_names(pairs, seq!["min"@, "max"@]);
    reveal_strlit("clamp");
    assert("clamp"@ != "each"@) by {
        reveal_strlit("each");
        assert("clamp"@[0] != "each"@[0]);
    }
    assert(!is_plain_transformer("clamp"@)) by {
        reveal_strlit("trim");
        assert("clamp"@[0] != "trim"@[0]);
        reveal_strlit("trim_start");
        assert("clamp"@[0] != "trim_start"@[0]);
        reveal_strlit("trim_end");
        assert("clamp"@[0] != "trim_end"@[0]);
        reveal_strlit("lowercase");
        assert("clamp"@[0] != "lowercase"@[0]);
        reveal_strlit("uppercase");
        assert("clamp"@[0] != "uppercase"@[0]);
        reveal_strlit("capitalize");
        assert("clamp"@[1] != "capitalize"@[1]);
        reveal_strlit("titlecase");
        assert("clamp"@[0] != "titlecase"@[0]);
        reveal_strlit("collapse_whitespace");
        assert("clamp"@[1] != "collapse_whitespace"@[1]);
        reveal_strlit("remove_whitespace");
        assert("clamp"@[0] != "remove_whitespace"@[0]);
        reveal_strlit("normalize_nfc");
        assert("clamp"@[0] != "normalize_nfc"@[0]);
        reveal_strlit("normalize_nfkc");
        assert("clamp"@[0] != "normalize_nfkc"@[0]);
        reveal_strlit("abs");
        assert("clamp"@[0] != "abs"@[0]);
        reveal_strlit("floor");
        assert("clamp"@[0] != "floor"@[0]);
        reveal_strlit("ceil");
        assert("clamp"@[1] != "ceil"@[1]);
        reveal_strlit("sort");
        assert("clamp"@[0] != "sort"@[0]);
        reveal_strlit("dedup");
        assert("clamp"@[0] != "dedup"@[0]);
    }
    assert("clamp"@ != "replace"@) by {
        reveal_strlit("replace");
        assert("clamp"@[0] != "replace"@[0]);
    }
}

} // verus!
