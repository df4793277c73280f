use vstd::prelude::*;
use crate::attribute::arguments::{
    argument_lookup_finds_the_first, is_first_value, lemma_only_allowed_names,
    list_arguments, meta_parts, nested_rules, optional_argument,
    reject_unknown_arguments, required_argument, rule_name, spec_find_argument, spec_first_unknown,
    spec_validator_arguments, validator_arguments, NamedArgument, RuleList, RuleMeta, RuleValue,
};
use crate::attribute::types::{collection_inner, spec_collection_inner, spec_wrapper_inner, wrapper_inner, TypeShape};
use crate::text::{str_eq, surround};
use vstd::string::StringExecFns;

verus! {

/// How a validator is called on a field's value.
pub enum ValidatorCall<'a, E> {
    /// The named validator, on the value alone.
    Plain(&'a str),
    /// The named validator, with the argument as written.
    WithValue(&'a str, &'a RuleValue<E>),
    /// The named validator, with a reference to the argument.
    WithReference(&'a str, &'a RuleValue<E>),
    MultipleOf(&'a RuleValue<E>),
    Range { minimum: &'a RuleValue<E>, maximum: &'a RuleValue<E> },
    Length {
        minimum: Option<&'a RuleValue<E>>,
        maximum: Option<&'a RuleValue<E>>,
        exact: Option<&'a RuleValue<E>>,
    },
    OneOf(&'a RuleValue<E>),
    Custom(&'a RuleValue<E>),
}

/// The rule name reported with a violation: a fixed name, or the expression
/// given as `name = ...` of a custom validator.
pub enum RuleLabel<'a, E> {
    Name(&'a str),
    Expression(&'a RuleValue<E>),
}

/// What a `#[validate(...)]` rule checks on a field, as the derive emits it.
pub enum ValidationPlan<'a, E> {
    /// Check the value inside an `Option`, when there is one.
    WhenSome(Box<ValidationPlan<'a, E>>),
    /// Check every element of a collection, under the path `field[index]`.
    Each(Vec<ValidationPlan<'a, E>>),
    /// Validate a nested input and report its violations under the field's path.
    Nested,
    /// Call a validator and report a violation with this rule label and,
    /// when given, this message in place of the validator's.
    Check { call: ValidatorCall<'a, E>, rule: RuleLabel<'a, E>, message: Option<&'a str> },
}

/// The content of a `ValidatorCall`, without references.
pub enum CallStep<E> {
    Plain(Seq<char>),
    WithValue(Seq<char>, RuleValue<E>),
    WithReference(Seq<char>, RuleValue<E>),
    MultipleOf(RuleValue<E>),
    Range { minimum: RuleValue<E>, maximum: RuleValue<E> },
    Length { minimum: Option<RuleValue<E>>, maximum: Option<RuleValue<E>>, exact: Option<RuleValue<E>> },
    OneOf(RuleValue<E>),
    Custom(RuleValue<E>),
}

/// The content of a `RuleLabel`.
pub enum LabelStep<E> {
    Name(Seq<char>),
    Expression(RuleValue<E>),
}

/// The content of a `ValidationPlan`, without references.
pub enum ValidationStep<E> {
    WhenSome(Box<ValidationStep<E>>),
    Each(Seq<ValidationStep<E>>),
    Nested,
    Check { call: CallStep<E>, rule: LabelStep<E>, message: Option<Seq<char>> },
}

pub open spec fn owned_value<E>(value: Option<&RuleValue<E>>) -> Option<RuleValue<E>> {
    match value {
        Some(v) => Some(*v),
        None => None,
    }
}

/// The content of `call`.
pub open spec fn call_step_of<'a, E>(call: ValidatorCall<'a, E>) -> CallStep<E> {
    match call {
        ValidatorCall::Plain(name) => CallStep::Plain(name@),
        ValidatorCall::WithValue(name, value) => CallStep::WithValue(name@, *value),
        ValidatorCall::WithReference(name, value) => CallStep::WithReference(name@, *value),
        ValidatorCall::MultipleOf(value) => CallStep::MultipleOf(*value),
        ValidatorCall::Range { minimum, maximum } => CallStep::Range { minimum: *minimum, maximum: *maximum },
        ValidatorCall::Length { minimum, maximum, exact } => CallStep::Length {
            minimum: owned_value(minimum),
            maximum: owned_value(maximum),
            exact: owned_value(exact),
        },
        ValidatorCall::OneOf(values) => CallStep::OneOf(*values),
        ValidatorCall::Custom(function) => CallStep::Custom(*function),
    }
}

/// The content of `label`.
pub open spec fn label_step_of<'a, E>(label: RuleLabel<'a, E>) -> LabelStep<E> {
    match label {
        RuleLabel::Name(name) => LabelStep::Name(name@),
        RuleLabel::Expression(value) => LabelStep::Expression(*value),
    }
}

/// The content of `plan`.
pub open spec fn validation_step_of<'a, E>(plan: ValidationPlan<'a, E>) -> ValidationStep<E>
    decreases plan, 1int,
{
    match plan {
        ValidationPlan::WhenSome(inner) => ValidationStep::WhenSome(Box::new(validation_step_of(*inner))),
        ValidationPlan::Each(plans) => ValidationStep::Each(validation_steps_of(plans@)),
        ValidationPlan::Nested => ValidationStep::Nested,
        ValidationPlan::Check { call, rule, message } => ValidationStep::Check {
            call: call_step_of(call),
            rule: label_step_of(rule),
            message: match message {
                Some(m) => Some(m@),
                None => None,
            },
        },
    }
}

/// The contents of `plans`, in order.
pub open spec fn validation_steps_of<'a, E>(plans: Seq<ValidationPlan<'a, E>>) -> Seq<ValidationStep<E>>
    decreases plans, 0int,
{
    if plans.len() == 0 {
        Seq::empty()
    } else {
        validation_steps_of(plans.drop_last()).push(validation_step_of(plans.last()))
    }
}

/// The validators that take no argument.
pub open spec fn is_plain_validator(name: Seq<char>) -> bool {
    ||| name == "required"@
    ||| name == "not_empty"@
    ||| name == "not_blank"@
    ||| name == "email"@
    ||| name == "url"@
    ||| name == "uuid"@
    ||| name == "ip"@
    ||| name == "ipv4"@
    ||| name == "ipv6"@
    ||| name == "hostname"@
    ||| name == "slug"@
    ||| name == "ascii"@
    ||| name == "alphabetic"@
    ||| name == "alphanumeric"@
    ||| name == "numeric"@
    ||| name == "lowercase"@
    ||| name == "uppercase"@
    ||| name == "hex"@
    ||| name == "base64"@
    ||| name == "base64_url"@
    ||| name == "positive"@
    ||| name == "negative"@
    ||| name == "non_positive"@
    ||| name == "non_negative"@
    ||| name == "finite"@
    ||| name == "integer"@
    ||| name == "even"@
    ||| name == "odd"@
    ||| name == "unique"@
}

/// The validators that take the argument as written.
pub open spec fn is_value_validator(name: Seq<char>) -> bool {
    ||| name == "contains"@
    ||| name == "starts_with"@
    ||| name == "ends_with"@
    ||| name == "regex"@
    ||| name == "equals"@
    ||| name == "not_equals"@
}

/// The validators that take a reference to the argument.
pub open spec fn is_reference_validator(name: Seq<char>) -> bool {
    name == "min"@ || name == "max"@
}

/// The complaint about the first argument outside `allowed`, if any.
pub open spec fn unknown_complaint<E>(pairs: Seq<(Seq<char>, RuleValue<E>)>, allowed: Seq<Seq<char>>) -> Option<
    Seq<char>,
> {
    match spec_first_unknown(pairs, allowed) {
        Some(unknown) => Some("unknown `"@ + unknown + "` argument"@),
        None => None,
    }
}

/// The call that the named validator makes with the arguments `pairs`.
pub open spec fn spec_validator_call<E>(name: Seq<char>, pairs: Seq<(Seq<char>, RuleValue<E>)>) -> Result<
    CallStep<E>,
    Seq<char>,
> {
    if is_plain_validator(name) {
        match unknown_complaint(pairs, Seq::empty()) {
            Some(message) => Err(message),
            None => Ok(CallStep::Plain(name)),
        }
    } else if is_value_validator(name) || is_reference_validator(name) {
        match spec_find_argument(pairs, "value"@) {
            None => Err("missing required `"@ + "value"@ + "` argument"@),
            Some(value) => match unknown_complaint(pairs, seq!["value"@]) {
                Some(message) => Err(message),
                None => if is_value_validator(name) {
                    Ok(CallStep::WithValue(name, value))
                } else {
                    Ok(CallStep::WithReference(name, value))
                },
            },
        }
    } else if name == "multiple_of"@ {
        match spec_find_argument(pairs, "value"@) {
            None => Err("missing required `"@ + "value"@ + "` argument"@),
            Some(value) => match unknown_complaint(pairs, seq!["value"@]) {
                Some(message) => Err(message),
                None => Ok(CallStep::MultipleOf(value)),
            },
        }
    } else if name == "range"@ {
        match spec_find_argument(pairs, "min"@) {
            None => Err("missing required `"@ + "min"@ + "` argument"@),
            Some(minimum) => match spec_find_argument(pairs, "max"@) {
                None => Err("missing required `"@ + "max"@ + "` argument"@),
                Some(maximum) => match unknown_complaint(pairs, seq!["min"@, "max"@]) {
                    Some(message) => Err(message),
                    None => Ok(CallStep::Range { minimum, maximum }),
                },
            },
        }
    } else if name == "length"@ {
        let minimum = spec_find_argument(pairs, "min"@);
        let maximum = spec_find_argument(pairs, "max"@);
        let exact = spec_find_argument(pairs, "exact"@);
        if minimum is None && maximum is None && exact is None {
            Err("`length` requires `min`, `max`, or `exact`"@)
        } else if exact is Some && (minimum is Some || maximum is Some) {
            Err("`length(exact = ...)` cannot also use `min` or `max`"@)
        } else {
            match unknown_complaint(pairs, seq!["min"@, "max"@, "exact"@]) {
                Some(message) => Err(message),
                None => Ok(CallStep::Length { minimum, maximum, exact }),
            }
        }
    } else if name == "one_of"@ {
        match spec_find_argument(pairs, "values"@) {
            None => Err("missing required `"@ + "values"@ + "` argument"@),
            Some(values) => match unknown_complaint(pairs, seq!["values"@]) {
                Some(message) => Err(message),
                None => Ok(CallStep::OneOf(values)),
            },
        }
    } else {
        Err("unknown input validator `"@ + name + "`"@)
    }
}

/// What the rule `rule` checks on a field of type `ty`: `required` checks the
/// `Option` itself and is refused elsewhere; any other rule on an `Option`
/// checks the wrapped value when there is one.
pub open spec fn spec_validation<E, T>(rule: RuleMeta<E>, ty: TypeShape<T>) -> Result<ValidationStep<E>, Seq<char>>
    decreases rule, 2int,
{
    match rule_name(rule) {
        None => Err("rule names must be single identifiers"@),
        Some(name) => if name@ == "required"@ {
            match spec_wrapper_inner(ty, "Option"@) {
                None => Err("`required` can only be used on Option<T>"@),
                Some(_) => spec_validation_non_optional(rule, ty),
            }
        } else {
            match spec_wrapper_inner(ty, "Option"@) {
                Some(inner) => match spec_validation_non_optional(rule, inner) {
                    Ok(step) => Ok(ValidationStep::WhenSome(Box::new(step))),
                    Err(message) => Err(message),
                },
                None => spec_validation_non_optional(rule, ty),
            }
        },
    }
}

/// What the rules `rules` check, in order, on an element of type `ty`.
pub open spec fn spec_validation_each<E, T>(rules: Seq<RuleMeta<E>>, ty: TypeShape<T>) -> Result<
    Seq<ValidationStep<E>>,
    Seq<char>,
>
    decreases rules, 0int,
{
    if rules.len() == 0 {
        Ok(Seq::empty())
    } else {
        match spec_validation_each(rules.drop_last(), ty) {
            Err(message) => Err(message),
            Ok(steps) => match spec_validation(rules.last(), ty) {
                Err(message) => Err(message),
                Ok(step) => Ok(steps.push(step)),
            },
        }
    }
}

/// What the rule `rule` checks on a value of type `ty`, which is not unwrapped.
pub open spec fn spec_validation_non_optional<E, T>(rule: RuleMeta<E>, ty: TypeShape<T>) -> Result<
    ValidationStep<E>,
    Seq<char>,
>
    decreases rule, 1int,
{
    match rule_name(rule) {
        None => Err("rule names must be single identifiers"@),
        Some(name) => {
            let arguments = list_arguments(rule);
            if name@ == "each"@ {
                match arguments {
                    None => Err("`"@ + "each"@ + "` requires one or more nested rules"@),
                    Some(RuleList::Unparsable(complaint)) => Err(complaint@),
                    Some(RuleList::Parsed(metas)) => if metas@.len() == 0 {
                        Err("`"@ + "each"@ + "` must not be empty"@)
                    } else {
                        match spec_collection_inner(ty) {
                            None => Err("`each` requires Vec<T>, [T; N], or [T]"@),
                            Some(inner) => {
                                proof {
                                    assert(decreases_to!(rule => metas@));
                                }
                                match spec_validation_each(metas@, inner) {
                                    Ok(steps) => Ok(ValidationStep::Each(steps)),
                                    Err(message) => Err(message),
                                }
                            },
                        }
                    },
                }
            } else {
                match spec_validator_arguments(arguments, name@, rule) {
                    Err(message) => Err(message),
                    Ok((pairs, message)) => if name@ == "nested"@ {
                        if message is Some {
                            Err("`nested` preserves child messages and does not accept `message`"@)
                        } else {
                            match unknown_complaint(pairs, Seq::empty()) {
                                Some(complaint) => Err(complaint),
                                None => Ok(ValidationStep::Nested),
                            }
                        }
                    } else if name@ == "custom"@ {
                        match spec_find_argument(pairs, "function"@) {
                            None => Err("missing required `"@ + "function"@ + "` argument"@),
                            Some(function) => match unknown_complaint(pairs, seq!["function"@, "name"@]) {
                                Some(complaint) => Err(complaint),
                                None => Ok(ValidationStep::Check {
                                    call: CallStep::Custom(function),
                                    rule: match spec_find_argument(pairs, "name"@) {
                                        Some(label) => LabelStep::Expression(label),
                                        None => LabelStep::Name("custom"@),
                                    },
                                    message,
                                }),
                            },
                        }
                    } else {
                        match spec_validator_call(name@, pairs) {
                            Err(complaint) => Err(complaint),
                            Ok(call) => Ok(ValidationStep::Check { call, rule: LabelStep::Name(name@), message }),
                        }
                    },
                }
            }
        },
    }
}

fn is_plain_validator_name(name: &str) -> (plain: bool)
    ensures
        plain == is_plain_validator(name@),
{
    str_eq(name, "required") || str_eq(name, "not_empty") || str_eq(name, "not_blank") || str_eq(
        name,
        "email",
    ) || str_eq(name, "url") || str_eq(name, "uuid") || str_eq(name, "ip") || str_eq(name, "ipv4")
        || str_eq(name, "ipv6") || str_eq(name, "hostname") || str_eq(name, "slug") || str_eq(
        name,
        "ascii",
    ) || str_eq(name, "alphabetic") || str_eq(name, "alphanumeric") || str_eq(name, "numeric")
        || str_eq(name, "lowercase") || str_eq(name, "uppercase") || str_eq(name, "hex") || str_eq(
        name,
        "base64",
    ) || str_eq(name, "base64_url") || str_eq(name, "positive") || str_eq(name, "negative")
        || str_eq(name, "non_positive") || str_eq(name, "non_negative") || str_eq(name, "finite")
        || str_eq(name, "integer") || str_eq(name, "even") || str_eq(name, "odd") || str_eq(
        name,
        "unique",
    )
}

fn is_value_validator_name(name: &str) -> (valued: bool)
    ensures
        valued == is_value_validator(name@),
{
    str_eq(name, "contains") || str_eq(name, "starts_with") || str_eq(name, "ends_with") || str_eq(
        name,
        "regex",
    ) || str_eq(name, "equals") || str_eq(name, "not_equals")
}

fn reject_unknown<'a, E>(arguments: &Vec<NamedArgument<'a, E>>, allowed: &[&str]) -> (checked: Result<(), String>)
    ensures
        match unknown_complaint(
            crate::attribute::arguments::argument_views(arguments@),
            allowed@.map_values(|a: &str| a@),
        ) {
            None => checked is Ok,
            Some(complaint) => checked matches Err(m) && m@ == complaint,
        },
{
    reject_unknown_arguments(arguments, allowed)
}

/// The call that the named validator makes with `arguments`.
pub fn validator_call<'a, E>(name: &'a str, arguments: &Vec<NamedArgument<'a, E>>) -> (call: Result<
    ValidatorCall<'a, E>,
    String,
>)
    ensures
        match (call, spec_validator_call(name@, crate::attribute::arguments::argument_views(arguments@))) {
            (Ok(c), Ok(step)) => call_step_of(c) == step,
            (Err(message), Err(expected)) => message@ == expected,
            _ => false,
        },
{
    if is_plain_validator_name(name) {
        let allowed: [&str; 0] = [];
        assert(allowed@.map_values(|a: &str| a@) =~= Seq::<Seq<char>>::empty());
        return match reject_unknown(arguments, allowed.as_slice()) {
            Ok(()) => Ok(ValidatorCall::Plain(name)),
            Err(message) => Err(message),
        };
    }
    let valued = is_value_validator_name(name);
    let multiple = !valued && !str_eq(name, "min") && !str_eq(name, "max") && str_eq(name, "multiple_of");
    if valued || str_eq(name, "min") || str_eq(name, "max") || multiple {
        let value = match required_argument(arguments, "value") {
            Ok(value) => value,
            Err(message) => {
                return Err(message);
            },
        };
        let allowed: [&str; 1] = ["value"];
        assert(allowed@.map_values(|a: &str| a@) =~= seq!["value"@]);
        return match reject_unknown(arguments, allowed.as_slice()) {
            Err(message) => Err(message),
            Ok(()) => if valued {
                Ok(ValidatorCall::WithValue(name, value))
            } else if multiple {
                Ok(ValidatorCall::MultipleOf(value))
            } else {
                Ok(ValidatorCall::WithReference(name, value))
            },
        };
    }
    if str_eq(name, "range") {
        let minimum = match required_argument(arguments, "min") {
            Ok(value) => value,
            Err(message) => {
                return Err(message);
            },
        };
        let maximum = match required_argument(arguments, "max") {
            Ok(value) => value,
            Err(message) => {
                return Err(message);
            },
        };
        let allowed: [&str; 2] = ["min", "max"];
        assert(allowed@.map_values(|a: &str| a@) =~= seq!["min"@, "max"@]);
        return match reject_unknown(arguments, allowed.as_slice()) {
            Ok(()) => Ok(ValidatorCall::Range { minimum, maximum }),
            Err(message) => Err(message),
        };
    }
    if str_eq(name, "length") {
        let minimum = optional_argument(arguments, "min");
        let maximum = optional_argument(arguments, "max");
        let exact = optional_argument(arguments, "exact");
        if minimum.is_none() && maximum.is_none() && exact.is_none() {
            return Err(String::from_str("`length` requires `min`, `max`, or `exact`"));
        }
        if exact.is_some() && (minimum.is_some() || maximum.is_some()) {
            return Err(String::from_str("`length(exact = ...)` cannot also use `min` or `max`"));
        }
        let allowed: [&str; 3] = ["min", "max", "exact"];
        assert(allowed@.map_values(|a: &str| a@) =~= seq!["min"@, "max"@, "exact"@]);
        return match reject_unknown(arguments, allowed.as_slice()) {
            Ok(()) => Ok(ValidatorCall::Length { minimum, maximum, exact }),
            Err(message) => Err(message),
        };
    }
    if str_eq(name, "one_of") {
        let values = match required_argument(arguments, "values") {
            Ok(value) => value,
            Err(message) => {
                return Err(message);
            },
        };
        let allowed: [&str; 1] = ["values"];
        assert(allowed@.map_values(|a: &str| a@) =~= seq!["values"@]);
        return match reject_unknown(arguments, allowed.as_slice()) {
            Ok(()) => Ok(ValidatorCall::OneOf(values)),
            Err(message) => Err(message),
        };
    }
    Err(surround("unknown input validator `", name, "`"))
}

/// What the rule `rule` checks on a field of type `ty`.
pub fn validation_plan<'a, E, T>(rule: &'a RuleMeta<E>, ty: &TypeShape<T>) -> (plan: Result<ValidationPlan<'a, E>, String>)
    ensures
        match (plan, spec_validation(*rule, *ty)) {
            (Ok(p), Ok(step)) => validation_step_of(p) == step,
            (Err(message), Err(expected)) => message@ == expected,
            _ => false,
        },
    decreases rule, 2int,
{
    let (name, _) = match meta_parts(rule) {
        Ok(parts) => parts,
        Err(message) => {
            return Err(message);
        },
    };
    if str_eq(name, "required") {
        return match wrapper_inner(ty, "Option") {
            None => Err(String::from_str("`required` can only be used on Option<T>")),
            Some(_) => validation_plan_non_optional(rule, ty),
        };
    }
    match wrapper_inner(ty, "Option") {
        Some(inner) => match validation_plan_non_optional(rule, inner) {
            Ok(plan) => Ok(ValidationPlan::WhenSome(Box::new(plan))),
            Err(message) => Err(message),
        },
        None => validation_plan_non_optional(rule, ty),
    }
}

/// What the rules `rules` check, in order, on an element of type `ty`.
pub fn validation_each<'a, E, T>(rules: &'a Vec<RuleMeta<E>>, ty: &TypeShape<T>) -> (plans: Result<
    Vec<ValidationPlan<'a, E>>,
    String,
>)
    ensures
        match (plans, spec_validation_each(rules@, *ty)) {
            (Ok(p), Ok(steps)) => validation_steps_of(p@) == steps,
            (Err(message), Err(expected)) => message@ == expected,
            _ => false,
        },
    decreases rules, 0int,
{
    let mut plans: Vec<ValidationPlan<'a, E>> = Vec::new();
    let mut i: usize = 0;
    assert(rules@.take(0) =~= Seq::<RuleMeta<E>>::empty());
    while i < rules.len()
        invariant
            i <= rules.len(),
            spec_validation_each(rules@.take(i as int), *ty) == Ok::<Seq<ValidationStep<E>>, Seq<char>>(
                validation_steps_of(plans@),
            ),
        decreases rules.len() - i,
    {
        let ghost prefix = rules@.take(i as int + 1);
        assert(prefix.drop_last() == rules@.take(i as int));
        assert(prefix.last() == rules@[i as int]);
        assert(decreases_to!(rules => rules[i as int]));
        match validation_plan(&rules[i], ty) {
            Ok(plan) => {
                let ghost before = plans@;
                plans.push(plan);
                assert(plans@.drop_last() == before);
            },
            Err(message) => {
                proof {
                    lemma_validation_each_error_persists(rules@, *ty, i as int + 1);
                }
                return Err(message);
            },
        }
        i += 1;
    }
    assert(rules@.take(rules.len() as int) == rules@);
    Ok(plans)
}

pub(crate) proof fn lemma_validation_each_error_persists<E, T>(rules: Seq<RuleMeta<E>>, ty: TypeShape<T>, n: int)
    requires
        0 <= n <= rules.len(),
        spec_validation_each(rules.take(n), ty) is Err,
    ensures
        spec_validation_each(rules, ty) == spec_validation_each(rules.take(n), ty),
    decreases rules.len() - n,
{
    if n < rules.len() {
        assert(rules.take(n + 1).drop_last() == rules.take(n));
        lemma_validation_each_error_persists(rules, ty, n + 1);
    } else {
        assert(rules.take(n) == rules);
    }
}

/// What the rule `rule` checks on a value of type `ty`, which is not unwrapped.
pub fn validation_plan_non_optional<'a, E, T>(rule: &'a RuleMeta<E>, ty: &TypeShape<T>) -> (plan: Result<
    ValidationPlan<'a, E>,
    String,
>)
    ensures
        match (plan, spec_validation_non_optional(*rule, *ty)) {
            (Ok(p), Ok(step)) => validation_step_of(p) == step,
            (Err(message), Err(expected)) => message@ == expected,
            _ => false,
        },
    decreases rule, 1int,
{
    let (name, arguments) = match meta_parts(rule) {
        Ok(parts) => parts,
        Err(message) => {
            return Err(message);
        },
    };
    if str_eq(name, "each") {
        let rules = match nested_rules(arguments, "each") {
            Ok(rules) => rules,
            Err(message) => {
                return Err(message);
            },
        };
        let inner = match collection_inner(ty) {
            Some(inner) => inner,
            None => {
                return Err(String::from_str("`each` requires Vec<T>, [T; N], or [T]"));
            },
        };
        proof {
            assert(decreases_to!(rule => *rules));
        }
        return match validation_each(rules, inner) {
            Ok(plans) => Ok(ValidationPlan::Each(plans)),
            Err(message) => Err(message),
        };
    }
    let (parsed, message) = match validator_arguments(arguments, name, rule) {
        Ok(parts) => parts,
        Err(complaint) => {
            return Err(complaint);
        },
    };
    if str_eq(name, "nested") {
        if message.is_some() {
            return Err(
                String::from_str("`nested` preserves child messages and does not accept `message`"),
            );
        }
        let allowed: [&str; 0] = [];
        assert(allowed@.map_values(|a: &str| a@) =~= Seq::<Seq<char>>::empty());
        return match reject_unknown(&parsed, allowed.as_slice()) {
            Ok(()) => Ok(ValidationPlan::Nested),
            Err(complaint) => Err(complaint),
        };
    }
    if str_eq(name, "custom") {
        let function = match required_argument(&parsed, "function") {
            Ok(function) => function,
            Err(complaint) => {
                return Err(complaint);
            },
        };
        let label = match optional_argument(&parsed, "name") {
            Some(expression) => RuleLabel::Expression(expression),
            None => RuleLabel::Name("custom"),
        };
        let allowed: [&str; 2] = ["function", "name"];
        assert(allowed@.map_values(|a: &str| a@) =~= seq!["function"@, "name"@]);
        return match reject_unknown(&parsed, allowed.as_slice()) {
            Ok(()) => Ok(ValidationPlan::Check { call: ValidatorCall::Custom(function), rule: label, message }),
            Err(complaint) => Err(complaint),
        };
    }
    match validator_call(name, &parsed) {
        Ok(call) => Ok(ValidationPlan::Check { call, rule: RuleLabel::Name(name), message }),
        Err(complaint) => Err(complaint),
    }
}


/// Validators skip `None`: on an `Option` field, every accepted rule but
/// `required` checks the wrapped value only when there is one.
pub proof fn validators_skip_none<E, T>(rule: RuleMeta<E>, ty: TypeShape<T>)
    requires
        spec_validation(rule, ty) is Ok,
        spec_wrapper_inner(ty, "Option"@) is Some,
        rule_name(rule) matches Some(name) && name@ != "required"@,
    ensures
        spec_validation(rule, ty)->Ok_0 is WhenSome,
{
}


/// `range` checks between its `min` and `max` arguments: whenever a rule
/// plans a range check, the rule is `range`, its lower bound is the value of
/// the (first) argument called `min`, its upper bound that of the argument
/// called `max`, and no other argument was given.
pub proof fn range_bounds_come_from_min_and_max<E>(name: Seq<char>, pairs: Seq<(Seq<char>, RuleValue<E>)>)
    requires
        spec_validator_call(name, pairs) matches Ok(CallStep::Range { .. }),
    ensures
        name == "range"@,
        spec_validator_call(name, pairs) matches Ok(CallStep::Range { minimum, maximum }) && is_first_value(
            pairs,
            "min"@,
            minimum,
        ) && is_first_value(pairs, "max"@, maximum),
        forall|i: int| 0 <= i < pairs.len() ==> (#[trigger] pairs[i]).0 == "min"@ || pairs[i].0 == "max"@,
{
    argument_lookup_finds_the_first(pairs, "min"@);
    argument_lookup_finds_the_first(pairs, "max"@);
    lemma_no_unknown(pairs, seq!["min"@, "max"@]);
}

/// When no argument is unknown, every argument's name is allowed.
proof fn lemma_no_unknown<E>(pairs: Seq<(Seq<char>, RuleValue<E>)>, allowed: Seq<Seq<char>>)
    ensures
        spec_first_unknown(pairs, allowed) is None ==> forall|i: int|
            0 <= i < pairs.len() ==> allowed.contains(#[trigger] pairs[i].0),
    decreases pairs.len(),
{
    if pairs.len() > 0 {
        lemma_no_unknown(pairs.drop_first(), allowed);
        assert forall|i: int| 1 <= i < pairs.len() implies #[trigger] pairs[i] == pairs.drop_first()[i - 1] by {}
    }
}


/// A `range` rule with `min` and `max` and no other argument plans a range
/// check between them.
pub proof fn range_with_both_bounds_is_accepted<E>(pairs: Seq<(Seq<char>, RuleValue<E>)>)
    requires
        spec_find_argument(pairs, "min"@) is Some,
        spec_find_argument(pairs, "max"@) is Some,
        forall|i: int| 0 <= i < pairs.len() ==> (#[trigger] pairs[i]).0 == "min"@ || pairs[i].0 == "max"@,
    ensures
        spec_validator_call("range"@, pairs) == Ok::<CallStep<E>, Seq<char>>(
            CallStep::Range {
                minimum: spec_find_argument(pairs, "min"@)->Some_0,
                maximum: spec_find_argument(pairs, "max"@)->Some_0,
            },
        ),
{
    lemma_only_allowed_names(pairs, seq!["min"@, "max"@]);
    reveal_strlit("range");
    assert(!is_plain_validator("range"@)) by {
        reveal_strlit("required");
        assert("range"@[1] != "required"@[1]);
        reveal_strlit("not_empty");
        assert("range"@[0] != "not_empty"@[0]);
        reveal_strlit("not_blank");
        assert("range"@[0] != "not_blank"@[0]);
        reveal_strlit("email");
        assert("range"@[0] != "email"@[0]);
        reveal_strlit("url");
        assert("range"@[0] != "url"@[0]);
        reveal_strlit("uuid");
        assert("range"@[0] != "uuid"@[0]);
        reveal_strlit("ip");
        assert("range"@[0] != "ip"@[0]);
        reveal_strlit("ipv4");
        assert("range"@[0] != "ipv4"@[0]);
        reveal_strlit("ipv6");
        assert("range"@[0] != "ipv6"@[0]);
        reveal_strlit("hostname");
        assert("range"@[0] != "hostname"@[0]);
        reveal_strlit("slug");
        assert("range"@[0] != "slug"@[0]);
        reveal_strlit("ascii");
        assert("range"@[0] != "ascii"@[0]);
        reveal_strlit("alphabetic");
        assert("range"@[0] != "alphabetic"@[0]);
        reveal_strlit("alphanumeric");
        assert("range"@[0] != "alphanumeric"@[0]);
        reveal_strlit("numeric");
        assert("range"@[0] != "numeric"@[0]);
        reveal_strlit("lowercase");
        assert("range"@[0] != "lowercase"@[0]);
        reveal_strlit("uppercase");
        assert("range"@[0] != "uppercase"@[0]);
        reveal_strlit("hex");
        assert("range"@[0] != "hex"@[0]);
        reveal_strlit("base64");
        assert("range"@[0] != "base64"@[0]);
        reveal_strlit("base64_url");
        assert("range"@[0] != "base64_url"@[0]);
        reveal_strlit("positive");
        assert("range"@[0] != "positive"@[0]);
        reveal_strlit("negative");
        assert("range"@[0] != "negative"@[0]);
        reveal_strlit("non_positive");
        assert("range"@[0] != "non_positive"@[0]);
        reveal_strlit("non_negative");
        assert("range"@[0] != "non_negative"@[0]);
        reveal_strlit("finite");
        assert("range"@[0] != "finite"@[0]);
        reveal_strlit("integer");
        assert("range"@[0] != "integer"@[0]);
        reveal_strlit("even");
        assert("range"@[0] != "even"@[0]);
        reveal_strlit("odd");
        assert("range"@[0] != "odd"@[0]);
        reveal_strlit("unique");
        assert("range"@[0] != "unique"@[0]);
    }
    assert(!is_value_validator("range"@) && !is_reference_validator("range"@)) by {
        reveal_strlit("contains");
        assert("range"@[0] != "contains"@[0]);
        reveal_strlit("starts_with");
        assert("range"@[0] != "starts_with"@[0]);
        reveal_strlit("ends_with");
        assert("range"@[0] != "ends_with"@[0]);
        reveal_strlit("regex");
        assert("range"@[1] != "regex"@[1]);
        reveal_strlit("equals");
        assert("range"@[0] != "equals"@[0]);
        reveal_strlit("not_equals");
        assert("range"@[0] != "not_equals"@[0]);
        reveal_strlit("min");
        assert("range"@[0] != "min"@[0]);
        reveal_strlit("max");
        assert("range"@[0] != "max"@[0]);
    }
    assert("range"@ != "multiple_of"@) by {
        reveal_strlit("multiple_of");
        assert("range"@[0] != "multiple_of"@[0]);
    }
}

} // verus!
