use vstd::prelude::*;
use crate::text::{str_eq, surround};
use vstd::string::StringExecFns;

verus! {

/// The value of a `name = value` rule argument: the expression as written,
/// and its text when it is a string literal.
pub struct RuleValue<E> {
    pub expression: E,
    pub string_literal: Option<String>,
}

/// What the parentheses of a rule hold: the rules or `name = value` pairs
/// they parse into, or the parser's complaint when they do not parse.
pub enum RuleList<E> {
    Parsed(Vec<RuleMeta<E>>),
    Unparsable(String),
}

/// One rule of a `#[transform(...)]` or `#[validate(...)]` attribute, or one
/// argument inside a rule: a bare name, a name with a parenthesized list, or
/// `name = value`. The name is absent when the path is not a single identifier.
pub enum RuleMeta<E> {
    Path { name: Option<String> },
    List { name: Option<String>, arguments: RuleList<E> },
    NameValue { name: Option<String>, value: RuleValue<E> },
}

/// A `name = value` argument of a rule.
pub struct NamedArgument<'a, E> {
    pub name: &'a str,
    pub value: &'a RuleValue<E>,
}

/// The name of a rule, when it is a single identifier.
pub open spec fn rule_name<E>(meta: RuleMeta<E>) -> Option<String> {
    match meta {
        RuleMeta::Path { name } => name,
        RuleMeta::List { name, .. } => name,
        RuleMeta::NameValue { name, .. } => name,
    }
}

/// The parenthesized arguments of a rule, when it has any.
pub open spec fn list_arguments<E>(meta: RuleMeta<E>) -> Option<RuleList<E>> {
    match meta {
        RuleMeta::List { arguments, .. } => Some(arguments),
        _ => None,
    }
}

/// The pairs of `arguments` as names and values.
pub open spec fn argument_views<'a, E>(arguments: Seq<NamedArgument<'a, E>>) -> Seq<(Seq<char>, RuleValue<E>)> {
    arguments.map_values(|argument: NamedArgument<'a, E>| (argument.name@, *argument.value))
}

/// Whether `pairs` holds an argument called `name`.
pub open spec fn has_argument<E>(pairs: Seq<(Seq<char>, RuleValue<E>)>, name: Seq<char>) -> bool {
    exists|i: int| 0 <= i < pairs.len() && #[trigger] pairs[i].0 == name
}

/// The `name = value` pairs that `metas` make, or the complaint about the
/// first one that is not such a pair or repeats a name.
pub open spec fn spec_named_arguments<E>(metas: Seq<RuleMeta<E>>, rule: Seq<char>) -> Result<
    Seq<(Seq<char>, RuleValue<E>)>,
    Seq<char>,
>
    decreases metas.len(),
{
    if metas.len() == 0 {
        Ok(Seq::empty())
    } else {
        match spec_named_arguments(metas.drop_last(), rule) {
            Err(message) => Err(message),
            Ok(pairs) => match metas.last() {
                RuleMeta::NameValue { name: Some(name), value } => if has_argument(pairs, name@) {
                    Err("duplicate `"@ + name@ + "` argument"@)
                } else {
                    Ok(pairs.push((name@, value)))
                },
                RuleMeta::NameValue { name: None, .. } => Err("argument names must be identifiers"@),
                _ => Err("`"@ + rule + "` arguments must use `name = value`"@),
            },
        }
    }
}

/// The named arguments that a rule's parentheses hold: none without
/// parentheses.
pub open spec fn spec_named_arguments_of<E>(arguments: Option<RuleList<E>>, rule: Seq<char>) -> Result<
    Seq<(Seq<char>, RuleValue<E>)>,
    Seq<char>,
> {
    match arguments {
        None => Ok(Seq::empty()),
        Some(RuleList::Unparsable(message)) => Err(message@),
        Some(RuleList::Parsed(metas)) => spec_named_arguments(metas@, rule),
    }
}

/// The first value given for the argument `name`.
pub open spec fn spec_find_argument<E>(pairs: Seq<(Seq<char>, RuleValue<E>)>, name: Seq<char>) -> Option<
    RuleValue<E>,
>
    decreases pairs.len(),
{
    if pairs.len() == 0 {
        None
    } else if pairs[0].0 == name {
        Some(pairs[0].1)
    } else {
        spec_find_argument(pairs.drop_first(), name)
    }
}

/// The first argument whose name is not in `allowed`.
pub open spec fn spec_first_unknown<E>(pairs: Seq<(Seq<char>, RuleValue<E>)>, allowed: Seq<Seq<char>>) -> Option<
    Seq<char>,
>
    decreases pairs.len(),
{
    if pairs.len() == 0 {
        None
    } else if !allowed.contains(pairs[0].0) {
        Some(pairs[0].0)
    } else {
        spec_first_unknown(pairs.drop_first(), allowed)
    }
}

/// The arguments behind a borrowed rule list.
pub open spec fn owned_arguments<E>(arguments: Option<&RuleList<E>>) -> Option<RuleList<E>> {
    match arguments {
        Some(list) => Some(*list),
        None => None,
    }
}

/// Whether the parentheses hold anything.
pub open spec fn has_tokens<E>(arguments: Option<RuleList<E>>) -> bool {
    match arguments {
        None => false,
        Some(RuleList::Parsed(metas)) => metas@.len() > 0,
        Some(RuleList::Unparsable(_)) => true,
    }
}

/// The name of a rule and its parenthesized arguments; a rule whose path is
/// not a single identifier is refused.
pub fn meta_parts<'a, E>(meta: &'a RuleMeta<E>) -> (parts: Result<(&'a str, Option<&'a RuleList<E>>), String>)
    ensures
        match parts {
            Ok((name, arguments)) => rule_name(*meta) matches Some(n) && n@ == name@ && match arguments {
                Some(a) => list_arguments(*meta) == Some(*a),
                None => list_arguments(*meta) is None,
            },
            Err(message) => rule_name(*meta) is None && message@ == "rule names must be single identifiers"@,
        },
{
    let (name, arguments) = match meta {
        RuleMeta::Path { name } => (name, None),
        RuleMeta::List { name, arguments } => (name, Some(arguments)),
        RuleMeta::NameValue { name, .. } => (name, None),
    };
    match name {
        Some(name) => Ok((name.as_str(), arguments)),
        None => Err(String::from_str("rule names must be single identifiers")),
    }
}

/// The rules nested in the parentheses of `name`, which must be present and
/// not empty.
pub fn nested_rules<'a, E>(arguments: Option<&'a RuleList<E>>, name: &str) -> (rules: Result<&'a Vec<RuleMeta<E>>, String>)
    ensures
        match arguments {
            None => rules matches Err(m) && m@ == "`"@ + name@ + "` requires one or more nested rules"@,
            Some(RuleList::Unparsable(complaint)) => rules matches Err(m) && m@ == complaint@,
            Some(RuleList::Parsed(metas)) => if metas@.len() == 0 {
                rules matches Err(m) && m@ == "`"@ + name@ + "` must not be empty"@
            } else {
                rules matches Ok(r) && *r == metas
            },
        },
{
    match arguments {
        None => {
            let m = surround("`", name, "` requires one or more nested rules");
            assert(m@ == "`"@ + name@ + "` requires one or more nested rules"@);
            Err(m)
        },
        Some(RuleList::Unparsable(complaint)) => Err(complaint.clone()),
        Some(RuleList::Parsed(metas)) => {
            if metas.len() == 0 {
                Err(surround("`", name, "` must not be empty"))
            } else {
                Ok(metas)
            }
        },
    }
}

/// Whether `arguments` holds an argument called `name`.
fn contains_argument<'a, E>(arguments: &Vec<NamedArgument<'a, E>>, name: &str) -> (found: bool)
    ensures
        found == has_argument(argument_views(arguments@), name@),
{
    let mut i: usize = 0;
    while i < arguments.len()
        invariant
            i <= arguments.len(),
            forall|k: int| 0 <= k < i ==> arguments@[k].name@ != name@,
        decreases arguments.len() - i,
    {
        if str_eq(arguments[i].name, name) {
            assert(argument_views(arguments@)[i as int].0 == name@);
            return true;
        }
        i += 1;
    }
    assert forall|k: int| 0 <= k < argument_views(arguments@).len() implies #[trigger] argument_views(
        arguments@,
    )[k].0 != name@ by {
        assert(argument_views(arguments@)[k].0 == arguments@[k].name@);
    }
    false
}

/// The `name = value` arguments in the parentheses of the rule `rule`.
pub fn named_arguments<'a, E>(arguments: Option<&'a RuleList<E>>, rule: &str) -> (parsed: Result<
    Vec<NamedArgument<'a, E>>,
    String,
>)
    ensures
        match (parsed, spec_named_arguments_of(owned_arguments(arguments), rule@)) {
            (Ok(args), Ok(pairs)) => argument_views(args@) == pairs,
            (Err(message), Err(expected)) => message@ == expected,
            _ => false,
        },
{
    let metas = match arguments {
        None => {
            let empty: Vec<NamedArgument<'a, E>> = Vec::new();
            assert(argument_views(empty@) =~= Seq::<(Seq<char>, RuleValue<E>)>::empty());
            return Ok(empty);
        },
        Some(RuleList::Unparsable(complaint)) => {
            return Err(complaint.clone());
        },
        Some(RuleList::Parsed(metas)) => metas,
    };
    let mut parsed: Vec<NamedArgument<'a, E>> = Vec::new();
    let mut i: usize = 0;
    assert(metas@.take(0) =~= Seq::<RuleMeta<E>>::empty());
    assert(argument_views(parsed@) =~= Seq::<(Seq<char>, RuleValue<E>)>::empty());
    while i < metas.len()
        invariant
            i <= metas.len(),
            owned_arguments(arguments) == Some(RuleList::Parsed(*metas)),
            spec_named_arguments(metas@.take(i as int), rule@) == Ok::<
                Seq<(Seq<char>, RuleValue<E>)>,
                Seq<char>,
            >(argument_views(parsed@)),
        decreases metas.len() - i,
    {
        let ghost prefix = metas@.take(i as int + 1);
        assert(prefix.drop_last() == metas@.take(i as int));
        assert(prefix.last() == metas@[i as int]);
        match &metas[i] {
            RuleMeta::NameValue { name: Some(name), value } => {
                if contains_argument(&parsed, name.as_str()) {
                    assert(spec_named_arguments(prefix, rule@) == Err::<Seq<(Seq<char>, RuleValue<E>)>, Seq<char>>("duplicate `"@ + name@ + "` argument"@));
                    assert(spec_named_arguments(metas@, rule@) == spec_named_arguments(prefix, rule@)) by {
                        lemma_named_arguments_error_persists(metas@, rule@, i as int + 1);
                    }
                    return Err(surround("duplicate `", name.as_str(), "` argument"));
                }
                let ghost before = parsed@;
                parsed.push(NamedArgument { name: name.as_str(), value });
                assert(argument_views(parsed@) =~= argument_views(before).push((name@, *value)));
            },
            RuleMeta::NameValue { name: None, .. } => {
                proof {
                    lemma_named_arguments_error_persists(metas@, rule@, i as int + 1);
                }
                return Err(String::from_str("argument names must be identifiers"));
            },
            _ => {
                proof {
                    lemma_named_arguments_error_persists(metas@, rule@, i as int + 1);
                }
                return Err(surround("`", rule, "` arguments must use `name = value`"));
            },
        }
        i += 1;
    }
    assert(metas@.take(metas.len() as int) == metas@);
    Ok(parsed)
}

proof fn lemma_named_arguments_error_persists<E>(metas: Seq<RuleMeta<E>>, rule: Seq<char>, n: int)
    requires
        0 <= n <= metas.len(),
        spec_named_arguments(metas.take(n), rule) is Err,
    ensures
        spec_named_arguments(metas, rule) == spec_named_arguments(metas.take(n), rule),
    decreases metas.len() - n,
{
    if n < metas.len() {
        assert(metas.take(n + 1).drop_last() == metas.take(n));
        lemma_named_arguments_error_persists(metas, rule, n + 1);
    } else {
        assert(metas.take(n) == metas);
    }
}

/// The value of the first argument called `name`.
pub fn optional_argument<'a, E>(arguments: &Vec<NamedArgument<'a, E>>, name: &str) -> (value: Option<&'a RuleValue<E>>)
    ensures
        match value {
            Some(v) => spec_find_argument(argument_views(arguments@), name@) == Some(*v),
            None => spec_find_argument(argument_views(arguments@), name@) is None,
        },
{
    let ghost views = argument_views(arguments@);
    let mut i: usize = 0;
    assert(views.skip(0) == views);
    while i < arguments.len()
        invariant
            i <= arguments.len(),
            views == argument_views(arguments@),
            spec_find_argument(views, name@) == spec_find_argument(views.skip(i as int), name@),
        decreases arguments.len() - i,
    {
        assert(views.skip(i as int).drop_first() == views.skip(i as int + 1));
        assert(views.skip(i as int)[0] == views[i as int]);
        if str_eq(arguments[i].name, name) {
            return Some(arguments[i].value);
        }
        i += 1;
    }
    None
}

/// The value of the argument called `name`, which must be given.
pub fn required_argument<'a, E>(arguments: &Vec<NamedArgument<'a, E>>, name: &str) -> (value: Result<&'a RuleValue<E>, String>)
    ensures
        match value {
            Ok(v) => spec_find_argument(argument_views(arguments@), name@) == Some(*v),
            Err(message) => spec_find_argument(argument_views(arguments@), name@) is None
                && message@ == "missing required `"@ + name@ + "` argument"@,
        },
{
    match optional_argument(arguments, name) {
        Some(value) => Ok(value),
        None => Err(surround("missing required `", name, "` argument")),
    }
}

/// Whether `allowed` holds `name`.
fn is_allowed(allowed: &[&str], name: &str) -> (found: bool)
    ensures
        found == allowed@.map_values(|a: &str| a@).contains(name@),
{
    let ghost names = allowed@.map_values(|a: &str| a@);
    let mut i: usize = 0;
    while i < allowed.len()
        invariant
            i <= allowed.len(),
            names == allowed@.map_values(|a: &str| a@),
            forall|k: int| 0 <= k < i ==> names[k] != name@,
        decreases allowed.len() - i,
    {
        if str_eq(allowed[i], name) {
            assert(names[i as int] == name@);
            return true;
        }
        i += 1;
    }
    false
}

/// Refuses the first argument whose name is not in `allowed`.
pub fn reject_unknown_arguments<'a, E>(arguments: &Vec<NamedArgument<'a, E>>, allowed: &[&str]) -> (checked: Result<(), String>)
    ensures
        match spec_first_unknown(argument_views(arguments@), allowed@.map_values(|a: &str| a@)) {
            None => checked is Ok,
            Some(name) => checked matches Err(m) && m@ == "unknown `"@ + name + "` argument"@,
        },
{
    let ghost views = argument_views(arguments@);
    let ghost names = allowed@.map_values(|a: &str| a@);
    let mut i: usize = 0;
    assert(views.skip(0) == views);
    while i < arguments.len()
        invariant
            i <= arguments.len(),
            views == argument_views(arguments@),
            names == allowed@.map_values(|a: &str| a@),
            spec_first_unknown(views, names) == spec_first_unknown(views.skip(i as int), names),
        decreases arguments.len() - i,
    {
        assert(views.skip(i as int).drop_first() == views.skip(i as int + 1));
        assert(views.skip(i as int)[0] == views[i as int]);
        if !is_allowed(allowed, arguments[i].name) {
            return Err(surround("unknown `", arguments[i].name, "` argument"));
        }
        i += 1;
    }
    Ok(())
}

/// Refuses arguments on a rule that takes none: a `name = value` form or
/// non-empty parentheses.
pub fn require_no_arguments<E>(rule: &RuleMeta<E>, arguments: Option<&RuleList<E>>, name: &str) -> (checked: Result<(), String>)
    ensures
        if *rule is NameValue || has_tokens(owned_arguments(arguments)) {
            checked matches Err(m) && m@ == "`"@ + name@ + "` does not accept arguments"@
        } else {
            checked is Ok
        },
{
    let has_value = match rule {
        RuleMeta::NameValue { .. } => true,
        _ => false,
    };
    let has_arguments = match arguments {
        None => false,
        Some(RuleList::Parsed(metas)) => metas.len() > 0,
        Some(RuleList::Unparsable(_)) => true,
    };
    if has_value || has_arguments {
        Err(surround("`", name, "` does not accept arguments"))
    } else {
        Ok(())
    }
}

/// Where the first argument called `name` stands.
pub open spec fn spec_position<E>(pairs: Seq<(Seq<char>, RuleValue<E>)>, name: Seq<char>) -> Option<int>
    decreases pairs.len(),
{
    if pairs.len() == 0 {
        None
    } else if pairs[0].0 == name {
        Some(0)
    } else {
        match spec_position(pairs.drop_first(), name) {
            Some(i) => Some(i + 1),
            None => None,
        }
    }
}

proof fn lemma_position<E>(pairs: Seq<(Seq<char>, RuleValue<E>)>, name: Seq<char>)
    ensures
        match spec_position(pairs, name) {
            Some(i) => 0 <= i < pairs.len() && pairs[i].0 == name && forall|k: int|
                0 <= k < i ==> pairs[k].0 != name,
            None => forall|k: int| 0 <= k < pairs.len() ==> pairs[k].0 != name,
        },
    decreases pairs.len(),
{
    if pairs.len() > 0 {
        lemma_position(pairs.drop_first(), name);
        if pairs[0].0 != name {
            match spec_position(pairs.drop_first(), name) {
                Some(i) => {
                    assert forall|k: int| 0 <= k < i + 1 implies pairs[k].0 != name by {
                        if k > 0 {
                            assert(pairs[k] == pairs.drop_first()[k - 1]);
                        }
                    }
                },
                None => {
                    assert forall|k: int| 0 <= k < pairs.len() implies pairs[k].0 != name by {
                        if k > 0 {
                            assert(pairs[k] == pairs.drop_first()[k - 1]);
                        }
                    }
                },
            }
        }
    }
}

/// The argument name that `rule = value` stands for, by rule.
pub open spec fn shorthand_name(rule_name: Seq<char>) -> Seq<char> {
    if rule_name == "one_of"@ {
        "values"@
    } else if rule_name == "custom"@ {
        "function"@
    } else {
        "value"@
    }
}

/// The arguments of a validator, before its `message` is taken out.
pub open spec fn spec_validator_pairs<E>(raw: Option<RuleList<E>>, rule_name: Seq<char>, rule: RuleMeta<E>) -> Result<
    Seq<(Seq<char>, RuleValue<E>)>,
    Seq<char>,
> {
    match rule {
        RuleMeta::NameValue { value, .. } => Ok(seq![(shorthand_name(rule_name), value)]),
        _ => spec_named_arguments_of(raw, rule_name),
    }
}

/// The arguments of a validator without its `message`, and the message,
/// which must be a string literal.
pub open spec fn spec_validator_arguments<E>(raw: Option<RuleList<E>>, rule_name: Seq<char>, rule: RuleMeta<E>) -> Result<
    (Seq<(Seq<char>, RuleValue<E>)>, Option<Seq<char>>),
    Seq<char>,
> {
    match spec_validator_pairs(raw, rule_name, rule) {
        Err(message) => Err(message),
        Ok(pairs) => match spec_position(pairs, "message"@) {
            None => Ok((pairs, None)),
            Some(i) => match pairs[i].1.string_literal {
                Some(text) => Ok((pairs.remove(i), Some(text@))),
                None => Err("`message` must be a string literal"@),
            },
        },
    }
}

fn shorthand_argument_name(rule_name: &str) -> (name: &'static str)
    ensures
        name@ == shorthand_name(rule_name@),
{
    if str_eq(rule_name, "one_of") {
        "values"
    } else if str_eq(rule_name, "custom") {
        "function"
    } else {
        "value"
    }
}

fn argument_position<'a, E>(arguments: &Vec<NamedArgument<'a, E>>, name: &str) -> (position: Option<usize>)
    ensures
        match position {
            Some(i) => spec_position(argument_views(arguments@), name@) == Some(i as int),
            None => spec_position(argument_views(arguments@), name@) is None,
        },
{
    let ghost views = argument_views(arguments@);
    let mut i: usize = 0;
    assert(views.skip(0) == views);
    while i < arguments.len()
        invariant
            i <= arguments.len(),
            views == argument_views(arguments@),
            spec_position(views, name@) == match spec_position(views.skip(i as int), name@) {
                Some(k) => Some(k + i),
                None => None,
            },
        decreases arguments.len() - i,
    {
        assert(views.skip(i as int).drop_first() == views.skip(i as int + 1));
        assert(views.skip(i as int)[0] == views[i as int]);
        if str_eq(arguments[i].name, name) {
            return Some(i);
        }
        i += 1;
    }
    None
}

/// The arguments of a validator rule without its `message`, and the message.
pub fn validator_arguments<'a, E>(raw: Option<&'a RuleList<E>>, rule_name: &str, rule: &'a RuleMeta<E>) -> (parsed: Result<
    (Vec<NamedArgument<'a, E>>, Option<&'a str>),
    String,
>)
    ensures
        match (parsed, spec_validator_arguments(owned_arguments(raw), rule_name@, *rule)) {
            (Ok((args, message)), Ok((pairs, expected))) => argument_views(args@) == pairs && match message {
                Some(m) => expected == Some(m@),
                None => expected is None,
            },
            (Err(message), Err(expected)) => message@ == expected,
            _ => false,
        },
{
    let mut arguments: Vec<NamedArgument<'a, E>> = match rule {
        RuleMeta::NameValue { value, .. } => {
            let mut single: Vec<NamedArgument<'a, E>> = Vec::new();
            single.push(NamedArgument { name: shorthand_argument_name(rule_name), value });
            assert(argument_views(single@) =~= seq![(shorthand_name(rule_name@), *value)]);
            single
        },
        _ => match named_arguments(raw, rule_name) {
            Ok(arguments) => arguments,
            Err(message) => {
                return Err(message);
            },
        },
    };
    let ghost pairs = argument_views(arguments@);
    proof {
        lemma_position(pairs, "message"@);
    }
    match argument_position(&arguments, "message") {
        None => Ok((arguments, None)),
        Some(index) => {
            let argument = arguments.remove(index);
            assert(argument_views(arguments@) =~= pairs.remove(index as int));
            match &argument.value.string_literal {
                Some(text) => Ok((arguments, Some(text.as_str()))),
                None => Err(String::from_str("`message` must be a string literal")),
            }
        },
    }
}

/// The value of a rule that takes one: `rule = value` or `rule(value = ...)`.
pub open spec fn spec_single_value<E>(rule: RuleMeta<E>, raw: Option<RuleList<E>>, name: Seq<char>) -> Result<
    RuleValue<E>,
    Seq<char>,
> {
    match rule {
        RuleMeta::NameValue { value, .. } => Ok(value),
        _ => match spec_named_arguments_of(raw, name) {
            Err(message) => Err(message),
            Ok(pairs) => match spec_find_argument(pairs, "value"@) {
                None => Err("missing required `"@ + "value"@ + "` argument"@),
                Some(value) => match spec_first_unknown(pairs, seq!["value"@]) {
                    Some(unknown) => Err("unknown `"@ + unknown + "` argument"@),
                    None => Ok(value),
                },
            },
        },
    }
}

/// The single value of a rule such as `truncate = n` or `truncate(value = n)`.
pub fn single_value_argument<'a, E>(rule: &'a RuleMeta<E>, raw: Option<&'a RuleList<E>>, name: &str) -> (value: Result<
    &'a RuleValue<E>,
    String,
>)
    ensures
        match (value, spec_single_value(*rule, owned_arguments(raw), name@)) {
            (Ok(v), Ok(expected)) => *v == expected,
            (Err(message), Err(expected)) => message@ == expected,
            _ => false,
        },
{
    if let RuleMeta::NameValue { value, .. } = rule {
        return Ok(value);
    }
    let arguments = match named_arguments(raw, name) {
        Ok(arguments) => arguments,
        Err(message) => {
            return Err(message);
        },
    };
    let value = match required_argument(&arguments, "value") {
        Ok(value) => value,
        Err(message) => {
            return Err(message);
        },
    };
    let allowed: [&str; 1] = ["value"];
    assert(allowed@.map_values(|a: &str| a@) =~= seq!["value"@]);
    match reject_unknown_arguments(&arguments, allowed.as_slice()) {
        Ok(()) => Ok(value),
        Err(message) => Err(message),
    }
}


/// `value` is the value of the first argument of `pairs` called `name`.
pub open spec fn is_first_value<E>(pairs: Seq<(Seq<char>, RuleValue<E>)>, name: Seq<char>, value: RuleValue<E>) -> bool {
    exists|i: int|
        0 <= i < pairs.len() && #[trigger] pairs[i] == (name, value) && forall|k: int|
            0 <= k < i ==> (#[trigger] pairs[k]).0 != name
}

/// Looking an argument up finds the value of the first argument with that
/// name, and finds nothing exactly when no argument has it.
pub proof fn argument_lookup_finds_the_first<E>(pairs: Seq<(Seq<char>, RuleValue<E>)>, name: Seq<char>)
    ensures
        spec_find_argument(pairs, name) matches Some(v) ==> is_first_value(pairs, name, v),
        spec_find_argument(pairs, name) is None <==> forall|i: int| 0 <= i < pairs.len() ==> (#[trigger] pairs[i]).0
            != name,
    decreases pairs.len(),
{
    if pairs.len() > 0 {
        let rest = pairs.drop_first();
        argument_lookup_finds_the_first(rest, name);
        assert forall|i: int| 1 <= i < pairs.len() implies #[trigger] pairs[i] == rest[i - 1] by {}
        if pairs[0].0 == name {
            assert(pairs[0] == (name, pairs[0].1));
        } else {
            match spec_find_argument(rest, name) {
                Some(v) => {
                    let j = choose|j: int|
                        0 <= j < rest.len() && #[trigger] rest[j] == (name, v) && forall|k: int|
                            0 <= k < j ==> (#[trigger] rest[k]).0 != name;
                    assert(pairs[j + 1] == (name, v));
                    assert forall|k: int| 0 <= k < j + 1 implies (#[trigger] pairs[k]).0 != name by {
                        if k > 0 {
                            assert(pairs[k] == rest[k - 1]);
                        }
                    }
                },
                None => {
                    assert forall|i: int| 0 <= i < pairs.len() implies (#[trigger] pairs[i]).0 != name by {
                        if i > 0 {
                            assert(pairs[i] == rest[i - 1]);
                        }
                    }
                },
            }
        }
    }
}

/// When every argument's name is allowed, no argument is unknown.
pub(crate) proof fn lemma_only_allowed_names<E>(pairs: Seq<(Seq<char>, RuleValue<E>)>, allowed: Seq<Seq<char>>)
    requires
        forall|i: int| 0 <= i < pairs.len() ==> allowed.contains(#[trigger] pairs[i].0),
    ensures
        spec_first_unknown(pairs, allowed) is None,
    decreases pairs.len(),
{
    if pairs.len() > 0 {
        assert forall|i: int| 0 <= i < pairs.drop_first().len() implies allowed.contains(
            #[trigger] pairs.drop_first()[i].0,
        ) by {
            assert(pairs.drop_first()[i] == pairs[i + 1]);
        }
        assert(allowed.contains(pairs[0].0));
        lemma_only_allowed_names(pairs.drop_first(), allowed);
    }
}

} // verus!
