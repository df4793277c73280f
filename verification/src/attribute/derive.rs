use vstd::prelude::*;
use crate::attribute::arguments::{RuleList, RuleMeta};
use crate::attribute::transform::{
    lemma_nested_each_error_persists, lemma_transform_each_error_persists, nested_transform_plan,
    spec_nested_transform, spec_nested_transform_each, spec_wrap_optional, spec_transform_each, steps_of, transform_plan, TransformPlan,
    TransformStep,
};
use crate::attribute::types::TypeShape;
use crate::attribute::validate::{
    lemma_validation_each_error_persists, spec_validation_each, validation_plan, validation_steps_of,
    ValidationPlan, ValidationStep,
};
use crate::case::spec_snake_to_camel;
use crate::naming::{field_json_name, spec_unraw};
use crate::text::str_eq;
use vstd::string::StringExecFns;

verus! {

/// An attribute on a field: its name, when its path is a single identifier,
/// and what its parentheses parse into.
pub struct FieldAttribute<E> {
    pub name: Option<String>,
    pub rules: RuleList<E>,
}

/// A named field of an input struct: its identifier as written, its type and
/// its attributes, in order.
pub struct FieldShape<E, T> {
    pub ident: String,
    pub ty: TypeShape<T>,
    pub attributes: Vec<FieldAttribute<E>>,
}

/// The body of the type that `UseCaseInput` is derived for.
pub enum InputData<E, T> {
    /// A struct with named fields.
    Named(Vec<FieldShape<E, T>>),
    /// A tuple or unit struct.
    Unnamed,
    /// An enum or a union.
    NotStruct,
}

/// The type that `UseCaseInput` is derived for.
pub struct InputShape<E, T> {
    pub name: String,
    pub generic: bool,
    pub data: InputData<E, T>,
}

/// What the derive emits for one field: the transformations of its
/// `#[transform]` rules, then those its `#[validate]` rules imply for nested
/// inputs, and the checks of its `#[validate]` rules, reported under `path`.
pub struct FieldPlan<'a, E> {
    pub ident: &'a str,
    pub path: String,
    pub transforms: Vec<TransformPlan<'a, E>>,
    pub validations: Vec<ValidationPlan<'a, E>>,
}

/// What the derive emits for an input type: its fields' plans, in order.
pub struct InputPlan<'a, E> {
    pub name: &'a str,
    pub fields: Vec<FieldPlan<'a, E>>,
}

/// The content of a `FieldPlan`.
pub struct FieldStep<E> {
    pub ident: Seq<char>,
    pub path: Seq<char>,
    pub transforms: Seq<TransformStep<E>>,
    pub validations: Seq<ValidationStep<E>>,
}

/// The rules behind borrowed rules.
pub open spec fn rules_of<E>(rules: Seq<&RuleMeta<E>>) -> Seq<RuleMeta<E>> {
    rules.map_values(|rule: &RuleMeta<E>| *rule)
}

/// The content of `plan`.
pub open spec fn field_step_of<'a, E>(plan: FieldPlan<'a, E>) -> FieldStep<E> {
    FieldStep {
        ident: plan.ident@,
        path: plan.path@,
        transforms: steps_of(plan.transforms@),
        validations: validation_steps_of(plan.validations@),
    }
}

/// The contents of `plans`, in order.
pub open spec fn field_steps_of<'a, E>(plans: Seq<FieldPlan<'a, E>>) -> Seq<FieldStep<E>> {
    plans.map_values(|plan: FieldPlan<'a, E>| field_step_of(plan))
}

/// The rules of every attribute called `name`, in order; the first attribute
/// of that name whose parentheses do not parse decides the complaint.
pub open spec fn spec_attribute_rules<E>(attributes: Seq<FieldAttribute<E>>, name: Seq<char>) -> Result<
    Seq<RuleMeta<E>>,
    Seq<char>,
>
    decreases attributes.len(),
{
    if attributes.len() == 0 {
        Ok(Seq::empty())
    } else {
        match spec_attribute_rules(attributes.drop_last(), name) {
            Err(message) => Err(message),
            Ok(rules) => {
                let attribute = attributes.last();
                if attribute.name matches Some(n) && n@ == name {
                    match attribute.rules {
                        RuleList::Unparsable(message) => Err(message@),
                        RuleList::Parsed(metas) => Ok(rules + metas@),
                    }
                } else {
                    Ok(rules)
                }
            },
        }
    }
}

/// What the derive emits for `field`, or the first complaint about it: its
/// attributes are read first, then its transformation rules, the nested
/// transformations of its validation rules, and its validation rules.
pub open spec fn spec_field_plan<E, T>(field: FieldShape<E, T>) -> Result<FieldStep<E>, Seq<char>> {
    match spec_attribute_rules(field.attributes@, "transform"@) {
        Err(message) => Err(message),
        Ok(transform_rules) => match spec_attribute_rules(field.attributes@, "validate"@) {
            Err(message) => Err(message),
            Ok(validation_rules) => match spec_transform_each(transform_rules, field.ty) {
                Err(message) => Err(message),
                Ok(transforms) => match spec_nested_transform_each(validation_rules, field.ty) {
                    Err(message) => Err(message),
                    Ok(nested) => match spec_validation_each(validation_rules, field.ty) {
                        Err(message) => Err(message),
                        Ok(validations) => Ok(
                            FieldStep {
                                ident: field.ident@,
                                path: spec_snake_to_camel(spec_unraw(field.ident@)),
                                transforms: transforms + nested,
                                validations,
                            },
                        ),
                    },
                },
            },
        },
    }
}

/// What the derive emits for `fields`, in order, or the complaint about the
/// first field it refuses.
pub open spec fn spec_field_plans<E, T>(fields: Seq<FieldShape<E, T>>) -> Result<Seq<FieldStep<E>>, Seq<char>>
    decreases fields.len(),
{
    if fields.len() == 0 {
        Ok(Seq::empty())
    } else {
        match spec_field_plans(fields.drop_last()) {
            Err(message) => Err(message),
            Ok(steps) => match spec_field_plan(fields.last()) {
                Err(message) => Err(message),
                Ok(step) => Ok(steps.push(step)),
            },
        }
    }
}

/// What the derive emits for `input`: it refuses generic types and anything
/// but a struct with named fields.
pub open spec fn spec_input_plan<E, T>(input: InputShape<E, T>) -> Result<Seq<FieldStep<E>>, Seq<char>> {
    if input.generic {
        Err("UseCaseInput cannot be derived for a generic type"@)
    } else {
        match input.data {
            InputData::NotStruct => Err("UseCaseInput can only be derived for a struct with named fields"@),
            InputData::Unnamed => Err("UseCaseInput requires a struct with named fields"@),
            InputData::Named(fields) => spec_field_plans(fields@),
        }
    }
}

proof fn lemma_attribute_rules_error_persists<E>(attributes: Seq<FieldAttribute<E>>, name: Seq<char>, n: int)
    requires
        0 <= n <= attributes.len(),
        spec_attribute_rules(attributes.take(n), name) is Err,
    ensures
        spec_attribute_rules(attributes, name) == spec_attribute_rules(attributes.take(n), name),
    decreases attributes.len() - n,
{
    if n < attributes.len() {
        assert(attributes.take(n + 1).drop_last() == attributes.take(n));
        lemma_attribute_rules_error_persists(attributes, name, n + 1);
    } else {
        assert(attributes.take(n) == attributes);
    }
}

/// The rules of every attribute called `name`, in order.
pub fn attribute_rules<'a, E>(attributes: &'a Vec<FieldAttribute<E>>, name: &str) -> (rules: Result<
    Vec<&'a RuleMeta<E>>,
    String,
>)
    ensures
        match (rules, spec_attribute_rules(attributes@, name@)) {
            (Ok(r), Ok(expected)) => rules_of(r@) == expected,
            (Err(message), Err(expected)) => message@ == expected,
            _ => false,
        },
{
    let mut rules: Vec<&'a RuleMeta<E>> = Vec::new();
    let mut i: usize = 0;
    assert(attributes@.take(0) =~= Seq::<FieldAttribute<E>>::empty());
    assert(rules_of(rules@) =~= Seq::<RuleMeta<E>>::empty());
    while i < attributes.len()
        invariant
            i <= attributes.len(),
            spec_attribute_rules(attributes@.take(i as int), name@) == Ok::<Seq<RuleMeta<E>>, Seq<char>>(
                rules_of(rules@),
            ),
        decreases attributes.len() - i,
    {
        let ghost prefix = attributes@.take(i as int + 1);
        assert(prefix.drop_last() == attributes@.take(i as int));
        assert(prefix.last() == attributes@[i as int]);
        let attribute = &attributes[i];
        let matching = match &attribute.name {
            Some(n) => str_eq(n.as_str(), name),
            None => false,
        };
        if matching {
            match &attribute.rules {
                RuleList::Unparsable(message) => {
                    proof {
                        lemma_attribute_rules_error_persists(attributes@, name@, i as int + 1);
                    }
                    return Err(message.clone());
                },
                RuleList::Parsed(metas) => {
                    let ghost before = rules_of(rules@);
                    let mut j: usize = 0;
                    while j < metas.len()
                        invariant
                            j <= metas.len(),
                            rules_of(rules@) == before + metas@.take(j as int),
                        decreases metas.len() - j,
                    {
                        let ghost earlier = rules@;
                        rules.push(&metas[j]);
                        assert(rules_of(rules@) =~= rules_of(earlier).push(metas@[j as int]));
                        assert(metas@.take(j as int + 1) == metas@.take(j as int).push(metas@[j as int]));
                        assert(rules_of(rules@) =~= before + metas@.take(j as int + 1));
                        j += 1;
                    }
                    assert(metas@.take(metas.len() as int) == metas@);
                },
            }
        }
        i += 1;
    }
    assert(attributes@.take(attributes.len() as int) == attributes@);
    Ok(rules)
}

/// What the rules `rules` do, in order, to a field of type `ty`.
fn transforms_of<'a, E, T>(rules: &Vec<&'a RuleMeta<E>>, ty: &TypeShape<T>) -> (plans: Result<
    Vec<TransformPlan<'a, E>>,
    String,
>)
    ensures
        match (plans, spec_transform_each(rules_of(rules@), *ty)) {
            (Ok(p), Ok(steps)) => steps_of(p@) == steps,
            (Err(message), Err(expected)) => message@ == expected,
            _ => false,
        },
{
    let ghost all = rules_of(rules@);
    let mut plans: Vec<TransformPlan<'a, E>> = Vec::new();
    let mut i: usize = 0;
    assert(all.take(0) =~= Seq::<RuleMeta<E>>::empty());
    while i < rules.len()
        invariant
            i <= rules.len(),
            all == rules_of(rules@),
            spec_transform_each(all.take(i as int), *ty) == Ok::<Seq<TransformStep<E>>, Seq<char>>(
                steps_of(plans@),
            ),
        decreases rules.len() - i,
    {
        let ghost prefix = all.take(i as int + 1);
        assert(prefix.drop_last() == all.take(i as int));
        assert(prefix.last() == all[i as int]);
        match transform_plan(rules[i], ty) {
            Ok(plan) => {
                let ghost before = plans@;
                plans.push(plan);
                assert(plans@.drop_last() == before);
            },
            Err(message) => {
                proof {
                    lemma_transform_each_error_persists(all, *ty, i as int + 1);
                }
                return Err(message);
            },
        }
        i += 1;
    }
    assert(all.take(rules.len() as int) == all);
    Ok(plans)
}

/// The transformations that the validation rules `rules` imply for a field
/// of type `ty`, in order.
fn nested_transforms_of<'a, E, T>(rules: &Vec<&'a RuleMeta<E>>, ty: &TypeShape<T>) -> (plans: Result<
    Vec<TransformPlan<'a, E>>,
    String,
>)
    ensures
        match (plans, spec_nested_transform_each(rules_of(rules@), *ty)) {
            (Ok(p), Ok(steps)) => steps_of(p@) == steps,
            (Err(message), Err(expected)) => message@ == expected,
            _ => false,
        },
{
    let ghost all = rules_of(rules@);
    let mut plans: Vec<TransformPlan<'a, E>> = Vec::new();
    let mut i: usize = 0;
    assert(all.take(0) =~= Seq::<RuleMeta<E>>::empty());
    while i < rules.len()
        invariant
            i <= rules.len(),
            all == rules_of(rules@),
            spec_nested_transform_each(all.take(i as int), *ty) == Ok::<
                Seq<TransformStep<E>>,
                Seq<char>,
            >(steps_of(plans@)),
        decreases rules.len() - i,
    {
        let ghost prefix = all.take(i as int + 1);
        assert(prefix.drop_last() == all.take(i as int));
        assert(prefix.last() == all[i as int]);
        match nested_transform_plan(rules[i], ty) {
            Ok(Some(plan)) => {
                let ghost before = plans@;
                plans.push(plan);
                assert(plans@.drop_last() == before);
            },
            Ok(None) => {},
            Err(message) => {
                proof {
                    lemma_nested_each_error_persists(all, *ty, i as int + 1);
                }
                return Err(message);
            },
        }
        i += 1;
    }
    assert(all.take(rules.len() as int) == all);
    Ok(plans)
}

/// What the validation rules `rules` check, in order, on a field of type `ty`.
fn validations_of<'a, E, T>(rules: &Vec<&'a RuleMeta<E>>, ty: &TypeShape<T>) -> (plans: Result<
    Vec<ValidationPlan<'a, E>>,
    String,
>)
    ensures
        match (plans, spec_validation_each(rules_of(rules@), *ty)) {
            (Ok(p), Ok(steps)) => validation_steps_of(p@) == steps,
            (Err(message), Err(expected)) => message@ == expected,
            _ => false,
        },
{
    let ghost all = rules_of(rules@);
    let mut plans: Vec<ValidationPlan<'a, E>> = Vec::new();
    let mut i: usize = 0;
    assert(all.take(0) =~= Seq::<RuleMeta<E>>::empty());
    while i < rules.len()
        invariant
            i <= rules.len(),
            all == rules_of(rules@),
            spec_validation_each(all.take(i as int), *ty) == Ok::<Seq<ValidationStep<E>>, Seq<char>>(
                validation_steps_of(plans@),
            ),
        decreases rules.len() - i,
    {
        let ghost prefix = all.take(i as int + 1);
        assert(prefix.drop_last() == all.take(i as int));
        assert(prefix.last() == all[i as int]);
        match validation_plan(rules[i], ty) {
            Ok(plan) => {
                let ghost before = plans@;
                plans.push(plan);
                assert(plans@.drop_last() == before);
            },
            Err(message) => {
                proof {
                    lemma_validation_each_error_persists(all, *ty, i as int + 1);
                }
                return Err(message);
            },
        }
        i += 1;
    }
    assert(all.take(rules.len() as int) == all);
    Ok(plans)
}

proof fn lemma_steps_concat<'a, E>(first: Seq<TransformPlan<'a, E>>, second: Seq<TransformPlan<'a, E>>)
    ensures
        steps_of(first + second) == steps_of(first) + steps_of(second),
    decreases second.len(),
{
    if second.len() == 0 {
        assert(first + second == first);
        assert(steps_of(second) =~= Seq::<TransformStep<E>>::empty());
        assert(steps_of(first) + steps_of(second) =~= steps_of(first));
    } else {
        lemma_steps_concat(first, second.drop_last());
        assert((first + second).drop_last() == first + second.drop_last());
        assert((first + second).last() == second.last());
        assert(steps_of(first + second) =~= steps_of(first) + steps_of(second));
    }
}

/// What the derive emits for `field`.
pub fn field_plan<'a, E, T>(field: &'a FieldShape<E, T>) -> (plan: Result<FieldPlan<'a, E>, String>)
    ensures
        match (plan, spec_field_plan(*field)) {
            (Ok(p), Ok(step)) => field_step_of(p) == step,
            (Err(message), Err(expected)) => message@ == expected,
            _ => false,
        },
{
    let transform_rules = match attribute_rules(&field.attributes, "transform") {
        Ok(rules) => rules,
        Err(message) => {
            return Err(message);
        },
    };
    let validation_rules = match attribute_rules(&field.attributes, "validate") {
        Ok(rules) => rules,
        Err(message) => {
            return Err(message);
        },
    };
    let mut transforms = match transforms_of(&transform_rules, &field.ty) {
        Ok(plans) => plans,
        Err(message) => {
            return Err(message);
        },
    };
    let mut nested = match nested_transforms_of(&validation_rules, &field.ty) {
        Ok(plans) => plans,
        Err(message) => {
            return Err(message);
        },
    };
    let validations = match validations_of(&validation_rules, &field.ty) {
        Ok(plans) => plans,
        Err(message) => {
            return Err(message);
        },
    };
    let ghost own = transforms@;
    let ghost implied = nested@;
    transforms.append(&mut nested);
    proof {
        lemma_steps_concat(own, implied);
    }
    Ok(FieldPlan { ident: field.ident.as_str(), path: field_json_name(field.ident.as_str()), transforms, validations })
}

proof fn lemma_field_plans_error_persists<E, T>(fields: Seq<FieldShape<E, T>>, n: int)
    requires
        0 <= n <= fields.len(),
        spec_field_plans(fields.take(n)) is Err,
    ensures
        spec_field_plans(fields) == spec_field_plans(fields.take(n)),
    decreases fields.len() - n,
{
    if n < fields.len() {
        assert(fields.take(n + 1).drop_last() == fields.take(n));
        lemma_field_plans_error_persists(fields, n + 1);
    } else {
        assert(fields.take(n) == fields);
    }
}

/// What the derive of `UseCaseInput` emits for `input`: for each named field,
/// in order, its transformations and its checks.
pub fn expand<'a, E, T>(input: &'a InputShape<E, T>) -> (plan: Result<InputPlan<'a, E>, String>)
    ensures
        match (plan, spec_input_plan(*input)) {
            (Ok(p), Ok(steps)) => p.name@ == input.name@ && field_steps_of(p.fields@) == steps,
            (Err(message), Err(expected)) => message@ == expected,
            _ => false,
        },
{
    if input.generic {
        return Err(String::from_str("UseCaseInput cannot be derived for a generic type"));
    }
    let fields = match &input.data {
        InputData::NotStruct => {
            return Err(String::from_str("UseCaseInput can only be derived for a struct with named fields"));
        },
        InputData::Unnamed => {
            return Err(String::from_str("UseCaseInput requires a struct with named fields"));
        },
        InputData::Named(fields) => fields,
    };
    let mut plans: Vec<FieldPlan<'a, E>> = Vec::new();
    let mut i: usize = 0;
    assert(fields@.take(0) =~= Seq::<FieldShape<E, T>>::empty());
    assert(field_steps_of(plans@) =~= Seq::<FieldStep<E>>::empty());
    while i < fields.len()
        invariant
            i <= fields.len(),
            !input.generic,
            input.data == InputData::Named(*fields),
            spec_field_plans(fields@.take(i as int)) == Ok::<Seq<FieldStep<E>>, Seq<char>>(
                field_steps_of(plans@),
            ),
        decreases fields.len() - i,
    {
        let ghost prefix = fields@.take(i as int + 1);
        assert(prefix.drop_last() == fields@.take(i as int));
        assert(prefix.last() == fields@[i as int]);
        match field_plan(&fields[i]) {
            Ok(plan) => {
                let ghost before = plans@;
                plans.push(plan);
                assert(field_steps_of(plans@) =~= field_steps_of(before).push(field_step_of(plan)));
            },
            Err(message) => {
                proof {
                    lemma_field_plans_error_persists(fields@, i as int + 1);
                }
                return Err(message);
            },
        }
        i += 1;
    }
    assert(fields@.take(fields.len() as int) == fields@);
    Ok(InputPlan { name: input.name.as_str(), fields: plans })
}


/// Whether `rule` is the bare rule `nested`.
pub open spec fn is_nested_rule<E>(rule: RuleMeta<E>) -> bool {
    rule matches RuleMeta::Path { name: Some(name) } && name@ == "nested"@
}

/// A `nested` validation rule also applies the child's transformations: when
/// a field's validation rules hold a bare `nested`, the transformations the
/// rules imply hold the nested transformation (inside the `Option` for an
/// optional field).
pub proof fn nested_validation_transforms_the_child<E, T>(rules: Seq<RuleMeta<E>>, ty: TypeShape<T>, k: int)
    requires
        0 <= k < rules.len(),
        is_nested_rule(rules[k]),
        spec_nested_transform_each(rules, ty) is Ok,
    ensures
        spec_nested_transform_each(rules, ty)->Ok_0.contains(spec_wrap_optional(ty, TransformStep::<E>::Nested)),
    decreases rules.len(),
{
    let earlier = rules.drop_last();
    let steps = spec_nested_transform_each(earlier, ty)->Ok_0;
    if k == rules.len() - 1 {
        assert(rules.last() == rules[k]);
        assert(spec_nested_transform(rules.last(), ty) == Ok::<Option<TransformStep<E>>, Seq<char>>(
            Some(spec_wrap_optional(ty, TransformStep::<E>::Nested)),
        ));
        assert(spec_nested_transform_each(rules, ty)->Ok_0 == steps.push(spec_wrap_optional(ty, TransformStep::<E>::Nested)));
        assert(steps.push(spec_wrap_optional(ty, TransformStep::<E>::Nested))[steps.len() as int] == spec_wrap_optional(
            ty,
            TransformStep::<E>::Nested,
        ));
    } else {
        assert(earlier[k] == rules[k]);
        nested_validation_transforms_the_child(earlier, ty, k);
        let w = choose|i: int| 0 <= i < steps.len() && steps[i] == spec_wrap_optional(ty, TransformStep::<E>::Nested);
        match spec_nested_transform(rules.last(), ty) {
            Ok(Some(step)) => {
                assert(steps.push(step)[w] == steps[w]);
            },
            _ => {},
        }
    }
}

} // verus!
