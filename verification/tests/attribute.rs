use jsonrpc_usecase::attribute::arguments::{named_arguments, RuleList, RuleMeta, RuleValue};
use jsonrpc_usecase::attribute::derive::{expand, FieldAttribute, FieldShape, InputData, InputShape};
use jsonrpc_usecase::attribute::transform::{nested_transform_plan, transform_plan, TransformPlan};
use jsonrpc_usecase::attribute::types::{PathArgumentsShape, PathSegmentShape, TypeKind, TypeShape};
use jsonrpc_usecase::attribute::validate::{validation_plan, RuleLabel, ValidationPlan, ValidatorCall};

fn path_ty(name: &str) -> TypeShape<String> {
    TypeShape {
        source: name.to_owned(),
        kind: TypeKind::Path {
            qualified: false,
            last_segment: Some(PathSegmentShape { ident: name.to_owned(), arguments: PathArgumentsShape::Absent }),
        },
    }
}

fn generic_ty(name: &str, arguments: Vec<TypeShape<String>>) -> TypeShape<String> {
    TypeShape {
        source: format!("{name}<..>"),
        kind: TypeKind::Path {
            qualified: false,
            last_segment: Some(PathSegmentShape {
                ident: name.to_owned(),
                arguments: PathArgumentsShape::AngleBracketed(arguments.into_iter().map(Some).collect()),
            }),
        },
    }
}

fn rule(name: &str) -> RuleMeta<String> {
    RuleMeta::Path { name: Some(name.to_owned()) }
}

fn rule_with(name: &str, arguments: Vec<RuleMeta<String>>) -> RuleMeta<String> {
    RuleMeta::List { name: Some(name.to_owned()), arguments: RuleList::Parsed(arguments) }
}

fn argument(name: &str, expression: &str) -> RuleMeta<String> {
    RuleMeta::NameValue {
        name: Some(name.to_owned()),
        value: RuleValue { expression: expression.to_owned(), string_literal: None },
    }
}

fn text_argument(name: &str, text: &str) -> RuleMeta<String> {
    RuleMeta::NameValue {
        name: Some(name.to_owned()),
        value: RuleValue { expression: format!("{text:?}"), string_literal: Some(text.to_owned()) },
    }
}

fn error_of<T>(result: Result<T, String>) -> String {
    match result {
        Ok(_) => panic!("expected a complaint"),
        Err(message) => message,
    }
}

#[test]
fn named_arguments_refuse_duplicates_and_bare_rules() {
    let list = RuleList::Parsed(vec![argument("from", "a"), argument("from", "b")]);
    assert_eq!(error_of(named_arguments(Some(&list), "replace")), "duplicate `from` argument");
    let list = RuleList::Parsed(vec![rule("from")]);
    assert_eq!(error_of(named_arguments(Some(&list), "replace")), "`replace` arguments must use `name = value`");
    let list = RuleList::Parsed(vec![RuleMeta::NameValue {
        name: None,
        value: RuleValue { expression: "x".to_owned(), string_literal: None },
    }]);
    assert_eq!(error_of(named_arguments(Some(&list), "replace")), "argument names must be identifiers");
    let list = RuleList::<String>::Unparsable("expected `,`".to_owned());
    assert_eq!(error_of(named_arguments(Some(&list), "replace")), "expected `,`");
    let list = RuleList::Parsed(vec![argument("from", "a"), argument("to", "b")]);
    let parsed = named_arguments(Some(&list), "replace").unwrap();
    assert_eq!(parsed.len(), 2);
    assert_eq!(parsed[0].name, "from");
    assert_eq!(parsed[1].value.expression, "b");
}

#[test]
fn transforms_plain_optional_and_each_fields() {
    let string = path_ty("String");
    let trim = rule("trim");
    assert!(matches!(transform_plan(&trim, &string), Ok(TransformPlan::Apply("trim"))));

    let optional = generic_ty("Option", vec![path_ty("String")]);
    match transform_plan(&trim, &optional) {
        Ok(TransformPlan::WhenSome(inner)) => assert!(matches!(*inner, TransformPlan::Apply("trim"))),
        _ => panic!("expected the rule to apply inside the option"),
    }

    let list = generic_ty("Vec", vec![path_ty("String")]);
    let each = rule_with("each", vec![rule("lowercase"), rule("dedup")]);
    match transform_plan(&each, &list) {
        Ok(TransformPlan::Each(plans)) => {
            assert_eq!(plans.len(), 2);
            assert!(matches!(plans[0], TransformPlan::Apply("lowercase")));
            assert!(matches!(plans[1], TransformPlan::Apply("dedup")));
        },
        _ => panic!("expected an each plan"),
    }
    assert_eq!(error_of(transform_plan(&each, &string)), "`each` requires Vec<T>, [T; N], or [T]");
}

#[test]
fn transform_rules_report_their_complaints() {
    let string = path_ty("String");
    assert_eq!(error_of(transform_plan(&rule("sparkle"), &string)), "unknown input transformer `sparkle`");
    let replace = rule_with("replace", vec![text_argument("from", "a")]);
    assert_eq!(error_of(transform_plan(&replace, &string)), "missing required `to` argument");
    let replace = rule_with("replace", vec![text_argument("from", "a"), text_argument("to", "b"), argument("x", "1")]);
    assert_eq!(error_of(transform_plan(&replace, &string)), "unknown `x` argument");
    let trim = rule_with("trim", vec![argument("x", "1")]);
    assert_eq!(error_of(transform_plan(&trim, &string)), "`trim` does not accept arguments");
    let replace = rule_with("replace", vec![text_argument("from", "a"), text_argument("to", "b")]);
    match transform_plan(&replace, &string) {
        Ok(TransformPlan::Replace { from, to }) => {
            assert_eq!(from.string_literal.as_deref(), Some("a"));
            assert_eq!(to.string_literal.as_deref(), Some("b"));
        },
        _ => panic!("expected a replace plan"),
    }
}

#[test]
fn nested_validation_implies_a_nested_transform() {
    let address = path_ty("Address");
    assert!(matches!(nested_transform_plan(&rule("nested"), &address), Ok(Some(TransformPlan::Nested))));
    assert!(matches!(nested_transform_plan(&rule("email"), &address), Ok(None)));
    let list = generic_ty("Vec", vec![path_ty("Address")]);
    let each = rule_with("each", vec![rule("nested")]);
    match nested_transform_plan(&each, &list) {
        Ok(Some(TransformPlan::Each(plans))) => assert!(matches!(plans[0], TransformPlan::Nested)),
        _ => panic!("expected a nested transform for each element"),
    }
    let each = rule_with("each", vec![rule("email")]);
    assert!(matches!(nested_transform_plan(&each, &list), Ok(None)));
}

#[test]
fn validation_rules_build_checks() {
    let string = path_ty("String");
    let length = rule_with("length", vec![argument("min", "1"), argument("max", "5")]);
    match validation_plan(&length, &string) {
        Ok(ValidationPlan::Check { call: ValidatorCall::Length { minimum, maximum, exact }, rule, message }) => {
            assert_eq!(minimum.unwrap().expression, "1");
            assert_eq!(maximum.unwrap().expression, "5");
            assert!(exact.is_none());
            assert!(matches!(rule, RuleLabel::Name("length")));
            assert!(message.is_none());
        },
        _ => panic!("expected a length check"),
    }
    let email = rule_with("email", vec![text_argument("message", "bad address")]);
    match validation_plan(&email, &string) {
        Ok(ValidationPlan::Check { call: ValidatorCall::Plain("email"), message: Some(text), .. }) => {
            assert_eq!(text, "bad address")
        },
        _ => panic!("expected an email check with its message"),
    }
    let minimum = RuleMeta::NameValue {
        name: Some("min".to_owned()),
        value: RuleValue { expression: "3".to_owned(), string_literal: None },
    };
    match validation_plan(&minimum, &path_ty("u32")) {
        Ok(ValidationPlan::Check { call: ValidatorCall::WithReference("min", value), .. }) => {
            assert_eq!(value.expression, "3")
        },
        _ => panic!("expected a min check"),
    }
}

#[test]
fn validation_rules_report_their_complaints() {
    let string = path_ty("String");
    assert_eq!(error_of(validation_plan(&rule("required"), &string)), "`required` can only be used on Option<T>");
    assert_eq!(error_of(validation_plan(&rule("shiny"), &string)), "unknown input validator `shiny`");
    assert_eq!(
        error_of(validation_plan(&rule_with("length", vec![]), &string)),
        "`length` requires `min`, `max`, or `exact`"
    );
    let both = rule_with("length", vec![argument("exact", "2"), argument("min", "1")]);
    assert_eq!(error_of(validation_plan(&both, &string)), "`length(exact = ...)` cannot also use `min` or `max`");
    let nested = rule_with("nested", vec![text_argument("message", "no")]);
    assert_eq!(
        error_of(validation_plan(&nested, &path_ty("Address"))),
        "`nested` preserves child messages and does not accept `message`"
    );
    assert_eq!(error_of(validation_plan(&rule("each"), &string)), "`each` requires one or more nested rules");
    assert_eq!(error_of(validation_plan(&rule_with("each", vec![]), &string)), "`each` must not be empty");
}

#[test]
fn validation_wraps_optional_and_collection_fields() {
    let optional = generic_ty("Option", vec![path_ty("String")]);
    assert!(matches!(
        validation_plan(&rule("required"), &optional),
        Ok(ValidationPlan::Check { call: ValidatorCall::Plain("required"), .. })
    ));
    match validation_plan(&rule("email"), &optional) {
        Ok(ValidationPlan::WhenSome(inner)) => {
            assert!(matches!(*inner, ValidationPlan::Check { call: ValidatorCall::Plain("email"), .. }))
        },
        _ => panic!("expected the check to apply inside the option"),
    }
    let list = generic_ty("Vec", vec![path_ty("String")]);
    let custom = rule_with("each", vec![rule_with("custom", vec![argument("function", "check"), text_argument("name", "tag")])]);
    match validation_plan(&custom, &list) {
        Ok(ValidationPlan::Each(plans)) => match &plans[0] {
            ValidationPlan::Check { call: ValidatorCall::Custom(function), rule: RuleLabel::Expression(label), .. } => {
                assert_eq!(function.expression, "check");
                assert_eq!(label.string_literal.as_deref(), Some("tag"));
            },
            _ => panic!("expected a custom check"),
        },
        _ => panic!("expected an each plan"),
    }
}

fn field(ident: &str, ty: TypeShape<String>, attributes: Vec<FieldAttribute<String>>) -> FieldShape<String, String> {
    FieldShape { ident: ident.to_owned(), ty, attributes }
}

fn attribute(name: &str, rules: Vec<RuleMeta<String>>) -> FieldAttribute<String> {
    FieldAttribute { name: Some(name.to_owned()), rules: RuleList::Parsed(rules) }
}

#[test]
fn derive_refuses_what_is_not_a_plain_struct() {
    let generic = InputShape::<String, String> { name: "Input".to_owned(), generic: true, data: InputData::Named(vec![]) };
    assert_eq!(error_of(expand(&generic)), "UseCaseInput cannot be derived for a generic type");
    let choice = InputShape::<String, String> { name: "Input".to_owned(), generic: false, data: InputData::NotStruct };
    assert_eq!(error_of(expand(&choice)), "UseCaseInput can only be derived for a struct with named fields");
    let tuple = InputShape::<String, String> { name: "Input".to_owned(), generic: false, data: InputData::Unnamed };
    assert_eq!(error_of(expand(&tuple)), "UseCaseInput requires a struct with named fields");
}

#[test]
fn derive_plans_each_field_in_order() {
    let input = InputShape {
        name: "SignUp".to_owned(),
        generic: false,
        data: InputData::Named(vec![
            field(
                "user_name",
                path_ty("String"),
                vec![attribute("transform", vec![rule("trim")]), attribute("validate", vec![rule("not_blank")])],
            ),
            field("r#type", path_ty("Address"), vec![attribute("validate", vec![rule("nested")]), attribute("transform", vec![rule("trim")])]),
            field("note", path_ty("String"), vec![attribute("serde", vec![rule("default")])]),
        ]),
    };
    let plan = expand(&input).unwrap();
    assert_eq!(plan.name, "SignUp");
    assert_eq!(plan.fields.len(), 3);
    assert_eq!(plan.fields[0].ident, "user_name");
    assert_eq!(plan.fields[0].path, "userName");
    assert!(matches!(plan.fields[0].transforms[0], TransformPlan::Apply("trim")));
    assert!(matches!(plan.fields[0].validations[0], ValidationPlan::Check { call: ValidatorCall::Plain("not_blank"), .. }));
    assert_eq!(plan.fields[1].path, "type");
    assert_eq!(plan.fields[1].transforms.len(), 2);
    assert!(matches!(plan.fields[1].transforms[0], TransformPlan::Apply("trim")));
    assert!(matches!(plan.fields[1].transforms[1], TransformPlan::Nested));
    assert!(matches!(plan.fields[1].validations[0], ValidationPlan::Nested));
    assert!(plan.fields[2].transforms.is_empty());
    assert!(plan.fields[2].validations.is_empty());
}

#[test]
fn derive_reports_the_first_complaint() {
    let input = InputShape {
        name: "Broken".to_owned(),
        generic: false,
        data: InputData::Named(vec![
            field("first", path_ty("String"), vec![attribute("validate", vec![rule("required")])]),
            field(
                "second",
                path_ty("String"),
                vec![FieldAttribute { name: Some("transform".to_owned()), rules: RuleList::Unparsable("expected `,`".to_owned()) }],
            ),
        ]),
    };
    assert_eq!(error_of(expand(&input)), "`required` can only be used on Option<T>");
    let input = InputShape {
        name: "Broken".to_owned(),
        generic: false,
        data: InputData::Named(vec![field(
            "only",
            path_ty("String"),
            vec![
                attribute("validate", vec![rule("shiny")]),
                FieldAttribute { name: Some("transform".to_owned()), rules: RuleList::Unparsable("expected `,`".to_owned()) },
            ],
        )]),
    };
    assert_eq!(error_of(expand(&input)), "expected `,`");
}

#[test]
fn rule_arguments_follow_their_shorthand_forms() {
    let string = path_ty("String");
    let message = rule_with("email", vec![argument("message", "5")]);
    assert_eq!(error_of(validation_plan(&message, &string)), "`message` must be a string literal");
    let one_of = argument("one_of", "[1, 2]");
    match validation_plan(&one_of, &path_ty("u8")) {
        Ok(ValidationPlan::Check { call: ValidatorCall::OneOf(values), .. }) => assert_eq!(values.expression, "[1, 2]"),
        _ => panic!("expected a one_of check"),
    }
    let round = argument("round", "2");
    assert_eq!(error_of(transform_plan(&round, &path_ty("f64"))), "use `round(precision = n)` to configure precision");
    let round = rule_with("round", vec![argument("precision", "2")]);
    match transform_plan(&round, &path_ty("f64")) {
        Ok(TransformPlan::Round { precision: Some(value) }) => assert_eq!(value.expression, "2"),
        _ => panic!("expected a round plan"),
    }
    assert!(matches!(transform_plan(&rule("round"), &path_ty("f64")), Ok(TransformPlan::Round { precision: None })));
    let custom = argument("custom", "normalize");
    match transform_plan(&custom, &string) {
        Ok(TransformPlan::Custom { function }) => assert_eq!(function.expression, "normalize"),
        _ => panic!("expected a custom plan"),
    }
    let truncate = argument("truncate", "8");
    match transform_plan(&truncate, &string) {
        Ok(TransformPlan::ApplyWith("truncate", value)) => assert_eq!(value.expression, "8"),
        _ => panic!("expected a truncate plan"),
    }
    let path = RuleMeta::<String>::Path { name: None };
    assert_eq!(error_of(transform_plan(&path, &string)), "rule names must be single identifiers");
}
