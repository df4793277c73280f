use jsonrpc_usecase::attribute::types::{PathArgumentsShape, PathSegmentShape, TypeKind, TypeShape};
use jsonrpc_usecase::attribute::use_case::{
    event_name_from_args, expand_event_consumer, expand_use_case, use_case_args_from_args, ArgumentValue,
    ConsumerCall, ConsumerItem, ImplShape, MacroArgument, MethodShape, ParameterShape,
};

fn named(name: &str) -> TypeShape<String> {
    TypeShape {
        source: name.to_owned(),
        kind: TypeKind::Path {
            qualified: false,
            last_segment: Some(PathSegmentShape { ident: name.to_owned(), arguments: PathArgumentsShape::Absent }),
        },
    }
}

fn result_of(output: &str, error: &str) -> TypeShape<String> {
    TypeShape {
        source: format!("Result<{output}, {error}>"),
        kind: TypeKind::Path {
            qualified: false,
            last_segment: Some(PathSegmentShape {
                ident: "Result".to_owned(),
                arguments: PathArgumentsShape::AngleBracketed(vec![Some(named(output)), Some(named(error))]),
            }),
        },
    }
}

fn shared_self() -> ParameterShape<String> {
    ParameterShape::Receiver { reference: true, mutable: false }
}

fn execute() -> MethodShape<String> {
    MethodShape {
        name: "execute".to_owned(),
        is_async: true,
        generic: false,
        inputs: vec![shared_self(), ParameterShape::Typed(named("AddNumbersInput"))],
        output: Some(result_of("AddNumbersOutput", "AddNumbersError")),
    }
}

fn use_case(methods: Vec<MethodShape<String>>) -> ImplShape<String> {
    ImplShape { trait_impl: false, generic: false, self_ty: named("AddNumbers"), methods }
}

fn text(name: &str, value: &str) -> MacroArgument<String> {
    MacroArgument::NameValue { name: Some(name.to_owned()), value: ArgumentValue::Str(value.to_owned()) }
}

fn flag(name: &str, value: bool) -> MacroArgument<String> {
    MacroArgument::NameValue { name: Some(name.to_owned()), value: ArgumentValue::Bool(value) }
}

fn guards(types: Vec<Option<&str>>) -> MacroArgument<String> {
    MacroArgument::NameValue {
        name: Some("guards".to_owned()),
        value: ArgumentValue::Array(types.into_iter().map(|t| t.map(str::to_owned)).collect()),
    }
}

fn error_of<T>(result: Result<T, String>) -> String {
    match result {
        Ok(_) => panic!("expected a complaint"),
        Err(message) => message,
    }
}

#[test]
fn use_case_defaults_to_its_type_name() {
    let arguments = vec![];
    let item = use_case(vec![execute()]);
    let plan = expand_use_case(&arguments, &item).unwrap();
    assert_eq!(plan.name, "AddNumbers");
    assert_eq!(plan.method, "AddNumbers");
    assert!(plan.register);
    assert_eq!(plan.will_event, "WillAddNumbers");
    assert_eq!(plan.did_event, "DidAddNumbers");
    assert!(plan.guards.is_empty());
    assert_eq!(plan.input.source, "AddNumbersInput");
    assert_eq!(plan.output.source, "AddNumbersOutput");
    assert_eq!(plan.error.source, "AddNumbersError");
}

#[test]
fn method_override_keeps_event_names() {
    let arguments = vec![text("method", "MathAdd"), guards(vec![Some("RequireAccessToken"), Some("RequireAdminRole")])];
    let item = use_case(vec![execute()]);
    let plan = expand_use_case(&arguments, &item).unwrap();
    assert_eq!(plan.method, "MathAdd");
    assert_eq!(plan.will_event, "WillAddNumbers");
    assert_eq!(plan.did_event, "DidAddNumbers");
    assert_eq!(plan.guards, vec!["RequireAccessToken", "RequireAdminRole"]);
}

#[test]
fn jsonrpc_false_disables_registration_even_with_a_method() {
    let arguments = vec![text("method", "MathAdd"), flag("jsonrpc", false)];
    let item = use_case(vec![execute()]);
    let plan = expand_use_case(&arguments, &item).unwrap();
    assert!(!plan.register);
    assert_eq!(plan.method, "MathAdd");
    let explicit = vec![flag("jsonrpc", true)];
    assert!(expand_use_case(&explicit, &item).unwrap().register);
}

#[test]
fn use_case_arguments_report_their_complaints() {
    assert_eq!(error_of(use_case_args_from_args(&vec![text("method", "")])), "method name must not be empty");
    let not_text = MacroArgument::<String>::NameValue { name: Some("method".to_owned()), value: ArgumentValue::OtherLiteral };
    assert_eq!(error_of(use_case_args_from_args(&vec![not_text])), "expected `method = \"MethodName\"`");
    assert_eq!(error_of(use_case_args_from_args(&vec![guards(vec![Some("A"), None])])), "guards must be type paths");
    let not_array = MacroArgument::<String>::NameValue { name: Some("guards".to_owned()), value: ArgumentValue::Other };
    assert_eq!(error_of(use_case_args_from_args(&vec![not_array])), "expected `guards = [GuardType, ...]`");
    let not_bool = MacroArgument::<String>::NameValue { name: Some("jsonrpc".to_owned()), value: ArgumentValue::Str("no".to_owned()) };
    assert_eq!(error_of(use_case_args_from_args(&vec![not_bool])), "expected `jsonrpc = true` or `jsonrpc = false`");
    assert_eq!(
        error_of(use_case_args_from_args(&vec![MacroArgument::<String>::Other])),
        "expected `method = \"MethodName\"` or `guards = [GuardType, ...]`"
    );
    let args = vec![text("method", "First"), guards(vec![Some("A")]), text("method", "Second"), guards(vec![Some("B")])];
    let parsed = use_case_args_from_args(&args).unwrap();
    assert_eq!(parsed.method, Some("Second"));
    assert_eq!(parsed.guards, vec!["A", "B"]);
}

#[test]
fn use_case_impl_blocks_report_their_complaints() {
    let arguments = vec![];
    let mut item = use_case(vec![execute()]);
    item.trait_impl = true;
    assert_eq!(error_of(expand_use_case(&arguments, &item)), "UseCase must be applied to an inherent impl block");
    let mut item = use_case(vec![execute()]);
    item.generic = true;
    assert_eq!(error_of(expand_use_case(&arguments, &item)), "macro-registered use cases cannot be generic");
    let item = use_case(vec![]);
    assert_eq!(
        error_of(expand_use_case(&arguments, &item)),
        "UseCase requires an async `execute(&self, input) -> Result<Output, Error>` method"
    );
    let mut method = execute();
    method.is_async = false;
    assert_eq!(error_of(expand_use_case(&arguments, &use_case(vec![method]))), "execute must be async");
    let mut method = execute();
    method.inputs.pop();
    assert_eq!(
        error_of(expand_use_case(&arguments, &use_case(vec![method]))),
        "execute must take exactly `&self` and one input argument"
    );
    let mut method = execute();
    method.inputs[0] = ParameterShape::Receiver { reference: true, mutable: true };
    assert_eq!(
        error_of(expand_use_case(&arguments, &use_case(vec![method]))),
        "execute must take `&self` as its first argument"
    );
    let mut method = execute();
    method.output = Some(named("AddNumbersOutput"));
    assert_eq!(
        error_of(expand_use_case(&arguments, &use_case(vec![method]))),
        "execute must return `Result<Output, Error>`"
    );
    let mut method = execute();
    method.output = None;
    assert_eq!(
        error_of(expand_use_case(&arguments, &use_case(vec![method]))),
        "execute must return `Result<Output, Error>`"
    );
    let mut item = use_case(vec![execute()]);
    item.self_ty = TypeShape { source: "[u8]".to_owned(), kind: TypeKind::Other };
    assert_eq!(
        error_of(expand_use_case(&arguments, &item)),
        "UseCase method names can only be inferred for named structs"
    );
}

fn consume() -> MethodShape<String> {
    MethodShape {
        name: "consume".to_owned(),
        is_async: true,
        generic: false,
        inputs: vec![shared_self(), ParameterShape::Typed(named("UseCaseEvent"))],
        output: None,
    }
}

#[test]
fn event_consumer_names_its_event() {
    assert_eq!(event_name_from_args(&vec![text("event", "DidAddNumbers")]), Ok("DidAddNumbers"));
    assert_eq!(error_of(event_name_from_args::<String>(&vec![])), "expected `event = \"EventName\"`");
    assert_eq!(error_of(event_name_from_args(&vec![text("event", "")])), "event name must not be empty");
    assert_eq!(error_of(event_name_from_args(&vec![text("topic", "X")])), "expected `event = \"EventName\"`");
}

#[test]
fn event_consumers_register_a_trampoline() {
    let arguments = vec![text("event", "DidAddNumbers")];
    let function = ConsumerItem::Function(MethodShape {
        name: "audit".to_owned(),
        is_async: true,
        generic: false,
        inputs: vec![ParameterShape::Typed(named("UseCaseEvent"))],
        output: None,
    });
    let plan = expand_event_consumer(&arguments, &function).unwrap();
    assert_eq!(plan.event, "DidAddNumbers");
    assert_eq!(plan.trampoline, "__jsonrpc_usecase_event_consumer_audit");
    assert!(matches!(plan.call, ConsumerCall::Function("audit")));

    let structure = ConsumerItem::<String>::Struct { name: "Auditor".to_owned(), generic: false };
    let plan = expand_event_consumer(&arguments, &structure).unwrap();
    assert_eq!(plan.trampoline, "__jsonrpc_usecase_event_consumer_Auditor_consume");
    assert!(matches!(plan.call, ConsumerCall::Struct("Auditor")));

    let block = ConsumerItem::Impl(ImplShape { trait_impl: false, generic: false, self_ty: named("Auditor"), methods: vec![consume()] });
    let plan = expand_event_consumer(&arguments, &block).unwrap();
    assert_eq!(plan.trampoline, "__jsonrpc_usecase_event_consumer_Auditor_consume");
    match plan.call {
        ConsumerCall::Method { self_ty, method } => {
            assert_eq!(self_ty.source, "Auditor");
            assert_eq!(method, "consume");
        },
        _ => panic!("expected a method call"),
    }
}

#[test]
fn event_consumers_report_their_complaints() {
    let arguments = vec![text("event", "WillAddNumbers")];
    let sync_fn = ConsumerItem::Function(MethodShape::<String> {
        name: "audit".to_owned(),
        is_async: false,
        generic: false,
        inputs: vec![],
        output: None,
    });
    assert_eq!(error_of(expand_event_consumer(&arguments, &sync_fn)), "event consumers must be async functions");
    let two_args = ConsumerItem::Function(MethodShape {
        name: "audit".to_owned(),
        is_async: true,
        generic: false,
        inputs: vec![ParameterShape::Typed(named("A")), ParameterShape::Typed(named("B"))],
        output: None,
    });
    assert_eq!(
        error_of(expand_event_consumer(&arguments, &two_args)),
        "event consumers must take exactly one `&UseCaseEvent` argument"
    );
    let returning = ConsumerItem::Function(MethodShape {
        name: "audit".to_owned(),
        is_async: true,
        generic: false,
        inputs: vec![ParameterShape::Typed(named("UseCaseEvent"))],
        output: Some(named("bool")),
    });
    assert_eq!(error_of(expand_event_consumer(&arguments, &returning)), "event consumers must not return a value");
    let generic = ConsumerItem::<String>::Struct { name: "Auditor".to_owned(), generic: true };
    assert_eq!(error_of(expand_event_consumer(&arguments, &generic)), "event consumers cannot be generic");
    let without = ConsumerItem::Impl(ImplShape::<String> { trait_impl: false, generic: false, self_ty: named("Auditor"), methods: vec![] });
    assert_eq!(
        error_of(expand_event_consumer(&arguments, &without)),
        "UseCaseEventConsumer requires a `consume(&self, event: &UseCaseEvent)` method"
    );
    let mut method = consume();
    method.inputs[0] = ParameterShape::Typed(named("Auditor"));
    let owned_self = ConsumerItem::Impl(ImplShape { trait_impl: false, generic: false, self_ty: named("Auditor"), methods: vec![method] });
    assert_eq!(
        error_of(expand_event_consumer(&arguments, &owned_self)),
        "consume must take `&self` as its first argument"
    );
    let trait_block = ConsumerItem::Impl(ImplShape { trait_impl: true, generic: false, self_ty: named("Auditor"), methods: vec![consume()] });
    assert_eq!(
        error_of(expand_event_consumer(&arguments, &trait_block)),
        "UseCaseEventConsumer must be applied to an inherent impl block"
    );
    assert_eq!(
        error_of(expand_event_consumer(&arguments, &ConsumerItem::<String>::Other)),
        "UseCaseEventConsumer must be applied to a struct, function, or inherent impl block"
    );
}

#[test]
fn the_authored_body_moves_behind_the_outer_execute() {
    let arguments = vec![];
    let item = use_case(vec![execute()]);
    let plan = expand_use_case(&arguments, &item).unwrap();
    assert_eq!(plan.prepared_method, "__jsonrpc_usecase_prepared_execute");
}
