use vstd::prelude::*;
use crate::attribute::types::{PathArgumentsShape, TypeKind, TypeShape};
use crate::text::{str_eq, surround};
use vstd::string::StringExecFns;

verus! {

/// The value of a `name = value` macro argument, as far as the macros read it.
pub enum ArgumentValue<T> {
    /// A string literal, with its text.
    Str(String),
    /// A `true` or `false` literal.
    Bool(bool),
    /// Any other literal.
    OtherLiteral,
    /// An array: each element is the type that its path names, or nothing
    /// when the element is not a path.
    Array(Vec<Option<T>>),
    /// Any other expression.
    Other,
}

/// An argument of `#[UseCase(...)]` or `#[UseCaseEventConsumer(...)]`:
/// `name = value` (the name absent when the path is not a single
/// identifier), or anything else.
pub enum MacroArgument<T> {
    NameValue { name: Option<String>, value: ArgumentValue<T> },
    Other,
}

/// What `#[UseCase(...)]` was given: the JSON-RPC method name, the guards in
/// order, and whether the use case is registered for JSON-RPC.
pub struct UseCaseArgs<'a, T> {
    pub method: Option<&'a str>,
    pub guards: Vec<&'a T>,
    pub jsonrpc: bool,
}

/// The content of `UseCaseArgs`.
pub struct UseCaseArgsView<T> {
    pub method: Option<Seq<char>>,
    pub guards: Seq<T>,
    pub jsonrpc: bool,
}

/// The values behind borrowed values.
pub open spec fn values_of<T>(values: Seq<&T>) -> Seq<T> {
    values.map_values(|value: &T| *value)
}

/// The content of `args`.
pub open spec fn use_case_args_view<'a, T>(args: UseCaseArgs<'a, T>) -> UseCaseArgsView<T> {
    UseCaseArgsView {
        method: match args.method {
            Some(m) => Some(m@),
            None => None,
        },
        guards: values_of(args.guards@),
        jsonrpc: args.jsonrpc,
    }
}

/// The complaint about an argument that `#[UseCase(...)]` does not take.
pub open spec fn unexpected_use_case_argument() -> Seq<char> {
    "expected `method = \"MethodName\"` or `guards = [GuardType, ...]`"@
}

/// The guard types that the elements of a `guards = [...]` array name; an
/// element that is not a path is refused.
pub open spec fn spec_guard_types<T>(elements: Seq<Option<T>>) -> Result<Seq<T>, Seq<char>>
    decreases elements.len(),
{
    if elements.len() == 0 {
        Ok(Seq::empty())
    } else {
        match spec_guard_types(elements.drop_last()) {
            Err(message) => Err(message),
            Ok(guards) => match elements.last() {
                Some(guard) => Ok(guards.push(guard)),
                None => Err("guards must be type paths"@),
            },
        }
    }
}

/// `args` after the argument `argument`: a later `method` replaces an
/// earlier one, guards accumulate, and `jsonrpc` sets registration.
pub open spec fn spec_apply_use_case_argument<T>(args: UseCaseArgsView<T>, argument: MacroArgument<T>) -> Result<
    UseCaseArgsView<T>,
    Seq<char>,
> {
    match argument {
        MacroArgument::NameValue { name: Some(name), value } => if name@ == "method"@ {
            match value {
                ArgumentValue::Str(text) => if text@.len() == 0 {
                    Err("method name must not be empty"@)
                } else {
                    Ok(UseCaseArgsView { method: Some(text@), guards: args.guards, jsonrpc: args.jsonrpc })
                },
                _ => Err("expected `method = \"MethodName\"`"@),
            }
        } else if name@ == "guards"@ {
            match value {
                ArgumentValue::Array(elements) => match spec_guard_types(elements@) {
                    Err(message) => Err(message),
                    Ok(guards) => Ok(
                        UseCaseArgsView { method: args.method, guards: args.guards + guards, jsonrpc: args.jsonrpc },
                    ),
                },
                _ => Err("expected `guards = [GuardType, ...]`"@),
            }
        } else if name@ == "jsonrpc"@ {
            match value {
                ArgumentValue::Bool(enabled) => Ok(
                    UseCaseArgsView { method: args.method, guards: args.guards, jsonrpc: enabled },
                ),
                _ => Err("expected `jsonrpc = true` or `jsonrpc = false`"@),
            }
        } else {
            Err(unexpected_use_case_argument())
        },
        _ => Err(unexpected_use_case_argument()),
    }
}

/// What the arguments of `#[UseCase(...)]` say, read in order: no method
/// name, no guards and registration for JSON-RPC unless they say otherwise.
pub open spec fn spec_use_case_args<T>(arguments: Seq<MacroArgument<T>>) -> Result<UseCaseArgsView<T>, Seq<char>>
    decreases arguments.len(),
{
    if arguments.len() == 0 {
        Ok(UseCaseArgsView { method: None, guards: Seq::empty(), jsonrpc: true })
    } else {
        match spec_use_case_args(arguments.drop_last()) {
            Err(message) => Err(message),
            Ok(args) => spec_apply_use_case_argument(args, arguments.last()),
        }
    }
}

/// The complaint about the arguments of `#[UseCaseEventConsumer(...)]`.
pub open spec fn expected_event_argument() -> Seq<char> {
    "expected `event = \"EventName\"`"@
}

/// The event named by the arguments read so far, if any; every argument must
/// be `event = "..."` with a name that is not empty, and the last one counts.
pub open spec fn spec_event_scan<T>(arguments: Seq<MacroArgument<T>>) -> Result<Option<Seq<char>>, Seq<char>>
    decreases arguments.len(),
{
    if arguments.len() == 0 {
        Ok(None)
    } else {
        match spec_event_scan(arguments.drop_last()) {
            Err(message) => Err(message),
            Ok(_) => match arguments.last() {
                MacroArgument::NameValue { name: Some(name), value: ArgumentValue::Str(text) } => if name@
                    == "event"@ {
                    if text@.len() == 0 {
                        Err("event name must not be empty"@)
                    } else {
                        Ok(Some(text@))
                    }
                } else {
                    Err(expected_event_argument())
                },
                _ => Err(expected_event_argument()),
            },
        }
    }
}

/// The event that `#[UseCaseEventConsumer(...)]` consumes.
pub open spec fn spec_event_name<T>(arguments: Seq<MacroArgument<T>>) -> Result<Seq<char>, Seq<char>> {
    match spec_event_scan(arguments) {
        Err(message) => Err(message),
        Ok(None) => Err(expected_event_argument()),
        Ok(Some(event)) => Ok(event),
    }
}

/// The types that the elements of a `guards = [...]` array name.
fn guard_types<'a, T>(elements: &'a Vec<Option<T>>) -> (guards: Result<Vec<&'a T>, String>)
    ensures
        match (guards, spec_guard_types(elements@)) {
            (Ok(g), Ok(expected)) => values_of(g@) == expected,
            (Err(message), Err(expected)) => message@ == expected,
            _ => false,
        },
{
    let mut guards: Vec<&'a T> = Vec::new();
    let mut i: usize = 0;
    assert(elements@.take(0) =~= Seq::<Option<T>>::empty());
    assert(values_of(guards@) =~= Seq::<T>::empty());
    while i < elements.len()
        invariant
            i <= elements.len(),
            spec_guard_types(elements@.take(i as int)) == Ok::<Seq<T>, Seq<char>>(values_of(guards@)),
        decreases elements.len() - i,
    {
        let ghost prefix = elements@.take(i as int + 1);
        assert(prefix.drop_last() == elements@.take(i as int));
        assert(prefix.last() == elements@[i as int]);
        match &elements[i] {
            Some(guard) => {
                let ghost before = guards@;
                guards.push(guard);
                assert(values_of(guards@) =~= values_of(before).push(*guard));
            },
            None => {
                proof {
                    lemma_guard_types_error_persists(elements@, i as int + 1);
                }
                return Err(String::from_str("guards must be type paths"));
            },
        }
        i += 1;
    }
    assert(elements@.take(elements.len() as int) == elements@);
    Ok(guards)
}

proof fn lemma_guard_types_error_persists<T>(elements: Seq<Option<T>>, n: int)
    requires
        0 <= n <= elements.len(),
        spec_guard_types(elements.take(n)) is Err,
    ensures
        spec_guard_types(elements) == spec_guard_types(elements.take(n)),
    decreases elements.len() - n,
{
    if n < elements.len() {
        assert(elements.take(n + 1).drop_last() == elements.take(n));
        lemma_guard_types_error_persists(elements, n + 1);
    } else {
        assert(elements.take(n) == elements);
    }
}

proof fn lemma_use_case_args_error_persists<T>(arguments: Seq<MacroArgument<T>>, n: int)
    requires
        0 <= n <= arguments.len(),
        spec_use_case_args(arguments.take(n)) is Err,
    ensures
        spec_use_case_args(arguments) == spec_use_case_args(arguments.take(n)),
    decreases arguments.len() - n,
{
    if n < arguments.len() {
        assert(arguments.take(n + 1).drop_last() == arguments.take(n));
        lemma_use_case_args_error_persists(arguments, n + 1);
    } else {
        assert(arguments.take(n) == arguments);
    }
}

/// Reads the arguments of `#[UseCase(...)]`.
pub fn use_case_args_from_args<'a, T>(arguments: &'a Vec<MacroArgument<T>>) -> (args: Result<
    UseCaseArgs<'a, T>,
    String,
>)
    ensures
        match (args, spec_use_case_args(arguments@)) {
            (Ok(a), Ok(expected)) => use_case_args_view(a) == expected,
            (Err(message), Err(expected)) => message@ == expected,
            _ => false,
        },
{
    let mut args = UseCaseArgs { method: None, guards: Vec::new(), jsonrpc: true };
    let mut i: usize = 0;
    assert(arguments@.take(0) =~= Seq::<MacroArgument<T>>::empty());
    assert(values_of(args.guards@) =~= Seq::<T>::empty());
    while i < arguments.len()
        invariant
            i <= arguments.len(),
            spec_use_case_args(arguments@.take(i as int)) == Ok::<UseCaseArgsView<T>, Seq<char>>(
                use_case_args_view(args),
            ),
        decreases arguments.len() - i,
    {
        let ghost prefix = arguments@.take(i as int + 1);
        assert(prefix.drop_last() == arguments@.take(i as int));
        assert(prefix.last() == arguments@[i as int]);
        let ghost before = use_case_args_view(args);
        let applied: Result<(), String> = match &arguments[i] {
            MacroArgument::NameValue { name: Some(name), value } => {
                if str_eq(name.as_str(), "method") {
                    match value {
                        ArgumentValue::Str(text) => {
                            if text.unicode_len() == 0 {
                                Err(String::from_str("method name must not be empty"))
                            } else {
                                args.method = Some(text.as_str());
                                Ok(())
                            }
                        },
                        _ => Err(String::from_str("expected `method = \"MethodName\"`")),
                    }
                } else if str_eq(name.as_str(), "guards") {
                    match value {
                        ArgumentValue::Array(elements) => match guard_types(elements) {
                            Err(message) => Err(message),
                            Ok(guards) => {
                                let ghost earlier = args.guards@;
                                let ghost added = guards@;
                                let mut guards = guards;
                                args.guards.append(&mut guards);
                                assert(values_of(args.guards@) =~= values_of(earlier) + values_of(added));
                                Ok(())
                            },
                        },
                        _ => Err(String::from_str("expected `guards = [GuardType, ...]`")),
                    }
                } else if str_eq(name.as_str(), "jsonrpc") {
                    match value {
                        ArgumentValue::Bool(enabled) => {
                            args.jsonrpc = *enabled;
                            Ok(())
                        },
                        _ => Err(String::from_str("expected `jsonrpc = true` or `jsonrpc = false`")),
                    }
                } else {
                    Err(String::from_str("expected `method = \"MethodName\"` or `guards = [GuardType, ...]`"))
                }
            },
            _ => Err(String::from_str("expected `method = \"MethodName\"` or `guards = [GuardType, ...]`")),
        };
        match applied {
            Ok(()) => {
                assert(spec_apply_use_case_argument(before, arguments@[i as int]) == Ok::<
                    UseCaseArgsView<T>,
                    Seq<char>,
                >(use_case_args_view(args)));
            },
            Err(message) => {
                proof {
                    lemma_use_case_args_error_persists(arguments@, i as int + 1);
                }
                return Err(message);
            },
        }
        i += 1;
    }
    assert(arguments@.take(arguments.len() as int) == arguments@);
    Ok(args)
}

proof fn lemma_event_scan_error_persists<T>(arguments: Seq<MacroArgument<T>>, n: int)
    requires
        0 <= n <= arguments.len(),
        spec_event_scan(arguments.take(n)) is Err,
    ensures
        spec_event_scan(arguments) == spec_event_scan(arguments.take(n)),
    decreases arguments.len() - n,
{
    if n < arguments.len() {
        assert(arguments.take(n + 1).drop_last() == arguments.take(n));
        lemma_event_scan_error_persists(arguments, n + 1);
    } else {
        assert(arguments.take(n) == arguments);
    }
}

/// Reads the event name from the arguments of `#[UseCaseEventConsumer(...)]`.
pub fn event_name_from_args<'a, T>(arguments: &'a Vec<MacroArgument<T>>) -> (event: Result<&'a str, String>)
    ensures
        match (event, spec_event_name(arguments@)) {
            (Ok(e), Ok(expected)) => e@ == expected,
            (Err(message), Err(expected)) => message@ == expected,
            _ => false,
        },
{
    let mut event: Option<&'a str> = None;
    let mut i: usize = 0;
    assert(arguments@.take(0) =~= Seq::<MacroArgument<T>>::empty());
    while i < arguments.len()
        invariant
            i <= arguments.len(),
            spec_event_scan(arguments@.take(i as int)) == Ok::<Option<Seq<char>>, Seq<char>>(
                match event {
                    Some(e) => Some(e@),
                    None => None,
                },
            ),
        decreases arguments.len() - i,
    {
        let ghost prefix = arguments@.take(i as int + 1);
        assert(prefix.drop_last() == arguments@.take(i as int));
        assert(prefix.last() == arguments@[i as int]);
        let found: Result<&'a str, String> = match &arguments[i] {
            MacroArgument::NameValue { name: Some(name), value: ArgumentValue::Str(text) } => {
                if str_eq(name.as_str(), "event") {
                    if text.unicode_len() == 0 {
                        Err(String::from_str("event name must not be empty"))
                    } else {
                        Ok(text.as_str())
                    }
                } else {
                    Err(String::from_str("expected `event = \"EventName\"`"))
                }
            },
            _ => Err(String::from_str("expected `event = \"EventName\"`")),
        };
        match found {
            Ok(text) => {
                event = Some(text);
            },
            Err(message) => {
                proof {
                    lemma_event_scan_error_persists(arguments@, i as int + 1);
                }
                return Err(message);
            },
        }
        i += 1;
    }
    assert(arguments@.take(arguments.len() as int) == arguments@);
    match event {
        Some(e) => Ok(e),
        None => Err(String::from_str("expected `event = \"EventName\"`")),
    }
}

/// A parameter of a method: a `self` receiver, borrowed or not and mutable
/// or not, or a typed parameter.
pub enum ParameterShape<T> {
    Receiver { reference: bool, mutable: bool },
    Typed(TypeShape<T>),
}

/// The signature of a function or method, as far as the macros read it; the
/// output is absent when the function declares no return type.
pub struct MethodShape<T> {
    pub name: String,
    pub is_async: bool,
    pub generic: bool,
    pub inputs: Vec<ParameterShape<T>>,
    pub output: Option<TypeShape<T>>,
}

/// An `impl` block: whether it implements a trait, whether it has generic
/// parameters, its self type and its methods in order.
pub struct ImplShape<T> {
    pub trait_impl: bool,
    pub generic: bool,
    pub self_ty: TypeShape<T>,
    pub methods: Vec<MethodShape<T>>,
}

/// The name of a use case (or consumer) type: the last segment of its path,
/// which must carry no generic arguments.
pub open spec fn spec_use_case_name<T>(ty: TypeShape<T>) -> Result<Seq<char>, Seq<char>> {
    match ty.kind {
        TypeKind::Path { last_segment: Some(segment), .. } => match segment.arguments {
            PathArgumentsShape::Absent => Ok(segment.ident@),
            _ => Err("macro-registered use cases cannot be generic"@),
        },
        _ => Err("UseCase method names can only be inferred for named structs"@),
    }
}

/// The position of the first method called `name`.
pub open spec fn spec_method_position<T>(methods: Seq<MethodShape<T>>, name: Seq<char>) -> Option<int>
    decreases methods.len(),
{
    if methods.len() == 0 {
        None
    } else if methods[0].name@ == name {
        Some(0)
    } else {
        match spec_method_position(methods.drop_first(), name) {
            Some(i) => Some(i + 1),
            None => None,
        }
    }
}

/// Whether `parameter` is `&self`.
pub open spec fn is_shared_receiver<T>(parameter: ParameterShape<T>) -> bool {
    parameter matches ParameterShape::Receiver { reference: true, mutable: false }
}

/// The input type of an `execute` method, which must be
/// `async fn execute(&self, input: Input)`.
pub open spec fn spec_input_type<T>(method: MethodShape<T>) -> Result<TypeShape<T>, Seq<char>> {
    if !method.is_async {
        Err("execute must be async"@)
    } else if method.inputs@.len() != 2 {
        Err("execute must take exactly `&self` and one input argument"@)
    } else if !is_shared_receiver(method.inputs@[0]) {
        Err("execute must take `&self` as its first argument"@)
    } else {
        match method.inputs@[1] {
            ParameterShape::Typed(ty) => Ok(ty),
            ParameterShape::Receiver { .. } => Err("execute must take one typed input argument after `&self`"@),
        }
    }
}

/// The types among generic arguments, in order.
pub open spec fn spec_argument_types<T>(arguments: Seq<Option<TypeShape<T>>>) -> Seq<TypeShape<T>>
    decreases arguments.len(),
{
    if arguments.len() == 0 {
        Seq::empty()
    } else {
        match arguments.last() {
            Some(ty) => spec_argument_types(arguments.drop_last()).push(ty),
            None => spec_argument_types(arguments.drop_last()),
        }
    }
}

/// The complaint about an `execute` method that does not return a `Result`.
pub open spec fn result_complaint() -> Seq<char> {
    "execute must return `Result<Output, Error>`"@
}

/// The output and error types of an `execute` method: its return type is a
/// path whose last segment is `Result` with at least two type arguments, and
/// they are the first two.
pub open spec fn spec_result_types<T>(method: MethodShape<T>) -> Result<(TypeShape<T>, TypeShape<T>), Seq<char>> {
    match method.output {
        Some(TypeShape { kind: TypeKind::Path { last_segment: Some(segment), .. }, .. }) => if segment.ident@
            == "Result"@ {
            match segment.arguments {
                PathArgumentsShape::AngleBracketed(arguments) => {
                    let types = spec_argument_types(arguments@);
                    if types.len() >= 2 {
                        Ok((types[0], types[1]))
                    } else {
                        Err(result_complaint())
                    }
                },
                _ => Err(result_complaint()),
            }
        } else {
            Err(result_complaint())
        },
        _ => Err(result_complaint()),
    }
}

/// The complaint about a function that cannot consume events, if any: it
/// must be an `async fn` without generics that takes one argument and
/// returns nothing.
pub open spec fn spec_consumer_fn_complaint<T>(function: MethodShape<T>) -> Option<Seq<char>> {
    if function.generic {
        Some("event consumers cannot be generic"@)
    } else if !function.is_async {
        Some("event consumers must be async functions"@)
    } else if function.inputs@.len() != 1 {
        Some("event consumers must take exactly one `&UseCaseEvent` argument"@)
    } else if function.output is Some {
        Some("event consumers must not return a value"@)
    } else {
        None
    }
}

/// The complaint about a `consume` method, if any: it must be an `async fn`
/// that takes `&self` and one argument and returns nothing.
pub open spec fn spec_consume_method_complaint<T>(method: MethodShape<T>) -> Option<Seq<char>> {
    if !method.is_async {
        Some("event consumers must be async functions"@)
    } else if method.inputs@.len() != 2 {
        Some("consume must take exactly `&self` and one `&UseCaseEvent` argument"@)
    } else if !is_shared_receiver(method.inputs@[0]) {
        Some("consume must take `&self` as its first argument"@)
    } else if method.output is Some {
        Some("event consumers must not return a value"@)
    } else {
        None
    }
}

/// The name of a use case or consumer type.
pub fn use_case_name<'a, T>(ty: &'a TypeShape<T>) -> (name: Result<&'a str, String>)
    ensures
        match (name, spec_use_case_name(*ty)) {
            (Ok(n), Ok(expected)) => n@ == expected,
            (Err(message), Err(expected)) => message@ == expected,
            _ => false,
        },
{
    match &ty.kind {
        TypeKind::Path { last_segment: Some(segment), .. } => match &segment.arguments {
            PathArgumentsShape::Absent => Ok(segment.ident.as_str()),
            _ => Err(String::from_str("macro-registered use cases cannot be generic")),
        },
        _ => Err(String::from_str("UseCase method names can only be inferred for named structs")),
    }
}

/// The first method called `name`.
fn find_method<'a, T>(methods: &'a Vec<MethodShape<T>>, name: &str) -> (found: Option<&'a MethodShape<T>>)
    ensures
        match (found, spec_method_position(methods@, name@)) {
            (Some(m), Some(i)) => 0 <= i < methods@.len() && *m == methods@[i],
            (None, None) => true,
            _ => false,
        },
{
    let mut i: usize = 0;
    assert(methods@.skip(0) == methods@);
    while i < methods.len()
        invariant
            i <= methods.len(),
            spec_method_position(methods@, name@) == match spec_method_position(methods@.skip(i as int), name@) {
                Some(k) => Some(k + i),
                None => None::<int>,
            },
        decreases methods.len() - i,
    {
        assert(methods@.skip(i as int).drop_first() == methods@.skip(i as int + 1));
        if str_eq(methods[i].name.as_str(), name) {
            return Some(&methods[i]);
        }
        i += 1;
    }
    None
}

/// The `execute` method of a use case.
pub fn execute_method<'a, T>(item: &'a ImplShape<T>) -> (method: Result<&'a MethodShape<T>, String>)
    ensures
        match (method, spec_method_position(item.methods@, "execute"@)) {
            (Ok(m), Some(i)) => 0 <= i < item.methods@.len() && *m == item.methods@[i],
            (Err(message), None) => message@ == "UseCase requires an async `execute(&self, input) -> Result<Output, Error>` method"@,
            _ => false,
        },
{
    match find_method(&item.methods, "execute") {
        Some(method) => Ok(method),
        None => Err(
            String::from_str("UseCase requires an async `execute(&self, input) -> Result<Output, Error>` method"),
        ),
    }
}

/// The `consume` method of an event consumer.
pub fn consume_method<'a, T>(item: &'a ImplShape<T>) -> (method: Result<&'a MethodShape<T>, String>)
    ensures
        match (method, spec_method_position(item.methods@, "consume"@)) {
            (Ok(m), Some(i)) => 0 <= i < item.methods@.len() && *m == item.methods@[i],
            (Err(message), None) => message@ == "UseCaseEventConsumer requires a `consume(&self, event: &UseCaseEvent)` method"@,
            _ => false,
        },
{
    match find_method(&item.methods, "consume") {
        Some(method) => Ok(method),
        None => Err(
            String::from_str("UseCaseEventConsumer requires a `consume(&self, event: &UseCaseEvent)` method"),
        ),
    }
}

fn shared_receiver<T>(parameter: &ParameterShape<T>) -> (shared: bool)
    ensures
        shared == is_shared_receiver(*parameter),
{
    match parameter {
        ParameterShape::Receiver { reference, mutable } => *reference && !*mutable,
        ParameterShape::Typed(_) => false,
    }
}

/// The input type of an `execute` method.
pub fn input_type<'a, T>(method: &'a MethodShape<T>) -> (input: Result<&'a TypeShape<T>, String>)
    ensures
        match (input, spec_input_type(*method)) {
            (Ok(ty), Ok(expected)) => *ty == expected,
            (Err(message), Err(expected)) => message@ == expected,
            _ => false,
        },
{
    if !method.is_async {
        return Err(String::from_str("execute must be async"));
    }
    if method.inputs.len() != 2 {
        return Err(String::from_str("execute must take exactly `&self` and one input argument"));
    }
    if !shared_receiver(&method.inputs[0]) {
        return Err(String::from_str("execute must take `&self` as its first argument"));
    }
    match &method.inputs[1] {
        ParameterShape::Typed(ty) => Ok(ty),
        ParameterShape::Receiver { .. } => Err(
            String::from_str("execute must take one typed input argument after `&self`"),
        ),
    }
}

/// The output and error types of an `execute` method.
pub fn result_output_types<'a, T>(method: &'a MethodShape<T>) -> (types: Result<
    (&'a TypeShape<T>, &'a TypeShape<T>),
    String,
>)
    ensures
        match (types, spec_result_types(*method)) {
            (Ok((output, error)), Ok((expected_output, expected_error))) => *output == expected_output
                && *error == expected_error,
            (Err(message), Err(expected)) => message@ == expected,
            _ => false,
        },
{
    let arguments = match &method.output {
        Some(TypeShape { kind: TypeKind::Path { last_segment: Some(segment), .. }, .. }) => {
            if !str_eq(segment.ident.as_str(), "Result") {
                return Err(String::from_str("execute must return `Result<Output, Error>`"));
            }
            match &segment.arguments {
                PathArgumentsShape::AngleBracketed(arguments) => arguments,
                _ => {
                    return Err(String::from_str("execute must return `Result<Output, Error>`"));
                },
            }
        },
        _ => {
            return Err(String::from_str("execute must return `Result<Output, Error>`"));
        },
    };
    let mut types: Vec<&'a TypeShape<T>> = Vec::new();
    let mut i: usize = 0;
    assert(arguments@.take(0) =~= Seq::<Option<TypeShape<T>>>::empty());
    assert(values_of(types@) =~= Seq::<TypeShape<T>>::empty());
    while i < arguments.len()
        invariant
            i <= arguments.len(),
            values_of(types@) == spec_argument_types(arguments@.take(i as int)),
        decreases arguments.len() - i,
    {
        let ghost prefix = arguments@.take(i as int + 1);
        assert(prefix.drop_last() == arguments@.take(i as int));
        assert(prefix.last() == arguments@[i as int]);
        if let Some(ty) = &arguments[i] {
            let ghost before = types@;
            types.push(ty);
            assert(values_of(types@) =~= values_of(before).push(*ty));
        }
        i += 1;
    }
    assert(arguments@.take(arguments.len() as int) == arguments@);
    if types.len() < 2 {
        return Err(String::from_str("execute must return `Result<Output, Error>`"));
    }
    Ok((types[0], types[1]))
}

/// Checks that a function can consume events.
pub fn validate_event_consumer_fn_signature<T>(function: &MethodShape<T>) -> (checked: Result<(), String>)
    ensures
        match spec_consumer_fn_complaint(*function) {
            None => checked is Ok,
            Some(complaint) => checked matches Err(m) && m@ == complaint,
        },
{
    if function.generic {
        return Err(String::from_str("event consumers cannot be generic"));
    }
    if !function.is_async {
        return Err(String::from_str("event consumers must be async functions"));
    }
    if function.inputs.len() != 1 {
        return Err(String::from_str("event consumers must take exactly one `&UseCaseEvent` argument"));
    }
    if function.output.is_some() {
        return Err(String::from_str("event consumers must not return a value"));
    }
    Ok(())
}

/// Checks that a `consume` method can consume events.
pub fn validate_event_consumer_method_signature<T>(method: &MethodShape<T>) -> (checked: Result<(), String>)
    ensures
        match spec_consume_method_complaint(*method) {
            None => checked is Ok,
            Some(complaint) => checked matches Err(m) && m@ == complaint,
        },
{
    if !method.is_async {
        return Err(String::from_str("event consumers must be async functions"));
    }
    if method.inputs.len() != 2 {
        return Err(String::from_str("consume must take exactly `&self` and one `&UseCaseEvent` argument"));
    }
    if !shared_receiver(&method.inputs[0]) {
        return Err(String::from_str("consume must take `&self` as its first argument"));
    }
    if method.output.is_some() {
        return Err(String::from_str("event consumers must not return a value"));
    }
    Ok(())
}

/// The name the authored `execute` body is moved to. `#[UseCase]` puts an
/// outer `execute(input)` in its place, which transforms and validates the
/// input first (`gate_input`), answers invalid input with `InvalidInput`
/// without running the body, and otherwise runs the body under this name and
/// turns its error into `Execution` (`execution_outcome`).
pub const PREPARED_EXECUTE: &'static str = "__jsonrpc_usecase_prepared_execute";

/// What `#[UseCase]` emits for a use case: its name, the JSON-RPC method it
/// answers, whether it is registered for JSON-RPC, the names of its events,
/// its guards in order, the input, output and error types of `execute`, and
/// the name the authored body moves to behind the outer `execute`.
pub struct UseCasePlan<'a, T> {
    pub name: &'a str,
    pub method: String,
    pub register: bool,
    pub will_event: String,
    pub did_event: String,
    pub guards: Vec<&'a T>,
    pub input: &'a TypeShape<T>,
    pub output: &'a TypeShape<T>,
    pub error: &'a TypeShape<T>,
    pub prepared_method: String,
}

/// The content of a `UseCasePlan`.
pub struct UseCaseStep<T> {
    pub name: Seq<char>,
    pub method: Seq<char>,
    pub register: bool,
    pub will_event: Seq<char>,
    pub did_event: Seq<char>,
    pub guards: Seq<T>,
    pub input: TypeShape<T>,
    pub output: TypeShape<T>,
    pub error: TypeShape<T>,
    pub prepared_method: Seq<char>,
}

/// The content of `plan`.
pub open spec fn use_case_step_of<'a, T>(plan: UseCasePlan<'a, T>) -> UseCaseStep<T> {
    UseCaseStep {
        name: plan.name@,
        method: plan.method@,
        register: plan.register,
        will_event: plan.will_event@,
        did_event: plan.did_event@,
        guards: values_of(plan.guards@),
        input: *plan.input,
        output: *plan.output,
        error: *plan.error,
        prepared_method: plan.prepared_method@,
    }
}

/// The complaint about a use case without an `execute` method.
pub open spec fn missing_execute() -> Seq<char> {
    "UseCase requires an async `execute(&self, input) -> Result<Output, Error>` method"@
}

/// What `#[UseCase(arguments)]` emits for the impl block `item`: the method
/// defaults to the type's name, and the events are `Will` and `Did` followed
/// by the type's name, whatever the method.
pub open spec fn spec_use_case<T>(arguments: Seq<MacroArgument<T>>, item: ImplShape<T>) -> Result<
    UseCaseStep<T>,
    Seq<char>,
> {
    if item.trait_impl {
        Err("UseCase must be applied to an inherent impl block"@)
    } else if item.generic {
        Err("macro-registered use cases cannot be generic"@)
    } else {
        match spec_use_case_name(item.self_ty) {
            Err(message) => Err(message),
            Ok(name) => match spec_use_case_args(arguments) {
                Err(message) => Err(message),
                Ok(args) => match spec_method_position(item.methods@, "execute"@) {
                    None => Err(missing_execute()),
                    Some(i) => match spec_input_type(item.methods@[i]) {
                        Err(message) => Err(message),
                        Ok(input) => match spec_result_types(item.methods@[i]) {
                            Err(message) => Err(message),
                            Ok((output, error)) => Ok(
                                UseCaseStep {
                                    name,
                                    method: match args.method {
                                        Some(method) => method,
                                        None => name,
                                    },
                                    register: args.jsonrpc,
                                    will_event: "Will"@ + name,
                                    did_event: "Did"@ + name,
                                    guards: args.guards,
                                    input,
                                    output,
                                    error,
                                    prepared_method: PREPARED_EXECUTE@,
                                },
                            ),
                        },
                    },
                },
            },
        }
    }
}

fn prefixed(prefix: &str, name: &str) -> (joined: String)
    ensures
        joined@ == prefix@ + name@,
{
    let joined = surround(prefix, name, "");
    proof {
        reveal_strlit("");
        assert(prefix@ + name@ + ""@ =~= prefix@ + name@);
    }
    joined
}

/// What `#[UseCase(arguments)]` emits for the impl block `item`.
pub fn expand_use_case<'a, T>(arguments: &'a Vec<MacroArgument<T>>, item: &'a ImplShape<T>) -> (plan: Result<
    UseCasePlan<'a, T>,
    String,
>)
    ensures
        match (plan, spec_use_case(arguments@, *item)) {
            (Ok(p), Ok(step)) => use_case_step_of(p) == step,
            (Err(message), Err(expected)) => message@ == expected,
            _ => false,
        },
{
    if item.trait_impl {
        return Err(String::from_str("UseCase must be applied to an inherent impl block"));
    }
    if item.generic {
        return Err(String::from_str("macro-registered use cases cannot be generic"));
    }
    let name = match use_case_name(&item.self_ty) {
        Ok(name) => name,
        Err(message) => {
            return Err(message);
        },
    };
    let args = match use_case_args_from_args(arguments) {
        Ok(args) => args,
        Err(message) => {
            return Err(message);
        },
    };
    let method = match args.method {
        Some(method) => String::from_str(method),
        None => String::from_str(name),
    };
    let will_event = prefixed("Will", name);
    let did_event = prefixed("Did", name);
    let execute = match execute_method(item) {
        Ok(execute) => execute,
        Err(message) => {
            return Err(message);
        },
    };
    let input = match input_type(execute) {
        Ok(input) => input,
        Err(message) => {
            return Err(message);
        },
    };
    let (output, error) = match result_output_types(execute) {
        Ok(types) => types,
        Err(message) => {
            return Err(message);
        },
    };
    Ok(UseCasePlan {
        name,
        method,
        register: args.jsonrpc,
        will_event,
        did_event,
        guards: args.guards,
        input,
        output,
        error,
        prepared_method: String::from_str(PREPARED_EXECUTE),
    })
}

/// What `#[UseCaseEventConsumer]` is applied to.
pub enum ConsumerItem<T> {
    /// A function, which is called with the event.
    Function(MethodShape<T>),
    /// A struct, whose default value's `consume` method is called.
    Struct { name: String, generic: bool },
    /// An inherent impl block with a `consume` method.
    Impl(ImplShape<T>),
    /// Anything else.
    Other,
}

/// How a registered consumer is called with an event.
pub enum ConsumerCall<'a, T> {
    /// Call the named function.
    Function(&'a str),
    /// Call `consume` on the default value of the named struct.
    Struct(&'a str),
    /// Call the named method on the default value of the type.
    Method { self_ty: &'a TypeShape<T>, method: &'a str },
}

/// What `#[UseCaseEventConsumer]` emits: the event consumed, the name of the
/// function registered for it, and what that function calls.
pub struct ConsumerPlan<'a, T> {
    pub event: &'a str,
    pub trampoline: String,
    pub call: ConsumerCall<'a, T>,
}

/// The content of a `ConsumerCall`.
pub enum ConsumerCallStep<T> {
    Function(Seq<char>),
    Struct(Seq<char>),
    Method { self_ty: TypeShape<T>, method: Seq<char> },
}

/// The content of a `ConsumerPlan`.
pub struct ConsumerStep<T> {
    pub event: Seq<char>,
    pub trampoline: Seq<char>,
    pub call: ConsumerCallStep<T>,
}

/// The content of `call`.
pub open spec fn consumer_call_step_of<'a, T>(call: ConsumerCall<'a, T>) -> ConsumerCallStep<T> {
    match call {
        ConsumerCall::Function(name) => ConsumerCallStep::Function(name@),
        ConsumerCall::Struct(name) => ConsumerCallStep::Struct(name@),
        ConsumerCall::Method { self_ty, method } => ConsumerCallStep::Method { self_ty: *self_ty, method: method@ },
    }
}

/// The content of `plan`.
pub open spec fn consumer_step_of<'a, T>(plan: ConsumerPlan<'a, T>) -> ConsumerStep<T> {
    ConsumerStep { event: plan.event@, trampoline: plan.trampoline@, call: consumer_call_step_of(plan.call) }
}

/// The start of the name of every function registered for a consumer.
pub open spec fn trampoline_prefix() -> Seq<char> {
    "__jsonrpc_usecase_event_consumer_"@
}

/// The registered function and its call for a function consumer.
pub open spec fn spec_fn_consumer<T>(function: MethodShape<T>) -> Result<
    (Seq<char>, ConsumerCallStep<T>),
    Seq<char>,
> {
    match spec_consumer_fn_complaint(function) {
        Some(complaint) => Err(complaint),
        None => Ok((trampoline_prefix() + function.name@, ConsumerCallStep::Function(function.name@))),
    }
}

/// The registered function and its call for a struct consumer.
pub open spec fn spec_struct_consumer<T>(name: Seq<char>, generic: bool) -> Result<
    (Seq<char>, ConsumerCallStep<T>),
    Seq<char>,
> {
    if generic {
        Err("event consumers cannot be generic"@)
    } else {
        Ok((trampoline_prefix() + name + "_consume"@, ConsumerCallStep::Struct(name)))
    }
}

/// The registered function and its call for an impl block consumer.
pub open spec fn spec_impl_consumer<T>(item: ImplShape<T>) -> Result<(Seq<char>, ConsumerCallStep<T>), Seq<char>> {
    if item.trait_impl {
        Err("UseCaseEventConsumer must be applied to an inherent impl block"@)
    } else if item.generic {
        Err("event consumers cannot be generic"@)
    } else {
        match spec_use_case_name(item.self_ty) {
            Err(message) => Err(message),
            Ok(name) => match spec_method_position(item.methods@, "consume"@) {
                None => Err("UseCaseEventConsumer requires a `consume(&self, event: &UseCaseEvent)` method"@),
                Some(i) => match spec_consume_method_complaint(item.methods@[i]) {
                    Some(complaint) => Err(complaint),
                    None => Ok(
                        (
                            trampoline_prefix() + name + "_"@ + item.methods@[i].name@,
                            ConsumerCallStep::Method { self_ty: item.self_ty, method: item.methods@[i].name@ },
                        ),
                    ),
                },
            },
        }
    }
}

/// What `#[UseCaseEventConsumer(arguments)]` emits for `item`.
pub open spec fn spec_event_consumer<T>(arguments: Seq<MacroArgument<T>>, item: ConsumerItem<T>) -> Result<
    ConsumerStep<T>,
    Seq<char>,
> {
    match spec_event_name(arguments) {
        Err(message) => Err(message),
        Ok(event) => {
            let target = match item {
                ConsumerItem::Function(function) => spec_fn_consumer(function),
                ConsumerItem::Struct { name, generic } => spec_struct_consumer(name@, generic),
                ConsumerItem::Impl(block) => spec_impl_consumer(block),
                ConsumerItem::Other => Err(
                    "UseCaseEventConsumer must be applied to a struct, function, or inherent impl block"@,
                ),
            };
            match target {
                Err(message) => Err(message),
                Ok((trampoline, call)) => Ok(ConsumerStep { event, trampoline, call }),
            }
        },
    }
}

/// What `#[UseCaseEventConsumer]` emits for a function consumer of `event`.
pub fn expand_event_consumer_fn<'a, T>(event: &'a str, function: &'a MethodShape<T>) -> (plan: Result<
    ConsumerPlan<'a, T>,
    String,
>)
    ensures
        match (plan, spec_fn_consumer(*function)) {
            (Ok(p), Ok((trampoline, call))) => consumer_step_of(p) == ConsumerStep { event: event@, trampoline, call },
            (Err(message), Err(expected)) => message@ == expected,
            _ => false,
        },
{
    match validate_event_consumer_fn_signature(function) {
        Err(message) => Err(message),
        Ok(()) => Ok(ConsumerPlan {
            event,
            trampoline: prefixed("__jsonrpc_usecase_event_consumer_", function.name.as_str()),
            call: ConsumerCall::Function(function.name.as_str()),
        }),
    }
}

/// What `#[UseCaseEventConsumer]` emits for a struct consumer of `event`.
pub fn expand_event_consumer_struct<'a, T>(event: &'a str, name: &'a str, generic: bool) -> (plan: Result<
    ConsumerPlan<'a, T>,
    String,
>)
    ensures
        match (plan, spec_struct_consumer::<T>(name@, generic)) {
            (Ok(p), Ok((trampoline, call))) => consumer_step_of(p) == ConsumerStep { event: event@, trampoline, call },
            (Err(message), Err(expected)) => message@ == expected,
            _ => false,
        },
{
    if generic {
        return Err(String::from_str("event consumers cannot be generic"));
    }
    Ok(ConsumerPlan {
        event,
        trampoline: surround("__jsonrpc_usecase_event_consumer_", name, "_consume"),
        call: ConsumerCall::Struct(name),
    })
}

/// What `#[UseCaseEventConsumer]` emits for an impl block consumer of `event`.
pub fn expand_event_consumer_impl<'a, T>(event: &'a str, item: &'a ImplShape<T>) -> (plan: Result<
    ConsumerPlan<'a, T>,
    String,
>)
    ensures
        match (plan, spec_impl_consumer(*item)) {
            (Ok(p), Ok((trampoline, call))) => consumer_step_of(p) == ConsumerStep { event: event@, trampoline, call },
            (Err(message), Err(expected)) => message@ == expected,
            _ => false,
        },
{
    if item.trait_impl {
        return Err(String::from_str("UseCaseEventConsumer must be applied to an inherent impl block"));
    }
    if item.generic {
        return Err(String::from_str("event consumers cannot be generic"));
    }
    let name = match use_case_name(&item.self_ty) {
        Ok(name) => name,
        Err(message) => {
            return Err(message);
        },
    };
    let consume = match consume_method(item) {
        Ok(consume) => consume,
        Err(message) => {
            return Err(message);
        },
    };
    if let Err(message) = validate_event_consumer_method_signature(consume) {
        return Err(message);
    }
    let head = surround("__jsonrpc_usecase_event_consumer_", name, "_");
    let trampoline = prefixed(head.as_str(), consume.name.as_str());
    Ok(ConsumerPlan {
        event,
        trampoline,
        call: ConsumerCall::Method { self_ty: &item.self_ty, method: consume.name.as_str() },
    })
}

/// What `#[UseCaseEventConsumer(arguments)]` emits for `item`.
pub fn expand_event_consumer<'a, T>(arguments: &'a Vec<MacroArgument<T>>, item: &'a ConsumerItem<T>) -> (plan:
    Result<ConsumerPlan<'a, T>, String>)
    ensures
        match (plan, spec_event_consumer(arguments@, *item)) {
            (Ok(p), Ok(step)) => consumer_step_of(p) == step,
            (Err(message), Err(expected)) => message@ == expected,
            _ => false,
        },
{
    let event = match event_name_from_args(arguments) {
        Ok(event) => event,
        Err(message) => {
            return Err(message);
        },
    };
    match item {
        ConsumerItem::Function(function) => expand_event_consumer_fn(event, function),
        ConsumerItem::Struct { name, generic } => expand_event_consumer_struct(event, name.as_str(), *generic),
        ConsumerItem::Impl(block) => expand_event_consumer_impl(event, block),
        ConsumerItem::Other => Err(
            String::from_str("UseCaseEventConsumer must be applied to a struct, function, or inherent impl block"),
        ),
    }
}

/// Whether `argument` is `name = ...`.
pub open spec fn is_named<T>(argument: MacroArgument<T>, name: Seq<char>) -> bool {
    argument matches MacroArgument::NameValue { name: Some(n), .. } && n@ == name
}

/// Whether one of `arguments` is `name = ...`.
pub open spec fn names_argument<T>(arguments: Seq<MacroArgument<T>>, name: Seq<char>) -> bool {
    exists|i: int| 0 <= i < arguments.len() && is_named(#[trigger] arguments[i], name)
}

proof fn lemma_use_case_args_defaults<T>(arguments: Seq<MacroArgument<T>>)
    requires
        spec_use_case_args(arguments) is Ok,
    ensures
        !names_argument(arguments, "method"@) ==> spec_use_case_args(arguments)->Ok_0.method is None,
        !names_argument(arguments, "jsonrpc"@) ==> spec_use_case_args(arguments)->Ok_0.jsonrpc,
    decreases arguments.len(),
{
    if arguments.len() > 0 {
        let earlier = arguments.drop_last();
        lemma_use_case_args_defaults(earlier);
        assert forall|name: Seq<char>| names_argument(earlier, name) implies names_argument(arguments, name) by {
            let i = choose|i: int| 0 <= i < earlier.len() && is_named(#[trigger] earlier[i], name);
            assert(arguments[i] == earlier[i]);
        }
        assert(arguments[arguments.len() - 1] == arguments.last());
    }
}

/// The events of a use case are `Will` and `Did` followed by the name of its
/// type, whatever the arguments say: two argument lists accepted for the same
/// impl block give the same event names, also when they name different
/// JSON-RPC methods.
pub proof fn event_names_follow_the_type_name<T>(
    arguments: Seq<MacroArgument<T>>,
    other: Seq<MacroArgument<T>>,
    item: ImplShape<T>,
)
    requires
        spec_use_case(arguments, item) is Ok,
        spec_use_case(other, item) is Ok,
    ensures
        spec_use_case(arguments, item)->Ok_0.will_event == "Will"@ + spec_use_case_name(item.self_ty)->Ok_0,
        spec_use_case(arguments, item)->Ok_0.did_event == "Did"@ + spec_use_case_name(item.self_ty)->Ok_0,
        spec_use_case(arguments, item)->Ok_0.will_event == spec_use_case(other, item)->Ok_0.will_event,
        spec_use_case(arguments, item)->Ok_0.did_event == spec_use_case(other, item)->Ok_0.did_event,
{
}

/// Without a `method = "..."` argument, the JSON-RPC method is the name of
/// the use case's type.
pub proof fn method_defaults_to_the_type_name<T>(arguments: Seq<MacroArgument<T>>, item: ImplShape<T>)
    requires
        spec_use_case(arguments, item) is Ok,
        !names_argument(arguments, "method"@),
    ensures
        spec_use_case(arguments, item)->Ok_0.method == spec_use_case(arguments, item)->Ok_0.name,
{
    lemma_use_case_args_defaults(arguments);
}

/// Without a `jsonrpc = ...` argument, a use case is registered for JSON-RPC.
pub proof fn registration_is_enabled_by_default<T>(arguments: Seq<MacroArgument<T>>, item: ImplShape<T>)
    requires
        spec_use_case(arguments, item) is Ok,
        !names_argument(arguments, "jsonrpc"@),
    ensures
        spec_use_case(arguments, item)->Ok_0.register,
{
    lemma_use_case_args_defaults(arguments);
}

/// Adding `jsonrpc = false` to accepted arguments keeps the use case
/// accepted, with the same method name and events, and leaves it
/// unregistered, even when a `method = "..."` argument names a method.
pub proof fn jsonrpc_false_disables_registration<T>(
    arguments: Seq<MacroArgument<T>>,
    flag: MacroArgument<T>,
    item: ImplShape<T>,
)
    requires
        spec_use_case(arguments, item) is Ok,
        flag matches MacroArgument::NameValue { name: Some(n), value: ArgumentValue::Bool(false) } && n@
            == "jsonrpc"@,
    ensures
        spec_use_case(arguments.push(flag), item) is Ok,
        !spec_use_case(arguments.push(flag), item)->Ok_0.register,
        spec_use_case(arguments.push(flag), item)->Ok_0.method == spec_use_case(arguments, item)->Ok_0.method,
        spec_use_case(arguments.push(flag), item)->Ok_0.will_event == spec_use_case(arguments, item)->Ok_0.will_event,
        spec_use_case(arguments.push(flag), item)->Ok_0.did_event == spec_use_case(arguments, item)->Ok_0.did_event,
{
    reveal_strlit("jsonrpc");
    reveal_strlit("method");
    reveal_strlit("guards");
    let extended = arguments.push(flag);
    assert(extended.drop_last() == arguments);
    assert(extended.last() == flag);
    assert(spec_use_case_args(extended) == spec_apply_use_case_argument(spec_use_case_args(arguments)->Ok_0, flag));
    assert("jsonrpc"@[0] != "method"@[0]);
    assert("jsonrpc"@[0] != "guards"@[0]);
}


/// The method lookup finds a method wherever it stands in the impl block: it
/// finds one exactly when some method has the name, and then it finds the
/// first of them.
pub proof fn method_lookup_finds_the_first_match<T>(methods: Seq<MethodShape<T>>, name: Seq<char>)
    ensures
        spec_method_position(methods, name) is Some <==> exists|i: int|
            0 <= i < methods.len() && #[trigger] methods[i].name@ == name,
        spec_method_position(methods, name) matches Some(i) ==> 0 <= i < methods.len() && methods[i].name@
            == name && forall|k: int| 0 <= k < i ==> #[trigger] methods[k].name@ != name,
    decreases methods.len(),
{
    if methods.len() > 0 {
        let rest = methods.drop_first();
        method_lookup_finds_the_first_match(rest, name);
        assert forall|i: int| 1 <= i < methods.len() implies #[trigger] methods[i] == rest[i - 1] by {}
        if methods[0].name@ != name {
            if exists|i: int| 0 <= i < methods.len() && #[trigger] methods[i].name@ == name {
                let i = choose|i: int| 0 <= i < methods.len() && #[trigger] methods[i].name@ == name;
                assert(rest[i - 1].name@ == name);
            }
            match spec_method_position(rest, name) {
                Some(j) => {
                    assert(methods[j + 1] == rest[j]);
                    assert forall|k: int| 0 <= k < j + 1 implies #[trigger] methods[k].name@ != name by {
                        if k > 0 {
                            assert(methods[k] == rest[k - 1]);
                        }
                    }
                },
                None => {},
            }
        }
    }
}

/// A use case's `execute` method may stand anywhere among its methods: an
/// inherent, non-generic impl block of a named type, with accepted
/// arguments, whose first method called `execute` has the right shape, is
/// accepted with the input, output and error types of that method, whatever
/// other methods come before it.
pub proof fn execute_is_found_among_all_methods<T>(arguments: Seq<MacroArgument<T>>, item: ImplShape<T>, i: int)
    requires
        0 <= i < item.methods@.len(),
        item.methods@[i].name@ == "execute"@,
        forall|k: int| 0 <= k < i ==> #[trigger] item.methods@[k].name@ != "execute"@,
        !item.trait_impl,
        !item.generic,
        spec_use_case_name(item.self_ty) is Ok,
        spec_use_case_args(arguments) is Ok,
        spec_input_type(item.methods@[i]) is Ok,
        spec_result_types(item.methods@[i]) is Ok,
    ensures
        spec_use_case(arguments, item) is Ok,
        spec_use_case(arguments, item)->Ok_0.input == spec_input_type(item.methods@[i])->Ok_0,
        spec_use_case(arguments, item)->Ok_0.output == spec_result_types(item.methods@[i])->Ok_0.0,
        spec_use_case(arguments, item)->Ok_0.error == spec_result_types(item.methods@[i])->Ok_0.1,
{
    method_lookup_finds_the_first_match(item.methods@, "execute"@);
    let p = spec_method_position(item.methods@, "execute"@);
    assert(p == Some(i)) by {
        let j = p->Some_0;
        if j < i {
            assert(item.methods@[j].name@ != "execute"@);
        } else if j > i {
        }
    }
}

} // verus!
