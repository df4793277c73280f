use jsonrpc_usecase::registration::{check_unique_methods, RegistrationError};

#[test]
fn distinct_method_names_register() {
    assert!(check_unique_methods(&vec!["AddNumbers", "MathAdd", "addNumbers"]).is_ok());
    assert!(check_unique_methods(&vec![]).is_ok());
}

#[test]
fn a_repeated_method_name_is_refused() {
    match check_unique_methods(&vec!["AddNumbers", "MathAdd", "Subtract", "MathAdd", "AddNumbers"]) {
        Err(RegistrationError::DuplicateMethod(name)) => assert_eq!(name, "MathAdd"),
        Ok(()) => panic!("expected a duplicate method"),
    }
}
