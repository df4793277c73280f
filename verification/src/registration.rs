use vstd::prelude::*;
use crate::text::str_eq;
use vstd::string::StringExecFns;

verus! {

/// Why the registry of use cases cannot be built.
#[derive(Debug)]
pub enum RegistrationError {
    /// Two use cases register the JSON-RPC method with this name.
    DuplicateMethod(String),
}

/// Whether the method at `j` repeats one registered before it.
pub open spec fn repeats_earlier(methods: Seq<Seq<char>>, j: int) -> bool {
    exists|i: int| 0 <= i < j && methods[i] == methods[j]
}

/// The names behind borrowed names.
pub open spec fn names_of(methods: Seq<&str>) -> Seq<Seq<char>> {
    methods.map_values(|method: &str| method@)
}

/// Checks that no JSON-RPC method is registered twice; the complaint names
/// the first method, in registration order, that repeats an earlier one.
pub fn check_unique_methods(methods: &Vec<&str>) -> (checked: Result<(), RegistrationError>)
    ensures
        match checked {
            Ok(()) => forall|i: int, j: int| 0 <= i < j < methods.len() ==> methods[i]@ != methods[j]@,
            Err(RegistrationError::DuplicateMethod(name)) => exists|j: int|
                0 <= j < methods.len() && repeats_earlier(names_of(methods@), j) && (forall|k: int|
                    0 <= k < j ==> !repeats_earlier(names_of(methods@), k)) && name@ == methods[j]@,
        },
{
    let ghost names = names_of(methods@);
    let mut j: usize = 0;
    while j < methods.len()
        invariant
            j <= methods.len(),
            names == names_of(methods@),
            forall|k: int| 0 <= k < j ==> !repeats_earlier(names, k),
        decreases methods.len() - j,
    {
        let mut i: usize = 0;
        while i < j
            invariant
                i <= j < methods.len(),
                names == names_of(methods@),
                forall|k: int| 0 <= k < j ==> !repeats_earlier(names, k),
                forall|k: int| 0 <= k < i ==> names[k] != names[j as int],
            decreases j - i,
        {
            if str_eq(methods[i], methods[j]) {
                assert(names[i as int] == names[j as int]);
                assert(repeats_earlier(names, j as int));
                assert(names[j as int] == methods@[j as int]@);
                return Err(RegistrationError::DuplicateMethod(String::from_str(methods[j])));
            }
            i += 1;
        }
        j += 1;
    }
    assert forall|i: int, j: int| 0 <= i < j < methods.len() implies methods[i]@ != methods[j]@ by {
        assert(!repeats_earlier(names, j));
        assert(names[i] == methods[i]@ && names[j] == methods[j]@);
    }
    Ok(())
}

} // verus!
