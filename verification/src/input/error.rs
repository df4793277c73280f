use vstd::prelude::*;
use crate::text::{chars_of, decimal, decimal_string, string_of, push_all};
use vstd::string::StringExecFns;

verus! {

/// What an `InputViolation` holds, as character sequences.
pub struct InputViolationView {
    pub field: Seq<char>,
    pub rule: Seq<char>,
    pub message: Seq<char>,
}

/// One failed input rule.
#[derive(Clone, Debug)]
pub struct InputViolation {
    field: String,
    rule: String,
    message: String,
}

impl View for InputViolation {
    type V = InputViolationView;

    closed spec fn view(&self) -> InputViolationView {
        InputViolationView { field: self.field@, rule: self.rule@, message: self.message@ }
    }
}

/// The field path `field` takes once it sits under the field `prefix`: the
/// prefix alone for an empty path, else the prefix, a dot and the path.
pub open spec fn prefixed_field(prefix: Seq<char>, field: Seq<char>) -> Seq<char> {
    if field.len() == 0 {
        prefix
    } else {
        prefix + seq!['.'] + field
    }
}

/// `violation` moved under the field `prefix`.
pub open spec fn prefixed_violation(prefix: Seq<char>, violation: InputViolationView) -> InputViolationView {
    InputViolationView {
        field: prefixed_field(prefix, violation.field),
        rule: violation.rule,
        message: violation.message,
    }
}

impl InputViolation {
    pub fn new(field: String, rule: String, message: String) -> (violation: Self)
        ensures
            violation@ == (InputViolationView { field: field@, rule: rule@, message: message@ }),
    {
        InputViolation { field, rule, message }
    }

    pub fn field(&self) -> (field: &str)
        ensures
            field@ == self@.field,
    {
        self.field.as_str()
    }

    pub fn rule(&self) -> (rule: &str)
        ensures
            rule@ == self@.rule,
    {
        self.rule.as_str()
    }

    pub fn message(&self) -> (message: &str)
        ensures
            message@ == self@.message,
    {
        self.message.as_str()
    }

    pub(crate) fn prefix_field(&mut self, prefix: &str)
        ensures
            final(self)@ == prefixed_violation(prefix@, old(self)@),
    {
        let field = chars_of(self.field.as_str());
        let mut path = chars_of(prefix);
        if field.len() != 0 {
            path.push('.');
            push_all(&mut path, &field);
            assert(path@ =~= prefix@ + seq!['.'] + field@);
        }
        self.field = string_of(&path);
    }
}

impl PartialEq for InputViolation {
    fn eq(&self, other: &Self) -> (equal: bool) {
        self.field == other.field && self.rule == other.rule && self.message == other.message
    }
}

impl Eq for InputViolation {}

impl vstd::std_specs::cmp::PartialEqSpecImpl for InputViolation {
    open spec fn obeys_eq_spec() -> bool {
        true
    }

    open spec fn eq_spec(&self, other: &InputViolation) -> bool {
        self@ == other@
    }
}

/// All validation failures found on an input.
#[derive(Clone, Debug)]
pub struct InputValidationErrors {
    violations: Vec<InputViolation>,
}

/// The views of `violations`, in order.
pub open spec fn violation_views(violations: Seq<InputViolation>) -> Seq<InputViolationView> {
    violations.map_values(|violation: InputViolation| violation@)
}

impl View for InputValidationErrors {
    type V = Seq<InputViolationView>;

    closed spec fn view(&self) -> Seq<InputViolationView> {
        violation_views(self.violations@)
    }
}

impl PartialEq for InputValidationErrors {
    fn eq(&self, other: &Self) -> (equal: bool) {
        if self.violations.len() != other.violations.len() {
            assert(self@.len() != other@.len());
            return false;
        }
        let mut i: usize = 0;
        while i < self.violations.len()
            invariant
                self.violations.len() == other.violations.len(),
                i <= self.violations.len(),
                forall|k: int| 0 <= k < i ==> #[trigger] self@[k] == other@[k],
            decreases self.violations.len() - i,
        {
            if !(self.violations[i] == other.violations[i]) {
                assert(self@[i as int] != other@[i as int]);
                return false;
            }
            i += 1;
        }
        assert(self@ =~= other@);
        true
    }
}

impl Eq for InputValidationErrors {}

impl Default for InputValidationErrors {
    fn default() -> (errors: Self)
        ensures
            errors@ == Seq::<InputViolationView>::empty(),
    {
        InputValidationErrors::new()
    }
}

impl vstd::std_specs::cmp::PartialEqSpecImpl for InputValidationErrors {
    open spec fn obeys_eq_spec() -> bool {
        true
    }

    open spec fn eq_spec(&self, other: &InputValidationErrors) -> bool {
        self@ == other@
    }
}

impl InputValidationErrors {
    pub fn new() -> (errors: Self)
        ensures
            errors@ == Seq::<InputViolationView>::empty(),
    {
        let errors = InputValidationErrors { violations: Vec::new() };
        assert(errors@ =~= Seq::<InputViolationView>::empty());
        errors
    }

    pub fn push(&mut self, violation: InputViolation)
        ensures
            final(self)@ == old(self)@.push(violation@),
    {
        self.violations.push(violation);
        assert(final(self)@ =~= old(self)@.push(violation@));
    }

    /// Appends `errors`, each violation moved under the field `prefix`.
    pub fn extend_prefixed(&mut self, prefix: &str, errors: Self)
        ensures
            final(self)@ == old(self)@ + errors@.map_values(
                |violation: InputViolationView| prefixed_violation(prefix@, violation),
            ),
    {
        let ghost added = errors@;
        let ghost start = self@;
        let mut index: usize = 0;
        let mut rest = errors.violations;
        let ghost given = rest@;
        let ghost mapped = added.map_values(
            |violation: InputViolationView| prefixed_violation(prefix@, violation),
        );
        for violation in it: rest.into_iter()
            invariant
                it.seq() == given,
                added == violation_views(given),
                mapped == added.map_values(
                    |violation: InputViolationView| prefixed_violation(prefix@, violation),
                ),
                self@ == start + mapped.take(it.index() as int),
        {
            let ghost k = it.index();
            let mut violation = violation;
            violation.prefix_field(prefix);
            let ghost before = self@;
            self.violations.push(violation);
            assert(self@ =~= before.push(violation@));
            assert(mapped.take(k + 1) =~= mapped.take(k as int).push(mapped[k as int]));
        }
        assert(mapped.take(mapped.len() as int) =~= mapped);
    }

    pub fn is_empty(&self) -> (empty: bool)
        ensures
            empty == (self@.len() == 0),
    {
        self.violations.len() == 0
    }

    pub fn len(&self) -> (count: usize)
        ensures
            count == self@.len(),
    {
        self.violations.len()
    }

    pub fn violations(&self) -> (violations: &[InputViolation])
        ensures
            violation_views(violations@) == self@,
    {
        self.violations.as_slice()
    }

    /// The summary that the errors display: how many violations were found.
    pub fn describe(&self) -> (text: String)
        ensures
            text@ == "input validation failed with "@ + decimal(self@.len()) + " violation(s)"@,
    {
        let mut text = String::from_str("input validation failed with ");
        let count = decimal_string(self.violations.len());
        text.append(count.as_str());
        text.append(" violation(s)");
        text
    }

    /// `Ok(())` when there is no violation, else the errors themselves.
    pub fn into_result(self) -> (result: Result<(), Self>)
        ensures
            match result {
                Ok(()) => self@.len() == 0,
                Err(errors) => self@.len() > 0 && errors@ == self@,
            },
    {
        if self.is_empty() {
            Ok(())
        } else {
            Err(self)
        }
    }
}


/// The field path of the element at `index` of the collection at `path`, as
/// `each(...)` reports it: `path[index]`.
pub fn item_path(path: &str, index: usize) -> (item: String)
    ensures
        item@ == path@ + "["@ + decimal(index as nat) + "]"@,
{
    let mut item = String::from_str(path);
    item.append("[");
    let digits = decimal_string(index);
    item.append(digits.as_str());
    item.append("]");
    item
}


/// The violations that `start` holds after `added` is pushed onto it, one
/// violation at a time, in order.
pub open spec fn after_pushes(start: Seq<InputViolationView>, added: Seq<InputViolationView>) -> Seq<
    InputViolationView,
>
    decreases added.len(),
{
    if added.len() == 0 {
        start
    } else {
        after_pushes(start, added.drop_last()).push(added.last())
    }
}

/// Pushing violations one by one keeps every one of them, once each and in
/// the order pushed, after those already there: from `new()` the errors hold
/// exactly the pushed violations, duplicates included.
pub proof fn pushes_keep_every_violation_in_order(start: Seq<InputViolationView>, added: Seq<InputViolationView>)
    ensures
        after_pushes(start, added) == start + added,
        after_pushes(Seq::empty(), added) == added,
    decreases added.len(),
{
    if added.len() > 0 {
        pushes_keep_every_violation_in_order(start, added.drop_last());
        pushes_keep_every_violation_in_order(Seq::empty(), added.drop_last());
        assert(start + added.drop_last().push(added.last()) == start + added);
        assert(added.drop_last().push(added.last()) == added);
    } else {
        assert(start + added == start);
    }
}

} // verus!
