use vstd::prelude::*;
use crate::guard::RequestHeaders;

verus! {

/// What a context builder receives for one incoming HTTP request.
#[derive(Clone, Debug)]
pub struct ContextBuilderRequest {
    headers: RequestHeaders,
}

impl ContextBuilderRequest {
    pub fn new(headers: RequestHeaders) -> (request: Self)
        ensures
            request.spec_headers() == headers,
    {
        ContextBuilderRequest { headers }
    }

    /// The headers of the request.
    pub closed spec fn spec_headers(&self) -> RequestHeaders {
        self.headers
    }

    pub fn headers(&self) -> (headers: &RequestHeaders)
        ensures
            *headers == self.spec_headers(),
    {
        &self.headers
    }
}

impl PartialEq for ContextBuilderRequest {
    fn eq(&self, other: &Self) -> (equal: bool) {
        self.headers == other.headers
    }
}

impl Eq for ContextBuilderRequest {}

impl vstd::std_specs::cmp::PartialEqSpecImpl for ContextBuilderRequest {
    open spec fn obeys_eq_spec() -> bool {
        true
    }

    open spec fn eq_spec(&self, other: &ContextBuilderRequest) -> bool {
        self.spec_headers()@ == other.spec_headers()@
    }
}

/// The stack of request contexts entered on one thread: a context is pushed
/// while a request's future is polled and popped when the poll returns, and
/// the innermost one is the current context.
pub struct ContextStack<C> {
    contexts: Vec<C>,
}

impl<C> View for ContextStack<C> {
    type V = Seq<C>;

    closed spec fn view(&self) -> Seq<C> {
        self.contexts@
    }
}

impl<C> ContextStack<C> {
    pub fn new() -> (stack: Self)
        ensures
            stack@ == Seq::<C>::empty(),
    {
        ContextStack { contexts: Vec::new() }
    }

    /// Enters `context`, which becomes the current one.
    pub fn push(&mut self, context: C)
        ensures
            final(self)@ == old(self)@.push(context),
    {
        self.contexts.push(context);
    }

    /// Leaves the innermost context and returns it.
    pub fn pop(&mut self) -> (context: C)
        requires
            old(self)@.len() > 0,
        ensures
            context == old(self)@.last(),
            final(self)@ == old(self)@.drop_last(),
    {
        match self.contexts.pop() {
            Some(context) => context,
            None => vstd::pervasive::unreached(),
        }
    }

    /// The innermost context, if any.
    pub fn current(&self) -> (context: Option<&C>)
        ensures
            match context {
                Some(c) => self@.len() > 0 && *c == self@.last(),
                None => self@.len() == 0,
            },
    {
        let n = self.contexts.len();
        if n == 0 {
            None
        } else {
            Some(&self.contexts[n - 1])
        }
    }
}

/// Entering a context and leaving it again restores the stack, and while it is
/// entered it is the current context.
pub proof fn enter_then_leave_restores<C>(stack: Seq<C>, context: C)
    ensures
        stack.push(context).last() == context,
        stack.push(context).drop_last() == stack,
{
    assert(stack.push(context).drop_last() =~= stack);
}

} // verus!
