use vstd::prelude::*;
use vstd::string::StringExecFns;

verus! {

/// The endpoint path a service answers on unless configured otherwise.
pub const DEFAULT_ENDPOINT: &'static str = "/rpc";

/// The service's endpoint path and the builder of each request's context.
#[derive(Clone)]
pub struct Config<B> {
    endpoint: String,
    context_builder: B,
}

impl<B> Config<B> {
    /// The endpoint path.
    pub closed spec fn spec_endpoint(&self) -> Seq<char> {
        self.endpoint@
    }

    /// The context builder.
    pub closed spec fn spec_context_builder(&self) -> B {
        self.context_builder
    }

    pub fn new(endpoint: String, context_builder: B) -> (config: Self)
        ensures
            config.spec_endpoint() == endpoint@,
            config.spec_context_builder() == context_builder,
    {
        Config { endpoint, context_builder }
    }

    /// A configuration on the default endpoint.
    pub fn with_default_endpoint(context_builder: B) -> (config: Self)
        ensures
            config.spec_endpoint() == DEFAULT_ENDPOINT@,
            config.spec_context_builder() == context_builder,
    {
        Config { endpoint: String::from_str(DEFAULT_ENDPOINT), context_builder }
    }

    pub fn endpoint(&self) -> (endpoint: &str)
        ensures
            endpoint@ == self.spec_endpoint(),
    {
        self.endpoint.as_str()
    }

    pub fn set_endpoint(&mut self, endpoint: String)
        ensures
            final(self).spec_endpoint() == endpoint@,
            final(self).spec_context_builder() == old(self).spec_context_builder(),
    {
        self.endpoint = endpoint;
    }

    pub fn set_context_builder(&mut self, context_builder: B)
        ensures
            final(self).spec_context_builder() == context_builder,
            final(self).spec_endpoint() == old(self).spec_endpoint(),
    {
        self.context_builder = context_builder;
    }

    pub fn context_builder(&self) -> (context_builder: &B)
        ensures
            *context_builder == self.spec_context_builder(),
    {
        &self.context_builder
    }
}

} // verus!
