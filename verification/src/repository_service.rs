//! What the repository service hands to the handlers of its calls.
use crate::auth_service;
use crate::settings::EnvironmentConfig;
use std::sync::Arc;
use vstd::prelude::*;

verus! {

/// The calls that the service answers.
#[derive(Debug, Clone, Copy, PartialEq, Eq, Structural)]
pub enum RepositoryCall {
    Create,
    Delete,
    Get,
    List,
    MetadataGet,
    MetadataSet,
}

impl RepositoryCall {
    /// The call is cut off after the timeout of the service. A list is streamed for as long as it
    /// takes.
    pub open spec fn is_timed(self) -> bool {
        self != RepositoryCall::List
    }

    /// The handler of the call asks the permissions service.
    pub open spec fn asks_permissions(self) -> bool {
        self != RepositoryCall::MetadataGet && self != RepositoryCall::MetadataSet
    }
}

/// What a handler is started with.
#[derive(Debug)]
pub struct HandlerSetup {
    /// After how many milliseconds the call is cut off.
    pub timeout_millis: Option<u64>,
    /// The permissions service to ask.
    pub auth_url: Option<String>,
}

/// The repository service: the stores and hooks that its handlers need. `I` and `M` are the stores
/// for immutable and mutable data, `H` dispatches hooks.
pub struct LoreRepositoryV1Service<I, M, H> {
    pub environment: EnvironmentConfig,
    pub immutable_store: Arc<I>,
    pub mutable_store: Arc<M>,
    pub hook_dispatcher: Arc<H>,
    pub rpc_timeout_millis: u64,
}

/// The permissions service that the environment names: the one of its endpoint's auth URL, unless
/// the provider behind it has none.
pub open spec fn permissions_url(environment: EnvironmentConfig) -> Option<Seq<char>> {
    match environment.endpoint {
        Some(endpoint) => match endpoint.auth_url {
            Some(url) => if auth_service::has_permissions_service(url@) {
                Some(url@)
            } else {
                None
            },
            None => None,
        },
        None => None,
    }
}

impl<I, M, H> LoreRepositoryV1Service<I, M, H> {
    /// A service over the given stores and hooks.
    pub fn new(
        environment: EnvironmentConfig,
        immutable_store: Arc<I>,
        mutable_store: Arc<M>,
        hook_dispatcher: Arc<H>,
        rpc_timeout_millis: u64,
    ) -> (res: Self)
        ensures
            res.environment == environment,
            res.immutable_store == immutable_store,
            res.mutable_store == mutable_store,
            res.hook_dispatcher == hook_dispatcher,
            res.rpc_timeout_millis == rpc_timeout_millis,
    {
        LoreRepositoryV1Service {
            environment,
            immutable_store,
            mutable_store,
            hook_dispatcher,
            rpc_timeout_millis,
        }
    }

    /// The permissions service to ask, if the environment names one.
    pub fn auth_url(&self) -> (res: Option<String>)
        ensures
            match permissions_url(self.environment) {
                Some(url) => res matches Some(given) && given@ == url,
                None => res is None,
            },
    {
        match &self.environment.endpoint {
            Some(endpoint) => auth_service::auth_service_url(endpoint.auth_url.clone()),
            None => auth_service::auth_service_url(None),
        }
    }

    /// What the handler of a call is started with.
    pub fn setup(&self, call: RepositoryCall) -> (res: HandlerSetup)
        ensures
            res.timeout_millis == if call.is_timed() {
                Some(self.rpc_timeout_millis)
            } else {
                None
            },
            match permissions_url(self.environment) {
                Some(url) if call.asks_permissions() => res.auth_url matches Some(given) && given@
                    == url,
                _ => res.auth_url is None,
            },
    {
        match call {
            RepositoryCall::Create | RepositoryCall::Delete | RepositoryCall::Get => HandlerSetup {
                timeout_millis: Some(self.rpc_timeout_millis),
                auth_url: self.auth_url(),
            },
            RepositoryCall::List => HandlerSetup {
                timeout_millis: None,
                auth_url: self.auth_url(),
            },
            RepositoryCall::MetadataGet | RepositoryCall::MetadataSet => HandlerSetup {
                timeout_millis: Some(self.rpc_timeout_millis),
                auth_url: None,
            },
        }
    }
}

} // verus!
