//! Application state.

use vstd::prelude::*;
use crate::feat::foo::FooApplicationBuilderExt;
use crate::feat::foo::FooHandle;
use crate::feat::foo::FooImpl;
use crate::feat::web::WebServer;
use crate::feat::web::ServerConfig;
use crate::feat::web::SocketAddress;

verus! {

/// The application state.
///
/// Features expose a single structure to include in the state. The state is
/// accessed by each web endpoint; the feature slot is read-only after
/// construction, and the webserver state is the one part the server
/// lifecycle mutates.
#[derive(Debug)]
pub struct Application {
    /// The installed implementation of the `foo` feature.
    pub foo: FooHandle,
    /// The server's runtime state: bind configuration and, when serving in
    /// the background, the handle of the detached task.
    pub webserver: WebServer,
}

impl Application {
    /// Create a new application builder.
    pub fn builder() -> (r: ApplicationBuilder)
        ensures
            r.feature is None,
            r.server_config.addr == SocketAddress::spec_loopback_ephemeral(),
    {
        ApplicationBuilder::default()
    }
}

/// An error that may occur while building the application.
///
/// Reserved for feature-initialization failures; no constructor in the
/// current scope can fail, so [`ApplicationBuilder::build`] never returns
/// it.
#[derive(Debug, Clone, Copy, PartialEq, Eq, Structural)]
pub struct ApplicationBuilderError;

impl ApplicationBuilderError {
    /// A plain-text description of the error.
    pub fn message(&self) -> (s: String)
        ensures
            s@ == "application builder error"@,
    {
        "application builder error".to_owned()
    }
}

/// The application builder: accumulates optional overrides and produces an
/// [`Application`], substituting defaults for anything unset.
#[derive(Debug)]
pub struct ApplicationBuilder {
    /// The feature override, if one was requested.
    pub feature: Option<FooHandle>,
    /// The accumulated server configuration.
    pub server_config: ServerConfig,
}

impl Default for ApplicationBuilder {
    /// A builder with no feature override and the default server
    /// configuration.
    fn default() -> (r: Self)
        ensures
            r.feature is None,
            r.server_config.addr == SocketAddress::spec_loopback_ephemeral(),
    {
        ApplicationBuilder { feature: None, server_config: ServerConfig::default() }
    }
}

/// The application a builder produces: the feature override if one was
/// requested, the production implementation otherwise, and a fresh server
/// runtime state initialized from the accumulated configuration, with no
/// background task yet.
pub open spec fn spec_build(b: ApplicationBuilder) -> Application {
    Application {
        foo: match b.feature {
            Some(h) => h,
            None => FooHandle::Production(FooImpl),
        },
        webserver: WebServer { config: b.server_config, task: None },
    }
}

impl ApplicationBuilder {
    /// Build the application.
    ///
    /// Defaults apply only where nothing was explicitly requested: if no
    /// feature override was set, the production implementation is
    /// installed. Construction cannot fail in the current scope; the error
    /// kind is reserved for future feature initialization failures.
    pub fn build(self) -> (r: Result<Application, ApplicationBuilderError>)
        ensures
            r == Ok::<Application, ApplicationBuilderError>(spec_build(self)),
    {
        let feature = match self.feature {
            Some(h) => h,
            None => FooHandle::Production(FooImpl),
        };
        Ok(Application {
            foo: feature,
            webserver: WebServer { config: self.server_config, task: None },
        })
    }
}

/// Law: builder override ordering. Calling the feature-override setter
/// twice with different implementations results in only the last one being
/// installed after `build()`; the server configuration is untouched either
/// way.
pub proof fn lemma_feature_override_last_wins(
    b: ApplicationBuilder,
    h1: FooHandle,
    h2: FooHandle,
)
    ensures
        spec_build(b.spec_with_foo(h1).spec_with_foo(h2)).foo == h2,
        spec_build(b.spec_with_foo(h1).spec_with_foo(h2)).webserver.config == b.server_config,
{
}

} // verus!
