//! The web server feature of the application.

pub mod feature_router;
pub mod healthcheck;

use vstd::prelude::*;
use crate::app::ApplicationBuilder;

pub use feature_router::FeatureRouter;

verus! {

/// A socket address: an IPv4 host given by its four octets, and a port.
///
/// Port `0` asks the operating system for an ephemeral port; after a
/// successful bind the resolved port is always nonzero.
#[derive(Clone, Copy, Debug, PartialEq, Eq, Structural)]
pub struct SocketAddress {
    pub ip0: u8,
    pub ip1: u8,
    pub ip2: u8,
    pub ip3: u8,
    pub port: u16,
}

impl SocketAddress {
    /// Build an address from its four host octets and a port.
    pub fn new(ip0: u8, ip1: u8, ip2: u8, ip3: u8, port: u16) -> (r: Self)
        ensures
            r == (SocketAddress { ip0, ip1, ip2, ip3, port }),
    {
        SocketAddress { ip0, ip1, ip2, ip3, port }
    }

    /// The loopback address `127.0.0.1` with port `0`.
    pub open spec fn spec_loopback_ephemeral() -> Self {
        SocketAddress { ip0: 127, ip1: 0, ip2: 0, ip3: 1, port: 0 }
    }
}

/// Configuration of the webserver.
#[derive(Clone, Copy, Debug, PartialEq, Eq, Structural)]
pub struct ServerConfig {
    /// Address of the server.
    pub addr: SocketAddress,
}

impl Default for ServerConfig {
    /// The default configuration binds the loopback interface on an
    /// OS-assigned ephemeral port.
    fn default() -> (r: Self)
        ensures
            r.addr == SocketAddress::spec_loopback_ephemeral(),
    {
        ServerConfig { addr: SocketAddress::new(127, 0, 0, 1, 0) }
    }
}

impl ServerConfig {
    /// Change the address for the server.
    pub fn with_socket_addr(self, addr: SocketAddress) -> (r: Self)
        ensures
            r.addr == addr,
    {
        ServerConfig { addr }
    }
}

/// Handle of a detached background task.
///
/// Relies on `tokio::task::JoinHandle`: the runtime's handle to a spawned
/// task. The crate only stores such a handle; it never joins or aborts it,
/// so the type is carried as an opaque value.
#[verifier::external_type_specification]
#[verifier::external_body]
#[verifier::reject_recursive_types(T)]
pub struct ExJoinHandle<T>(tokio::task::JoinHandle<T>);

/// Relies on `tokio::task::JoinError`: the error a join reports. Declared
/// only because `tokio::task::JoinHandle`'s own interface mentions it.
#[verifier::external_type_specification]
#[verifier::external_body]
pub struct ExJoinError(tokio::task::JoinError);

/// The webserver component of the application.
///
/// The address field reflects the actually-bound address only after a
/// successful bind recorded it with [`WebServer::record_bound`]; before
/// that it holds the requested configuration.
#[derive(Debug)]
pub struct WebServer {
    /// Configuration of the server: requested before a bind, resolved after.
    pub config: ServerConfig,
    /// When running in the background, this will be `Some`.
    pub task: Option<tokio::task::JoinHandle<()>>,
}

impl Default for WebServer {
    /// A webserver with the default configuration and no background task.
    fn default() -> (r: Self)
        ensures
            r.config.addr == SocketAddress::spec_loopback_ephemeral(),
            r.task is None,
    {
        WebServer { config: ServerConfig::default(), task: None }
    }
}

impl WebServer {
    /// The server after a successful bind to `resolved` was recorded:
    /// the resolved address overwrites the requested one, all else is kept.
    pub open spec fn spec_with_bound_addr(self, resolved: SocketAddress) -> WebServer {
        WebServer { config: ServerConfig { addr: resolved }, ..self }
    }

    /// Change the server config.
    pub fn with_server_config(self, config: ServerConfig) -> (r: Self)
        ensures
            r.config == config,
            r.task == self.task,
    {
        WebServer { config, ..self }
    }

    /// Record the address a listener was actually bound to.
    ///
    /// A successful bind never reports port `0`: when port `0` was
    /// requested, the operating system assigns an ephemeral, nonzero port
    /// and reports that one back. The caller performs the bind and hands
    /// the reported address in.
    pub fn record_bound(&mut self, resolved: SocketAddress)
        requires
            resolved.port != 0,
        ensures
            *final(self) == old(self).spec_with_bound_addr(resolved),
    {
        self.config.addr = resolved;
    }

    /// Store the handle of the detached task that drives the serving loop.
    pub fn attach_task(&mut self, handle: tokio::task::JoinHandle<()>)
        ensures
            final(self).task == Some(handle),
            final(self).config == old(self).config,
    {
        self.task = Some(handle);
    }
}

/// Law: recording a successful bind makes the shared state hold exactly the
/// resolved address, whose port is nonzero (the operating system never
/// reports port `0` back), and touches nothing else. In particular, for a
/// configuration that requested port `0`, the recorded port after the
/// detached-start transition is the nonzero, OS-assigned one.
pub proof fn lemma_recorded_address_is_bound_address(ws: WebServer, resolved: SocketAddress)
    requires
        resolved.port != 0,
    ensures
        ws.spec_with_bound_addr(resolved).config.addr == resolved,
        ws.spec_with_bound_addr(resolved).config.addr.port != 0,
        ws.spec_with_bound_addr(resolved).task == ws.task,
{
}

/// Extension trait to allow customizing the server config while building
/// the application.
pub trait WebApplicationBuilderExt: Sized {
    /// The builder after the server configuration was replaced wholesale
    /// with `config`.
    spec fn spec_with_server_config(self, config: ServerConfig) -> Self;

    /// Update the server configuration in the application builder.
    fn with_server_config(self, config: ServerConfig) -> (r: Self)
        ensures
            r == self.spec_with_server_config(config),
    ;
}

impl WebApplicationBuilderExt for ApplicationBuilder {
    open spec fn spec_with_server_config(self, config: ServerConfig) -> Self {
        ApplicationBuilder { server_config: config, ..self }
    }

    fn with_server_config(self, config: ServerConfig) -> Self {
        ApplicationBuilder { server_config: config, ..self }
    }
}

/// An error that may occur with the web feature.
#[derive(Debug, Clone, Copy, PartialEq, Eq, Structural)]
pub struct WebError;

impl WebError {
    /// A plain-text description of the error.
    pub fn message(&self) -> (s: String)
        ensures
            s@ == "a web server error occurred"@,
    {
        "a web server error occurred".to_owned()
    }
}

} // verus!
