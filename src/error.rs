use vstd::prelude::*;
use vstd::string::StringExecFns;

verus! {

/// The kind of an [`IndexerError`], for callers that branch on it.
#[derive(Clone, Copy, Debug, PartialEq, Eq, Structural)]
pub enum ErrorKind {
    RpcClientInit,
    PgConnectionPoolInit,
    PgPoolConnection,
    JsonRpcServer,
}

/// The step of server assembly at which a JSON-RPC server error arose.
#[derive(Clone, Copy, Debug, PartialEq, Eq, Structural)]
pub enum ServerStep {
    /// Building the server framework.
    Init,
    /// Registering a module.
    Register,
    /// Binding the listener and starting to serve.
    Start,
}

/// The closed set of failures of this layer. Each carries a description of
/// the underlying cause.
#[derive(Debug)]
pub enum IndexerError {
    /// The client of the upstream fullnode could not be built.
    RpcClientInitError(String),
    /// The connection pool could not be built (a configuration error).
    PgConnectionPoolInitError(String),
    /// No pooled connection could be had within the retry budget.
    PgPoolConnectionError(String),
    /// The JSON-RPC server could not be built, assembled or bound, at the
    /// step given.
    JsonRpcServerError(ServerStep, String),
}

impl IndexerError {
    pub open spec fn spec_kind(&self) -> ErrorKind {
        match self {
            IndexerError::RpcClientInitError(_) => ErrorKind::RpcClientInit,
            IndexerError::PgConnectionPoolInitError(_) => ErrorKind::PgConnectionPoolInit,
            IndexerError::PgPoolConnectionError(_) => ErrorKind::PgPoolConnection,
            IndexerError::JsonRpcServerError(_, _) => ErrorKind::JsonRpcServer,
        }
    }

    pub open spec fn spec_detail(&self) -> Seq<char> {
        match self {
            IndexerError::RpcClientInitError(d) => d@,
            IndexerError::PgConnectionPoolInitError(d) => d@,
            IndexerError::PgPoolConnectionError(d) => d@,
            IndexerError::JsonRpcServerError(_, d) => d@,
        }
    }

    /// The words that open the message of this error: what failed.
    pub open spec fn spec_prefix(&self) -> Seq<char> {
        match self {
            IndexerError::RpcClientInitError(_) => "Failed to initialize fullnode RPC client with error: "@,
            IndexerError::PgConnectionPoolInitError(_) => "Failed to initialize connection pool with error: "@,
            IndexerError::PgPoolConnectionError(_) => "Failed to get pool connection from PG connection pool with error: "@,
            IndexerError::JsonRpcServerError(ServerStep::Init, _) => "Failed to init JSON-RPC builder with error: "@,
            IndexerError::JsonRpcServerError(ServerStep::Register, _) => "Failed to register JSON-RPC module with error: "@,
            IndexerError::JsonRpcServerError(ServerStep::Start, _) => "Failed to start JSON-RPC server with error: "@,
        }
    }

    /// The kind of this error.
    pub fn kind(&self) -> (k: ErrorKind)
        ensures
            k == self.spec_kind(),
    {
        match self {
            IndexerError::RpcClientInitError(_) => ErrorKind::RpcClientInit,
            IndexerError::PgConnectionPoolInitError(_) => ErrorKind::PgConnectionPoolInit,
            IndexerError::PgPoolConnectionError(_) => ErrorKind::PgPoolConnection,
            IndexerError::JsonRpcServerError(_, _) => ErrorKind::JsonRpcServer,
        }
    }

    /// The step of server assembly that failed, for a JSON-RPC server error.
    pub fn server_step(&self) -> (s: Option<ServerStep>)
        ensures
            s == (match self {
                IndexerError::JsonRpcServerError(step, _) => Some(*step),
                _ => None::<ServerStep>,
            }),
    {
        match self {
            IndexerError::JsonRpcServerError(step, _) => Some(*step),
            _ => None,
        }
    }

    /// The description of the underlying cause.
    pub fn detail(&self) -> (d: &String)
        ensures
            d@ == self.spec_detail(),
    {
        match self {
            IndexerError::RpcClientInitError(d) => d,
            IndexerError::PgConnectionPoolInitError(d) => d,
            IndexerError::PgPoolConnectionError(d) => d,
            IndexerError::JsonRpcServerError(_, d) => d,
        }
    }

    /// The message of this error: what failed, then the cause.
    pub fn message(&self) -> (m: String)
        ensures
            m@ == self.spec_prefix() + self.spec_detail(),
    {
        let prefix: &str = match self {
            IndexerError::RpcClientInitError(_) => "Failed to initialize fullnode RPC client with error: ",
            IndexerError::PgConnectionPoolInitError(_) => "Failed to initialize connection pool with error: ",
            IndexerError::PgPoolConnectionError(_) => "Failed to get pool connection from PG connection pool with error: ",
            IndexerError::JsonRpcServerError(ServerStep::Init, _) => "Failed to init JSON-RPC builder with error: ",
            IndexerError::JsonRpcServerError(ServerStep::Register, _) => "Failed to register JSON-RPC module with error: ",
            IndexerError::JsonRpcServerError(ServerStep::Start, _) => "Failed to start JSON-RPC server with error: ",
        };
        let mut m = prefix.to_owned();
        m.append(self.detail().as_str());
        m
    }
}

} // verus!
