//! The state that every request handler shares.

use vstd::prelude::*;

verus! {

/// What the gateway holds for the life of the process: the two upstream
/// clients, the collaborator that renders a conversation into a prompt, and
/// the operator's switch for the health check.
///
/// The library never looks inside the clients or the renderer, so their types
/// are parameters. The value is built once at startup and only read after
/// that; handlers get their own clone of it.
#[derive(Clone)]
pub struct AppState<GrpcClient, HealthClient, HistoryBuilder> {
    pub grpc_client: GrpcClient,
    pub health_client: HealthClient,
    pub history_builder: HistoryBuilder,
    pub ignore_upstream_health: bool,
}

} // verus!
