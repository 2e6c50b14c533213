//! Verified core of a server-discovery service: request authorization,
//! listing queries, the bump cooldown, the write flows of the mutating
//! endpoints and the periodic refresh of listed servers.

mod auth;
mod clock;
mod cooldown;
mod decimal;
mod flow;
mod listing;
mod model;
mod refresh;
mod response;

pub use auth::{api_key_auth, authorize_request, header_value_text};
pub use clock::{UtcInstant, DB_TIME_FORMAT};
pub use cooldown::{minutes_left, slow_down_message, BUMP_COOLDOWN_MS, MS_PER_MINUTE};
pub use decimal::push_decimal;
pub use flow::{
    bump_after_read, bump_server, bump_verdict, patch_server, sync_server, ServerPatch,
    ServerUpsert, WriteAction, WriteEvent, WriteFlow, WritePhase, WriteRequest,
};
pub use listing::{collect_servers, get_server_by_id, get_servers, ListingQuery};
pub use model::{PatchServerInput, Server, SyncServerInput};
pub use refresh::{
    invite_code, is_success_status, refresh_targets, refresh_update, RefreshTargets,
    RefreshUpdate, StoatInvite, StoatServer,
};
pub use response::{ApiError, Status};
