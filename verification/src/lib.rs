//! Positive Mahjong: card model, game rules, protocol types and the
//! client/server state machines, verified with Verus.

pub mod base_mode;
pub mod base_shared;
pub mod client_core;
pub mod client_desktop;
pub mod licenses;
pub mod pmj_client;
pub mod pmj_shared;
pub mod random;
pub mod server_gui;
pub mod shared;
pub mod table;
pub mod test_client;
pub mod text;
pub mod v1_server;
pub mod v1_simple_mode;
pub mod v1_simple_shared;
pub mod v2_better_mode;
pub mod v2_better_shared;
