//! A registry of game servers: the records it keeps, the rules that decide
//! what a request does to them, and the JSON text it answers with.
//!
//! The library performs no I/O. A request is turned into a sequence of
//! database operations by `handlers`, which is driven by the caller.

pub mod handlers;
pub mod ids;
pub mod json;
pub mod models;
pub mod regions;
pub mod render;
pub mod search;
pub mod then_impl;

pub use handlers::{
    add_region, add_server, advance, delete_server, get_all_regions, get_all_servers,
    search_servers, update_server, Outcome, Pending, Reply, Status, Step,
};
pub use ids::parse_id;
pub use json::JsonValue;
pub use models::{
    GameServer, MissingField, NewGameServer, NewRegion, PatchError, Region, UpdatedGameServer,
};
pub use regions::{regions_allowed, AllowedRegion};
pub use render::{
    region_added_message, render_region, render_regions, render_server, render_servers,
    server_added_message, unknown_regions_message, update_done_message,
};
pub use search::SearchFilter;
pub use then_impl::Then;
