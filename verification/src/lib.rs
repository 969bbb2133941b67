//! Control-plane data layer for virtual private clouds: identifier
//! allocation, the VPC resource store, and the mapping of network membership
//! onto sleds.

pub mod authz;
pub mod client;
pub mod config;
pub mod cookies;
pub mod datastore;
pub mod dev_db;
pub mod error;
pub mod external;
pub mod fixed_data;
pub mod http_router;
pub mod ip_net;
pub mod ip_pool;
pub mod laws;
pub mod model;
pub mod names;
pub mod network_resources;
pub mod ordered_map;
pub mod planning_input;
pub mod table;
pub mod transaction_retry;
pub mod vni;
