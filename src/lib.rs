//! Orchestration of a Kademlia provider lookup: an optional routing-table
//! prepopulation phase of `FIND_NODE` queries followed by one `GET_PROVIDERS`
//! query, driven by events from the DHT and from the transport.
pub mod key;
pub mod laws;
pub mod orchestrator;
pub mod peers;
