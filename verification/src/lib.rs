//! A notification gateway library: escaping of untrusted text for a
//! markup-sensitive transport, IP-based authorization of callers against
//! per-topic CIDR allow-lists, field-delimited ingestion of multipart
//! bodies, and fan-out delivery planning with partial-failure aggregation.

pub mod delivery;
pub mod escape;
pub mod handler;
pub mod multipart;
pub mod net;
pub mod registry;
pub mod strings;
