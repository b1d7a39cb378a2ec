//! A remote-object runtime core: identifiers and handles, the identifier
//! registry, the per-port service registry, the call-tag table that matches
//! responses to waiting callers, packet framing, the port table and the
//! decisions of the module control loop.

pub mod calls;
pub mod control;
pub mod frame;
pub mod id_registry;
pub mod ids;
pub mod port;
pub mod port_table;
pub mod registry;
pub mod service;
