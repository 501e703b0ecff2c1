//! Compute-node agent core: workload control plane, IPv6 provisioning
//! pipeline, and isolated-pod composition, with verified contracts.

pub mod api;
pub mod compose;
pub mod container;
pub mod dhcp6;
pub mod dispatcher;
pub mod errors;
pub mod icmp6;
pub mod input;
pub mod ids;
pub mod mock_data;
pub mod netaddr;
pub mod platform;
pub mod prefix;
pub mod runc;
pub mod textfmt;
pub mod tui_app;
pub mod vmm;
pub mod vsock;
