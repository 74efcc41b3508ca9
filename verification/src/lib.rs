//! Verified core of a sched_ext scheduler manager: the scheduler catalog,
//! hardware-based recommendations, the helper wire framing and protocol
//! decisions, and the selection logic behind the main window.
pub mod text;
pub mod ipc;
pub mod frame;
pub mod catalog;
pub mod recommend;
pub mod system_info;
pub mod protocol;
pub mod helper_client;
pub mod selection;
pub mod loader;
