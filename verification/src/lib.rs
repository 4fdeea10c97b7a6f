//! Verified control core for toggling a blocked-service category on a remote
//! AdGuard Home appliance.
//!
//! The library holds the channel-agnostic logic: building the appliance's
//! login and blocking-list update requests (with their exact JSON bodies),
//! interpreting the login response (success is the presence of a session
//! cookie, nothing else), stepping a dispatch through login and update to an
//! outcome with the HTTP status and body owed to the caller, decoding
//! messaging payloads into commands, a bounded FIFO command queue, and the
//! reconnect policy of the messaging listener. Network transport, the HTTP
//! server and the messaging connection live outside the library and hand it
//! plain values.

pub mod client;
pub mod dispatch;
pub mod mqtt;
pub mod queue;
pub mod text;
