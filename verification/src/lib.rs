//! Decision logic of the Tango desktop bridge: what the tray application does
//! on each event, how the WebSocket/ADB byte pumps react, how proxied URLs are
//! formed, and how a cloudflared installation is answered.

pub mod config;
pub mod pump;
pub mod tray;
pub mod proxy;
pub mod cloudflared;
