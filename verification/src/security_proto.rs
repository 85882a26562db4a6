//! Security protocol values for `WifiConnectArgs::security`.
use vstd::prelude::*;

verus! {

/// Open network (no security).
pub const OPEN: u8 = 0;
/// WEP (RC4-based; legacy).
pub const WEP: u8 = 1;
/// WPA-Personal (TKIP).
pub const WPA: u8 = 2;
/// WPA2-Personal (CCMP/AES).
pub const WPA2: u8 = 3;
/// WPA3-Personal (SAE/Dragonfly).
pub const WPA3: u8 = 4;

} // verus!
