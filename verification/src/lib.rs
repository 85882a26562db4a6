//! Runtime support for RustOS userspace programs: the syscall ABI of the
//! RustOS kernel, the packed argument records it reads, and the buffered
//! console output that programs print through.
//!
//! The library decides what is sent to the kernel: which syscall number and
//! which register values (`abi`), which bytes go out on which file descriptor
//! and when (`bufwriter`, `console`). Issuing the `int 0x80` instruction is
//! left to the caller.
use vstd::prelude::*;

pub mod abi;
pub mod bufwriter;
pub mod console;
pub mod security_proto;
pub mod wifi;

verus! {

/// Read from a file descriptor.
pub const SYS_READ: u64 = 0;
/// Write to a file descriptor.
pub const SYS_WRITE: u64 = 1;
/// Open a path and return a file descriptor.
pub const SYS_OPEN: u64 = 2;
/// Close a file descriptor.
pub const SYS_CLOSE: u64 = 3;
/// Create a pipe: fills `pipefd[0]` (read end) and `pipefd[1]` (write end).
pub const SYS_PIPE: u64 = 22;
/// Duplicate a file descriptor to a specific number (`dup2`).
pub const SYS_DUP2: u64 = 33;
/// Execute an ELF binary (NUL-terminated path pointer in `rdi`).
pub const SYS_EXEC: u64 = 59;
/// Terminate the current process.
pub const SYS_EXIT: u64 = 60;
/// Wait for a child process to finish.
pub const SYS_WAITPID: u64 = 61;
/// Get the current working directory.
pub const SYS_GETCWD: u64 = 79;
/// Change the current working directory.
pub const SYS_CHDIR: u64 = 80;
/// Read directory entries (Linux `getdents64` number for compatibility).
pub const SYS_GETDENTS64: u64 = 217;

/// Scan for visible 802.11 networks.
///
/// `rdi` = output buffer pointer, `rsi` = buffer length.
/// Returns bytes written (packed network records) or negative error.
pub const SYS_WIFI_SCAN: u64 = 300;
/// Connect to an 802.11 network.
///
/// `rdi` = pointer to the packed `WifiConnectArgs`, `rsi` = its size.
/// Returns 0 on success or a negative error code.
pub const SYS_WIFI_CONNECT: u64 = 301;
/// Disconnect from the current 802.11 network. No arguments.
pub const SYS_WIFI_DISCONNECT: u64 = 302;
/// Query the current WiFi / IP status.
///
/// `rdi` = output buffer pointer, `rsi` = buffer length.
pub const SYS_WIFI_STATUS: u64 = 303;
/// Query per-interface IP configuration.
///
/// `rdi` = output buffer pointer, `rsi` = buffer length.
pub const SYS_NET_IFCONFIG: u64 = 304;
/// Set the IP configuration of an interface.
///
/// `rdi` = pointer to the serialised arguments, `rsi` = their size.
pub const SYS_NET_IFCONFIG_SET: u64 = 305;
/// Send a single ICMP echo request and wait for a reply.
///
/// `rdi` = destination IPv4 address (u32 big-endian), `rsi` = sequence number.
/// Returns round-trip time in microseconds or a negative error code.
pub const SYS_NET_PING: u64 = 306;
/// Query active TCP connections and UDP sockets.
///
/// `rdi` = output buffer pointer, `rsi` = buffer length.
pub const SYS_NET_STAT: u64 = 307;
/// Request a DHCP lease on the default interface. No arguments.
pub const SYS_NET_DHCP: u64 = 308;
/// Query the routing table.
///
/// `rdi` = output buffer pointer, `rsi` = buffer length.
pub const SYS_NET_ROUTES: u64 = 310;

/// Open for reading only.
pub const O_RDONLY: u32 = 0;
/// Open for writing only.
pub const O_WRONLY: u32 = 1;
/// Open for reading and writing.
pub const O_RDWR: u32 = 2;

} // verus!

pub use abi::{Syscall, SyscallFrame};
pub use bufwriter::{BufWriter, FdWrite};
pub use console::{print, read_byte};
pub use wifi::WifiConnectArgs;
