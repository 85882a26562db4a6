//! The RustOS syscall ABI: every call the runtime issues, and the register
//! values (`rax`, `rdi`, `rsi`, `rdx`) that carry it to the kernel.
use vstd::prelude::*;

use crate::{
    SYS_CHDIR, SYS_CLOSE, SYS_DUP2, SYS_EXEC, SYS_EXIT, SYS_GETCWD, SYS_GETDENTS64, SYS_NET_DHCP,
    SYS_NET_IFCONFIG, SYS_NET_IFCONFIG_SET, SYS_NET_PING, SYS_NET_ROUTES, SYS_NET_STAT, SYS_OPEN,
    SYS_PIPE, SYS_READ, SYS_WAITPID, SYS_WIFI_CONNECT, SYS_WIFI_DISCONNECT, SYS_WIFI_SCAN,
    SYS_WIFI_STATUS, SYS_WRITE,
};
use crate::wifi::WIFI_CONNECT_ARGS_SIZE;

verus! {

/// The registers of one `int 0x80` syscall: `nr` goes in `rax`, `a0` in `rdi`,
/// `a1` in `rsi` and `a2` in `rdx`.
#[derive(Clone, Copy, Debug, PartialEq, Eq, Structural)]
pub struct SyscallFrame {
    pub nr: u64,
    pub a0: u64,
    pub a1: u64,
    pub a2: u64,
}

/// A syscall as the runtime issues it, with its non-pointer arguments.
///
/// A call that hands the kernel a buffer records the buffer's length here;
/// the buffer's address is supplied when the call is encoded
/// (see [`Syscall::frame`]). The buffer of `Open`, `Exec` and `Chdir` is a
/// NUL-terminated path, of `Pipe` a pair of `i32`, and of `WifiConnect` the
/// packed `WifiConnectArgs` record.
#[derive(Clone, Copy, Debug, PartialEq, Eq, Structural)]
#[allow(inconsistent_fields)]
pub enum Syscall {
    Read { fd: u64, len: usize },
    Write { fd: u64, len: usize },
    Exit { code: i64 },
    Open { flags: u32 },
    Close { fd: i64 },
    Exec,
    Waitpid { pid: i64 },
    Pipe,
    Dup2 { oldfd: i64, newfd: i64 },
    Getcwd { len: usize },
    Chdir,
    Getdents64 { fd: i64, len: usize },
    WifiScan { len: usize },
    WifiConnect,
    WifiDisconnect,
    WifiStatus { len: usize },
    NetIfconfig { len: usize },
    NetIfconfigSet { len: usize },
    NetPing { dst_ip: u32, seq: u16 },
    NetStat { len: usize },
    NetDhcp,
    NetRoutes { len: usize },
}

/// The frame that holds the given register values.
pub open spec fn frame_of(nr: u64, a0: u64, a1: u64, a2: u64) -> SyscallFrame {
    SyscallFrame { nr, a0, a1, a2 }
}

impl Syscall {
    /// The registers that carry `self` to the kernel, where `addr` is the
    /// address of the buffer the call passes (ignored by calls that pass none).
    pub open spec fn spec_frame(self, addr: u64) -> SyscallFrame {
        match self {
            Syscall::Read { fd, len } => frame_of(SYS_READ, fd, addr, len as u64),
            Syscall::Write { fd, len } => frame_of(SYS_WRITE, fd, addr, len as u64),
            Syscall::Exit { code } => frame_of(SYS_EXIT, code as u64, 0, 0),
            Syscall::Open { flags } => frame_of(SYS_OPEN, addr, flags as u64, 0),
            Syscall::Close { fd } => frame_of(SYS_CLOSE, fd as u64, 0, 0),
            Syscall::Exec => frame_of(SYS_EXEC, addr, 0, 0),
            Syscall::Waitpid { pid } => frame_of(SYS_WAITPID, pid as u64, 0, 0),
            Syscall::Pipe => frame_of(SYS_PIPE, addr, 0, 0),
            Syscall::Dup2 { oldfd, newfd } => frame_of(SYS_DUP2, oldfd as u64, newfd as u64, 0),
            Syscall::Getcwd { len } => frame_of(SYS_GETCWD, addr, len as u64, 0),
            Syscall::Chdir => frame_of(SYS_CHDIR, addr, 0, 0),
            Syscall::Getdents64 { fd, len } => frame_of(SYS_GETDENTS64, fd as u64, addr, len as u64),
            Syscall::WifiScan { len } => frame_of(SYS_WIFI_SCAN, addr, len as u64, 0),
            Syscall::WifiConnect => frame_of(
                SYS_WIFI_CONNECT,
                addr,
                WIFI_CONNECT_ARGS_SIZE as u64,
                0,
            ),
            Syscall::WifiDisconnect => frame_of(SYS_WIFI_DISCONNECT, 0, 0, 0),
            Syscall::WifiStatus { len } => frame_of(SYS_WIFI_STATUS, addr, len as u64, 0),
            Syscall::NetIfconfig { len } => frame_of(SYS_NET_IFCONFIG, addr, len as u64, 0),
            Syscall::NetIfconfigSet { len } => frame_of(SYS_NET_IFCONFIG_SET, addr, len as u64, 0),
            Syscall::NetPing { dst_ip, seq } => frame_of(SYS_NET_PING, dst_ip as u64, seq as u64, 0),
            Syscall::NetStat { len } => frame_of(SYS_NET_STAT, addr, len as u64, 0),
            Syscall::NetDhcp => frame_of(SYS_NET_DHCP, 0, 0, 0),
            Syscall::NetRoutes { len } => frame_of(SYS_NET_ROUTES, addr, len as u64, 0),
        }
    }

    /// Whether the call hands the kernel a buffer, whose address then goes in
    /// one of the argument registers.
    pub open spec fn passes_buffer(self) -> bool {
        !(self is Exit || self is Close || self is Waitpid || self is Dup2
            || self is WifiDisconnect || self is NetPing || self is NetDhcp)
    }

    /// Encodes `self` into the registers of the RustOS syscall ABI.
    #[must_use]
    pub fn frame(&self, addr: u64) -> (f: SyscallFrame)
        ensures
            f == self.spec_frame(addr),
    {
        match *self {
            Syscall::Read { fd, len } => SyscallFrame { nr: SYS_READ, a0: fd, a1: addr, a2: len as u64 },
            Syscall::Write { fd, len } => SyscallFrame { nr: SYS_WRITE, a0: fd, a1: addr, a2: len as u64 },
            Syscall::Exit { code } => SyscallFrame { nr: SYS_EXIT, a0: code as u64, a1: 0, a2: 0 },
            Syscall::Open { flags } => SyscallFrame { nr: SYS_OPEN, a0: addr, a1: flags as u64, a2: 0 },
            Syscall::Close { fd } => SyscallFrame { nr: SYS_CLOSE, a0: fd as u64, a1: 0, a2: 0 },
            Syscall::Exec => SyscallFrame { nr: SYS_EXEC, a0: addr, a1: 0, a2: 0 },
            Syscall::Waitpid { pid } => SyscallFrame { nr: SYS_WAITPID, a0: pid as u64, a1: 0, a2: 0 },
            Syscall::Pipe => SyscallFrame { nr: SYS_PIPE, a0: addr, a1: 0, a2: 0 },
            Syscall::Dup2 { oldfd, newfd } => SyscallFrame {
                nr: SYS_DUP2,
                a0: oldfd as u64,
                a1: newfd as u64,
                a2: 0,
            },
            Syscall::Getcwd { len } => SyscallFrame { nr: SYS_GETCWD, a0: addr, a1: len as u64, a2: 0 },
            Syscall::Chdir => SyscallFrame { nr: SYS_CHDIR, a0: addr, a1: 0, a2: 0 },
            Syscall::Getdents64 { fd, len } => SyscallFrame {
                nr: SYS_GETDENTS64,
                a0: fd as u64,
                a1: addr,
                a2: len as u64,
            },
            Syscall::WifiScan { len } => SyscallFrame { nr: SYS_WIFI_SCAN, a0: addr, a1: len as u64, a2: 0 },
            Syscall::WifiConnect => SyscallFrame {
                nr: SYS_WIFI_CONNECT,
                a0: addr,
                a1: WIFI_CONNECT_ARGS_SIZE as u64,
                a2: 0,
            },
            Syscall::WifiDisconnect => SyscallFrame { nr: SYS_WIFI_DISCONNECT, a0: 0, a1: 0, a2: 0 },
            Syscall::WifiStatus { len } => SyscallFrame {
                nr: SYS_WIFI_STATUS,
                a0: addr,
                a1: len as u64,
                a2: 0,
            },
            Syscall::NetIfconfig { len } => SyscallFrame {
                nr: SYS_NET_IFCONFIG,
                a0: addr,
                a1: len as u64,
                a2: 0,
            },
            Syscall::NetIfconfigSet { len } => SyscallFrame {
                nr: SYS_NET_IFCONFIG_SET,
                a0: addr,
                a1: len as u64,
                a2: 0,
            },
            Syscall::NetPing { dst_ip, seq } => SyscallFrame {
                nr: SYS_NET_PING,
                a0: dst_ip as u64,
                a1: seq as u64,
                a2: 0,
            },
            Syscall::NetStat { len } => SyscallFrame { nr: SYS_NET_STAT, a0: addr, a1: len as u64, a2: 0 },
            Syscall::NetDhcp => SyscallFrame { nr: SYS_NET_DHCP, a0: 0, a1: 0, a2: 0 },
            Syscall::NetRoutes { len } => SyscallFrame { nr: SYS_NET_ROUTES, a0: addr, a1: len as u64, a2: 0 },
        }
    }
}

/// The call that closes `fd`: none for a negative descriptor, which the
/// runtime silently ignores.
#[must_use]
pub fn close(fd: i64) -> (r: Option<Syscall>)
    ensures
        r == (if fd >= 0 { Some(Syscall::Close { fd }) } else { None::<Syscall> }),
{
    if fd >= 0 {
        Some(Syscall::Close { fd })
    } else {
        None
    }
}

/// A call that passes no buffer is encoded the same whatever address is given.
pub proof fn lemma_frame_ignores_address_without_buffer(call: Syscall, addr1: u64, addr2: u64)
    requires
        !call.passes_buffer(),
    ensures
        call.spec_frame(addr1) == call.spec_frame(addr2),
{
}

/// The syscall number alone tells which kind of call was issued: two calls
/// encoded with the same number are of the same kind.
pub proof fn lemma_number_identifies_call(c1: Syscall, c2: Syscall, addr1: u64, addr2: u64)
    requires
        c1.spec_frame(addr1).nr == c2.spec_frame(addr2).nr,
    ensures
        same_kind(c1, c2),
{
}

/// Whether two calls are of the same kind (the same variant).
pub open spec fn same_kind(c1: Syscall, c2: Syscall) -> bool {
    match (c1, c2) {
        (Syscall::Read { .. }, Syscall::Read { .. }) => true,
        (Syscall::Write { .. }, Syscall::Write { .. }) => true,
        (Syscall::Exit { .. }, Syscall::Exit { .. }) => true,
        (Syscall::Open { .. }, Syscall::Open { .. }) => true,
        (Syscall::Close { .. }, Syscall::Close { .. }) => true,
        (Syscall::Exec, Syscall::Exec) => true,
        (Syscall::Waitpid { .. }, Syscall::Waitpid { .. }) => true,
        (Syscall::Pipe, Syscall::Pipe) => true,
        (Syscall::Dup2 { .. }, Syscall::Dup2 { .. }) => true,
        (Syscall::Getcwd { .. }, Syscall::Getcwd { .. }) => true,
        (Syscall::Chdir, Syscall::Chdir) => true,
        (Syscall::Getdents64 { .. }, Syscall::Getdents64 { .. }) => true,
        (Syscall::WifiScan { .. }, Syscall::WifiScan { .. }) => true,
        (Syscall::WifiConnect, Syscall::WifiConnect) => true,
        (Syscall::WifiDisconnect, Syscall::WifiDisconnect) => true,
        (Syscall::WifiStatus { .. }, Syscall::WifiStatus { .. }) => true,
        (Syscall::NetIfconfig { .. }, Syscall::NetIfconfig { .. }) => true,
        (Syscall::NetIfconfigSet { .. }, Syscall::NetIfconfigSet { .. }) => true,
        (Syscall::NetPing { .. }, Syscall::NetPing { .. }) => true,
        (Syscall::NetStat { .. }, Syscall::NetStat { .. }) => true,
        (Syscall::NetDhcp, Syscall::NetDhcp) => true,
        (Syscall::NetRoutes { .. }, Syscall::NetRoutes { .. }) => true,
        _ => false,
    }
}

/// A read or a write goes to the caller's descriptor, with the caller's
/// buffer address and length: `rdi` = `fd`, `rsi` = `addr`, `rdx` = `len`.
pub proof fn lemma_read_write_carry_fd_buffer_and_length(fd: u64, len: usize, addr: u64)
    ensures
        (Syscall::Read { fd, len }).spec_frame(addr).nr == SYS_READ,
        (Syscall::Read { fd, len }).spec_frame(addr).a0 == fd,
        (Syscall::Read { fd, len }).spec_frame(addr).a1 == addr,
        (Syscall::Read { fd, len }).spec_frame(addr).a2 == len,
        (Syscall::Write { fd, len }).spec_frame(addr).nr == SYS_WRITE,
        (Syscall::Write { fd, len }).spec_frame(addr).a0 == fd,
        (Syscall::Write { fd, len }).spec_frame(addr).a1 == addr,
        (Syscall::Write { fd, len }).spec_frame(addr).a2 == len,
{
}

/// The signed arguments of a call reach the kernel as their two's-complement
/// bit patterns: reading the register back as `i64` gives the caller's value.
pub proof fn lemma_signed_arguments_round_trip(
    code: i64,
    fd: i64,
    pid: i64,
    oldfd: i64,
    newfd: i64,
    len: usize,
    addr: u64,
)
    ensures
        (Syscall::Exit { code }).spec_frame(addr).nr == SYS_EXIT,
        (Syscall::Exit { code }).spec_frame(addr).a0 as i64 == code,
        (Syscall::Exit { code }).spec_frame(addr).a1 == 0,
        (Syscall::Exit { code }).spec_frame(addr).a2 == 0,
        (Syscall::Close { fd }).spec_frame(addr).nr == SYS_CLOSE,
        (Syscall::Close { fd }).spec_frame(addr).a0 as i64 == fd,
        (Syscall::Close { fd }).spec_frame(addr).a1 == 0,
        (Syscall::Close { fd }).spec_frame(addr).a2 == 0,
        (Syscall::Waitpid { pid }).spec_frame(addr).nr == SYS_WAITPID,
        (Syscall::Waitpid { pid }).spec_frame(addr).a0 as i64 == pid,
        (Syscall::Waitpid { pid }).spec_frame(addr).a1 == 0,
        (Syscall::Waitpid { pid }).spec_frame(addr).a2 == 0,
        (Syscall::Dup2 { oldfd, newfd }).spec_frame(addr).nr == SYS_DUP2,
        (Syscall::Dup2 { oldfd, newfd }).spec_frame(addr).a0 as i64 == oldfd,
        (Syscall::Dup2 { oldfd, newfd }).spec_frame(addr).a1 as i64 == newfd,
        (Syscall::Dup2 { oldfd, newfd }).spec_frame(addr).a2 == 0,
        (Syscall::Getdents64 { fd, len }).spec_frame(addr).nr == SYS_GETDENTS64,
        (Syscall::Getdents64 { fd, len }).spec_frame(addr).a0 as i64 == fd,
        (Syscall::Getdents64 { fd, len }).spec_frame(addr).a1 == addr,
        (Syscall::Getdents64 { fd, len }).spec_frame(addr).a2 == len,
        fd >= 0 ==> (Syscall::Close { fd }).spec_frame(addr).a0 == fd,
        oldfd >= 0 ==> (Syscall::Dup2 { oldfd, newfd }).spec_frame(addr).a0 == oldfd,
        newfd >= 0 ==> (Syscall::Dup2 { oldfd, newfd }).spec_frame(addr).a1 == newfd,
{
    assert(((code as u64) as i64) == code) by (bit_vector);
    assert(((fd as u64) as i64) == fd) by (bit_vector);
    assert(((pid as u64) as i64) == pid) by (bit_vector);
    assert(((oldfd as u64) as i64) == oldfd) by (bit_vector);
    assert(((newfd as u64) as i64) == newfd) by (bit_vector);
    assert(fd >= 0 ==> (fd as u64) == fd) by (bit_vector);
    assert(oldfd >= 0 ==> (oldfd as u64) == oldfd) by (bit_vector);
    assert(newfd >= 0 ==> (newfd as u64) == newfd) by (bit_vector);
}

/// Calls that pass a path or a record hand the kernel its address in `rdi`;
/// `open` passes the caller's flags unchanged in `rsi`.
pub proof fn lemma_path_calls_carry_address(flags: u32, addr: u64)
    ensures
        (Syscall::Open { flags }).spec_frame(addr).nr == SYS_OPEN,
        (Syscall::Open { flags }).spec_frame(addr).a0 == addr,
        (Syscall::Open { flags }).spec_frame(addr).a1 == flags,
        (Syscall::Open { flags }).spec_frame(addr).a2 == 0,
        (Syscall::Exec).spec_frame(addr) == (SyscallFrame { nr: SYS_EXEC, a0: addr, a1: 0, a2: 0 }),
        (Syscall::Chdir).spec_frame(addr) == (SyscallFrame { nr: SYS_CHDIR, a0: addr, a1: 0, a2: 0 }),
        (Syscall::Pipe).spec_frame(addr) == (SyscallFrame { nr: SYS_PIPE, a0: addr, a1: 0, a2: 0 }),
        (Syscall::WifiConnect).spec_frame(addr) == (SyscallFrame {
            nr: SYS_WIFI_CONNECT,
            a0: addr,
            a1: 99,
            a2: 0,
        }),
{
}

/// Calls that fill or read a caller's buffer pass its address in `rdi` and
/// its length in `rsi`.
pub proof fn lemma_buffer_calls_carry_address_and_length(len: usize, addr: u64)
    ensures
        (Syscall::Getcwd { len }).spec_frame(addr).nr == SYS_GETCWD,
        (Syscall::WifiScan { len }).spec_frame(addr).nr == SYS_WIFI_SCAN,
        (Syscall::WifiStatus { len }).spec_frame(addr).nr == SYS_WIFI_STATUS,
        (Syscall::NetIfconfig { len }).spec_frame(addr).nr == SYS_NET_IFCONFIG,
        (Syscall::NetIfconfigSet { len }).spec_frame(addr).nr == SYS_NET_IFCONFIG_SET,
        (Syscall::NetStat { len }).spec_frame(addr).nr == SYS_NET_STAT,
        (Syscall::NetRoutes { len }).spec_frame(addr).nr == SYS_NET_ROUTES,
        forall|c: Syscall|
            #![trigger c.spec_frame(addr)]
            c == (Syscall::Getcwd { len }) || c == (Syscall::WifiScan { len }) || c == (
            Syscall::WifiStatus { len }) || c == (Syscall::NetIfconfig { len }) || c == (
            Syscall::NetIfconfigSet { len }) || c == (Syscall::NetStat { len }) || c == (
            Syscall::NetRoutes { len }) ==> c.spec_frame(addr).a0 == addr && c.spec_frame(addr).a1
                == len && c.spec_frame(addr).a2 == 0,
{
}

/// `ping` passes the destination address and sequence number unchanged;
/// disconnect and DHCP pass no arguments.
pub proof fn lemma_argument_free_and_ping_calls(dst_ip: u32, seq: u16, addr: u64)
    ensures
        (Syscall::NetPing { dst_ip, seq }).spec_frame(addr) == (SyscallFrame {
            nr: SYS_NET_PING,
            a0: dst_ip as u64,
            a1: seq as u64,
            a2: 0,
        }),
        (Syscall::NetPing { dst_ip, seq }).spec_frame(addr).a0 == dst_ip,
        (Syscall::NetPing { dst_ip, seq }).spec_frame(addr).a1 == seq,
        (Syscall::WifiDisconnect).spec_frame(addr) == (SyscallFrame {
            nr: SYS_WIFI_DISCONNECT,
            a0: 0,
            a1: 0,
            a2: 0,
        }),
        (Syscall::NetDhcp).spec_frame(addr) == (SyscallFrame { nr: SYS_NET_DHCP, a0: 0, a1: 0, a2: 0 }),
{
}

} // verus!
