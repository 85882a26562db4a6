use rustos_rt::abi::{close, Syscall, SyscallFrame};
use rustos_rt::bufwriter::{BufWriter, FdWrite};
use rustos_rt::console::{print, read_byte, read_byte_request, STDIN, STDOUT};
use rustos_rt::security_proto;
use rustos_rt::wifi::{WifiConnectArgs, WIFI_CONNECT_ARGS_SIZE};
use rustos_rt::{
    O_RDONLY, O_RDWR, O_WRONLY, SYS_CHDIR, SYS_CLOSE, SYS_DUP2, SYS_EXEC, SYS_EXIT, SYS_GETCWD,
    SYS_GETDENTS64, SYS_NET_DHCP, SYS_NET_IFCONFIG, SYS_NET_IFCONFIG_SET, SYS_NET_PING,
    SYS_NET_ROUTES, SYS_NET_STAT, SYS_OPEN, SYS_PIPE, SYS_READ, SYS_WAITPID, SYS_WIFI_CONNECT,
    SYS_WIFI_DISCONNECT, SYS_WIFI_SCAN, SYS_WIFI_STATUS, SYS_WRITE,
};

fn frame(nr: u64, a0: u64, a1: u64, a2: u64) -> SyscallFrame {
    SyscallFrame { nr, a0, a1, a2 }
}

fn write(fd: u64, bytes: &[u8]) -> FdWrite {
    FdWrite { fd, bytes: bytes.to_vec() }
}

#[test]
fn syscall_numbers_match_the_kernel_table() {
    assert_eq!(SYS_READ, 0);
    assert_eq!(SYS_WRITE, 1);
    assert_eq!(SYS_OPEN, 2);
    assert_eq!(SYS_CLOSE, 3);
    assert_eq!(SYS_PIPE, 22);
    assert_eq!(SYS_DUP2, 33);
    assert_eq!(SYS_EXEC, 59);
    assert_eq!(SYS_EXIT, 60);
    assert_eq!(SYS_WAITPID, 61);
    assert_eq!(SYS_GETCWD, 79);
    assert_eq!(SYS_CHDIR, 80);
    assert_eq!(SYS_GETDENTS64, 217);
    assert_eq!(SYS_WIFI_SCAN, 300);
    assert_eq!(SYS_WIFI_CONNECT, 301);
    assert_eq!(SYS_WIFI_DISCONNECT, 302);
    assert_eq!(SYS_WIFI_STATUS, 303);
    assert_eq!(SYS_NET_IFCONFIG, 304);
    assert_eq!(SYS_NET_IFCONFIG_SET, 305);
    assert_eq!(SYS_NET_PING, 306);
    assert_eq!(SYS_NET_STAT, 307);
    assert_eq!(SYS_NET_DHCP, 308);
    assert_eq!(SYS_NET_ROUTES, 310);
}

#[test]
fn open_flags_and_security_values() {
    assert_eq!(O_RDONLY, 0);
    assert_eq!(O_WRONLY, 1);
    assert_eq!(O_RDWR, 2);
    assert_eq!(security_proto::OPEN, 0);
    assert_eq!(security_proto::WEP, 1);
    assert_eq!(security_proto::WPA, 2);
    assert_eq!(security_proto::WPA2, 3);
    assert_eq!(security_proto::WPA3, 4);
}

#[test]
fn read_and_write_pass_fd_buffer_and_length() {
    assert_eq!(Syscall::Write { fd: 1, len: 5 }.frame(0x1000), frame(1, 1, 0x1000, 5));
    assert_eq!(Syscall::Read { fd: 0, len: 64 }.frame(0x2000), frame(0, 0, 0x2000, 64));
}

#[test]
fn exit_passes_the_code_as_its_bit_pattern() {
    assert_eq!(Syscall::Exit { code: 3 }.frame(0xdead), frame(60, 3, 0, 0));
    assert_eq!(Syscall::Exit { code: -1 }.frame(0), frame(60, u64::MAX, 0, 0));
}

#[test]
fn path_calls_pass_the_path_address() {
    assert_eq!(Syscall::Open { flags: O_RDONLY }.frame(0x4000), frame(2, 0x4000, 0, 0));
    assert_eq!(Syscall::Open { flags: O_RDWR }.frame(0x4000), frame(2, 0x4000, 2, 0));
    assert_eq!(Syscall::Exec.frame(0x5000), frame(59, 0x5000, 0, 0));
    assert_eq!(Syscall::Chdir.frame(0x6000), frame(80, 0x6000, 0, 0));
    assert_eq!(Syscall::Pipe.frame(0x7000), frame(22, 0x7000, 0, 0));
}

#[test]
fn descriptor_calls_encode_their_integers() {
    assert_eq!(Syscall::Close { fd: 4 }.frame(9), frame(3, 4, 0, 0));
    assert_eq!(Syscall::Waitpid { pid: 12 }.frame(9), frame(61, 12, 0, 0));
    assert_eq!(Syscall::Dup2 { oldfd: 3, newfd: 1 }.frame(9), frame(33, 3, 1, 0));
    assert_eq!(Syscall::Getcwd { len: 256 }.frame(0x8000), frame(79, 0x8000, 256, 0));
    assert_eq!(
        Syscall::Getdents64 { fd: 5, len: 512 }.frame(0x9000),
        frame(217, 5, 0x9000, 512)
    );
}

#[test]
fn network_calls_follow_their_register_layout() {
    assert_eq!(Syscall::WifiScan { len: 100 }.frame(0xa000), frame(300, 0xa000, 100, 0));
    assert_eq!(Syscall::WifiConnect.frame(0xb000), frame(301, 0xb000, 99, 0));
    assert_eq!(Syscall::WifiDisconnect.frame(0xb000), frame(302, 0, 0, 0));
    assert_eq!(Syscall::WifiStatus { len: 40 }.frame(0xc000), frame(303, 0xc000, 40, 0));
    assert_eq!(Syscall::NetIfconfig { len: 80 }.frame(0xd000), frame(304, 0xd000, 80, 0));
    assert_eq!(Syscall::NetIfconfigSet { len: 12 }.frame(0xe000), frame(305, 0xe000, 12, 0));
    assert_eq!(
        Syscall::NetPing { dst_ip: 0x0a00_0001, seq: 7 }.frame(0xe000),
        frame(306, 0x0a00_0001, 7, 0)
    );
    assert_eq!(Syscall::NetStat { len: 64 }.frame(0xf000), frame(307, 0xf000, 64, 0));
    assert_eq!(Syscall::NetDhcp.frame(0xf000), frame(308, 0, 0, 0));
    assert_eq!(Syscall::NetRoutes { len: 32 }.frame(0x1_0000), frame(310, 0x1_0000, 32, 0));
}

#[test]
fn calls_without_buffer_ignore_the_address() {
    let c = Syscall::Dup2 { oldfd: 1, newfd: 2 };
    assert_eq!(c.frame(0), c.frame(0xffff));
}

#[test]
fn close_ignores_negative_descriptors() {
    assert_eq!(close(-1), None);
    assert_eq!(close(i64::MIN), None);
    assert_eq!(close(0), Some(Syscall::Close { fd: 0 }));
    assert_eq!(close(7), Some(Syscall::Close { fd: 7 }));
}

#[test]
fn new_writer_is_empty() {
    let mut w = BufWriter::<8>::new(2);
    assert_eq!(w.flush(), None);
}

#[test]
fn small_writes_stay_buffered_until_flush() {
    let mut w = BufWriter::<8>::new(1);
    assert!(w.write_str("abc").is_empty());
    assert!(w.write_str("de").is_empty());
    assert_eq!(w.flush(), Some(write(1, b"abcde")));
    assert_eq!(w.flush(), None);
}

#[test]
fn full_buffer_is_written_when_the_next_byte_arrives() {
    let mut w = BufWriter::<4>::new(3);
    // Exactly filling the buffer hands nothing out yet.
    assert!(w.write_str("abcd").is_empty());
    assert_eq!(w.write_str("e"), vec![write(3, b"abcd")]);
    assert_eq!(w.flush(), Some(write(3, b"e")));
}

#[test]
fn long_write_is_split_into_full_buffers() {
    let mut w = BufWriter::<4>::new(1);
    let out = w.write_str("0123456789");
    assert_eq!(out, vec![write(1, b"0123"), write(1, b"4567")]);
    assert_eq!(w.flush(), Some(write(1, b"89")));
}

#[test]
fn output_keeps_the_order_of_all_writes() {
    let mut w = BufWriter::<3>::new(1);
    let mut out: Vec<u8> = Vec::new();
    for s in ["ab", "", "cdefg", "h", "ijklmnop"] {
        for wr in w.write_str(s) {
            assert_eq!(wr.fd, 1);
            assert_eq!(wr.bytes.len(), 3);
            out.extend_from_slice(&wr.bytes);
        }
    }
    if let Some(wr) = w.flush() {
        out.extend_from_slice(&wr.bytes);
    }
    assert_eq!(out, b"abcdefghijklmnop".to_vec());
}

#[test]
fn empty_write_changes_nothing() {
    let mut w = BufWriter::<2>::new(1);
    assert!(w.write_str("ab").is_empty());
    assert!(w.write_str("").is_empty());
    assert_eq!(w.flush(), Some(write(1, b"ab")));
}

#[test]
fn zero_capacity_writer_accepts_empty_writes() {
    let mut w = BufWriter::<0>::new(1);
    assert!(w.write_str("").is_empty());
    assert_eq!(w.flush(), None);
}

#[test]
fn multibyte_characters_are_buffered_as_utf8() {
    let mut w = BufWriter::<2>::new(1);
    let out = w.write_str("é€");
    assert_eq!(out, vec![write(1, &[0xc3, 0xa9]), write(1, &[0xe2, 0x82])]);
    assert_eq!(w.flush(), Some(write(1, &[0xac])));
}

#[test]
fn print_writes_the_string_to_stdout() {
    assert_eq!(print("hello"), write(1, b"hello"));
    assert_eq!(STDOUT, 1);
}

#[test]
fn println_writes_the_string_then_a_newline() {
    assert_eq!(rustos_rt::console::println("hi"), vec![write(1, b"hi"), write(1, b"\n")]);
    assert_eq!(rustos_rt::console::println(""), vec![write(1, b""), write(1, b"\n")]);
}

#[test]
fn read_byte_returns_the_byte_once_one_arrived() {
    assert_eq!(read_byte(1, b'x'), Some(b'x'));
    assert_eq!(read_byte(0, b'x'), None);
    assert_eq!(read_byte(-11, b'x'), None);
    assert_eq!(read_byte_request(), Syscall::Read { fd: STDIN, len: 1 });
    assert_eq!(read_byte_request().frame(0x10), frame(0, 0, 0x10, 1));
}

#[test]
fn wifi_connect_args_are_packed_in_field_order() {
    let mut ssid = [0u8; 32];
    ssid[..4].copy_from_slice(b"home");
    let mut pass = [0u8; 64];
    pass[..6].copy_from_slice(b"secret");
    let args = WifiConnectArgs { ssid_len: 4, ssid, security: security_proto::WPA2, pass_len: 6, pass };
    let bytes = args.packed_bytes();
    assert_eq!(bytes.len(), WIFI_CONNECT_ARGS_SIZE);
    assert_eq!(bytes.len(), 99);
    assert_eq!(bytes[0], 4);
    assert_eq!(&bytes[1..5], b"home");
    assert!(bytes[5..33].iter().all(|b| *b == 0));
    assert_eq!(bytes[33], 3);
    assert_eq!(bytes[34], 6);
    assert_eq!(&bytes[35..41], b"secret");
    assert!(bytes[41..].iter().all(|b| *b == 0));
}

#[test]
fn every_kind_of_call_has_its_own_number() {
    let calls = [
        Syscall::Read { fd: 0, len: 0 },
        Syscall::Write { fd: 0, len: 0 },
        Syscall::Exit { code: 0 },
        Syscall::Open { flags: 0 },
        Syscall::Close { fd: 0 },
        Syscall::Exec,
        Syscall::Waitpid { pid: 0 },
        Syscall::Pipe,
        Syscall::Dup2 { oldfd: 0, newfd: 0 },
        Syscall::Getcwd { len: 0 },
        Syscall::Chdir,
        Syscall::Getdents64 { fd: 0, len: 0 },
        Syscall::WifiScan { len: 0 },
        Syscall::WifiConnect,
        Syscall::WifiDisconnect,
        Syscall::WifiStatus { len: 0 },
        Syscall::NetIfconfig { len: 0 },
        Syscall::NetIfconfigSet { len: 0 },
        Syscall::NetPing { dst_ip: 0, seq: 0 },
        Syscall::NetStat { len: 0 },
        Syscall::NetDhcp,
        Syscall::NetRoutes { len: 0 },
    ];
    for (i, a) in calls.iter().enumerate() {
        for (j, b) in calls.iter().enumerate() {
            if i != j {
                assert_ne!(a.frame(0).nr, b.frame(0).nr);
            }
        }
    }
}
