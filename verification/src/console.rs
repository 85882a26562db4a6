//! Console input and output through the standard file descriptors.
use vstd::prelude::*;
use vstd::string::StringSliceAdditionalSpecFns;

use crate::abi::Syscall;
use crate::bufwriter::{payloads, FdWrite};

verus! {

/// File descriptor of standard input.
pub const STDIN: u64 = 0;
/// File descriptor of standard output.
pub const STDOUT: u64 = 1;

/// The write that prints `s` on standard output.
#[must_use]
pub fn print(s: &str) -> (w: FdWrite)
    ensures
        w.fd == STDOUT,
        w.bytes@ == s.spec_bytes(),
{
    FdWrite { fd: STDOUT, bytes: vstd::slice::slice_to_vec(s.as_bytes()) }
}

/// The writes that print `s` followed by a newline on standard output: the
/// bytes of `s`, then a separate write of the newline.
#[must_use]
pub fn println(s: &str) -> (ws: Vec<FdWrite>)
    ensures
        ws@.len() == 2,
        ws@[0].fd == STDOUT,
        ws@[1].fd == STDOUT,
        payloads(ws@) == seq![s.spec_bytes(), seq![10u8]],
{
    let mut newline: Vec<u8> = Vec::new();
    newline.push(10u8);
    let mut ws: Vec<FdWrite> = Vec::new();
    ws.push(print(s));
    ws.push(FdWrite { fd: STDOUT, bytes: newline });
    assert(payloads(ws@) =~= seq![s.spec_bytes(), seq![10u8]]);
    ws
}

/// The read that `read_byte` issues: one byte from standard input.
#[must_use]
pub fn read_byte_request() -> (c: Syscall)
    ensures
        c == (Syscall::Read { fd: STDIN, len: 1 }),
{
    Syscall::Read { fd: STDIN, len: 1 }
}

/// One step of reading a byte from standard input: given what the read
/// returned (`read`, the byte count or a negative error code) and the byte
/// buffer after it, the byte when one arrived, or `None` when the read must
/// be retried.
#[must_use]
pub fn read_byte(read: i64, byte: u8) -> (r: Option<u8>)
    ensures
        r == (if read > 0 { Some(byte) } else { None::<u8> }),
{
    if read > 0 {
        Some(byte)
    } else {
        None
    }
}

} // verus!
