# rustos_rt

The userspace runtime of RustOS as a verified library.

* `src/abi.rs` — every syscall the runtime issues (`Syscall`) and its
  encoding into the `int 0x80` registers (`Syscall::frame`), with the rule
  that closing a negative descriptor issues nothing.
* `src/wifi.rs`, `src/security_proto.rs` — the packed WiFi connect record.
* `src/bufwriter.rs` — the fixed-capacity output buffer: which writes it hands
  out and when, and the laws that nothing written is lost or reordered.
* `src/console.rs` — `print`, `println` and the byte reader on the standard
  descriptors.
* `app/lib.rs` — the part that talks to the kernel: the `int 0x80` shim, the
  syscall wrappers, the `core::fmt` adapter, the `print!`/`println!` macros
  and the `_start` entry point.
