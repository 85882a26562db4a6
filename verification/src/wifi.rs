//! The packed argument record of the WiFi connect syscall.
use vstd::prelude::*;

verus! {

/// Size in bytes of the packed [`WifiConnectArgs`] record the kernel reads:
/// `ssid_len` (1) + `ssid` (32) + `security` (1) + `pass_len` (1) + `pass` (64).
pub const WIFI_CONNECT_ARGS_SIZE: usize = 99;

/// Argument record for the WiFi connect syscall (`SYS_WIFI_CONNECT`).
///
/// The kernel reads it as a packed C struct: the fields in declaration order,
/// with no padding between them.
pub struct WifiConnectArgs {
    /// SSID length in bytes (0–32).
    pub ssid_len: u8,
    /// SSID bytes (up to 32 bytes, remainder zero-padded).
    pub ssid: [u8; 32],
    /// Security protocol — one of the constants in `security_proto`
    /// (e.g. `security_proto::WPA2`).
    pub security: u8,
    /// Passphrase / key length in bytes.
    pub pass_len: u8,
    /// Passphrase / key bytes (up to 64 bytes, remainder zero-padded).
    pub pass: [u8; 64],
}

impl WifiConnectArgs {
    /// The packed in-memory layout of the record.
    pub open spec fn spec_packed(&self) -> Seq<u8> {
        seq![self.ssid_len] + self.ssid@ + seq![self.security, self.pass_len] + self.pass@
    }

    /// The record laid out as the kernel reads it: packed, fields in order.
    #[must_use]
    pub fn packed_bytes(&self) -> (r: Vec<u8>)
        ensures
            r@ == self.spec_packed(),
            r@.len() == WIFI_CONNECT_ARGS_SIZE,
    {
        let mut r: Vec<u8> = Vec::new();
        r.push(self.ssid_len);
        let mut i: usize = 0;
        while i < 32
            invariant
                i <= 32,
                r@ == seq![self.ssid_len] + self.ssid@.take(i as int),
            decreases 32 - i,
        {
            r.push(self.ssid[i]);
            i = i + 1;
            assert(r@ == seq![self.ssid_len] + self.ssid@.take(i as int));
        }
        assert(self.ssid@.take(32) == self.ssid@);
        r.push(self.security);
        r.push(self.pass_len);
        let ghost head = r@;
        let mut j: usize = 0;
        while j < 64
            invariant
                j <= 64,
                r@ == head + self.pass@.take(j as int),
            decreases 64 - j,
        {
            r.push(self.pass[j]);
            j = j + 1;
            assert(r@ == head + self.pass@.take(j as int));
        }
        assert(self.pass@.take(64) == self.pass@);
        r
    }
}

/// Each field of the record sits unchanged at its offset in the packed
/// layout: `ssid_len` at 0, `ssid` at 1..33, `security` at 33, `pass_len` at
/// 34 and `pass` at 35..99.
pub proof fn lemma_packed_field_offsets(args: WifiConnectArgs)
    ensures
        args.spec_packed().len() == 99,
        args.spec_packed()[0] == args.ssid_len,
        forall|i: int| 0 <= i < 32 ==> #[trigger] args.spec_packed()[1 + i] == args.ssid[i],
        args.spec_packed()[33] == args.security,
        args.spec_packed()[34] == args.pass_len,
        forall|i: int| 0 <= i < 64 ==> #[trigger] args.spec_packed()[35 + i] == args.pass[i],
{
    let p = args.spec_packed();
    assert(p.len() == 99);
    assert forall|i: int| 0 <= i < 32 implies #[trigger] p[1 + i] == args.ssid[i] by {
        assert(p[1 + i] == args.ssid@[i]);
    }
    assert forall|i: int| 0 <= i < 64 implies #[trigger] p[35 + i] == args.pass[i] by {
        assert(p[35 + i] == args.pass@[i]);
    }
}

} // verus!
