//! A fixed-capacity output buffer in front of a file descriptor.
//!
//! Bytes accumulate in the buffer; when a byte arrives and the buffer is full,
//! the full buffer is handed out as one write to the descriptor, and an
//! explicit [`BufWriter::flush`] hands out whatever is pending. The writes are
//! returned to the caller, who issues them to the kernel in the order given.
use vstd::prelude::*;
use vstd::string::StringSliceAdditionalSpecFns;

verus! {

/// One `write` of `bytes` to the file descriptor `fd`, to be issued as a
/// `SYS_WRITE` syscall.
#[derive(Debug, PartialEq, Eq)]
pub struct FdWrite {
    pub fd: u64,
    pub bytes: Vec<u8>,
}

/// The concatenation of a sequence of byte strings, in order.
pub open spec fn concat(parts: Seq<Seq<u8>>) -> Seq<u8>
    decreases parts.len(),
{
    if parts.len() == 0 {
        Seq::empty()
    } else {
        concat(parts.drop_last()) + parts.last()
    }
}

/// The payloads of a sequence of writes.
pub open spec fn payloads(writes: Seq<FdWrite>) -> Seq<Seq<u8>> {
    writes.map_values(|w: FdWrite| w.bytes@)
}

/// What writing `input` into a buffer of capacity `cap` that holds `before`
/// does: the buffer is handed out whole (`cap` bytes) each time a byte arrives
/// while it is full, so `flushed` followed by what remains (`after`) is
/// `before` followed by `input`; after a non-empty input the buffer holds
/// between one and `cap` bytes, after an empty one it is unchanged.
pub open spec fn buffered_write(
    cap: nat,
    before: Seq<u8>,
    input: Seq<u8>,
    flushed: Seq<Seq<u8>>,
    after: Seq<u8>,
) -> bool {
    &&& forall|i: int| 0 <= i < flushed.len() ==> (#[trigger] flushed[i]).len() == cap
    &&& concat(flushed) + after == before + input
    &&& if input.len() == 0 {
        flushed.len() == 0 && after == before
    } else {
        1 <= after.len() <= cap
    }
}

/// What flushing a buffer that holds `before` does: one write of all of it
/// when it is not empty, none when it is; the buffer is empty afterwards.
pub open spec fn flushed_once(before: Seq<u8>, write: Option<Seq<u8>>, after: Seq<u8>) -> bool {
    &&& after == Seq::<u8>::empty()
    &&& if before.len() > 0 {
        write == Some(before)
    } else {
        write == None::<Seq<u8>>
    }
}

/// The payload of an optional write.
pub open spec fn payload(w: Option<FdWrite>) -> Option<Seq<u8>> {
    match w {
        Some(w) => Some(w.bytes@),
        None => None,
    }
}

proof fn lemma_concat_push(parts: Seq<Seq<u8>>, last: Seq<u8>)
    ensures
        concat(parts.push(last)) == concat(parts) + last,
{
    assert(parts.push(last).drop_last() =~= parts);
}

proof fn lemma_payloads_push(writes: Seq<FdWrite>, w: FdWrite)
    ensures
        payloads(writes.push(w)) == payloads(writes).push(w.bytes@),
{
    assert(payloads(writes.push(w)) =~= payloads(writes).push(w.bytes@));
}

/// A stack-allocated byte buffer of capacity `N` in front of the file
/// descriptor `fd`.
pub struct BufWriter<const N: usize> {
    buf: [u8; N],
    pos: usize,
    fd: u64,
}

impl<const N: usize> BufWriter<N> {
    #[verifier::type_invariant]
    spec fn inv(self) -> bool {
        self.pos <= N
    }

    /// The bytes written and not yet handed out, oldest first.
    pub closed spec fn pending(&self) -> Seq<u8> {
        self.buf@.take(self.pos as int)
    }

    /// The file descriptor the buffered bytes go to.
    pub closed spec fn target(&self) -> u64 {
        self.fd
    }

    /// Create a new, empty writer targeting `fd`.
    pub fn new(fd: u64) -> (w: Self)
        ensures
            w.pending() == Seq::<u8>::empty(),
            w.target() == fd,
            w.pending().len() <= N,
    {
        let w = BufWriter { buf: [0u8; N], pos: 0, fd };
        assert(w.buf@.len() == N);
        assert(w.pending() =~= Seq::<u8>::empty());
        w
    }

    /// Hand out the buffered bytes as one write to the target descriptor, and
    /// empty the buffer. Nothing is handed out when the buffer is empty.
    #[must_use]
    pub fn flush(&mut self) -> (w: Option<FdWrite>)
        ensures
            final(self).target() == old(self).target(),
            final(self).pending().len() <= N,
            flushed_once(old(self).pending(), payload(w), final(self).pending()),
            w matches Some(w) ==> w.fd == old(self).target(),
    {
        proof {
            use_type_invariant(&*self);
        }
        if self.pos > 0 {
            let mut bytes: Vec<u8> = Vec::new();
            let mut i: usize = 0;
            while i < self.pos
                invariant
                    self.pos <= N,
                    i <= self.pos,
                    bytes@ == self.buf@.take(i as int),
                decreases self.pos - i,
            {
                bytes.push(self.buf[i]);
                i = i + 1;
                assert(bytes@ =~= self.buf@.take(i as int));
            }
            self.pos = 0;
            assert(self.pending() =~= Seq::<u8>::empty());
            Some(FdWrite { fd: self.fd, bytes })
        } else {
            assert(self.pending() =~= Seq::<u8>::empty());
            None
        }
    }

    /// Append the bytes of `s` to the buffer. Whenever a byte arrives while the
    /// buffer is full, the full buffer is handed out first; the writes handed
    /// out are returned in order.
    ///
    /// A buffer of capacity zero cannot take a byte.
    #[must_use]
    pub fn write_str(&mut self, s: &str) -> (flushed: Vec<FdWrite>)
        requires
            N > 0 || s.spec_bytes().len() == 0,
        ensures
            final(self).target() == old(self).target(),
            final(self).pending().len() <= N,
            forall|i: int| 0 <= i < flushed@.len() ==> (#[trigger] flushed@[i]).fd == old(self).target(),
            buffered_write(
                N as nat,
                old(self).pending(),
                s.spec_bytes(),
                payloads(flushed@),
                final(self).pending(),
            ),
    {
        proof {
            use_type_invariant(&*self);
        }
        let bytes = s.as_bytes();
        let ghost before = self.pending();
        let ghost fd0 = self.fd;
        let mut flushed: Vec<FdWrite> = Vec::new();
        let mut i: usize = 0;
        assert(payloads(flushed@) =~= Seq::<Seq<u8>>::empty());
        assert(bytes@.take(0) =~= Seq::<u8>::empty());
        while i < bytes.len()
            invariant
                N > 0 || bytes@.len() == 0,
                i <= bytes.len(),
                self.pos <= N,
                self.fd == fd0,
                forall|k: int| 0 <= k < flushed@.len() ==> (#[trigger] flushed@[k]).fd == fd0,
                forall|k: int|
                    0 <= k < flushed@.len() ==> (#[trigger] payloads(flushed@)[k]).len() == N,
                concat(payloads(flushed@)) + self.pending() == before + bytes@.take(i as int),
                i == 0 ==> flushed@.len() == 0 && self.pending() == before,
                i > 0 ==> 1 <= self.pos,
            decreases bytes.len() - i,
        {
            if self.pos == N {
                let ghost flushed_before = flushed@;
                let ghost full = self.pending();
                let w = self.flush();
                match w {
                    Some(w) => {
                        proof {
                            lemma_payloads_push(flushed@, w);
                            lemma_concat_push(payloads(flushed@), w.bytes@);
                        }
                        flushed.push(w);
                    },
                    None => {},
                }
                proof {
                    use_type_invariant(&*self);
                    assert(self.pending().len() == self.pos);
                    assert(concat(payloads(flushed@)) == concat(payloads(flushed_before)) + full);
                }
            }
            let ghost p = self.pending();
            let ghost done = concat(payloads(flushed@));
            assert(done + p == before + bytes@.take(i as int));
            let b = bytes[i];
            self.buf[self.pos] = b;
            self.pos = self.pos + 1;
            i = i + 1;
            assert(self.pending() =~= p.push(b));
            assert(bytes@.take(i as int) =~= bytes@.take(i - 1).push(b));
            assert(done + p.push(b) =~= (done + p).push(b));
            assert((before + bytes@.take(i - 1)).push(b) =~= before + bytes@.take(i as int));
        }
        assert(bytes@.take(bytes@.len() as int) =~= bytes@);
        flushed
    }
}

/// Every write handed out, in order, for a sequence of calls.
pub open spec fn all_flushed(outputs: Seq<Seq<Seq<u8>>>) -> Seq<u8> {
    concat(outputs.map_values(|o: Seq<Seq<u8>>| concat(o)))
}

/// The bytes of an optional write (none when there is no write).
pub open spec fn bytes_of(w: Option<Seq<u8>>) -> Seq<u8> {
    match w {
        Some(b) => b,
        None => Seq::empty(),
    }
}

/// Nothing written into a buffer is lost, duplicated or reordered: over any
/// sequence of writes (`inputs[i]` taking the buffer from `states[i]` to
/// `states[i + 1]` and handing out `outputs[i]`), what was handed out followed
/// by what is still buffered is what the buffer held at the start followed by
/// everything written, in order.
pub proof fn lemma_writes_keep_order(
    cap: nat,
    states: Seq<Seq<u8>>,
    inputs: Seq<Seq<u8>>,
    outputs: Seq<Seq<Seq<u8>>>,
)
    requires
        states.len() == inputs.len() + 1,
        outputs.len() == inputs.len(),
        forall|i: int|
            0 <= i < inputs.len() ==> buffered_write(
                cap,
                states[i],
                inputs[i],
                #[trigger] outputs[i],
                states[i + 1],
            ),
    ensures
        all_flushed(outputs) + states.last() == states[0] + concat(inputs),
    decreases inputs.len(),
{
    if inputs.len() == 0 {
        assert(all_flushed(outputs) =~= Seq::<u8>::empty());
        assert(concat(inputs) =~= Seq::<u8>::empty());
        assert(states[0] + Seq::<u8>::empty() =~= states[0]);
        assert(Seq::<u8>::empty() + states[0] =~= states[0]);
    } else {
        let n = inputs.len() - 1;
        let s2 = states.drop_last();
        let i2 = inputs.drop_last();
        let o2 = outputs.drop_last();
        assert forall|i: int| 0 <= i < i2.len() implies buffered_write(
            cap,
            s2[i],
            i2[i],
            #[trigger] o2[i],
            s2[i + 1],
        ) by {
            assert(buffered_write(cap, states[i], inputs[i], outputs[i], states[i + 1]));
        }
        lemma_writes_keep_order(cap, s2, i2, o2);
        assert(buffered_write(cap, states[n], inputs[n], outputs[n], states[n + 1]));
        let f = |o: Seq<Seq<u8>>| concat(o);
        assert(outputs.map_values(f).drop_last() =~= o2.map_values(f));
        assert(all_flushed(outputs) == all_flushed(o2) + concat(outputs[n]));
        assert(concat(inputs) == concat(i2) + inputs[n]);
        assert(all_flushed(outputs) + states.last() =~= (all_flushed(o2) + s2.last()) + inputs[n]) by {
            assert(concat(outputs[n]) + states[n + 1] == states[n] + inputs[n]);
            assert(all_flushed(o2) + (concat(outputs[n]) + states[n + 1]) =~= all_flushed(outputs)
                + states.last());
        }
        assert(states[0] + concat(inputs) =~= (states[0] + concat(i2)) + inputs[n]);
    }
}

/// After a sequence of writes and a final flush, the writes handed out are
/// exactly what the buffer held at the start followed by everything written,
/// in order, and nothing is left in the buffer.
pub proof fn lemma_flush_delivers_everything(
    cap: nat,
    states: Seq<Seq<u8>>,
    inputs: Seq<Seq<u8>>,
    outputs: Seq<Seq<Seq<u8>>>,
    last: Option<Seq<u8>>,
    end: Seq<u8>,
)
    requires
        states.len() == inputs.len() + 1,
        outputs.len() == inputs.len(),
        forall|i: int|
            0 <= i < inputs.len() ==> buffered_write(
                cap,
                states[i],
                inputs[i],
                #[trigger] outputs[i],
                states[i + 1],
            ),
        flushed_once(states.last(), last, end),
    ensures
        all_flushed(outputs) + bytes_of(last) == states[0] + concat(inputs),
        end == Seq::<u8>::empty(),
{
    lemma_writes_keep_order(cap, states, inputs, outputs);
    if states.last().len() == 0 {
        assert(states.last() =~= Seq::<u8>::empty());
    }
}

/// Flushing twice in a row hands out nothing the second time.
pub proof fn lemma_second_flush_writes_nothing(
    before: Seq<u8>,
    first: Option<Seq<u8>>,
    middle: Seq<u8>,
    second: Option<Seq<u8>>,
    after: Seq<u8>,
)
    requires
        flushed_once(before, first, middle),
        flushed_once(middle, second, after),
    ensures
        second == None::<Seq<u8>>,
        after == Seq::<u8>::empty(),
{
}

proof fn lemma_concat_len(parts: Seq<Seq<u8>>, cap: nat)
    requires
        forall|i: int| 0 <= i < parts.len() ==> (#[trigger] parts[i]).len() == cap,
    ensures
        concat(parts).len() == parts.len() * cap,
    decreases parts.len(),
{
    if parts.len() > 0 {
        let p2 = parts.drop_last();
        assert forall|i: int| 0 <= i < p2.len() implies (#[trigger] p2[i]).len() == cap by {
            assert(parts[i].len() == cap);
        }
        lemma_concat_len(p2, cap);
        assert(parts.last().len() == cap);
        assert(concat(parts).len() == p2.len() * cap + cap);
        assert(p2.len() * cap + cap == parts.len() * cap) by (nonlinear_arith)
            requires
                p2.len() + 1 == parts.len(),
        ;
    }
}

/// The buffer writes to its descriptor only when it has to: a write that
/// fits in the free space of the buffer hands nothing out.
pub proof fn lemma_no_write_until_full(
    cap: nat,
    before: Seq<u8>,
    input: Seq<u8>,
    flushed: Seq<Seq<u8>>,
    after: Seq<u8>,
)
    requires
        buffered_write(cap, before, input, flushed, after),
        before.len() + input.len() <= cap,
    ensures
        flushed.len() == 0,
        after == before + input,
{
    if input.len() > 0 {
        lemma_concat_len(flushed, cap);
        assert((concat(flushed) + after).len() == (before + input).len());
        if flushed.len() > 0 {
            assert(flushed.len() * cap >= cap) by (nonlinear_arith)
                requires
                    flushed.len() >= 1,
            ;
        }
        assert(concat(flushed) =~= Seq::<u8>::empty());
        assert(Seq::<u8>::empty() + after =~= after);
    }
}

proof fn lemma_concat_equal_chunks(cap: nat, f1: Seq<Seq<u8>>, f2: Seq<Seq<u8>>)
    requires
        f1.len() == f2.len(),
        forall|i: int| 0 <= i < f1.len() ==> (#[trigger] f1[i]).len() == cap,
        forall|i: int| 0 <= i < f2.len() ==> (#[trigger] f2[i]).len() == cap,
        concat(f1) == concat(f2),
    ensures
        f1 == f2,
    decreases f1.len(),
{
    if f1.len() > 0 {
        let g1 = f1.drop_last();
        let g2 = f2.drop_last();
        assert forall|i: int| 0 <= i < g1.len() implies (#[trigger] g1[i]).len() == cap by {
            assert(f1[i].len() == cap);
        }
        assert forall|i: int| 0 <= i < g2.len() implies (#[trigger] g2[i]).len() == cap by {
            assert(f2[i].len() == cap);
        }
        lemma_concat_len(g1, cap);
        lemma_concat_len(g2, cap);
        assert(f1.last().len() == cap && f2.last().len() == cap);
        let c = concat(f1);
        let m = concat(g1).len() as int;
        assert(c.take(m) =~= concat(g1));
        assert(c.skip(m) =~= f1.last());
        assert(concat(f2).take(m) =~= concat(g2));
        assert(concat(f2).skip(m) =~= f2.last());
        lemma_concat_equal_chunks(cap, g1, g2);
        assert(f1 =~= g1.push(f1.last()));
        assert(f2 =~= g2.push(f2.last()));
    }
}

/// A write into the buffer has exactly one outcome: what it hands out and
/// what it leaves buffered are determined by what the buffer held, the bytes
/// written, and the capacity.
pub proof fn lemma_buffered_write_is_determined(
    cap: nat,
    before: Seq<u8>,
    input: Seq<u8>,
    flushed1: Seq<Seq<u8>>,
    after1: Seq<u8>,
    flushed2: Seq<Seq<u8>>,
    after2: Seq<u8>,
)
    requires
        buffered_write(cap, before, input, flushed1, after1),
        buffered_write(cap, before, input, flushed2, after2),
    ensures
        flushed1 == flushed2,
        after1 == after2,
{
    if input.len() > 0 {
        lemma_concat_len(flushed1, cap);
        lemma_concat_len(flushed2, cap);
        let k1 = flushed1.len() as int;
        let k2 = flushed2.len() as int;
        let t = (before + input).len() as int;
        assert(k1 * cap + after1.len() == t);
        assert(k2 * cap + after2.len() == t);
        if k1 < k2 {
            assert((k1 + 1) * cap <= k2 * cap) by (nonlinear_arith)
                requires
                    k1 + 1 <= k2,
            ;
            assert(k1 * cap + cap == (k1 + 1) * cap) by (nonlinear_arith);
        }
        if k2 < k1 {
            assert((k2 + 1) * cap <= k1 * cap) by (nonlinear_arith)
                requires
                    k2 + 1 <= k1,
            ;
            assert(k2 * cap + cap == (k2 + 1) * cap) by (nonlinear_arith);
        }
        assert(k1 == k2);
        let total = before + input;
        let m = k1 * cap;
        assert((concat(flushed1) + after1).take(m) =~= concat(flushed1));
        assert((concat(flushed2) + after2).take(m) =~= concat(flushed2));
        assert((concat(flushed1) + after1).skip(m) =~= after1);
        assert((concat(flushed2) + after2).skip(m) =~= after2);
        lemma_concat_equal_chunks(cap, flushed1, flushed2);
    }
}

} // verus!
