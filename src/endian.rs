use vstd::prelude::*;

use crate::error::CoreError;

verus! {

/// `256` raised to the power `n`: one more than the largest value `n` bytes hold.
pub open spec fn byte_span(n: nat) -> nat
    decreases n,
{
    if n == 0 {
        1
    } else {
        256 * byte_span((n - 1) as nat)
    }
}

/// The unsigned integer that the bytes `b` spell, most significant byte first.
pub open spec fn be_uint(b: Seq<u8>) -> nat
    decreases b.len(),
{
    if b.len() == 0 {
        0
    } else {
        (be_uint(b.drop_last()) * 256 + b.last()) as nat
    }
}

pub proof fn lemma_be_uint_bound(b: Seq<u8>)
    ensures
        be_uint(b) < byte_span(b.len()),
    decreases b.len(),
{
    if b.len() > 0 {
        lemma_be_uint_bound(b.drop_last());
        let p = be_uint(b.drop_last());
        let s = byte_span((b.len() - 1) as nat);
        let l = b.last() as nat;
        assert(p * 256 + l < 256 * s) by (nonlinear_arith)
            requires
                p < s,
                l < 256,
        ;
    }
}

/// A cursor over a byte slice that reads big-endian integers and never reads
/// past the end of the slice.
pub struct BigEndianReader<'a> {
    buf: &'a [u8],
    pos: usize,
}

impl<'a> BigEndianReader<'a> {
    /// The bytes under the cursor.
    pub closed spec fn data(&self) -> Seq<u8> {
        self.buf@
    }

    /// The offset of the next byte to be read.
    pub closed spec fn pos(&self) -> int {
        self.pos as int
    }

    /// The cursor stands inside or just past the end of its bytes.
    pub open spec fn wf(&self) -> bool {
        0 <= self.pos() <= self.data().len()
    }

    /// The bytes that are left to read.
    pub open spec fn rest(&self) -> Seq<u8> {
        self.data().subrange(self.pos(), self.data().len() as int)
    }

    /// How a successful read of `n` bytes moves the cursor: the bytes stay,
    /// the position advances by `n`.
    pub open spec fn advanced(&self, next: &Self, n: int) -> bool {
        &&& next.data() == self.data()
        &&& next.pos() == self.pos() + n
        &&& next.wf()
    }

    /// What a read of `n` bytes leaves behind: the cursor moves over the `n`
    /// bytes where enough remain, and stays put otherwise.
    pub open spec fn read_step<T>(&self, next: &Self, n: int, r: Result<T, CoreError>) -> bool {
        if self.pos() + n <= self.data().len() {
            r is Ok && self.advanced(next, n)
        } else {
            r is Err && r->Err_0 is UnexpectedEof && *next == *self
        }
    }

    pub fn new(buf: &'a [u8]) -> (r: Self)
        ensures
            r.data() == buf@,
            r.pos() == 0,
            r.wf(),
    {
        BigEndianReader { buf, pos: 0 }
    }

    pub fn position(&self) -> (r: usize)
        ensures
            r == self.pos(),
    {
        self.pos
    }

    pub fn remaining(&self) -> (r: usize)
        requires
            self.wf(),
        ensures
            r == self.data().len() - self.pos(),
    {
        self.buf.len() - self.pos
    }

    /// Reads the next `n` bytes (at most eight) as one unsigned integer.
    fn read_uint(&mut self, n: usize) -> (r: Result<u64, CoreError>)
        requires
            old(self).wf(),
            n <= 8,
        ensures
            old(self).read_step(final(self), n as int, r),
            r is Ok ==> r->Ok_0 as nat == be_uint(
                old(self).data().subrange(old(self).pos(), old(self).pos() + n),
            ),
    {
        if self.buf.len() - self.pos < n {
            return Err(CoreError::UnexpectedEof);
        }
        let start = self.pos;
        let len = self.buf.len();
        let mut v: u64 = 0;
        let mut i: usize = 0;
        while i < n
            invariant
                i <= n <= 8,
                len == self.buf@.len(),
                start + n <= len,
                v as nat == be_uint(self.buf@.subrange(start as int, start + i)),
            decreases n - i,
        {
            let ghost prev = self.buf@.subrange(start as int, start + i);
            let ghost next = self.buf@.subrange(start as int, start + i + 1);
            proof {
                assert(next.drop_last() == prev);
                lemma_be_uint_bound(prev);
                assert(byte_span(i as nat) <= byte_span(7)) by {
                    lemma_byte_span_mono(i as nat, 7);
                }
                reveal_with_fuel(byte_span, 8);
            }
            let b = self.buf[start + i];
            v = v * 256 + b as u64;
            i = i + 1;
        }
        self.pos = start + n;
        Ok(v)
    }

    pub fn read_u8(&mut self) -> (r: Result<u8, CoreError>)
        requires
            old(self).wf(),
        ensures
            old(self).read_step(final(self), 1, r),
            r is Ok ==> r->Ok_0 == old(self).data()[old(self).pos()],
    {
        if self.remaining() < 1 {
            return Err(CoreError::UnexpectedEof);
        }
        let value = self.buf[self.pos];
        self.pos = self.pos + 1;
        Ok(value)
    }

    pub fn read_i8(&mut self) -> (r: Result<i8, CoreError>)
        requires
            old(self).wf(),
        ensures
            old(self).read_step(final(self), 1, r),
            r is Ok ==> r->Ok_0 == old(self).data()[old(self).pos()] as i8,
    {
        match self.read_u8() {
            Ok(b) => Ok(b as i8),
            Err(e) => Err(e),
        }
    }

    pub fn read_u16(&mut self) -> (r: Result<u16, CoreError>)
        requires
            old(self).wf(),
        ensures
            old(self).read_step(final(self), 2, r),
            r is Ok ==> r->Ok_0 as nat == be_uint(
                old(self).data().subrange(old(self).pos(), old(self).pos() + 2),
            ),
    {
        let bytes = self.read_exact::<2>();
        match bytes {
            Ok(b) => {
                let v = b[0] as u16 * 256 + b[1] as u16;
                proof {
                    reveal_with_fuel(be_uint, 3);
                    assert(b@.drop_last().drop_last() == Seq::<u8>::empty());
                }
                Ok(v)
            },
            Err(e) => Err(e),
        }
    }

    pub fn read_i16(&mut self) -> (r: Result<i16, CoreError>)
        requires
            old(self).wf(),
        ensures
            old(self).read_step(final(self), 2, r),
            r is Ok ==> r->Ok_0 == be_uint(
                old(self).data().subrange(old(self).pos(), old(self).pos() + 2),
            ) as u16 as i16,
    {
        match self.read_u16() {
            Ok(v) => Ok(v as i16),
            Err(e) => Err(e),
        }
    }

    /// Reads a three-byte unsigned integer, as RIFF chunk lengths are stored.
    pub fn read_u24(&mut self) -> (r: Result<u32, CoreError>)
        requires
            old(self).wf(),
        ensures
            old(self).read_step(final(self), 3, r),
            r is Ok ==> r->Ok_0 as nat == be_uint(
                old(self).data().subrange(old(self).pos(), old(self).pos() + 3),
            ),
            r is Ok ==> r->Ok_0 < 0x100_0000,
    {
        match self.read_uint(3) {
            Ok(v) => {
                proof {
                    lemma_be_uint_bound(
                        old(self).data().subrange(old(self).pos(), old(self).pos() + 3),
                    );
                    reveal_with_fuel(byte_span, 4);
                }
                Ok(v as u32)
            },
            Err(e) => Err(e),
        }
    }

    pub fn read_u32(&mut self) -> (r: Result<u32, CoreError>)
        requires
            old(self).wf(),
        ensures
            old(self).read_step(final(self), 4, r),
            r is Ok ==> r->Ok_0 as nat == be_uint(
                old(self).data().subrange(old(self).pos(), old(self).pos() + 4),
            ),
    {
        match self.read_uint(4) {
            Ok(v) => {
                proof {
                    lemma_be_uint_bound(
                        old(self).data().subrange(old(self).pos(), old(self).pos() + 4),
                    );
                    reveal_with_fuel(byte_span, 5);
                }
                Ok(v as u32)
            },
            Err(e) => Err(e),
        }
    }

    pub fn read_i32(&mut self) -> (r: Result<i32, CoreError>)
        requires
            old(self).wf(),
        ensures
            old(self).read_step(final(self), 4, r),
            r is Ok ==> r->Ok_0 == be_uint(
                old(self).data().subrange(old(self).pos(), old(self).pos() + 4),
            ) as u32 as i32,
    {
        match self.read_u32() {
            Ok(v) => Ok(v as i32),
            Err(e) => Err(e),
        }
    }

    pub fn read_u64(&mut self) -> (r: Result<u64, CoreError>)
        requires
            old(self).wf(),
        ensures
            old(self).read_step(final(self), 8, r),
            r is Ok ==> r->Ok_0 as nat == be_uint(
                old(self).data().subrange(old(self).pos(), old(self).pos() + 8),
            ),
    {
        self.read_uint(8)
    }

    pub fn read_i64(&mut self) -> (r: Result<i64, CoreError>)
        requires
            old(self).wf(),
        ensures
            old(self).read_step(final(self), 8, r),
            r is Ok ==> r->Ok_0 == be_uint(
                old(self).data().subrange(old(self).pos(), old(self).pos() + 8),
            ) as u64 as i64,
    {
        match self.read_uint(8) {
            Ok(v) => Ok(v as i64),
            Err(e) => Err(e),
        }
    }

    /// Reads the next `N` bytes as they stand.
    pub fn read_exact<const N: usize>(&mut self) -> (r: Result<[u8; N], CoreError>)
        requires
            old(self).wf(),
        ensures
            old(self).read_step(final(self), N as int, r),
            r is Ok ==> r->Ok_0@ == old(self).data().subrange(
                old(self).pos(),
                old(self).pos() + N,
            ),
    {
        if self.remaining() < N {
            return Err(CoreError::UnexpectedEof);
        }
        let start = self.pos;
        let len = self.buf.len();
        let mut out = [0u8; N];
        let mut i: usize = 0;
        while i < N
            invariant
                i <= N,
                len == self.buf@.len(),
                start + N <= len,
                out@.len() == N,
                forall|k: int| 0 <= k < i ==> out@[k] == self.buf@[start + k],
            decreases N - i,
        {
            out[i] = self.buf[start + i];
            i = i + 1;
        }
        self.pos = start + N;
        proof {
            assert(out@ =~= self.buf@.subrange(start as int, start + N));
        }
        Ok(out)
    }
}

proof fn lemma_byte_span_mono(a: nat, b: nat)
    requires
        a <= b,
    ensures
        byte_span(a) <= byte_span(b),
    decreases b,
{
    if a < b {
        lemma_byte_span_mono(a, (b - 1) as nat);
    }
}

} // verus!
