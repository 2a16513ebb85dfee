use vstd::prelude::*;

verus! {

use crate::error::Error;

/// How many distinct values fit in `w` bytes: 256 raised to `w`.
pub open spec fn pow256(w: nat) -> nat
    decreases w,
{
    if w == 0 {
        1
    } else {
        256 * pow256((w - 1) as nat)
    }
}

/// The unsigned big-endian value of the `w` bytes of `data` starting at `pos`.
pub open spec fn be_at(data: Seq<u8>, pos: int, w: nat) -> nat
    decreases w,
{
    if w == 0 {
        0
    } else {
        be_at(data, pos, (w - 1) as nat) * 256 + (data[pos + w - 1] as nat)
    }
}

proof fn lemma_pow256_increases(a: nat, b: nat)
    requires
        a <= b,
    ensures
        pow256(a) <= pow256(b),
    decreases b,
{
    if a < b {
        lemma_pow256_increases(a, (b - 1) as nat);
    }
}

/// A byte source over one heap-dump region: a buffer, a read position, and the
/// fixed byte width of an identifier, constant for the whole dump.
///
/// Every read either consumes exactly the width it names, advancing the
/// position by that width, or fails with `Error::Truncated` and leaves the
/// position where it was.
pub struct Reader {
    data: Vec<u8>,
    pos: usize,
    id_size: usize,
}

impl Reader {
    /// The bytes the reader ranges over.
    pub closed spec fn bytes(&self) -> Seq<u8> {
        self.data@
    }

    /// The current read position.
    pub closed spec fn position(&self) -> int {
        self.pos as int
    }

    /// The byte width of one identifier.
    pub closed spec fn id_width(&self) -> nat {
        self.id_size as nat
    }

    /// The position never passes the end of the buffer, and the identifier
    /// width is that of a machine pointer: between one and eight bytes, so an
    /// identifier value fits in a `u64`.
    pub open spec fn wf(&self) -> bool {
        &&& 0 <= self.position() <= self.bytes().len()
        &&& 1 <= self.id_width() <= 8
    }

    /// The two readers range over the same dump: same bytes, same identifier
    /// width.
    pub open spec fn same_dump(&self, other: &Reader) -> bool {
        self.bytes() == other.bytes() && self.id_width() == other.id_width()
    }

    pub fn new(data: Vec<u8>, id_size: usize) -> (r: Reader)
        requires
            1 <= id_size <= 8,
        ensures
            r.wf(),
            r.bytes() == data@,
            r.position() == 0,
            r.id_width() == id_size as nat,
    {
        Reader { data, pos: 0, id_size }
    }

    /// The fixed byte width of an identifier in this dump.
    pub fn id_size(&self) -> (n: usize)
        ensures
            n as nat == self.id_width(),
    {
        self.id_size
    }

    /// The current read position, counted in bytes from the start of the
    /// buffer.
    pub fn offset(&self) -> (n: usize)
        ensures
            n as int == self.position(),
    {
        self.pos
    }

    /// How many bytes remain to be read.
    pub fn remaining(&self) -> (n: usize)
        requires
            self.wf(),
        ensures
            n as int == self.bytes().len() - self.position(),
    {
        self.data.len() - self.pos
    }

    pub fn read_u8(&mut self) -> (r: Result<u8, Error>)
        requires
            old(self).wf(),
        ensures
            final(self).wf(),
            final(self).same_dump(old(self)),
            (match r {
                Ok(b) => {
                    &&& old(self).position() + 1 <= old(self).bytes().len()
                    &&& b == old(self).bytes()[old(self).position()]
                    &&& final(self).position() == old(self).position() + 1
                },
                Err(e) => {
                    &&& e == Error::Truncated
                    &&& old(self).position() + 1 > old(self).bytes().len()
                    &&& final(self).position() == old(self).position()
                },
            }),
    {
        if self.data.len() - self.pos >= 1 {
            let b: u8 = self.data[self.pos];
            self.pos = self.pos + 1;
            Ok(b)
        } else {
            Err(Error::Truncated)
        }
    }

    pub fn read_u16(&mut self) -> (r: Result<u16, Error>)
        requires
            old(self).wf(),
        ensures
            final(self).wf(),
            final(self).same_dump(old(self)),
            (match r {
                Ok(v) => {
                    &&& old(self).position() + 2 <= old(self).bytes().len()
                    &&& v as nat == be_at(old(self).bytes(), old(self).position(), 2)
                    &&& final(self).position() == old(self).position() + 2
                },
                Err(e) => {
                    &&& e == Error::Truncated
                    &&& old(self).position() + 2 > old(self).bytes().len()
                    &&& final(self).position() == old(self).position()
                },
            }),
    {
        if self.data.len() - self.pos >= 2 {
            let b0: u8 = self.data[self.pos];
            let b1: u8 = self.data[self.pos + 1];
            let v: u16 = (b0 as u16) * 256 + (b1 as u16);
            self.pos = self.pos + 2;
            proof {
                let data = old(self).bytes();
                let p = old(self).position();
                assert(be_at(data, p, 0) == 0);
                assert(be_at(data, p, 1) == be_at(data, p, 0) * 256 + (data[p] as nat));
                assert(be_at(data, p, 2) == be_at(data, p, 1) * 256 + (data[p + 1] as nat));
            }
            Ok(v)
        } else {
            Err(Error::Truncated)
        }
    }

    pub fn read_u32(&mut self) -> (r: Result<u32, Error>)
        requires
            old(self).wf(),
        ensures
            final(self).wf(),
            final(self).same_dump(old(self)),
            (match r {
                Ok(v) => {
                    &&& old(self).position() + 4 <= old(self).bytes().len()
                    &&& v as nat == be_at(old(self).bytes(), old(self).position(), 4)
                    &&& final(self).position() == old(self).position() + 4
                },
                Err(e) => {
                    &&& e == Error::Truncated
                    &&& old(self).position() + 4 > old(self).bytes().len()
                    &&& final(self).position() == old(self).position()
                },
            }),
    {
        if self.data.len() - self.pos >= 4 {
            let b0: u8 = self.data[self.pos];
            let b1: u8 = self.data[self.pos + 1];
            let b2: u8 = self.data[self.pos + 2];
            let b3: u8 = self.data[self.pos + 3];
            let v: u32 = (b0 as u32) * 0x1000000 + (b1 as u32) * 0x10000 + (b2 as u32) * 0x100
                + (b3 as u32);
            self.pos = self.pos + 4;
            proof {
                let data = old(self).bytes();
                let p = old(self).position();
                assert(be_at(data, p, 0) == 0);
                assert(be_at(data, p, 1) == be_at(data, p, 0) * 256 + (data[p] as nat));
                assert(be_at(data, p, 2) == be_at(data, p, 1) * 256 + (data[p + 1] as nat));
                assert(be_at(data, p, 3) == be_at(data, p, 2) * 256 + (data[p + 2] as nat));
                assert(be_at(data, p, 4) == be_at(data, p, 3) * 256 + (data[p + 3] as nat));
            }
            Ok(v)
        } else {
            Err(Error::Truncated)
        }
    }

    /// Read one identifier: `id_width` bytes, big-endian.
    pub fn read_id(&mut self) -> (r: Result<u64, Error>)
        requires
            old(self).wf(),
        ensures
            final(self).wf(),
            final(self).same_dump(old(self)),
            (match r {
                Ok(v) => {
                    &&& old(self).position() + old(self).id_width() <= old(self).bytes().len()
                    &&& v as nat == be_at(old(self).bytes(), old(self).position(), old(self).id_width())
                    &&& final(self).position() == old(self).position() + old(self).id_width()
                },
                Err(e) => {
                    &&& e == Error::Truncated
                    &&& old(self).position() + old(self).id_width() > old(self).bytes().len()
                    &&& final(self).position() == old(self).position()
                },
            }),
    {
        let w: usize = self.id_size;
        if self.data.len() - self.pos < w {
            return Err(Error::Truncated);
        }
        let start: usize = self.pos;
        let len: usize = self.data.len();
        let mut v: u64 = 0;
        let mut i: usize = 0;
        while i < w
            invariant
                self.wf(),
                self == old(self),
                i <= w,
                w == self.id_width(),
                start == self.position(),
                self.bytes().len() == len,
                start + w <= len,
                v as nat == be_at(self.bytes(), start as int, i as nat),
                (v as nat) < pow256(i as nat),
            decreases w - i,
        {
            proof {
                lemma_pow256_increases(i as nat, 7);
                assert(pow256(7) == 0x100000000000000) by {
                    reveal_with_fuel(pow256, 9);
                }
            }
            let b: u8 = self.data[start + i];
            v = v * 256 + (b as u64);
            i = i + 1;
            proof {
                assert(be_at(self.bytes(), start as int, i as nat) == be_at(
                    self.bytes(),
                    start as int,
                    (i - 1) as nat,
                ) * 256 + (self.bytes()[start + i - 1] as nat));
            }
        }
        self.pos = self.pos + w;
        Ok(v)
    }

    /// Read `n` raw bytes.
    pub fn read_u8_array(&mut self, n: usize) -> (r: Result<Vec<u8>, Error>)
        requires
            old(self).wf(),
        ensures
            final(self).wf(),
            final(self).same_dump(old(self)),
            (match r {
                Ok(v) => {
                    &&& old(self).position() + n <= old(self).bytes().len()
                    &&& v@ == old(self).bytes().subrange(
                        old(self).position(),
                        old(self).position() + n,
                    )
                    &&& final(self).position() == old(self).position() + n
                },
                Err(e) => {
                    &&& e == Error::Truncated
                    &&& old(self).position() + n > old(self).bytes().len()
                    &&& final(self).position() == old(self).position()
                },
            }),
    {
        if self.data.len() - self.pos < n {
            return Err(Error::Truncated);
        }
        let start: usize = self.pos;
        let len: usize = self.data.len();
        let mut out: Vec<u8> = Vec::new();
        let mut i: usize = 0;
        proof {
            assert(out@ =~= self.bytes().subrange(start as int, start as int + i as int));
        }
        while i < n
            invariant
                self.wf(),
                self == old(self),
                i <= n,
                start == self.position(),
                self.bytes().len() == len,
                start + n <= len,
                out@ == self.bytes().subrange(start as int, start as int + i as int),
            decreases n - i,
        {
            let b: u8 = self.data[start + i];
            out.push(b);
            i = i + 1;
            proof {
                assert(out@ =~= self.bytes().subrange(start as int, start as int + i as int));
            }
        }
        self.pos = self.pos + n;
        Ok(out)
    }
}

} // verus!
