//! The buffered descriptor reader's state machine: a fixed 128-byte
//! window over a descriptor, with the reads themselves performed by the
//! caller and handed in as plain bytes.

use vstd::prelude::*;

verus! {

/// Where a seek measures from.
#[derive(Clone, Copy, Debug, PartialEq, Eq, Structural)]
pub enum SeekFrom {
    /// An absolute offset from the start.
    Start(u64),
    /// An offset from the end.
    End(i64),
    /// An offset from the current position.
    Current(i64),
}

/// The host whence value for an absolute seek.
pub const SEEK_SET: u32 = 0;

/// The host whence value for a relative seek.
pub const SEEK_CUR: u32 = 1;

/// The host whence value for an end-relative seek.
pub const SEEK_END: u32 = 2;

/// Translates a seek request into the host's whence/offset pair.
pub fn seek_args(pos: SeekFrom) -> (r: (u32, i64))
    requires
        pos matches SeekFrom::Start(n) ==> n <= i64::MAX,
    ensures
        match pos {
            SeekFrom::Start(n) => r == (SEEK_SET, n as i64),
            SeekFrom::End(n) => r == (SEEK_END, n),
            SeekFrom::Current(n) => r == (SEEK_CUR, n),
        },
{
    match pos {
        SeekFrom::Start(n) => (SEEK_SET, n as i64),
        SeekFrom::End(n) => (SEEK_END, n),
        SeekFrom::Current(n) => (SEEK_CUR, n),
    }
}

/// A buffered reader over a descriptor: a 128-byte window, of which
/// `pos..len` is still unconsumed. The caller refills the window with the
/// bytes its own read returned.
pub struct BufFdReader {
    /// The underlying descriptor.
    pub fd: i32,
    /// The window storage.
    pub buffer: Vec<u8>,
    /// Start of the unconsumed bytes.
    pub pos: usize,
    /// End of the unconsumed bytes.
    pub len: usize,
}

impl BufFdReader {
    /// Window bounds stay consistent.
    pub open spec fn wf(self) -> bool {
        &&& self.buffer.len() == 128
        &&& self.pos <= self.len <= 128
    }

    /// The unconsumed bytes.
    pub open spec fn spec_buffered(self) -> Seq<u8> {
        self.buffer@.subrange(self.pos as int, self.len as int)
    }

    /// A fresh, empty reader over `fd`.
    pub fn new(fd: i32) -> (r: BufFdReader)
        ensures
            r.wf(),
            r.fd == fd,
            r.pos == 0,
            r.len == 0,
            r.spec_buffered() == Seq::<u8>::empty(),
    {
        let mut buffer: Vec<u8> = Vec::new();
        let mut n: usize = 0;
        while n < 128
            invariant
                n <= 128,
                buffer.len() == n,
            decreases 128 - n,
        {
            buffer.push(0);
            n += 1;
        }
        let r = BufFdReader { fd, buffer, pos: 0, len: 0 };
        proof {
            assert(r.spec_buffered() =~= Seq::<u8>::empty());
        }
        r
    }

    /// The unconsumed bytes of the window.
    pub fn buf(&self) -> (r: &[u8])
        requires
            self.wf(),
        ensures
            r@ == self.spec_buffered(),
    {
        vstd::slice::slice_subrange(self.buffer.as_slice(), self.pos, self.len)
    }

    /// Installs the bytes a descriptor read returned as the new window;
    /// only a drained window may be refilled, as a read would otherwise
    /// discard unconsumed bytes.
    pub fn refill(&mut self, data: &[u8])
        requires
            old(self).wf(),
            old(self).pos == old(self).len,
            data@.len() <= 128,
        ensures
            final(self).wf(),
            final(self).fd == old(self).fd,
            final(self).pos == 0,
            final(self).len == data@.len(),
            final(self).spec_buffered() == data@,
    {
        let mut i: usize = 0;
        while i < data.len()
            invariant
                self.buffer.len() == 128,
                data@.len() <= 128,
                i <= data@.len(),
                self.fd == old(self).fd,
                forall|j: int| 0 <= j < i ==> self.buffer@[j] == data@[j],
            decreases data@.len() - i,
        {
            self.buffer.set(i, data[i]);
            i += 1;
        }
        self.pos = 0;
        self.len = data.len();
        proof {
            assert(self.spec_buffered() =~= data@);
        }
    }

    /// Copies up to `out.len()` unconsumed bytes into the front of `out`,
    /// consuming them; returns how many were copied (the window's fill
    /// level bounds it, exactly as a short read would).
    pub fn read(&mut self, out: &mut Vec<u8>) -> (n: usize)
        requires
            old(self).wf(),
        ensures
            final(self).wf(),
            final(self).fd == old(self).fd,
            n == vstd::math::min(old(out)@.len() as int, old(self).spec_buffered().len() as int),
            final(out)@.len() == old(out)@.len(),
            forall|j: int| 0 <= j < n ==> final(out)@[j] == old(self).spec_buffered()[j],
            forall|j: int| n <= j < old(out)@.len() ==> final(out)@[j] == old(out)@[j],
            final(self).spec_buffered() == old(self).spec_buffered().skip(n as int),
            final(self).len == old(self).len,
    {
        let avail = self.len - self.pos;
        let n = if out.len() < avail {
            out.len()
        } else {
            avail
        };
        let mut i: usize = 0;
        while i < n
            invariant
                self.wf(),
                *self == *old(self),
                n <= self.len - self.pos,
                n <= out.len(),
                i <= n,
                out@.len() == old(out)@.len(),
                forall|j: int| 0 <= j < i ==> out@[j] == self.spec_buffered()[j],
                forall|j: int| i <= j < out@.len() ==> out@[j] == old(out)@[j],
            decreases n - i,
        {
            let b = self.buffer[self.pos + i];
            out.set(i, b);
            i += 1;
        }
        self.pos = self.pos + n;
        proof {
            assert(self.spec_buffered() =~= old(self).spec_buffered().skip(n as int));
        }
        n
    }

    /// Marks `amt` unconsumed bytes as consumed.
    pub fn consume(&mut self, amt: usize)
        requires
            old(self).wf(),
            old(self).pos + amt <= old(self).len,
        ensures
            final(self).wf(),
            final(self).fd == old(self).fd,
            final(self).pos == old(self).pos + amt,
            final(self).len == old(self).len,
            final(self).spec_buffered() == old(self).spec_buffered().skip(amt as int),
    {
        self.pos = self.pos + amt;
        proof {
            assert(self.spec_buffered() =~= old(self).spec_buffered().skip(amt as int));
        }
    }

    /// Discards the window, as a seek must before the descriptor's offset
    /// moves underneath it.
    pub fn discard(&mut self)
        ensures
            final(self).fd == old(self).fd,
            final(self).buffer == old(self).buffer,
            final(self).pos == old(self).len,
            final(self).len == old(self).len,
    {
        self.pos = self.len;
    }
}

/// Whether one line-reading step finished the line.
#[derive(Clone, Copy, Debug, PartialEq, Eq, Structural)]
pub enum LineStep {
    /// The line is complete: a newline was consumed or the output filled.
    Done,
    /// The window was drained without ending the line: refill and repeat.
    NeedMore,
}

impl BufFdReader {
    /// One step of reading a line of at most `cap` bytes into `out`: the
    /// window's bytes up to its first newline are appended as far as the
    /// remaining capacity allows, and the consumed span includes the
    /// newline when one was found. The step is done once a newline was
    /// seen or the output filled; otherwise the caller refills the window
    /// and repeats.
    pub fn take_line_step(&mut self, out: &mut Vec<u8>, cap: usize) -> (r: LineStep)
        requires
            old(self).wf(),
            old(out)@.len() <= cap,
        ensures
            final(self).wf(),
            final(self).fd == old(self).fd,
            ({
                let window = old(self).spec_buffered();
                let found = crate::bytes::spec_find(window, 0x0A) is Some;
                let max_len = match crate::bytes::spec_find(window, 0x0A) {
                    Some(i) => i as int,
                    None => window.len() as int,
                };
                let tail_cap = cap - old(out)@.len();
                let real_len = if max_len <= tail_cap {
                    max_len
                } else {
                    tail_cap as int
                };
                &&& final(out)@ == old(out)@ + window.take(real_len)
                &&& final(self).spec_buffered() == window.skip(
                    real_len + (if found {
                        1int
                    } else {
                        0int
                    }),
                )
                &&& (r == LineStep::Done <==> (tail_cap < max_len || found))
            }),
    {
        let ghost window = self.spec_buffered();
        let win = vstd::slice::slice_to_vec(
            vstd::slice::slice_subrange(self.buffer.as_slice(), self.pos, self.len),
        );
        let (found, max_len): (bool, usize) = match crate::bytes::find_byte(win.as_slice(), 0x0A) {
            Some(i) => (true, i),
            None => (false, win.len()),
        };
        let tail_cap = cap - out.len();
        let real_len = if max_len <= tail_cap {
            max_len
        } else {
            tail_cap
        };
        let mut j: usize = 0;
        while j < real_len
            invariant
                self.wf(),
                *self == *old(self),
                win@ == self.spec_buffered(),
                real_len <= win@.len(),
                j <= real_len,
                out@ == old(out)@ + win@.take(j as int),
            decreases real_len - j,
        {
            let b = win[j];
            out.push(b);
            proof {
                assert(old(out)@ + win@.take(j + 1) =~= (old(out)@ + win@.take(j as int)).push(
                    win@[j as int],
                ));
            }
            j += 1;
        }
        let consumed = real_len + if found {
            1
        } else {
            0
        };
        self.pos = self.pos + consumed;
        proof {
            crate::bytes::lemma_spec_find(window, 0x0A);
            assert(self.spec_buffered() =~= window.skip(consumed as int));
        }
        if tail_cap < max_len || found {
            LineStep::Done
        } else {
            LineStep::NeedMore
        }
    }
}

} // verus!
