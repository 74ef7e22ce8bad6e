//! The log shown on the display: a bounded text buffer that keeps the newest
//! lines, dropping old text in large chunks when full.

use vstd::prelude::*;

verus! {

/// Capacity of the log, in bytes.
pub const LOG_BUFFER_SIZE: usize = 512;

/// What is kept of the log when a line does not fit.
pub const LOG_TRUNCATE_SIZE: usize = 320;

/// The log after appending `line` to `buffer`: everything if it fits;
/// otherwise the last `LOG_TRUNCATE_SIZE` bytes of the line alone if it is
/// that long, else the newest bytes of the buffer followed by the line,
/// `LOG_TRUNCATE_SIZE` bytes in all.
pub open spec fn appended(buffer: Seq<u8>, line: Seq<u8>) -> Seq<u8> {
    if buffer.len() + line.len() <= LOG_BUFFER_SIZE {
        buffer + line
    } else if line.len() >= LOG_TRUNCATE_SIZE {
        line.subrange(line.len() - LOG_TRUNCATE_SIZE, line.len() as int)
    } else {
        buffer.subrange(buffer.len() + line.len() - LOG_TRUNCATE_SIZE, buffer.len() as int) + line
    }
}

/// The log text, at most `LOG_BUFFER_SIZE` bytes.
pub struct LogBuffer {
    bytes: Vec<u8>,
}

impl LogBuffer {
    pub closed spec fn text(&self) -> Seq<u8> {
        self.bytes@
    }

    pub open spec fn wf(&self) -> bool {
        self.text().len() <= LOG_BUFFER_SIZE
    }

    /// An empty log.
    pub fn new() -> (r: LogBuffer)
        ensures
            r.wf(),
            r.text() == Seq::<u8>::empty(),
    {
        LogBuffer { bytes: Vec::new() }
    }

    /// Appends one formatted line.
    pub fn push_line(&mut self, line: &[u8])
        requires
            old(self).wf(),
        ensures
            final(self).wf(),
            final(self).text() == appended(old(self).text(), line@),
    {
        let ghost before = self.bytes@;
        let blen = self.bytes.len();
        let llen = line.len();
        let mut next: Vec<u8> = Vec::new();
        let (src_start, from_line_start): (usize, usize) = if blen <= LOG_BUFFER_SIZE && llen
            <= LOG_BUFFER_SIZE - blen {
            (0, 0)
        } else if llen >= LOG_TRUNCATE_SIZE {
            (blen, llen - LOG_TRUNCATE_SIZE)
        } else {
            (blen + llen - LOG_TRUNCATE_SIZE, 0)
        };
        let mut i: usize = src_start;
        while i < blen
            invariant
                src_start <= i <= blen,
                blen == self.bytes@.len(),
                next@ == self.bytes@.subrange(src_start as int, i as int),
            decreases blen - i,
        {
            next.push(self.bytes[i]);
            i = i + 1;
        }
        let mut j: usize = from_line_start;
        while j < llen
            invariant
                from_line_start <= j <= llen,
                llen == line@.len(),
                next@ == self.bytes@.subrange(src_start as int, blen as int) + line@.subrange(
                    from_line_start as int,
                    j as int,
                ),
            decreases llen - j,
        {
            next.push(line[j]);
            j = j + 1;
        }
        proof {
            assert(line@.subrange(0, llen as int) =~= line@);
            assert(before.subrange(0, blen as int) =~= before);
            assert(before.subrange(blen as int, blen as int) =~= Seq::<u8>::empty());
            assert(next@ =~= appended(before, line@));
        }
        self.bytes = next;
    }

    /// The log text.
    pub fn contents(&self) -> (r: &[u8])
        ensures
            r@ == self.text(),
    {
        self.bytes.as_slice()
    }
}

} // verus!
