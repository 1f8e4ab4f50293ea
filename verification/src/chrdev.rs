//! A fixed block of memory read and written as a byte-stream file.

use vstd::prelude::*;

verus! {

/// Size of the memory block in bytes.
pub const GLOBALMEM_SIZE: usize = 0x1000;

/// Why a request on the file failed.
#[derive(Clone, Copy, Debug, PartialEq, Eq, Structural)]
pub enum ChrdevError {
    /// The offset lies outside the memory block.
    InvalidArgument,
}

/// The number of bytes that a transfer of `want` bytes at `offset` moves:
/// what is left of the block from `offset` on, or `want` if that is less.
pub open spec fn transfer_len(want: int, offset: int) -> int {
    if want <= GLOBALMEM_SIZE - offset {
        want
    } else {
        GLOBALMEM_SIZE - offset
    }
}

/// The number of bytes that a transfer of `want` bytes at `offset` moves,
/// or `None` when the offset lies at or past the end of the block.
pub fn transfer_size(want: usize, offset: u64) -> (r: Option<usize>)
    ensures
        offset >= GLOBALMEM_SIZE ==> r.is_none(),
        offset < GLOBALMEM_SIZE ==> r == Some(transfer_len(want as int, offset as int) as usize),
{
    if offset >= GLOBALMEM_SIZE as u64 {
        return None;
    }
    let remaining: usize = GLOBALMEM_SIZE - offset as usize;
    if want <= remaining {
        Some(want)
    } else {
        Some(remaining)
    }
}

/// The file: a view on the one memory block behind it.
pub struct RustFile {
    inner: Vec<u8>,
}

impl View for RustFile {
    type V = Seq<u8>;

    closed spec fn view(&self) -> Seq<u8> {
        self.inner@
    }
}

impl RustFile {
    /// What holds of every file: the block has its full size.
    pub open spec fn wf(&self) -> bool {
        self@.len() == GLOBALMEM_SIZE
    }

    /// A file on a block of zeros.
    pub fn open() -> (f: RustFile)
        ensures
            f.wf(),
            forall|i: int| 0 <= i < GLOBALMEM_SIZE ==> #[trigger] f@[i] == 0,
    {
        let mut inner: Vec<u8> = Vec::new();
        let mut i: usize = 0;
        while i < GLOBALMEM_SIZE
            invariant
                i <= GLOBALMEM_SIZE,
                inner@.len() == i,
                forall|k: int| 0 <= k < i ==> #[trigger] inner@[k] == 0,
            decreases GLOBALMEM_SIZE - i,
        {
            inner.push(0);
            i = i + 1;
        }
        RustFile { inner }
    }

    /// Writes `data` into the block at `offset` and returns the number of
    /// bytes written: all of `data`, or as much as fits before the end of
    /// the block. An offset at or past the end is an error and writes
    /// nothing.
    pub fn write(&mut self, data: &[u8], offset: u64) -> (r: Result<usize, ChrdevError>)
        requires
            old(self).wf(),
        ensures
            final(self).wf(),
            offset >= GLOBALMEM_SIZE ==> r == Err::<usize, ChrdevError>(
                ChrdevError::InvalidArgument,
            ) && final(self)@ == old(self)@,
            offset < GLOBALMEM_SIZE ==> {
                let n = transfer_len(data@.len() as int, offset as int);
                &&& r == Ok::<usize, ChrdevError>(n as usize)
                &&& final(self)@ == old(self)@.take(offset as int) + data@.take(n) + old(
                    self,
                )@.skip(offset + n)
            },
    {
        let data_to_write: usize = match transfer_size(data.len(), offset) {
            Some(n) => n,
            None => {
                return Err(ChrdevError::InvalidArgument);
            },
        };
        let at: usize = offset as usize;
        let mut i: usize = 0;
        while i < data_to_write
            invariant
                i <= data_to_write,
                at + data_to_write <= GLOBALMEM_SIZE,
                data_to_write <= data@.len(),
                self.wf(),
                old(self).wf(),
                self@ == old(self)@.take(at as int) + data@.take(i as int) + old(self)@.skip(
                    at + i,
                ),
            decreases data_to_write - i,
        {
            let ghost prev = self@;
            self.inner[at + i] = data[i];
            assert(self@ == prev.update(at + i, data@[i as int]));
            i = i + 1;
            assert(self@ =~= old(self)@.take(at as int) + data@.take(i as int) + old(self)@.skip(
                at + i,
            ));
        }
        Ok(data_to_write)
    }

    /// Reads up to `want` bytes from the block at `offset`: as many as are
    /// left before the end of the block. An offset at or past the end reads
    /// nothing, which is the end of the file.
    pub fn read(&self, want: usize, offset: u64) -> (out: Vec<u8>)
        requires
            self.wf(),
        ensures
            offset >= GLOBALMEM_SIZE ==> out@.len() == 0,
            offset < GLOBALMEM_SIZE ==> out@ == self@.subrange(
                offset as int,
                offset + transfer_len(want as int, offset as int),
            ),
    {
        let mut out: Vec<u8> = Vec::new();
        let data_to_read: usize = match transfer_size(want, offset) {
            Some(n) => n,
            None => {
                return out;
            },
        };
        let at: usize = offset as usize;
        let mut i: usize = 0;
        while i < data_to_read
            invariant
                i <= data_to_read,
                at + data_to_read <= GLOBALMEM_SIZE,
                self.wf(),
                out@ == self@.subrange(at as int, at + i),
            decreases data_to_read - i,
        {
            out.push(self.inner[at + i]);
            i = i + 1;
            assert(out@ =~= self@.subrange(at as int, at + i));
        }
        out
    }
}

/// What was written is what is read back from the same place.
pub proof fn lemma_read_after_write(before: Seq<u8>, data: Seq<u8>, offset: int)
    requires
        before.len() == GLOBALMEM_SIZE,
        0 <= offset < GLOBALMEM_SIZE,
    ensures
        ({
            let n = transfer_len(data.len() as int, offset);
            let after = before.take(offset) + data.take(n) + before.skip(offset + n);
            &&& after.len() == GLOBALMEM_SIZE
            &&& after.subrange(offset, offset + n) == data.take(n)
        }),
{
    let n = transfer_len(data.len() as int, offset);
    let after = before.take(offset) + data.take(n) + before.skip(offset + n);
    assert(after.subrange(offset, offset + n) =~= data.take(n));
}

} // verus!
