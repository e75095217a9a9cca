//! Byte counters for readers and writers whose progress is shown.

use vstd::prelude::*;

verus! {

/// A reader together with the number of bytes read through it so far.
pub struct ReaderProgress<R> {
    pub inner: R,
    pub curr: usize,
}

impl<R> ReaderProgress<R> {
    /// Wraps a reader through which nothing has been read yet.
    pub fn new(r: R) -> (progress: Self)
        ensures
            progress.inner == r,
            progress.curr == 0,
    {
        ReaderProgress { inner: r, curr: 0 }
    }

    /// Counts `n` more bytes as read and gives the new total.
    pub fn advance(&mut self, n: usize) -> (curr: usize)
        requires
            old(self).curr + n <= usize::MAX,
        ensures
            curr == old(self).curr + n,
            final(self).curr == curr,
            final(self).inner == old(self).inner,
    {
        self.curr = self.curr + n;
        self.curr
    }

    /// The reader.
    pub fn get_ref(&self) -> (r: &R)
        ensures
            *r == self.inner,
    {
        &self.inner
    }

    /// The reader, to read through. The count stays as it is.
    pub fn get_mut(&mut self) -> (r: &mut R)
        ensures
            *r == old(self).inner,
            final(self).inner == *final(r),
            final(self).curr == old(self).curr,
    {
        &mut self.inner
    }
}

/// A writer together with the number of bytes written through it so far.
pub struct WriterProgress<W> {
    pub inner: W,
    pub curr: usize,
}

impl<W> WriterProgress<W> {
    /// Wraps a writer through which nothing has been written yet.
    pub fn new(w: W) -> (progress: Self)
        ensures
            progress.inner == w,
            progress.curr == 0,
    {
        WriterProgress { inner: w, curr: 0 }
    }

    /// Counts `n` more bytes as written and gives the new total.
    pub fn advance(&mut self, n: usize) -> (curr: usize)
        requires
            old(self).curr + n <= usize::MAX,
        ensures
            curr == old(self).curr + n,
            final(self).curr == curr,
            final(self).inner == old(self).inner,
    {
        self.curr = self.curr + n;
        self.curr
    }
}

} // verus!
