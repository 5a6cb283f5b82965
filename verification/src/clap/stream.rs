use vstd::prelude::*;

verus! {

/// What to do after one call of a CLAP stream's `read` or `write` callback.
#[derive(Clone, Copy, Debug, PartialEq, Eq, Structural)]
pub enum TransferStep {
    /// Call again for the bytes still missing.
    Continue,
    /// The transfer is over, with the given number of bytes moved.
    Done(usize),
    /// The host reported an error (a negative count).
    Failed,
}

/// A transfer of a buffer through a CLAP `clap_istream` or `clap_ostream`: each call asks
/// for the bytes not yet moved, until the buffer is covered, the host moves nothing,
/// or it reports an error.
pub struct Transfer {
    len: usize,
    index: usize,
}

impl Transfer {
    pub closed spec fn len(&self) -> usize {
        self.len
    }

    /// Bytes moved so far.
    pub closed spec fn index(&self) -> usize {
        self.index
    }

    pub fn new(len: usize) -> (transfer: Self)
        ensures
            transfer.len() == len,
            transfer.index() == 0,
    {
        Transfer { len, index: 0 }
    }

    /// Where the next call starts and how many bytes it asks for, while bytes are missing.
    pub fn request(&self) -> (request: Option<(usize, usize)>)
        ensures
            self.index() < self.len() ==> request == Some(
                (self.index(), (self.len() - self.index()) as usize),
            ),
            self.index() >= self.len() ==> request is None,
    {
        if self.index < self.len {
            Some((self.index, self.len - self.index))
        } else {
            None
        }
    }

    /// Takes in what one call returned: a byte count, or a negative number for an error.
    pub fn record(&mut self, result: i64) -> (step: TransferStep)
        requires
            old(self).index() < old(self).len(),
            old(self).index() + result <= usize::MAX,
        ensures
            final(self).len() == old(self).len(),
            result < 0 ==> step == TransferStep::Failed && final(self).index() == old(self).index(),
            result == 0 ==> step == TransferStep::Done(old(self).index()) && final(self).index()
                == old(self).index(),
            result > 0 ==> {
                &&& final(self).index() == old(self).index() + result
                &&& step == if final(self).index() < final(self).len() {
                    TransferStep::Continue
                } else {
                    TransferStep::Done(final(self).index())
                }
            },
    {
        if result < 0 {
            return TransferStep::Failed;
        }
        if result == 0 {
            return TransferStep::Done(self.index);
        }
        self.index = self.index + result as usize;
        if self.index < self.len {
            TransferStep::Continue
        } else {
            TransferStep::Done(self.index)
        }
    }
}

} // verus!
