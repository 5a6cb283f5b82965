use vstd::prelude::*;

use crate::vst3::error::{Error, error_from_code, RESULT_OK};

verus! {

/// What to do after one call of a host stream's `read` or `write`.
#[derive(Clone, Copy, Debug, PartialEq, Eq, Structural)]
pub enum StreamStep {
    /// Call again: fewer bytes than the buffer holds have been moved so far.
    Continue,
    /// The transfer is over, with the given total.
    Done(usize),
    /// The host reported an error.
    Failed(Error),
}

/// A transfer of a buffer through a host's `IBStream`, called repeatedly until the
/// buffer is covered, the host moves no more bytes, or it reports an error. Each call
/// moves the bytes still missing, into (or out of) the buffer right after those already
/// moved, so the bytes moved are the buffer's first `total` bytes, in order.
pub struct Stream {
    len: usize,
    total: usize,
}

impl Stream {
    /// The length of the buffer.
    pub closed spec fn len(&self) -> usize {
        self.len
    }

    /// Bytes moved so far.
    pub closed spec fn total(&self) -> usize {
        self.total
    }

    pub fn new(len: usize) -> (stream: Self)
        ensures
            stream.wf(),
            stream.len() == len,
            stream.total() == 0,
    {
        Stream { len, total: 0 }
    }

    /// Bytes moved never exceed the buffer.
    pub open spec fn wf(&self) -> bool {
        self.total() <= self.len()
    }

    /// Where the next call starts in the buffer and how many bytes it asks for, while
    /// bytes are missing.
    pub fn request(&self) -> (request: Option<(usize, usize)>)
        requires
            self.wf(),
        ensures
            self.total() < self.len() ==> request == Some(
                (self.total(), (self.len() - self.total()) as usize),
            ),
            self.total() >= self.len() ==> request is None,
    {
        if self.total < self.len {
            Some((self.total, self.len - self.total))
        } else {
            None
        }
    }

    /// Whether another call is due.
    pub fn wants_more(&self) -> (more: bool)
        ensures
            more == (self.total() < self.len()),
    {
        self.total < self.len
    }

    /// Takes in one call's outcome: `moved` bytes and the `result` code. A call that
    /// moved nothing ends the transfer whatever its code; otherwise a code other than
    /// success fails it.
    pub fn record(&mut self, moved: i32, result: i32) -> (step: StreamStep)
        requires
            old(self).total() < old(self).len(),
            moved > 0 && result != RESULT_OK ==> error_from_code(result) is Some,
            moved <= old(self).len() - old(self).total(),
        ensures
            final(self).len() == old(self).len(),
            final(self).wf(),
            moved <= 0 ==> step == StreamStep::Done(old(self).total()) && final(self).total()
                == old(self).total(),
            moved > 0 && result != RESULT_OK ==> step == StreamStep::Failed(
                error_from_code(result).unwrap(),
            ) && final(self).total() == old(self).total(),
            moved > 0 && result == RESULT_OK ==> {
                &&& final(self).total() == old(self).total() + moved
                &&& step == if final(self).total() < final(self).len() {
                    StreamStep::Continue
                } else {
                    StreamStep::Done(final(self).total())
                }
            },
    {
        if moved <= 0 {
            return StreamStep::Done(self.total);
        }
        if result == RESULT_OK {
            self.total = self.total + moved as usize;
            if self.total < self.len {
                StreamStep::Continue
            } else {
                StreamStep::Done(self.total)
            }
        } else {
            match Error::from_i32(result) {
                Some(error) => StreamStep::Failed(error),
                None => StreamStep::Failed(Error::InternalError),
            }
        }
    }

    /// Takes in one `read` call's outcome, where the host put the `moved` bytes it read at
    /// the start of `chunk`: those bytes are copied into `buf` right after the bytes
    /// already read, and the step is that of [`Stream::record`]. So the first `total`
    /// bytes of `buf` are always the bytes the host gave, in the order it gave them.
    pub fn record_read(&mut self, buf: &mut [u8], chunk: &[u8], moved: i32, result: i32) -> (step: StreamStep)
        requires
            old(self).total() < old(self).len(),
            old(buf)@.len() == old(self).len(),
            moved > 0 && result != RESULT_OK ==> error_from_code(result) is Some,
            moved <= old(self).len() - old(self).total(),
            moved <= chunk@.len(),
        ensures
            final(self).len() == old(self).len(),
            final(self).wf(),
            final(buf)@.len() == old(buf)@.len(),
            moved <= 0 ==> step == StreamStep::Done(old(self).total()) && final(self).total()
                == old(self).total() && final(buf)@ == old(buf)@,
            moved > 0 && result != RESULT_OK ==> step == StreamStep::Failed(
                error_from_code(result).unwrap(),
            ) && final(self).total() == old(self).total() && final(buf)@ == old(buf)@,
            moved > 0 && result == RESULT_OK ==> {
                &&& final(self).total() == old(self).total() + moved
                &&& step == if final(self).total() < final(self).len() {
                    StreamStep::Continue
                } else {
                    StreamStep::Done(final(self).total())
                }
                &&& final(buf)@ == old(buf)@.subrange(0, old(self).total() as int) + chunk@.subrange(
                    0,
                    moved as int,
                ) + old(buf)@.subrange(old(self).total() + moved, old(self).len() as int)
            },
            final(buf)@.subrange(0, final(self).total() as int) == old(buf)@.subrange(
                0,
                old(self).total() as int,
            ) + if moved > 0 && result == RESULT_OK {
                chunk@.subrange(0, moved as int)
            } else {
                Seq::<u8>::empty()
            },
    {
        let start = self.total;
        let step = self.record(moved, result);
        if moved > 0 && result == RESULT_OK {
            let n = moved as usize;
            let mut i: usize = 0;
            while i < n
                invariant
                    i <= n,
                    n == moved,
                    n <= chunk@.len(),
                    start + n <= old(buf)@.len(),
                    start + n <= self.len(),
                    buf@.len() == old(buf)@.len(),
                    forall|j: int|
                        0 <= j < buf@.len() ==> #[trigger] buf@[j] == if start <= j < start + i {
                            chunk@[j - start]
                        } else {
                            old(buf)@[j]
                        },
                decreases n - i,
            {
                buf[start + i] = chunk[i];
                i = i + 1;
            }
            assert(buf@ =~= old(buf)@.subrange(0, start as int) + chunk@.subrange(0, moved as int)
                + old(buf)@.subrange(start + moved, old(buf)@.len() as int));
            assert(buf@.subrange(0, self.total as int) =~= old(buf)@.subrange(0, start as int)
                + chunk@.subrange(0, moved as int));
        } else {
            assert(old(buf)@.subrange(0, start as int) + Seq::<u8>::empty() =~= old(buf)@.subrange(
                0,
                start as int,
            ));
        }
        step
    }
}

} // verus!
