//! An in-memory stream of 32-bit integers with a read cursor and a size limit.

use vstd::prelude::*;

verus! {

/// Why a stream operation failed.
#[derive(Clone, Copy, Debug, PartialEq, Eq, Structural)]
pub enum StreamError {
    /// A read was attempted with no unread integer left.
    EndOfStream,
    /// A write was attempted on a stream that already holds as many integers as its limit.
    Full,
}

/// The mathematical state of a [`Stream`].
pub struct StreamView {
    /// Every integer written so far, oldest first.
    pub ints: Seq<i32>,
    /// How many of them have been read.
    pub cursor: nat,
    /// The most integers the stream accepts.
    pub limit: nat,
}

impl StreamView {
    /// The cursor is inside the data and the data is inside the limit.
    pub open spec fn wf(self) -> bool {
        self.cursor <= self.ints.len() <= self.limit
    }

    /// The integers that have not been read yet, next one first.
    pub open spec fn unread(self) -> Seq<i32> {
        self.ints.skip(self.cursor as int)
    }

    /// How many more integers can be written.
    pub open spec fn room(self) -> nat {
        (self.limit - self.ints.len()) as nat
    }

    /// The state after `count` more integers have been read.
    pub open spec fn advanced(self, count: nat) -> StreamView {
        StreamView { cursor: self.cursor + count, ..self }
    }

    /// The state after `more` has been appended.
    pub open spec fn extended(self, more: Seq<i32>) -> StreamView {
        StreamView { ints: self.ints + more, ..self }
    }
}

/// A sequence of integers that is appended to at its end and read from a cursor.
pub struct Stream {
    ints: Vec<i32>,
    cursor: usize,
    limit: usize,
}

impl View for Stream {
    type V = StreamView;

    closed spec fn view(&self) -> StreamView {
        StreamView { ints: self.ints@, cursor: self.cursor as nat, limit: self.limit as nat }
    }
}

impl Stream {
    /// An empty stream that accepts as many integers as memory holds.
    pub fn new() -> (stream: Stream)
        ensures
            stream@ == (StreamView { ints: Seq::empty(), cursor: 0, limit: usize::MAX as nat }),
    {
        Stream { ints: Vec::new(), cursor: 0, limit: usize::MAX }
    }

    /// An empty stream that accepts at most `limit` integers.
    pub fn with_limit(limit: usize) -> (stream: Stream)
        ensures
            stream@ == (StreamView { ints: Seq::empty(), cursor: 0, limit: limit as nat }),
    {
        Stream { ints: Vec::new(), cursor: 0, limit }
    }

    /// A stream that holds `ints`, none of them read yet.
    pub fn from_ints(ints: Vec<i32>) -> (stream: Stream)
        ensures
            stream@ == (StreamView { ints: ints@, cursor: 0, limit: usize::MAX as nat }),
    {
        Stream { ints, cursor: 0, limit: usize::MAX }
    }

    /// Appends `value`. A stream that is at its limit refuses and stays as it was.
    pub fn write_int(&mut self, value: i32) -> (result: Result<(), StreamError>)
        requires
            old(self)@.wf(),
        ensures
            old(self)@.room() > 0 ==> result == Ok::<(), StreamError>(()) && final(self)@ == old(
                self,
            )@.extended(seq![value]),
            old(self)@.room() == 0 ==> result == Err::<(), StreamError>(StreamError::Full)
                && final(self)@ == old(self)@,
    {
        if self.ints.len() < self.limit {
            self.ints.push(value);
            proof {
                assert(self.ints@ =~= old(self).ints@ + seq![value]);
            }
            Ok(())
        } else {
            Err(StreamError::Full)
        }
    }

    /// Reads the next integer. A stream with nothing unread refuses and stays as it was.
    pub fn read_int(&mut self) -> (result: Result<i32, StreamError>)
        requires
            old(self)@.wf(),
        ensures
            old(self)@.unread().len() > 0 ==> result == Ok::<i32, StreamError>(
                old(self)@.unread()[0],
            ) && final(self)@ == old(self)@.advanced(1),
            old(self)@.unread().len() == 0 ==> result == Err::<i32, StreamError>(
                StreamError::EndOfStream,
            ) && final(self)@ == old(self)@,
    {
        if self.cursor < self.ints.len() {
            let value: i32 = self.ints[self.cursor];
            self.cursor = self.cursor + 1;
            Ok(value)
        } else {
            Err(StreamError::EndOfStream)
        }
    }

    /// How many integers have been written so far.
    pub fn len(&self) -> (n: usize)
        ensures
            n == self@.ints.len(),
    {
        self.ints.len()
    }

    /// How many integers have been read so far.
    pub fn position(&self) -> (n: usize)
        ensures
            n == self@.cursor,
    {
        self.cursor
    }

    /// The most integers the stream accepts.
    pub fn limit(&self) -> (n: usize)
        ensures
            n == self@.limit,
    {
        self.limit
    }

    /// Every integer written so far, oldest first.
    pub fn as_ints(&self) -> (ints: &Vec<i32>)
        ensures
            ints@ == self@.ints,
    {
        &self.ints
    }
}

} // verus!
