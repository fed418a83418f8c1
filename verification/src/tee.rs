use vstd::prelude::*;

verus! {

/// What a drain captured of one stream: its bytes, in the order in which the
/// child wrote them.
pub type CapturedStream = Vec<u8>;

/// Appends `chunk` to `buffer`, byte for byte.
pub fn append_bytes(buffer: &mut Vec<u8>, chunk: &[u8])
    ensures
        final(buffer)@ == old(buffer)@ + chunk@,
{
    let ghost before = buffer@;
    let mut i: usize = 0;
    while i < chunk.len()
        invariant
            i <= chunk@.len(),
            buffer@ == before + chunk@.subrange(0, i as int),
        decreases chunk@.len() - i,
    {
        buffer.push(chunk[i]);
        i += 1;
    }
}

/// A sink that duplicates what is written to it: every chunk is kept in an
/// in-memory buffer and handed on, unchanged, for the external live sink.
///
/// The sink is consumed by `into_buffer`, so the buffer is given out once.
pub struct TeeSink {
    buffer: Vec<u8>,
}

impl TeeSink {
    /// The bytes accumulated so far, in the order they were written.
    pub closed spec fn captured(&self) -> Seq<u8> {
        self.buffer@
    }

    /// A sink that has captured nothing yet.
    pub fn new() -> (tee: TeeSink)
        ensures
            tee.captured() == Seq::<u8>::empty(),
    {
        TeeSink { buffer: Vec::new() }
    }

    /// Appends `chunk` to the buffer and returns the bytes that are due to the
    /// external sink for this write: `chunk` itself, whole and unchanged.
    pub fn write<'a>(&mut self, chunk: &'a [u8]) -> (echo: &'a [u8])
        ensures
            final(self).captured() == old(self).captured() + chunk@,
            echo@ == chunk@,
    {
        append_bytes(&mut self.buffer, chunk);
        chunk
    }

    /// The number of bytes captured so far.
    pub fn len(&self) -> (n: usize)
        ensures
            n == self.captured().len(),
    {
        self.buffer.len()
    }

    /// Ends the sink's life and gives out everything it captured.
    pub fn into_buffer(self) -> (bytes: CapturedStream)
        ensures
            bytes@ == self.captured(),
    {
        self.buffer
    }
}

} // verus!
