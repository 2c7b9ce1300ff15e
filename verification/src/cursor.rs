use vstd::prelude::*;

verus! {

/// One queueable track. Identity is opaque to the core: the reference is
/// only ever handed back out to request a remote enqueue operation.
#[derive(PartialEq, Eq, Debug)]
pub struct Track {
    /// The remote identifier used to enqueue the track on a device.
    pub id: String,
}

/// Raised by [`TrackQueueCursor::next`] when the buffer is empty. It is
/// not a user-facing error: it is the internal signal to refill the
/// buffer from the fallback playlist.
#[derive(Clone, Copy, PartialEq, Eq, Structural, Debug)]
pub enum QueueError {
    Exhausted,
}

/// An ordered, in-memory buffer of tracks from the resolved playlist.
/// Consumption is back-to-front: `next` pops from the end, so playback
/// order is the reverse of the listing order the buffer was filled with.
/// A refill replaces the whole buffer; repeats across refills are
/// possible and acceptable.
pub struct TrackQueueCursor {
    buf: Vec<Track>,
}

impl TrackQueueCursor {
    /// The tracks still to be played, in buffer order (next to play last).
    pub closed spec fn tracks(&self) -> Seq<Track> {
        self.buf@
    }

    pub fn new() -> (cursor: TrackQueueCursor)
        ensures
            cursor.tracks() == Seq::<Track>::empty(),
    {
        TrackQueueCursor { buf: Vec::new() }
    }

    /// Remove and return the last element of the held sequence; signal
    /// `Exhausted` (leaving the buffer untouched) when there is none.
    pub fn next(&mut self) -> (r: Result<Track, QueueError>)
        ensures
            old(self).tracks().len() == 0 ==> {
                &&& r == Err::<Track, QueueError>(QueueError::Exhausted)
                &&& final(self).tracks() == old(self).tracks()
            },
            old(self).tracks().len() > 0 ==> {
                &&& r == Ok::<Track, QueueError>(old(self).tracks().last())
                &&& final(self).tracks() == old(self).tracks().drop_last()
            },
    {
        match self.buf.pop() {
            Some(track) => Ok(track),
            None => Err(QueueError::Exhausted),
        }
    }

    /// Replace the entire buffer with a fresh listing of the playlist.
    pub fn refill(&mut self, tracks: Vec<Track>)
        ensures
            final(self).tracks() == tracks@,
    {
        self.buf = tracks;
    }

    pub fn is_empty(&self) -> (r: bool)
        ensures
            r == (self.tracks().len() == 0),
    {
        self.buf.len() == 0
    }

    pub fn len(&self) -> (n: usize)
        ensures
            n == self.tracks().len(),
    {
        self.buf.len()
    }
}

} // verus!
