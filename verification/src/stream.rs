//! The streaming codec: a file goes out as the chunks in which it was read,
//! one after the other, and a failed read ends the stream as a failure.

use vstd::prelude::*;

verus! {

/// What one read of the file handle gave.
#[derive(Debug, Clone, PartialEq, Eq)]
pub enum ReadEvent {
    /// These bytes. A read of no bytes is the end of the file.
    Data(Vec<u8>),
    /// The end of the file.
    End,
    /// An I/O error.
    Failed,
}

/// A read with its bytes as a sequence.
pub enum ReadEventView {
    Data(Seq<u8>),
    End,
    Failed,
}

impl View for ReadEvent {
    type V = ReadEventView;

    open spec fn view(&self) -> ReadEventView {
        match self {
            ReadEvent::Data(bytes) => ReadEventView::Data(bytes@),
            ReadEvent::End => ReadEventView::End,
            ReadEvent::Failed => ReadEventView::Failed,
        }
    }
}

/// What the stream yields for a read.
#[derive(Debug, Clone, PartialEq, Eq)]
pub enum StreamItem {
    /// A chunk of the body.
    Chunk(Vec<u8>),
    /// Nothing more: the stream has ended.
    Finished,
    /// The read error, as an I/O failure of the stream.
    IoFailure,
}

/// An item with its bytes as a sequence.
pub enum StreamItemView {
    Chunk(Seq<u8>),
    Finished,
    IoFailure,
}

impl View for StreamItem {
    type V = StreamItemView;

    open spec fn view(&self) -> StreamItemView {
        match self {
            StreamItem::Chunk(bytes) => StreamItemView::Chunk(bytes@),
            StreamItem::Finished => StreamItemView::Finished,
            StreamItem::IoFailure => StreamItemView::IoFailure,
        }
    }
}

/// Where a stream stands.
#[derive(Debug, Clone, Copy, PartialEq, Eq, Structural)]
pub enum StreamState {
    /// Chunks may still come.
    Open,
    /// The file was streamed to its end.
    Done,
    /// A read failed.
    Broken,
}

/// The state after a read, and what the stream yields for it. An open
/// stream hands each chunk on as it was read; the end of the file or a
/// failed read closes it, and a closed stream yields nothing more.
pub open spec fn step_spec(state: StreamState, event: ReadEventView) -> (
    StreamState,
    StreamItemView,
) {
    match state {
        StreamState::Open => match event {
            ReadEventView::Data(bytes) => if bytes.len() == 0 {
                (StreamState::Done, StreamItemView::Finished)
            } else {
                (StreamState::Open, StreamItemView::Chunk(bytes))
            },
            ReadEventView::End => (StreamState::Done, StreamItemView::Finished),
            ReadEventView::Failed => (StreamState::Broken, StreamItemView::IoFailure),
        },
        _ => (state, StreamItemView::Finished),
    }
}

/// The state after a run of reads.
pub open spec fn run_state(state: StreamState, events: Seq<ReadEventView>) -> StreamState
    decreases events.len(),
{
    if events.len() == 0 {
        state
    } else {
        step_spec(run_state(state, events.drop_last()), events.last()).0
    }
}

/// The bytes of the chunks that the stream yields over a run of reads, one
/// behind the other.
pub open spec fn run_bytes(state: StreamState, events: Seq<ReadEventView>) -> Seq<u8>
    decreases events.len(),
{
    if events.len() == 0 {
        Seq::empty()
    } else {
        let before = run_bytes(state, events.drop_last());
        match step_spec(run_state(state, events.drop_last()), events.last()).1 {
            StreamItemView::Chunk(bytes) => before + bytes,
            _ => before,
        }
    }
}

/// Whether the stream yields a failure somewhere in a run of reads.
pub open spec fn run_fails(state: StreamState, events: Seq<ReadEventView>) -> bool
    decreases events.len(),
{
    if events.len() == 0 {
        false
    } else {
        run_fails(state, events.drop_last()) || step_spec(
            run_state(state, events.drop_last()),
            events.last(),
        ).1 == StreamItemView::IoFailure
    }
}

/// The bytes of a list of reads, one behind the other.
pub open spec fn concat(reads: Seq<Seq<u8>>) -> Seq<u8>
    decreases reads.len(),
{
    if reads.len() == 0 {
        Seq::empty()
    } else {
        concat(reads.drop_last()) + reads.last()
    }
}

/// The reads of a file as events: each read as data, in order.
pub open spec fn data_events(reads: Seq<Seq<u8>>) -> Seq<ReadEventView> {
    reads.map_values(|bytes: Seq<u8>| ReadEventView::Data(bytes))
}

/// The streaming codec over one file handle. It keeps no bytes: a chunk
/// goes out as it came in.
#[derive(Debug, Clone, Copy, PartialEq, Eq, Structural)]
pub struct StreamingCodec {
    pub state: StreamState,
}

impl StreamingCodec {
    /// A codec over a fresh handle.
    pub fn new() -> (r: StreamingCodec)
        ensures
            r.state == StreamState::Open,
    {
        StreamingCodec { state: StreamState::Open }
    }

    /// Takes what a read gave, and yields the next item of the stream.
    pub fn on_read(&mut self, event: ReadEvent) -> (r: StreamItem)
        ensures
            (final(self).state, r@) == step_spec(old(self).state, event@),
    {
        match self.state {
            StreamState::Open => match event {
                ReadEvent::Data(bytes) => {
                    if bytes.len() == 0 {
                        self.state = StreamState::Done;
                        StreamItem::Finished
                    } else {
                        StreamItem::Chunk(bytes)
                    }
                },
                ReadEvent::End => {
                    self.state = StreamState::Done;
                    StreamItem::Finished
                },
                ReadEvent::Failed => {
                    self.state = StreamState::Broken;
                    StreamItem::IoFailure
                },
            },
            _ => StreamItem::Finished,
        }
    }
}

/// While every read gives bytes the stream stays open, yields no failure,
/// and the chunks that went out are the bytes read, in order, each once.
pub proof fn lemma_stream_keeps_bytes(reads: Seq<Seq<u8>>)
    requires
        forall|i: int| 0 <= i < reads.len() ==> (#[trigger] reads[i]).len() > 0,
    ensures
        run_state(StreamState::Open, data_events(reads)) == StreamState::Open,
        run_bytes(StreamState::Open, data_events(reads)) == concat(reads),
        !run_fails(StreamState::Open, data_events(reads)),
    decreases reads.len(),
{
    if reads.len() > 0 {
        let events = data_events(reads);
        lemma_stream_keeps_bytes(reads.drop_last());
        assert(events.drop_last() =~= data_events(reads.drop_last()));
    }
}

/// Streaming a file and putting the chunks together again gives the file:
/// for reads that give the bytes of the file piece by piece and then its
/// end, the stream yields exactly those bytes, in order, ends as done and
/// never fails. This holds for the empty file too.
pub proof fn lemma_stream_round_trip(reads: Seq<Seq<u8>>)
    requires
        forall|i: int| 0 <= i < reads.len() ==> (#[trigger] reads[i]).len() > 0,
    ensures
        ({
            let events = data_events(reads).push(ReadEventView::End);
            &&& run_bytes(StreamState::Open, events) == concat(reads)
            &&& run_state(StreamState::Open, events) == StreamState::Done
            &&& !run_fails(StreamState::Open, events)
        }),
{
    let events = data_events(reads).push(ReadEventView::End);
    lemma_stream_keeps_bytes(reads);
    assert(events.drop_last() =~= data_events(reads));
}

/// A closed stream does not start again: after the end of the file, or
/// after a failed read, no read makes it yield another chunk.
pub proof fn lemma_closed_stream_stays_closed(state: StreamState, events: Seq<ReadEventView>)
    requires
        state != StreamState::Open,
    ensures
        run_state(state, events) == state,
        run_bytes(state, events) == Seq::<u8>::empty(),
        !run_fails(state, events),
    decreases events.len(),
{
    if events.len() > 0 {
        lemma_closed_stream_stays_closed(state, events.drop_last());
    }
}

} // verus!
