use vstd::prelude::*;

verus! {

/// What happens to a finished track.
#[derive(Debug, Clone, Copy, PartialEq, Eq, Structural)]
pub enum QueueMode {
    /// The finished track is dropped and the next one starts.
    Normal,
    /// The finished track goes to the back of the queue before the next one starts.
    Loop,
}

impl Default for QueueMode {
    fn default() -> (r: QueueMode)
        ensures
            r == QueueMode::Normal,
    {
        QueueMode::Normal
    }
}

/// Thumbnail shown for a track whose lookup gave none.
pub const PLACEHOLDER_THUMBNAIL: &'static str = "https://media.istockphoto.com/id/1147544809/vector/no-thumbnail-image-vector-graphic.jpg?s=170667a&w=0&k=20&c=v9QBkaN6fXxy1b-wsTQ6QhHUVGLo8JMMxhUBcWzOH0A=";

/// Description of a playable track, fixed once built.
#[derive(Debug, Clone)]
pub struct TrackMetadata {
    pub title: String,
    pub channel: String,
    /// Source link; empty when it could not be resolved.
    pub url: String,
    pub thumbnail: String,
    /// Length in milliseconds; zero when unknown.
    pub duration_ms: u64,
    /// Identifier of the user who asked for the track.
    pub requester: u64,
}

/// The text of `v`, or `fallback` when there is none.
pub open spec fn text_or(v: Option<String>, fallback: Seq<char>) -> Seq<char> {
    match v {
        Some(s) => s@,
        None => fallback,
    }
}

fn string_or(v: Option<String>, fallback: &str) -> (r: String)
    ensures
        r@ == text_or(v, fallback@),
{
    match v {
        Some(s) => s,
        None => fallback.to_owned(),
    }
}

impl TrackMetadata {
    /// Metadata from what a lookup resolved, with defaults for what it left
    /// unknown: a placeholder title, artist and thumbnail, an empty link and a
    /// zero length.
    pub fn from_resolved(
        title: Option<String>,
        channel: Option<String>,
        url: Option<String>,
        thumbnail: Option<String>,
        duration_ms: Option<u64>,
        requester: u64,
    ) -> (r: TrackMetadata)
        ensures
            r.title@ == text_or(title, "Unknown title"@),
            r.channel@ == text_or(channel, "Unknown artist"@),
            r.url@ == text_or(url, Seq::<char>::empty()),
            r.thumbnail@ == text_or(thumbnail, PLACEHOLDER_THUMBNAIL@),
            r.duration_ms == match duration_ms {
                Some(d) => d,
                None => 0u64,
            },
            r.requester == requester,
    {
        let duration_ms = match duration_ms {
            Some(d) => d,
            None => 0,
        };
        proof {
            reveal_strlit("");
        }
        TrackMetadata {
            title: string_or(title, "Unknown title"),
            channel: string_or(channel, "Unknown artist"),
            url: string_or(url, ""),
            thumbnail: string_or(thumbnail, PLACEHOLDER_THUMBNAIL),
            duration_ms,
            requester,
        }
    }
}

/// One queue entry: the track's metadata and the playback engine's handle to it.
#[derive(Debug)]
pub struct QueueItem<H> {
    pub handle: H,
    pub info: TrackMetadata,
}

/// The playback state of one guild.
#[derive(Debug)]
pub struct MusicState<H> {
    /// The track the engine was told to play, if any.
    pub current_track: Option<QueueItem<H>>,
    /// Tracks waiting their turn, front first.
    pub queue: std::collections::VecDeque<QueueItem<H>>,
    pub loop_mode: QueueMode,
}

/// Mathematical model of a guild's playback state.
pub ghost struct QueueModel<H> {
    pub current: Option<QueueItem<H>>,
    pub pending: Seq<QueueItem<H>>,
    pub mode: QueueMode,
}

/// What the caller of an enqueue has to do next.
#[derive(Debug, Clone, Copy, PartialEq, Eq, Structural)]
pub enum EnqueueOutcome {
    /// The item became the current track: start it now.
    StartNow,
    /// The item waits at the back of the queue.
    Queued,
}

/// What the caller of an advance has to do next.
#[derive(Debug, Clone, Copy, PartialEq, Eq, Structural)]
pub enum AdvanceOutcome {
    /// A new current track was taken from the queue: start it.
    PlayNext,
    /// Nothing is left to play: the guild is idle.
    Idle,
}

impl<H> QueueModel<H> {
    /// A guild never has pending tracks while nothing is current.
    pub open spec fn wf(self) -> bool {
        self.current is None ==> self.pending.len() == 0
    }

    /// The state after an enqueue of `item`.
    pub open spec fn enqueued(self, item: QueueItem<H>) -> QueueModel<H> {
        if self.current is None {
            QueueModel { current: Some(item), ..self }
        } else {
            QueueModel { pending: self.pending.push(item), ..self }
        }
    }

    /// What an enqueue of an item tells its caller.
    pub open spec fn enqueue_outcome(self) -> EnqueueOutcome {
        if self.current is None {
            EnqueueOutcome::StartNow
        } else {
            EnqueueOutcome::Queued
        }
    }

    /// The queue once a finished track has been put back, in loop mode.
    pub open spec fn rotated(self) -> Seq<QueueItem<H>> {
        if self.mode == QueueMode::Loop && self.current is Some {
            self.pending.push(self.current->0)
        } else {
            self.pending
        }
    }

    /// The state after the current track finished.
    pub open spec fn advanced(self) -> QueueModel<H> {
        let q = self.rotated();
        if q.len() > 0 {
            QueueModel { current: Some(q[0]), pending: q.drop_first(), mode: self.mode }
        } else {
            QueueModel { current: None, pending: q, mode: self.mode }
        }
    }

    /// What an advance tells its caller.
    pub open spec fn advance_outcome(self) -> AdvanceOutcome {
        if self.rotated().len() > 0 {
            AdvanceOutcome::PlayNext
        } else {
            AdvanceOutcome::Idle
        }
    }
}

impl<H> Default for MusicState<H> {
    fn default() -> (r: MusicState<H>)
        ensures
            r.model().current is None,
            r.model().pending.len() == 0,
            r.model().mode == QueueMode::Normal,
    {
        MusicState::new()
    }
}

impl<H> MusicState<H> {
    pub open spec fn model(&self) -> QueueModel<H> {
        QueueModel { current: self.current_track, pending: self.queue@, mode: self.loop_mode }
    }

    /// An idle state: nothing current, nothing pending, normal mode.
    pub fn new() -> (r: MusicState<H>)
        ensures
            r.model().current is None,
            r.model().pending.len() == 0,
            r.model().mode == QueueMode::Normal,
    {
        MusicState {
            current_track: None,
            queue: std::collections::VecDeque::new(),
            loop_mode: QueueMode::Normal,
        }
    }

    /// Makes `item` the current track if nothing is current, else puts it at
    /// the back of the queue.
    pub fn enqueue(&mut self, item: QueueItem<H>) -> (r: EnqueueOutcome)
        ensures
            final(self).model() == old(self).model().enqueued(item),
            r == old(self).model().enqueue_outcome(),
            old(self).model().wf() ==> final(self).model().wf(),
    {
        if self.current_track.is_none() {
            self.current_track = Some(item);
            EnqueueOutcome::StartNow
        } else {
            self.queue.push_back(item);
            EnqueueOutcome::Queued
        }
    }

    /// Enqueues a track whose resolution succeeded; on a failed resolution
    /// the state is left as it was and the error is handed back.
    pub fn enqueue_resolved<E>(&mut self, resolved: Result<QueueItem<H>, E>) -> (r: Result<
        EnqueueOutcome,
        E,
    >)
        ensures
            match resolved {
                Ok(item) => {
                    &&& final(self).model() == old(self).model().enqueued(item)
                    &&& r == Ok::<EnqueueOutcome, E>(old(self).model().enqueue_outcome())
                },
                Err(e) => {
                    &&& final(self).model() == old(self).model()
                    &&& r == Err::<EnqueueOutcome, E>(e)
                },
            },
    {
        match resolved {
            Ok(item) => Ok(self.enqueue(item)),
            Err(e) => Err(e),
        }
    }

    /// Moves on after the current track finished: in loop mode the finished
    /// track first goes to the back of the queue; then the front of the queue
    /// becomes current, or nothing is current if the queue is empty.
    pub fn advance(&mut self) -> (r: AdvanceOutcome)
        ensures
            final(self).model() == old(self).model().advanced(),
            r == old(self).model().advance_outcome(),
            final(self).model().wf(),
    {
        if self.loop_mode == QueueMode::Loop {
            if let Some(finished) = self.current_track.take() {
                self.queue.push_back(finished);
            }
        }
        match self.queue.pop_front() {
            Some(next) => {
                self.current_track = Some(next);
                AdvanceOutcome::PlayNext
            },
            None => {
                self.current_track = None;
                AdvanceOutcome::Idle
            },
        }
    }
}

} // verus!
