//! The image download of an over-the-air update, as a step function: each read from the
//! server (bytes, end of stream, or an error) moves the download on and yields what to hand on
//! to the flasher (`Begin`, `Data`, `Finish`, `Abort`) and to the update controller (start,
//! chunk progress, abort, completion), in order.

use vstd::prelude::*;

use crate::ota::{find_pattern, http_status_ok, law_http_ok_needs_200, occurs, occurs_at, spec_http_ok};

verus! {

/// Size of the buffer that holds the response headers.
pub const HEADER_CAPACITY: usize = 512;

/// The end-of-headers marker `\r\n\r\n`.
pub open spec fn header_end_marker() -> Seq<u8> {
    seq![13u8, 10u8, 13u8, 10u8]
}

/// Whether `i` is the first position of `pat` in `s`.
pub open spec fn first_occurrence(s: Seq<u8>, pat: Seq<u8>, i: int) -> bool {
    occurs_at(s, pat, i) && forall|j: int| 0 <= j < i ==> !occurs_at(s, pat, j)
}

/// Where the body starts in headers that hold the marker: just after its first occurrence.
pub open spec fn body_offset(h: Seq<u8>) -> int {
    (choose|i: int| first_occurrence(h, header_end_marker(), i)) + 4
}

/// Where a download stands.
#[derive(Clone, Copy, Debug, PartialEq, Eq, Structural)]
pub enum DownloadPhase {
    /// Reading the response headers
    Headers,
    /// Streaming the image
    Body,
    /// Over, successfully or not
    Finished,
}

/// What a read from the server gave.
#[derive(Clone, Debug)]
pub enum DownloadEvent {
    /// Some bytes (never none)
    Received(Vec<u8>),
    /// The server closed the connection
    Closed,
    /// The read failed
    Failed,
}

/// Something to hand on, in order.
#[derive(Clone, Debug)]
pub enum OtaAction {
    /// Tell the update controller that the update starts
    Start,
    /// Tell the flasher to begin an image of this size
    Begin { expected_size: u32 },
    /// Pass image bytes to the flasher
    Data(Vec<u8>),
    /// Tell the update controller how many bytes have been read of the total
    Chunk { written: u32, total: u32 },
    /// Tell the update controller that the update is aborted
    ControllerAbort,
    /// Tell the flasher to abort
    Abort,
    /// Tell the flasher that the image is complete
    Finish,
    /// Tell the update controller that the update is complete
    Complete,
}

/// Why a download failed.
#[derive(Clone, Copy, Debug, PartialEq, Eq, Structural)]
pub enum DownloadError {
    /// A read failed
    Read,
    /// The response was not a complete `200` answer
    Http,
    /// Body bytes did not fit one flasher chunk
    Controller,
}

/// How a step left the download.
#[derive(Clone, Copy, Debug, PartialEq, Eq, Structural)]
pub enum DownloadOutcome {
    /// Read on
    Continue,
    /// The image was downloaded
    Done,
    /// The download failed
    Failed(DownloadError),
}

/// An action as a value: image bytes as a sequence.
pub enum ActionModel {
    Start,
    Begin(u32),
    Data(Seq<u8>),
    Chunk(u32, u32),
    ControllerAbort,
    Abort,
    Finish,
    Complete,
}

/// The value of an action.
pub open spec fn action_model(a: OtaAction) -> ActionModel {
    match a {
        OtaAction::Start => ActionModel::Start,
        OtaAction::Begin { expected_size } => ActionModel::Begin(expected_size),
        OtaAction::Data(v) => ActionModel::Data(v@),
        OtaAction::Chunk { written, total } => ActionModel::Chunk(written, total),
        OtaAction::ControllerAbort => ActionModel::ControllerAbort,
        OtaAction::Abort => ActionModel::Abort,
        OtaAction::Finish => ActionModel::Finish,
        OtaAction::Complete => ActionModel::Complete,
    }
}

/// The values of a list of actions.
pub open spec fn actions_model(acts: Seq<OtaAction>) -> Seq<ActionModel> {
    acts.map_values(|a: OtaAction| action_model(a))
}

/// A read as a value.
pub enum EventModel {
    Received(Seq<u8>),
    Closed,
    Failed,
}

/// The value of a read.
pub open spec fn event_model(e: DownloadEvent) -> EventModel {
    match e {
        DownloadEvent::Received(v) => EventModel::Received(v@),
        DownloadEvent::Closed => EventModel::Closed,
        DownloadEvent::Failed => EventModel::Failed,
    }
}

/// The state of a download as a value.
pub struct DownloadModel {
    pub phase: DownloadPhase,
    pub header: Seq<u8>,
    pub written: u32,
    pub expected_size: u32,
    pub chunk_capacity: usize,
}

/// The effect of one read: the new state, the actions in order, and the outcome.
///
/// While reading headers, bytes are added to the headers. Once they hold `\r\n\r\n`, a
/// response that is not a `200` fails; otherwise the controller is told the update starts,
/// the flasher is told to begin, and the body bytes that came with the headers (if any) go to
/// the flasher, failing if they exceed one chunk. Headers that fill their buffer without the
/// marker, an early close, and a failed read fail. While streaming, bytes go to the flasher
/// and the controller learns the running count; the end of the stream finishes the image and
/// completes the update; a failed read aborts both.
pub open spec fn spec_download_step(m: DownloadModel, e: EventModel) -> (
    DownloadModel,
    Seq<ActionModel>,
    DownloadOutcome,
) {
    let finished = DownloadModel { phase: DownloadPhase::Finished, ..m };
    match m.phase {
        DownloadPhase::Headers => match e {
            EventModel::Received(b) => {
                let h = m.header + b;
                if occurs(h, header_end_marker()) {
                    let bs = body_offset(h);
                    let rest = h.skip(bs);
                    let start = seq![ActionModel::Start, ActionModel::Begin(m.expected_size)];
                    if !spec_http_ok(h.take(bs)) {
                        (
                            DownloadModel { phase: DownloadPhase::Finished, header: h, ..m },
                            Seq::empty(),
                            DownloadOutcome::Failed(DownloadError::Http),
                        )
                    } else if rest.len() > m.chunk_capacity {
                        (
                            DownloadModel { phase: DownloadPhase::Finished, header: h, ..m },
                            start,
                            DownloadOutcome::Failed(DownloadError::Controller),
                        )
                    } else {
                        (
                            DownloadModel { phase: DownloadPhase::Body, header: h, ..m },
                            if rest.len() > 0 {
                                start.push(ActionModel::Data(rest))
                            } else {
                                start
                            },
                            DownloadOutcome::Continue,
                        )
                    }
                } else if h.len() >= HEADER_CAPACITY {
                    (
                        DownloadModel { phase: DownloadPhase::Finished, header: h, ..m },
                        Seq::empty(),
                        DownloadOutcome::Failed(DownloadError::Http),
                    )
                } else {
                    (
                        DownloadModel { header: h, ..m },
                        Seq::empty(),
                        DownloadOutcome::Continue,
                    )
                }
            },
            EventModel::Closed => (finished, Seq::empty(), DownloadOutcome::Failed(DownloadError::Http)),
            EventModel::Failed => (finished, Seq::empty(), DownloadOutcome::Failed(DownloadError::Read)),
        },
        DownloadPhase::Body => match e {
            EventModel::Received(b) => {
                let w = (m.written + b.len()) as u32;
                (
                    DownloadModel { written: w, ..m },
                    seq![ActionModel::Data(b), ActionModel::Chunk(w, m.expected_size)],
                    DownloadOutcome::Continue,
                )
            },
            EventModel::Closed => (
                finished,
                seq![ActionModel::Finish, ActionModel::Complete],
                DownloadOutcome::Done,
            ),
            EventModel::Failed => (
                finished,
                seq![ActionModel::ControllerAbort, ActionModel::Abort],
                DownloadOutcome::Failed(DownloadError::Read),
            ),
        },
        DownloadPhase::Finished => (m, Seq::empty(), DownloadOutcome::Failed(DownloadError::Http)),
    }
}

/// Whether a read can arrive in state `m`: the download is not over, bytes are never empty,
/// header bytes fit the header buffer, and body bytes fit one chunk and keep the count
/// within `u32`.
pub open spec fn event_admissible(m: DownloadModel, e: EventModel) -> bool {
    &&& m.phase != DownloadPhase::Finished
    &&& (e matches EventModel::Received(b) ==> {
        &&& b.len() > 0
        &&& m.phase == DownloadPhase::Headers ==> m.header.len() + b.len() <= HEADER_CAPACITY
        &&& m.phase == DownloadPhase::Body ==> b.len() <= m.chunk_capacity && m.written + b.len()
            <= u32::MAX
    })
}

/// A download in progress.
pub struct Download {
    pub phase: DownloadPhase,
    /// Header bytes received so far
    pub header: Vec<u8>,
    /// Body bytes read after the headers, as the progress counter counts them
    pub written: u32,
    /// Image size announced by the invite
    pub expected_size: u32,
    /// Largest number of bytes the flasher takes at once
    pub chunk_capacity: usize,
}

impl View for Download {
    type V = DownloadModel;

    open spec fn view(&self) -> DownloadModel {
        DownloadModel {
            phase: self.phase,
            header: self.header@,
            written: self.written,
            expected_size: self.expected_size,
            chunk_capacity: self.chunk_capacity,
        }
    }
}

/// The first occurrence found is the one `body_offset` speaks of.
proof fn lemma_first_occurrence_unique(h: Seq<u8>, p: int)
    requires
        first_occurrence(h, header_end_marker(), p),
    ensures
        body_offset(h) == p + 4,
{
    let q = choose|i: int| first_occurrence(h, header_end_marker(), i);
    assert(first_occurrence(h, header_end_marker(), q));
    if q < p {
        assert(!occurs_at(h, header_end_marker(), q));
    } else if p < q {
        assert(!occurs_at(h, header_end_marker(), p));
    }
}

/// A copy of `s[lo..hi]`.
fn copy_range(s: &[u8], lo: usize, hi: usize) -> (v: Vec<u8>)
    requires
        lo <= hi <= s@.len(),
    ensures
        v@ == s@.subrange(lo as int, hi as int),
{
    let mut v: Vec<u8> = Vec::new();
    let mut i: usize = lo;
    while i < hi
        invariant
            lo <= i <= hi,
            hi <= s@.len(),
            v@ == s@.subrange(lo as int, i as int),
        decreases hi - i,
    {
        v.push(s[i]);
        i += 1;
        assert(v@ =~= s@.subrange(lo as int, i as int));
    }
    v
}

impl Download {
    /// A download of an image of `expected_size` bytes, handed to a flasher that takes at
    /// most `chunk_capacity` bytes at once; the headers come first.
    pub fn new(expected_size: u32, chunk_capacity: usize) -> (d: Self)
        ensures
            d@ == (DownloadModel {
                phase: DownloadPhase::Headers,
                header: Seq::empty(),
                written: 0,
                expected_size,
                chunk_capacity,
            }),
    {
        Download { phase: DownloadPhase::Headers, header: Vec::new(), written: 0, expected_size, chunk_capacity }
    }

    /// Take one read and return what to hand on, in order, and how the download stands.
    #[verifier::rlimit(30)]
    pub fn step(&mut self, event: DownloadEvent) -> (r: (Vec<OtaAction>, DownloadOutcome))
        requires
            event_admissible(old(self)@, event_model(event)),
        ensures
            ({
                let (m, acts, outcome) = spec_download_step(old(self)@, event_model(event));
                &&& final(self)@ == m
                &&& actions_model(r.0@) == acts
                &&& r.1 == outcome
            }),
    {
        let ghost m0 = self@;
        let mut acts: Vec<OtaAction> = Vec::new();
        match event {
            DownloadEvent::Received(bytes) => {
                if self.phase == DownloadPhase::Headers {
                    self.header.extend_from_slice(bytes.as_slice());
                    let ghost h = self.header@;
                    assert(h == m0.header + bytes@);
                    let len = self.header.len();
                    let marker: [u8; 4] = [13u8, 10u8, 13u8, 10u8];
                    assert(marker@ =~= header_end_marker());
                    assert(self.header@.subrange(0, len as int) =~= h);
                    match find_pattern(self.header.as_slice(), len, &marker) {
                        Some(p) => {
                            proof {
                                lemma_first_occurrence_unique(h, p as int);
                            }
                            let bs = p + 4;
                            let head = copy_range(self.header.as_slice(), 0, bs);
                            assert(head@ =~= h.take(bs as int));
                            if !http_status_ok(head.as_slice()) {
                                self.phase = DownloadPhase::Finished;
                                assert(actions_model(acts@) =~= Seq::<ActionModel>::empty());
                                return (acts, DownloadOutcome::Failed(DownloadError::Http));
                            }
                            acts.push(OtaAction::Start);
                            acts.push(OtaAction::Begin { expected_size: self.expected_size });
                            if len - bs > self.chunk_capacity {
                                self.phase = DownloadPhase::Finished;
                                assert(actions_model(acts@) =~= seq![
                                    ActionModel::Start,
                                    ActionModel::Begin(m0.expected_size),
                                ]);
                                return (acts, DownloadOutcome::Failed(DownloadError::Controller));
                            }
                            if bs < len {
                                let rest = copy_range(self.header.as_slice(), bs, len);
                                assert(rest@ =~= h.skip(bs as int));
                                acts.push(OtaAction::Data(rest));
                                assert(actions_model(acts@) =~= seq![
                                    ActionModel::Start,
                                    ActionModel::Begin(m0.expected_size),
                                ].push(ActionModel::Data(h.skip(bs as int))));
                            } else {
                                assert(actions_model(acts@) =~= seq![
                                    ActionModel::Start,
                                    ActionModel::Begin(m0.expected_size),
                                ]);
                            }
                            self.phase = DownloadPhase::Body;
                            (acts, DownloadOutcome::Continue)
                        },
                        None => {
                            assert(actions_model(acts@) =~= Seq::<ActionModel>::empty());
                            if len >= HEADER_CAPACITY {
                                self.phase = DownloadPhase::Finished;
                                (acts, DownloadOutcome::Failed(DownloadError::Http))
                            } else {
                                (acts, DownloadOutcome::Continue)
                            }
                        },
                    }
                } else {
                    let n = bytes.len();
                    self.written = self.written + n as u32;
                    acts.push(OtaAction::Data(bytes));
                    acts.push(OtaAction::Chunk { written: self.written, total: self.expected_size });
                    assert(actions_model(acts@) =~= seq![
                        ActionModel::Data(event_model(event)->Received_0),
                        ActionModel::Chunk(self.written, m0.expected_size),
                    ]);
                    (acts, DownloadOutcome::Continue)
                }
            },
            DownloadEvent::Closed => {
                if self.phase == DownloadPhase::Headers {
                    self.phase = DownloadPhase::Finished;
                    assert(actions_model(acts@) =~= Seq::<ActionModel>::empty());
                    (acts, DownloadOutcome::Failed(DownloadError::Http))
                } else {
                    self.phase = DownloadPhase::Finished;
                    acts.push(OtaAction::Finish);
                    acts.push(OtaAction::Complete);
                    assert(actions_model(acts@) =~= seq![ActionModel::Finish, ActionModel::Complete]);
                    (acts, DownloadOutcome::Done)
                }
            },
            DownloadEvent::Failed => {
                if self.phase == DownloadPhase::Headers {
                    self.phase = DownloadPhase::Finished;
                    assert(actions_model(acts@) =~= Seq::<ActionModel>::empty());
                    (acts, DownloadOutcome::Failed(DownloadError::Read))
                } else {
                    self.phase = DownloadPhase::Finished;
                    acts.push(OtaAction::ControllerAbort);
                    acts.push(OtaAction::Abort);
                    assert(actions_model(acts@) =~= seq![ActionModel::ControllerAbort, ActionModel::Abort]);
                    (acts, DownloadOutcome::Failed(DownloadError::Read))
                }
            },
        }
    }
}

/// A response whose headers do not carry ` 200 ` (a `500`, a redirect, ...) ends the
/// download with an HTTP error, and nothing reaches the flasher or the controller.
pub proof fn law_download_refuses_non_200(m: DownloadModel, b: Seq<u8>)
    requires
        m.phase == DownloadPhase::Headers,
        occurs(m.header + b, header_end_marker()),
        !occurs(
            (m.header + b).take(body_offset(m.header + b)),
            seq![32u8, 50u8, 48u8, 48u8, 32u8],
        ),
    ensures
        ({
            let (next, acts, outcome) = spec_download_step(m, EventModel::Received(b));
            &&& outcome == DownloadOutcome::Failed(DownloadError::Http)
            &&& acts.len() == 0
            &&& next.phase == DownloadPhase::Finished
        }),
{
    let h = m.header + b;
    law_http_ok_needs_200(h.take(body_offset(h)));
}

/// Once a download streams the image, every read of bytes hands them on unchanged as the
/// next `Data`, and the controller learns the running count against the announced size.
pub proof fn law_download_streams_bytes(m: DownloadModel, b: Seq<u8>)
    requires
        m.phase == DownloadPhase::Body,
        m.written + b.len() <= u32::MAX,
    ensures
        ({
            let (next, acts, outcome) = spec_download_step(m, EventModel::Received(b));
            &&& outcome == DownloadOutcome::Continue
            &&& acts.len() == 2
            &&& acts[0] == ActionModel::Data(b)
            &&& acts[1] == ActionModel::Chunk((m.written + b.len()) as u32, m.expected_size)
            &&& next.written == m.written + b.len()
        }),
{
}

} // verus!
