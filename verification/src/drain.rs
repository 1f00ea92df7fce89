//! Gathering a streamed body, frame by frame, into one run of bytes.

use vstd::prelude::*;
use vstd::string::*;

verus! {

/// The side of the exchange a body belongs to.
#[derive(Clone, Copy, Debug, PartialEq, Eq, Structural)]
pub enum Side {
    /// The body of the inbound request.
    Request,
    /// The body of the backend's response.
    Response,
}

/// Why a body could not be gathered.
#[derive(Clone, Copy, Debug, PartialEq, Eq, Structural)]
pub enum DrainFault {
    /// The transport failed while a frame was awaited.
    Transport,
    /// A frame arrived that carries no data.
    NotData,
}

/// A failed drain, tagged with the side it happened on.
#[derive(Clone, Copy, Debug, PartialEq, Eq, Structural)]
pub struct DrainError {
    pub side: Side,
    pub fault: DrainFault,
}

/// One step of a streamed body, as the transport hands it over.
#[derive(Clone, Debug, PartialEq, Eq)]
pub enum Frame {
    /// A chunk of the body.
    Data(Vec<u8>),
    /// A frame without data, such as trailers.
    Other,
    /// The transport's report that it could not deliver a frame.
    Failed,
}

/// A [`Frame`] as plain values.
pub enum FrameView {
    Data(Seq<u8>),
    Other,
    Failed,
}

impl View for Frame {
    type V = FrameView;

    open spec fn view(&self) -> FrameView {
        match self {
            Frame::Data(bytes) => FrameView::Data(bytes@),
            Frame::Other => FrameView::Other,
            Frame::Failed => FrameView::Failed,
        }
    }
}

impl DeepView for Frame {
    type V = FrameView;

    open spec fn deep_view(&self) -> FrameView {
        self@
    }
}

/// The name of a side in diagnostics.
pub open spec fn side_tag(side: Side) -> Seq<char> {
    match side {
        Side::Request => "reqBody"@,
        Side::Response => "respBody"@,
    }
}

/// The text that names a failed drain.
pub open spec fn drain_message(e: DrainError) -> Seq<char> {
    match e.fault {
        DrainFault::Transport => "read from "@ + side_tag(e.side) + " error"@,
        DrainFault::NotData => "read data from "@ + side_tag(e.side) + " error"@,
    }
}

impl Side {
    /// `reqBody` or `respBody`.
    pub fn tag(&self) -> (res: &'static str)
        ensures
            res@ == side_tag(*self),
    {
        match self {
            Side::Request => "reqBody",
            Side::Response => "respBody",
        }
    }
}

impl DrainError {
    /// `read from <side> error` for a transport fault, `read data from <side>
    /// error` for a frame without data.
    pub fn message(&self) -> (res: String)
        ensures
            res@ == drain_message(*self),
    {
        let mut text = match self.fault {
            DrainFault::Transport => String::from_str("read from "),
            DrainFault::NotData => String::from_str("read data from "),
        };
        text.append(self.side.tag());
        text.append(" error");
        text
    }
}

/// The bytes a frame carries; none for a frame without data.
pub open spec fn data_of(frame: FrameView) -> Seq<u8> {
    match frame {
        FrameView::Data(bytes) => bytes,
        _ => Seq::empty(),
    }
}

/// The fault that a frame without data stands for.
pub open spec fn fault_of(frame: FrameView) -> DrainFault {
    match frame {
        FrameView::Failed => DrainFault::Transport,
        _ => DrainFault::NotData,
    }
}

/// The data of all frames, one after the other.
pub open spec fn payload(frames: Seq<FrameView>) -> Seq<u8>
    decreases frames.len(),
{
    if frames.len() == 0 {
        Seq::empty()
    } else {
        payload(frames.drop_last()) + data_of(frames.last())
    }
}

/// Whether `frames[i]` is the first frame that is not data.
pub open spec fn is_first_fault(frames: Seq<FrameView>, i: int) -> bool {
    &&& 0 <= i < frames.len()
    &&& !(frames[i] is Data)
    &&& forall|j: int| 0 <= j < i ==> #[trigger] frames[j] is Data
}

/// What draining `frames` to the end of the body yields: every byte of every
/// frame, in order, unless some frame is not data; then the fault of the first
/// such frame, tagged with the side.
pub open spec fn drained(frames: Seq<FrameView>, side: Side) -> Result<Seq<u8>, DrainError> {
    if exists|i: int| is_first_fault(frames, i) {
        let i = choose|i: int| is_first_fault(frames, i);
        Err(DrainError { side, fault: fault_of(frames[i]) })
    } else {
        Ok(payload(frames))
    }
}

/// A body in the making: the side it belongs to and the bytes gathered so far.
pub struct BodyDrainer {
    side: Side,
    bytes: Vec<u8>,
}

impl BodyDrainer {
    /// The side this body belongs to.
    pub closed spec fn side(&self) -> Side {
        self.side
    }

    /// The bytes gathered so far.
    pub closed spec fn gathered(&self) -> Seq<u8> {
        self.bytes@
    }

    /// Starts with nothing gathered.
    pub fn new(side: Side) -> (res: BodyDrainer)
        ensures
            res.side() == side,
            res.gathered() == Seq::<u8>::empty(),
    {
        BodyDrainer { side, bytes: Vec::new() }
    }

    /// Takes the next frame. Data is added to what was gathered; any other
    /// frame fails the drain and leaves what was gathered as it was.
    pub fn feed(&mut self, frame: &Frame) -> (res: Result<(), DrainError>)
        ensures
            final(self).side() == old(self).side(),
            final(self).gathered() == old(self).gathered() + data_of(frame@),
            match res {
                Ok(_) => frame@ is Data,
                Err(e) => !(frame@ is Data) && e == (DrainError {
                    side: old(self).side(),
                    fault: fault_of(frame@),
                }),
            },
    {
        match frame {
            Frame::Data(chunk) => {
                self.bytes.extend_from_slice(chunk.as_slice());
                Ok(())
            },
            Frame::Other => {
                assert(self.bytes@ + Seq::<u8>::empty() =~= self.bytes@);
                Err(DrainError { side: self.side, fault: DrainFault::NotData })
            },
            Frame::Failed => {
                assert(self.bytes@ + Seq::<u8>::empty() =~= self.bytes@);
                Err(DrainError { side: self.side, fault: DrainFault::Transport })
            },
        }
    }

    /// Ends the body and hands out what was gathered.
    pub fn finish(self) -> (res: Vec<u8>)
        ensures
            res@ == self.gathered(),
    {
        self.bytes
    }
}

/// A first fault at `i` decides what draining yields.
pub proof fn lemma_drained_fault(frames: Seq<FrameView>, side: Side, i: int)
    requires
        is_first_fault(frames, i),
    ensures
        drained(frames, side) == Err::<Seq<u8>, DrainError>(
            DrainError { side, fault: fault_of(frames[i]) },
        ),
{
    let c = choose|c: int| is_first_fault(frames, c);
    assert(is_first_fault(frames, c));
    if c < i {
        assert(frames[c] is Data);
    }
    if i < c {
        assert(frames[i] is Data);
    }
}

/// Drains a body whose frames are all at hand; the end of `frames` is the end
/// of the body.
pub fn read_body_data(frames: &Vec<Frame>, side: Side) -> (res: Result<Vec<u8>, DrainError>)
    ensures
        match res {
            Ok(bytes) => drained(frames.deep_view(), side) == Ok::<Seq<u8>, DrainError>(bytes@),
            Err(e) => drained(frames.deep_view(), side) == Err::<Seq<u8>, DrainError>(e),
        },
{
    let ghost all = frames.deep_view();
    let mut drainer = BodyDrainer::new(side);
    let mut i: usize = 0;
    while i < frames.len()
        invariant
            i <= frames.len(),
            all == frames.deep_view(),
            drainer.side() == side,
            drainer.gathered() == payload(all.take(i as int)),
            forall|j: int| 0 <= j < i ==> #[trigger] all[j] is Data,
        decreases frames.len() - i,
    {
        let fed = drainer.feed(&frames[i]);
        match fed {
            Err(e) => {
                proof {
                    lemma_drained_fault(all, side, i as int);
                }
                return Err(e);
            },
            Ok(_) => {},
        }
        proof {
            assert(all.take(i + 1).drop_last() =~= all.take(i as int));
        }
        i += 1;
    }
    assert(all.take(i as int) =~= all);
    Ok(drainer.finish())
}

/// However a body is cut into frames, draining it gives the body back: the
/// bytes of all chunks, in order, with nothing added, dropped or changed.
pub proof fn lemma_framing_is_invisible(chunks: Seq<Seq<u8>>, side: Side)
    ensures
        drained(chunks.map_values(|c: Seq<u8>| FrameView::Data(c)), side) == Ok::<
            Seq<u8>,
            DrainError,
        >(chunks.flatten()),
{
    let frames = chunks.map_values(|c: Seq<u8>| FrameView::Data(c));
    lemma_payload_of_data(chunks);
    assert forall|i: int| !is_first_fault(frames, i) by {
        if 0 <= i < frames.len() {
            assert(frames[i] is Data);
        }
    }
}

/// The payload of frames that are all data is the chunks put together.
pub proof fn lemma_payload_of_data(chunks: Seq<Seq<u8>>)
    ensures
        payload(chunks.map_values(|c: Seq<u8>| FrameView::Data(c))) == chunks.flatten(),
    decreases chunks.len(),
{
    let frames = chunks.map_values(|c: Seq<u8>| FrameView::Data(c));
    chunks.lemma_flatten_and_flatten_alt_are_equivalent();
    if chunks.len() > 0 {
        lemma_payload_of_data(chunks.drop_last());
        chunks.drop_last().lemma_flatten_and_flatten_alt_are_equivalent();
        assert(frames.drop_last() =~= chunks.drop_last().map_values(
            |c: Seq<u8>| FrameView::Data(c),
        ));
    }
}

/// An empty body, one without any frame, drains to no bytes and never fails.
pub proof fn lemma_empty_body_drains(side: Side)
    ensures
        drained(Seq::<FrameView>::empty(), side) == Ok::<Seq<u8>, DrainError>(Seq::empty()),
{
}

} // verus!
