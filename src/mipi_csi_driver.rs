//! Camera capture buffer management: a pool of frame buffers cycled through
//! a ready queue (waiting for capture), one frame being captured, and a done
//! queue (waiting for the consumer).
use vstd::prelude::*;

verus! {

/// D-PHY base addresses of the four camera receivers.
pub const MIPI_DPHY0_BASE: u64 = 0xfda00000;
pub const MIPI_DPHY1_BASE: u64 = 0xfda10000;
pub const MIPI_DPHY2_BASE: u64 = 0xfda20000;
pub const MIPI_DPHY3_BASE: u64 = 0xfda30000;

/// CSI-2 receiver base addresses.
pub const CSI2_RX0_BASE: u64 = 0xfdb30000;
pub const CSI2_RX1_BASE: u64 = 0xfdb40000;
pub const CSI2_RX2_BASE: u64 = 0xfdb50000;
pub const CSI2_RX3_BASE: u64 = 0xfdb60000;

/// Image signal processor base address.
pub const ISP_BASE: u64 = 0xfdb20000;

/// State of a frame buffer.
#[derive(Debug, Clone, Copy, PartialEq, Eq, Structural)]
pub enum FrameState {
    /// Free.
    Empty,
    /// Waiting for capture.
    Queued,
    /// Being filled.
    Capturing,
    /// Filled, waiting for the consumer.
    Done,
    Error,
}

/// One frame buffer of the pool.
#[derive(Debug, Clone, Copy, PartialEq, Eq, Structural)]
pub struct FrameBuffer {
    /// DMA address.
    pub phys_addr: u64,
    /// Kernel mapping.
    pub virt_addr: u64,
    /// Capacity in bytes.
    pub size: usize,
    pub state: FrameState,
    pub timestamp_ns: u64,
    /// Bytes actually captured.
    pub data_size: usize,
}

impl FrameBuffer {
    /// A free buffer with nothing captured.
    pub fn new(phys_addr: u64, virt_addr: u64, size: usize) -> (f: FrameBuffer)
        ensures
            f == (FrameBuffer {
                phys_addr,
                virt_addr,
                size,
                state: FrameState::Empty,
                timestamp_ns: 0,
                data_size: 0,
            }),
    {
        FrameBuffer { phys_addr, virt_addr, size, state: FrameState::Empty, timestamp_ns: 0, data_size: 0 }
    }
}

/// Pool of frame buffers and the queues that cycle them.
pub struct VideoQueue {
    frames: Vec<FrameBuffer>,
    /// Buffers waiting for capture; the last one is taken first.
    ready_queue: Vec<usize>,
    /// Captured buffers; the last one is handed out first.
    done_queue: Vec<usize>,
    current_frame_index: Option<usize>,
}

/// `f` with its state set to `s`.
pub open spec fn with_state(f: FrameBuffer, s: FrameState) -> FrameBuffer {
    FrameBuffer { state: s, ..f }
}

impl VideoQueue {
    pub closed spec fn frames(&self) -> Seq<FrameBuffer> {
        self.frames@
    }

    pub closed spec fn ready(&self) -> Seq<usize> {
        self.ready_queue@
    }

    pub closed spec fn done(&self) -> Seq<usize> {
        self.done_queue@
    }

    /// Buffer being captured, if any.
    pub closed spec fn current(&self) -> Option<usize> {
        self.current_frame_index
    }

    /// Every queued or current index names a buffer of the pool.
    pub closed spec fn wf(&self) -> bool {
        &&& forall|i: int|
            0 <= i < self.ready_queue@.len() ==> #[trigger] self.ready_queue@[i]
                < self.frames@.len()
        &&& forall|i: int|
            0 <= i < self.done_queue@.len() ==> #[trigger] self.done_queue@[i]
                < self.frames@.len()
        &&& self.current_frame_index matches Some(c) ==> c < self.frames@.len()
    }

    /// An empty pool sized for `frame_count` buffers.
    pub fn new(frame_count: usize) -> (q: VideoQueue)
        ensures
            q.wf(),
            q.frames().len() == 0,
            q.ready().len() == 0,
            q.done().len() == 0,
            q.current() is None,
    {
        VideoQueue {
            frames: Vec::with_capacity(frame_count),
            ready_queue: Vec::with_capacity(frame_count),
            done_queue: Vec::with_capacity(frame_count),
            current_frame_index: None,
        }
    }

    /// Adds `frame` to the pool and returns its index.
    pub fn add_frame(&mut self, frame: FrameBuffer) -> (r: usize)
        requires
            old(self).wf(),
        ensures
            final(self).wf(),
            r == old(self).frames().len(),
            final(self).frames() == old(self).frames().push(frame),
            final(self).ready() == old(self).ready(),
            final(self).done() == old(self).done(),
            final(self).current() == old(self).current(),
    {
        let index = self.frames.len();
        self.frames.push(frame);
        index
    }

    /// Queues buffer `frame_index` for capture. Fails, changing nothing,
    /// for an index outside the pool.
    pub fn queue_buffer(&mut self, frame_index: usize) -> (r: Result<(), &'static str>)
        requires
            old(self).wf(),
        ensures
            final(self).wf(),
            r is Ok <==> frame_index < old(self).frames().len(),
            r is Err ==> final(self).frames() == old(self).frames() && final(self).ready() == old(self).ready() && final(self).done() == old(self).done() && final(self).current() == old(self).current(),
            r is Ok ==> {
                &&& final(self).frames() == old(self).frames().update(
                    frame_index as int,
                    with_state(old(self).frames()[frame_index as int], FrameState::Queued),
                )
                &&& final(self).ready() == old(self).ready().push(frame_index)
                &&& final(self).done() == old(self).done()
                &&& final(self).current() == old(self).current()
            },
    {
        if frame_index >= self.frames.len() {
            return Err("Frame index out of bounds");
        }
        self.frames[frame_index].state = FrameState::Queued;
        self.ready_queue.push(frame_index);
        Ok(())
    }

    /// Takes the most recently queued buffer for capture: it becomes the
    /// buffer being captured. `None`, changing nothing, when none is queued.
    pub fn dequeue_ready(&mut self) -> (r: Option<usize>)
        requires
            old(self).wf(),
        ensures
            final(self).wf(),
            r is None <==> old(self).ready().len() == 0,
            r is None ==> final(self).frames() == old(self).frames() && final(self).ready() == old(self).ready() && final(self).done() == old(self).done() && final(self).current() == old(self).current(),
            r is Some ==> {
                let i = old(self).ready().last();
                &&& r == Some(i)
                &&& final(self).ready() == old(self).ready().drop_last()
                &&& final(self).frames() == old(self).frames().update(
                    i as int,
                    with_state(old(self).frames()[i as int], FrameState::Capturing),
                )
                &&& final(self).current() == Some(i)
                &&& final(self).done() == old(self).done()
            },
    {
        match self.ready_queue.pop() {
            Some(index) => {
                proof {
                    assert(old(self).ready_queue@[old(self).ready_queue@.len() - 1] == index);
                }
                self.frames[index].state = FrameState::Capturing;
                self.current_frame_index = Some(index);
                Some(index)
            },
            None => None,
        }
    }

    /// Marks the buffer being captured as done and queues it for the
    /// consumer. Fails, changing nothing, when no capture is in progress.
    pub fn frame_done(&mut self) -> (r: Result<(), &'static str>)
        requires
            old(self).wf(),
        ensures
            final(self).wf(),
            r is Ok <==> old(self).current() is Some,
            r is Err ==> final(self).frames() == old(self).frames() && final(self).ready() == old(self).ready() && final(self).done() == old(self).done() && final(self).current() == old(self).current(),
            r is Ok ==> {
                let i = old(self).current()->Some_0;
                &&& final(self).frames() == old(self).frames().update(
                    i as int,
                    with_state(old(self).frames()[i as int], FrameState::Done),
                )
                &&& final(self).done() == old(self).done().push(i)
                &&& final(self).current() is None
                &&& final(self).ready() == old(self).ready()
            },
    {
        match self.current_frame_index {
            Some(index) => {
                self.frames[index].state = FrameState::Done;
                self.done_queue.push(index);
                self.current_frame_index = None;
                Ok(())
            },
            None => Err("No frame currently capturing"),
        }
    }

    /// Hands the most recently captured buffer to the consumer and frees
    /// it. `None`, changing nothing, when no buffer is done.
    pub fn dequeue_done(&mut self) -> (r: Option<usize>)
        requires
            old(self).wf(),
        ensures
            final(self).wf(),
            r is None <==> old(self).done().len() == 0,
            r is None ==> final(self).frames() == old(self).frames() && final(self).ready() == old(self).ready() && final(self).done() == old(self).done() && final(self).current() == old(self).current(),
            r is Some ==> {
                let i = old(self).done().last();
                &&& r == Some(i)
                &&& final(self).done() == old(self).done().drop_last()
                &&& final(self).frames() == old(self).frames().update(
                    i as int,
                    with_state(old(self).frames()[i as int], FrameState::Empty),
                )
                &&& final(self).ready() == old(self).ready()
                &&& final(self).current() == old(self).current()
            },
    {
        match self.done_queue.pop() {
            Some(index) => {
                proof {
                    assert(old(self).done_queue@[old(self).done_queue@.len() - 1] == index);
                }
                self.frames[index].state = FrameState::Empty;
                Some(index)
            },
            None => None,
        }
    }

    /// Mutable access to buffer `index` of the pool, if it exists. Only
    /// that buffer can change through it.
    pub fn get_frame_mut(&mut self, index: usize) -> (r: Option<&mut FrameBuffer>)
        requires
            old(self).wf(),
        ensures
            r is Some <==> index < old(self).frames().len(),
            r is None ==> *final(self) == *old(self),
            r is Some ==> {
                &&& *r->Some_0 == old(self).frames()[index as int]
                &&& final(self).frames() == old(self).frames().update(
                    index as int,
                    *final(r->Some_0),
                )
                &&& final(self).ready() == old(self).ready()
                &&& final(self).done() == old(self).done()
                &&& final(self).current() == old(self).current()
                &&& final(self).wf()
            },
    {
        if index < self.frames.len() {
            Some(&mut self.frames[index])
        } else {
            None
        }
    }

    /// Buffer `index` of the pool, if it exists.
    pub fn get_frame(&self, index: usize) -> (r: Option<&FrameBuffer>)
        ensures
            r is Some <==> index < self.frames().len(),
            r is Some ==> *r->Some_0 == self.frames()[index as int],
    {
        if index < self.frames.len() {
            Some(&self.frames[index])
        } else {
            None
        }
    }
}

/// A camera receiver with its buffer pool.
pub struct MipiCsi {
    dphy_base: u64,
    csi2_base: u64,
    isp_base: u64,
    queue: VideoQueue,
}

impl MipiCsi {
    pub closed spec fn queue(&self) -> VideoQueue {
        self.queue
    }

    pub closed spec fn bases(&self) -> (u64, u64, u64) {
        (self.dphy_base, self.csi2_base, self.isp_base)
    }

    /// A receiver at the given register bases with an empty pool sized for
    /// `frame_count` buffers.
    pub fn new(dphy_base: u64, csi2_base: u64, isp_base: u64, frame_count: usize) -> (m: MipiCsi)
        ensures
            m.bases() == (dphy_base, csi2_base, isp_base),
            m.queue().wf(),
            m.queue().frames().len() == 0,
            m.queue().ready().len() == 0,
            m.queue().done().len() == 0,
            m.queue().current() is None,
    {
        MipiCsi { dphy_base, csi2_base, isp_base, queue: VideoQueue::new(frame_count) }
    }

    /// Register bases: (D-PHY, CSI-2 receiver, image signal processor).
    pub fn base_addresses(&self) -> (r: (u64, u64, u64))
        ensures
            r == self.bases(),
    {
        (self.dphy_base, self.csi2_base, self.isp_base)
    }

    /// Hands the most recently captured buffer to the consumer, as
    /// `VideoQueue::dequeue_done`.
    pub fn get_captured_frame(&mut self) -> (r: Option<usize>)
        requires
            old(self).queue().wf(),
        ensures
            final(self).queue().wf(),
            final(self).bases() == old(self).bases(),
            r is None <==> old(self).queue().done().len() == 0,
            r is None ==> final(self).queue().frames() == old(self).queue().frames()
                && final(self).queue().done() == old(self).queue().done(),
            r is Some ==> {
                let i = old(self).queue().done().last();
                &&& r == Some(i)
                &&& final(self).queue().done() == old(self).queue().done().drop_last()
                &&& final(self).queue().frames() == old(self).queue().frames().update(
                    i as int,
                    with_state(old(self).queue().frames()[i as int], FrameState::Empty),
                )
            },
            final(self).queue().ready() == old(self).queue().ready(),
            final(self).queue().current() == old(self).queue().current(),
    {
        self.queue.dequeue_done()
    }
}

} // verus!
