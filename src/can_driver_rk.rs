//! CAN bus frames and controller handles.
use vstd::prelude::*;

verus! {

/// Controller register bases.
pub const CAN0_BASE: u64 = 0xfea50000;
pub const CAN1_BASE: u64 = 0xfea60000;

/// Most data bytes a classic CAN frame carries.
pub const CAN_MAX_DLC: u8 = 8;

/// Identifier format of a frame.
#[derive(Debug, Clone, Copy, PartialEq, Eq, Structural)]
pub enum CanFrameType {
    /// 11-bit identifier.
    Standard,
    /// 29-bit identifier.
    Extended,
}

/// One CAN frame.
#[derive(Debug, Clone, Copy)]
pub struct CanFrame {
    pub id: u32,
    pub frame_type: CanFrameType,
    /// Number of data bytes in use, 0..8.
    pub dlc: u8,
    pub data: [u8; 8],
    /// Remote transmission request.
    pub is_rtr: bool,
}

impl CanFrame {
    /// A standard data frame with all data bytes zero; `dlc` is capped at 8.
    pub fn new(id: u32, dlc: u8) -> (f: CanFrame)
        ensures
            f.id == id,
            f.frame_type == CanFrameType::Standard,
            f.dlc == if dlc > CAN_MAX_DLC {
                CAN_MAX_DLC
            } else {
                dlc
            },
            f.data@ == Seq::new(8, |i: int| 0u8),
            !f.is_rtr,
    {
        let f = CanFrame {
            id,
            frame_type: CanFrameType::Standard,
            dlc: if dlc > CAN_MAX_DLC {
                CAN_MAX_DLC
            } else {
                dlc
            },
            data: [0u8; 8],
            is_rtr: false,
        };
        assert(f.data@ =~= Seq::new(8, |i: int| 0u8));
        f
    }

    /// Copies the first (at most 8) bytes of `data` into the frame and sets
    /// the length to match; data bytes past that length are kept.
    pub fn set_data(&mut self, data: &[u8])
        ensures
            ({
                let n = if data@.len() > 8 {
                    8
                } else {
                    data@.len() as int
                };
                &&& final(self).dlc == n
                &&& final(self).data@ == data@.subrange(0, n) + old(self).data@.subrange(n, 8)
                &&& final(self).id == old(self).id
                &&& final(self).frame_type == old(self).frame_type
                &&& final(self).is_rtr == old(self).is_rtr
            }),
    {
        let len: usize = if data.len() > 8 {
            8
        } else {
            data.len()
        };
        let ghost d0 = self.data@;
        let mut i: usize = 0;
        while i < len
            invariant
                len <= 8,
                len <= data@.len(),
                i <= len,
                self.data@.len() == 8,
                d0.len() == 8,
                self.data@ =~= data@.subrange(0, i as int) + d0.subrange(i as int, 8),
                self.id == old(self).id,
                self.frame_type == old(self).frame_type,
                self.is_rtr == old(self).is_rtr,
            decreases len - i,
        {
            self.data[i] = data[i];
            i = i + 1;
            assert(self.data@ =~= data@.subrange(0, i as int) + d0.subrange(i as int, 8));
        }
        self.dlc = len as u8;
    }
}

/// CAN transfer failures.
#[derive(Debug, Clone, Copy, PartialEq, Eq, Structural)]
pub enum CanError {
    BusBusy,
    Timeout,
    FrameError,
    BusOff,
}

impl CanError {
    /// Human-readable description.
    pub fn message(&self) -> (r: &'static str) {
        match self {
            CanError::BusBusy => "CAN Bus Busy",
            CanError::Timeout => "CAN Timeout",
            CanError::FrameError => "CAN Frame Error",
            CanError::BusOff => "CAN Bus Off",
        }
    }
}

/// A CAN controller.
pub struct Can {
    pub base: u64,
    /// Bit rate, in kbit/s.
    pub bitrate: u32,
}

impl Can {
    pub fn new(base: u64, bitrate: u32) -> (c: Can)
        ensures
            c.base == base,
            c.bitrate == bitrate,
    {
        Can { base, bitrate }
    }
}

} // verus!
