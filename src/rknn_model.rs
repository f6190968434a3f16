//! Header of an accelerator model file: a 32-byte big-endian record that
//! is checked before the model is handed to the runtime.
use vstd::prelude::*;

verus! {

/// Size of the header, in bytes.
pub const HEADER_LEN: usize = 32;

/// Largest accepted model, in bytes.
pub const MAX_MODEL_SIZE: u32 = 0x0800_0000;

/// Largest accepted input or output buffer, in bytes.
pub const MAX_IO_SIZE: u32 = 0x1000_0000;

/// Largest accepted number of input or output tensors.
pub const MAX_TENSORS: u16 = 256;

/// Element type of a tensor.
#[derive(Debug, Clone, Copy, PartialEq, Eq, Structural)]
pub enum DataType {
    Float32,
    Int32,
    Int8,
    Uint8,
    Float16,
}

/// Why a model header was refused.
#[derive(Debug, Clone, Copy, PartialEq, Eq, Structural)]
pub enum HeaderError {
    TooSmall,
    BadMagic,
    UnsupportedVersion,
    InvalidModelType,
    InvalidInputCount,
    InvalidOutputCount,
    InvalidModelSize,
    InvalidMaxInputSize,
    InvalidMaxOutputSize,
    /// The data is shorter than the size the header announces.
    Incomplete,
    /// The model body sums to zero.
    ZeroChecksum,
}

impl HeaderError {
    /// Human-readable description.
    pub fn message(&self) -> (r: &'static str) {
        match self {
            HeaderError::TooSmall => "Model data too small for header",
            HeaderError::BadMagic => "Invalid RKNN magic number",
            HeaderError::UnsupportedVersion => "Unsupported RKNN version",
            HeaderError::InvalidModelType => "Invalid model type",
            HeaderError::InvalidInputCount => "Invalid input tensor count",
            HeaderError::InvalidOutputCount => "Invalid output tensor count",
            HeaderError::InvalidModelSize => "Invalid model size",
            HeaderError::InvalidMaxInputSize => "Invalid max input size",
            HeaderError::InvalidMaxOutputSize => "Invalid max output size",
            HeaderError::Incomplete => "Model data incomplete",
            HeaderError::ZeroChecksum => "Model checksum invalid (all zeros)",
        }
    }
}

/// Decoded model header.
#[derive(Debug, Clone, Copy)]
pub struct RknnModelHeader {
    pub magic: [u8; 4],
    /// (major, minor, patch)
    pub version: [u8; 3],
    /// 0 for a float model, 1 for a quantized one.
    pub model_type: u8,
    pub model_size: u32,
    pub input_count: u16,
    pub output_count: u16,
    pub support_dynamic: bool,
    pub max_input_size: u32,
    pub max_output_size: u32,
}

/// Big-endian 32-bit value of `d[i..i + 4]`.
pub open spec fn be_u32(d: Seq<u8>, i: int) -> int {
    d[i] * 0x100_0000 + d[i + 1] * 0x1_0000 + d[i + 2] * 0x100 + d[i + 3]
}

/// Big-endian 16-bit value of `d[i..i + 2]`.
pub open spec fn be_u16(d: Seq<u8>, i: int) -> int {
    d[i] * 0x100 + d[i + 1]
}

/// The header `d` encodes, or the first rule it breaks, checked in this
/// order: length, magic "RKNN", major version 1 or 2, model type 0 or 1,
/// 1..256 inputs, 1..256 outputs, model size 1..128 MiB, maximum input
/// and output sizes 1..256 MiB.
pub open spec fn parse_spec(d: Seq<u8>) -> Result<RknnModelHeader, HeaderError> {
    if d.len() < HEADER_LEN {
        Err(HeaderError::TooSmall)
    } else if d[0] != 0x52 || d[1] != 0x4B || d[2] != 0x4E || d[3] != 0x4E {
        Err(HeaderError::BadMagic)
    } else if d[4] < 1 || d[4] > 2 {
        Err(HeaderError::UnsupportedVersion)
    } else if d[7] > 1 {
        Err(HeaderError::InvalidModelType)
    } else if be_u16(d, 12) == 0 || be_u16(d, 12) > MAX_TENSORS {
        Err(HeaderError::InvalidInputCount)
    } else if be_u16(d, 14) == 0 || be_u16(d, 14) > MAX_TENSORS {
        Err(HeaderError::InvalidOutputCount)
    } else if be_u32(d, 8) == 0 || be_u32(d, 8) > MAX_MODEL_SIZE {
        Err(HeaderError::InvalidModelSize)
    } else if be_u32(d, 20) == 0 || be_u32(d, 20) > MAX_IO_SIZE {
        Err(HeaderError::InvalidMaxInputSize)
    } else if be_u32(d, 24) == 0 || be_u32(d, 24) > MAX_IO_SIZE {
        Err(HeaderError::InvalidMaxOutputSize)
    } else {
        Ok(
            RknnModelHeader {
                magic: [d[0], d[1], d[2], d[3]],
                version: [d[4], d[5], d[6]],
                model_type: d[7],
                model_size: be_u32(d, 8) as u32,
                input_count: be_u16(d, 12) as u16,
                output_count: be_u16(d, 14) as u16,
                support_dynamic: d[16] != 0,
                max_input_size: be_u32(d, 20) as u32,
                max_output_size: be_u32(d, 24) as u32,
            },
        )
    }
}

/// Sum of the bytes of `s`.
pub open spec fn byte_sum(s: Seq<u8>) -> nat
    decreases s.len(),
{
    if s.len() == 0 {
        0
    } else {
        byte_sum(s.drop_last()) + s.last() as nat
    }
}

fn read_be_u32(data: &[u8], i: usize) -> (r: u32)
    requires
        i + 4 <= data@.len(),
    ensures
        r == be_u32(data@, i as int),
{
    (data[i] as u32) * 0x100_0000 + (data[i + 1] as u32) * 0x1_0000 + (data[i + 2] as u32) * 0x100
        + data[i + 3] as u32
}

fn read_be_u16(data: &[u8], i: usize) -> (r: u16)
    requires
        i + 2 <= data@.len(),
    ensures
        r == be_u16(data@, i as int),
{
    (data[i] as u16) * 0x100 + data[i + 1] as u16
}

impl RknnModelHeader {
    /// Decodes and checks the header at the start of `data`.
    pub fn parse(data: &[u8]) -> (r: Result<RknnModelHeader, HeaderError>)
        ensures
            r == parse_spec(data@),
    {
        if data.len() < HEADER_LEN {
            return Err(HeaderError::TooSmall);
        }
        let magic = [data[0], data[1], data[2], data[3]];
        if data[0] != 0x52 || data[1] != 0x4B || data[2] != 0x4E || data[3] != 0x4E {
            return Err(HeaderError::BadMagic);
        }
        let version = [data[4], data[5], data[6]];
        if data[4] < 1 || data[4] > 2 {
            return Err(HeaderError::UnsupportedVersion);
        }
        let model_type = data[7];
        if model_type > 1 {
            return Err(HeaderError::InvalidModelType);
        }
        let model_size = read_be_u32(data, 8);
        let input_count = read_be_u16(data, 12);
        let output_count = read_be_u16(data, 14);
        if input_count == 0 || input_count > MAX_TENSORS {
            return Err(HeaderError::InvalidInputCount);
        }
        if output_count == 0 || output_count > MAX_TENSORS {
            return Err(HeaderError::InvalidOutputCount);
        }
        let support_dynamic = data[16] != 0;
        let max_input_size = read_be_u32(data, 20);
        let max_output_size = read_be_u32(data, 24);
        if model_size == 0 || model_size > MAX_MODEL_SIZE {
            return Err(HeaderError::InvalidModelSize);
        }
        if max_input_size == 0 || max_input_size > MAX_IO_SIZE {
            return Err(HeaderError::InvalidMaxInputSize);
        }
        if max_output_size == 0 || max_output_size > MAX_IO_SIZE {
            return Err(HeaderError::InvalidMaxOutputSize);
        }
        let h = RknnModelHeader {
            magic,
            version,
            model_type,
            model_size,
            input_count,
            output_count,
            support_dynamic,
            max_input_size,
            max_output_size,
        };
        assert(h.magic =~= [data@[0], data@[1], data@[2], data@[3]]);
        assert(h.version =~= [data@[4], data@[5], data@[6]]);
        Ok(h)
    }

    /// Checks that `data` holds the whole model and that the bytes after
    /// the header, up to the announced size, do not sum to zero modulo
    /// 2^32.
    pub fn validate_integrity(&self, data: &[u8]) -> (r: Result<(), HeaderError>)
        requires
            self.model_size >= HEADER_LEN,
        ensures
            data@.len() < self.model_size ==> r == Err::<(), HeaderError>(HeaderError::Incomplete),
            data@.len() >= self.model_size ==> (r is Ok <==> byte_sum(
                data@.subrange(HEADER_LEN as int, self.model_size as int),
            ) % 0x1_0000_0000 != 0),
            data@.len() >= self.model_size && r is Err ==> r == Err::<(), HeaderError>(
                HeaderError::ZeroChecksum,
            ),
    {
        if data.len() < self.model_size as usize {
            return Err(HeaderError::Incomplete);
        }
        let end = self.model_size as usize;
        let mut sum: u64 = 0;
        let mut i: usize = HEADER_LEN;
        while i < end
            invariant
                HEADER_LEN <= i <= end <= data@.len(),
                end <= u32::MAX,
                sum == byte_sum(data@.subrange(HEADER_LEN as int, i as int)),
                sum <= (i - HEADER_LEN) * 255,
            decreases end - i,
        {
            proof {
                let s = data@.subrange(HEADER_LEN as int, i as int + 1);
                assert(s.drop_last() =~= data@.subrange(HEADER_LEN as int, i as int));
            }
            sum = sum + data[i] as u64;
            i = i + 1;
        }
        if sum % 0x1_0000_0000 == 0 {
            Err(HeaderError::ZeroChecksum)
        } else {
            Ok(())
        }
    }
}

} // verus!
