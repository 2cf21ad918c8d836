//! The wire frame: payload bytes, compressed or not, followed by one marker
//! byte that says which.

use crate::lz4::{compress_block, declared_size, decompress_block, lz4_decoded};
use crate::peer::Compression;
use vstd::prelude::*;
use vstd::slice::{slice_subrange, slice_to_vec};

verus! {

/// Marker byte that closes a frame whose payload travels as it is.
pub const MARKER_UNCOMPRESSED: u8 = 0;

/// Marker byte that closes a frame whose payload travels compressed.
pub const MARKER_COMPRESSED: u8 = 1;

/// Why a frame, or the payload inside it, could not be read.
#[derive(Copy, Clone, Debug, PartialEq, Eq, Structural)]
pub enum DecodeFault {
    /// The frame holds no byte at all, so not even a marker.
    Empty,
    /// The last byte of the frame is neither of the two markers.
    UnknownMarker(u8),
    /// The compressed block is damaged.
    Corrupt,
    /// The block decompressed to another length than it declares.
    SizeMismatch,
    /// The payload bytes do not form a value of the expected type.
    Malformed,
}

/// What a compressed block holds: its decompressed bytes, provided that they
/// are as many as the block declares.
pub open spec fn inflated(block: Seq<u8>) -> Result<Seq<u8>, DecodeFault> {
    if block.len() < 4 {
        Err(DecodeFault::Corrupt)
    } else {
        match lz4_decoded(block) {
            None => Err(DecodeFault::Corrupt),
            Some(bytes) => if bytes.len() == declared_size(block) {
                Ok(bytes)
            } else {
                Err(DecodeFault::SizeMismatch)
            },
        }
    }
}

/// The payload of a marked frame: the marker is the last byte, and decides
/// whether the bytes before it are decompressed.
pub open spec fn unframed(frame: Seq<u8>) -> Result<Seq<u8>, DecodeFault> {
    if frame.len() == 0 {
        Err(DecodeFault::Empty)
    } else if frame.last() == MARKER_UNCOMPRESSED {
        Ok(frame.drop_last())
    } else if frame.last() == MARKER_COMPRESSED {
        inflated(frame.drop_last())
    } else {
        Err(DecodeFault::UnknownMarker(frame.last()))
    }
}

/// A frame taken apart: the bytes as they travel, tagged with whether they
/// are compressed.
pub enum MsgType {
    Compressed(Vec<u8>),
    Uncompressed(Vec<u8>),
}

impl MsgType {
    /// The marker byte that stands for this variant on the wire.
    pub open spec fn marker(&self) -> u8 {
        match self {
            MsgType::Compressed(_) => MARKER_COMPRESSED,
            MsgType::Uncompressed(_) => MARKER_UNCOMPRESSED,
        }
    }

    /// The bytes that travel in front of the marker.
    pub open spec fn body(&self) -> Seq<u8> {
        match self {
            MsgType::Compressed(block) => block@,
            MsgType::Uncompressed(bytes) => bytes@,
        }
    }

    /// The frame that stands for this record on the wire.
    pub open spec fn wire(&self) -> Seq<u8> {
        self.body().push(self.marker())
    }

    /// The payload that this record carries.
    pub open spec fn payload(&self) -> Result<Seq<u8>, DecodeFault> {
        match self {
            MsgType::Compressed(block) => inflated(block@),
            MsgType::Uncompressed(bytes) => Ok(bytes@),
        }
    }

    /// Puts `data` into a record, compressing it where `compression` asks for
    /// it.
    pub fn wrap(data: &[u8], compression: Compression) -> (record: MsgType)
        ensures
            match compression {
                Compression::Uncompressed => record is Uncompressed && record.body() == data@,
                Compression::Compressed => {
                    &&& record is Compressed
                    &&& record.body().len() >= 4
                    &&& data@.len() <= u32::MAX ==> {
                        &&& declared_size(record.body()) == data@.len()
                        &&& lz4_decoded(record.body()) == Some(data@)
                    }
                },
            },
    {
        match compression {
            Compression::Compressed => MsgType::Compressed(compress_block(data)),
            Compression::Uncompressed => MsgType::Uncompressed(slice_to_vec(data)),
        }
    }

    /// The frame for this record: its bytes, then its marker.
    pub fn into_frame(self) -> (frame: Vec<u8>)
        ensures
            frame@ == self.wire(),
    {
        match self {
            MsgType::Compressed(block) => {
                let mut frame = block;
                frame.push(MARKER_COMPRESSED);
                frame
            },
            MsgType::Uncompressed(bytes) => {
                let mut frame = bytes;
                frame.push(MARKER_UNCOMPRESSED);
                frame
            },
        }
    }

    /// Splits a frame into marker and body, without looking into the body.
    pub fn parse(frame: &[u8]) -> (r: Result<MsgType, DecodeFault>)
        ensures
            match r {
                Ok(record) => frame@ == record.wire(),
                Err(fault) => if frame@.len() == 0 {
                    fault == DecodeFault::Empty
                } else {
                    frame@.last() != MARKER_COMPRESSED && frame@.last() != MARKER_UNCOMPRESSED
                        && fault == DecodeFault::UnknownMarker(frame@.last())
                },
            },
    {
        let n = frame.len();
        if n == 0 {
            return Err(DecodeFault::Empty);
        }
        let marker = frame[n - 1];
        let body = slice_to_vec(slice_subrange(frame, 0, n - 1));
        if marker == MARKER_COMPRESSED {
            Ok(MsgType::Compressed(body))
        } else if marker == MARKER_UNCOMPRESSED {
            Ok(MsgType::Uncompressed(body))
        } else {
            Err(DecodeFault::UnknownMarker(marker))
        }
    }

    /// Hands out the payload, decompressing it where the record is compressed.
    pub fn into_payload(self) -> (r: Result<Vec<u8>, DecodeFault>)
        ensures
            match r {
                Ok(bytes) => self.payload() == Ok::<Seq<u8>, DecodeFault>(bytes@),
                Err(fault) => self.payload() == Err::<Seq<u8>, DecodeFault>(fault),
            },
    {
        match self {
            MsgType::Uncompressed(bytes) => Ok(bytes),
            MsgType::Compressed(block) => inflate(block.as_slice()),
        }
    }
}

/// The length that a block declares in its first four bytes.
fn read_declared_size(block: &[u8]) -> (n: u64)
    requires
        block@.len() >= 4,
    ensures
        n == declared_size(block@),
{
    (block[0] as u64) + 256 * (block[1] as u64) + 65536 * (block[2] as u64) + 16777216 * (
    block[3] as u64)
}

/// Decompresses a size-prefixed block and holds the result to the size that
/// the block declares.
pub fn inflate(block: &[u8]) -> (r: Result<Vec<u8>, DecodeFault>)
    ensures
        match r {
            Ok(bytes) => inflated(block@) == Ok::<Seq<u8>, DecodeFault>(bytes@),
            Err(fault) => inflated(block@) == Err::<Seq<u8>, DecodeFault>(fault),
        },
{
    if block.len() < 4 {
        return Err(DecodeFault::Corrupt);
    }
    let declared = read_declared_size(block);
    match decompress_block(block) {
        Err(_) => Err(DecodeFault::Corrupt),
        Ok(bytes) => {
            if bytes.len() as u64 == declared {
                Ok(bytes)
            } else {
                Err(DecodeFault::SizeMismatch)
            }
        },
    }
}

/// The framing that the two ends of a session were built with.
#[derive(Copy, Clone, Debug, PartialEq, Eq, Structural)]
pub enum Codec {
    /// Frames end in a marker byte, and payloads may travel LZ4-compressed.
    Lz4,
    /// Frames are the payload and nothing else; nothing is ever compressed.
    Plain,
}

impl Codec {
    /// The payload that `frame` stands for under this framing.
    pub open spec fn decoded(&self, frame: Seq<u8>) -> Result<Seq<u8>, DecodeFault> {
        match self {
            Codec::Lz4 => unframed(frame),
            Codec::Plain => Ok(frame),
        }
    }

    /// Whether `frame` is a frame that packing `payload` with `compression`
    /// may give. Only the compressor's choice of bytes is left open: a
    /// compressed frame is some block that declares the length of `payload`
    /// and decompresses to it, followed by the marker.
    pub open spec fn frames(
        &self,
        payload: Seq<u8>,
        compression: Compression,
        frame: Seq<u8>,
    ) -> bool {
        match self {
            Codec::Plain => frame == payload,
            Codec::Lz4 => match compression {
                Compression::Uncompressed => frame == payload.push(MARKER_UNCOMPRESSED),
                Compression::Compressed => {
                    &&& frame.len() >= 5
                    &&& frame.last() == MARKER_COMPRESSED
                    &&& payload.len() <= u32::MAX ==> {
                        &&& declared_size(frame.drop_last()) == payload.len()
                        &&& lz4_decoded(frame.drop_last()) == Some(payload)
                    }
                },
            },
        }
    }

    /// Whether packing `payload` with `compression` gives a frame that
    /// unpacks to `payload` again. It does unless the payload is compressed
    /// and longer than the 32-bit size prefix of a block can say.
    pub open spec fn round_trips(&self, payload: Seq<u8>, compression: Compression) -> bool {
        ||| self == Codec::Plain
        ||| compression == Compression::Uncompressed
        ||| payload.len() <= u32::MAX
    }

    /// Frames `data` for the wire.
    pub fn pack(&self, data: &[u8], compression: Compression) -> (frame: Vec<u8>)
        ensures
            self.frames(data@, compression, frame@),
            self.round_trips(data@, compression) ==> self.decoded(frame@) == Ok::<
                Seq<u8>,
                DecodeFault,
            >(data@),
    {
        let frame = match self {
            Codec::Plain => slice_to_vec(data),
            Codec::Lz4 => {
                let record = MsgType::wrap(data, compression);
                let frame = record.into_frame();
                assert(frame@.drop_last() == record.body());
                frame
            },
        };
        proof {
            if self.round_trips(data@, compression) {
                packed_frame_reads_back(*self, data@, compression, frame@);
            }
        }
        frame
    }

    /// Reads the payload out of a frame.
    pub fn unpack(&self, data: &[u8]) -> (r: Result<Vec<u8>, DecodeFault>)
        ensures
            match r {
                Ok(bytes) => self.decoded(data@) == Ok::<Seq<u8>, DecodeFault>(bytes@),
                Err(fault) => self.decoded(data@) == Err::<Seq<u8>, DecodeFault>(fault),
            },
    {
        match self {
            Codec::Plain => Ok(slice_to_vec(data)),
            Codec::Lz4 => {
                match MsgType::parse(data) {
                    Err(fault) => Err(fault),
                    Ok(record) => {
                        assert(data@.drop_last() == record.body());
                        record.into_payload()
                    },
                }
            },
        }
    }
}

/// A frame says by itself how it is to be read: where it ends in the marker
/// 0, the bytes before the marker are the payload; where it ends in the
/// marker 1, they are a block to decompress.
pub proof fn frame_describes_itself(body: Seq<u8>)
    ensures
        unframed(body.push(MARKER_UNCOMPRESSED)) == Ok::<Seq<u8>, DecodeFault>(body),
        unframed(body.push(MARKER_COMPRESSED)) == inflated(body),
{
    assert(body.push(MARKER_UNCOMPRESSED).drop_last() == body);
    assert(body.push(MARKER_COMPRESSED).drop_last() == body);
}

/// Whatever frame packing gives for a payload, unpacking that frame under
/// the same framing gives the payload back, with either compression.
pub proof fn packed_frame_reads_back(
    codec: Codec,
    payload: Seq<u8>,
    compression: Compression,
    frame: Seq<u8>,
)
    requires
        codec.frames(payload, compression, frame),
        codec.round_trips(payload, compression),
    ensures
        codec.decoded(frame) == Ok::<Seq<u8>, DecodeFault>(payload),
{
    if codec == Codec::Lz4 && compression == Compression::Uncompressed {
        frame_describes_itself(payload);
    }
}

/// A payload of no bytes comes back as a payload of no bytes.
pub proof fn empty_payload_reads_back(codec: Codec, compression: Compression, frame: Seq<u8>)
    requires
        codec.frames(Seq::empty(), compression, frame),
    ensures
        codec.decoded(frame) == Ok::<Seq<u8>, DecodeFault>(Seq::empty()),
{
    packed_frame_reads_back(codec, Seq::empty(), compression, frame);
}

} // verus!
