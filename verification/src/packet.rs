//! The wire frames and their codec.
//!
//! A frame starts with a one-byte tag. Integers are fixed-width and
//! little-endian; a payload is preceded by its length as a 64-bit integer and
//! runs to the end of the frame:
//!
//! ```text
//! request   tag  slot:8  object:4  method:4  length:8  payload
//! response  tag  slot:8  length:8  payload
//! delete    tag  object:4
//! ```

use vstd::prelude::*;
use vstd::bytes::*;
use vstd::slice::*;
use crate::error::PortError;
use crate::service::MethodId;
use crate::service::ServiceObjectId;
use crate::service::SlotId;

verus! {

/// The tag of a request frame.
pub const TAG_REQUEST: u8 = 0;

/// The tag of a response frame.
pub const TAG_RESPONSE: u8 = 1;

/// The tag of a delete frame.
pub const TAG_DELETE: u8 = 2;

/// The slot of a request that no port has stamped yet.
pub const UNDECIDED_SLOT: SlotId = 0xffff_ffff_ffff_ffff;

/// The number of bytes before the payload of a request.
pub const REQUEST_HEADER_LEN: usize = 25;

/// The number of bytes before the payload of a response.
pub const RESPONSE_HEADER_LEN: usize = 17;

/// The number of bytes of a delete frame.
pub const DELETE_LEN: usize = 5;

/// What a frame says.
pub enum Frame {
    Request { slot: SlotId, object_id: ServiceObjectId, method: MethodId, payload: Seq<u8> },
    Response { slot: SlotId, payload: Seq<u8> },
    Delete { object_id: ServiceObjectId },
}

/// The three kinds of frame.
#[derive(Clone, Copy, PartialEq, Eq, Structural, Debug)]
pub enum PacketKind {
    Request,
    Response,
    Delete,
}

impl Frame {
    /// The payload of a request or a response; a delete frame has none.
    pub open spec fn payload(self) -> Seq<u8> {
        match self {
            Frame::Request { payload, .. } => payload,
            Frame::Response { payload, .. } => payload,
            Frame::Delete { .. } => Seq::empty(),
        }
    }

    /// The kind of the frame.
    pub open spec fn kind(self) -> PacketKind {
        match self {
            Frame::Request { .. } => PacketKind::Request,
            Frame::Response { .. } => PacketKind::Response,
            Frame::Delete { .. } => PacketKind::Delete,
        }
    }

    /// Whether the payload's length fits the length field.
    pub open spec fn fits(self) -> bool {
        self.payload().len() <= u64::MAX
    }

    /// The same frame under another slot; a delete frame has no slot and stays.
    pub open spec fn with_slot(self, slot: SlotId) -> Frame {
        match self {
            Frame::Request { object_id, method, payload, .. } => Frame::Request {
                slot,
                object_id,
                method,
                payload,
            },
            Frame::Response { payload, .. } => Frame::Response { slot, payload },
            Frame::Delete { object_id } => Frame::Delete { object_id },
        }
    }
}

/// The bytes of a frame.
pub open spec fn encode_frame(frame: Frame) -> Seq<u8> {
    match frame {
        Frame::Request { slot, object_id, method, payload } => seq![TAG_REQUEST]
            + spec_u64_to_le_bytes(slot) + spec_u32_to_le_bytes(object_id) + spec_u32_to_le_bytes(
            method,
        ) + spec_u64_to_le_bytes(payload.len() as u64) + payload,
        Frame::Response { slot, payload } => seq![TAG_RESPONSE] + spec_u64_to_le_bytes(slot)
            + spec_u64_to_le_bytes(payload.len() as u64) + payload,
        Frame::Delete { object_id } => seq![TAG_DELETE] + spec_u32_to_le_bytes(object_id),
    }
}

/// The frame that the bytes hold, if they follow the layout exactly: a known
/// tag, a complete header, and a length field equal to the number of bytes
/// that follow it.
pub open spec fn decode_frame(bytes: Seq<u8>) -> Option<Frame> {
    if bytes.len() == 0 {
        None
    } else if bytes[0] == TAG_REQUEST {
        if bytes.len() >= REQUEST_HEADER_LEN && spec_u64_from_le_bytes(bytes.subrange(17, 25))
            == bytes.len() - REQUEST_HEADER_LEN {
            Some(
                Frame::Request {
                    slot: spec_u64_from_le_bytes(bytes.subrange(1, 9)),
                    object_id: spec_u32_from_le_bytes(bytes.subrange(9, 13)),
                    method: spec_u32_from_le_bytes(bytes.subrange(13, 17)),
                    payload: bytes.subrange(25, bytes.len() as int),
                },
            )
        } else {
            None
        }
    } else if bytes[0] == TAG_RESPONSE {
        if bytes.len() >= RESPONSE_HEADER_LEN && spec_u64_from_le_bytes(bytes.subrange(9, 17))
            == bytes.len() - RESPONSE_HEADER_LEN {
            Some(
                Frame::Response {
                    slot: spec_u64_from_le_bytes(bytes.subrange(1, 9)),
                    payload: bytes.subrange(17, bytes.len() as int),
                },
            )
        } else {
            None
        }
    } else if bytes[0] == TAG_DELETE {
        if bytes.len() == DELETE_LEN {
            Some(Frame::Delete { object_id: spec_u32_from_le_bytes(bytes.subrange(1, 5)) })
        } else {
            None
        }
    } else {
        None
    }
}

/// Decoding undoes encoding: the bytes of a frame hold that frame.
pub proof fn lemma_decode_encode(frame: Frame)
    requires
        frame.fits(),
    ensures
        decode_frame(encode_frame(frame)) == Some(frame),
{
    lemma_auto_spec_u64_to_from_le_bytes();
    lemma_auto_spec_u32_to_from_le_bytes();
    let bytes = encode_frame(frame);
    match frame {
        Frame::Request { slot, object_id, method, payload } => {
            assert(bytes.subrange(1, 9) =~= spec_u64_to_le_bytes(slot));
            assert(bytes.subrange(9, 13) =~= spec_u32_to_le_bytes(object_id));
            assert(bytes.subrange(13, 17) =~= spec_u32_to_le_bytes(method));
            assert(bytes.subrange(17, 25) =~= spec_u64_to_le_bytes(payload.len() as u64));
            assert(bytes.subrange(25, bytes.len() as int) =~= payload);
        },
        Frame::Response { slot, payload } => {
            assert(bytes.subrange(1, 9) =~= spec_u64_to_le_bytes(slot));
            assert(bytes.subrange(9, 17) =~= spec_u64_to_le_bytes(payload.len() as u64));
            assert(bytes.subrange(17, bytes.len() as int) =~= payload);
        },
        Frame::Delete { object_id } => {
            assert(bytes.subrange(1, 5) =~= spec_u32_to_le_bytes(object_id));
        },
    }
}

/// Encoding undoes decoding: bytes that hold a frame are that frame's bytes,
/// so no two byte strings hold the same frame.
pub proof fn lemma_encode_decode(bytes: Seq<u8>)
    requires
        decode_frame(bytes) is Some,
    ensures
        encode_frame(decode_frame(bytes)->Some_0) == bytes,
        decode_frame(bytes)->Some_0.fits(),
{
    lemma_auto_spec_u64_to_from_le_bytes();
    lemma_auto_spec_u32_to_from_le_bytes();
    let frame = decode_frame(bytes)->Some_0;
    match frame {
        Frame::Request { slot, object_id, method, payload } => {
            assert(spec_u64_to_le_bytes(slot) == bytes.subrange(1, 9));
            assert(spec_u32_to_le_bytes(object_id) == bytes.subrange(9, 13));
            assert(spec_u32_to_le_bytes(method) == bytes.subrange(13, 17));
            assert(spec_u64_to_le_bytes(payload.len() as u64) == bytes.subrange(17, 25));
            assert(encode_frame(frame) =~= bytes);
        },
        Frame::Response { slot, payload } => {
            assert(spec_u64_to_le_bytes(slot) == bytes.subrange(1, 9));
            assert(spec_u64_to_le_bytes(payload.len() as u64) == bytes.subrange(9, 17));
            assert(encode_frame(frame) =~= bytes);
        },
        Frame::Delete { object_id } => {
            assert(spec_u32_to_le_bytes(object_id) == bytes.subrange(1, 5));
            assert(encode_frame(frame) =~= bytes);
        },
    }
}


/// The bytes of a request frame.
fn build_request(slot: SlotId, object_id: ServiceObjectId, method: MethodId, payload: &[u8]) -> (buffer:
    Vec<u8>)
    ensures
        buffer@ == encode_frame(Frame::Request { slot, object_id, method, payload: payload@ }),
{
    let mut buffer: Vec<u8> = Vec::new();
    buffer.push(TAG_REQUEST);
    let mut slot_bytes = u64_to_le_bytes(slot);
    buffer.append(&mut slot_bytes);
    let mut object_bytes = u32_to_le_bytes(object_id);
    buffer.append(&mut object_bytes);
    let mut method_bytes = u32_to_le_bytes(method);
    buffer.append(&mut method_bytes);
    let mut length_bytes = u64_to_le_bytes(payload.len() as u64);
    buffer.append(&mut length_bytes);
    buffer.extend_from_slice(payload);
    assert(buffer@ =~= encode_frame(
        Frame::Request { slot, object_id, method, payload: payload@ },
    ));
    buffer
}

/// The bytes of a response frame.
fn build_response(slot: SlotId, payload: &[u8]) -> (buffer: Vec<u8>)
    ensures
        buffer@ == encode_frame(Frame::Response { slot, payload: payload@ }),
{
    let mut buffer: Vec<u8> = Vec::new();
    buffer.push(TAG_RESPONSE);
    let mut slot_bytes = u64_to_le_bytes(slot);
    buffer.append(&mut slot_bytes);
    let mut length_bytes = u64_to_le_bytes(payload.len() as u64);
    buffer.append(&mut length_bytes);
    buffer.extend_from_slice(payload);
    assert(buffer@ =~= encode_frame(Frame::Response { slot, payload: payload@ }));
    buffer
}

/// The bytes of a delete frame.
fn build_delete(object_id: ServiceObjectId) -> (buffer: Vec<u8>)
    ensures
        buffer@ == encode_frame(Frame::Delete { object_id }),
{
    let mut buffer: Vec<u8> = Vec::new();
    buffer.push(TAG_DELETE);
    let mut object_bytes = u32_to_le_bytes(object_id);
    buffer.append(&mut object_bytes);
    assert(buffer@ =~= encode_frame(Frame::Delete { object_id }));
    buffer
}

/// Whether the bytes hold a frame.
fn is_frame(buffer: &[u8]) -> (ok: bool)
    ensures
        ok == (decode_frame(buffer@) is Some),
{
    let len = buffer.len();
    if len == 0 {
        false
    } else if buffer[0] == TAG_REQUEST {
        len >= REQUEST_HEADER_LEN && u64_from_le_bytes(slice_subrange(buffer, 17, 25)) == (len
            - REQUEST_HEADER_LEN) as u64
    } else if buffer[0] == TAG_RESPONSE {
        len >= RESPONSE_HEADER_LEN && u64_from_le_bytes(slice_subrange(buffer, 9, 17)) == (len
            - RESPONSE_HEADER_LEN) as u64
    } else if buffer[0] == TAG_DELETE {
        len == DELETE_LEN
    } else {
        false
    }
}

/// A frame in a borrowed buffer.
pub struct PacketView<'a> {
    buffer: &'a [u8],
}

impl<'a> PacketView<'a> {
    #[verifier::type_invariant]
    spec fn holds_a_frame(self) -> bool {
        decode_frame(self.buffer@) is Some
    }

    /// The bytes that the view looks at.
    pub closed spec fn bytes(&self) -> Seq<u8> {
        self.buffer@
    }

    /// The frame that the bytes hold.
    pub open spec fn frame(&self) -> Frame {
        decode_frame(self.bytes())->Some_0
    }

    /// Reads a buffer as a frame. Anything that is not exactly one frame is
    /// malformed.
    pub fn new(buffer: &'a [u8]) -> (r: Result<PacketView<'a>, PortError>)
        ensures
            match r {
                Ok(view) => decode_frame(buffer@) == Some(view.frame()) && view.bytes()
                    == buffer@,
                Err(e) => decode_frame(buffer@) is None && e == PortError::MalformedFrame,
            },
    {
        if is_frame(buffer) {
            Ok(PacketView { buffer })
        } else {
            Err(PortError::MalformedFrame)
        }
    }

    /// The kind of the frame, read from its tag.
    pub fn kind(&self) -> (kind: PacketKind)
        ensures
            kind == self.frame().kind(),
            decode_frame(self.bytes()) is Some,
    {
        proof {
            use_type_invariant(self);
        }
        let tag = self.buffer[0];
        if tag == TAG_REQUEST {
            PacketKind::Request
        } else if tag == TAG_RESPONSE {
            PacketKind::Response
        } else {
            PacketKind::Delete
        }
    }

    /// The slot of a request or a response.
    pub fn slot(&self) -> (slot: Option<SlotId>)
        ensures
            slot == match self.frame() {
                Frame::Request { slot, .. } => Some(slot),
                Frame::Response { slot, .. } => Some(slot),
                Frame::Delete { .. } => None,
            },
    {
        proof {
            use_type_invariant(self);
        }
        match self.kind() {
            PacketKind::Delete => None,
            _ => Some(u64_from_le_bytes(slice_subrange(self.buffer, 1, 9))),
        }
    }

    /// The object that a request or a delete frame names.
    pub fn object_id(&self) -> (object_id: Option<ServiceObjectId>)
        ensures
            object_id == match self.frame() {
                Frame::Request { object_id, .. } => Some(object_id),
                Frame::Response { .. } => None,
                Frame::Delete { object_id } => Some(object_id),
            },
    {
        proof {
            use_type_invariant(self);
        }
        match self.kind() {
            PacketKind::Request => Some(u32_from_le_bytes(slice_subrange(self.buffer, 9, 13))),
            PacketKind::Response => None,
            PacketKind::Delete => Some(u32_from_le_bytes(slice_subrange(self.buffer, 1, 5))),
        }
    }

    /// The method that a request names.
    pub fn method(&self) -> (method: Option<MethodId>)
        ensures
            method == match self.frame() {
                Frame::Request { method, .. } => Some(method),
                _ => None,
            },
    {
        proof {
            use_type_invariant(self);
        }
        match self.kind() {
            PacketKind::Request => Some(u32_from_le_bytes(slice_subrange(self.buffer, 13, 17))),
            _ => None,
        }
    }

    /// The payload of a request or a response; empty for a delete frame.
    pub fn data(&self) -> (data: &'a [u8])
        ensures
            data@ == self.frame().payload(),
    {
        proof {
            use_type_invariant(self);
        }
        let len = self.buffer.len();
        match self.kind() {
            PacketKind::Request => slice_subrange(self.buffer, REQUEST_HEADER_LEN, len),
            PacketKind::Response => slice_subrange(self.buffer, RESPONSE_HEADER_LEN, len),
            PacketKind::Delete => {
                let data = slice_subrange(self.buffer, len, len);
                assert(data@ =~= Seq::<u8>::empty());
                data
            },
        }
    }

    /// The whole frame as bytes.
    pub fn as_bytes(&self) -> (bytes: &'a [u8])
        ensures
            bytes@ == self.bytes(),
            bytes@ == encode_frame(self.frame()),
    {
        proof {
            use_type_invariant(self);
            lemma_encode_decode(self.buffer@);
        }
        self.buffer
    }

    /// An owned copy of the frame.
    pub fn to_owned(&self) -> (packet: Packet)
        ensures
            packet.frame() == self.frame(),
            packet.bytes() == self.bytes(),
    {
        proof {
            use_type_invariant(self);
        }
        let mut buffer: Vec<u8> = Vec::new();
        buffer.extend_from_slice(self.buffer);
        assert(buffer@ =~= self.buffer@);
        Packet { buffer }
    }

    /// An owned copy of the frame under another slot. A delete frame has no
    /// slot and is copied as it is.
    pub fn with_slot(&self, slot: SlotId) -> (packet: Packet)
        ensures
            packet.frame() == self.frame().with_slot(slot),
            packet.bytes() == encode_frame(self.frame().with_slot(slot)),
    {
        proof {
            use_type_invariant(self);
            lemma_encode_decode(self.buffer@);
            lemma_decode_encode(self.frame().with_slot(slot));
        }
        let buffer = match self.kind() {
            PacketKind::Request => build_request(
                slot,
                u32_from_le_bytes(slice_subrange(self.buffer, 9, 13)),
                u32_from_le_bytes(slice_subrange(self.buffer, 13, 17)),
                self.data(),
            ),
            PacketKind::Response => build_response(slot, self.data()),
            PacketKind::Delete => build_delete(
                u32_from_le_bytes(slice_subrange(self.buffer, 1, 5)),
            ),
        };
        Packet { buffer }
    }
}

/// A frame in a buffer of its own.
pub struct Packet {
    buffer: Vec<u8>,
}

impl Packet {
    #[verifier::type_invariant]
    spec fn holds_a_frame(self) -> bool {
        decode_frame(self.buffer@) is Some
    }

    /// The bytes of the packet.
    pub closed spec fn bytes(&self) -> Seq<u8> {
        self.buffer@
    }

    /// The frame that the bytes hold.
    pub open spec fn frame(&self) -> Frame {
        decode_frame(self.bytes())->Some_0
    }

    /// A request for `method` of the object `object_id`, not yet stamped with
    /// a slot.
    pub fn new_request(object_id: ServiceObjectId, method: MethodId, args: &[u8]) -> (packet:
        Packet)
        ensures
            packet.frame() == (Frame::Request {
                slot: UNDECIDED_SLOT,
                object_id,
                method,
                payload: args@,
            }),
            packet.bytes() == encode_frame(packet.frame()),
    {
        proof {
            axiom_spec_len(args);
            lemma_decode_encode(
                Frame::Request { slot: UNDECIDED_SLOT, object_id, method, payload: args@ },
            );
        }
        Packet { buffer: build_request(UNDECIDED_SLOT, object_id, method, args) }
    }

    /// The response to the request that was sent under `slot`.
    pub fn new_response(slot: SlotId, payload: &[u8]) -> (packet: Packet)
        ensures
            packet.frame() == (Frame::Response { slot, payload: payload@ }),
            packet.bytes() == encode_frame(packet.frame()),
    {
        proof {
            axiom_spec_len(payload);
            lemma_decode_encode(Frame::Response { slot, payload: payload@ });
        }
        Packet { buffer: build_response(slot, payload) }
    }

    /// The notice that no proxy refers to the object `object_id` any more.
    pub fn new_delete(object_id: ServiceObjectId) -> (packet: Packet)
        ensures
            packet.frame() == (Frame::Delete { object_id }),
            packet.bytes() == encode_frame(packet.frame()),
    {
        proof {
            lemma_decode_encode(Frame::Delete { object_id });
        }
        Packet { buffer: build_delete(object_id) }
    }

    /// Takes a received buffer as a packet. Anything that is not exactly one
    /// frame is malformed.
    pub fn new_from_buffer(buffer: Vec<u8>) -> (r: Result<Packet, PortError>)
        ensures
            match r {
                Ok(packet) => decode_frame(buffer@) == Some(packet.frame()) && packet.bytes()
                    == buffer@,
                Err(e) => decode_frame(buffer@) is None && e == PortError::MalformedFrame,
            },
    {
        if is_frame(buffer.as_slice()) {
            Ok(Packet { buffer })
        } else {
            Err(PortError::MalformedFrame)
        }
    }

    /// A view of the packet.
    pub fn view(&self) -> (view: PacketView<'_>)
        ensures
            view.bytes() == self.bytes(),
            view.frame() == self.frame(),
    {
        proof {
            use_type_invariant(self);
        }
        PacketView { buffer: self.buffer.as_slice() }
    }

    /// The payload of a request or a response; empty for a delete frame.
    pub fn data(&self) -> (data: &[u8])
        ensures
            data@ == self.frame().payload(),
    {
        self.view().data()
    }

    /// The bytes to put on the wire.
    pub fn into_vec(self) -> (buffer: Vec<u8>)
        ensures
            buffer@ == self.bytes(),
            buffer@ == encode_frame(self.frame()),
    {
        proof {
            use_type_invariant(&self);
            lemma_encode_decode(self.buffer@);
        }
        self.buffer
    }
}

/// The response to the request that `request` holds, carrying `result`.
pub open spec fn response_to(request: Seq<u8>, result: Seq<u8>) -> Seq<u8>
    recommends
        decode_frame(request) matches Some(Frame::Request { .. }),
{
    encode_frame(
        Frame::Response { slot: decode_frame(request)->Some_0->Request_slot, payload: result },
    )
}

/// What goes out comes back. The peer reads a request as carrying the
/// arguments that the caller put in, and the caller reads the response as
/// carrying the result that the peer put in, under the request's slot. So a
/// method that hands back what it was handed answers the caller with the very
/// bytes that the caller sent.
pub proof fn lemma_call_round_trip(
    slot: SlotId,
    object_id: ServiceObjectId,
    method: MethodId,
    args: Seq<u8>,
    result: Seq<u8>,
)
    requires
        args.len() <= u64::MAX,
        result.len() <= u64::MAX,
    ensures
        ({
            let request = encode_frame(Frame::Request { slot, object_id, method, payload: args });
            let heard = decode_frame(request)->Some_0.payload();
            &&& decode_frame(request) == Some(
                Frame::Request { slot, object_id, method, payload: args },
            )
            &&& heard == args
            &&& decode_frame(response_to(request, result)) == Some(
                Frame::Response { slot, payload: result },
            )
            &&& decode_frame(response_to(request, heard)) == Some(
                Frame::Response { slot, payload: args },
            )
        }),
{
    lemma_decode_encode(Frame::Request { slot, object_id, method, payload: args });
    lemma_decode_encode(Frame::Response { slot, payload: result });
    lemma_decode_encode(Frame::Response { slot, payload: args });
}

} // verus!
