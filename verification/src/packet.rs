//! Packet framing: one radio frame is the byte sequence
//! `[S0][LENGTH][S1][PAYLOAD]`, where LENGTH is one byte holding the payload's
//! byte count and the whole frame may not exceed `MAX_FRAME_LEN` bytes.

use vstd::prelude::*;

use crate::RadioError;

verus! {

/// Upper bound, in bytes, on S0 + LENGTH + S1 + PAYLOAD together; fixed by the
/// hardware's frame-length encoding.
pub const MAX_FRAME_LEN: usize = 254;

/// One radio frame: an S0 prefix, the one-byte LENGTH field, an S1 field and a
/// payload of LENGTH bytes. Construction enforces the frame bound; no later
/// operation changes the fields.
pub struct Packet {
    s0: Vec<u8>,
    s1: Vec<u8>,
    payload: Vec<u8>,
}

impl Packet {
    /// The S0 prefix bytes.
    pub closed spec fn spec_s0(&self) -> Seq<u8> {
        self.s0@
    }

    /// The S1 bytes.
    pub closed spec fn spec_s1(&self) -> Seq<u8> {
        self.s1@
    }

    /// The payload bytes; their count is the frame's LENGTH field.
    pub closed spec fn spec_payload(&self) -> Seq<u8> {
        self.payload@
    }

    /// Total size of the frame on the wire, the LENGTH byte included.
    pub open spec fn spec_total_len(&self) -> int {
        self.spec_s0().len() + 1 + self.spec_s1().len() + self.spec_payload().len() as int
    }

    /// A frame the hardware can address: its total size is within the bound.
    pub open spec fn wf(&self) -> bool {
        self.spec_total_len() <= MAX_FRAME_LEN
    }

    /// The frame's wire image: `[S0][LENGTH][S1][PAYLOAD]`.
    pub open spec fn wire(&self) -> Seq<u8> {
        self.spec_s0() + seq![self.spec_payload().len() as u8] + self.spec_s1()
            + self.spec_payload()
    }

    /// Builds a frame from its fields. Succeeds exactly when
    /// `S0 + 1 + S1 + PAYLOAD` fits in `MAX_FRAME_LEN` bytes; an oversized
    /// frame is rejected here, before any hardware interaction, with
    /// `OversizedFrame`.
    pub fn new(s0: Vec<u8>, s1: Vec<u8>, payload: Vec<u8>) -> (r: Result<Packet, RadioError>)
        ensures
            r is Ok <==> s0@.len() + 1 + s1@.len() + payload@.len() <= MAX_FRAME_LEN,
            r matches Ok(p) ==> {
                &&& p.spec_s0() == s0@
                &&& p.spec_s1() == s1@
                &&& p.spec_payload() == payload@
                &&& p.wf()
            },
            r is Err ==> r == Err::<Packet, RadioError>(RadioError::OversizedFrame),
    {
        if s0.len() <= MAX_FRAME_LEN && s1.len() <= MAX_FRAME_LEN && payload.len() <= MAX_FRAME_LEN
            && s0.len() + 1 + s1.len() + payload.len() <= MAX_FRAME_LEN {
            Ok(Packet { s0, s1, payload })
        } else {
            Err(RadioError::OversizedFrame)
        }
    }

    /// The frame's LENGTH field: the payload's byte count.
    pub fn length(&self) -> (r: u8)
        requires
            self.wf(),
        ensures
            r == self.spec_payload().len(),
    {
        self.payload.len() as u8
    }

    /// Read access to the S0 prefix.
    pub fn s0(&self) -> (r: &Vec<u8>)
        ensures
            r@ == self.spec_s0(),
    {
        &self.s0
    }

    /// Read access to the S1 field.
    pub fn s1(&self) -> (r: &Vec<u8>)
        ensures
            r@ == self.spec_s1(),
    {
        &self.s1
    }

    /// Read access to the payload.
    pub fn payload(&self) -> (r: &Vec<u8>)
        ensures
            r@ == self.spec_payload(),
    {
        &self.payload
    }

    /// Total size of the frame on the wire.
    pub fn total_len(&self) -> (r: usize)
        requires
            self.wf(),
        ensures
            r == self.spec_total_len(),
    {
        self.s0.len() + 1 + self.s1.len() + self.payload.len()
    }

    /// The frame's wire image, as the peripheral's transfer mechanism reads it:
    /// S0, then LENGTH, then S1, then the payload.
    pub fn to_bytes(&self) -> (r: Vec<u8>)
        requires
            self.wf(),
        ensures
            r@ == self.wire(),
            r@.len() == self.spec_total_len(),
    {
        let mut out: Vec<u8> = Vec::new();
        push_all(&mut out, &self.s0);
        out.push(self.payload.len() as u8);
        push_all(&mut out, &self.s1);
        push_all(&mut out, &self.payload);
        proof {
            assert(out@ =~= self.wire());
        }
        out
    }

    /// Reads one frame back out of a receive buffer filled by the peripheral,
    /// under the frame layout `s0_len`/`s1_len`. The reported LENGTH is
    /// validated against the buffer's capacity before any byte is copied: a
    /// frame that does not fit the buffer is a `FramingOverrun`, one that fits
    /// the buffer but breaks the frame bound an `OversizedFrame`, and no more
    /// bytes than the buffer holds are ever read.
    pub fn parse(raw: &Vec<u8>, s0_len: usize, s1_len: usize) -> (r: Result<Packet, RadioError>)
        ensures
            raw@.len() < s0_len + 1 ==> r == Err::<Packet, RadioError>(RadioError::FramingOverrun),
            raw@.len() >= s0_len + 1 && s0_len + 1 + s1_len + raw@[s0_len as int] > raw@.len()
                ==> r == Err::<Packet, RadioError>(RadioError::FramingOverrun),
            raw@.len() >= s0_len + 1 && s0_len + 1 + s1_len + raw@[s0_len as int] <= raw@.len()
                && s0_len + 1 + s1_len + raw@[s0_len as int] > MAX_FRAME_LEN
                ==> r == Err::<Packet, RadioError>(RadioError::OversizedFrame),
            raw@.len() >= s0_len + 1 && s0_len + 1 + s1_len + raw@[s0_len as int] <= raw@.len()
                && s0_len + 1 + s1_len + raw@[s0_len as int] <= MAX_FRAME_LEN ==> (r matches Ok(p)
                && p.spec_s0() == raw@.subrange(0, s0_len as int) && p.spec_s1()
                == raw@.subrange(s0_len + 1, s0_len + 1 + s1_len) && p.spec_payload()
                == raw@.subrange(
                s0_len + 1 + s1_len,
                s0_len + 1 + s1_len + raw@[s0_len as int],
            ) && p.wf()),
    {
        let cap = raw.len();
        if cap <= s0_len || cap - (s0_len + 1) < s1_len {
            // Not even the S0/LENGTH/S1 header fits the buffer.
            return Err(RadioError::FramingOverrun);
        }
        let len = raw[s0_len] as usize;
        let header = s0_len + 1 + s1_len;
        if len > cap - header {
            return Err(RadioError::FramingOverrun);
        }
        if header + len > MAX_FRAME_LEN {
            return Err(RadioError::OversizedFrame);
        }
        let s0 = copy_range(raw, 0, s0_len);
        let s1 = copy_range(raw, s0_len + 1, header);
        let payload = copy_range(raw, header, header + len);
        Ok(Packet { s0, s1, payload })
    }
}

/// Law: the wire image round-trips. Reading a frame's own wire image back
/// under the layout it was built with recovers every field: the S0 prefix, the
/// LENGTH byte, the S1 field and the payload all stand at the offsets that
/// `parse` reads, so a frame received out of its own transmitted image carries
/// the fields of the frame that was sent.
pub proof fn lemma_wire_round_trip(p: Packet)
    requires
        p.wf(),
    ensures
        p.wire().len() == p.spec_total_len(),
        p.wire().subrange(0, p.spec_s0().len() as int) == p.spec_s0(),
        p.wire()[p.spec_s0().len() as int] == p.spec_payload().len() as u8,
        p.wire().subrange(
            p.spec_s0().len() as int + 1,
            p.spec_s0().len() + 1 + p.spec_s1().len() as int,
        ) == p.spec_s1(),
        p.wire().subrange(
            p.spec_s0().len() + 1 + p.spec_s1().len() as int,
            p.spec_total_len(),
        ) == p.spec_payload(),
{
    let n0 = p.spec_s0().len() as int;
    let n1 = p.spec_s1().len() as int;
    assert(p.wire().subrange(0, n0) =~= p.spec_s0());
    assert(p.wire().subrange(n0 + 1, n0 + 1 + n1) =~= p.spec_s1());
    assert(p.wire().subrange(n0 + 1 + n1, p.spec_total_len()) =~= p.spec_payload());
}

/// Appends all of `src` to `out`, in order.
fn push_all(out: &mut Vec<u8>, src: &Vec<u8>)
    ensures
        final(out)@ == old(out)@ + src@,
{
    let mut i: usize = 0;
    while i < src.len()
        invariant
            i <= src@.len(),
            out@ == old(out)@ + src@.subrange(0, i as int),
        decreases src@.len() - i,
    {
        out.push(src[i]);
        proof {
            assert((old(out)@ + src@.subrange(0, i as int)).push(src@[i as int]) =~= old(out)@
                + src@.subrange(0, i + 1));
        }
        i += 1;
    }
    proof {
        assert(src@.subrange(0, src@.len() as int) =~= src@);
    }
}

/// Copies `src[from..to]` into a fresh vector.
fn copy_range(src: &Vec<u8>, from: usize, to: usize) -> (r: Vec<u8>)
    requires
        from <= to <= src@.len(),
    ensures
        r@ == src@.subrange(from as int, to as int),
{
    let mut out: Vec<u8> = Vec::new();
    let mut i: usize = from;
    while i < to
        invariant
            from <= i <= to <= src@.len(),
            out@ == src@.subrange(from as int, i as int),
        decreases to - i,
    {
        out.push(src[i]);
        proof {
            assert(src@.subrange(from as int, i as int).push(src@[i as int]) =~= src@.subrange(
                from as int,
                i + 1,
            ));
        }
        i += 1;
    }
    out
}

} // verus!
