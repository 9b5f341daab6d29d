//! ARP view (RFC 826): fixed field offsets plus four address fields whose
//! lengths come from the HLEN and PLEN bytes of the frame itself, so the
//! view works for any hardware/protocol address combination.

use vstd::prelude::*;
use vstd::slice::slice_subrange;
use vstd::string::StringExecFns;
use crate::DecodeError;
use crate::spec_be16;
use crate::be16;

verus! {

/// ARP operation. Only 1 is authoritatively a request; every other OPER
/// value is treated as a reply.
#[derive(Clone, Copy, Debug, PartialEq, Eq, Structural)]
pub enum Operation {
    Request,
    Reply,
}

/// The rendering of each operation.
pub open spec fn operation_display(o: Operation) -> Seq<char> {
    match o {
        Operation::Request => "Request"@,
        Operation::Reply => "Reply"@,
    }
}

impl Operation {
    pub fn display_string(&self) -> (s: String)
        ensures
            s@ == operation_display(*self),
    {
        match self {
            Operation::Request => String::from_str("Request"),
            Operation::Reply => String::from_str("Reply"),
        }
    }
}

/// Hardware address length the frame declares.
pub open spec fn arp_hlen(b: Seq<u8>) -> int {
    b[4] as int
}

/// Protocol address length the frame declares.
pub open spec fn arp_plen(b: Seq<u8>) -> int {
    b[5] as int
}

/// The bytes can carry an ARP frame: the fixed fields and the four
/// variable-length address fields all fit.
pub open spec fn arp_parsable(b: Seq<u8>) -> bool {
    &&& b.len() >= 8
    &&& b.len() >= 8 + 2 * (arp_hlen(b) + arp_plen(b))
}

/// Zero-copy view of an ARP frame over the whole Ethernet payload.
pub struct ArpFrame<'a> {
    bytes: &'a [u8],
}

impl<'a> ArpFrame<'a> {
    pub closed spec fn spec_bytes(self) -> Seq<u8> {
        self.bytes@
    }

    /// Structural invariant: the slice holds the fixed fields and the four
    /// address fields whose lengths HLEN and PLEN declare.
    pub open spec fn wf(self) -> bool {
        arp_parsable(self.spec_bytes())
    }

    /// View a byte slice as an ARP frame, reporting exactly why the bytes
    /// cannot carry one.
    pub fn from_bytes(slice: &'a [u8]) -> (r: Result<Self, DecodeError>)
        ensures
            arp_parsable(slice@) ==> (r matches Ok(f) && f.wf() && f.spec_bytes() == slice@),
            !arp_parsable(slice@) ==> r == Err::<Self, DecodeError>(DecodeError::BufferTooShort),
    {
        if slice.len() < 8 {
            return Err(DecodeError::BufferTooShort);
        }
        let need: usize = 8 + 2 * (slice[4] as usize + slice[5] as usize);
        if slice.len() < need {
            return Err(DecodeError::BufferTooShort);
        }
        Ok(ArpFrame { bytes: slice })
    }

    /// Hardware type (HTYPE).
    pub fn htype(&self) -> (r: u16)
        requires
            self.wf(),
        ensures
            r == spec_be16(self.spec_bytes()[0], self.spec_bytes()[1]),
    {
        be16(self.bytes[0], self.bytes[1])
    }

    /// Protocol type (PTYPE).
    pub fn ptype(&self) -> (r: u16)
        requires
            self.wf(),
        ensures
            r == spec_be16(self.spec_bytes()[2], self.spec_bytes()[3]),
    {
        be16(self.bytes[2], self.bytes[3])
    }

    /// Hardware address length (HLEN).
    pub fn hlen(&self) -> (r: u8)
        requires
            self.wf(),
        ensures
            r == arp_hlen(self.spec_bytes()),
    {
        self.bytes[4]
    }

    /// Protocol address length (PLEN).
    pub fn plen(&self) -> (r: u8)
        requires
            self.wf(),
        ensures
            r == arp_plen(self.spec_bytes()),
    {
        self.bytes[5]
    }

    /// Operation: the 16-bit OPER field at bytes 6 and 7; the value 1
    /// decodes as a request, anything else as a reply.
    pub fn oper(&self) -> (r: Operation)
        requires
            self.wf(),
        ensures
            r == (if spec_be16(self.spec_bytes()[6], self.spec_bytes()[7]) == 1 {
                Operation::Request
            } else {
                Operation::Reply
            }),
    {
        if be16(self.bytes[6], self.bytes[7]) == 1 {
            Operation::Request
        } else {
            Operation::Reply
        }
    }

    /// Sender hardware address: exactly HLEN bytes at offset 8.
    pub fn sha(&self) -> (r: &'a [u8])
        requires
            self.wf(),
        ensures
            r@ == self.spec_bytes().subrange(8, 8 + arp_hlen(self.spec_bytes())),
            r@.len() == arp_hlen(self.spec_bytes()),
    {
        let size = self.bytes[4] as usize;
        slice_subrange(self.bytes, 8, 8 + size)
    }

    /// Sender protocol address: exactly PLEN bytes after the sender
    /// hardware address.
    pub fn spa(&self) -> (r: &'a [u8])
        requires
            self.wf(),
        ensures
            ({
                let b = self.spec_bytes();
                r@ == b.subrange(8 + arp_hlen(b), 8 + arp_hlen(b) + arp_plen(b)) && r@.len()
                    == arp_plen(b)
            }),
    {
        let begin: usize = 8 + self.bytes[4] as usize;
        let end: usize = begin + self.bytes[5] as usize;
        slice_subrange(self.bytes, begin, end)
    }

    /// Target hardware address: exactly HLEN bytes after the sender
    /// protocol address.
    pub fn tha(&self) -> (r: &'a [u8])
        requires
            self.wf(),
        ensures
            ({
                let b = self.spec_bytes();
                let begin = 8 + arp_hlen(b) + arp_plen(b);
                r@ == b.subrange(begin, begin + arp_hlen(b)) && r@.len() == arp_hlen(b)
            }),
    {
        let begin: usize = 8 + self.bytes[4] as usize + self.bytes[5] as usize;
        let end: usize = begin + self.bytes[4] as usize;
        slice_subrange(self.bytes, begin, end)
    }

    /// Target protocol address: exactly PLEN bytes after the target
    /// hardware address.
    pub fn tpa(&self) -> (r: &'a [u8])
        requires
            self.wf(),
        ensures
            ({
                let b = self.spec_bytes();
                let begin = 8 + 2 * arp_hlen(b) + arp_plen(b);
                r@ == b.subrange(begin, begin + arp_plen(b)) && r@.len() == arp_plen(b)
            }),
    {
        let begin: usize = 8 + 2 * (self.bytes[4] as usize) + self.bytes[5] as usize;
        let end: usize = begin + self.bytes[5] as usize;
        slice_subrange(self.bytes, begin, end)
    }
}

} // verus!
