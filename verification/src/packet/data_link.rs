//! The data-link layer: the Ethernet II header and its optional VLAN tag.

use crate::byte_slice::address::MacAddress;
use crate::byte_slice::codec::be_u16;
use crate::byte_slice::codec::be_u64;
use crate::byte_slice::codec::SliceToUnsigned;
use crate::byte_slice::window::Bytes;
use crate::byte_slice::window::DecodeError;
use crate::packet::network::NetworkLayer;
use vstd::prelude::*;

verus! {

/// What was found at the bottom of the frame.
#[derive(Debug, Default)]
pub enum DataLinkLayer<'a> {
    /// No data-link layer.
    #[default]
    NULL,
    /// A framing that is not decoded: the bytes as they were found.
    UndefinedData(&'a Bytes<'a>),
    ETHII(ETHII<'a>),
    PPP,
    HDLC,
}

/// The two bytes of an 802.1Q tag after its marker: three bits of priority,
/// one drop-eligible bit, twelve bits of VLAN id.
#[derive(Clone, Copy, Debug, Default, PartialEq, Eq, Structural)]
pub struct Tag802_1Q(u16);

impl Tag802_1Q {
    /// The tag whose two bytes spell `raw`.
    pub closed spec fn of(raw: u16) -> Tag802_1Q {
        Tag802_1Q(raw)
    }

    /// The number that the two bytes of the tag spell.
    pub closed spec fn raw(self) -> u16 {
        self.0
    }

    /// The priority code point: the upper three bits.
    pub open spec fn spec_pcp(self) -> u16 {
        self.raw() >> 13
    }

    /// The drop-eligible indicator: the bit below the priority.
    pub open spec fn spec_dei(self) -> u16 {
        (self.raw() >> 12) & 1
    }

    /// The VLAN id: the lower twelve bits.
    pub open spec fn spec_vid(self) -> u16 {
        self.raw() & 0x0fff
    }

    /// A tag is determined by the number that its bytes spell.
    pub proof fn lemma_raw(raw: u16)
        ensures
            Self::of(raw).raw() == raw,
    {
    }

    /// The priority code point: the upper three bits.
    pub fn pcp(&self) -> (res: u16)
        ensures
            res == self.spec_pcp(),
    {
        self.0 >> 13
    }

    /// The drop-eligible indicator: the bit below the priority.
    pub fn dei(&self) -> (res: u16)
        ensures
            res == self.spec_dei(),
    {
        (self.0 >> 12) & 1
    }

    /// The VLAN id: the lower twelve bits.
    pub fn vid(&self) -> (res: u16)
        ensures
            res == self.spec_vid(),
    {
        self.0 & 0x0fff
    }
}

/// The header of an Ethernet II frame.
#[derive(Clone, Copy, Debug, Default, PartialEq, Eq, Structural)]
pub struct MacHeader {
    pub address_dst: MacAddress,
    pub address_src: MacAddress,
    /// The VLAN tag, where bytes 12 and 13 are the marker `0x8100`.
    pub tag_802_1q: Option<Tag802_1Q>,
    pub ethertype: u16,
}

impl MacHeader {
    /// Whether the bytes of a frame carry a VLAN tag: bytes 12 and 13 are
    /// `0x81` and `0x00`.
    pub open spec fn spec_tagged(s: Seq<u8>) -> bool {
        s[12] == 0x81 && s[13] == 0x00
    }

    /// The number of bytes that the header of a frame with the bytes `s`
    /// takes: fourteen, and four more with a VLAN tag.
    pub open spec fn spec_len_of(s: Seq<u8>) -> nat {
        if Self::spec_tagged(s) {
            18
        } else {
            14
        }
    }

    /// Whether `w` holds the fourteen bytes of a header, and the eighteen of
    /// a tagged one where the marker is there.
    pub open spec fn spec_holds_header(w: Bytes) -> bool {
        w@.len() >= 14 && w@.len() >= Self::spec_len_of(w@)
    }

    /// The header that the start of `w` decodes to: `InsufficientData` when
    /// `w` does not hold it.
    pub open spec fn spec_from_bytes(w: Bytes) -> Result<MacHeader, DecodeError> {
        let s = w@;
        if !Self::spec_holds_header(w) {
            Err(DecodeError::InsufficientData)
        } else if Self::spec_tagged(s) {
            Ok(
                MacHeader {
                    address_dst: MacAddress::pack(be_u64(s.subrange(0, 6))),
                    address_src: MacAddress::pack(be_u64(s.subrange(6, 12))),
                    tag_802_1q: Some(Tag802_1Q::of(be_u16(s.subrange(14, 16)))),
                    ethertype: be_u16(s.subrange(16, 18)),
                },
            )
        } else {
            Ok(
                MacHeader {
                    address_dst: MacAddress::pack(be_u64(s.subrange(0, 6))),
                    address_src: MacAddress::pack(be_u64(s.subrange(6, 12))),
                    tag_802_1q: None,
                    ethertype: be_u16(s.subrange(12, 14)),
                },
            )
        }
    }

    /// The window that decoding leaves: past the header, or `w` itself where
    /// decoding fails.
    pub open spec fn spec_remainder<'a>(w: Bytes<'a>) -> Bytes<'a> {
        if !Self::spec_holds_header(w) {
            w
        } else {
            w.advanced(Self::spec_len_of(w@))
        }
    }

    /// The number of bytes that the header takes: fourteen, and four more
    /// with a VLAN tag.
    pub open spec fn spec_header_len(&self) -> nat {
        if self.tag_802_1q is Some {
            18
        } else {
            14
        }
    }

    /// The presence of the tag in a header says how many bytes decoding took
    /// from the window: what is left starts right after them.
    pub proof fn lemma_length_agrees(w: Bytes)
        requires
            w.wf(),
        ensures
            match Self::spec_from_bytes(w) {
                Ok(header) => {
                    &&& header.spec_header_len() <= w@.len()
                    &&& Self::spec_remainder(w) == w.advanced(header.spec_header_len())
                    &&& Self::spec_remainder(w)@ == w@.skip(header.spec_header_len() as int)
                },
                Err(_) => Self::spec_remainder(w) == w,
            },
    {
        if Self::spec_holds_header(w) {
            w.lemma_advanced(Self::spec_len_of(w@));
        }
    }

    /// Decodes the header at the start of `bytes` and moves `bytes` past it.
    pub fn from_bytes(bytes: &mut Bytes) -> (res: Result<Self, DecodeError>)
        ensures
            res == Self::spec_from_bytes(*old(bytes)),
            *final(bytes) == Self::spec_remainder(*old(bytes)),
    {
        if bytes.len() < 14 {
            return Err(DecodeError::InsufficientData);
        }
        let address_dst = MacAddress::from(bytes[0..6].to_u64());
        let address_src = MacAddress::from(bytes[6..12].to_u64());
        let tagged = bytes[12] == 0x81 && bytes[13] == 0x00;
        if tagged && bytes.len() < 18 {
            return Err(DecodeError::InsufficientData);
        }
        let tag_802_1q = if tagged {
            Some(Tag802_1Q(bytes[14..16].to_u16()))
        } else {
            None
        };
        let offset: usize = if tagged {
            4
        } else {
            0
        };
        let ethertype = bytes[12 + offset..14 + offset].to_u16();
        bytes.shift_first(14 + offset)?;
        Ok(Self { address_dst, address_src, tag_802_1q, ethertype })
    }
}

/// An Ethernet II frame: its header and what it carries.
#[derive(Debug, Default)]
pub struct ETHII<'a> {
    pub mac_header: MacHeader,
    pub network_layer: NetworkLayer<'a>,
}

impl<'a> ETHII<'a> {
    /// The frame that `w` decodes to: the header at its start, then the
    /// network layer that the ethertype names. `InsufficientData` when a
    /// header claims more bytes than `w` holds.
    pub open spec fn spec_from_bytes(w: Bytes<'a>) -> Result<ETHII<'a>, DecodeError> {
        match MacHeader::spec_from_bytes(w) {
            Err(e) => Err(e),
            Ok(mac_header) => match NetworkLayer::spec_from_data(
                mac_header.ethertype,
                MacHeader::spec_remainder(w),
            ) {
                Err(e) => Err(e),
                Ok(network_layer) => Ok(ETHII { mac_header, network_layer }),
            },
        }
    }

    /// The window that decoding leaves: what the last layer that was tried
    /// left of it.
    pub open spec fn spec_remainder(w: Bytes<'a>) -> Bytes<'a> {
        match MacHeader::spec_from_bytes(w) {
            Err(_) => w,
            Ok(mac_header) => NetworkLayer::spec_remainder(
                mac_header.ethertype,
                MacHeader::spec_remainder(w),
            ),
        }
    }

    /// The number of bytes that all the headers of the frame take.
    pub open spec fn spec_header_len(&self) -> nat {
        self.mac_header.spec_header_len() + self.network_layer.spec_header_len()
    }

    /// The number of bytes from which the fields of all the headers of the
    /// frame are read.
    pub open spec fn spec_fields_len(&self) -> nat {
        self.mac_header.spec_header_len() + self.network_layer.spec_fields_len()
    }

    /// The window of bytes that no header took, where the frame holds one.
    pub open spec fn spec_payload(&self) -> Option<&'a Bytes<'a>> {
        self.network_layer.spec_payload()
    }

    /// Where a frame decodes, the bytes that its headers take and the bytes
    /// that are left make up the whole of the window that was given. The
    /// window that decoding leaves holds what follows the headers, within the
    /// same buffer, and is the payload of the topmost layer where that layer
    /// holds one. The headers take every byte that a field was read from, so
    /// no byte is both in a field and in what is left.
    pub proof fn lemma_conservation(w: Bytes<'a>)
        requires
            w.wf(),
        ensures
            Self::spec_remainder(w).wf(),
            Self::spec_remainder(w).buffer() == w.buffer(),
            Self::spec_remainder(w).end() == w.end(),
            match Self::spec_from_bytes(w) {
                Ok(frame) => {
                    &&& frame.spec_header_len() + Self::spec_remainder(w)@.len() == w@.len()
                    &&& Self::spec_remainder(w)@ == w@.skip(frame.spec_header_len() as int)
                    &&& frame.spec_payload() matches Some(payload) ==> *payload
                        == Self::spec_remainder(w)
                    &&& frame.spec_payload() is None <==> frame.network_layer is ARP
                    &&& frame.spec_fields_len() <= frame.spec_header_len()
                },
                Err(_) => true,
            },
    {
        let s = w@;
        match MacHeader::spec_from_bytes(w) {
            Ok(mac_header) => {
                let n = MacHeader::spec_len_of(s);
                let rest = w.advanced(n);
                w.lemma_advanced(n);
                NetworkLayer::lemma_conservation(mac_header.ethertype, rest);
                match NetworkLayer::spec_from_data(mac_header.ethertype, rest) {
                    Ok(layer) => {
                        assert(s.skip(n as int).skip(layer.spec_header_len() as int) =~= s.skip(
                            (n + layer.spec_header_len()) as int,
                        ));
                    },
                    Err(_) => {},
                }
            },
            Err(_) => {},
        }
    }

    /// The number of bytes that all the headers of the frame take.
    pub fn header_len(&self) -> (res: usize)
        ensures
            res == self.spec_header_len(),
    {
        let own: usize = if self.mac_header.tag_802_1q.is_some() {
            18
        } else {
            14
        };
        own + self.network_layer.header_len()
    }

    /// The window of bytes that no header took, where the frame holds one.
    pub fn payload(&self) -> (res: Option<&'a Bytes<'a>>)
        ensures
            res == self.spec_payload(),
    {
        self.network_layer.payload()
    }

    /// Decodes the frame that `bytes` holds, layer by layer, and moves
    /// `bytes` past its headers.
    pub fn from_bytes(bytes: &'a mut Bytes) -> (res: Result<Self, DecodeError>)
        ensures
            res == Self::spec_from_bytes(*old(bytes)),
            *final(bytes) == Self::spec_remainder(*old(bytes)),
    {
        let mac_header = MacHeader::from_bytes(bytes)?;
        let network_layer = NetworkLayer::from_data(mac_header.ethertype, bytes)?;
        Ok(Self { mac_header, network_layer })
    }
}

} // verus!
