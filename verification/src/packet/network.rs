//! The network layer: IPv4, IPv6 and ARP headers.

use crate::byte_slice::address::Ipv4addr;
use crate::byte_slice::address::Ipv6addr;
use crate::byte_slice::address::MacAddress;
use crate::byte_slice::codec::be_u128;
use crate::byte_slice::codec::be_u16;
use crate::byte_slice::codec::be_u32;
use crate::byte_slice::codec::be_u64;
use crate::byte_slice::codec::SliceToUnsigned;
use crate::byte_slice::window::Bytes;
use crate::byte_slice::window::DecodeError;
use crate::packet::transport::TransportLayer;
use vstd::prelude::*;

verus! {

/// An IPv4 header, its options as they were found, and what it carries.
#[allow(non_snake_case)]
#[derive(Debug, Default)]
pub struct Ipv4<'a> {
    /// The upper four bits of byte 0.
    pub version: u8,
    /// The length of the header in 32-bit words: the lower four bits of
    /// byte 0.
    pub IHL: u8,
    /// Byte 1: the service code point in its upper six bits, the congestion
    /// mark in its lower two.
    pub DSPC: u8,
    pub total_length: u16,
    pub identification: u16,
    /// The upper three bits of byte 6.
    pub flags: u8,
    /// The lower thirteen bits of bytes 6 and 7.
    pub fragment_offset: u16,
    pub ttl: u8,
    pub protocol: u8,
    /// The checksum as it was found; it is not verified.
    pub header_checksum: u16,
    pub address_src: Ipv4addr,
    pub address_dst: Ipv4addr,
    /// The bytes between the fixed part and the end of the header, where the
    /// header is longer than five words.
    pub options: Option<Bytes<'a>>,
    pub transport_layer: TransportLayer<'a>,
}

impl<'a> Ipv4<'a> {
    /// The number of bytes that a header takes whose length field is
    /// `words`: four for each word, and never fewer than the twenty bytes of
    /// the fixed part, from which the fields are read.
    pub open spec fn spec_len_for(words: u8) -> nat {
        if words < 5 {
            20
        } else {
            4 * (words as nat)
        }
    }

    /// The number of bytes that a header takes whose byte 0 is `byte`.
    pub open spec fn spec_len_of(byte: u8) -> nat {
        Self::spec_len_for(byte & 0x0f)
    }

    /// Whether `w` holds the twenty bytes of the fixed part and as many
    /// bytes as the header length claims.
    pub open spec fn spec_holds_header(w: Bytes<'a>) -> bool {
        w@.len() >= 20 && w@.len() >= Self::spec_len_of(w@[0])
    }

    /// The header that the start of `w` decodes to, with the transport layer
    /// that follows it. `InsufficientData` when `w` does not hold the header,
    /// or when the transport layer fails so. The transport layer never starts
    /// within the fixed part, whatever the header length says.
    pub open spec fn spec_from_bytes(w: Bytes<'a>) -> Result<Ipv4<'a>, DecodeError> {
        let s = w@;
        if !Self::spec_holds_header(w) {
            Err(DecodeError::InsufficientData)
        } else {
            match TransportLayer::spec_from_data(s[9], w.advanced(Self::spec_len_of(s[0]))) {
                Err(e) => Err(e),
                Ok(transport_layer) => Ok(
                    Ipv4 {
                        version: s[0] >> 4,
                        IHL: s[0] & 0x0f,
                        DSPC: s[1],
                        total_length: be_u16(s.subrange(2, 4)),
                        identification: be_u16(s.subrange(4, 6)),
                        flags: s[6] >> 5,
                        fragment_offset: be_u16(s.subrange(6, 8)) & 0x1fff,
                        ttl: s[8],
                        protocol: s[9],
                        header_checksum: be_u16(s.subrange(10, 12)),
                        address_src: Ipv4addr(be_u32(s.subrange(12, 16))),
                        address_dst: Ipv4addr(be_u32(s.subrange(16, 20))),
                        options: if (s[0] & 0x0f) > 5 {
                            Some(w.spec_narrowed(20, Self::spec_len_of(s[0])))
                        } else {
                            None
                        },
                        transport_layer,
                    },
                ),
            }
        }
    }

    /// The window that decoding leaves: `w` itself where it does not hold the
    /// header, else what the transport layer leaves of the rest.
    pub open spec fn spec_remainder(w: Bytes<'a>) -> Bytes<'a> {
        if !Self::spec_holds_header(w) {
            w
        } else {
            TransportLayer::spec_remainder(w@[9], w.advanced(Self::spec_len_of(w@[0])))
        }
    }

    /// The number of bytes that the header takes: four for each word of its
    /// length field, and never fewer than the twenty bytes of the fixed part.
    pub open spec fn spec_own_len(&self) -> nat {
        Self::spec_len_for(self.IHL)
    }

    /// The number of bytes that this header and those above it take.
    pub open spec fn spec_header_len(&self) -> nat {
        self.spec_own_len() + self.transport_layer.spec_header_len()
    }

    /// The service code point: the upper six bits of `DSPC`.
    pub open spec fn spec_dscp(&self) -> u8 {
        self.DSPC >> 2
    }

    /// The congestion mark: the lower two bits of `DSPC`.
    pub open spec fn spec_ecn(&self) -> u8 {
        self.DSPC & 0x03
    }

    /// The service code point: the upper six bits of `DSPC`.
    pub fn dscp(&self) -> (res: u8)
        ensures
            res == self.spec_dscp(),
    {
        self.DSPC >> 2
    }

    /// The congestion mark: the lower two bits of `DSPC`.
    pub fn ecn(&self) -> (res: u8)
        ensures
            res == self.spec_ecn(),
    {
        self.DSPC & 0x03
    }

    /// The transport layer is what the window holds right after the bytes
    /// that the header takes, under the protocol number that the header
    /// records. These bytes are the words that the header length records,
    /// where it records at least the five words of the fixed part, and the
    /// fixed part where it records fewer: no byte that a field was read from
    /// is handed to the transport layer. The header is its fixed part of
    /// twenty bytes and its options, which are kept.
    pub proof fn lemma_length_agrees(w: Bytes<'a>)
        requires
            w.wf(),
        ensures
            match Self::spec_from_bytes(w) {
                Ok(header) => {
                    &&& 20 <= header.spec_own_len() <= w@.len()
                    &&& header.IHL >= 5 ==> header.spec_own_len() == 4 * header.IHL
                    &&& header.IHL < 5 ==> header.spec_own_len() == 20
                    &&& TransportLayer::spec_from_data(
                        header.protocol,
                        w.advanced(header.spec_own_len()),
                    ) == Ok::<TransportLayer<'a>, DecodeError>(header.transport_layer)
                    &&& w.advanced(header.spec_own_len())@ == w@.skip(header.spec_own_len() as int)
                    &&& header.options matches Some(options) ==> options.wf() && options@
                        == w@.subrange(20, header.spec_own_len() as int)
                    &&& header.options is Some <==> header.IHL > 5
                    &&& header.spec_own_len() == 20 + match header.options {
                        Some(options) => options@.len(),
                        None => 0,
                    }
                },
                Err(_) => true,
            },
    {
        if Self::spec_holds_header(w) {
            let n = Self::spec_len_of(w@[0]);
            w.lemma_advanced(n);
            if (w@[0] & 0x0f) > 5 {
                w.lemma_narrowed(20, n);
            }
        }
    }

    /// Decodes the header at the start of `bytes`, then the transport layer
    /// that its protocol number names, and moves `bytes` past both.
    #[allow(non_snake_case)]
    pub fn from_bytes(bytes: &'a mut Bytes) -> (res: Result<Self, DecodeError>)
        ensures
            res == Self::spec_from_bytes(*old(bytes)),
            *final(bytes) == Self::spec_remainder(*old(bytes)),
    {
        if bytes.len() < 20 {
            return Err(DecodeError::InsufficientData);
        }
        let version = bytes[0] >> 4;
        let IHL = bytes[0] & 0x0f;
        let DSPC = bytes[1];
        let total_length = bytes[2..4].to_u16();
        let identification = bytes[4..6].to_u16();
        let flags = bytes[6] >> 5;
        let fragment_offset = bytes[6..8].to_u16() & 0x1fff;
        let ttl = bytes[8];
        let protocol = bytes[9];
        let header_checksum = bytes[10..12].to_u16();
        let address_src = Ipv4addr(bytes[12..16].to_u32());
        let address_dst = Ipv4addr(bytes[16..20].to_u32());
        let header_len: usize = if IHL < 5 {
            20
        } else {
            4 * (IHL as usize)
        };
        if bytes.len() < header_len {
            return Err(DecodeError::InsufficientData);
        }
        let options = if IHL > 5 {
            Some(bytes.narrowed(20, header_len))
        } else {
            None
        };
        bytes.shift_first(header_len)?;
        let transport_layer = TransportLayer::from_data(protocol, bytes)?;
        Ok(
            Self {
                version,
                IHL,
                DSPC,
                total_length,
                identification,
                flags,
                fragment_offset,
                ttl,
                protocol,
                header_checksum,
                address_src,
                address_dst,
                options,
                transport_layer,
            },
        )
    }
}

/// An IPv6 header and what it carries.
#[derive(Debug, Default)]
pub struct Ipv6<'a> {
    /// The upper four bits of byte 0.
    pub version: u8,
    /// The eight bits after the version.
    pub traffic_class: u8,
    /// The twenty bits after the traffic class.
    pub flow_label: u32,
    pub payload_length: u16,
    pub next_header: u8,
    pub hop_limit: u8,
    pub address_src: Ipv6addr,
    pub address_dst: Ipv6addr,
    pub transport_layer: TransportLayer<'a>,
}

impl<'a> Ipv6<'a> {
    /// The header that the start of `w` decodes to, with the transport layer
    /// that follows it. `InsufficientData` when `w` holds fewer than the forty
    /// bytes of the header, or when the transport layer fails so.
    pub open spec fn spec_from_bytes(w: Bytes<'a>) -> Result<Ipv6<'a>, DecodeError> {
        let s = w@;
        if s.len() < 40 {
            Err(DecodeError::InsufficientData)
        } else {
            match TransportLayer::spec_from_data(s[6], w.advanced(40)) {
                Err(e) => Err(e),
                Ok(transport_layer) => Ok(
                    Ipv6 {
                        version: s[0] >> 4,
                        traffic_class: ((s[0] & 0x0f) << 4) | (s[1] >> 4),
                        flow_label: be_u32(s.subrange(1, 4)) & 0x0f_ffff,
                        payload_length: be_u16(s.subrange(4, 6)),
                        next_header: s[6],
                        hop_limit: s[7],
                        address_src: Ipv6addr(be_u128(s.subrange(8, 24))),
                        address_dst: Ipv6addr(be_u128(s.subrange(24, 40))),
                        transport_layer,
                    },
                ),
            }
        }
    }

    /// The window that decoding leaves: `w` itself where it does not hold the
    /// header, else what the transport layer leaves of the rest.
    pub open spec fn spec_remainder(w: Bytes<'a>) -> Bytes<'a> {
        if w@.len() < 40 {
            w
        } else {
            TransportLayer::spec_remainder(w@[6], w.advanced(40))
        }
    }

    /// The number of bytes that the header takes.
    pub open spec fn spec_own_len(&self) -> nat {
        40
    }

    /// The number of bytes that this header and those above it take.
    pub open spec fn spec_header_len(&self) -> nat {
        self.spec_own_len() + self.transport_layer.spec_header_len()
    }

    /// Decodes the header at the start of `bytes`, then the transport layer
    /// that its next-header number names, and moves `bytes` past both.
    pub fn from_bytes(bytes: &'a mut Bytes) -> (res: Result<Self, DecodeError>)
        ensures
            res == Self::spec_from_bytes(*old(bytes)),
            *final(bytes) == Self::spec_remainder(*old(bytes)),
    {
        if bytes.len() < 40 {
            return Err(DecodeError::InsufficientData);
        }
        let version = bytes[0] >> 4;
        let traffic_class = ((bytes[0] & 0x0f) << 4) | (bytes[1] >> 4);
        let flow_label = bytes[1..4].to_u32() & 0x0f_ffff;
        let payload_length = bytes[4..6].to_u16();
        let next_header = bytes[6];
        let hop_limit = bytes[7];
        let address_src = Ipv6addr(bytes[8..24].to_u128());
        let address_dst = Ipv6addr(bytes[24..40].to_u128());
        bytes.shift_first(40)?;
        let transport_layer = TransportLayer::from_data(next_header, bytes)?;
        Ok(
            Self {
                version,
                traffic_class,
                flow_label,
                payload_length,
                next_header,
                hop_limit,
                address_src,
                address_dst,
                transport_layer,
            },
        )
    }
}

/// An ARP message for hardware addresses of six bytes and protocol addresses
/// of four. Nothing is decoded above it.
#[derive(Clone, Copy, Debug, Default, PartialEq, Eq, Structural)]
pub struct ARP {
    pub hardware_type: u16,
    pub protocol_type: u16,
    pub hardware_len: u8,
    pub protocol_len: u8,
    pub operation: u16,
    pub sender_hardware_address: MacAddress,
    pub sender_protocol_address: Ipv4addr,
    pub target_hardware_address: MacAddress,
    pub target_protocol_address: Ipv4addr,
}

impl ARP {
    /// The message that the start of `w` decodes to: `InsufficientData` when
    /// `w` holds fewer than its twenty-eight bytes.
    pub open spec fn spec_from_bytes(w: Bytes) -> Result<ARP, DecodeError> {
        let s = w@;
        if s.len() < 28 {
            Err(DecodeError::InsufficientData)
        } else {
            Ok(
                ARP {
                    hardware_type: be_u16(s.subrange(0, 2)),
                    protocol_type: be_u16(s.subrange(2, 4)),
                    hardware_len: s[4],
                    protocol_len: s[5],
                    operation: be_u16(s.subrange(6, 8)),
                    sender_hardware_address: MacAddress::pack(be_u64(s.subrange(8, 14))),
                    sender_protocol_address: Ipv4addr(be_u32(s.subrange(14, 18))),
                    target_hardware_address: MacAddress::pack(be_u64(s.subrange(18, 24))),
                    target_protocol_address: Ipv4addr(be_u32(s.subrange(24, 28))),
                },
            )
        }
    }

    /// The window that decoding leaves: past the message, or `w` itself where
    /// decoding fails.
    pub open spec fn spec_remainder<'a>(w: Bytes<'a>) -> Bytes<'a> {
        if w@.len() < 28 {
            w
        } else {
            w.advanced(28)
        }
    }

    /// The number of bytes that the message takes.
    pub open spec fn spec_header_len(&self) -> nat {
        28
    }

    /// Decodes the message at the start of `bytes` and moves `bytes` past it.
    pub fn from_bytes(bytes: &mut Bytes) -> (res: Result<Self, DecodeError>)
        ensures
            res == Self::spec_from_bytes(*old(bytes)),
            *final(bytes) == Self::spec_remainder(*old(bytes)),
    {
        if bytes.len() < 28 {
            return Err(DecodeError::InsufficientData);
        }
        let hardware_type = bytes[0..2].to_u16();
        let protocol_type = bytes[2..4].to_u16();
        let hardware_len = bytes[4];
        let protocol_len = bytes[5];
        let operation = bytes[6..8].to_u16();
        let sender_hardware_address = MacAddress::from(bytes[8..14].to_u64());
        let sender_protocol_address = Ipv4addr(bytes[14..18].to_u32());
        let target_hardware_address = MacAddress::from(bytes[18..24].to_u64());
        let target_protocol_address = Ipv4addr(bytes[24..28].to_u32());
        bytes.shift_first(28)?;
        Ok(
            Self {
                hardware_type,
                protocol_type,
                hardware_len,
                protocol_len,
                operation,
                sender_hardware_address,
                sender_protocol_address,
                target_hardware_address,
                target_protocol_address,
            },
        )
    }
}

/// What was found above the data-link layer.
#[derive(Debug, Default)]
pub enum NetworkLayer<'a> {
    /// No network layer.
    #[default]
    NULL,
    /// A protocol that is not decoded: the bytes as they were found.
    UndefinedData(&'a Bytes<'a>),
    Ipv4(Ipv4<'a>),
    Ipv6(Ipv6<'a>),
    ARP(ARP),
    RARP,
    NAT,
    RIP,
    OSPF,
    BGP,
    IPSec,
    MPLS,
}

impl<'a> NetworkLayer<'a> {
    /// What `w` decodes to under the ethertype `layer_type`: `0x0800` is
    /// IPv4, `0x0806` is ARP, `0x86dd` is IPv6, and every other number leaves
    /// the bytes undecoded.
    pub open spec fn spec_from_data(layer_type: u16, w: Bytes<'a>) -> Result<
        NetworkLayer<'a>,
        DecodeError,
    > {
        match layer_type {
            0x0800 => match Ipv4::spec_from_bytes(w) {
                Ok(header) => Ok(NetworkLayer::Ipv4(header)),
                Err(e) => Err(e),
            },
            0x0806 => match ARP::spec_from_bytes(w) {
                Ok(header) => Ok(NetworkLayer::ARP(header)),
                Err(e) => Err(e),
            },
            0x86dd => match Ipv6::spec_from_bytes(w) {
                Ok(header) => Ok(NetworkLayer::Ipv6(header)),
                Err(e) => Err(e),
            },
            _ => Ok(NetworkLayer::UndefinedData(&w)),
        }
    }

    /// The window that decoding leaves.
    pub open spec fn spec_remainder(layer_type: u16, w: Bytes<'a>) -> Bytes<'a> {
        match layer_type {
            0x0800 => Ipv4::spec_remainder(w),
            0x0806 => ARP::spec_remainder(w),
            0x86dd => Ipv6::spec_remainder(w),
            _ => w,
        }
    }

    /// The number of bytes that the headers of this layer and of those above
    /// it take.
    pub open spec fn spec_header_len(&self) -> nat {
        match self {
            NetworkLayer::Ipv4(header) => header.spec_header_len(),
            NetworkLayer::Ipv6(header) => header.spec_header_len(),
            NetworkLayer::ARP(header) => header.spec_header_len(),
            _ => 0,
        }
    }

    /// The number of bytes from which the fields of this layer and of those
    /// above it are read. Options are opaque and hold no field.
    pub open spec fn spec_fields_len(&self) -> nat {
        match self {
            NetworkLayer::Ipv4(header) => 20 + header.transport_layer.spec_fields_len(),
            NetworkLayer::Ipv6(header) => 40 + header.transport_layer.spec_fields_len(),
            NetworkLayer::ARP(_) => 28,
            _ => 0,
        }
    }

    /// The window of bytes that no header took, where the layers hold one.
    pub open spec fn spec_payload(&self) -> Option<&'a Bytes<'a>> {
        match self {
            NetworkLayer::UndefinedData(data) => Some(*data),
            NetworkLayer::Ipv4(header) => header.transport_layer.spec_payload(),
            NetworkLayer::Ipv6(header) => header.transport_layer.spec_payload(),
            _ => None,
        }
    }

    /// Every ethertype leads to one variant: `0x0800` to IPv4, `0x0806` to
    /// ARP, `0x86dd` to IPv6, and every other number to the undecoded bytes,
    /// never to an error.
    pub proof fn lemma_dispatch(layer_type: u16, w: Bytes<'a>)
        ensures
            match Self::spec_from_data(layer_type, w) {
                Ok(NetworkLayer::Ipv4(_)) => layer_type == 0x0800,
                Ok(NetworkLayer::ARP(_)) => layer_type == 0x0806,
                Ok(NetworkLayer::Ipv6(_)) => layer_type == 0x86dd,
                Ok(NetworkLayer::UndefinedData(data)) => *data == w && layer_type != 0x0800
                    && layer_type != 0x0806 && layer_type != 0x86dd,
                Ok(_) => false,
                Err(_) => layer_type == 0x0800 || layer_type == 0x0806 || layer_type == 0x86dd,
            },
            layer_type != 0x0800 && layer_type != 0x0806 && layer_type != 0x86dd
                ==> Self::spec_from_data(layer_type, w) == Ok::<NetworkLayer<'a>, DecodeError>(
                NetworkLayer::UndefinedData(&w),
            ),
    {
    }

    /// Where decoding succeeds, the bytes of the headers and the bytes that
    /// are left make up the window that was given: the window that decoding
    /// leaves holds what follows the headers, and is the payload of the
    /// topmost layer where that layer holds one. The headers take every byte
    /// that a field was read from, so no byte is both in a field and in what
    /// is left.
    pub proof fn lemma_conservation(layer_type: u16, w: Bytes<'a>)
        requires
            w.wf(),
        ensures
            Self::spec_remainder(layer_type, w).wf(),
            Self::spec_remainder(layer_type, w).buffer() == w.buffer(),
            Self::spec_remainder(layer_type, w).end() == w.end(),
            match Self::spec_from_data(layer_type, w) {
                Ok(layer) => {
                    &&& layer.spec_header_len() + Self::spec_remainder(layer_type, w)@.len()
                        == w@.len()
                    &&& Self::spec_remainder(layer_type, w)@ == w@.skip(
                        layer.spec_header_len() as int,
                    )
                    &&& layer.spec_payload() matches Some(payload) ==> *payload
                        == Self::spec_remainder(layer_type, w)
                    &&& layer.spec_payload() is None <==> layer is ARP
                    &&& layer.spec_fields_len() <= layer.spec_header_len()
                },
                Err(_) => true,
            },
    {
        let s = w@;
        assert(s.skip(0) =~= s);
        if layer_type == 0x0800 {
            if Ipv4::spec_holds_header(w) {
                let n = Ipv4::spec_len_of(s[0]);
                let rest = w.advanced(n);
                w.lemma_advanced(n);
                TransportLayer::lemma_conservation(s[9], rest);
                TransportLayer::lemma_dispatch(s[9], rest);
                match TransportLayer::spec_from_data(s[9], rest) {
                    Ok(layer) => {
                        assert(s.skip(n as int).skip(layer.spec_header_len() as int) =~= s.skip(
                            (n + layer.spec_header_len()) as int,
                        ));
                    },
                    Err(_) => {},
                }
            }
        } else if layer_type == 0x86dd {
            if s.len() >= 40 {
                let rest = w.advanced(40);
                w.lemma_advanced(40);
                TransportLayer::lemma_conservation(s[6], rest);
                TransportLayer::lemma_dispatch(s[6], rest);
                match TransportLayer::spec_from_data(s[6], rest) {
                    Ok(layer) => {
                        assert(s.skip(40).skip(layer.spec_header_len() as int) =~= s.skip(
                            (40 + layer.spec_header_len()) as int,
                        ));
                    },
                    Err(_) => {},
                }
            }
        } else if layer_type == 0x0806 {
            if s.len() >= 28 {
                w.lemma_advanced(28);
            }
        }
    }

    /// The number of bytes that the headers of this layer and of those above
    /// it take.
    pub fn header_len(&self) -> (res: usize)
        ensures
            res == self.spec_header_len(),
    {
        match self {
            NetworkLayer::Ipv4(header) => {
                let own: usize = if header.IHL < 5 {
                    20
                } else {
                    4 * (header.IHL as usize)
                };
                own + header.transport_layer.header_len()
            },
            NetworkLayer::Ipv6(header) => 40 + header.transport_layer.header_len(),
            NetworkLayer::ARP(_) => 28,
            _ => 0,
        }
    }

    /// The window of bytes that no header took, where the layers hold one.
    pub fn payload(&self) -> (res: Option<&'a Bytes<'a>>)
        ensures
            res == self.spec_payload(),
    {
        match self {
            NetworkLayer::UndefinedData(data) => Some(*data),
            NetworkLayer::Ipv4(header) => header.transport_layer.payload(),
            NetworkLayer::Ipv6(header) => header.transport_layer.payload(),
            _ => None,
        }
    }

    /// Decodes what `bytes` holds under the ethertype `layer_type`, with the
    /// transport layer above it, and moves `bytes` past the headers. An
    /// unknown ethertype is no error.
    pub fn from_data(layer_type: u16, bytes: &'a mut Bytes) -> (res: Result<Self, DecodeError>)
        ensures
            res == Self::spec_from_data(layer_type, *old(bytes)),
            *final(bytes) == Self::spec_remainder(layer_type, *old(bytes)),
    {
        Ok(
            match layer_type {
                0x0800 => NetworkLayer::Ipv4(Ipv4::from_bytes(bytes)?),
                0x0806 => NetworkLayer::ARP(ARP::from_bytes(bytes)?),
                0x86dd => NetworkLayer::Ipv6(Ipv6::from_bytes(bytes)?),
                _ => NetworkLayer::UndefinedData(bytes),
            },
        )
    }
}

} // verus!
