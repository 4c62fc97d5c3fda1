//! The transport layer: TCP, UDP and ICMP headers.

use crate::byte_slice::codec::be_u16;
use crate::byte_slice::codec::be_u32;
use crate::byte_slice::codec::SliceToUnsigned;
use crate::byte_slice::window::Bytes;
use crate::byte_slice::window::DecodeError;
use vstd::prelude::*;

verus! {

/// The type of an ICMP message, by its first header byte.
#[derive(Clone, Copy, Debug, Default, PartialEq, Eq, Structural)]
pub enum MessageType {
    /// Type 0.
    EchoReply,
    /// Not assigned: types 1, 2, 7, 44 to 252 and 255.
    #[default]
    Unassigned,
    /// Type 3.
    DesinationUnreachable,
    /// Type 4.
    SourceQuench,
    /// Type 5.
    Redirect,
    /// Type 6.
    AlternateHostAddress,
    /// Type 8.
    EchoRequest,
    /// Type 9.
    RouterAdvertisement,
    /// Type 10.
    RouterSolicitation,
    /// Type 11.
    TimeExceeded,
    /// Type 12.
    ParameterProblem,
    /// Type 13.
    Timestamp,
    /// Type 14.
    TimestampReply,
    /// Type 15.
    InformationRequest,
    /// Type 16.
    InformationReply,
    /// Type 17.
    AddressMaskRequest,
    /// Type 18.
    AddressMaskReply,
    /// Type 19.
    Unassigned19,
    /// Types 20 to 29.
    Unassigned20,
    /// Type 30.
    Traceroute,
    /// Type 31.
    DatagramConversionError,
    /// Type 32.
    MobileHostRedirect,
    /// Type 33.
    WhereAreYou,
    /// Type 34.
    HereIAm,
    /// Type 35.
    MobileRegistrationRequest,
    /// Type 36.
    MobileRegistrationReply,
    /// Type 37.
    DomainNameRequest,
    /// Type 38.
    DomainNameReply,
    /// Type 39.
    SkipAlgorithmDiscoveryProtocol,
    /// Type 40.
    Photuris,
    /// Type 41.
    Experimental41,
    /// Type 42.
    ExtendedEchoRequest,
    /// Type 43.
    ExtendedEchoReply,
    /// Type 253.
    Experimental253,
    /// Type 254.
    Experimental254,
}

impl MessageType {
    /// The message type that the type number `value` stands for. Numbers that
    /// are not assigned stand for `Unassigned`.
    pub open spec fn spec_from(value: u8) -> MessageType {
        match value {
            0 => MessageType::EchoReply,
            3 => MessageType::DesinationUnreachable,
            4 => MessageType::SourceQuench,
            5 => MessageType::Redirect,
            6 => MessageType::AlternateHostAddress,
            8 => MessageType::EchoRequest,
            9 => MessageType::RouterAdvertisement,
            10 => MessageType::RouterSolicitation,
            11 => MessageType::TimeExceeded,
            12 => MessageType::ParameterProblem,
            13 => MessageType::Timestamp,
            14 => MessageType::TimestampReply,
            15 => MessageType::InformationRequest,
            16 => MessageType::InformationReply,
            17 => MessageType::AddressMaskRequest,
            18 => MessageType::AddressMaskReply,
            19 => MessageType::Unassigned19,
            20 | 21 | 22 | 23 | 24 | 25 | 26 | 27 | 28 | 29 => MessageType::Unassigned20,
            30 => MessageType::Traceroute,
            31 => MessageType::DatagramConversionError,
            32 => MessageType::MobileHostRedirect,
            33 => MessageType::WhereAreYou,
            34 => MessageType::HereIAm,
            35 => MessageType::MobileRegistrationRequest,
            36 => MessageType::MobileRegistrationReply,
            37 => MessageType::DomainNameRequest,
            38 => MessageType::DomainNameReply,
            39 => MessageType::SkipAlgorithmDiscoveryProtocol,
            40 => MessageType::Photuris,
            41 => MessageType::Experimental41,
            42 => MessageType::ExtendedEchoRequest,
            43 => MessageType::ExtendedEchoReply,
            253 => MessageType::Experimental253,
            254 => MessageType::Experimental254,
            _ => MessageType::Unassigned,
        }
    }

    /// The lowest type number that stands for the message type.
    pub open spec fn spec_number(self) -> u8 {
        match self {
            MessageType::EchoReply => 0,
            MessageType::Unassigned => 1,
            MessageType::DesinationUnreachable => 3,
            MessageType::SourceQuench => 4,
            MessageType::Redirect => 5,
            MessageType::AlternateHostAddress => 6,
            MessageType::EchoRequest => 8,
            MessageType::RouterAdvertisement => 9,
            MessageType::RouterSolicitation => 10,
            MessageType::TimeExceeded => 11,
            MessageType::ParameterProblem => 12,
            MessageType::Timestamp => 13,
            MessageType::TimestampReply => 14,
            MessageType::InformationRequest => 15,
            MessageType::InformationReply => 16,
            MessageType::AddressMaskRequest => 17,
            MessageType::AddressMaskReply => 18,
            MessageType::Unassigned19 => 19,
            MessageType::Unassigned20 => 20,
            MessageType::Traceroute => 30,
            MessageType::DatagramConversionError => 31,
            MessageType::MobileHostRedirect => 32,
            MessageType::WhereAreYou => 33,
            MessageType::HereIAm => 34,
            MessageType::MobileRegistrationRequest => 35,
            MessageType::MobileRegistrationReply => 36,
            MessageType::DomainNameRequest => 37,
            MessageType::DomainNameReply => 38,
            MessageType::SkipAlgorithmDiscoveryProtocol => 39,
            MessageType::Photuris => 40,
            MessageType::Experimental41 => 41,
            MessageType::ExtendedEchoRequest => 42,
            MessageType::ExtendedEchoReply => 43,
            MessageType::Experimental253 => 253,
            MessageType::Experimental254 => 254,
        }
    }

    /// The lowest type number that stands for the message type.
    pub fn number(&self) -> (res: u8)
        ensures
            res == self.spec_number(),
    {
        match self {
            MessageType::EchoReply => 0,
            MessageType::Unassigned => 1,
            MessageType::DesinationUnreachable => 3,
            MessageType::SourceQuench => 4,
            MessageType::Redirect => 5,
            MessageType::AlternateHostAddress => 6,
            MessageType::EchoRequest => 8,
            MessageType::RouterAdvertisement => 9,
            MessageType::RouterSolicitation => 10,
            MessageType::TimeExceeded => 11,
            MessageType::ParameterProblem => 12,
            MessageType::Timestamp => 13,
            MessageType::TimestampReply => 14,
            MessageType::InformationRequest => 15,
            MessageType::InformationReply => 16,
            MessageType::AddressMaskRequest => 17,
            MessageType::AddressMaskReply => 18,
            MessageType::Unassigned19 => 19,
            MessageType::Unassigned20 => 20,
            MessageType::Traceroute => 30,
            MessageType::DatagramConversionError => 31,
            MessageType::MobileHostRedirect => 32,
            MessageType::WhereAreYou => 33,
            MessageType::HereIAm => 34,
            MessageType::MobileRegistrationRequest => 35,
            MessageType::MobileRegistrationReply => 36,
            MessageType::DomainNameRequest => 37,
            MessageType::DomainNameReply => 38,
            MessageType::SkipAlgorithmDiscoveryProtocol => 39,
            MessageType::Photuris => 40,
            MessageType::Experimental41 => 41,
            MessageType::ExtendedEchoRequest => 42,
            MessageType::ExtendedEchoReply => 43,
            MessageType::Experimental253 => 253,
            MessageType::Experimental254 => 254,
        }
    }

    /// Whether the type number `value` is assigned to a message type of its
    /// own.
    pub open spec fn spec_assigned(value: u8) -> bool {
        !(value == 1 || value == 2 || value == 7 || 44 <= value <= 252 || value == 255)
    }

    /// The numbers that are not assigned, and no others, stand for
    /// `Unassigned`.
    pub proof fn lemma_unassigned(value: u8)
        ensures
            MessageType::spec_from(value) == MessageType::Unassigned <==> !Self::spec_assigned(
                value,
            ),
    {
    }

    /// Every message type is found again from its number.
    pub proof fn lemma_number_round_trip(self)
        ensures
            MessageType::spec_from(self.spec_number()) == self,
    {
    }
}

impl From<u8> for MessageType {
    fn from(value: u8) -> (res: Self) {
        match value {
            0 => MessageType::EchoReply,
            3 => MessageType::DesinationUnreachable,
            4 => MessageType::SourceQuench,
            5 => MessageType::Redirect,
            6 => MessageType::AlternateHostAddress,
            8 => MessageType::EchoRequest,
            9 => MessageType::RouterAdvertisement,
            10 => MessageType::RouterSolicitation,
            11 => MessageType::TimeExceeded,
            12 => MessageType::ParameterProblem,
            13 => MessageType::Timestamp,
            14 => MessageType::TimestampReply,
            15 => MessageType::InformationRequest,
            16 => MessageType::InformationReply,
            17 => MessageType::AddressMaskRequest,
            18 => MessageType::AddressMaskReply,
            19 => MessageType::Unassigned19,
            20 | 21 | 22 | 23 | 24 | 25 | 26 | 27 | 28 | 29 => MessageType::Unassigned20,
            30 => MessageType::Traceroute,
            31 => MessageType::DatagramConversionError,
            32 => MessageType::MobileHostRedirect,
            33 => MessageType::WhereAreYou,
            34 => MessageType::HereIAm,
            35 => MessageType::MobileRegistrationRequest,
            36 => MessageType::MobileRegistrationReply,
            37 => MessageType::DomainNameRequest,
            38 => MessageType::DomainNameReply,
            39 => MessageType::SkipAlgorithmDiscoveryProtocol,
            40 => MessageType::Photuris,
            41 => MessageType::Experimental41,
            42 => MessageType::ExtendedEchoRequest,
            43 => MessageType::ExtendedEchoReply,
            253 => MessageType::Experimental253,
            254 => MessageType::Experimental254,
            _ => MessageType::Unassigned,
        }
    }
}

impl vstd::std_specs::convert::FromSpecImpl<u8> for MessageType {
    open spec fn obeys_from_spec() -> bool {
        true
    }

    open spec fn from_spec(value: u8) -> Self {
        MessageType::spec_from(value)
    }
}

/// What the code byte of an ICMP message means, given the message type.
#[derive(Clone, Copy, Debug, Default, PartialEq, Eq, Structural)]
pub enum MessageCode {
    /// The code has no meaning for the message type.
    UndefinedCode,
    /// Code 0 of a message type that is not assigned.
    #[default]
    Reserved,
    EchoReply,
    DestinationNetworkUnreachable,
    DestinationHostUnreachable,
    DestinationProtocolUnreachable,
    DestinationPortUnreachable,
    FragmentationIsNeededAndTheDfFlagSet,
    SourceRouteFailed,
    DestinationNetworkUnknown,
    DestinationHostUnknown,
    SourceHostIsolated,
    NetworkAdministrativelyProhibited,
    HostAdministrativelyProhibited,
    NetworkUnreachableForTos,
    HostUnreachableForTos,
    CommunicationAdministrativelyProhibited,
    HostPrecedenceViolation,
    PrecedenceCutoffInEffect,
    SourceQuench,
    RedirectTheDatagramForTheNetwork,
    RedirectTheDatagramForTheHost,
    RedirectTheDatagramForTheServiceAndNetwork,
    RedirectTheDatagramForTheServiceAndHost,
    AlternateHostAddress,
    EchoRequest,
    RouterAdvertisement,
    RouterDiscovery,
    TimeToLiveExpiredInTransit,
    FragmentReassemblyTimeExceeded,
    PointerIndicatesTheError,
    MissingARequiredOption,
    BadLength,
    Timestamp,
    TimestampReply,
    InformationRequest,
    InformationReply,
    AddressMaskRequest,
    AddressMaskReply,
    ReservedForSecurity,
    ReservedForRobustnessExperiment,
    DatagramConversionError,
    MobileHostRedirect,
    WhereAreYou,
    HereIAm,
    MobileRegistrationRequest,
    MobileRegistrationReply,
    DomainNameRequest,
    DomainNameReply,
    SkipAlgorithmDiscoveryProtocol,
    Photuris,
    IcmpForExperimentalMobilityProtocols,
    RequestExtenddedEcho,
    NoError,
    MalformedQuery,
    NoSuchInterface,
    NoSuchEntry,
    MultipleInterfacesSatisfyQuery,
    Rfc362StyleExperiment1,
    Rfc362StyleExperiment2,
}

impl MessageCode {
    /// The meaning of a message type that defines code 0 alone.
    pub open spec fn spec_only_code_0(meaning: MessageCode, message_code: u8) -> MessageCode {
        if message_code == 0 {
            meaning
        } else {
            MessageCode::UndefinedCode
        }
    }

    /// The meaning of `message_code` in a message of type `message_type`;
    /// `UndefinedCode` where the type defines no such code.
    pub open spec fn spec_from_type_and_code(
        message_type: MessageType,
        message_code: u8,
    ) -> MessageCode {
        match message_type {
            MessageType::EchoReply => Self::spec_only_code_0(MessageCode::EchoReply, message_code),
            MessageType::Unassigned => Self::spec_only_code_0(MessageCode::Reserved, message_code),
            MessageType::SourceQuench => Self::spec_only_code_0(MessageCode::SourceQuench, message_code),
            MessageType::AlternateHostAddress => Self::spec_only_code_0(MessageCode::AlternateHostAddress, message_code),
            MessageType::EchoRequest => Self::spec_only_code_0(MessageCode::EchoRequest, message_code),
            MessageType::RouterAdvertisement => Self::spec_only_code_0(MessageCode::RouterAdvertisement, message_code),
            MessageType::RouterSolicitation => Self::spec_only_code_0(MessageCode::RouterDiscovery, message_code),
            MessageType::Timestamp => Self::spec_only_code_0(MessageCode::Timestamp, message_code),
            MessageType::TimestampReply => Self::spec_only_code_0(MessageCode::TimestampReply, message_code),
            MessageType::InformationRequest => Self::spec_only_code_0(MessageCode::InformationRequest, message_code),
            MessageType::InformationReply => Self::spec_only_code_0(MessageCode::InformationReply, message_code),
            MessageType::AddressMaskRequest => Self::spec_only_code_0(MessageCode::AddressMaskRequest, message_code),
            MessageType::AddressMaskReply => Self::spec_only_code_0(MessageCode::AddressMaskReply, message_code),
            MessageType::Unassigned19 => Self::spec_only_code_0(MessageCode::ReservedForSecurity, message_code),
            MessageType::Unassigned20 => Self::spec_only_code_0(MessageCode::ReservedForRobustnessExperiment, message_code),
            MessageType::Traceroute => Self::spec_only_code_0(MessageCode::InformationRequest, message_code),
            MessageType::DatagramConversionError => Self::spec_only_code_0(MessageCode::DatagramConversionError, message_code),
            MessageType::MobileHostRedirect => Self::spec_only_code_0(MessageCode::MobileHostRedirect, message_code),
            MessageType::WhereAreYou => Self::spec_only_code_0(MessageCode::WhereAreYou, message_code),
            MessageType::HereIAm => Self::spec_only_code_0(MessageCode::HereIAm, message_code),
            MessageType::MobileRegistrationRequest => Self::spec_only_code_0(MessageCode::MobileRegistrationRequest, message_code),
            MessageType::MobileRegistrationReply => Self::spec_only_code_0(MessageCode::MobileRegistrationReply, message_code),
            MessageType::DomainNameRequest => Self::spec_only_code_0(MessageCode::DomainNameRequest, message_code),
            MessageType::DomainNameReply => Self::spec_only_code_0(MessageCode::DomainNameReply, message_code),
            MessageType::SkipAlgorithmDiscoveryProtocol => Self::spec_only_code_0(MessageCode::SkipAlgorithmDiscoveryProtocol, message_code),
            MessageType::Photuris => Self::spec_only_code_0(MessageCode::Photuris, message_code),
            MessageType::Experimental41 => Self::spec_only_code_0(MessageCode::IcmpForExperimentalMobilityProtocols, message_code),
            MessageType::Experimental253 => Self::spec_only_code_0(MessageCode::Rfc362StyleExperiment1, message_code),
            MessageType::Experimental254 => Self::spec_only_code_0(MessageCode::Rfc362StyleExperiment2, message_code),
            MessageType::ExtendedEchoRequest => Self::spec_only_code_0(MessageCode::RequestExtenddedEcho, message_code),
            MessageType::DesinationUnreachable => match message_code {
                0 => MessageCode::DestinationNetworkUnreachable,
                1 => MessageCode::DestinationHostUnreachable,
                2 => MessageCode::DestinationProtocolUnreachable,
                3 => MessageCode::DestinationPortUnreachable,
                4 => MessageCode::FragmentationIsNeededAndTheDfFlagSet,
                5 => MessageCode::SourceRouteFailed,
                6 => MessageCode::DestinationNetworkUnknown,
                7 => MessageCode::DestinationHostUnknown,
                8 => MessageCode::SourceHostIsolated,
                9 => MessageCode::NetworkAdministrativelyProhibited,
                10 => MessageCode::HostAdministrativelyProhibited,
                11 => MessageCode::NetworkUnreachableForTos,
                12 => MessageCode::HostUnreachableForTos,
                13 => MessageCode::CommunicationAdministrativelyProhibited,
                14 => MessageCode::HostPrecedenceViolation,
                15 => MessageCode::PrecedenceCutoffInEffect,
                _ => MessageCode::UndefinedCode,
            },
            MessageType::Redirect => match message_code {
                0 => MessageCode::RedirectTheDatagramForTheNetwork,
                1 => MessageCode::RedirectTheDatagramForTheHost,
                2 => MessageCode::RedirectTheDatagramForTheServiceAndNetwork,
                3 => MessageCode::RedirectTheDatagramForTheServiceAndHost,
                _ => MessageCode::UndefinedCode,
            },
            MessageType::TimeExceeded => match message_code {
                0 => MessageCode::TimeToLiveExpiredInTransit,
                1 => MessageCode::FragmentReassemblyTimeExceeded,
                _ => MessageCode::UndefinedCode,
            },
            MessageType::ParameterProblem => match message_code {
                0 => MessageCode::PointerIndicatesTheError,
                1 => MessageCode::MissingARequiredOption,
                2 => MessageCode::BadLength,
                _ => MessageCode::UndefinedCode,
            },
            MessageType::ExtendedEchoReply => match message_code {
                0 => MessageCode::NoError,
                1 => MessageCode::MalformedQuery,
                2 => MessageCode::NoSuchInterface,
                3 => MessageCode::NoSuchEntry,
                4 => MessageCode::MultipleInterfacesSatisfyQuery,
                _ => MessageCode::UndefinedCode,
            },
        }
    }

    /// The number of codes that a message type defines: its codes are the
    /// numbers below it.
    pub open spec fn spec_code_count(message_type: MessageType) -> nat {
        match message_type {
            MessageType::DesinationUnreachable => 16,
            MessageType::Redirect => 4,
            MessageType::TimeExceeded => 2,
            MessageType::ParameterProblem => 3,
            MessageType::ExtendedEchoReply => 5,
            _ => 1,
        }
    }

    /// The codes that a message type defines have a meaning of their own; all
    /// other codes, and no defined one, mean `UndefinedCode`.
    pub proof fn lemma_defined_codes(message_type: MessageType, message_code: u8)
        ensures
            Self::spec_from_type_and_code(message_type, message_code) != MessageCode::UndefinedCode
                <==> message_code < Self::spec_code_count(message_type),
    {
    }

    fn only_code_0(meaning: MessageCode, message_code: u8) -> (res: MessageCode)
        ensures
            res == Self::spec_only_code_0(meaning, message_code),
    {
        match message_code {
            0 => meaning,
            _ => MessageCode::UndefinedCode,
        }
    }

    /// The meaning of `message_code` in a message of type `message_type`;
    /// `UndefinedCode` where the type defines no such code.
    pub fn from_type_and_code(message_type: &MessageType, message_code: u8) -> (res: Self)
        ensures
            res == Self::spec_from_type_and_code(*message_type, message_code),
    {
        match message_type {
            MessageType::EchoReply => Self::only_code_0(MessageCode::EchoReply, message_code),
            MessageType::Unassigned => Self::only_code_0(MessageCode::Reserved, message_code),
            MessageType::SourceQuench => Self::only_code_0(MessageCode::SourceQuench, message_code),
            MessageType::AlternateHostAddress => Self::only_code_0(MessageCode::AlternateHostAddress, message_code),
            MessageType::EchoRequest => Self::only_code_0(MessageCode::EchoRequest, message_code),
            MessageType::RouterAdvertisement => Self::only_code_0(MessageCode::RouterAdvertisement, message_code),
            MessageType::RouterSolicitation => Self::only_code_0(MessageCode::RouterDiscovery, message_code),
            MessageType::Timestamp => Self::only_code_0(MessageCode::Timestamp, message_code),
            MessageType::TimestampReply => Self::only_code_0(MessageCode::TimestampReply, message_code),
            MessageType::InformationRequest => Self::only_code_0(MessageCode::InformationRequest, message_code),
            MessageType::InformationReply => Self::only_code_0(MessageCode::InformationReply, message_code),
            MessageType::AddressMaskRequest => Self::only_code_0(MessageCode::AddressMaskRequest, message_code),
            MessageType::AddressMaskReply => Self::only_code_0(MessageCode::AddressMaskReply, message_code),
            MessageType::Unassigned19 => Self::only_code_0(MessageCode::ReservedForSecurity, message_code),
            MessageType::Unassigned20 => Self::only_code_0(MessageCode::ReservedForRobustnessExperiment, message_code),
            MessageType::Traceroute => Self::only_code_0(MessageCode::InformationRequest, message_code),
            MessageType::DatagramConversionError => Self::only_code_0(MessageCode::DatagramConversionError, message_code),
            MessageType::MobileHostRedirect => Self::only_code_0(MessageCode::MobileHostRedirect, message_code),
            MessageType::WhereAreYou => Self::only_code_0(MessageCode::WhereAreYou, message_code),
            MessageType::HereIAm => Self::only_code_0(MessageCode::HereIAm, message_code),
            MessageType::MobileRegistrationRequest => Self::only_code_0(MessageCode::MobileRegistrationRequest, message_code),
            MessageType::MobileRegistrationReply => Self::only_code_0(MessageCode::MobileRegistrationReply, message_code),
            MessageType::DomainNameRequest => Self::only_code_0(MessageCode::DomainNameRequest, message_code),
            MessageType::DomainNameReply => Self::only_code_0(MessageCode::DomainNameReply, message_code),
            MessageType::SkipAlgorithmDiscoveryProtocol => Self::only_code_0(MessageCode::SkipAlgorithmDiscoveryProtocol, message_code),
            MessageType::Photuris => Self::only_code_0(MessageCode::Photuris, message_code),
            MessageType::Experimental41 => Self::only_code_0(MessageCode::IcmpForExperimentalMobilityProtocols, message_code),
            MessageType::Experimental253 => Self::only_code_0(MessageCode::Rfc362StyleExperiment1, message_code),
            MessageType::Experimental254 => Self::only_code_0(MessageCode::Rfc362StyleExperiment2, message_code),
            MessageType::ExtendedEchoRequest => Self::only_code_0(MessageCode::RequestExtenddedEcho, message_code),
            MessageType::DesinationUnreachable => match message_code {
                0 => MessageCode::DestinationNetworkUnreachable,
                1 => MessageCode::DestinationHostUnreachable,
                2 => MessageCode::DestinationProtocolUnreachable,
                3 => MessageCode::DestinationPortUnreachable,
                4 => MessageCode::FragmentationIsNeededAndTheDfFlagSet,
                5 => MessageCode::SourceRouteFailed,
                6 => MessageCode::DestinationNetworkUnknown,
                7 => MessageCode::DestinationHostUnknown,
                8 => MessageCode::SourceHostIsolated,
                9 => MessageCode::NetworkAdministrativelyProhibited,
                10 => MessageCode::HostAdministrativelyProhibited,
                11 => MessageCode::NetworkUnreachableForTos,
                12 => MessageCode::HostUnreachableForTos,
                13 => MessageCode::CommunicationAdministrativelyProhibited,
                14 => MessageCode::HostPrecedenceViolation,
                15 => MessageCode::PrecedenceCutoffInEffect,
                _ => MessageCode::UndefinedCode,
            },
            MessageType::Redirect => match message_code {
                0 => MessageCode::RedirectTheDatagramForTheNetwork,
                1 => MessageCode::RedirectTheDatagramForTheHost,
                2 => MessageCode::RedirectTheDatagramForTheServiceAndNetwork,
                3 => MessageCode::RedirectTheDatagramForTheServiceAndHost,
                _ => MessageCode::UndefinedCode,
            },
            MessageType::TimeExceeded => match message_code {
                0 => MessageCode::TimeToLiveExpiredInTransit,
                1 => MessageCode::FragmentReassemblyTimeExceeded,
                _ => MessageCode::UndefinedCode,
            },
            MessageType::ParameterProblem => match message_code {
                0 => MessageCode::PointerIndicatesTheError,
                1 => MessageCode::MissingARequiredOption,
                2 => MessageCode::BadLength,
                _ => MessageCode::UndefinedCode,
            },
            MessageType::ExtendedEchoReply => match message_code {
                0 => MessageCode::NoError,
                1 => MessageCode::MalformedQuery,
                2 => MessageCode::NoSuchInterface,
                3 => MessageCode::NoSuchEntry,
                4 => MessageCode::MultipleInterfacesSatisfyQuery,
                _ => MessageCode::UndefinedCode,
            },
        }
    }
}

/// An ICMP header: type, code and checksum. What follows is the payload.
#[derive(Debug, Default)]
pub struct ICMP<'a> {
    pub message_type: MessageType,
    pub code: MessageCode,
    /// The checksum as it was found; it is not verified.
    pub checksum: u16,
    pub payload: &'a Bytes<'a>,
}

impl<'a> ICMP<'a> {
    /// The header that the start of `w` decodes to: `InsufficientData` when
    /// `w` holds fewer than the four bytes of the header.
    pub open spec fn spec_from_bytes(w: Bytes<'a>) -> Result<ICMP<'a>, DecodeError> {
        let s = w@;
        if s.len() < 4 {
            Err(DecodeError::InsufficientData)
        } else {
            Ok(
                ICMP {
                    message_type: MessageType::spec_from(s[0]),
                    code: MessageCode::spec_from_type_and_code(MessageType::spec_from(s[0]), s[1]),
                    checksum: be_u16(s.subrange(2, 4)),
                    payload: &w.advanced(4),
                },
            )
        }
    }

    /// The window that decoding leaves: past the header, or `w` itself where
    /// decoding fails.
    pub open spec fn spec_remainder(w: Bytes<'a>) -> Bytes<'a> {
        if w@.len() < 4 {
            w
        } else {
            w.advanced(4)
        }
    }

    /// The number of bytes that the header takes.
    pub open spec fn spec_header_len(&self) -> nat {
        4
    }

    /// Decodes the header at the start of `bytes` and moves `bytes` past it.
    pub fn from_bytes(bytes: &'a mut Bytes) -> (res: Result<Self, DecodeError>)
        ensures
            res == Self::spec_from_bytes(*old(bytes)),
            *final(bytes) == Self::spec_remainder(*old(bytes)),
    {
        if bytes.len() < 4 {
            return Err(DecodeError::InsufficientData);
        }
        let message_type = MessageType::from(bytes[0]);
        let code = MessageCode::from_type_and_code(&message_type, bytes[1]);
        let checksum = bytes[2..4].to_u16();
        bytes.shift_first(4)?;
        Ok(Self { message_type, code, checksum, payload: bytes })
    }
}

/// A TCP header, its options as they were found, and the payload, which
/// starts where the data offset says and never within the fixed part.
#[derive(Debug, Default)]
pub struct TCP<'a> {
    pub port_src: u16,
    pub port_dst: u16,
    pub sequence_num: u32,
    pub acknowledgement_num: u32,
    /// The length of the header in 32-bit words: the upper four bits of
    /// byte 12.
    pub data_offset: u8,
    /// The lower four bits of byte 12.
    pub reserved: u8,
    /// The lower six bits of byte 13: URG, ACK, PSH, RST, SYN, FIN.
    pub control_bits: u8,
    pub window: u16,
    pub checksum: u16,
    pub urgent_ptr: u16,
    /// The bytes between the fixed part and the end of the header, where the
    /// header is longer than five words. They are not decoded.
    pub options: Option<Bytes<'a>>,
    pub payload: &'a Bytes<'a>,
}

impl<'a> TCP<'a> {
    /// The number of bytes that a header takes whose data offset is `words`:
    /// four for each word, and never fewer than the twenty bytes of the fixed
    /// part, from which the fields are read.
    pub open spec fn spec_len_for(words: u8) -> nat {
        if words < 5 {
            20
        } else {
            4 * (words as nat)
        }
    }

    /// The number of bytes that a header takes whose byte 12 is `byte`.
    pub open spec fn spec_len_of(byte: u8) -> nat {
        Self::spec_len_for(byte >> 4)
    }

    /// The header that the start of `w` decodes to: `InsufficientData` when
    /// `w` holds fewer than the twenty bytes of the fixed part, or fewer
    /// bytes than the data offset claims. The payload never starts within
    /// the fixed part, whatever the data offset says.
    pub open spec fn spec_from_bytes(w: Bytes<'a>) -> Result<TCP<'a>, DecodeError> {
        let s = w@;
        if s.len() < 20 || s.len() < Self::spec_len_of(s[12]) {
            Err(DecodeError::InsufficientData)
        } else {
            Ok(
                TCP {
                    port_src: be_u16(s.subrange(0, 2)),
                    port_dst: be_u16(s.subrange(2, 4)),
                    sequence_num: be_u32(s.subrange(4, 8)),
                    acknowledgement_num: be_u32(s.subrange(8, 12)),
                    data_offset: s[12] >> 4,
                    reserved: s[12] & 0x0f,
                    control_bits: s[13] & 0x3f,
                    window: be_u16(s.subrange(14, 16)),
                    checksum: be_u16(s.subrange(16, 18)),
                    urgent_ptr: be_u16(s.subrange(18, 20)),
                    options: if (s[12] >> 4) > 5 {
                        Some(w.spec_narrowed(20, Self::spec_len_of(s[12])))
                    } else {
                        None
                    },
                    payload: &w.advanced(Self::spec_len_of(s[12])),
                },
            )
        }
    }

    /// The window that decoding leaves: past the header, or `w` itself where
    /// decoding fails.
    pub open spec fn spec_remainder(w: Bytes<'a>) -> Bytes<'a> {
        let s = w@;
        if s.len() < 20 || s.len() < Self::spec_len_of(s[12]) {
            w
        } else {
            w.advanced(Self::spec_len_of(s[12]))
        }
    }

    /// The number of bytes that the header takes: four for each word of the
    /// data offset, and never fewer than the twenty bytes of the fixed part.
    pub open spec fn spec_header_len(&self) -> nat {
        Self::spec_len_for(self.data_offset)
    }

    /// The payload starts right after the bytes that the header takes. These
    /// are the words that the data offset records, where it records at least
    /// the five words of the fixed part, and the fixed part where it records
    /// fewer: no byte that a field was read from is part of the payload. The
    /// header is its fixed part of twenty bytes and its options, which are
    /// kept.
    pub proof fn lemma_length_agrees(w: Bytes<'a>)
        requires
            w.wf(),
        ensures
            match Self::spec_from_bytes(w) {
                Ok(header) => {
                    &&& 20 <= header.spec_header_len() <= w@.len()
                    &&& header.data_offset >= 5 ==> header.spec_header_len() == 4
                        * header.data_offset
                    &&& header.data_offset < 5 ==> header.spec_header_len() == 20
                    &&& header.options matches Some(options) ==> options.wf() && options@
                        == w@.subrange(20, header.spec_header_len() as int)
                    &&& header.options is Some <==> header.data_offset > 5
                    &&& header.spec_header_len() == 20 + match header.options {
                        Some(options) => options@.len(),
                        None => 0,
                    }
                    &&& *header.payload == w.advanced(header.spec_header_len())
                    &&& Self::spec_remainder(w) == w.advanced(header.spec_header_len())
                    &&& header.payload@ == w@.skip(header.spec_header_len() as int)
                },
                Err(_) => Self::spec_remainder(w) == w,
            },
    {
        if w@.len() >= 20 && w@.len() >= Self::spec_len_of(w@[12]) {
            w.lemma_advanced(Self::spec_len_of(w@[12]));
            if (w@[12] >> 4) > 5 {
                w.lemma_narrowed(20, Self::spec_len_of(w@[12]));
            }
        }
    }

    /// Decodes the header at the start of `bytes` and moves `bytes` past it.
    pub fn from_bytes(bytes: &'a mut Bytes) -> (res: Result<Self, DecodeError>)
        ensures
            res == Self::spec_from_bytes(*old(bytes)),
            *final(bytes) == Self::spec_remainder(*old(bytes)),
    {
        if bytes.len() < 20 {
            return Err(DecodeError::InsufficientData);
        }
        let port_src = bytes[0..2].to_u16();
        let port_dst = bytes[2..4].to_u16();
        let sequence_num = bytes[4..8].to_u32();
        let acknowledgement_num = bytes[8..12].to_u32();
        let data_offset = bytes[12] >> 4;
        let reserved = bytes[12] & 0x0f;
        let control_bits = bytes[13] & 0x3f;
        let window = bytes[14..16].to_u16();
        let checksum = bytes[16..18].to_u16();
        let urgent_ptr = bytes[18..20].to_u16();
        let header_len: usize = if data_offset < 5 {
            20
        } else {
            4 * (data_offset as usize)
        };
        if bytes.len() < header_len {
            return Err(DecodeError::InsufficientData);
        }
        let options = if data_offset > 5 {
            Some(bytes.narrowed(20, header_len))
        } else {
            None
        };
        bytes.shift_first(header_len)?;
        Ok(
            Self {
                port_src,
                port_dst,
                sequence_num,
                acknowledgement_num,
                data_offset,
                reserved,
                control_bits,
                window,
                checksum,
                urgent_ptr,
                options,
                payload: bytes,
            },
        )
    }
}

/// A UDP header. What follows is the payload.
#[derive(Debug, Default)]
pub struct UDP<'a> {
    pub port_src: u16,
    pub port_dst: u16,
    pub length: u16,
    pub checksum: u16,
    pub payload: &'a Bytes<'a>,
}

impl<'a> UDP<'a> {
    /// The header that the start of `w` decodes to: `InsufficientData` when
    /// `w` holds fewer than the eight bytes of the header.
    pub open spec fn spec_from_bytes(w: Bytes<'a>) -> Result<UDP<'a>, DecodeError> {
        let s = w@;
        if s.len() < 8 {
            Err(DecodeError::InsufficientData)
        } else {
            Ok(
                UDP {
                    port_src: be_u16(s.subrange(0, 2)),
                    port_dst: be_u16(s.subrange(2, 4)),
                    length: be_u16(s.subrange(4, 6)),
                    checksum: be_u16(s.subrange(6, 8)),
                    payload: &w.advanced(8),
                },
            )
        }
    }

    /// The window that decoding leaves: past the header, or `w` itself where
    /// decoding fails.
    pub open spec fn spec_remainder(w: Bytes<'a>) -> Bytes<'a> {
        if w@.len() < 8 {
            w
        } else {
            w.advanced(8)
        }
    }

    /// The number of bytes that the header takes.
    pub open spec fn spec_header_len(&self) -> nat {
        8
    }

    /// Decodes the header at the start of `bytes` and moves `bytes` past it.
    pub fn from_bytes(bytes: &'a mut Bytes) -> (res: Result<Self, DecodeError>)
        ensures
            res == Self::spec_from_bytes(*old(bytes)),
            *final(bytes) == Self::spec_remainder(*old(bytes)),
    {
        if bytes.len() < 8 {
            return Err(DecodeError::InsufficientData);
        }
        let port_src = bytes[0..2].to_u16();
        let port_dst = bytes[2..4].to_u16();
        let length = bytes[4..6].to_u16();
        let checksum = bytes[6..8].to_u16();
        bytes.shift_first(8)?;
        Ok(Self { port_src, port_dst, length, checksum, payload: bytes })
    }
}

/// What was found above the network layer.
#[derive(Debug, Default)]
pub enum TransportLayer<'a> {
    /// No transport layer.
    #[default]
    NULL,
    /// A protocol that is not decoded: the bytes as they were found.
    UndefinedData(&'a Bytes<'a>),
    ICMP(ICMP<'a>),
    TCP(TCP<'a>),
    UDP(UDP<'a>),
}

impl<'a> TransportLayer<'a> {
    /// What `w` decodes to under the protocol number `layer_type`: 1 is
    /// ICMP, 6 is TCP, 17 is UDP, and every other number leaves the bytes
    /// undecoded.
    pub open spec fn spec_from_data(layer_type: u8, w: Bytes<'a>) -> Result<
        TransportLayer<'a>,
        DecodeError,
    > {
        match layer_type {
            0x01 => match ICMP::spec_from_bytes(w) {
                Ok(header) => Ok(TransportLayer::ICMP(header)),
                Err(e) => Err(e),
            },
            0x06 => match TCP::spec_from_bytes(w) {
                Ok(header) => Ok(TransportLayer::TCP(header)),
                Err(e) => Err(e),
            },
            0x11 => match UDP::spec_from_bytes(w) {
                Ok(header) => Ok(TransportLayer::UDP(header)),
                Err(e) => Err(e),
            },
            _ => Ok(TransportLayer::UndefinedData(&w)),
        }
    }

    /// The window that decoding leaves.
    pub open spec fn spec_remainder(layer_type: u8, w: Bytes<'a>) -> Bytes<'a> {
        match layer_type {
            0x01 => ICMP::spec_remainder(w),
            0x06 => TCP::spec_remainder(w),
            0x11 => UDP::spec_remainder(w),
            _ => w,
        }
    }

    /// The number of bytes that the headers of this layer take.
    pub open spec fn spec_header_len(&self) -> nat {
        match self {
            TransportLayer::NULL => 0,
            TransportLayer::UndefinedData(_) => 0,
            TransportLayer::ICMP(header) => header.spec_header_len(),
            TransportLayer::TCP(header) => header.spec_header_len(),
            TransportLayer::UDP(header) => header.spec_header_len(),
        }
    }

    /// The number of bytes from which the fields of this layer are read.
    pub open spec fn spec_fields_len(&self) -> nat {
        match self {
            TransportLayer::NULL => 0,
            TransportLayer::UndefinedData(_) => 0,
            TransportLayer::ICMP(_) => 4,
            TransportLayer::TCP(_) => 20,
            TransportLayer::UDP(_) => 8,
        }
    }

    /// The window of bytes that no header took, where the layer holds one.
    pub open spec fn spec_payload(&self) -> Option<&'a Bytes<'a>> {
        match self {
            TransportLayer::NULL => None,
            TransportLayer::UndefinedData(data) => Some(*data),
            TransportLayer::ICMP(header) => Some(header.payload),
            TransportLayer::TCP(header) => Some(header.payload),
            TransportLayer::UDP(header) => Some(header.payload),
        }
    }

    /// Every protocol number leads to one variant: 1 to ICMP, 6 to TCP, 17 to
    /// UDP, and every other number to the undecoded bytes, never to an error.
    pub proof fn lemma_dispatch(layer_type: u8, w: Bytes<'a>)
        ensures
            match Self::spec_from_data(layer_type, w) {
                Ok(TransportLayer::ICMP(_)) => layer_type == 0x01,
                Ok(TransportLayer::TCP(_)) => layer_type == 0x06,
                Ok(TransportLayer::UDP(_)) => layer_type == 0x11,
                Ok(TransportLayer::UndefinedData(data)) => *data == w && layer_type != 0x01
                    && layer_type != 0x06 && layer_type != 0x11,
                Ok(TransportLayer::NULL) => false,
                Err(_) => layer_type == 0x01 || layer_type == 0x06 || layer_type == 0x11,
            },
            layer_type != 0x01 && layer_type != 0x06 && layer_type != 0x11
                ==> Self::spec_from_data(layer_type, w) == Ok::<TransportLayer<'a>, DecodeError>(
                TransportLayer::UndefinedData(&w),
            ),
    {
    }

    /// Where decoding succeeds, the bytes of the headers and the bytes that
    /// are left make up the window that was given: the window that decoding
    /// leaves is the payload of the layer, and holds what follows the headers.
    /// The headers take every byte that a field was read from, so no byte is
    /// both in a field and in the payload.
    pub proof fn lemma_conservation(layer_type: u8, w: Bytes<'a>)
        requires
            w.wf(),
        ensures
            Self::spec_remainder(layer_type, w).wf(),
            Self::spec_remainder(layer_type, w).buffer() == w.buffer(),
            Self::spec_remainder(layer_type, w).end() == w.end(),
            match Self::spec_from_data(layer_type, w) {
                Ok(layer) => {
                    &&& layer.spec_header_len() + Self::spec_remainder(layer_type, w)@.len()
                        == w@.len()
                    &&& Self::spec_remainder(layer_type, w)@ == w@.skip(
                        layer.spec_header_len() as int,
                    )
                    &&& layer.spec_payload() == Some(&Self::spec_remainder(layer_type, w))
                    &&& layer.spec_fields_len() <= layer.spec_header_len()
                },
                Err(_) => Self::spec_remainder(layer_type, w) == w,
            },
    {
        let s = w@;
        if s.len() >= 4 {
            w.lemma_advanced(4);
        }
        if s.len() >= 8 {
            w.lemma_advanced(8);
        }
        if s.len() >= 20 && s.len() >= TCP::spec_len_of(s[12]) {
            w.lemma_advanced(TCP::spec_len_of(s[12]));
        }
        assert(s.skip(0) =~= s);
    }

    /// The number of bytes that the headers of this layer take.
    pub fn header_len(&self) -> (res: usize)
        ensures
            res == self.spec_header_len(),
    {
        match self {
            TransportLayer::NULL => 0,
            TransportLayer::UndefinedData(_) => 0,
            TransportLayer::ICMP(_) => 4,
            TransportLayer::TCP(header) => if header.data_offset < 5 {
                20
            } else {
                4 * (header.data_offset as usize)
            },
            TransportLayer::UDP(_) => 8,
        }
    }

    /// The window of bytes that no header took, where the layer holds one.
    pub fn payload(&self) -> (res: Option<&'a Bytes<'a>>)
        ensures
            res == self.spec_payload(),
    {
        match self {
            TransportLayer::NULL => None,
            TransportLayer::UndefinedData(data) => Some(*data),
            TransportLayer::ICMP(header) => Some(header.payload),
            TransportLayer::TCP(header) => Some(header.payload),
            TransportLayer::UDP(header) => Some(header.payload),
        }
    }

    /// Decodes what `bytes` holds under the protocol number `layer_type` and
    /// moves `bytes` past the header. An unknown number is no error.
    pub fn from_data(layer_type: u8, bytes: &'a mut Bytes) -> (res: Result<Self, DecodeError>)
        ensures
            res == Self::spec_from_data(layer_type, *old(bytes)),
            *final(bytes) == Self::spec_remainder(layer_type, *old(bytes)),
    {
        Ok(
            match layer_type {
                0x01 => Self::ICMP(ICMP::from_bytes(bytes)?),
                0x06 => Self::TCP(TCP::from_bytes(bytes)?),
                0x11 => Self::UDP(UDP::from_bytes(bytes)?),
                _ => Self::UndefinedData(bytes),
            },
        )
    }
}

} // verus!
