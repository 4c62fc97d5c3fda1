use packet_sniffer::packet::transport::MessageCode;
use packet_sniffer::packet::transport::MessageType;

#[test]
fn assigned_message_types() {
    assert_eq!(MessageType::from(0), MessageType::EchoReply);
    assert_eq!(MessageType::from(3), MessageType::DesinationUnreachable);
    assert_eq!(MessageType::from(4), MessageType::SourceQuench);
    assert_eq!(MessageType::from(5), MessageType::Redirect);
    assert_eq!(MessageType::from(6), MessageType::AlternateHostAddress);
    assert_eq!(MessageType::from(8), MessageType::EchoRequest);
    assert_eq!(MessageType::from(9), MessageType::RouterAdvertisement);
    assert_eq!(MessageType::from(10), MessageType::RouterSolicitation);
    assert_eq!(MessageType::from(11), MessageType::TimeExceeded);
    assert_eq!(MessageType::from(12), MessageType::ParameterProblem);
    assert_eq!(MessageType::from(13), MessageType::Timestamp);
    assert_eq!(MessageType::from(14), MessageType::TimestampReply);
    assert_eq!(MessageType::from(15), MessageType::InformationRequest);
    assert_eq!(MessageType::from(16), MessageType::InformationReply);
    assert_eq!(MessageType::from(17), MessageType::AddressMaskRequest);
    assert_eq!(MessageType::from(18), MessageType::AddressMaskReply);
    assert_eq!(MessageType::from(19), MessageType::Unassigned19);
    assert_eq!(MessageType::from(30), MessageType::Traceroute);
    assert_eq!(MessageType::from(31), MessageType::DatagramConversionError);
    assert_eq!(MessageType::from(32), MessageType::MobileHostRedirect);
    assert_eq!(MessageType::from(33), MessageType::WhereAreYou);
    assert_eq!(MessageType::from(34), MessageType::HereIAm);
    assert_eq!(MessageType::from(35), MessageType::MobileRegistrationRequest);
    assert_eq!(MessageType::from(36), MessageType::MobileRegistrationReply);
    assert_eq!(MessageType::from(37), MessageType::DomainNameRequest);
    assert_eq!(MessageType::from(38), MessageType::DomainNameReply);
    assert_eq!(MessageType::from(39), MessageType::SkipAlgorithmDiscoveryProtocol);
    assert_eq!(MessageType::from(40), MessageType::Photuris);
    assert_eq!(MessageType::from(41), MessageType::Experimental41);
    assert_eq!(MessageType::from(42), MessageType::ExtendedEchoRequest);
    assert_eq!(MessageType::from(43), MessageType::ExtendedEchoReply);
    assert_eq!(MessageType::from(253), MessageType::Experimental253);
    assert_eq!(MessageType::from(254), MessageType::Experimental254);
}

#[test]
fn unassigned_message_types_share_one_tag() {
    for value in [1u8, 2, 7, 44, 45, 100, 200, 251, 252, 255] {
        assert_eq!(MessageType::from(value), MessageType::Unassigned);
    }
    for value in 20u8..=29 {
        assert_eq!(MessageType::from(value), MessageType::Unassigned20);
    }
    assert_ne!(MessageType::from(19), MessageType::Unassigned20);
    assert_ne!(MessageType::from(30), MessageType::Unassigned20);
    assert_eq!(MessageType::default(), MessageType::Unassigned);
}

#[test]
fn every_type_number_has_one_type_and_numbers_round_trip() {
    for value in 0u8..=255 {
        let message_type = MessageType::from(value);
        assert_eq!(MessageType::from(message_type.number()), message_type);
        assert!(message_type.number() <= value);
    }
    assert_eq!(MessageType::Unassigned.number(), 1);
    assert_eq!(MessageType::Unassigned20.number(), 20);
    assert_eq!(MessageType::Experimental254.number(), 254);
}

#[test]
fn types_with_code_zero_alone() {
    let table = [
        (MessageType::EchoReply, MessageCode::EchoReply),
        (MessageType::Unassigned, MessageCode::Reserved),
        (MessageType::SourceQuench, MessageCode::SourceQuench),
        (MessageType::AlternateHostAddress, MessageCode::AlternateHostAddress),
        (MessageType::EchoRequest, MessageCode::EchoRequest),
        (MessageType::RouterAdvertisement, MessageCode::RouterAdvertisement),
        (MessageType::RouterSolicitation, MessageCode::RouterDiscovery),
        (MessageType::Timestamp, MessageCode::Timestamp),
        (MessageType::TimestampReply, MessageCode::TimestampReply),
        (MessageType::InformationRequest, MessageCode::InformationRequest),
        (MessageType::InformationReply, MessageCode::InformationReply),
        (MessageType::AddressMaskRequest, MessageCode::AddressMaskRequest),
        (MessageType::AddressMaskReply, MessageCode::AddressMaskReply),
        (MessageType::Unassigned19, MessageCode::ReservedForSecurity),
        (MessageType::Unassigned20, MessageCode::ReservedForRobustnessExperiment),
        (MessageType::Traceroute, MessageCode::InformationRequest),
        (MessageType::DatagramConversionError, MessageCode::DatagramConversionError),
        (MessageType::MobileHostRedirect, MessageCode::MobileHostRedirect),
        (MessageType::WhereAreYou, MessageCode::WhereAreYou),
        (MessageType::HereIAm, MessageCode::HereIAm),
        (MessageType::MobileRegistrationRequest, MessageCode::MobileRegistrationRequest),
        (MessageType::MobileRegistrationReply, MessageCode::MobileRegistrationReply),
        (MessageType::DomainNameRequest, MessageCode::DomainNameRequest),
        (MessageType::DomainNameReply, MessageCode::DomainNameReply),
        (MessageType::SkipAlgorithmDiscoveryProtocol, MessageCode::SkipAlgorithmDiscoveryProtocol),
        (MessageType::Photuris, MessageCode::Photuris),
        (MessageType::Experimental41, MessageCode::IcmpForExperimentalMobilityProtocols),
        (MessageType::Experimental253, MessageCode::Rfc362StyleExperiment1),
        (MessageType::Experimental254, MessageCode::Rfc362StyleExperiment2),
        (MessageType::ExtendedEchoRequest, MessageCode::RequestExtenddedEcho),
    ];
    for (message_type, meaning) in table {
        assert_eq!(MessageCode::from_type_and_code(&message_type, 0), meaning);
        for code in [1u8, 2, 16, 255] {
            assert_eq!(
                MessageCode::from_type_and_code(&message_type, code),
                MessageCode::UndefinedCode
            );
        }
    }
}

#[test]
fn destination_unreachable_codes() {
    let meanings = [
        MessageCode::DestinationNetworkUnreachable,
        MessageCode::DestinationHostUnreachable,
        MessageCode::DestinationProtocolUnreachable,
        MessageCode::DestinationPortUnreachable,
        MessageCode::FragmentationIsNeededAndTheDfFlagSet,
        MessageCode::SourceRouteFailed,
        MessageCode::DestinationNetworkUnknown,
        MessageCode::DestinationHostUnknown,
        MessageCode::SourceHostIsolated,
        MessageCode::NetworkAdministrativelyProhibited,
        MessageCode::HostAdministrativelyProhibited,
        MessageCode::NetworkUnreachableForTos,
        MessageCode::HostUnreachableForTos,
        MessageCode::CommunicationAdministrativelyProhibited,
        MessageCode::HostPrecedenceViolation,
        MessageCode::PrecedenceCutoffInEffect,
    ];
    for (code, meaning) in meanings.iter().enumerate() {
        assert_eq!(
            MessageCode::from_type_and_code(&MessageType::DesinationUnreachable, code as u8),
            *meaning
        );
    }
    for code in 16u8..=255 {
        assert_eq!(
            MessageCode::from_type_and_code(&MessageType::DesinationUnreachable, code),
            MessageCode::UndefinedCode
        );
    }
}

#[test]
fn other_types_with_several_codes() {
    let redirect = [
        MessageCode::RedirectTheDatagramForTheNetwork,
        MessageCode::RedirectTheDatagramForTheHost,
        MessageCode::RedirectTheDatagramForTheServiceAndNetwork,
        MessageCode::RedirectTheDatagramForTheServiceAndHost,
    ];
    for (code, meaning) in redirect.iter().enumerate() {
        assert_eq!(MessageCode::from_type_and_code(&MessageType::Redirect, code as u8), *meaning);
    }
    assert_eq!(
        MessageCode::from_type_and_code(&MessageType::Redirect, 4),
        MessageCode::UndefinedCode
    );
    assert_eq!(
        MessageCode::from_type_and_code(&MessageType::TimeExceeded, 0),
        MessageCode::TimeToLiveExpiredInTransit
    );
    assert_eq!(
        MessageCode::from_type_and_code(&MessageType::TimeExceeded, 1),
        MessageCode::FragmentReassemblyTimeExceeded
    );
    assert_eq!(
        MessageCode::from_type_and_code(&MessageType::TimeExceeded, 2),
        MessageCode::UndefinedCode
    );
    assert_eq!(
        MessageCode::from_type_and_code(&MessageType::ParameterProblem, 0),
        MessageCode::PointerIndicatesTheError
    );
    assert_eq!(
        MessageCode::from_type_and_code(&MessageType::ParameterProblem, 1),
        MessageCode::MissingARequiredOption
    );
    assert_eq!(
        MessageCode::from_type_and_code(&MessageType::ParameterProblem, 2),
        MessageCode::BadLength
    );
    assert_eq!(
        MessageCode::from_type_and_code(&MessageType::ParameterProblem, 3),
        MessageCode::UndefinedCode
    );
    let extended = [
        MessageCode::NoError,
        MessageCode::MalformedQuery,
        MessageCode::NoSuchInterface,
        MessageCode::NoSuchEntry,
        MessageCode::MultipleInterfacesSatisfyQuery,
    ];
    for (code, meaning) in extended.iter().enumerate() {
        assert_eq!(
            MessageCode::from_type_and_code(&MessageType::ExtendedEchoReply, code as u8),
            *meaning
        );
    }
    assert_eq!(
        MessageCode::from_type_and_code(&MessageType::ExtendedEchoReply, 5),
        MessageCode::UndefinedCode
    );
    assert_eq!(MessageCode::default(), MessageCode::Reserved);
}

#[test]
fn every_type_and_code_pair_has_a_meaning() {
    for value in 0u8..=255 {
        let message_type = MessageType::from(value);
        for code in 0u8..=255 {
            let first = MessageCode::from_type_and_code(&message_type, code);
            let second = MessageCode::from_type_and_code(&message_type, code);
            assert_eq!(first, second);
        }
    }
}
