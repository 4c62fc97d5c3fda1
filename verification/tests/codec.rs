use packet_sniffer::byte_slice::hex::parse_hex_stream;
use packet_sniffer::byte_slice::Hex;
use packet_sniffer::byte_slice::Ipv4addr;
use packet_sniffer::byte_slice::Ipv6addr;
use packet_sniffer::byte_slice::MacAddress;
use packet_sniffer::byte_slice::SliceToUnsigned;

#[test]
fn two_bytes_decode_big_endian() {
    assert_eq!([0x01u8, 0xbb].to_u16(), 443);
    assert_eq!([0x01u8, 0xbb].to_u16(), 0x01bb);
    assert_eq!([0xffu8, 0xff].to_u16(), u16::MAX);
    assert_eq!([0x00u8, 0x00].to_u16(), 0);
    assert_eq!([0x80u8, 0x00].to_u16(), 0x8000);
}

#[test]
fn narrower_ranges_decode_to_the_same_number() {
    let empty: [u8; 0] = [];
    assert_eq!(empty.to_u16(), 0);
    assert_eq!(empty.to_u32(), 0);
    assert_eq!(empty.to_u64(), 0);
    assert_eq!(empty.to_u128(), 0);
    assert_eq!([0x7fu8].to_u8(), 0x7f);
    assert_eq!([0x7fu8].to_u16(), 0x7f);
    assert_eq!([0x7fu8].to_u128(), 0x7f);
    assert_eq!([0x01u8, 0xbb].to_u32(), 443);
    assert_eq!([0x01u8, 0xbb].to_u64(), 443);
    assert_eq!([0x12u8, 0x34, 0x56].to_u32(), 0x123456);
    assert_eq!([0x00u8, 0x00, 0x01].to_u32(), 1);
}

#[test]
fn full_width_ranges() {
    assert_eq!([0xc0u8, 0xa8, 0x01, 0x6a].to_u32(), 0xc0a8016a);
    assert_eq!([0xffu8; 4].to_u32(), u32::MAX);
    assert_eq!([1u8, 2, 3, 4, 5, 6, 7, 8].to_u64(), 0x0102030405060708);
    assert_eq!([0xffu8; 8].to_u64(), u64::MAX);
    assert_eq!(
        [1u8, 2, 3, 4, 5, 6, 7, 8, 9, 10, 11, 12, 13, 14, 15, 16].to_u128(),
        0x0102030405060708090a0b0c0d0e0f10
    );
    assert_eq!([0xffu8; 16].to_u128(), u128::MAX);
    assert_eq!([0x08u8, 0x26, 0x97, 0x6c, 0x21, 0x40].to_u64(), 0x0826976c2140);
}

#[test]
fn decoding_agrees_with_the_standard_conversions() {
    for high in [0u8, 1, 0x7f, 0x80, 0xff] {
        for low in [0u8, 1, 0x7f, 0x80, 0xff] {
            assert_eq!([high, low].to_u16(), u16::from_be_bytes([high, low]));
            assert_eq!([high, low].to_u16().to_be_bytes(), [high, low]);
            assert_eq!(
                [high, low, low, high].to_u32().to_be_bytes(),
                [high, low, low, high]
            );
        }
    }
}

#[test]
fn mac_address_keeps_the_low_forty_eight_bits() {
    let address = MacAddress::from(0x0826976c2140);
    assert_eq!(address.octets(), [0x08, 0x26, 0x97, 0x6c, 0x21, 0x40]);
    let address = MacAddress::from(0xabcd_204e_f634_c6e3);
    assert_eq!(address.octets(), [0x20, 0x4e, 0xf6, 0x34, 0xc6, 0xe3]);
    assert_eq!(address, MacAddress::from(0x204ef634c6e3));
    assert_eq!(MacAddress::from(0).octets(), [0; 6]);
    assert_eq!(MacAddress::from(u64::MAX).octets(), [0xff; 6]);
    assert_ne!(MacAddress::from(1), MacAddress::from(2));
}

#[test]
fn mac_address_round_trip() {
    let written = [0x20u8, 0x4e, 0xf6, 0x34, 0xc6, 0xe3];
    assert_eq!(MacAddress::from(written.to_u64()).octets(), written);
}

#[test]
fn ipv4_address_octets() {
    assert_eq!(Ipv4addr(0xc0a8016a).octets(), [192, 168, 1, 106]);
    assert_eq!(Ipv4addr(0).octets(), [0, 0, 0, 0]);
    assert_eq!(Ipv4addr(u32::MAX).octets(), [255, 255, 255, 255]);
    assert_eq!(Ipv4addr([13u8, 89, 179, 8].to_u32()).octets(), [13, 89, 179, 8]);
}

#[test]
fn ipv6_address_segments() {
    let address = Ipv6addr(0x2001_0db8_85a3_0000_0000_8a2e_0370_7334);
    assert_eq!(
        address.segments(),
        [0x2001, 0x0db8, 0x85a3, 0x0000, 0x0000, 0x8a2e, 0x0370, 0x7334]
    );
    assert_eq!(Ipv6addr(1).segments(), [0, 0, 0, 0, 0, 0, 0, 1]);
    assert_eq!(Ipv6addr(u128::MAX).segments(), [0xffff; 8]);
}

#[test]
fn hex_text_to_bytes() {
    assert_eq!("0826976c2140".hex_stream_to_vec(), vec![0x08, 0x26, 0x97, 0x6c, 0x21, 0x40]);
    assert_eq!("01bb".hex_stream_to_vec(), vec![0x01, 0xbb]);
    assert_eq!("01BB".hex_stream_to_vec(), vec![0x01, 0xbb]);
    assert_eq!("fF".hex_stream_to_vec(), vec![0xff]);
    assert_eq!("00".hex_stream_to_vec(), vec![0x00]);
    assert_eq!("".hex_stream_to_vec(), Vec::<u8>::new());
}

#[test]
fn hex_text_without_a_last_partner() {
    assert_eq!("abc".hex_stream_to_vec(), vec![0xab]);
    assert_eq!("a".hex_stream_to_vec(), Vec::<u8>::new());
    assert_eq!("12z".hex_stream_to_vec(), vec![0x12]);
}

#[test]
fn hex_text_agrees_with_the_standard_parser() {
    let alphabet = [
        b'0', b'9', b'a', b'f', b'A', b'F', b'g', b'G', b'+', b'-', b' ', b'/', b':', b'@', b'`',
        b'x',
    ];
    for first in alphabet {
        for second in alphabet {
            let text = [first, second];
            let expected =
                u8::from_str_radix(std::str::from_utf8(&text).unwrap(), 16).ok().map(|b| vec![b]);
            assert_eq!(parse_hex_stream(&text), expected);
        }
    }
}

#[test]
fn hex_text_with_a_bad_pair_gives_nothing() {
    assert_eq!(parse_hex_stream(b"0g"), None);
    assert_eq!(parse_hex_stream(b"12 3"), None);
    assert_eq!(parse_hex_stream(b"zz"), None);
    assert_eq!(parse_hex_stream(b"1234xx56"), None);
    assert_eq!(parse_hex_stream("é".as_bytes()), None);
    assert_eq!(parse_hex_stream(b"12345"), Some(vec![0x12, 0x34]));
    assert_eq!(parse_hex_stream(b"+f"), Some(vec![0x0f]));
    assert_eq!(parse_hex_stream(b"++"), None);
    assert_eq!(parse_hex_stream(b"-1"), None);
}
