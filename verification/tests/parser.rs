use bootpd::errors::Error;
use bootpd::parser::dhcp_message;
use bootpd::parser::Parser;

#[test]
fn parser_return_error_on_empty_buffer() {
    let buf: [u8; 0] = [0; 0];
    assert!(Parser::parse(&buf).is_err());
}

#[test]
fn parser_data() {
    let _data: [u8; 236] = [
        1, // BOOTREQUEST                       // op
        1, // ETHERNET 10Mb/s                   // htype
        6, // Hardware address length           // hlen
        0, // is it a bootp relay ?             // hops
        0, 0, 0, 1, // xid transaction ID
        0, 0, // second elapsed since client began process
        0b1000_0000, 0, // flags with broadcast set
        0, 0, 0, 0,   // ciaddr empty because client has no addres
        127, 0, 0, 1, // yiaddr our adress
        0, 0, 0, 0,   // siaddr not used because client msg
        0, 0, 0, 0,   // giaddr no relay so 0
        0,0,0,0, 0,0,0,0, 0,0,0,0, 0,0,0,0, // chaddr client hardware address
        // sname optional server hostname 64B
        0,0,0,0, 0,0,0,0, 0,0,0,0, 0,0,0,0,
        0,0,0,0, 0,0,0,0, 0,0,0,0, 0,0,0,0,
        0,0,0,0, 0,0,0,0, 0,0,0,0, 0,0,0,0,
        0,0,0,0, 0,0,0,0, 0,0,0,0, 0,0,0,0,
        // file boot file name 128B
        0,0,0,0, 0,0,0,0, 0,0,0,0, 0,0,0,0,
        0,0,0,0, 0,0,0,0, 0,0,0,0, 0,0,0,0,
        0,0,0,0, 0,0,0,0, 0,0,0,0, 0,0,0,0,
        0,0,0,0, 0,0,0,0, 0,0,0,0, 0,0,0,0,
        0,0,0,0, 0,0,0,0, 0,0,0,0, 0,0,0,0,
        0,0,0,0, 0,0,0,0, 0,0,0,0, 0,0,0,0,
        0,0,0,0, 0,0,0,0, 0,0,0,0, 0,0,0,0,
        0,0,0,0, 0,0,0,0, 0,0,0,0, 0,0,0,0
    ];
}

#[test]
fn parse_message_type_boot_request() {
    assert_eq!(dhcp_message::Type::BootRequest, Parser::parse_message_type(1u8).unwrap());
}

#[test]
fn parse_message_type_boot_reply() {
    assert_eq!(dhcp_message::Type::BootReply, Parser::parse_message_type(2u8).unwrap());
}

#[test]
fn parse_message_type_zero_is_boot_reply() {
    assert_eq!(dhcp_message::Type::BootReply, Parser::parse_message_type(0u8).unwrap());
}

#[test]
fn parse_empty_buffer_names_bad_input_datagram() {
    let buf: [u8; 0] = [0; 0];
    assert_eq!(Err(Error::BadInputDatagram), Parser::parse(&buf));
}

#[test]
fn parse_accepts_minimum_length_with_cookie() {
    let mut buf: [u8; 236] = [0; 236];
    buf[232] = 99;
    buf[233] = 130;
    buf[234] = 83;
    buf[235] = 99;
    assert_eq!(Ok(()), Parser::parse(&buf));
}

#[test]
fn parse_accepts_full_header_with_cookie() {
    let mut buf: [u8; 240] = [0; 240];
    buf[236] = 99;
    buf[237] = 130;
    buf[238] = 83;
    buf[239] = 99;
    assert_eq!(Ok(()), Parser::parse(&buf));
}

#[test]
fn parse_rejects_short_buffer_even_with_cookie() {
    let mut buf: [u8; 235] = [0; 235];
    buf[231] = 99;
    buf[232] = 130;
    buf[233] = 83;
    buf[234] = 99;
    assert_eq!(Err(Error::BadInputDatagram), Parser::parse(&buf));
}

#[test]
fn parse_rejects_wrong_cookie() {
    let mut buf: [u8; 240] = [0; 240];
    buf[236] = 99;
    buf[237] = 130;
    buf[238] = 83;
    buf[239] = 98;
    assert_eq!(Err(Error::BadInputDatagram), Parser::parse(&buf));
}
