use registration_bridge::handler::{extract_ip, forwarded_client, FORWARDED_HEADER};
use registration_bridge::limiter::IpAddress;
use registration_bridge::text::chars_of;

#[test]
fn single_value_is_returned_whole() {
    assert_eq!(forwarded_client("203.0.113.7"), "203.0.113.7");
}

#[test]
fn first_of_several_values_is_taken() {
    assert_eq!(forwarded_client("203.0.113.7, 10.0.0.1, 10.0.0.2"), "203.0.113.7");
    assert_eq!(forwarded_client("2001:db8::1,10.0.0.1"), "2001:db8::1");
}

#[test]
fn whitespace_around_the_value_is_dropped() {
    assert_eq!(forwarded_client("  203.0.113.7 ,10.0.0.1"), "203.0.113.7");
    assert_eq!(forwarded_client("\t203.0.113.7\u{a0}"), "203.0.113.7");
    assert_eq!(forwarded_client(" a b , c"), "a b");
}

#[test]
fn empty_first_value_is_empty() {
    assert_eq!(forwarded_client(""), "");
    assert_eq!(forwarded_client(","), "");
    assert_eq!(forwarded_client("  , 10.0.0.1"), "");
    assert_eq!(forwarded_client("   "), "");
}

#[test]
fn first_value_agrees_with_std_on_samples() {
    for s in [
        "", ",", " ", " ,", ", ", "a", " a", "a ", " a ", "a,b", " a , b ", ",a", "a,,b",
        "\u{3000}x\u{2003},y", "é , ü", "  \t ,", "x y", " x y ,z",
    ] {
        let plain = s.split(',').next().unwrap().trim();
        assert_eq!(forwarded_client(s), plain, "{:?}", s);
    }
}

#[test]
fn characters_come_in_order() {
    assert_eq!(chars_of("aé𝄞"), vec!['a', 'é', '𝄞']);
    assert_eq!(chars_of(""), Vec::<char>::new());
}

#[test]
fn forwarded_address_wins_over_the_peer() {
    let peer = IpAddress::V4(0x0a00_0001);
    let client = IpAddress::V6(1);
    assert_eq!(extract_ip(Some(client), peer), client);
    assert_eq!(extract_ip(None, peer), peer);
}

#[test]
fn forwarded_header_is_x_forwarded_for() {
    assert_eq!(FORWARDED_HEADER, "x-forwarded-for");
}
