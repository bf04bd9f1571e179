use gateway_config::ip::IpAddress;
use gateway_config::paths::join_path;
use url::Url;
use std::path::Path;

fn v6(s: [u16; 8]) -> String {
    IpAddress::V6(s).to_string()
}

#[test]
fn ipv4_text_is_dotted_decimal() {
    assert_eq!(IpAddress::V4([0, 0, 0, 0]).to_string(), "0.0.0.0");
    assert_eq!(IpAddress::V4([127, 0, 0, 1]).to_string(), "127.0.0.1");
    assert_eq!(IpAddress::V4([255, 10, 100, 9]).to_string(), "255.10.100.9");
}

#[test]
fn ipv6_text_compresses_first_longest_zero_run() {
    assert_eq!(v6([0; 8]), "::");
    assert_eq!(v6([0, 0, 0, 0, 0, 0, 0, 1]), "::1");
    assert_eq!(v6([0x2001, 0xdb8, 0, 0, 0, 0, 0, 1]), "2001:db8::1");
    assert_eq!(v6([1, 0, 0, 1, 0, 0, 0, 1]), "1:0:0:1::1");
    assert_eq!(v6([1, 0, 0, 1, 0, 0, 1, 1]), "1::1:0:0:1:1");
    assert_eq!(v6([1, 0, 1, 0, 1, 0, 1, 0]), "1:0:1:0:1:0:1:0");
    assert_eq!(v6([0xabcd, 0xef01, 0x2345, 0x6789, 0xa, 0xbc, 0xdef, 0x1000]), "abcd:ef01:2345:6789:a:bc:def:1000");
    assert_eq!(v6([1, 2, 3, 4, 5, 6, 7, 0]), "1:2:3:4:5:6:7:0");
    assert_eq!(v6([1, 2, 3, 4, 5, 6, 0, 0]), "1:2:3:4:5:6::");
}

#[test]
fn ipv6_text_of_ipv4_mapped_address() {
    assert_eq!(v6([0, 0, 0, 0, 0, 0xffff, 0xc000, 0x0280]), "::ffff:192.0.2.128");
    assert_eq!(v6([0, 0, 0, 0, 0, 0, 0xc000, 0x0280]), "::c000:280");
}

/// The compressed text that the `url` crate gives an IPv6 host; for addresses
/// that are not IPv4-mapped it is the text `std::net::Ipv6Addr` displays.
fn url_host_text(segs: [u16; 8]) -> String {
    let full: Vec<String> = segs.iter().map(|s| format!("{s:x}")).collect();
    let url = Url::parse(&format!("http://[{}]/", full.join(":"))).unwrap();
    let host = url.host_str().unwrap().to_string();
    host.trim_start_matches('[').trim_end_matches(']').to_string()
}

#[test]
fn ipv6_text_matches_url_host_text() {
    let mut seed: u64 = 0x9e37_79b9_7f4a_7c15;
    for round in 0..4000u32 {
        seed ^= seed << 13;
        seed ^= seed >> 7;
        seed ^= seed << 17;
        let mut segs = [0u16; 8];
        for (k, seg) in segs.iter_mut().enumerate() {
            let bits = (seed >> (k * 8)) & 0xff;
            // Make zero segments common so that runs of every length occur.
            *seg = if bits % 3 == 0 { 0 } else { (bits as u16).wrapping_mul(0x101) ^ (round as u16) };
        }
        if segs[..5] == [0, 0, 0, 0, 0] && segs[5] == 0xffff {
            continue;
        }
        assert_eq!(IpAddress::V6(segs).to_string(), url_host_text(segs), "{segs:?}");
    }
}

#[test]
fn ipv4_text_of_many_addresses() {
    for a in [0u8, 1, 9, 10, 99, 100, 199, 200, 255] {
        for b in [0u8, 7, 42, 250] {
            let expected = format!("{a}.{b}.{b}.{a}");
            assert_eq!(IpAddress::V4([a, b, b, a]).to_string(), expected);
        }
    }
}

#[test]
fn join_path_matches_std_path_join() {
    let parts = ["", "a", "/", "/abs", "b/c", "x/", ".nym", "gateways", "data"];
    let bases = ["", "/", "/home/user", "rel", "rel/", "/tmp/", "a/b"];
    for base in bases {
        for part in parts {
            let expected = Path::new(base).join(part);
            assert_eq!(join_path(base, part), expected.to_str().unwrap(), "{base:?} + {part:?}");
        }
    }
}

#[test]
fn join_path_examples() {
    assert_eq!(join_path("/tmp", "file.bk"), "/tmp/file.bk");
    assert_eq!(join_path("/tmp", "/etc"), "/etc");
    assert_eq!(join_path("/tmp/", "x"), "/tmp/x");
    assert_eq!(join_path("", "x"), "x");
}
