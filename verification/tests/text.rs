use netif::interface::{Interface, Outcome};
use netif::request::{Record, Reply, SocketAddress};
use netif::text::{push_decimal, push_quad, show};

fn handle(name: &str) -> Interface {
    let answer = Reply::Interface(Record {
        flags: 0,
        index: 1,
        address: SocketAddress { family: 0, data: [0; 14] },
    });
    match Interface::open(name).unwrap().resume(Ok(answer)).finish() {
        Some(Ok(Outcome::Handle(handle))) => handle,
        other => panic!("no handle: {:?}", other),
    }
}

#[test]
fn decimal_has_no_leading_zeros() {
    let cases = [
        (0u8, "0"),
        (7, "7"),
        (9, "9"),
        (10, "10"),
        (42, "42"),
        (99, "99"),
        (100, "100"),
        (101, "101"),
        (110, "110"),
        (200, "200"),
        (255, "255"),
    ];
    for (n, expected) in cases {
        let mut text = String::from("n=");
        push_decimal(&mut text, n);
        assert_eq!(text, format!("n={}", expected));
    }
}

#[test]
fn decimal_agrees_with_the_standard_library() {
    for n in 0..=255u8 {
        let mut text = String::new();
        push_decimal(&mut text, n);
        assert_eq!(text, n.to_string());
    }
}

#[test]
fn quad_is_written_like_a_list() {
    let mut text = String::new();
    push_quad(&mut text, &[192, 168, 1, 10]);
    assert_eq!(text, "[192, 168, 1, 10]");
    push_quad(&mut text, &[0, 0, 0, 0]);
    assert_eq!(text, "[192, 168, 1, 10][0, 0, 0, 0]");
    assert_eq!(text, format!("{:?}{:?}", [192u8, 168, 1, 10], [0u8; 4]));
}

#[test]
fn show_defaults_to_the_zero_address() {
    assert_eq!(show(Some([1, 2, 3, 4])), [1, 2, 3, 4]);
    assert_eq!(show(None), [0, 0, 0, 0]);
}

#[test]
fn summary_names_the_three_addresses() {
    let eth0 = handle("eth0");
    assert_eq!(
        eth0.summary(Some([192, 168, 1, 10]), Some([255, 255, 255, 0]), Some([192, 168, 1, 255])),
        "eth0 { ipv4: [192, 168, 1, 10], netmask: [255, 255, 255, 0], \
         broadcast: [192, 168, 1, 255] }"
    );
}

#[test]
fn summary_degrades_each_address_on_its_own() {
    let wlan0 = handle("wlan0");
    assert_eq!(
        wlan0.summary(None, Some([255, 0, 0, 0]), None),
        "wlan0 { ipv4: [0, 0, 0, 0], netmask: [255, 0, 0, 0], broadcast: [0, 0, 0, 0] }"
    );
    assert_eq!(
        wlan0.summary(None, None, None),
        "wlan0 { ipv4: [0, 0, 0, 0], netmask: [0, 0, 0, 0], broadcast: [0, 0, 0, 0] }"
    );
    assert_eq!(
        handle("").summary(Some([10, 0, 0, 1]), None, None),
        " { ipv4: [10, 0, 0, 1], netmask: [0, 0, 0, 0], broadcast: [0, 0, 0, 0] }"
    );
}
