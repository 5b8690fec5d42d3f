use tcp_tester::socket_key::{from_packet_view, from_socket_view, Direction, SocketKey};

#[test]
fn socket_views_of_both_ends_agree() {
    // Endpoint A = (10.0.0.1-ish as integer, port 40000), endpoint B = (2, port 80).
    let a_addr: u32 = 0x0a000001;
    let a_port: u16 = 40000;
    let b_addr: u32 = 0x02020202;
    let b_port: u16 = 80;

    let from_a = from_socket_view(a_addr, a_port, b_addr, b_port);
    let from_b = from_socket_view(b_addr, b_port, a_addr, a_port);
    assert_eq!(from_a, from_b);
}

#[test]
fn packet_views_of_both_directions_agree() {
    let a_addr: u32 = 0x0a000001;
    let a_port: u16 = 40000;
    let b_addr: u32 = 0x02020202;
    let b_port: u16 = 80;

    let egress = from_packet_view(a_addr, a_port, b_addr, b_port, Direction::Egress);
    let ingress = from_packet_view(b_addr, b_port, a_addr, a_port, Direction::Ingress);
    assert_eq!(egress, ingress);
}

#[test]
fn socket_view_matches_packet_view() {
    let a_addr: u32 = 7;
    let a_port: u16 = 1234;
    let b_addr: u32 = 9;
    let b_port: u16 = 443;

    let socket = from_socket_view(a_addr, a_port, b_addr, b_port);
    let wire_out = from_packet_view(a_addr, a_port, b_addr, b_port, Direction::Egress);
    let wire_in = from_packet_view(b_addr, b_port, a_addr, a_port, Direction::Ingress);
    assert_eq!(socket, wire_out);
    assert_eq!(socket, wire_in);
}

#[test]
fn key_is_canonically_ordered() {
    let k = from_socket_view(10, 1000, 2, 80);
    assert_eq!(
        k,
        SocketKey { addr_lo: 2, port_lo: 80, addr_hi: 10, port_hi: 1000 }
    );
}

#[test]
fn same_address_orders_by_port() {
    let k1 = from_socket_view(5, 900, 5, 80);
    let k2 = from_socket_view(5, 80, 5, 900);
    assert_eq!(k1, k2);
    assert_eq!(k1.port_lo, 80);
    assert_eq!(k1.port_hi, 900);
}

#[test]
fn equal_endpoints_are_a_valid_key() {
    let k = from_socket_view(5, 80, 5, 80);
    assert_eq!(
        k,
        SocketKey { addr_lo: 5, port_lo: 80, addr_hi: 5, port_hi: 80 }
    );
}

#[test]
fn distinct_flows_get_distinct_keys() {
    let k1 = from_socket_view(1, 10, 2, 80);
    let k2 = from_socket_view(1, 11, 2, 80);
    assert_ne!(k1, k2);
}
