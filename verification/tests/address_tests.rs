use sockwho::address::{canonicalize_ipv4, canonicalize_ipv6, ipv4_quad};

#[test]
fn ipv4_round_trips_through_canonical_buffer() {
    for quad in [[127, 0, 0, 1], [0, 0, 0, 0], [255, 255, 255, 255], [10, 1, 2, 3]] {
        let buffer = canonicalize_ipv4(&quad);
        assert_eq!(&buffer[0..4], &quad);
        assert_eq!(&buffer[4..16], &[0u8; 12]);
        assert_eq!(ipv4_quad(&buffer), quad);
    }
}

#[test]
fn ipv4_decode_ignores_padding_bytes() {
    let mut noisy = [0xAAu8; 16];
    noisy[0] = 192;
    noisy[1] = 168;
    noisy[2] = 1;
    noisy[3] = 7;
    assert_eq!(ipv4_quad(&noisy), [192, 168, 1, 7]);
}

#[test]
fn ipv6_canonicalization_is_identity() {
    let address: [u8; 16] = [0, 1, 2, 3, 4, 5, 6, 7, 8, 9, 10, 11, 12, 13, 14, 255];
    assert_eq!(canonicalize_ipv6(&address), address);
    let zeros = [0u8; 16];
    assert_eq!(canonicalize_ipv6(&zeros), zeros);
}
