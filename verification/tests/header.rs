use fusion_kbd::header::{checksum, Header, KIND_CUSTOM_CONFIG, KIND_PRESET, KIND_READ_CONFIG};

fn wrapping_sum(bytes: &[u8]) -> u8 {
    bytes.iter().fold(0u8, |sum, b| sum.wrapping_add(*b))
}

#[test]
fn checksum_of_nothing_is_all_ones() {
    assert_eq!(checksum(&[]), 0xFF);
}

#[test]
fn checksum_of_one_byte_is_its_complement() {
    assert_eq!(checksum(&[0x00]), 0xFF);
    assert_eq!(checksum(&[0x01]), 0xFE);
    assert_eq!(checksum(&[0x42]), 0xBD);
    assert_eq!(checksum(&[0xFF]), 0x00);
}

#[test]
fn checksum_wraps_the_sum() {
    // 0xFF + 0x01 = 0x100, which is 0 modulo 256
    assert_eq!(checksum(&[0xFF, 0x01]), 0xFF);
    // 7 * 255 = 1785 = 6 * 256 + 249
    assert_eq!(checksum(&[0xFF; 7]), 0xFF - 249);
    // 0x80 + 0x80 + 0x05 = 0x105
    assert_eq!(checksum(&[0x80, 0x80, 0x05]), 0xFA);
}

#[test]
fn checksum_is_the_formula() {
    let samples: [[u8; 7]; 5] = [
        [0, 0, 0, 0, 0, 0, 0],
        [0x08, 0x00, 0x01, 0x05, 0x32, 0x02, 0x00],
        [0x12, 0x00, 0x04, 0x08, 0x00, 0x00, 0x00],
        [0xFF, 0xFE, 0xFD, 0xFC, 0xFB, 0xFA, 0xF9],
        [1, 2, 4, 8, 16, 32, 64],
    ];
    for bytes in samples.iter() {
        let sum: u32 = bytes.iter().map(|b| *b as u32).sum();
        assert_eq!(checksum(bytes) as u32, 0xFF - sum % 256);
    }
}

#[test]
fn checksum_balances_the_bytes() {
    let samples: [[u8; 7]; 4] = [
        [0, 0, 0, 0, 0, 0, 0],
        [0x08, 0x00, 0x33, 0x00, 0x1a, 0x00, 0x00],
        [0xFF, 0xFF, 0xFF, 0xFF, 0xFF, 0xFF, 0xFF],
        [200, 100, 50, 25, 12, 6, 3],
    ];
    for bytes in samples.iter() {
        let c = checksum(bytes);
        assert_eq!(wrapping_sum(bytes).wrapping_add(c), 0xFF);
    }
}

#[test]
fn header_of_static_green_preset() {
    let header = Header::new(0x08, 0x01, 0x05, 0x32, 0x02);
    assert_eq!(header.as_bytes(), [0x08, 0x00, 0x01, 0x05, 0x32, 0x02, 0x00, 0xBD]);
}

#[test]
fn header_has_eight_bytes_in_field_order() {
    let header = Header::new(0xA1, 0xB2, 0xC3, 0xD4, 0xE5);
    let bytes = header.as_bytes();
    assert_eq!(bytes.len(), 8);
    assert_eq!(bytes[0], 0xA1);
    assert_eq!(bytes[1], 0x00);
    assert_eq!(bytes[2], 0xB2);
    assert_eq!(bytes[3], 0xC3);
    assert_eq!(bytes[4], 0xD4);
    assert_eq!(bytes[5], 0xE5);
    assert_eq!(bytes[6], 0x00);
    assert_eq!(bytes[7], checksum(&bytes[..7]));
}

#[test]
fn header_sums_to_all_ones() {
    for kind in [KIND_PRESET, KIND_CUSTOM_CONFIG, KIND_READ_CONFIG] {
        for mode in [0u8, 1, 0x0d, 0x33, 0x37, 0xFF] {
            for brightness in [0u8, 26, 50, 255] {
                let bytes = Header::new(kind, mode, 7, brightness, 3).as_bytes();
                assert_eq!(wrapping_sum(&bytes), 0xFF);
                assert_eq!(bytes[1], 0);
                assert_eq!(bytes[6], 0);
            }
        }
    }
}

#[test]
fn header_of_zeros() {
    let header = Header::new(0, 0, 0, 0, 0);
    assert_eq!(header.as_bytes(), [0, 0, 0, 0, 0, 0, 0, 0xFF]);
}

#[test]
fn header_of_all_ones() {
    // 5 * 255 = 1275 = 4 * 256 + 251
    let header = Header::new(0xFF, 0xFF, 0xFF, 0xFF, 0xFF);
    assert_eq!(header.as_bytes(), [0xFF, 0, 0xFF, 0xFF, 0xFF, 0xFF, 0, 0x04]);
}

#[test]
fn header_getters_give_the_fields() {
    let header = Header::new(0x12, 0x03, 0x08, 0x19, 0x07);
    assert_eq!(header.kind(), 0x12);
    assert_eq!(header.mode(), 0x03);
    assert_eq!(header.speed_length(), 0x08);
    assert_eq!(header.brightness(), 0x19);
    assert_eq!(header.color(), 0x07);
    assert_eq!(header.checksum(), 0xFF - (0x12 + 0x03 + 0x08 + 0x19 + 0x07));
    assert_eq!(header.checksum(), header.as_bytes()[7]);
}

#[test]
fn equal_fields_give_equal_headers() {
    let a = Header::new(0x08, 0x02, 0x05, 0x1a, 0x01);
    let b = Header::new(0x08, 0x02, 0x05, 0x1a, 0x01);
    let c = Header::new(0x08, 0x02, 0x05, 0x1a, 0x02);
    assert_eq!(a, b);
    assert_eq!(a.as_bytes(), b.as_bytes());
    assert_ne!(a, c);
}

#[test]
fn header_kinds() {
    assert_eq!(KIND_PRESET, 0x08);
    assert_eq!(KIND_CUSTOM_CONFIG, 0x12);
    assert_eq!(KIND_READ_CONFIG, 0x92);
}
