use cowboy_protocol::utils::checksum;
use cowboy_protocol::utils::packetize;
use cowboy_protocol::utils::write_value;

#[test]
fn packetize_appends_checksum() {
    let p: [u8; 9] = [0xA, 0x10, 0x0, 0x0, 0x0, 0x1, 0x2, 0x0, 0x0];
    let packet = packetize(&p);
    assert_eq!(&packet[..9], &p);
    assert_eq!(&packet[9..], &checksum(&p));
    assert_eq!(checksum(&p), [213, 96]);
}

#[test]
fn checksum_is_deterministic() {
    let p: [u8; 9] = [1, 2, 3, 4, 5, 6, 7, 8, 9];
    assert_eq!(checksum(&p), checksum(&p.clone()));
}

#[test]
fn checksum_changes_on_every_single_bit_flip() {
    let p: [u8; 9] = [0x1, 0x10, 0x1, 0xFF, 0x0, 0x1, 0x2, 0x7F, 0xFF];
    let base = checksum(&p);
    for i in 0..9 {
        for bit in 0..8 {
            let mut q = p;
            q[i] ^= 1 << bit;
            assert_ne!(checksum(&q), base);
        }
    }
}

#[test]
fn checksum_of_zero_payload() {
    // Reflected CRC-16 (poly 0xA001, start 0xFFFF) of nine zero bytes.
    let mut acc: u16 = 0xFFFF;
    for _ in 0..9 {
        for _ in 0..8 {
            acc = if acc & 1 != 0 { (acc >> 1) ^ 0xA001 } else { acc >> 1 };
        }
    }
    assert_eq!(checksum(&[0; 9]), [acc as u8, (acc >> 8) as u8]);
}

#[test]
fn write_value_is_big_endian() {
    let cmd: [u8; 9] = [9, 9, 9, 9, 9, 9, 9, 9, 9];
    assert_eq!(write_value(cmd, 0x1234), [9, 9, 9, 9, 9, 9, 9, 0x12, 0x34]);
    assert_eq!(write_value(cmd, 0x00FF), [9, 9, 9, 9, 9, 9, 9, 0x00, 0xFF]);
}
