use vstd::prelude::*;

verus! {

/// Number of payload bytes in an instruction, before the checksum.
pub const PAYLOAD_LEN: usize = 9;

/// Number of bytes in an instruction packet as sent over the wire.
pub const PACKET_LEN: usize = 11;

/// The reflected polynomial of the checksum.
pub const CRC_POLY: u16 = 0xA001;

/// One bit step of the checksum: shift right, folding in the polynomial
/// when a set bit falls out.
pub open spec fn crc_shift(acc: u16) -> u16 {
    if acc & 1 != 0 {
        (acc >> 1u16) ^ 0xA001u16
    } else {
        acc >> 1u16
    }
}

/// `n` bit steps of the checksum.
pub open spec fn crc_shifts(acc: u16, n: nat) -> u16
    decreases n,
{
    if n == 0 {
        acc
    } else {
        crc_shift(crc_shifts(acc, (n - 1) as nat))
    }
}

/// The accumulator after absorbing one byte.
pub open spec fn crc_byte(acc: u16, b: u8) -> u16 {
    crc_shifts(acc ^ (b as u16), 8)
}

/// The accumulator after absorbing `bytes` in order, starting from `acc`.
pub open spec fn crc_over(acc: u16, bytes: Seq<u8>) -> u16
    decreases bytes.len(),
{
    if bytes.len() == 0 {
        acc
    } else {
        crc_byte(crc_over(acc, bytes.drop_last()), bytes.last())
    }
}

/// The reflected CRC-16 with polynomial 0xA001 and all-ones start value.
pub open spec fn crc16(bytes: Seq<u8>) -> u16 {
    crc_over(0xFFFFu16, bytes)
}

/// The two checksum bytes of `bytes`, low byte first.
pub open spec fn checksum_of(bytes: Seq<u8>) -> Seq<u8> {
    seq![crc16(bytes) as u8, (crc16(bytes) >> 8u16) as u8]
}

/// The payload with the checksum appended.
pub open spec fn packet_of(payload: Seq<u8>) -> Seq<u8> {
    payload + checksum_of(payload)
}

/// `cmd` with `value` written big-endian into its last two bytes.
pub open spec fn with_value(cmd: Seq<u8>, value: u16) -> Seq<u8> {
    cmd.update(7, (value / 256) as u8).update(8, (value % 256) as u8)
}

/// Write value to command.
pub fn write_value(cmd: [u8; 9], value: u16) -> (r: [u8; 9])
    ensures
        r@ == with_value(cmd@, value),
{
    let mut cmd = cmd;
    let hi: u8 = (value >> 8 & 0xff) as u8;
    let lo: u8 = (value & 0xff) as u8;
    assert(hi == (value / 256) as u8 && lo == (value % 256) as u8) by (bit_vector)
        requires
            hi == (value >> 8 & 0xff) as u8,
            lo == (value & 0xff) as u8,
    ;
    cmd[7] = hi;
    cmd[8] = lo;
    cmd
}

/// Calculate the checksum of a command: a reflected CRC-16 (polynomial
/// 0xA001, start value 0xFFFF), low byte first.
pub fn checksum(msg: &[u8; 9]) -> (r: [u8; 2])
    ensures
        r@ == checksum_of(msg@),
{
    let mut acc: u16 = 0xFFFF;
    let mut i: usize = 0;
    while i < PAYLOAD_LEN
        invariant
            i <= PAYLOAD_LEN,
            msg@.len() == PAYLOAD_LEN,
            acc == crc_over(0xFFFFu16, msg@.take(i as int)),
        decreases PAYLOAD_LEN - i,
    {
        let b: u8 = msg[i];
        let start: u16 = acc ^ (b as u16);
        acc = start;
        let mut k: usize = 0;
        while k < 8
            invariant
                k <= 8,
                acc == crc_shifts(start, k as nat),
            decreases 8 - k,
        {
            let low: u16 = acc & 1;
            acc = acc >> 1;
            if low != 0 {
                acc = acc ^ CRC_POLY;
            }
            k = k + 1;
        }
        assert(msg@.take(i + 1).drop_last() =~= msg@.take(i as int));
        i = i + 1;
    }
    assert(msg@.take(9) =~= msg@);
    let lo: u8 = acc as u8;
    let hi: u8 = (acc >> 8) as u8;
    let r: [u8; 2] = [lo, hi];
    assert(r@ =~= checksum_of(msg@));
    r
}

/// Packetize the command to be ready for transmission: the nine payload
/// bytes followed by their checksum.
pub fn packetize(cmd: &[u8; 9]) -> (r: [u8; 11])
    ensures
        r@ == packet_of(cmd@),
        r@.subrange(0, 9) == cmd@,
        r@.subrange(9, 11) == checksum_of(cmd@),
{
    let sum = checksum(cmd);
    let r: [u8; 11] = [
        cmd[0],
        cmd[1],
        cmd[2],
        cmd[3],
        cmd[4],
        cmd[5],
        cmd[6],
        cmd[7],
        cmd[8],
        sum[0],
        sum[1],
    ];
    assert(r@ =~= packet_of(cmd@));
    assert(r@.subrange(0, 9) =~= cmd@);
    assert(r@.subrange(9, 11) =~= checksum_of(cmd@));
    r
}

proof fn lemma_shift_linear(x: u16, y: u16)
    ensures
        crc_shift(x) ^ crc_shift(y) == crc_shift(x ^ y),
{
    assert(crc_shift(x) ^ crc_shift(y) == crc_shift(x ^ y)) by (bit_vector);
}

proof fn lemma_shift_nonzero(x: u16)
    ensures
        x != 0 ==> crc_shift(x) != 0,
{
    assert(x != 0 ==> crc_shift(x) != 0) by (bit_vector);
}

proof fn lemma_shifts_linear(x: u16, y: u16, n: nat)
    ensures
        crc_shifts(x, n) ^ crc_shifts(y, n) == crc_shifts(x ^ y, n),
    decreases n,
{
    if n > 0 {
        lemma_shifts_linear(x, y, (n - 1) as nat);
        lemma_shift_linear(crc_shifts(x, (n - 1) as nat), crc_shifts(y, (n - 1) as nat));
    }
}

proof fn lemma_shifts_nonzero(x: u16, n: nat)
    ensures
        x != 0 ==> crc_shifts(x, n) != 0,
    decreases n,
{
    if n > 0 {
        lemma_shifts_nonzero(x, (n - 1) as nat);
        lemma_shift_nonzero(crc_shifts(x, (n - 1) as nat));
    }
}

/// Absorbing a byte keeps apart two accumulators that differ once the byte
/// is folded in.
proof fn lemma_byte_separates(a1: u16, b1: u8, a2: u16, b2: u8)
    requires
        a1 ^ (b1 as u16) != a2 ^ (b2 as u16),
    ensures
        crc_byte(a1, b1) != crc_byte(a2, b2),
{
    let x = a1 ^ (b1 as u16);
    let y = a2 ^ (b2 as u16);
    lemma_shifts_linear(x, y, 8);
    lemma_shifts_nonzero(x ^ y, 8);
    assert(x != y ==> x ^ y != 0) by (bit_vector);
    let (cx, cy) = (crc_shifts(x, 8), crc_shifts(y, 8));
    assert(cx ^ cy != 0 ==> cx != cy) by (bit_vector);
}

/// Two byte strings that differ in exactly one position have different
/// accumulators after absorption from the same start value.
proof fn lemma_over_separates(acc: u16, p: Seq<u8>, q: Seq<u8>, i: int)
    requires
        p.len() == q.len(),
        0 <= i < p.len(),
        p[i] != q[i],
        forall|j: int| 0 <= j < p.len() && j != i ==> p[j] == q[j],
    ensures
        crc_over(acc, p) != crc_over(acc, q),
    decreases p.len(),
{
    let (a1, a2) = (crc_over(acc, p.drop_last()), crc_over(acc, q.drop_last()));
    let (b1, b2) = (p.last(), q.last());
    if i == p.len() - 1 {
        assert(p.drop_last() =~= q.drop_last());
        assert(b1 != b2 ==> a1 ^ (b1 as u16) != a1 ^ (b2 as u16)) by (bit_vector);
    } else {
        lemma_over_separates(acc, p.drop_last(), q.drop_last(), i);
        assert(a1 != a2 ==> a1 ^ (b1 as u16) != a2 ^ (b1 as u16)) by (bit_vector);
    }
    lemma_byte_separates(a1, b1, a2, b2);
}

/// The checksum is a function of the payload alone: equal payloads give
/// equal checksum bytes.
pub proof fn lemma_checksum_deterministic(p: Seq<u8>, q: Seq<u8>)
    requires
        p.len() == PAYLOAD_LEN,
        p == q,
    ensures
        checksum_of(p) == checksum_of(q),
{
}

/// Flipping any single bit of a payload changes its checksum bytes.
pub proof fn lemma_checksum_detects_bit_flip(p: Seq<u8>, i: int, bit: u8)
    requires
        p.len() == PAYLOAD_LEN,
        0 <= i < PAYLOAD_LEN,
        bit < 8,
    ensures
        checksum_of(p) != checksum_of(p.update(i, p[i] ^ (1u8 << bit))),
{
    let q = p.update(i, p[i] ^ (1u8 << bit));
    let b = p[i];
    assert(bit < 8 ==> b ^ (1u8 << bit) != b) by (bit_vector);
    lemma_over_separates(0xFFFFu16, p, q, i);
    let (x, y) = (crc16(p), crc16(q));
    assert(x != y ==> (x as u8 != y as u8 || (x >> 8u16) as u8 != (y >> 8u16) as u8))
        by (bit_vector);
    assert(checksum_of(p)[0] == x as u8 && checksum_of(q)[0] == y as u8);
    assert(checksum_of(p)[1] == (x >> 8u16) as u8 && checksum_of(q)[1] == (y >> 8u16) as u8);
}

} // verus!
