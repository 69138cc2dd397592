//! The eight-byte command header and its checksum.

use vstd::prelude::*;

verus! {

/// Header kind that selects a lighting mode (a built-in preset or a custom slot).
pub const KIND_PRESET: u8 = 0x08;

/// Header kind that announces the upload of a custom profile.
pub const KIND_CUSTOM_CONFIG: u8 = 0x12;

/// Header kind that asks the device to send a custom profile back.
pub const KIND_READ_CONFIG: u8 = 0x92;

/// Sum of the bytes of `bytes`, as a mathematical integer.
pub open spec fn byte_sum(bytes: Seq<u8>) -> int
    decreases bytes.len(),
{
    if bytes.len() == 0 {
        0
    } else {
        byte_sum(bytes.drop_last()) + bytes.last() as int
    }
}

/// The checksum of `bytes`: the one's complement of their sum modulo 256.
pub open spec fn checksum_of(bytes: Seq<u8>) -> u8 {
    (0xFF - byte_sum(bytes) % 256) as u8
}

/// The wire form of a header with the given fields: the two reserved bytes
/// are zero and the last byte is the checksum of the seven before it.
pub open spec fn header_bytes(kind: u8, mode: u8, speed_length: u8, brightness: u8, color: u8) -> Seq<
    u8,
> {
    let body = seq![kind, 0u8, mode, speed_length, brightness, color, 0u8];
    body.push(checksum_of(body))
}

/// Whether `bytes` is a well-formed header: eight bytes, both reserved bytes
/// zero, and the last byte the checksum of the first seven.
pub open spec fn is_header(bytes: Seq<u8>) -> bool {
    &&& bytes.len() == 8
    &&& bytes[1] == 0
    &&& bytes[6] == 0
    &&& bytes[7] == checksum_of(bytes.take(7))
}

/// Extending a sequence by one byte adds that byte to the sum.
pub proof fn lemma_byte_sum_push(bytes: Seq<u8>, b: u8)
    ensures
        byte_sum(bytes.push(b)) == byte_sum(bytes) + b as int,
{
    assert(bytes.push(b).drop_last() =~= bytes);
}

/// The sum of `n` bytes lies between 0 and 255 times `n`.
pub proof fn lemma_byte_sum_bounds(bytes: Seq<u8>)
    ensures
        0 <= byte_sum(bytes) <= 255 * bytes.len(),
    decreases bytes.len(),
{
    if bytes.len() > 0 {
        lemma_byte_sum_bounds(bytes.drop_last());
    }
}

/// A checksum balances the bytes it was computed from: their sum plus the
/// checksum is 255 modulo 256.
pub proof fn lemma_checksum_balances(bytes: Seq<u8>)
    ensures
        checksum_of(bytes) as int == 0xFF - byte_sum(bytes) % 256,
        (byte_sum(bytes) + checksum_of(bytes) as int) % 256 == 0xFF,
        byte_sum(bytes.push(checksum_of(bytes))) % 256 == 0xFF,
{
    lemma_byte_sum_bounds(bytes);
    lemma_byte_sum_push(bytes, checksum_of(bytes));
    let s = byte_sum(bytes);
    assert((s + (0xFF - s % 256)) % 256 == 0xFF) by (nonlinear_arith)
        requires
            0 <= s,
    ;
}

/// The checksum is the only byte that balances `bytes`.
pub proof fn lemma_checksum_unique(bytes: Seq<u8>, c: u8)
    requires
        (byte_sum(bytes) + c as int) % 256 == 0xFF,
    ensures
        c == checksum_of(bytes),
{
    lemma_byte_sum_bounds(bytes);
    let s = byte_sum(bytes);
    let k = c as int;
    assert(k == 0xFF - s % 256) by (nonlinear_arith)
        requires
            0 <= s,
            0 <= k < 256,
            (s + k) % 256 == 0xFF,
    ;
}

/// The checksum of seven bytes is 255 less their sum modulo 256, and the
/// seven bytes and their checksum add up to 255 modulo 256.
pub proof fn lemma_checksum_of_seven(b0: u8, b1: u8, b2: u8, b3: u8, b4: u8, b5: u8, b6: u8)
    ensures
        ({
            let bytes = seq![b0, b1, b2, b3, b4, b5, b6];
            let sum = b0 + b1 + b2 + b3 + b4 + b5 + b6;
            &&& byte_sum(bytes) == sum
            &&& checksum_of(bytes) as int == 0xFF - sum % 256
            &&& (sum + checksum_of(bytes)) % 256 == 0xFF
        }),
{
    let s0 = Seq::<u8>::empty();
    let s1 = s0.push(b0);
    let s2 = s1.push(b1);
    let s3 = s2.push(b2);
    let s4 = s3.push(b3);
    let s5 = s4.push(b4);
    let s6 = s5.push(b5);
    lemma_byte_sum_push(s0, b0);
    lemma_byte_sum_push(s1, b1);
    lemma_byte_sum_push(s2, b2);
    lemma_byte_sum_push(s3, b3);
    lemma_byte_sum_push(s4, b4);
    lemma_byte_sum_push(s5, b5);
    lemma_byte_sum_push(s6, b6);
    assert(seq![b0, b1, b2, b3, b4, b5, b6] =~= s6.push(b6));
    lemma_checksum_balances(seq![b0, b1, b2, b3, b4, b5, b6]);
}

/// The layout of a header on the wire: eight bytes, the fields in their fixed
/// places, both reserved bytes zero, the checksum last.
pub proof fn lemma_header_layout(kind: u8, mode: u8, speed_length: u8, brightness: u8, color: u8)
    ensures
        ({
            let wire = header_bytes(kind, mode, speed_length, brightness, color);
            &&& wire.len() == 8
            &&& wire[0] == kind
            &&& wire[1] == 0
            &&& wire[2] == mode
            &&& wire[3] == speed_length
            &&& wire[4] == brightness
            &&& wire[5] == color
            &&& wire[6] == 0
            &&& wire[7] as int == 0xFF - (kind + mode + speed_length + brightness + color) % 256
            &&& is_header(wire)
            &&& byte_sum(wire) % 256 == 0xFF
        }),
{
    let body = seq![kind, 0u8, mode, speed_length, brightness, color, 0u8];
    let wire = header_bytes(kind, mode, speed_length, brightness, color);
    assert(wire.take(7) =~= body);
    lemma_checksum_of_seven(kind, 0, mode, speed_length, brightness, color, 0);
    lemma_checksum_balances(body);
}

/// Computes the checksum of `bytes`.
pub fn checksum(bytes: &[u8]) -> (c: u8)
    ensures
        c == checksum_of(bytes@),
        c as int == 0xFF - byte_sum(bytes@) % 256,
{
    let mut acc: u8 = 0;
    let mut i: usize = 0;
    while i < bytes.len()
        invariant
            i <= bytes.len(),
            acc as int == byte_sum(bytes@.take(i as int)) % 256,
        decreases bytes.len() - i,
    {
        let b: u8 = bytes[i];
        proof {
            let before = bytes@.take(i as int);
            assert(bytes@.take(i + 1) =~= before.push(b));
            lemma_byte_sum_push(before, b);
            lemma_byte_sum_bounds(before);
            let s = byte_sum(before);
            let k = b as int;
            assert((s % 256 + k) % 256 == (s + k) % 256) by (nonlinear_arith)
                requires
                    0 <= s,
                    0 <= k,
            ;
        }
        acc = acc.wrapping_add(b);
        i += 1;
    }
    proof {
        assert(bytes@.take(i as int) =~= bytes@);
        assert(!acc == 0xFFu8 - acc) by (bit_vector);
    }
    !acc
}

/// A command header: what every control transfer to the keyboard carries.
///
/// A header is built once, with its checksum, and cannot be changed afterwards.
#[derive(Clone, Copy, Debug, PartialEq, Eq, Structural)]
pub struct Header {
    kind: u8,
    reserved: u8,
    mode: u8,
    speed_length: u8,
    brightness: u8,
    color: u8,
    reserved2: u8,
    checksum: u8,
}

impl View for Header {
    type V = Seq<u8>;

    /// The eight bytes of the header in the order in which they are sent.
    closed spec fn view(&self) -> Seq<u8> {
        seq![
            self.kind,
            self.reserved,
            self.mode,
            self.speed_length,
            self.brightness,
            self.color,
            self.reserved2,
            self.checksum,
        ]
    }
}

impl Header {
    #[verifier::type_invariant]
    spec fn well_formed(self) -> bool {
        is_header(self@)
    }

    /// Builds the header with the given fields and computes its checksum.
    pub fn new(kind: u8, mode: u8, speed_length: u8, brightness: u8, color: u8) -> (header: Header)
        ensures
            header@ == header_bytes(kind, mode, speed_length, brightness, color),
            is_header(header@),
    {
        let body: [u8; 7] = [kind, 0, mode, speed_length, brightness, color, 0];
        let sum = checksum(body.as_slice());
        proof {
            let wire = seq![kind, 0u8, mode, speed_length, brightness, color, 0u8];
            let whole = seq![kind, 0u8, mode, speed_length, brightness, color, 0u8, sum];
            assert(body@ =~= wire);
            assert(whole =~= wire.push(checksum_of(wire)));
            assert(whole.take(7) =~= wire);
        }
        Header {
            kind,
            reserved: 0,
            mode,
            speed_length,
            brightness,
            color,
            reserved2: 0,
            checksum: sum,
        }
    }

    /// The header as it goes over the wire: eight bytes, in field order.
    pub fn as_bytes(&self) -> (bytes: [u8; 8])
        ensures
            bytes@ == self@,
            is_header(bytes@),
    {
        proof {
            use_type_invariant(self);
        }
        let bytes: [u8; 8] = [
            self.kind,
            self.reserved,
            self.mode,
            self.speed_length,
            self.brightness,
            self.color,
            self.reserved2,
            self.checksum,
        ];
        assert(bytes@ =~= self@);
        bytes
    }

    /// What the transfer is for.
    pub fn kind(&self) -> (b: u8)
        ensures
            b == self@[0],
    {
        self.kind
    }

    /// The preset code, the custom-slot selector or the slot index.
    pub fn mode(&self) -> (b: u8)
        ensures
            b == self@[2],
    {
        self.mode
    }

    /// The speed of the effect, or the number of packets that follow.
    pub fn speed_length(&self) -> (b: u8)
        ensures
            b == self@[3],
    {
        self.speed_length
    }

    /// The brightness.
    pub fn brightness(&self) -> (b: u8)
        ensures
            b == self@[4],
    {
        self.brightness
    }

    /// The color code.
    pub fn color(&self) -> (b: u8)
        ensures
            b == self@[5],
    {
        self.color
    }

    /// The checksum of the seven bytes before it.
    pub fn checksum(&self) -> (b: u8)
        ensures
            b == self@[7],
            b == checksum_of(self@.take(7)),
    {
        proof {
            use_type_invariant(self);
        }
        self.checksum
    }
}

} // verus!
