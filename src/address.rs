//! The six-octet hardware address and its two control bits.
//!
//! Convention (IEEE 802): in the first octet, bit 0 (the I/G bit) is 1 for a
//! multicast (group) address and 0 for a unicast one; bit 1 (the U/L bit) is 1
//! for a locally administered address and 0 for a universally administered one.
use rand::RngCore;
use vstd::prelude::*;

verus! {

/// Mask of the I/G bit in the first octet.
pub const GROUP_BIT: u8 = 0x01;

/// Mask of the U/L bit in the first octet.
pub const LOCAL_BIT: u8 = 0x02;

/// A hardware address: six octets, in transmission order.
#[derive(Debug, Clone, Copy)]
pub struct MacAddress(pub [u8; 6]);

impl View for MacAddress {
    type V = Seq<u8>;

    open spec fn view(&self) -> Seq<u8> {
        self.0@
    }
}

/// The I/G bit of a first octet is set.
pub open spec fn group_bit_set(first: u8) -> bool {
    first & GROUP_BIT == GROUP_BIT
}

/// The U/L bit of a first octet is set.
pub open spec fn local_bit_set(first: u8) -> bool {
    first & LOCAL_BIT == LOCAL_BIT
}

/// `s` with the I/G bit of its first octet set.
pub open spec fn with_group_bit(s: Seq<u8>) -> Seq<u8> {
    s.update(0, s[0] | GROUP_BIT)
}

/// `s` with the U/L bit of its first octet flipped.
pub open spec fn with_local_bit_toggled(s: Seq<u8>) -> Seq<u8> {
    s.update(0, s[0] ^ LOCAL_BIT)
}

/// The lower-case hexadecimal digit of `n`, for `n < 16`.
pub open spec fn hex_digit(n: u8) -> char
    recommends
        n < 16,
{
    if n < 10 {
        (n + 48) as char
    } else {
        (n + 87) as char
    }
}

/// The two hexadecimal digits of an octet, high nibble first.
pub open spec fn octet_text(b: u8) -> Seq<char> {
    seq![hex_digit(b / 16), hex_digit(b % 16)]
}

/// Six octets as colon-separated two-digit groups.
pub open spec fn canonical_text(s: Seq<u8>) -> Seq<char> {
    octet_text(s[0]) + seq![':'] + octet_text(s[1]) + seq![':'] + octet_text(s[2]) + seq![':']
        + octet_text(s[3]) + seq![':'] + octet_text(s[4]) + seq![':'] + octet_text(s[5])
}

/// An octet read as a two's-complement signed byte.
pub open spec fn signed_octet(b: u8) -> int {
    if b < 128 {
        b as int
    } else {
        b - 256
    }
}

fn hex_digit_of(n: u8) -> (r: char)
    requires
        n < 16,
    ensures
        r == hex_digit(n),
{
    if n < 10 {
        (n + 48) as char
    } else {
        (n + 87) as char
    }
}

fn push_octet(text: &mut Vec<char>, b: u8)
    ensures
        final(text)@ == old(text)@ + octet_text(b),
{
    text.push(hex_digit_of(b / 16));
    text.push(hex_digit_of(b % 16));
    assert(text@ =~= old(text)@ + octet_text(b));
}

fn as_signed(b: u8) -> (r: i8)
    ensures
        r as int == signed_octet(b),
{
    if b < 128 {
        b as i8
    } else {
        (b as i16 - 256) as i8
    }
}

/// Relies on std's `FromIterator<char>` for `String`: the string holds the
/// characters in order.
#[verifier::external_body]
fn string_of_chars(chars: &Vec<char>) -> (r: String)
    ensures
        r@ == chars@,
{
    chars.iter().collect()
}

/// Relies on rand's `thread_rng().fill_bytes`, which fills the buffer from the
/// thread-local generator. Nothing is promised of the values drawn.
#[verifier::external_body]
fn random_octets() -> (r: [u8; 6]) {
    let mut octets = [0u8; 6];
    rand::thread_rng().fill_bytes(&mut octets);
    octets
}

impl MacAddress {
    pub open spec fn spec_is_multicast(&self) -> bool {
        group_bit_set(self.0[0])
    }

    pub open spec fn spec_is_local(&self) -> bool {
        local_bit_set(self.0[0])
    }

    /// The address made of the given octets, in order.
    pub fn from_bytes(octets: [u8; 6]) -> (r: MacAddress)
        ensures
            r.0 == octets,
            r@ == octets@,
    {
        MacAddress(octets)
    }

    /// The six octets, in order.
    pub fn to_bytes(&self) -> (r: [u8; 6])
        ensures
            r == self.0,
            r@ == self@,
    {
        self.0
    }

    /// The address made of `octets` with its control bits forced to the
    /// default: unicast, locally administered. The other 46 bits are kept.
    pub fn from_random_octets(octets: [u8; 6]) -> (r: MacAddress)
        ensures
            r.0[0] == (octets[0] & !GROUP_BIT) | LOCAL_BIT,
            forall|i: int| 1 <= i < 6 ==> #[trigger] r.0[i] == octets[i],
            !r.spec_is_multicast(),
            r.spec_is_local(),
    {
        let b0: u8 = octets[0];
        let first: u8 = (b0 & !GROUP_BIT) | LOCAL_BIT;
        assert(first & 1u8 == 0u8 && first & 2u8 == 2u8) by (bit_vector)
            requires
                first == (b0 & !1u8) | 2u8,
        ;
        MacAddress([first, octets[1], octets[2], octets[3], octets[4], octets[5]])
    }

    /// A fresh address: six random octets, then the control bits forced to
    /// unicast and locally administered, so that it cannot collide with a
    /// vendor-assigned address nor join a group.
    pub fn new() -> (r: MacAddress)
        ensures
            !r.spec_is_multicast(),
            r.spec_is_local(),
    {
        MacAddress::from_random_octets(random_octets())
    }

    /// Sets the I/G bit: the address becomes multicast. Idempotent.
    pub fn set_multicast(&mut self)
        ensures
            final(self)@ == with_group_bit(old(self)@),
            final(self).spec_is_multicast(),
            final(self).spec_is_local() == old(self).spec_is_local(),
    {
        let b0: u8 = self.0[0];
        let first: u8 = b0 | GROUP_BIT;
        assert(first & 1u8 == 1u8 && (first & 2u8 == 2u8) == (b0 & 2u8 == 2u8)) by (bit_vector)
            requires
                first == b0 | 1u8,
        ;
        self.0 = [first, self.0[1], self.0[2], self.0[3], self.0[4], self.0[5]];
        assert(self@ =~= with_group_bit(old(self)@));
    }

    /// Toggles the U/L bit. On a locally administered address, such as one
    /// from [`MacAddress::new`], this gives the universally administered
    /// form; a second call restores the address.
    pub fn set_universal(&mut self)
        ensures
            final(self)@ == with_local_bit_toggled(old(self)@),
            final(self).spec_is_local() == !old(self).spec_is_local(),
            final(self).spec_is_multicast() == old(self).spec_is_multicast(),
    {
        let b0: u8 = self.0[0];
        let first: u8 = b0 ^ LOCAL_BIT;
        assert((first & 2u8 == 2u8) == !(b0 & 2u8 == 2u8) && (first & 1u8 == 1u8) == (b0
            & 1u8 == 1u8)) by (bit_vector)
            requires
                first == b0 ^ 2u8,
        ;
        self.0 = [first, self.0[1], self.0[2], self.0[3], self.0[4], self.0[5]];
        assert(self@ =~= with_local_bit_toggled(old(self)@));
    }

    /// The I/G bit is set: a group address.
    pub fn is_multicast(&self) -> (r: bool)
        ensures
            r == self.spec_is_multicast(),
    {
        self.0[0] & GROUP_BIT == GROUP_BIT
    }

    /// The I/G bit is clear: an individual address.
    pub fn is_unicast(&self) -> (r: bool)
        ensures
            r == !self.spec_is_multicast(),
    {
        !self.is_multicast()
    }

    /// The U/L bit is set: a locally administered address.
    pub fn is_local(&self) -> (r: bool)
        ensures
            r == self.spec_is_local(),
    {
        self.0[0] & LOCAL_BIT == LOCAL_BIT
    }

    /// The U/L bit is clear: a universally administered address.
    pub fn is_universal(&self) -> (r: bool)
        ensures
            r == !self.spec_is_local(),
    {
        !self.is_local()
    }

    /// The canonical text: six lower-case two-digit hexadecimal groups,
    /// separated by colons, in octet order (`02:1a:3f:00:ff:0b`).
    pub fn to_string(&self) -> (r: String)
        ensures
            r@ == canonical_text(self@),
    {
        let mut text: Vec<char> = Vec::new();
        push_octet(&mut text, self.0[0]);
        text.push(':');
        push_octet(&mut text, self.0[1]);
        text.push(':');
        push_octet(&mut text, self.0[2]);
        text.push(':');
        push_octet(&mut text, self.0[3]);
        text.push(':');
        push_octet(&mut text, self.0[4]);
        text.push(':');
        push_octet(&mut text, self.0[5]);
        assert(text@ =~= canonical_text(self@));
        string_of_chars(&text)
    }

    /// The 14-byte address payload of an OS socket address: the six octets
    /// as signed bytes, then zeros.
    pub fn hardware_payload(&self) -> (r: [i8; 14])
        ensures
            forall|i: int| 0 <= i < 6 ==> #[trigger] r[i] as int == signed_octet(self.0[i]),
            forall|i: int| 6 <= i < 14 ==> #[trigger] r[i] == 0,
    {
        [
            as_signed(self.0[0]),
            as_signed(self.0[1]),
            as_signed(self.0[2]),
            as_signed(self.0[3]),
            as_signed(self.0[4]),
            as_signed(self.0[5]),
            0,
            0,
            0,
            0,
            0,
            0,
            0,
            0,
        ]
    }
}

/// Setting the I/G bit leaves a multicast address, and setting it a second
/// time changes nothing.
pub proof fn lemma_set_multicast_idempotent(a: MacAddress)
    ensures
        group_bit_set(with_group_bit(a@)[0]),
        with_group_bit(with_group_bit(a@)) == with_group_bit(a@),
{
    let b0: u8 = a.0[0];
    assert((b0 | 1u8) & 1u8 == 1u8 && (b0 | 1u8) | 1u8 == b0 | 1u8) by (bit_vector);
    assert(with_group_bit(with_group_bit(a@)) =~= with_group_bit(a@));
}

/// Building an address from six octets and reading them back gives the same
/// octets, in the same order.
pub proof fn lemma_bytes_round_trip(octets: [u8; 6])
    ensures
        MacAddress(octets).0 == octets,
        MacAddress(octets)@ == octets@,
        forall|i: int| 0 <= i < 6 ==> #[trigger] MacAddress(octets)@[i] == octets[i],
{
}

} // verus!
