//! The parser framework: a byte cursor, a bit cursor read MSB-first, the
//! fixed-width integer readers and the error chain with its context labels.
use vstd::prelude::*;
use vstd::arithmetic::power2::{pow2, lemma2_to64, lemma_pow2_unfold};

verus! {

/// A protocol boundary, pushed onto the error chain when a decoder fails.
#[derive(Debug, Clone, Copy, PartialEq, Eq, Structural)]
pub enum Label {
    EthernetFrame,
    MacAddress,
    EtherType,
    ArpFrame,
    Ipv4Frame,
    Ipv4Address,
    Ipv6Frame,
    Ipv6Address,
    TcpFrame,
    TcpOptions,
    UdpFrame,
    IcmpFrame,
    RadioTapHeader,
    Dot11Frame,
    FrameControl,
    SequenceControl,
    DataBody,
    CapabilityInfo,
    InformationElement,
    BeaconBody,
    ProbeRequestBody,
    ProbeResponseBody,
    AssociationRequestBody,
    ReassociationRequestBody,
    AssociationResponseBody,
    AuthenticationBody,
    DeauthenticationBody,
    DisassociationBody,
}

impl Label {
    /// The human-readable name of the boundary.
    pub open spec fn spec_text(self) -> Seq<char> {
        match self {
            Label::EthernetFrame => "Ethernet frame"@,
            Label::MacAddress => "MAC address"@,
            Label::EtherType => "EtherType"@,
            Label::ArpFrame => "ARP frame"@,
            Label::Ipv4Frame => "IPv4 frame"@,
            Label::Ipv4Address => "IPv4 address"@,
            Label::Ipv6Frame => "IPv6 frame"@,
            Label::Ipv6Address => "IPv6 address"@,
            Label::TcpFrame => "TCP frame"@,
            Label::TcpOptions => "TCP options"@,
            Label::UdpFrame => "UDP frame"@,
            Label::IcmpFrame => "ICMP frame"@,
            Label::RadioTapHeader => "802.11 RadioTap header"@,
            Label::Dot11Frame => "802.11 MAC frame"@,
            Label::FrameControl => "802.11 Frame Control"@,
            Label::SequenceControl => "802.11 Sequence Control"@,
            Label::DataBody => "802.11 Data Frame: data body"@,
            Label::CapabilityInfo => "802.11 Management Frame: capability info"@,
            Label::InformationElement => "802.11 Management Frame: information element"@,
            Label::BeaconBody => "802.11 Management Frame: Beacon body"@,
            Label::ProbeRequestBody => "802.11 Management Frame: Probe Request body"@,
            Label::ProbeResponseBody => "802.11 Management Frame: Probe Response body"@,
            Label::AssociationRequestBody => "802.11 Management Frame: Association Request body"@,
            Label::ReassociationRequestBody =>
                "802.11 Management Frame: Reassociation Request body"@,
            Label::AssociationResponseBody =>
                "802.11 Management Frame: Association Response body"@,
            Label::AuthenticationBody => "802.11 Management Frame: Authentication body"@,
            Label::DeauthenticationBody => "802.11 Management Frame: Deauthentication body"@,
            Label::DisassociationBody => "802.11 Management Frame: Disassociation body"@,
        }
    }

    /// The human-readable name of the boundary.
    pub fn text(&self) -> (r: &'static str)
        ensures
            r@ == self.spec_text(),
    {
        match self {
            Label::EthernetFrame => "Ethernet frame",
            Label::MacAddress => "MAC address",
            Label::EtherType => "EtherType",
            Label::ArpFrame => "ARP frame",
            Label::Ipv4Frame => "IPv4 frame",
            Label::Ipv4Address => "IPv4 address",
            Label::Ipv6Frame => "IPv6 frame",
            Label::Ipv6Address => "IPv6 address",
            Label::TcpFrame => "TCP frame",
            Label::TcpOptions => "TCP options",
            Label::UdpFrame => "UDP frame",
            Label::IcmpFrame => "ICMP frame",
            Label::RadioTapHeader => "802.11 RadioTap header",
            Label::Dot11Frame => "802.11 MAC frame",
            Label::FrameControl => "802.11 Frame Control",
            Label::SequenceControl => "802.11 Sequence Control",
            Label::DataBody => "802.11 Data Frame: data body",
            Label::CapabilityInfo => "802.11 Management Frame: capability info",
            Label::InformationElement => "802.11 Management Frame: information element",
            Label::BeaconBody => "802.11 Management Frame: Beacon body",
            Label::ProbeRequestBody => "802.11 Management Frame: Probe Request body",
            Label::ProbeResponseBody => "802.11 Management Frame: Probe Response body",
            Label::AssociationRequestBody => "802.11 Management Frame: Association Request body",
            Label::ReassociationRequestBody =>
                "802.11 Management Frame: Reassociation Request body",
            Label::AssociationResponseBody =>
                "802.11 Management Frame: Association Response body",
            Label::AuthenticationBody => "802.11 Management Frame: Authentication body",
            Label::DeauthenticationBody => "802.11 Management Frame: Deauthentication body",
            Label::DisassociationBody => "802.11 Management Frame: Disassociation body",
        }
    }
}

/// One entry of the error chain.
#[derive(Debug, Clone, Copy, PartialEq, Eq, Structural)]
pub enum ErrorKind {
    /// The input ended before the field did.
    NeedMore,
    /// An expected constant byte was not found.
    TagMismatch,
    /// A value did not fit the width it was declared with.
    NumericOverflow,
    /// A bit-field group ended in the middle of a byte.
    Unaligned,
    /// The datalink identifier names no supported format.
    UnsupportedLinkType(u16),
    /// The decoder of this protocol boundary was entered at the recorded position.
    Context(Label),
}

/// A failed decode: the chain of `(input position, kind)` entries, the
/// innermost failure first and each enclosing boundary pushed after it.
#[derive(Debug)]
pub struct Error {
    pub errors: Vec<(usize, ErrorKind)>,
}

/// The chain of a low-level failure at `pos`, with no boundary around it yet.
pub open spec fn is_failure(e: Error, pos: int, kind: ErrorKind) -> bool {
    e.errors@ == seq![(pos as usize, kind)]
}

/// The chain of a failure whose outermost entry is the boundary `label`
/// entered at `pos`.
pub open spec fn ends_in(e: Error, pos: int, label: Label) -> bool {
    &&& e.errors@.len() > 0
    &&& e.errors@.last() == (pos as usize, ErrorKind::Context(label))
}

impl Error {
    /// A chain of one low-level failure.
    pub fn new(pos: usize, kind: ErrorKind) -> (e: Error)
        ensures
            is_failure(e, pos as int, kind),
    {
        let mut errors: Vec<(usize, ErrorKind)> = Vec::new();
        errors.push((pos, kind));
        Error { errors }
    }

    /// Pushes the boundary `label`, entered at `pos`, onto the chain.
    pub fn context(self, pos: usize, label: Label) -> (e: Error)
        ensures
            e.errors@ == self.errors@.push((pos, ErrorKind::Context(label))),
            ends_in(e, pos as int, label),
    {
        let mut errors = self.errors;
        errors.push((pos, ErrorKind::Context(label)));
        Error { errors }
    }
}

/// Big-endian 16-bit value at `p`.
pub open spec fn be16(b: Seq<u8>, p: int) -> int {
    b[p] * 256 + b[p + 1]
}

/// Big-endian 32-bit value at `p`.
pub open spec fn be32(b: Seq<u8>, p: int) -> int {
    be16(b, p) * 65536 + be16(b, p + 2)
}

/// Little-endian 16-bit value at `p`.
pub open spec fn le16(b: Seq<u8>, p: int) -> int {
    b[p] + b[p + 1] * 256
}

/// Little-endian 32-bit value at `p`.
pub open spec fn le32(b: Seq<u8>, p: int) -> int {
    le16(b, p) + le16(b, p + 2) * 65536
}

/// Little-endian 64-bit value at `p`.
pub open spec fn le64(b: Seq<u8>, p: int) -> int {
    le32(b, p) + le32(b, p + 4) * 0x1_0000_0000
}

/// `rest` is what is left of `b` once a decoder consumed a prefix: the
/// consumed bytes followed by `rest` give back `b`.
pub open spec fn is_rest(b: Seq<u8>, rest: Seq<u8>) -> bool {
    &&& rest.len() <= b.len()
    &&& rest == b.subrange(b.len() - rest.len(), b.len() as int)
}

/// The number of bytes a decoder consumed from `b` when `rest` is left.
pub open spec fn consumed_len(b: Seq<u8>, rest: Seq<u8>) -> int {
    b.len() - rest.len()
}

/// Whatever a decoder consumed and whatever it left, together, are the input:
/// the consumed length and the remaining length add up to the input length,
/// and the consumed prefix followed by the remainder is the input itself.
pub proof fn lemma_consumed_and_rest(b: Seq<u8>, rest: Seq<u8>)
    requires
        is_rest(b, rest),
    ensures
        consumed_len(b, rest) + rest.len() == b.len(),
        b.subrange(0, consumed_len(b, rest)) + rest == b,
{
    assert(b.subrange(0, consumed_len(b, rest)) + rest =~= b);
}

/// The part of `b` from `q` on, as a slice.
pub fn rest_of<'a>(b: &'a [u8], q: usize) -> (rest: &'a [u8])
    requires
        q <= b.len(),
    ensures
        rest@ == b@.subrange(q as int, b@.len() as int),
        is_rest(b@, rest@),
        consumed_len(b@, rest@) == q,
{
    vstd::slice::slice_subrange(b, q, b.len())
}

/// Whether `n` bytes are left at `p`.
pub open spec fn has(b: Seq<u8>, p: int, n: int) -> bool {
    0 <= p && p + n <= b.len()
}

/// Takes exactly `n` bytes at `pos`, copied.
pub fn take(b: &[u8], pos: usize, n: usize) -> (r: Result<(usize, Vec<u8>), Error>)
    requires
        pos <= b.len(),
    ensures
        r is Ok <==> has(b@, pos as int, n as int),
        r matches Ok((q, v)) ==> q == pos + n && v@ == b@.subrange(pos as int, q as int),
        r matches Err(e) ==> is_failure(e, pos as int, ErrorKind::NeedMore),
{
    if n > b.len() - pos {
        return Err(Error::new(pos, ErrorKind::NeedMore));
    }
    let mut v: Vec<u8> = Vec::new();
    let mut k: usize = pos;
    while k < pos + n
        invariant
            pos <= k <= pos + n <= b.len(),
            v@ == b@.subrange(pos as int, k as int),
        decreases pos + n - k,
    {
        v.push(b[k]);
        k = k + 1;
    }
    Ok((pos + n, v))
}

/// One byte.
pub fn be_u8(b: &[u8], pos: usize) -> (r: Result<(usize, u8), Error>)
    requires
        pos <= b.len(),
    ensures
        r is Ok <==> has(b@, pos as int, 1),
        r matches Ok((q, x)) ==> q == pos + 1 && x == b@[pos as int],
        r matches Err(e) ==> is_failure(e, pos as int, ErrorKind::NeedMore),
{
    if pos >= b.len() {
        return Err(Error::new(pos, ErrorKind::NeedMore));
    }
    Ok((pos + 1, b[pos]))
}

/// A big-endian 16-bit integer.
pub fn be_u16(b: &[u8], pos: usize) -> (r: Result<(usize, u16), Error>)
    requires
        pos <= b.len(),
    ensures
        r is Ok <==> has(b@, pos as int, 2),
        r matches Ok((q, x)) ==> q == pos + 2 && x == be16(b@, pos as int),
        r matches Err(e) ==> is_failure(e, pos as int, ErrorKind::NeedMore),
{
    if b.len() - pos < 2 {
        return Err(Error::new(pos, ErrorKind::NeedMore));
    }
    Ok((pos + 2, (b[pos] as u16) * 256 + b[pos + 1] as u16))
}

/// A big-endian 32-bit integer.
pub fn be_u32(b: &[u8], pos: usize) -> (r: Result<(usize, u32), Error>)
    requires
        pos <= b.len(),
    ensures
        r is Ok <==> has(b@, pos as int, 4),
        r matches Ok((q, x)) ==> q == pos + 4 && x == be32(b@, pos as int),
        r matches Err(e) ==> is_failure(e, pos as int, ErrorKind::NeedMore),
{
    if b.len() - pos < 4 {
        return Err(Error::new(pos, ErrorKind::NeedMore));
    }
    let hi = (b[pos] as u32) * 256 + b[pos + 1] as u32;
    let lo = (b[pos + 2] as u32) * 256 + b[pos + 3] as u32;
    Ok((pos + 4, hi * 65536 + lo))
}

/// A little-endian 16-bit integer.
pub fn le_u16(b: &[u8], pos: usize) -> (r: Result<(usize, u16), Error>)
    requires
        pos <= b.len(),
    ensures
        r is Ok <==> has(b@, pos as int, 2),
        r matches Ok((q, x)) ==> q == pos + 2 && x == le16(b@, pos as int),
        r matches Err(e) ==> is_failure(e, pos as int, ErrorKind::NeedMore),
{
    if b.len() - pos < 2 {
        return Err(Error::new(pos, ErrorKind::NeedMore));
    }
    Ok((pos + 2, b[pos] as u16 + (b[pos + 1] as u16) * 256))
}

/// A little-endian 32-bit integer.
pub fn le_u32(b: &[u8], pos: usize) -> (r: Result<(usize, u32), Error>)
    requires
        pos <= b.len(),
    ensures
        r is Ok <==> has(b@, pos as int, 4),
        r matches Ok((q, x)) ==> q == pos + 4 && x == le32(b@, pos as int),
        r matches Err(e) ==> is_failure(e, pos as int, ErrorKind::NeedMore),
{
    if b.len() - pos < 4 {
        return Err(Error::new(pos, ErrorKind::NeedMore));
    }
    let lo = b[pos] as u32 + (b[pos + 1] as u32) * 256;
    let hi = b[pos + 2] as u32 + (b[pos + 3] as u32) * 256;
    Ok((pos + 4, lo + hi * 65536))
}

/// A little-endian 64-bit integer.
pub fn le_u64(b: &[u8], pos: usize) -> (r: Result<(usize, u64), Error>)
    requires
        pos <= b.len(),
    ensures
        r is Ok <==> has(b@, pos as int, 8),
        r matches Ok((q, x)) ==> q == pos + 8 && x == le64(b@, pos as int),
        r matches Err(e) ==> is_failure(e, pos as int, ErrorKind::NeedMore),
{
    if b.len() - pos < 8 {
        return Err(Error::new(pos, ErrorKind::NeedMore));
    }
    let lo = (b[pos] as u64 + (b[pos + 1] as u64) * 256) + (b[pos + 2] as u64 + (b[pos + 3]
        as u64) * 256) * 65536;
    let hi = (b[pos + 4] as u64 + (b[pos + 5] as u64) * 256) + (b[pos + 6] as u64 + (b[pos
        + 7] as u64) * 256) * 65536;
    Ok((pos + 8, lo + hi * 0x1_0000_0000))
}

/// The bit at absolute bit index `k`, bits numbered MSB-first within each byte.
pub open spec fn bit_at(b: Seq<u8>, k: int) -> nat {
    ((b[k / 8] >> ((7 - k % 8) as u8)) & 1u8) as nat
}

/// The `n` bits starting at absolute bit index `start`, MSB-first.
pub open spec fn bits_value(b: Seq<u8>, start: int, n: nat) -> nat
    decreases n,
{
    if n == 0 {
        0
    } else {
        bits_value(b, start, (n - 1) as nat) * 2 + bit_at(b, start + n - 1)
    }
}

/// A position inside the input counted in bits: a byte and the bit offset
/// (0 to 7, from the most significant bit) within it.
#[derive(Debug, Clone, Copy)]
pub struct BitCursor {
    pub byte: usize,
    pub bit: usize,
}

impl BitCursor {
    pub open spec fn wf(self, b: Seq<u8>) -> bool {
        &&& self.bit < 8
        &&& self.byte <= b.len()
        &&& self.byte == b.len() ==> self.bit == 0
    }

    /// The absolute bit index.
    pub open spec fn index(self) -> int {
        self.byte * 8 + self.bit
    }
}

/// Enters bit mode at a byte position.
pub fn enter_bits(pos: usize) -> (c: BitCursor)
    ensures
        c.byte == pos && c.bit == 0,
{
    BitCursor { byte: pos, bit: 0 }
}

/// Leaves bit mode: succeeds exactly when the cursor is back at a byte
/// boundary, and then at that byte.
pub fn exit_bits(c: BitCursor) -> (r: Result<usize, Error>)
    ensures
        r is Ok <==> c.bit == 0,
        r matches Ok(p) ==> p as int * 8 == c.index(),
        r matches Err(e) ==> is_failure(e, c.byte as int, ErrorKind::Unaligned),
{
    if c.bit == 0 {
        Ok(c.byte)
    } else {
        Err(Error::new(c.byte, ErrorKind::Unaligned))
    }
}

/// Takes `n` bits, MSB-first, and zero-extends them.
pub fn take_bits(b: &[u8], c: BitCursor, n: usize) -> (r: Result<(BitCursor, u32), Error>)
    requires
        c.wf(b@),
        n <= 32,
    ensures
        r is Ok <==> c.index() + n <= b.len() * 8,
        r matches Ok((d, x)) ==> {
            &&& d.wf(b@)
            &&& d.index() == c.index() + n
            &&& x == bits_value(b@, c.index(), n as nat)
            &&& (x as nat) < pow2(n as nat)
        },
        r matches Err(e) ==> is_failure(e, c.byte as int, ErrorKind::NeedMore),
{
    let need: usize = (c.bit + n + 7) / 8;
    if need > b.len() - c.byte {
        proof {
            assert((c.bit + n + 7) / 8 > b.len() - c.byte);
        }
        return Err(Error::new(c.byte, ErrorKind::NeedMore));
    }
    let mut byte = c.byte;
    let mut bit = c.bit;
    let mut acc: u32 = 0;
    let mut k: usize = 0;
    proof {
        lemma2_to64();
    }
    while k < n
        invariant
            k <= n <= 32,
            bit < 8,
            c.byte + (c.bit + n + 7) / 8 <= b.len(),
            byte * 8 + bit == c.index() + k,
            acc as nat == bits_value(b@, c.index(), k as nat),
            (acc as nat) < pow2(k as nat),
            pow2(32) == 0x1_0000_0000,
        decreases n - k,
    {
        let idx: Ghost<int> = Ghost(byte * 8 + bit);
        assert(idx@ / 8 == byte && idx@ % 8 == bit);
        let v: u8 = b[byte];
        let s: u8 = (7 - bit) as u8;
        let x: u8 = (v >> s) & 1u8;
        assert(x <= 1) by (bit_vector)
            requires x == (v >> s) & 1u8;
        proof {
            lemma_pow2_unfold((k + 1) as nat);
            if k + 1 < 32 {
                vstd::arithmetic::power2::lemma_pow2_strictly_increases((k + 1) as nat, 32);
            }
        }
        acc = acc * 2 + x as u32;
        k = k + 1;
        if bit == 7 {
            byte = byte + 1;
            bit = 0;
        } else {
            bit = bit + 1;
        }
    }
    Ok((BitCursor { byte, bit }, acc))
}

/// Reading `n + m` bits is reading `n` bits, then `m` more.
pub proof fn lemma_bits_value_split(b: Seq<u8>, start: int, n: nat, m: nat)
    ensures
        bits_value(b, start, n + m) == bits_value(b, start, n) * pow2(m) + bits_value(
            b,
            start + n,
            m,
        ),
    decreases m,
{
    if m == 0 {
        vstd::arithmetic::power2::lemma2_to64();
    } else {
        lemma_bits_value_split(b, start, n, (m - 1) as nat);
        lemma_pow2_unfold(m);
        let a = bits_value(b, start, n);
        let p = pow2((m - 1) as nat);
        let c = bits_value(b, start + n, (m - 1) as nat);
        assert((a * p + c) * 2 == a * (p * 2) + c * 2) by (nonlinear_arith);
        assert(bits_value(b, start, n + m) == bits_value(b, start, (n + m - 1) as nat) * 2
            + bit_at(b, start + (n + m) - 1));
        assert(bits_value(b, start + n, m) == c * 2 + bit_at(b, start + n + m - 1));
    }
}

/// Takes up to 64 bits, MSB-first, and zero-extends them.
pub fn take_bits_wide(b: &[u8], c: BitCursor, n: usize) -> (r: Result<(BitCursor, u64), Error>)
    requires
        c.wf(b@),
        n <= 64,
    ensures
        r is Ok <==> c.index() + n <= b.len() * 8,
        r matches Ok((d, x)) ==> {
            &&& d.wf(b@)
            &&& d.index() == c.index() + n
            &&& x == bits_value(b@, c.index(), n as nat)
            &&& (x as nat) < pow2(n as nat)
        },
        r matches Err(e) ==> is_failure(e, c.byte as int, ErrorKind::NeedMore),
{
    proof {
        lemma2_to64();
    }
    if n <= 32 {
        let (d, x) = take_bits(b, c, n)?;
        return Ok((d, x as u64));
    }
    let hi_n = n - 32;
    let need: usize = (c.bit + n + 7) / 8;
    if need > b.len() - c.byte {
        return Err(Error::new(c.byte, ErrorKind::NeedMore));
    }
    let (d, hi) = take_bits(b, c, hi_n)?;
    let (e, lo) = match take_bits(b, d, 32) {
        Ok(x) => x,
        Err(_) => {
            return Err(Error::new(c.byte, ErrorKind::NeedMore));
        },
    };
    proof {
        lemma_bits_value_split(b@, c.index(), hi_n as nat, 32);
        vstd::arithmetic::power2::lemma_pow2_adds(hi_n as nat, 32);
        assert(hi * 0x1_0000_0000 + lo < pow2(hi_n as nat) * 0x1_0000_0000) by (nonlinear_arith)
            requires
                (hi as nat) < pow2(hi_n as nat),
                lo < 0x1_0000_0000,
        ;
        assert(pow2(hi_n as nat) <= 0x1_0000_0000) by {
            if hi_n < 32 {
                vstd::arithmetic::power2::lemma_pow2_strictly_increases(hi_n as nat, 32);
            }
        }
        assert(hi * 0x1_0000_0000 + lo <= 0xFFFF_FFFF_FFFF_FFFF) by (nonlinear_arith)
            requires
                hi < 0x1_0000_0000,
                lo < 0x1_0000_0000,
        ;
    }
    Ok((e, (hi as u64) * 0x1_0000_0000 + lo as u64))
}

/// A little-endian 16-bit integer at `p`, which the caller knows is there.
pub fn get_le16(b: &[u8], p: usize) -> (r: u16)
    requires
        has(b@, p as int, 2),
    ensures
        r == le16(b@, p as int),
{
    b[p] as u16 + (b[p + 1] as u16) * 256
}

/// `n` bits starting `off` bits into byte `p`, MSB-first, which the caller
/// knows are there.
pub fn get_bits(b: &[u8], p: usize, off: usize, n: usize) -> (r: u32)
    requires
        n <= 32,
        off < 8,
        p * 8 + off + n <= b@.len() * 8,
    ensures
        r == bits_value(b@, p * 8 + off, n as nat),
        (r as nat) < pow2(n as nat),
{
    let c = BitCursor { byte: p, bit: off };
    match take_bits(b, c, n) {
        Ok((_, x)) => x,
        Err(_) => 0,
    }
}

/// A bit cursor that entered bit mode at byte `p` and then took whole bytes'
/// worth of bits, `8 * n`, stands at a byte boundary, `n` bytes further on:
/// leaving bit mode there succeeds.
pub proof fn lemma_whole_bytes_end_aligned(c: BitCursor, p: int, n: int)
    requires
        c.bit < 8,
        c.index() == p * 8 + n * 8,
    ensures
        c.bit == 0,
        c.byte == p + n,
{
}

} // verus!
