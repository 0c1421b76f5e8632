//! TCP segments (RFC 793), with a single option decoded from the option area.
use vstd::prelude::*;
use crate::blob::Blob;
use crate::parse::{
    BitCursor, Error, ErrorKind, Label, be16, be32, be_u16, be_u32, be_u8, bits_value, consumed_len,
    ends_in, enter_bits, exit_bits, has, is_rest, rest_of, take,
};
use crate::ux::{U1, U3, U4};

verus! {

/// The single option this decoder reads from the option area.
#[derive(Debug)]
pub enum Options {
    Data(DataOptions),
    NoData(NoData),
    Empty,
}

/// An option with a length byte and `len - 2` bytes of data.
#[derive(Debug)]
pub struct DataOptions {
    pub kind: u8,
    pub len: u8,
    pub data: Blob,
}

/// A one-byte option: End of Option List (0) or No-Operation (1).
#[derive(Debug)]
pub struct NoData {
    pub kind: u8,
}

/// The data length an option length byte announces: the length counts the
/// kind and length bytes themselves.
pub open spec fn option_data_len(len: u8) -> int {
    if len >= 2 { len - 2 } else { 0 }
}

impl Options {
    /// The option that starts the `area` bytes at `s` fits in them.
    pub open spec fn ok(b: Seq<u8>, s: int, area: int) -> bool {
        b[s] <= 1 || 2 + option_data_len(b[s + 1]) <= area
    }

    /// `o` is the option that starts the `area` bytes at `s`.
    pub open spec fn decoded(b: Seq<u8>, s: int, o: Options) -> bool {
        if b[s] <= 1 {
            o matches Options::NoData(n) && n.kind == b[s]
        } else {
            o matches Options::Data(d) && d.kind == b[s] && d.len == b[s + 1] && d.data@
                == b.subrange(s + 2, s + 2 + option_data_len(b[s + 1]))
        }
    }

    /// The option at the start of the `area` bytes at `s`.
    pub fn parse(b: &[u8], s: usize, area: usize) -> (r: Result<Options, Error>)
        requires
            4 <= area,
            s + area <= b@.len(),
        ensures
            r is Ok <==> Self::ok(b@, s as int, area as int),
            r matches Ok(o) ==> Self::decoded(b@, s as int, o),
            r matches Err(e) ==> ends_in(e, s as int, Label::TcpOptions),
    {
        let kind = b[s];
        if kind <= 1 {
            return Ok(Options::NoData(NoData { kind }));
        }
        let len = b[s + 1];
        let n: usize = if len >= 2 { (len - 2) as usize } else { 0 };
        if n > area - 2 {
            return Err(Error::new(s + 2, ErrorKind::NeedMore).context(s, Label::TcpOptions));
        }
        let (_, data) = match take(b, s + 2, n) {
            Ok(x) => x,
            Err(e) => { return Err(e.context(s, Label::TcpOptions)); },
        };
        Ok(Options::Data(DataOptions { kind, len, data: Blob(data) }))
    }
}

/// A TCP segment. The payload is whatever follows the option area.
#[derive(Debug)]
pub struct Packet {
    pub src_port: u16,
    pub dst_port: u16,
    pub seq_num: u32,
    pub ack_num: u32,
    pub offset: U4,
    pub reserved: U3,
    pub ns: U1,
    pub cwr: U1,
    pub ece: U1,
    pub urg: U1,
    pub ack: U1,
    pub psh: U1,
    pub rst: U1,
    pub syn: U1,
    pub fin: U1,
    pub window_size: u16,
    pub checksum: u16,
    pub urgent_ptr: u16,
    pub options: Options,
    pub payload: Blob,
}

impl Packet {
    /// The data offset field, in 4-byte words.
    pub open spec fn spec_offset(b: Seq<u8>, pos: int) -> nat {
        bits_value(b, (pos + 12) * 8, 4)
    }

    /// The size of the option area: what the data offset adds to the
    /// 20-byte header.
    pub open spec fn option_area(b: Seq<u8>, pos: int) -> int {
        if Self::spec_offset(b, pos) > 5 { (Self::spec_offset(b, pos) - 5) * 4 } else { 0 }
    }

    /// Decoding at `pos` succeeds exactly when the header and the option
    /// area are there and the option fits in its area.
    pub open spec fn ok(b: Seq<u8>, pos: int) -> bool {
        &&& has(b, pos, 20)
        &&& has(b, pos + 20, Self::option_area(b, pos))
        &&& Self::option_area(b, pos) > 0 ==> Options::ok(b, pos + 20, Self::option_area(b, pos))
    }

    /// The flag bits, in wire order from NS to FIN, at `pos`.
    pub open spec fn flags_decoded(b: Seq<u8>, pos: int, p: Packet) -> bool {
        let k = (pos + 12) * 8;
        &&& p.offset@ == bits_value(b, k, 4)
        &&& p.reserved@ == bits_value(b, k + 4, 3)
        &&& p.ns@ == bits_value(b, k + 7, 1)
        &&& p.cwr@ == bits_value(b, k + 8, 1)
        &&& p.ece@ == bits_value(b, k + 9, 1)
        &&& p.urg@ == bits_value(b, k + 10, 1)
        &&& p.ack@ == bits_value(b, k + 11, 1)
        &&& p.psh@ == bits_value(b, k + 12, 1)
        &&& p.rst@ == bits_value(b, k + 13, 1)
        &&& p.syn@ == bits_value(b, k + 14, 1)
        &&& p.fin@ == bits_value(b, k + 15, 1)
    }

    /// `p` is the segment at `pos`, which runs to `end`.
    pub open spec fn decoded(b: Seq<u8>, pos: int, end: int, p: Packet) -> bool {
        let area = Self::option_area(b, pos);
        &&& p.src_port == be16(b, pos)
        &&& p.dst_port == be16(b, pos + 2)
        &&& p.seq_num == be32(b, pos + 4)
        &&& p.ack_num == be32(b, pos + 8)
        &&& Self::flags_decoded(b, pos, p)
        &&& p.window_size == be16(b, pos + 14)
        &&& p.checksum == be16(b, pos + 16)
        &&& p.urgent_ptr == be16(b, pos + 18)
        &&& (if area > 0 { Options::decoded(b, pos + 20, p.options) } else { p.options is Empty })
        &&& p.payload@ == b.subrange(pos + 20 + area, b.len() as int)
        &&& end == b.len()
    }

    fn flags(b: &[u8], pos: usize) -> (r: Result<
        (usize, (U4, U3, U1, U1, U1, U1, U1, U1, U1, U1, U1)),
        Error,
    >)
        requires
            pos <= b@.len(),
        ensures
            r is Ok <==> has(b@, pos as int, 2),
            r matches Ok((q, f)) ==> {
                let k = pos * 8;
                &&& q == pos + 2
                &&& f.0@ == bits_value(b@, k, 4)
                &&& f.1@ == bits_value(b@, k + 4, 3)
                &&& f.2@ == bits_value(b@, k + 7, 1)
                &&& f.3@ == bits_value(b@, k + 8, 1)
                &&& f.4@ == bits_value(b@, k + 9, 1)
                &&& f.5@ == bits_value(b@, k + 10, 1)
                &&& f.6@ == bits_value(b@, k + 11, 1)
                &&& f.7@ == bits_value(b@, k + 12, 1)
                &&& f.8@ == bits_value(b@, k + 13, 1)
                &&& f.9@ == bits_value(b@, k + 14, 1)
                &&& f.10@ == bits_value(b@, k + 15, 1)
            },
    {
        if b.len() - pos < 2 {
            return Err(Error::new(pos, ErrorKind::NeedMore));
        }
        let c = enter_bits(pos);
        let (c, offset) = U4::parse(b, c)?;
        let (c, reserved) = U3::parse(b, c)?;
        let (c, ns) = U1::parse(b, c)?;
        let (c, cwr) = U1::parse(b, c)?;
        let (c, ece) = U1::parse(b, c)?;
        let (c, urg) = U1::parse(b, c)?;
        let (c, ack) = U1::parse(b, c)?;
        let (c, psh) = U1::parse(b, c)?;
        let (c, rst) = U1::parse(b, c)?;
        let (c, syn) = U1::parse(b, c)?;
        let (c, fin) = U1::parse(b, c)?;
        let q = exit_bits(c)?;
        Ok((q, (offset, reserved, ns, cwr, ece, urg, ack, psh, rst, syn, fin)))
    }

    fn fields(b: &[u8], pos: usize) -> (r: Result<(usize, Packet), Error>)
        requires
            pos <= b@.len(),
        ensures
            r is Ok <==> Self::ok(b@, pos as int),
            r matches Ok((q, p)) ==> Self::decoded(b@, pos as int, q as int, p),
    {
        if b.len() - pos < 20 {
            return Err(Error::new(pos, ErrorKind::NeedMore));
        }
        let (i, src_port) = be_u16(b, pos)?;
        let (i, dst_port) = be_u16(b, i)?;
        let (i, seq_num) = be_u32(b, i)?;
        let (i, ack_num) = be_u32(b, i)?;
        let (i, f) = Self::flags(b, i)?;
        let (offset, reserved, ns, cwr, ece, urg, ack, psh, rst, syn, fin) = f;
        let (i, window_size) = be_u16(b, i)?;
        let (i, checksum) = be_u16(b, i)?;
        let (i, urgent_ptr) = be_u16(b, i)?;
        let off = offset.value();
        let area: usize = if off > 5 { ((off - 5) as usize) * 4 } else { 0 };
        if area > b.len() - i {
            return Err(Error::new(i, ErrorKind::NeedMore));
        }
        let options = if area > 0 {
            Options::parse(b, i, area)?
        } else {
            Options::Empty
        };
        let payload = Blob::new(rest_of(b, i + area));
        let p = Packet {
            src_port,
            dst_port,
            seq_num,
            ack_num,
            offset,
            reserved,
            ns,
            cwr,
            ece,
            urg,
            ack,
            psh,
            rst,
            syn,
            fin,
            window_size,
            checksum,
            urgent_ptr,
            options,
            payload,
        };
        Ok((b.len(), p))
    }

    /// The segment at `pos`; it consumes the rest of the input.
    pub fn parse_at(b: &[u8], pos: usize) -> (r: Result<(usize, Packet), Error>)
        requires
            pos <= b@.len(),
        ensures
            r is Ok <==> Self::ok(b@, pos as int),
            r matches Ok((q, p)) ==> Self::decoded(b@, pos as int, q as int, p),
            r matches Err(e) ==> ends_in(e, pos as int, Label::TcpFrame),
    {
        match Self::fields(b, pos) {
            Ok(x) => Ok(x),
            Err(e) => Err(e.context(pos, Label::TcpFrame)),
        }
    }

    /// The segment at the start of `i`, and what is left of `i`.
    pub fn parse(i: &[u8]) -> (r: Result<(&[u8], Packet), Error>)
        ensures
            r is Ok <==> Self::ok(i@, 0),
            r matches Ok((rest, p)) ==> is_rest(i@, rest@) && Self::decoded(
                i@,
                0,
                consumed_len(i@, rest@),
                p,
            ),
            r matches Err(e) ==> ends_in(e, 0, Label::TcpFrame),
    {
        let (q, p) = Self::parse_at(i, 0)?;
        Ok((rest_of(i, q), p))
    }
}

} // verus!
