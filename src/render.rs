//! Text renderings of addresses, byte runs and error chains.
use vstd::prelude::*;
use vstd::string::StringExecFns;
use crate::parse::{Error, ErrorKind, Label};

verus! {

/// The uppercase hexadecimal digit of `d`.
pub open spec fn hex_char(d: nat) -> char {
    if d < 10 {
        ((d + 48) as u8) as char
    } else {
        ((d + 55) as u8) as char
    }
}

fn digit_str(d: u8) -> (r: &'static str)
    requires
        d < 16,
    ensures
        r@ == seq![hex_char(d as nat)],
{
    match d {
        0 => {
            proof {
                reveal_strlit("0");
            }
            "0"
        },
        1 => {
            proof {
                reveal_strlit("1");
            }
            "1"
        },
        2 => {
            proof {
                reveal_strlit("2");
            }
            "2"
        },
        3 => {
            proof {
                reveal_strlit("3");
            }
            "3"
        },
        4 => {
            proof {
                reveal_strlit("4");
            }
            "4"
        },
        5 => {
            proof {
                reveal_strlit("5");
            }
            "5"
        },
        6 => {
            proof {
                reveal_strlit("6");
            }
            "6"
        },
        7 => {
            proof {
                reveal_strlit("7");
            }
            "7"
        },
        8 => {
            proof {
                reveal_strlit("8");
            }
            "8"
        },
        9 => {
            proof {
                reveal_strlit("9");
            }
            "9"
        },
        10 => {
            proof {
                reveal_strlit("A");
            }
            "A"
        },
        11 => {
            proof {
                reveal_strlit("B");
            }
            "B"
        },
        12 => {
            proof {
                reveal_strlit("C");
            }
            "C"
        },
        13 => {
            proof {
                reveal_strlit("D");
            }
            "D"
        },
        14 => {
            proof {
                reveal_strlit("E");
            }
            "E"
        },
        _ => {
            proof {
                reveal_strlit("F");
            }
            "F"
        },
    }
}

/// The lowercase hexadecimal digit of `d`.
pub open spec fn hex_char_lower(d: nat) -> char {
    if d < 10 {
        ((d + 48) as u8) as char
    } else {
        ((d + 87) as u8) as char
    }
}

fn digit_str_lower(d: u8) -> (r: &'static str)
    requires
        d < 16,
    ensures
        r@ == seq![hex_char_lower(d as nat)],
{
    match d {
        0 => {
            proof {
                reveal_strlit("0");
            }
            "0"
        },
        1 => {
            proof {
                reveal_strlit("1");
            }
            "1"
        },
        2 => {
            proof {
                reveal_strlit("2");
            }
            "2"
        },
        3 => {
            proof {
                reveal_strlit("3");
            }
            "3"
        },
        4 => {
            proof {
                reveal_strlit("4");
            }
            "4"
        },
        5 => {
            proof {
                reveal_strlit("5");
            }
            "5"
        },
        6 => {
            proof {
                reveal_strlit("6");
            }
            "6"
        },
        7 => {
            proof {
                reveal_strlit("7");
            }
            "7"
        },
        8 => {
            proof {
                reveal_strlit("8");
            }
            "8"
        },
        9 => {
            proof {
                reveal_strlit("9");
            }
            "9"
        },
        10 => {
            proof {
                reveal_strlit("a");
            }
            "a"
        },
        11 => {
            proof {
                reveal_strlit("b");
            }
            "b"
        },
        12 => {
            proof {
                reveal_strlit("c");
            }
            "c"
        },
        13 => {
            proof {
                reveal_strlit("d");
            }
            "d"
        },
        14 => {
            proof {
                reveal_strlit("e");
            }
            "e"
        },
        _ => {
            proof {
                reveal_strlit("f");
            }
            "f"
        },
    }
}

/// Two lowercase hexadecimal digits of a byte.
pub open spec fn hex2_lower(b: u8) -> Seq<char> {
    seq![hex_char_lower((b / 16) as nat), hex_char_lower((b % 16) as nat)]
}

/// The first `n` bytes of `a` in lowercase hexadecimal, separated by spaces.
pub open spec fn hex_lower_spaced(a: Seq<u8>, n: nat) -> Seq<char>
    decreases n,
{
    if n == 0 {
        Seq::empty()
    } else if n == 1 {
        hex2_lower(a[0])
    } else {
        hex_lower_spaced(a, (n - 1) as nat) + seq![' '] + hex2_lower(a[n - 1])
    }
}

/// `a` in lowercase hexadecimal, the bytes separated by spaces.
pub fn hex_lower_text(a: &[u8]) -> (r: String)
    ensures
        r@ == hex_lower_spaced(a@, a@.len()),
{
    let mut s = String::new();
    let mut k: usize = 0;
    while k < a.len()
        invariant
            k <= a@.len(),
            s@ == hex_lower_spaced(a@, k as nat),
        decreases a@.len() - k,
    {
        if k > 0 {
            proof {
                reveal_strlit(" ");
            }
            push_str(&mut s, " ");
        }
        let b = a[k];
        push_str(&mut s, digit_str_lower(b / 16));
        push_str(&mut s, digit_str_lower(b % 16));
        k = k + 1;
        assert(s@ =~= hex_lower_spaced(a@, k as nat));
    }
    s
}

/// Two uppercase hexadecimal digits of a byte.
pub open spec fn hex2(b: u8) -> Seq<char> {
    seq![hex_char((b / 16) as nat), hex_char((b % 16) as nat)]
}

/// The decimal digits of `n`.
pub open spec fn decimal(n: nat) -> Seq<char>
    decreases n,
{
    if n < 10 {
        seq![hex_char(n)]
    } else {
        decimal(n / 10) + seq![hex_char(n % 10)]
    }
}

/// Appends the two hexadecimal digits of `b`.
pub fn push_hex2(s: &mut String, b: u8)
    ensures
        final(s)@ == old(s)@ + hex2(b),
{
    s.append(digit_str(b / 16));
    s.append(digit_str(b % 16));
    assert(final(s)@ =~= old(s)@ + hex2(b));
}

/// Appends the decimal digits of `n`.
pub fn push_decimal(s: &mut String, n: usize)
    ensures
        final(s)@ == old(s)@ + decimal(n as nat),
    decreases n,
{
    if n >= 10 {
        push_decimal(s, n / 10);
    }
    s.append(digit_str((n % 10) as u8));
    assert(final(s)@ =~= old(s)@ + decimal(n as nat));
}

/// Appends one character, given as a string of one character.
pub fn push_str(s: &mut String, t: &str)
    ensures
        final(s)@ == old(s)@ + t@,
{
    s.append(t);
}

/// The first `n` bytes of `a` in hexadecimal, each pair of digits
/// separated from the next by `sep`.
pub open spec fn hex_joined(a: Seq<u8>, n: nat, sep: char) -> Seq<char>
    decreases n,
{
    if n == 0 {
        Seq::empty()
    } else if n == 1 {
        hex2(a[0])
    } else {
        hex_joined(a, (n - 1) as nat, sep) + seq![sep] + hex2(a[n - 1])
    }
}

/// The first `n` bytes of `a` in decimal, separated by dots.
pub open spec fn dotted(a: Seq<u8>, n: nat) -> Seq<char>
    decreases n,
{
    if n == 0 {
        Seq::empty()
    } else if n == 1 {
        decimal(a[0] as nat)
    } else {
        dotted(a, (n - 1) as nat) + seq!['.'] + decimal(a[n - 1] as nat)
    }
}

/// The first `n` bytes of a 16-byte address as groups of two bytes in
/// hexadecimal separated by colons.
pub open spec fn paired_hex(a: Seq<u8>, n: nat) -> Seq<char>
    decreases n,
{
    if n == 0 {
        Seq::empty()
    } else {
        let k = n - 1;
        paired_hex(a, k as nat) + hex2(a[k]) + if k % 2 == 1 && k != 15 {
            seq![':']
        } else {
            Seq::empty()
        }
    }
}

/// `a` in hexadecimal, the bytes separated by `sep` (a one-character string).
pub fn hex_text(a: &[u8], sep: &str) -> (r: String)
    requires
        sep@.len() == 1,
    ensures
        r@ == hex_joined(a@, a@.len(), sep@[0]),
{
    let mut s = String::new();
    let mut k: usize = 0;
    while k < a.len()
        invariant
            k <= a@.len(),
            sep@.len() == 1,
            s@ == hex_joined(a@, k as nat, sep@[0]),
        decreases a@.len() - k,
    {
        if k > 0 {
            push_str(&mut s, sep);
            assert(sep@ =~= seq![sep@[0]]);
        }
        push_hex2(&mut s, a[k]);
        k = k + 1;
    }
    s
}

/// `a` in decimal, the bytes separated by dots.
pub fn dotted_text(a: &[u8]) -> (r: String)
    ensures
        r@ == dotted(a@, a@.len()),
{
    let mut s = String::new();
    let mut k: usize = 0;
    while k < a.len()
        invariant
            k <= a@.len(),
            s@ == dotted(a@, k as nat),
        decreases a@.len() - k,
    {
        if k > 0 {
            proof {
                reveal_strlit(".");
            }
            push_str(&mut s, ".");
        }
        push_decimal(&mut s, a[k] as usize);
        k = k + 1;
    }
    s
}

/// A 16-byte address as groups of two bytes in hexadecimal.
pub fn paired_hex_text(a: &[u8]) -> (r: String)
    requires
        a@.len() == 16,
    ensures
        r@ == paired_hex(a@, 16),
{
    let mut s = String::new();
    let mut k: usize = 0;
    while k < 16
        invariant
            k <= 16,
            a@.len() == 16,
            s@ == paired_hex(a@, k as nat),
        decreases 16 - k,
    {
        push_hex2(&mut s, a[k]);
        if k % 2 == 1 && k != 15 {
            proof {
                reveal_strlit(":");
            }
            push_str(&mut s, ":");
        }
        proof {
            assert(s@ =~= paired_hex(a@, (k + 1) as nat));
        }
        k = k + 1;
    }
    s
}

/// How many bytes the window of an error shows on each side of its position.
pub const WINDOW: usize = 30;

/// The first byte shown around position `p`.
pub open spec fn window_lo(p: int) -> int {
    if p > WINDOW {
        p - WINDOW
    } else {
        0
    }
}

/// The byte after the last one shown around position `p` of `len` bytes.
pub open spec fn window_hi(len: int, p: int) -> int {
    if len - p > WINDOW {
        p + WINDOW
    } else {
        len
    }
}

/// Bytes `lo` to `hi` of `input`, each as two hexadecimal digits and a space.
pub open spec fn hex_line(input: Seq<u8>, lo: int, hi: int) -> Seq<char>
    decreases hi - lo,
{
    if hi <= lo {
        Seq::empty()
    } else {
        hex_line(input, lo, hi - 1) + hex2(input[hi - 1]) + seq![' ']
    }
}

/// Under each byte from `lo` to `hi`: blanks before position `p`, carets
/// from `p` on, where the input was not read.
pub open spec fn marker_line(p: int, lo: int, hi: int) -> Seq<char>
    decreases hi - lo,
{
    if hi <= lo {
        Seq::empty()
    } else {
        marker_line(p, lo, hi - 1) + if hi - 1 < p {
            seq![' ', ' ', ' ']
        } else {
            seq!['^', '^', ' ']
        }
    }
}

/// The text of an error kind.
pub open spec fn kind_text(k: ErrorKind) -> Seq<char> {
    match k {
        ErrorKind::NeedMore => "error: need more input"@,
        ErrorKind::TagMismatch => "error: tag mismatch"@,
        ErrorKind::NumericOverflow => "error: numeric overflow"@,
        ErrorKind::Unaligned => "error: bit field ends inside a byte"@,
        ErrorKind::UnsupportedLinkType(n) => "error: unsupported link type "@ + decimal(n as nat),
        ErrorKind::Context(l) => "...in "@ + l.spec_text(),
    }
}

/// The lines for one entry of an error chain: what failed and where, then the
/// bytes around that position with the unread ones marked.
pub open spec fn entry_text(input: Seq<u8>, pos: usize, kind: ErrorKind) -> Seq<char> {
    let p = if pos <= input.len() { pos as int } else { input.len() as int };
    let lo = window_lo(p);
    let hi = window_hi(input.len() as int, p);
    kind_text(kind) + " at offset "@ + decimal(pos as nat) + "\n    "@ + hex_line(input, lo, hi)
        + "\n    "@ + marker_line(p, lo, hi) + "\n"@
}

/// The entries from index `i` on, outermost first.
pub open spec fn chain_text(errs: Seq<(usize, ErrorKind)>, input: Seq<u8>, i: int) -> Seq<char>
    decreases errs.len() - i,
{
    if i >= errs.len() || i < 0 {
        Seq::empty()
    } else {
        chain_text(errs, input, i + 1) + entry_text(input, errs[i].0, errs[i].1)
    }
}

fn push_kind(s: &mut String, k: ErrorKind)
    ensures
        final(s)@ == old(s)@ + kind_text(k),
{
    match k {
        ErrorKind::NeedMore => push_str(s, "error: need more input"),
        ErrorKind::TagMismatch => push_str(s, "error: tag mismatch"),
        ErrorKind::NumericOverflow => push_str(s, "error: numeric overflow"),
        ErrorKind::Unaligned => push_str(s, "error: bit field ends inside a byte"),
        ErrorKind::UnsupportedLinkType(n) => {
            push_str(s, "error: unsupported link type ");
            push_decimal(s, n as usize);
        },
        ErrorKind::Context(l) => {
            push_str(s, "...in ");
            push_str(s, l.text());
        },
    }
    assert(final(s)@ =~= old(s)@ + kind_text(k));
}

fn push_hex_line(s: &mut String, input: &[u8], lo: usize, hi: usize)
    requires
        lo <= hi <= input@.len(),
    ensures
        final(s)@ == old(s)@ + hex_line(input@, lo as int, hi as int),
{
    let ghost start = s@;
    let mut k = lo;
    while k < hi
        invariant
            lo <= k <= hi <= input@.len(),
            s@ == start + hex_line(input@, lo as int, k as int),
        decreases hi - k,
    {
        push_hex2(s, input[k]);
        proof {
            reveal_strlit(" ");
        }
        push_str(s, " ");
        k = k + 1;
        assert(s@ =~= start + hex_line(input@, lo as int, k as int));
    }
}

fn push_marker_line(s: &mut String, p: usize, lo: usize, hi: usize)
    requires
        lo <= hi,
    ensures
        final(s)@ == old(s)@ + marker_line(p as int, lo as int, hi as int),
{
    let ghost start = s@;
    let mut k = lo;
    while k < hi
        invariant
            lo <= k <= hi,
            s@ == start + marker_line(p as int, lo as int, k as int),
        decreases hi - k,
    {
        if k < p {
            proof {
                reveal_strlit("   ");
            }
            push_str(s, "   ");
        } else {
            proof {
                reveal_strlit("^^ ");
            }
            push_str(s, "^^ ");
        }
        k = k + 1;
        assert(s@ =~= start + marker_line(p as int, lo as int, k as int));
    }
}

fn push_head(s: &mut String, pos: usize, kind: ErrorKind)
    ensures
        final(s)@ == old(s)@ + kind_text(kind) + " at offset "@ + decimal(pos as nat) + "\n    "@,
{
    push_kind(s, kind);
    push_str(s, " at offset ");
    push_decimal(s, pos);
    push_str(s, "\n    ");
    assert(final(s)@ =~= old(s)@ + kind_text(kind) + " at offset "@ + decimal(pos as nat)
        + "\n    "@);
}

fn push_entry(s: &mut String, input: &[u8], pos: usize, kind: ErrorKind)
    ensures
        final(s)@ == old(s)@ + entry_text(input@, pos, kind),
{
    let ghost start = s@;
    let p = if pos <= input.len() { pos } else { input.len() };
    let lo = if p > WINDOW { p - WINDOW } else { 0 };
    let hi = if input.len() - p > WINDOW { p + WINDOW } else { input.len() };
    let ghost head = kind_text(kind) + " at offset "@ + decimal(pos as nat) + "\n    "@;
    push_head(s, pos, kind);
    let ghost hex = hex_line(input@, lo as int, hi as int);
    push_hex_line(s, input, lo, hi);
    push_str(s, "\n    ");
    let ghost marks = marker_line(p as int, lo as int, hi as int);
    push_marker_line(s, p, lo, hi);
    push_str(s, "\n");
    assert(s@ =~= start + (head + hex + "\n    "@ + marks + "\n"@));
    assert(entry_text(input@, pos, kind) =~= head + hex + "\n    "@ + marks + "\n"@);
}

impl Error {
    /// A diagnostic of the chain against the input it came from: for each
    /// entry, outermost first, what failed and at which offset, the bytes
    /// within `WINDOW` of that offset in hexadecimal, and carets under the
    /// bytes that were not read.
    pub fn render(&self, input: &[u8]) -> (r: String)
        ensures
            r@ == chain_text(self.errors@, input@, 0),
    {
        let mut s = String::new();
        let mut i = self.errors.len();
        while i > 0
            invariant
                i <= self.errors@.len(),
                s@ == chain_text(self.errors@, input@, i as int),
            decreases i,
        {
            let (pos, kind) = self.errors[i - 1];
            push_entry(&mut s, input, pos, kind);
            i = i - 1;
        }
        s
    }
}

} // verus!
