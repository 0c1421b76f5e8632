//! A copied run of input bytes.
use vstd::prelude::*;
use vstd::string::StringExecFns;
use crate::render::{decimal, hex_lower_spaced, hex_lower_text, push_decimal, push_str};

verus! {

/// Bytes copied out of the input at decode time, so that the decoded tree
/// does not borrow the caller's buffer.
#[derive(Debug)]
pub struct Blob(pub Vec<u8>);

/// How many bytes `Blob::describe` shows.
pub const SHOWN_BYTES: usize = 20;

/// Hexadecimal text of a prefix depends on the prefix alone.
proof fn lemma_hex_prefix(a: Seq<u8>, b: Seq<u8>, n: nat)
    requires
        n <= a.len(),
        n <= b.len(),
        forall|k: int| 0 <= k < n ==> a[k] == b[k],
    ensures
        hex_lower_spaced(a, n) == hex_lower_spaced(b, n),
    decreases n,
{
    if n > 1 {
        lemma_hex_prefix(a, b, (n - 1) as nat);
    }
}

impl View for Blob {
    type V = Seq<u8>;

    open spec fn view(&self) -> Seq<u8> {
        self.0@
    }
}

impl Blob {
    /// A copy of `slice`.
    pub fn new(slice: &[u8]) -> (r: Blob)
        ensures
            r@ == slice@,
    {
        Blob(vstd::slice::slice_to_vec(slice))
    }

    /// How many bytes `describe` shows.
    pub open spec fn shown(self) -> nat {
        if self@.len() > SHOWN_BYTES {
            SHOWN_BYTES as nat
        } else {
            self@.len()
        }
    }

    /// The text `describe` gives.
    pub open spec fn spec_describe(self) -> Seq<char> {
        let tail = if self@.len() > SHOWN_BYTES {
            " + "@ + decimal((self@.len() - SHOWN_BYTES) as nat) + " bytes"@
        } else {
            Seq::empty()
        };
        "["@ + hex_lower_spaced(self@, self.shown()) + tail + "]"@
    }

    /// The first bytes in lowercase hexadecimal, separated by spaces, and how many
    /// more there are: `[01 02 ab]`, or `[00 ... 13 + 5 bytes]` past
    /// `SHOWN_BYTES` bytes.
    pub fn describe(&self) -> (r: String)
        ensures
            r@ == self.spec_describe(),
    {
        let n = if self.0.len() > SHOWN_BYTES { SHOWN_BYTES } else { self.0.len() };
        let shown = vstd::slice::slice_subrange(self.0.as_slice(), 0, n);
        let digits = hex_lower_text(shown);
        assert(hex_lower_spaced(shown@, n as nat) == hex_lower_spaced(self@, n as nat)) by {
            lemma_hex_prefix(shown@, self@, n as nat);
        }
        let mut s = String::new();
        push_str(&mut s, "[");
        push_str(&mut s, digits.as_str());
        if self.0.len() > SHOWN_BYTES {
            push_str(&mut s, " + ");
            push_decimal(&mut s, self.0.len() - SHOWN_BYTES);
            push_str(&mut s, " bytes");
        }
        push_str(&mut s, "]");
        assert(s@ =~= self.spec_describe());
        s
    }

    /// The number of bytes held.
    pub fn len(&self) -> (r: usize)
        ensures
            r == self@.len(),
    {
        self.0.len()
    }
}

} // verus!
