use vstd::prelude::*;
use crate::util::to_hex_str;
use crate::util::spec_to_hex;

verus! {

use vstd::string::StringExecFns;

/// What pad::PadStr::pad_to_width returns for a string and a width; a pure
/// function of the two.
pub uninterp spec fn pad_to_width_of(s: Seq<char>, w: nat) -> Seq<char>;

/// Relies on pad::PadStr::pad_to_width: left alignment pads with spaces on
/// the right up to the display width, returns the input unchanged when it
/// is already wide enough, and a zero width never pads.
#[verifier::external_body]
fn pad_to_width(s: &str, w: usize) -> (r: String)
    ensures
        r@ == pad_to_width_of(s@, w as nat),
        r@.len() >= s@.len(),
        r@.subrange(0, s@.len() as int) == s@,
        forall|i: int| s@.len() <= i < r@.len() ==> r@[i] == ' ',
        w == 0 ==> r@ == s@,
{
    pad::PadStr::pad_to_width(s, w)
}

/// The decimal digits of n, most significant first.
pub open spec fn spec_decimal(n: nat) -> Seq<char>
    decreases n,
{
    if n < 10 {
        seq![crate::util::spec_hex_digit(n as u8)]
    } else {
        spec_decimal(n / 10) + seq![crate::util::spec_hex_digit((n % 10) as u8)]
    }
}

/// A decimal rendering widened to at least two digits with a leading zero,
/// as a length tag renders.
pub open spec fn spec_decimal2(n: nat) -> Seq<char> {
    if spec_decimal(n).len() >= 2 {
        spec_decimal(n)
    } else {
        seq!['0'] + spec_decimal(n)
    }
}

/// Renders n in decimal.
pub fn format_decimal(n: usize) -> (r: String)
    ensures
        r@ == spec_decimal(n as nat),
    decreases n,
{
    let digits: [char; 10] = ['0', '1', '2', '3', '4', '5', '6', '7', '8', '9'];
    if n < 10 {
        let mut s = String::new();
        s.push(digits[n]);
        proof {
            assert(s@ =~= spec_decimal(n as nat));
        }
        s
    } else {
        let mut s = format_decimal(n / 10);
        s.push(digits[n % 10]);
        proof {
            assert(s@ =~= spec_decimal(n as nat));
        }
        s
    }
}

/// Renders n in decimal, at least two digits wide.
pub fn format_decimal2(n: usize) -> (r: String)
    ensures
        r@ == spec_decimal2(n as nat),
{
    let plain = format_decimal(n);
    if plain.as_str().unicode_len() >= 2 {
        plain
    } else {
        let mut s = String::new();
        s.push('0');
        s.append(plain.as_str());
        proof {
            assert(s@ =~= spec_decimal2(n as nat));
        }
        s
    }
}

/// One unpadded "title(NN) = hex" diagnostics line: the title, the byte
/// count two digits wide or more, and the bytes in lowercase hex.
pub open spec fn spec_hex_line(title: Seq<char>, bytes: Seq<u8>) -> Seq<char> {
    title + seq!['('] + spec_decimal2(bytes.len()) + seq![')'] + seq![' ', '=', ' ']
        + spec_to_hex(bytes) + seq!['\n']
}

/// One padded "title(NN) = hex" diagnostics line: the title and byte count
/// padded to width w, then the bytes in lowercase hex.
pub open spec fn spec_hex_line_padded(title: Seq<char>, bytes: Seq<u8>, w: nat) -> Seq<char> {
    pad_to_width_of(title + seq!['('] + spec_decimal2(bytes.len()) + seq![')'], w) + seq![
        ' ',
        '=',
        ' ',
    ] + spec_to_hex(bytes) + seq!['\n']
}

/// One padded "title = value" diagnostics line.
pub open spec fn spec_value_line(title: Seq<char>, val: Seq<char>, w: nat) -> Seq<char> {
    pad_to_width_of(title, w) + seq![' ', '=', ' '] + val + seq!['\n']
}

/// Accumulates diagnostic lines, padding titles to a fixed width.
pub struct StrBuf {
    buf: String,
    pad: usize,
}

impl StrBuf {
    /// What the buffer holds.
    pub closed spec fn spec_buf(&self) -> Seq<char> {
        self.buf@
    }

    /// The width titles are padded to.
    pub closed spec fn spec_pad(&self) -> nat {
        self.pad as nat
    }

    /// An empty buffer whose titles pad to the given width.
    pub fn new(pad_to_width: usize) -> (r: Self)
        ensures
            r.spec_buf() == Seq::<char>::empty(),
            r.spec_pad() == pad_to_width as nat,
    {
        Self { buf: String::new(), pad: pad_to_width }
    }

    /// Appends the text as it is.
    pub fn add(&mut self, val: &str)
        ensures
            final(self).spec_buf() == old(self).spec_buf() + val@,
            final(self).spec_pad() == old(self).spec_pad(),
    {
        self.buf.append(val);
    }

    /// Appends the text and a newline.
    pub fn addln(&mut self, val: &str)
        ensures
            final(self).spec_buf() == old(self).spec_buf() + val@ + seq!['\n'],
            final(self).spec_pad() == old(self).spec_pad(),
    {
        self.buf.append(val);
        let mut nl = String::new();
        nl.push('\n');
        self.buf.append(nl.as_str());
    }

    /// Appends a title line (the title and a newline).
    pub fn appent(&mut self, title: &str)
        ensures
            final(self).spec_buf() == old(self).spec_buf() + title@ + seq!['\n'],
            final(self).spec_pad() == old(self).spec_pad(),
    {
        self.addln(title);
    }

    /// Appends "title = value" as one line, the title padded to the
    /// configured width; how the value renders is up to its Display
    /// implementation.
    pub fn append<T: core::fmt::Display>(&mut self, title: &str, val: &T)
        ensures
            exists|rendered: Seq<char>|
                final(self).spec_buf() == old(self).spec_buf() + pad_to_width_of(
                    title@,
                    old(self).spec_pad(),
                ) + seq![' ', '=', ' '] + rendered + seq!['\n'],
            final(self).spec_pad() == old(self).spec_pad(),
    {
        let padded = pad_to_width(title, self.pad);
        let rendered = val.to_string();
        self.buf.append(padded.as_str());
        let mut sep = String::new();
        sep.push(' ');
        sep.push('=');
        sep.push(' ');
        self.buf.append(sep.as_str());
        self.buf.append(rendered.as_str());
        let mut nl = String::new();
        nl.push('\n');
        self.buf.append(nl.as_str());
        proof {
            assert(final(self).spec_buf() == old(self).spec_buf() + pad_to_width_of(
                title@,
                old(self).spec_pad(),
            ) + seq![' ', '=', ' '] + rendered@ + seq!['\n']) by {
                assert(final(self).spec_buf() =~= old(self).spec_buf() + pad_to_width_of(
                    title@,
                    old(self).spec_pad(),
                ) + seq![' ', '=', ' '] + rendered@ + seq!['\n']);
            }
        }
    }

    /// Appends "title = value" as one line, the title padded to the
    /// configured width.
    pub fn append_str(&mut self, title: &str, val: &str)
        ensures
            final(self).spec_buf() == old(self).spec_buf() + spec_value_line(
                title@,
                val@,
                old(self).spec_pad(),
            ),
            final(self).spec_pad() == old(self).spec_pad(),
    {
        let padded = pad_to_width(title, self.pad);
        self.buf.append(padded.as_str());
        let mut sep = String::new();
        sep.push(' ');
        sep.push('=');
        sep.push(' ');
        self.buf.append(sep.as_str());
        self.buf.append(val);
        let mut nl = String::new();
        nl.push('\n');
        self.buf.append(nl.as_str());
        proof {
            assert(final(self).spec_buf() =~= old(self).spec_buf() + spec_value_line(
                title@,
                val@,
                old(self).spec_pad(),
            ));
        }
    }

    /// Appends "title(NN) = hex" as one line: the title and the byte count
    /// (two digits or more), padded, then the bytes in lowercase hex.
    pub fn appenh(&mut self, title: &str, bytes: &[u8])
        ensures
            final(self).spec_buf() == old(self).spec_buf() + pad_to_width_of(
                title@ + seq!['('] + spec_decimal2(bytes@.len()) + seq![')'],
                old(self).spec_pad(),
            ) + seq![' ', '=', ' '] + spec_to_hex(bytes@) + seq!['\n'],
            old(self).spec_pad() == 0 ==> final(self).spec_buf() == old(self).spec_buf() + title@
                + seq!['('] + spec_decimal2(bytes@.len()) + seq![')'] + seq![' ', '=', ' ']
                + spec_to_hex(bytes@) + seq!['\n'],
            final(self).spec_pad() == old(self).spec_pad(),
    {
        let mut title2 = title.to_owned();
        title2.push('(');
        let count = format_decimal2(bytes.len());
        title2.append(count.as_str());
        title2.push(')');
        proof {
            assert(title2@ =~= title@ + seq!['('] + spec_decimal2(bytes@.len()) + seq![')']);
        }
        let padded = pad_to_width(title2.as_str(), self.pad);
        self.buf.append(padded.as_str());
        let mut sep = String::new();
        sep.push(' ');
        sep.push('=');
        sep.push(' ');
        self.buf.append(sep.as_str());
        let hex = to_hex_str(bytes);
        self.buf.append(hex.as_str());
        let mut nl = String::new();
        nl.push('\n');
        self.buf.append(nl.as_str());
        proof {
            assert(final(self).spec_buf() =~= old(self).spec_buf() + pad_to_width_of(
                title@ + seq!['('] + spec_decimal2(bytes@.len()) + seq![')'],
                old(self).spec_pad(),
            ) + seq![' ', '=', ' '] + spec_to_hex(bytes@) + seq!['\n']);
        }
    }

    /// One "title(NN) = hex" line as a String: what a fresh unpadded
    /// buffer holds after `appenh`.
    pub fn bufh(title: &str, bytes: &[u8]) -> (r: String)
        ensures
            r@ == title@ + seq!['('] + spec_decimal2(bytes@.len()) + seq![')'] + seq![
                ' ',
                '=',
                ' ',
            ] + spec_to_hex(bytes@) + seq!['\n'],
    {
        let mut strbuf = Self::new(0);
        strbuf.appenh(title, bytes);
        let r = strbuf.build().to_owned();
        proof {
            assert(r@ =~= title@ + seq!['('] + spec_decimal2(bytes@.len()) + seq![')'] + seq![
                ' ',
                '=',
                ' ',
            ] + spec_to_hex(bytes@) + seq!['\n']);
        }
        r
    }

    /// The accumulated text.
    pub fn build(&self) -> (r: &str)
        ensures
            r@ == self.spec_buf(),
    {
        self.buf.as_str()
    }
}

} // verus!
