//! Text renderings of the identity types.
//!
//! Ids render as `#` plus a zero-padded decimal; tags render as their
//! eight packed bytes when printable and as sixteen hexadecimal digits
//! otherwise; labels render as forty hexadecimal digits.  Invalid values
//! render as `#invalid`.

use vstd::prelude::*;
use crate::id::{spec_le_bytes, Id, Label, Tag};

verus! {

/// Relies on String::push: appends exactly the given character to the
/// end of the string.
pub assume_specification[ String::push ](s: &mut String, ch: char)
    ensures
        final(s)@ == old(s)@.push(ch),
;

/// The decimal digit character for `d`.
pub open spec fn dec_digit(d: int) -> char
    recommends
        0 <= d < 10,
{
    ((48 + d) as u8) as char
}

/// The decimal rendering of `n`, most significant digit first.
pub open spec fn spec_dec(n: int) -> Seq<char>
    recommends
        n >= 0,
    decreases n,
{
    if n < 10 {
        seq![dec_digit(n)]
    } else {
        spec_dec(n / 10).push(dec_digit(n % 10))
    }
}

/// The decimal rendering of `n`, left-padded with zeroes to `w` digits.
pub open spec fn spec_dec_padded(n: int, w: int) -> Seq<char> {
    if spec_dec(n).len() >= w {
        spec_dec(n)
    } else {
        Seq::new((w - spec_dec(n).len()) as nat, |i: int| '0') + spec_dec(n)
    }
}

/// The lower-case hexadecimal digit character for `d`.
pub open spec fn hex_digit(d: int) -> char
    recommends
        0 <= d < 16,
{
    if d < 10 {
        ((48 + d) as u8) as char
    } else {
        ((87 + d) as u8) as char
    }
}

/// The `width` least significant hexadecimal digits of `n`, most
/// significant first.
pub open spec fn spec_hex(n: int, width: int) -> Seq<char>
    recommends
        n >= 0,
    decreases width,
{
    if width <= 0 {
        Seq::empty()
    } else {
        spec_hex(n / 16, width - 1).push(hex_digit(n % 16))
    }
}

/// The rendering of an invalid identity value.
pub open spec fn spec_invalid_text() -> Seq<char> {
    seq!['#', 'i', 'n', 'v', 'a', 'l', 'i', 'd']
}

/// Whether every packed byte of the tag value is printable.
pub open spec fn spec_tag_printable(v: u64) -> bool {
    forall|i: int| 0 <= i < 8 ==> 32 <= #[trigger] spec_le_bytes(v)[i] <= 127
}

/// The eight packed bytes of a tag value, as characters.
pub open spec fn spec_tag_chars(v: u64) -> Seq<char> {
    Seq::new(8, |i: int| spec_le_bytes(v)[i] as char)
}

/// The display rendering of a tag: its packed text when printable,
/// sixteen hexadecimal digits otherwise.
pub open spec fn spec_tag_text(t: Tag) -> Seq<char> {
    if t@ == u64::MAX {
        spec_invalid_text()
    } else if spec_tag_printable(t@) {
        seq!['#'] + spec_tag_chars(t@)
    } else {
        seq!['#'] + spec_hex(t@ as int, 16)
    }
}

/// The debug rendering of a tag: packed text and hexadecimal digits when
/// printable, hexadecimal digits alone otherwise.
pub open spec fn spec_tag_debug_text(t: Tag) -> Seq<char> {
    if t@ == u64::MAX {
        spec_invalid_text()
    } else if spec_tag_printable(t@) {
        seq!['#'] + spec_tag_chars(t@) + seq![' '] + spec_hex(t@ as int, 16)
    } else {
        seq!['#'] + spec_hex(t@ as int, 16)
    }
}

/// The rendering of an id: `#` plus its index, zero-padded to three
/// digits.
pub open spec fn spec_id_text(id: Id) -> Seq<char> {
    if id.spec_is_valid() {
        seq!['#'] + spec_dec_padded(id.spec_index() as int, 3)
    } else {
        spec_invalid_text()
    }
}

/// The rendering of a label: `#` plus its five words as eight
/// hexadecimal digits each.
pub open spec fn spec_label_text(l: Label) -> Seq<char> {
    if l.spec_is_valid() {
        seq!['#'] + spec_hex(l@[0] as int, 8) + spec_hex(l@[1] as int, 8) + spec_hex(
            l@[2] as int,
            8,
        ) + spec_hex(l@[3] as int, 8) + spec_hex(l@[4] as int, 8)
    } else {
        spec_invalid_text()
    }
}

/// The decimal rendering has one digit per power of ten: one digit below
/// ten, two below one hundred, at least three from one hundred on.
pub proof fn lemma_dec_len(n: int)
    requires
        n >= 0,
    ensures
        spec_dec(n).len() >= 1,
        n >= 10 ==> spec_dec(n).len() >= 2,
        n >= 100 ==> spec_dec(n).len() >= 3,
        n < 10 ==> spec_dec(n).len() == 1,
        n < 100 ==> spec_dec(n).len() <= 2,
    decreases n,
{
    if n >= 10 {
        lemma_dec_len(n / 10);
    }
}

/// Append the decimal rendering of `n`.
fn push_dec(out: &mut String, n: usize)
    ensures
        final(out)@ == old(out)@ + spec_dec(n as int),
    decreases n,
{
    if n >= 10 {
        push_dec(out, n / 10);
    }
    let d: u8 = (n % 10) as u8;
    out.push((48 + d) as char);
    proof {
        assert(final(out)@ =~= old(out)@ + spec_dec(n as int));
    }
}

/// Append the `width` least significant hexadecimal digits of `v`.
fn push_hex64(out: &mut String, v: u64, width: usize)
    ensures
        final(out)@ == old(out)@ + spec_hex(v as int, width as int),
    decreases width,
{
    if width == 0 {
        proof {
            assert(final(out)@ =~= old(out)@ + spec_hex(v as int, 0));
        }
        return ;
    }
    push_hex64(out, v / 16, width - 1);
    let d: u8 = (v % 16) as u8;
    let c: char = if d < 10 {
        (48 + d) as char
    } else {
        (87 + d) as char
    };
    out.push(c);
    proof {
        assert(final(out)@ =~= old(out)@ + spec_hex(v as int, width as int));
    }
}

/// The rendering of an invalid identity value.
fn invalid_text() -> (r: String)
    ensures
        r@ == spec_invalid_text(),
{
    let r = String::from_str("#invalid");
    proof {
        reveal_strlit("#invalid");
        assert(r@ =~= spec_invalid_text());
    }
    r
}

impl Id {
    /// Render the id as text: `#` plus its index, zero-padded to three
    /// digits, or `#invalid`.
    pub fn to_text(&self) -> (r: String)
        ensures
            r@ == spec_id_text(*self),
    {
        if !self.is_valid() {
            return invalid_text();
        }
        let n = self.index();
        let mut out = String::from_str("#");
        proof {
            reveal_strlit("#");
            lemma_dec_len(n as int);
        }
        if n < 100 {
            out.push('0');
        }
        if n < 10 {
            out.push('0');
        }
        push_dec(&mut out, n);
        proof {
            assert(out@ =~= spec_id_text(*self));
        }
        out
    }
}

impl Tag {
    /// Render the tag for display: its packed text when printable,
    /// sixteen hexadecimal digits otherwise, or `#invalid`.
    pub fn to_text(&self) -> (r: String)
        ensures
            r@ == spec_tag_text(*self),
    {
        if !self.is_valid() {
            return invalid_text();
        }
        let mut out = String::from_str("#");
        proof {
            reveal_strlit("#");
        }
        if self.push_packed_text(&mut out) {
            proof {
                assert(out@ =~= spec_tag_text(*self));
            }
            out
        } else {
            push_hex64(&mut out, self.value(), 16);
            proof {
                assert(out@ =~= spec_tag_text(*self));
            }
            out
        }
    }

    /// Render the tag for debugging: packed text plus hexadecimal
    /// digits when printable, hexadecimal digits alone otherwise, or
    /// `#invalid`.
    pub fn to_debug_text(&self) -> (r: String)
        ensures
            r@ == spec_tag_debug_text(*self),
    {
        if !self.is_valid() {
            return invalid_text();
        }
        let mut out = String::from_str("#");
        proof {
            reveal_strlit("#");
        }
        if self.push_packed_text(&mut out) {
            out.push(' ');
            push_hex64(&mut out, self.value(), 16);
            proof {
                assert(out@ =~= spec_tag_debug_text(*self));
            }
            out
        } else {
            push_hex64(&mut out, self.value(), 16);
            proof {
                assert(out@ =~= spec_tag_debug_text(*self));
            }
            out
        }
    }

    /// Append the tag's packed bytes as characters if all of them are
    /// printable; report whether they were.
    fn push_packed_text(&self, out: &mut String) -> (printable: bool)
        ensures
            printable == spec_tag_printable(self@),
            printable ==> final(out)@ == old(out)@ + spec_tag_chars(self@),
            !printable ==> final(out)@ == old(out)@,
    {
        let v = self.value();
        let mut i: usize = 0;
        let mut all_printable = true;
        while i < 8
            invariant
                i <= 8,
                v == self@,
                all_printable == forall|j: int|
                    0 <= j < i ==> 32 <= #[trigger] spec_le_bytes(v)[j] <= 127,
            decreases 8 - i,
        {
            let b: u8 = ((v >> ((i as u64) * 8)) & 0xff) as u8;
            proof {
                assert(b == spec_le_bytes(v)[i as int]);
            }
            if b < 32 || b > 127 {
                all_printable = false;
            }
            i = i + 1;
        }
        if !all_printable {
            return false;
        }
        let mut i: usize = 0;
        while i < 8
            invariant
                i <= 8,
                v == self@,
                out@ == old(out)@ + spec_tag_chars(v).take(i as int),
            decreases 8 - i,
        {
            let b: u8 = ((v >> ((i as u64) * 8)) & 0xff) as u8;
            proof {
                assert(b == spec_le_bytes(v)[i as int]);
            }
            out.push(b as char);
            proof {
                assert(out@ =~= old(out)@ + spec_tag_chars(v).take(i + 1));
            }
            i = i + 1;
        }
        proof {
            assert(spec_tag_chars(v).take(8) =~= spec_tag_chars(v));
        }
        true
    }
}

impl Label {
    /// Render the label as text: `#` plus forty hexadecimal digits, or
    /// `#invalid`.
    pub fn to_text(&self) -> (r: String)
        ensures
            r@ == spec_label_text(*self),
    {
        if !self.is_valid() {
            return invalid_text();
        }
        let words = self.value();
        let mut out = String::from_str("#");
        proof {
            reveal_strlit("#");
        }
        push_hex64(&mut out, words[0] as u64, 8);
        push_hex64(&mut out, words[1] as u64, 8);
        push_hex64(&mut out, words[2] as u64, 8);
        push_hex64(&mut out, words[3] as u64, 8);
        push_hex64(&mut out, words[4] as u64, 8);
        proof {
            assert(out@ =~= spec_label_text(*self));
        }
        out
    }
}

} // verus!
