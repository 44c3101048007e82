//! Text helpers: line breaks, decimal numbers, lower-case hex.
use vstd::prelude::*;

verus! {

/// `String::push`: appends one character.
/// Trusted: std documents that `push` appends the character to the end of the string.
#[verifier::external_body]
pub(crate) fn push_char(s: &mut String, c: char)
    ensures
        final(s)@ == old(s)@.push(c),
{
    s.push(c);
}

/// `text` with every line feed replaced by the HTML line break `<br>`.
pub open spec fn br_lines(text: Seq<char>) -> Seq<char>
    decreases text.len(),
{
    if text.len() == 0 {
        Seq::empty()
    } else {
        br_lines(text.drop_last()) + (if text.last() == '\n' {
            seq!['<', 'b', 'r', '>']
        } else {
            seq![text.last()]
        })
    }
}

/// Replaces each `\n` of `text` by `<br>`, as `str::replace("\n", "<br>")` does.
pub fn replace_newlines(text: &str) -> (r: String)
    ensures
        r@ == br_lines(text@),
{
    let mut r = String::new();
    for c in it: text.chars()
        invariant
            it.seq() == text@,
            r@ == br_lines(text@.take(it.index() as int)),
    {
        proof {
            assert(text@.take(it.index() + 1).drop_last() == text@.take(it.index() as int));
        }
        if c == '\n' {
            r.append("<br>");
            proof { reveal_strlit("<br>"); }
        } else {
            push_char(&mut r, c);
        }
    }
    assert(text@.take(text@.len() as int) == text@);
    r
}

/// The decimal digit character for `d < 10`.
pub open spec fn digit_char(d: nat) -> char {
    (48 + d) as char
}

/// The decimal representation of `n`, without sign or leading zeros.
pub open spec fn decimal(n: nat) -> Seq<char>
    decreases n,
{
    if n < 10 {
        seq![digit_char(n)]
    } else {
        decimal(n / 10) + seq![digit_char(n % 10)]
    }
}

fn digit(d: u64) -> (c: char)
    requires
        d < 10,
    ensures
        c == digit_char(d as nat),
{
    (48u8 + d as u8) as char
}

/// The decimal string of `n`, as `n.to_string()` writes it.
pub fn decimal_string(n: u64) -> (r: String)
    ensures
        r@ == decimal(n as nat),
    decreases n,
{
    if n < 10 {
        let mut s = String::new();
        push_char(&mut s, digit(n));
        s
    } else {
        let mut s = decimal_string(n / 10);
        push_char(&mut s, digit(n % 10));
        s
    }
}

/// Line breaks distribute over concatenation: `br_lines(a + b)` is
/// `br_lines(a) + br_lines(b)`.
pub proof fn lemma_br_lines_append(a: Seq<char>, b: Seq<char>)
    ensures
        br_lines(a + b) == br_lines(a) + br_lines(b),
    decreases b.len(),
{
    if b.len() == 0 {
        assert(a + b =~= a);
        assert(br_lines(a) + br_lines(b) =~= br_lines(a));
    } else {
        assert((a + b).drop_last() =~= a + b.drop_last());
        lemma_br_lines_append(a, b.drop_last());
        assert(br_lines(a + b) =~= br_lines(a) + br_lines(b));
    }
}

/// After line feeds are turned into line breaks, no line feed is left.
pub proof fn lemma_br_lines_no_line_feed(text: Seq<char>)
    ensures
        forall|i: int| 0 <= i < br_lines(text).len() ==> br_lines(text)[i] != '\n',
    decreases text.len(),
{
    if text.len() > 0 {
        lemma_br_lines_no_line_feed(text.drop_last());
        let head = br_lines(text.drop_last());
        let tail: Seq<char> = if text.last() == '\n' {
            seq!['<', 'b', 'r', '>']
        } else {
            seq![text.last()]
        };
        assert forall|i: int| 0 <= i < br_lines(text).len() implies br_lines(text)[i] != '\n' by {
            if i >= head.len() {
                assert(br_lines(text)[i] == tail[i - head.len()]);
            } else {
                assert(br_lines(text)[i] == head[i]);
            }
        }
    }
}

/// A text without line feeds is left as it is.
pub proof fn lemma_br_lines_plain(text: Seq<char>)
    requires
        forall|i: int| 0 <= i < text.len() ==> text[i] != '\n',
    ensures
        br_lines(text) == text,
    decreases text.len(),
{
    if text.len() > 0 {
        lemma_br_lines_plain(text.drop_last());
        assert(text.drop_last().push(text.last()) =~= text);
    }
}

proof fn lemma_decimal_len(n: nat)
    ensures
        decimal(n).len() >= 1,
        n >= 10 ==> decimal(n).len() >= 2,
    decreases n,
{
    if n >= 10 {
        lemma_decimal_len(n / 10);
    }
}

/// Different numbers have different decimal strings.
pub proof fn lemma_decimal_injective(n: nat, m: nat)
    requires
        decimal(n) == decimal(m),
    ensures
        n == m,
    decreases n,
{
    lemma_decimal_len(n);
    lemma_decimal_len(m);
    if n >= 10 && m >= 10 {
        assert(decimal(n).last() == digit_char(n % 10));
        assert(decimal(m).last() == digit_char(m % 10));
        assert(decimal(n).drop_last() =~= decimal(n / 10));
        assert(decimal(m).drop_last() =~= decimal(m / 10));
        lemma_decimal_injective(n / 10, m / 10);
    } else if n < 10 && m < 10 {
        assert(decimal(n)[0] == digit_char(n));
        assert(decimal(m)[0] == digit_char(m));
    }
}

/// The lower-case hexadecimal digit for `d < 16`.
pub open spec fn hex_digit(d: int) -> char {
    seq!['0', '1', '2', '3', '4', '5', '6', '7', '8', '9', 'a', 'b', 'c', 'd', 'e', 'f'][d]
}

/// Lower-case hex of a byte string: two digits per byte, high nibble first.
pub open spec fn hex_lower(bytes: Seq<u8>) -> Seq<char> {
    Seq::new(
        2 * bytes.len(),
        |i: int|
            if i % 2 == 0 {
                hex_digit(bytes[i / 2] as int / 16)
            } else {
                hex_digit(bytes[i / 2] as int % 16)
            },
    )
}

/// `hex::encode`: the lower-case hex string of a byte slice.
/// Trusted: its result is `hex_lower` of the bytes, as the crate's table
/// `0123456789abcdef`, indexed by high then low nibble of each byte, shows.
#[verifier::external_body]
pub(crate) fn hex_encode(bytes: &[u8]) -> (s: String)
    ensures
        s@ == hex_lower(bytes@),
{
    hex::encode(bytes)
}

} // verus!
