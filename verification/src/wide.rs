//! Rust strings as Windows wide strings: NUL-terminated UTF-16.

use vstd::prelude::*;

verus! {

/// The code units that UTF-16 gives one character: the character itself
/// below 0x10000, else a high surrogate then a low surrogate.
pub open spec fn utf16_of_char(c: char) -> Seq<u16> {
    let v = c as int;
    if v < 0x10000 {
        seq![v as u16]
    } else {
        seq![
            (0xD800 + (v - 0x10000) / 0x400) as u16,
            (0xDC00 + (v - 0x10000) % 0x400) as u16,
        ]
    }
}

/// The UTF-16 encoding of a sequence of characters.
pub open spec fn utf16_of(s: Seq<char>) -> Seq<u16>
    decreases s.len(),
{
    if s.len() == 0 {
        seq![]
    } else {
        utf16_of(s.drop_last()) + utf16_of_char(s.last())
    }
}

/// The Unicode scalar value of `c`: at most 0x10FFFF and never a surrogate.
fn scalar_value(c: char) -> (r: u32)
    ensures
        r == c as int,
        r <= 0x10FFFF,
        !(0xD800 <= r <= 0xDFFF),
{
    c as u32
}

/// Converts a Rust string to a Windows wide string: its UTF-16 code units
/// followed by a terminating NUL, ready to be handed to a `W` function through
/// `as_ptr()`.
pub fn to_wstr(s: &str) -> (r: Vec<u16>)
    ensures
        r@ == utf16_of(s@).push(0u16),
{
    let mut out: Vec<u16> = Vec::new();
    for c in it: s.chars()
        invariant
            it.seq() == s@,
            out@ == utf16_of(s@.take(it.index() as int)),
    {
        let ghost i = it.index() as int;
        let ghost prev = out@;
        let v: u32 = scalar_value(c);
        assert(c == s@[i]);
        if v < 0x10000 {
            out.push(v as u16);
        } else {
            let w: u32 = v - 0x10000;
            out.push((0xD800 + w / 0x400) as u16);
            out.push((0xDC00 + w % 0x400) as u16);
        }
        proof {
            assert(out@ == prev + utf16_of_char(c));
            assert(s@.take(i + 1).drop_last() == s@.take(i));
            assert(s@.take(i + 1).last() == c);
        }
    }
    assert(s@.take(s@.len() as int) == s@);
    out.push(0u16);
    out
}

/// The characters that UTF-16 code units stand for, read one unit or one
/// surrogate pair at a time; a surrogate without its partner reads as U+FFFD,
/// the replacement character.
pub open spec fn chars_of_utf16(u: Seq<u16>) -> Seq<char>
    decreases u.len(),
{
    if u.len() == 0 {
        seq![]
    } else if u.len() >= 2 && 0xD800 <= u[0] < 0xDC00 && 0xDC00 <= u[1] < 0xE000 {
        seq![(0x10000 + (u[0] - 0xD800) * 0x400 + (u[1] - 0xDC00)) as char]
            + chars_of_utf16(u.subrange(2, u.len() as int))
    } else if 0xD800 <= u[0] < 0xE000 {
        seq!['\u{FFFD}'] + chars_of_utf16(u.subrange(1, u.len() as int))
    } else {
        seq![u[0] as char] + chars_of_utf16(u.subrange(1, u.len() as int))
    }
}

proof fn lemma_scalar_range(c: char)
    ensures
        0 <= c as int <= 0x10FFFF,
        !(0xD800 <= c as int <= 0xDFFF),
{
}

proof fn lemma_utf16_of_append(a: Seq<char>, b: Seq<char>)
    ensures
        utf16_of(a + b) == utf16_of(a) + utf16_of(b),
    decreases b.len(),
{
    if b.len() == 0 {
        assert(a + b == a);
    } else {
        lemma_utf16_of_append(a, b.drop_last());
        assert((a + b).drop_last() == a + b.drop_last());
        assert((a + b).last() == b.last());
    }
}

proof fn lemma_utf16_of_cons(c: char, s: Seq<char>)
    ensures
        utf16_of(seq![c] + s) == utf16_of_char(c) + utf16_of(s),
{
    lemma_utf16_of_append(seq![c], s);
    assert(seq![c].drop_last() == Seq::<char>::empty());
    assert(seq![c].last() == c);
    assert(utf16_of(Seq::<char>::empty()) == Seq::<u16>::empty());
    assert(Seq::<u16>::empty() + utf16_of_char(c) == utf16_of_char(c));
    assert(utf16_of(seq![c]) == utf16_of_char(c));
}

proof fn lemma_decode_char(c: char, rest: Seq<u16>)
    ensures
        chars_of_utf16(utf16_of_char(c) + rest) == seq![c] + chars_of_utf16(rest),
{
    let v = c as int;
    let u = utf16_of_char(c) + rest;
    assert(0 <= v <= 0x10FFFF && !(0xD800 <= v <= 0xDFFF));
    if v < 0x10000 {
        assert(u[0] as int == v);
        assert(u.subrange(1, u.len() as int) == rest);
        assert((u[0] as char) == c);
    } else {
        let q = (v - 0x10000) / 0x400;
        let r = (v - 0x10000) % 0x400;
        assert(0 <= q < 0x400);
        assert(u[0] as int == 0xD800 + q);
        assert(u[1] as int == 0xDC00 + r);
        assert(0x10000 + q * 0x400 + r == v);
        assert(u.subrange(2, u.len() as int) == rest);
        assert(((0x10000 + (u[0] - 0xD800) * 0x400 + (u[1] - 0xDC00)) as char) == c);
    }
}

proof fn lemma_decode_encode(s: Seq<char>)
    ensures
        chars_of_utf16(utf16_of(s)) == s,
    decreases s.len(),
{
    if s.len() == 0 {
    } else {
        let t = s.drop_first();
        assert(seq![s[0]] + t == s);
        lemma_utf16_of_cons(s[0], t);
        lemma_decode_char(s[0], utf16_of(t));
        lemma_decode_encode(t);
    }
}

proof fn lemma_utf16_of_bounds(s: Seq<char>)
    ensures
        s.len() <= utf16_of(s).len() <= 2 * s.len(),
        !s.contains('\0') ==> forall|j: int| 0 <= j < utf16_of(s).len() ==> utf16_of(s)[j] != 0,
    decreases s.len(),
{
    if s.len() > 0 {
        let t = s.drop_last();
        lemma_utf16_of_bounds(t);
        let c = s.last();
        if !s.contains('\0') {
            assert(!t.contains('\0')) by {
                if t.contains('\0') {
                    let k = choose|k: int| 0 <= k < t.len() && t[k] == '\0';
                    assert(s[k] == '\0');
                }
            }
            assert(s[s.len() - 1] == c);
            assert(c != '\0');
            assert(c as int != 0);
            let w = utf16_of(s);
            assert(w == utf16_of(t) + utf16_of_char(c));
            assert forall|j: int| 0 <= j < w.len() implies w[j] != 0 by {
                if j >= utf16_of(t).len() {
                    let k = j - utf16_of(t).len();
                    assert(w[j] == utf16_of_char(c)[k]);
                    let v = c as int;
                    lemma_scalar_range(c);
                    if v >= 0x10000 {
                        let q = (v - 0x10000) / 0x400;
                        assert(0 <= q < 0x400);
                        assert(utf16_of_char(c)[0] as int == 0xD800 + q);
                        assert(utf16_of_char(c)[1] as int == 0xDC00 + (v - 0x10000) % 0x400);
                    } else {
                        assert(utf16_of_char(c)[0] as int == v);
                    }
                } else {
                    assert(w[j] == utf16_of(t)[j]);
                }
            }
        }
    }
}

/// What `to_wstr` hands Windows is a proper wide string: it ends in NUL,
/// the units before the NUL decode back to the original characters, a string
/// without NUL characters has no NUL before the end, and each character takes
/// one or two units.
pub proof fn lemma_wide_string(s: Seq<char>)
    ensures
        utf16_of(s).push(0u16).last() == 0,
        chars_of_utf16(utf16_of(s).push(0u16).drop_last()) == s,
        !s.contains('\0') ==> forall|j: int|
            0 <= j < utf16_of(s).push(0u16).len() - 1 ==> utf16_of(s).push(0u16)[j] != 0,
        s.len() + 1 <= utf16_of(s).push(0u16).len() <= 2 * s.len() + 1,
{
    let w = utf16_of(s).push(0u16);
    assert(w.drop_last() == utf16_of(s));
    lemma_decode_encode(s);
    lemma_utf16_of_bounds(s);
}

/// UTF-16 as RFC 2781 defines it, one character at a time: a character below
/// 0x10000 is one unit of its own value; any other is a high surrogate
/// (0xD800 to 0xDBFF) followed by a low surrogate (0xDC00 to 0xDFFF) whose ten
/// bits each give back the character less 0x10000.
pub proof fn lemma_utf16_char_units(c: char)
    ensures
        (c as int) < 0x10000 ==> {
            &&& utf16_of_char(c).len() == 1
            &&& utf16_of_char(c)[0] as int == c as int
        },
        c as int >= 0x10000 ==> {
            &&& utf16_of_char(c).len() == 2
            &&& 0xD800 <= utf16_of_char(c)[0] < 0xDC00
            &&& 0xDC00 <= utf16_of_char(c)[1] < 0xE000
            &&& 0x10000 + (utf16_of_char(c)[0] - 0xD800) * 0x400 + (utf16_of_char(c)[1] - 0xDC00)
                == c as int
        },
{
    lemma_scalar_range(c);
    let v = c as int;
    if v >= 0x10000 {
        let q = (v - 0x10000) / 0x400;
        let r = (v - 0x10000) % 0x400;
        assert(0 <= q < 0x400);
        assert(utf16_of_char(c)[0] as int == 0xD800 + q);
        assert(utf16_of_char(c)[1] as int == 0xDC00 + r);
    }
}

/// A string's UTF-16 is the UTF-16 of its characters one after another: the
/// empty string gives no units, one character gives its own units, and two
/// strings joined give their encodings joined.
pub proof fn lemma_utf16_per_character(a: Seq<char>, b: Seq<char>, c: char)
    ensures
        utf16_of(Seq::<char>::empty()) == Seq::<u16>::empty(),
        utf16_of(seq![c]) == utf16_of_char(c),
        utf16_of(a + b) == utf16_of(a) + utf16_of(b),
{
    lemma_utf16_of_append(a, b);
    lemma_utf16_of_cons(c, Seq::<char>::empty());
    assert(seq![c] + Seq::<char>::empty() == seq![c]);
    assert(utf16_of_char(c) + Seq::<u16>::empty() == utf16_of_char(c));
}

} // verus!
