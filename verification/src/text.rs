//! The few operations on text that the rules of the library are stated in.

use vstd::prelude::*;
use vstd::std_specs::iter::IteratorSpec;
use vstd::string::StringExecFns;

verus! {

/// The characters that count as white space: the control characters from
/// tab to carriage return, the space, next line, the no-break space, the
/// ogham space mark, the spaces from en quad to hair space, the line and
/// paragraph separators, the narrow no-break space, the medium mathematical
/// space and the ideographic space.
pub open spec fn white_space(c: char) -> bool {
    let u = c as u32;
    ||| 0x09 <= u <= 0x0d
    ||| u == 0x20
    ||| u == 0x85
    ||| u == 0xa0
    ||| u == 0x1680
    ||| 0x2000 <= u <= 0x200a
    ||| u == 0x2028
    ||| u == 0x2029
    ||| u == 0x202f
    ||| u == 0x205f
    ||| u == 0x3000
}

/// A text is blank when nothing but white space is in it; the empty text is
/// blank. Nothing is left of a blank text once white space is trimmed from
/// both ends, and something is left of every other text.
pub open spec fn blank(s: Seq<char>) -> bool {
    forall|i: int| 0 <= i < s.len() ==> white_space(#[trigger] s[i])
}

/// Whether `s` begins with `prefix`.
pub open spec fn has_prefix(s: Seq<char>, prefix: Seq<char>) -> bool {
    prefix.len() <= s.len() && s.subrange(0, prefix.len() as int) == prefix
}

/// The number of bytes that a text takes in its UTF-8 encoding.
pub open spec fn utf8_len(s: Seq<char>) -> nat {
    vstd::utf8::encode_utf8(s).len()
}

/// Two texts with one space between them.
pub open spec fn spaced(a: Seq<char>, b: Seq<char>) -> Seq<char> {
    a + seq![' '] + b
}

/// Whether `c` is one of the ten decimal digits.
pub open spec fn decimal_digit(c: char) -> bool {
    '0' <= c <= '9'
}

/// Whether `s` holds decimal digits only.
pub open spec fn all_decimal(s: Seq<char>) -> bool {
    forall|i: int| 0 <= i < s.len() ==> decimal_digit(#[trigger] s[i])
}

/// The number that the decimal digits of `s` write.
pub open spec fn decimal_value(s: Seq<char>) -> nat
    decreases s.len(),
{
    if s.len() == 0 {
        0
    } else {
        (10 * decimal_value(s.drop_last()) + (s.last() as u32 - '0' as u32)) as nat
    }
}

/// `s` without a plus sign at its head.
pub open spec fn unsigned_body(s: Seq<char>) -> Seq<char> {
    if s.len() > 0 && s[0] == '+' {
        s.subrange(1, s.len() as int)
    } else {
        s
    }
}

/// The number below 65536 that `s` writes in decimal digits, with or without
/// a plus sign before them; none where `s` is anything else.
pub open spec fn decimal_u16(s: Seq<char>) -> Option<u16> {
    let body = unsigned_body(s);
    if body.len() > 0 && all_decimal(body) && decimal_value(body) <= u16::MAX {
        Some(decimal_value(body) as u16)
    } else {
        None
    }
}

/// The digits of a longer text write no smaller a number than those of its
/// head.
pub proof fn lemma_decimal_value_grows(s: Seq<char>, k: int)
    requires
        all_decimal(s),
        0 <= k <= s.len(),
    ensures
        decimal_value(s.subrange(0, k)) <= decimal_value(s),
    decreases s.len(),
{
    if k == s.len() {
        assert(s.subrange(0, k) == s);
    } else {
        assert(s.drop_last().subrange(0, k) == s.subrange(0, k));
        assert(all_decimal(s.drop_last()));
        lemma_decimal_value_grows(s.drop_last(), k);
        assert(decimal_digit(s.last()));
    }
}

/// Reads a number below 65536 from its decimal digits.
pub fn parse_u16(s: &str) -> (parsed: Option<u16>)
    ensures
        parsed == decimal_u16(s@),
{
    broadcast use vstd::string::group_string_axioms;

    let ghost body = unsigned_body(s@);
    let ghost skipped: int = s@.len() - body.len();
    let mut chars = s.chars();
    let mut value: u32 = 0;
    let mut first = true;
    let mut any_digit = false;
    let ghost mut seen: int = 0;
    loop
        invariant
            0 <= seen <= s@.len(),
            chars.remaining() == s@.subrange(seen, s@.len() as int),
            body == unsigned_body(s@),
            skipped == s@.len() - body.len(),
            first <==> seen == 0,
            any_digit <==> seen > skipped,
            seen == 0 ==> value == 0,
            seen >= skipped || seen == 0,
            seen > 0 ==> all_decimal(body.subrange(0, seen - skipped)),
            seen > 0 ==> value == decimal_value(body.subrange(0, seen - skipped)),
            value <= u16::MAX,
        decreases s@.len() - seen,
    {
        match chars.next() {
            None => {
                assert(seen == s@.len());
                if !any_digit {
                    assert(body.len() == 0);
                    return None;
                }
                assert(body.subrange(0, seen - skipped) == body);
                return Some(value as u16);
            },
            Some(c) => {
                assert(c == s@[seen]);
                if first && c == '+' {
                    first = false;
                    proof {
                        seen = seen + 1;
                        assert(body.subrange(0, 0) == Seq::<char>::empty());
                    }
                } else {
                    let ghost at: int = seen - skipped;
                    assert(body[at] == c);
                    if !('0' <= c && c <= '9') {
                        assert(!all_decimal(body));
                        return None;
                    }
                    let digit: u32 = c as u32 - '0' as u32;
                    let ghost head = body.subrange(0, at + 1);
                    assert(head.drop_last() == body.subrange(0, at));
                    assert(head.last() == c);
                    assert(body.subrange(0, 0) == Seq::<char>::empty());
                    assert(all_decimal(head));
                    assert(value == decimal_value(body.subrange(0, at))) by {
                        if seen == 0 {
                            assert(body.subrange(0, 0) == Seq::<char>::empty());
                        }
                    }
                    value = value * 10 + digit;
                    assert(value == decimal_value(head));
                    if value > 65535 {
                        proof {
                            if all_decimal(body) {
                                lemma_decimal_value_grows(body, at + 1);
                            }
                        }
                        return None;
                    }
                    first = false;
                    any_digit = true;
                    proof {
                        seen = seen + 1;
                    }
                }
            },
        }
    }
}

/// Whether `c` is white space.
pub fn is_white_space(c: char) -> (b: bool)
    ensures
        b == white_space(c),
{
    let u: u32 = c as u32;
    (0x09 <= u && u <= 0x0d) || u == 0x20 || u == 0x85 || u == 0xa0 || u == 0x1680 || (0x2000 <= u
        && u <= 0x200a) || u == 0x2028 || u == 0x2029 || u == 0x202f || u == 0x205f || u == 0x3000
}

/// Whether `s` is blank.
pub fn is_blank(s: &str) -> (b: bool)
    ensures
        b == blank(s@),
{
    broadcast use vstd::string::group_string_axioms;

    let mut chars = s.chars();
    let ghost mut seen: int = 0;
    loop
        invariant
            0 <= seen <= s@.len(),
            chars.remaining() == s@.subrange(seen, s@.len() as int),
            forall|i: int| 0 <= i < seen ==> white_space(#[trigger] s@[i]),
        decreases s@.len() - seen,
    {
        match chars.next() {
            Some(c) => {
                assert(c == s@[seen]);
                if !is_white_space(c) {
                    return false;
                }
                proof {
                    seen = seen + 1;
                }
            },
            None => {
                assert(seen == s@.len());
                return true;
            },
        }
    }
}

/// Whether `s` begins with `prefix`.
pub fn starts_with(s: &str, prefix: &str) -> (b: bool)
    ensures
        b == has_prefix(s@, prefix@),
{
    broadcast use vstd::string::group_string_axioms;

    let mut rest = s.chars();
    let mut wanted = prefix.chars();
    let ghost mut seen: int = 0;
    loop
        invariant
            0 <= seen <= s@.len(),
            seen <= prefix@.len(),
            rest.remaining() == s@.subrange(seen, s@.len() as int),
            wanted.remaining() == prefix@.subrange(seen, prefix@.len() as int),
            s@.subrange(0, seen) == prefix@.subrange(0, seen),
        decreases prefix@.len() - seen,
    {
        match wanted.next() {
            None => {
                assert(seen == prefix@.len());
                assert(prefix@.subrange(0, seen) == prefix@);
                return true;
            },
            Some(w) => {
                assert(w == prefix@[seen]);
                match rest.next() {
                    None => {
                        assert(seen == s@.len());
                        return false;
                    },
                    Some(c) => {
                        assert(c == s@[seen]);
                        if c != w {
                            assert(!has_prefix(s@, prefix@)) by {
                                if prefix@.len() <= s@.len() {
                                    assert(s@.subrange(0, prefix@.len() as int)[seen] == s@[seen]);
                                }
                            }
                            return false;
                        }
                        assert(s@.subrange(0, seen + 1) == prefix@.subrange(0, seen + 1)) by {
                            assert(s@.subrange(0, seen + 1) == s@.subrange(0, seen).push(s@[seen]));
                            assert(prefix@.subrange(0, seen + 1) == prefix@.subrange(0, seen).push(
                                prefix@[seen],
                            ));
                        }
                        proof {
                            seen = seen + 1;
                        }
                    },
                }
            },
        }
    }
}

/// Whether the two texts are the same.
pub fn same_text(a: &str, b: &str) -> (same: bool)
    ensures
        same == (a@ == b@),
{
    let left = a.to_owned();
    let right = b.to_owned();
    left == right
}

/// `a` followed by `b`.
pub fn followed(a: &str, b: &str) -> (joined: String)
    ensures
        joined@ == a@ + b@,
{
    let mut joined = a.to_owned();
    joined.append(b);
    joined
}

/// `a`, a space, and `b`.
pub fn join_with_space(a: &str, b: &str) -> (joined: String)
    ensures
        joined@ == spaced(a@, b@),
{
    let mut joined = a.to_owned();
    joined.append(" ");
    joined.append(b);
    proof {
        reveal_strlit(" ");
        assert(" "@ == seq![' ']);
    }
    joined
}

} // verus!
