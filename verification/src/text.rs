//! Text that crosses the library boundary: NUL-terminated C strings,
//! UTF-8 decoding, and decimal rendering of status codes.

use vstd::prelude::*;
use vstd::string::*;
use vstd::utf8::*;

verus! {

/// No byte of `s` is the terminating NUL.
pub open spec fn nul_free(s: Seq<u8>) -> bool {
    forall|j: int| 0 <= j < s.len() ==> s[j] != 0
}

/// `i` is where the C string stored in `s` ends: the bytes before it are
/// not NUL, and it is either the first NUL or the end of `s`.
pub open spec fn is_text_end(s: Seq<u8>, i: int) -> bool {
    &&& 0 <= i <= s.len()
    &&& nul_free(s.take(i))
    &&& (i == s.len() || s[i] == 0)
}

/// The index of the first NUL byte of `s`, or its length when it holds none.
pub open spec fn first_nul(s: Seq<u8>) -> int {
    choose|i: int| is_text_end(s, i)
}

/// The bytes of the C string held at the start of `s`: those before its
/// first NUL (all of `s` when it holds no NUL).
pub open spec fn c_text(s: Seq<u8>) -> Seq<u8> {
    s.take(first_nul(s))
}

/// Some index ends the C string held in `s`, and `first_nul` names it.
pub proof fn lemma_first_nul(s: Seq<u8>)
    ensures
        is_text_end(s, first_nul(s)),
    decreases s.len(),
{
    if s.len() == 0 {
        assert(s.take(0) =~= Seq::<u8>::empty());
        assert(is_text_end(s, 0));
    } else {
        let t = s.drop_last();
        lemma_first_nul(t);
        let i = first_nul(t);
        if i < t.len() {
            assert(s.take(i) =~= t.take(i));
            assert(s[i] == t[i]);
            assert(is_text_end(s, i));
        } else if s[i] == 0 {
            assert(s.take(i) =~= t.take(i));
            assert(is_text_end(s, i));
        } else {
            assert(s.take(s.len() as int) =~= s);
            assert(nul_free(s)) by {
                assert forall|j: int| 0 <= j < s.len() implies s[j] != 0 by {
                    if j < i {
                        assert(t.take(i)[j] == s[j]);
                    }
                }
            }
            assert(is_text_end(s, s.len() as int));
        }
    }
}

/// Exactly one index ends the C string held in `s`.
pub proof fn lemma_text_end_unique(s: Seq<u8>, i: int)
    requires
        is_text_end(s, i),
    ensures
        first_nul(s) == i,
        c_text(s) == s.take(i),
{
    lemma_first_nul(s);
    let c = first_nul(s);
    if c < i {
        assert(s.take(i)[c] == s[c]);
    } else if i < c {
        assert(s.take(c)[i] == s[i]);
    }
}

/// A NUL inside the first `k + 1` bytes ends the text there already:
/// the C string of `s` is the C string of its first `k + 1` bytes.
pub proof fn lemma_c_text_of_prefix(s: Seq<u8>, k: int)
    requires
        0 <= k < s.len(),
        s[k] == 0,
    ensures
        c_text(s) == c_text(s.take(k + 1)),
{
    let t = s.take(k + 1);
    lemma_first_nul(t);
    let c = first_nul(t);
    assert(t[k] == 0);
    assert(c <= k) by {
        if c > k {
            assert(t.take(c)[k] == t[k]);
        }
    }
    assert(s.take(c) =~= t.take(c));
    assert(is_text_end(s, c)) by {
        if c < t.len() {
            assert(s[c] == t[c]);
        }
    }
    lemma_text_end_unique(s, c);
}

/// Appending a terminating NUL does not change the C string.
pub proof fn lemma_c_text_terminated(t: Seq<u8>)
    ensures
        c_text(t.push(0)) == c_text(t),
{
    lemma_first_nul(t);
    let c = first_nul(t);
    let s = t.push(0);
    assert(s.take(c) =~= t.take(c));
    assert(is_text_end(s, c)) by {
        if c == t.len() {
            assert(s[c] == 0);
        } else {
            assert(s[c] == t[c]);
        }
    }
    lemma_text_end_unique(s, c);
}

/// Reads the C string stored at the start of `buffer`, as `CStr` does:
/// the bytes up to, not including, the first NUL.
pub fn c_string_bytes(buffer: &[u8]) -> (res: Vec<u8>)
    ensures
        res@ == c_text(buffer@),
{
    let mut res: Vec<u8> = Vec::new();
    let mut i: usize = 0;
    while i < buffer.len() && buffer[i] != 0
        invariant
            i <= buffer@.len(),
            res@ == buffer@.take(i as int),
            nul_free(buffer@.take(i as int)),
        decreases buffer@.len() - i,
    {
        res.push(buffer[i]);
        i = i + 1;
        assert(res@ =~= buffer@.take(i as int));
        assert(nul_free(buffer@.take(i as int))) by {
            assert forall|j: int| 0 <= j < i implies buffer@.take(i as int)[j] != 0 by {
                if j < i - 1 {
                    assert(buffer@.take(i as int)[j] == buffer@.take(i - 1)[j]);
                }
            }
        }
    }
    proof {
        lemma_text_end_unique(buffer@, i as int);
    }
    res
}

/// Decodes `bytes` as UTF-8 into a `String`: `None` when they are not
/// valid UTF-8 (`std::string::String::from_utf8`, its error dropped).
/// The contract claims that the standard library accepts exactly the byte
/// sequences that `vstd::utf8::valid_utf8` describes and decodes them as
/// `vstd::utf8::decode_utf8` does.
#[verifier::external_body]
pub(crate) fn utf8_to_string(bytes: Vec<u8>) -> (res: Option<String>)
    ensures
        res is Some <==> valid_utf8(bytes@),
        res matches Some(s) ==> s@ == decode_utf8(bytes@),
{
    String::from_utf8(bytes).ok()
}

/// The text of `bytes` decoded as UTF-8, when they are valid UTF-8.
pub open spec fn utf8_text(bytes: Seq<u8>) -> Option<Seq<char>> {
    if valid_utf8(bytes) {
        Some(decode_utf8(bytes))
    } else {
        None
    }
}

/// The character of the decimal digit `d`.
pub open spec fn digit_char(d: nat) -> char {
    ('0' as u32 + d) as char
}

/// The decimal representation of `n`, most significant digit first,
/// without leading zeros.
pub open spec fn decimal(n: nat) -> Seq<char>
    decreases n,
{
    if n < 10 {
        seq![digit_char(n)]
    } else {
        decimal(n / 10) + seq![digit_char(n % 10)]
    }
}

/// The one-character string of the decimal digit `d`.
fn digit_str(d: u32) -> (res: &'static str)
    requires
        d < 10,
    ensures
        res@ == seq![digit_char(d as nat)],
{
    proof {
        reveal_strlit("0");
        reveal_strlit("1");
        reveal_strlit("2");
        reveal_strlit("3");
        reveal_strlit("4");
        reveal_strlit("5");
        reveal_strlit("6");
        reveal_strlit("7");
        reveal_strlit("8");
        reveal_strlit("9");
    }
    match d {
        0 => "0",
        1 => "1",
        2 => "2",
        3 => "3",
        4 => "4",
        5 => "5",
        6 => "6",
        7 => "7",
        8 => "8",
        _ => "9",
    }
}

/// Appends the decimal representation of `n` to `out`.
pub fn push_decimal(out: &mut String, n: u32)
    ensures
        final(out)@ == old(out)@ + decimal(n as nat),
    decreases n,
{
    if n >= 10 {
        push_decimal(out, n / 10);
    }
    out.append(digit_str(n % 10));
    proof {
        if n >= 10 {
            assert(final(out)@ =~= old(out)@ + decimal(n as nat));
        }
    }
}

/// The number that a sequence of decimal digits denotes, most significant
/// digit first.
pub open spec fn digits_value(s: Seq<char>) -> int
    decreases s.len(),
{
    if s.len() == 0 {
        0
    } else {
        digits_value(s.drop_last()) * 10 + (s.last() as int - '0' as int)
    }
}

/// The decimal representation of `n` is made of digits only, starts with a
/// zero only for zero itself, and denotes `n`.
pub proof fn law_decimal_denotes(n: nat)
    ensures
        decimal(n).len() >= 1,
        forall|i: int| 0 <= i < decimal(n).len() ==> '0' <= #[trigger] decimal(n)[i] <= '9',
        decimal(n)[0] == '0' ==> n == 0,
        digits_value(decimal(n)) == n,
    decreases n,
{
    if n >= 10 {
        law_decimal_denotes(n / 10);
        let d = decimal(n);
        assert(d.drop_last() =~= decimal(n / 10));
        assert(digit_char((n % 10) as nat) as int == '0' as int + n % 10);
        assert(d[0] == decimal(n / 10)[0]);
        assert forall|i: int| 0 <= i < d.len() implies '0' <= #[trigger] d[i] <= '9' by {
            if i < d.len() - 1 {
                assert(d[i] == decimal(n / 10)[i]);
            }
        }
        assert(digits_value(d) == digits_value(decimal(n / 10)) * 10 + n % 10);
    } else {
        assert(decimal(n).drop_last() =~= Seq::<char>::empty());
        assert(digit_char(n) as int == '0' as int + n);
        assert(digits_value(Seq::<char>::empty()) == 0);
    }
}

} // verus!
