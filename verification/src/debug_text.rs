//! The text the plugin logs for an optional body: the body itself when it is
//! UTF-8, else its `Debug` rendering.

use vstd::prelude::*;
use vstd::string::StringSliceAdditionalSpecFns;
use vstd::utf8::{valid_utf8, decode_utf8, encode_utf8_decode_utf8};

verus! {

/// The decimal digit `d` (0 to 9) as a character.
pub open spec fn digit(d: int) -> char {
    if d == 0 { '0' } else if d == 1 { '1' } else if d == 2 { '2' } else if d == 3 { '3' }
    else if d == 4 { '4' } else if d == 5 { '5' } else if d == 6 { '6' } else if d == 7 { '7' }
    else if d == 8 { '8' } else { '9' }
}

/// A byte in decimal, without leading zeros.
pub open spec fn decimal(n: u8) -> Seq<char> {
    if n < 10 {
        seq![digit(n as int)]
    } else if n < 100 {
        seq![digit((n / 10) as int), digit((n % 10) as int)]
    } else {
        seq![digit((n / 100) as int), digit(((n / 10) % 10) as int), digit((n % 10) as int)]
    }
}

/// The bytes in decimal, separated by `", "`.
pub open spec fn decimal_list(b: Seq<u8>) -> Seq<char>
    decreases b.len(),
{
    if b.len() == 0 {
        Seq::empty()
    } else if b.len() == 1 {
        decimal(b[0])
    } else {
        decimal_list(b.drop_last()) + ", "@ + decimal(b.last())
    }
}

/// `format!("{:?}", body)` for an optional byte vector.
pub open spec fn debug_bytes(body: Option<Seq<u8>>) -> Seq<char> {
    match body {
        None => "None"@,
        Some(b) => "Some(["@ + decimal_list(b) + "])"@,
    }
}

/// Calls `std::str::from_utf8`, which gives the bytes as a string slice when
/// they are valid UTF-8 and an error otherwise; the error becomes `None`.
#[verifier::external_body]
fn utf8_str(bytes: &[u8]) -> (r: Option<&str>)
    ensures
        r is Some <==> valid_utf8(bytes@),
        r matches Some(s) ==> s.spec_bytes() == bytes@,
{
    std::str::from_utf8(bytes).ok()
}

fn push_digit(out: &mut String, d: u8)
    requires
        d < 10,
    ensures
        final(out)@ == old(out)@.push(digit(d as int)),
{
    proof {
        reveal_strlit("0");
        reveal_strlit("1");
        reveal_strlit("2");
        reveal_strlit("3");
        reveal_strlit("4");
        reveal_strlit("5");
        reveal_strlit("6");
        reveal_strlit("7");
        reveal_strlit("8");
        reveal_strlit("9");
    }
    let s = if d == 0 { "0" } else if d == 1 { "1" } else if d == 2 { "2" } else if d == 3 { "3" }
        else if d == 4 { "4" } else if d == 5 { "5" } else if d == 6 { "6" } else if d == 7 { "7" }
        else if d == 8 { "8" } else { "9" };
    assert(s@ =~= seq![digit(d as int)]);
    out.append(s);
    assert(old(out)@ + seq![digit(d as int)] =~= old(out)@.push(digit(d as int)));
}

fn push_decimal(out: &mut String, n: u8)
    ensures
        final(out)@ == old(out)@ + decimal(n),
{
    if n < 10 {
        push_digit(out, n);
    } else if n < 100 {
        push_digit(out, n / 10);
        push_digit(out, n % 10);
    } else {
        push_digit(out, n / 100);
        push_digit(out, (n / 10) % 10);
        push_digit(out, n % 10);
    }
    assert(final(out)@ =~= old(out)@ + decimal(n));
}

/// The body as text when it is UTF-8, else its `Debug` rendering
/// (`None`, or `Some([..])` with the bytes in decimal).
pub fn format_body(body: Option<Vec<u8>>) -> (r: String)
    ensures
        match body {
            Some(b) => if valid_utf8(b@) {
                r@ == decode_utf8(b@)
            } else {
                r@ == debug_bytes(Some(b@))
            },
            None => r@ == debug_bytes(None),
        },
{
    if let Some(bd) = &body {
        if let Some(text) = utf8_str(bd.as_slice()) {
            proof {
                encode_utf8_decode_utf8(text@);
            }
            return String::from_str(text);
        }
    }
    match &body {
        None => String::from_str("None"),
        Some(b) => {
            let mut out = String::from_str("Some([");
            let ghost start = out@;
            let mut i: usize = 0;
            assert(b@.take(0) =~= Seq::<u8>::empty());
            assert(start + Seq::<char>::empty() =~= start);
            while i < b.len()
                invariant
                    i <= b@.len(),
                    out@ == start + decimal_list(b@.take(i as int)),
                decreases b.len() - i,
            {
                let ghost before = out@;
                if i > 0 {
                    out.append(", ");
                }
                push_decimal(&mut out, b[i]);
                proof {
                    let t = b@.take(i + 1);
                    assert(t.drop_last() =~= b@.take(i as int));
                    assert(t.last() == b@[i as int]);
                    if i == 0 {
                        assert(before == start);
                        assert(t.len() == 1);
                        assert(start + decimal_list(t) =~= out@);
                    } else {
                        assert(start + decimal_list(t) =~= out@);
                    }
                }
                i += 1;
            }
            assert(b@.take(i as int) =~= b@);
            out.append("])");
            out
        },
    }
}

} // verus!
