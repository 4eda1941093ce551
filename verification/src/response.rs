//! The JSON responses the service sends: a `{"width":…,"height":…}` object
//! for a decoded image, and a `{"error":{"message":…}}` envelope for every
//! failure, each with its HTTP status code.

use vstd::prelude::*;
use crate::png::Dimensions;

verus! {

/// An HTTP response reduced to what the service decides: a status code and
/// a body. Headers and the wire protocol are the surrounding program's
/// business.
pub struct HttpResponse {
    pub status: u16,
    pub body: String,
}

/// The character of one decimal digit.
pub open spec fn digit_char(d: nat) -> char
    recommends
        d < 10,
{
    if d == 0 {
        '0'
    } else if d == 1 {
        '1'
    } else if d == 2 {
        '2'
    } else if d == 3 {
        '3'
    } else if d == 4 {
        '4'
    } else if d == 5 {
        '5'
    } else if d == 6 {
        '6'
    } else if d == 7 {
        '7'
    } else if d == 8 {
        '8'
    } else {
        '9'
    }
}

/// The decimal digits of `n`, most significant first, without leading
/// zeroes (`0` itself is the single digit `0`).
pub open spec fn dec_digits(n: nat) -> Seq<char>
    decreases n,
{
    if n < 10 {
        seq![digit_char(n)]
    } else {
        dec_digits(n / 10).push(digit_char(n % 10))
    }
}

/// The JSON error envelope around a message.
pub open spec fn error_body_spec(message: Seq<char>) -> Seq<char> {
    "{\"error\":{\"message\":\""@ + message + "\"}}"@
}

/// The JSON success body carrying both dimensions.
pub open spec fn success_body_spec(d: Dimensions) -> Seq<char> {
    "{\"width\":"@ + dec_digits(d.width as nat) + ",\"height\":"@ + dec_digits(d.height as nat)
        + "}"@
}

/// A one-character string for the decimal digit `d`.
fn digit_str(d: u32) -> (r: &'static str)
    requires
        d < 10,
    ensures
        r@ == seq![digit_char(d as nat)],
{
    proof {
        reveal_strlit("0");
        reveal_strlit("1");
        reveal_strlit("2");
        reveal_strlit("3");
        reveal_strlit("4");
        reveal_strlit("5");
        reveal_strlit("6");
        reveal_strlit("7");
        reveal_strlit("8");
        reveal_strlit("9");
    }
    let r = if d == 0 {
        "0"
    } else if d == 1 {
        "1"
    } else if d == 2 {
        "2"
    } else if d == 3 {
        "3"
    } else if d == 4 {
        "4"
    } else if d == 5 {
        "5"
    } else if d == 6 {
        "6"
    } else if d == 7 {
        "7"
    } else if d == 8 {
        "8"
    } else {
        "9"
    };
    proof {
        assert(r@ =~= seq![digit_char(d as nat)]);
    }
    r
}

/// Appends the decimal digits of `n` to `out`.
fn append_u32(n: u32, out: &mut String)
    ensures
        final (out)@ == old(out)@ + dec_digits(n as nat),
    decreases n,
{
    let ghost entry = out@;
    if n >= 10 {
        append_u32(n / 10, out);
    }
    out.append(digit_str(n % 10));
    proof {
        if n < 10 {
            assert(dec_digits(n as nat) =~= seq![digit_char(n as nat)]);
            assert(out@ =~= entry + dec_digits(n as nat));
        } else {
            assert((n / 10) as nat == n as nat / 10);
            assert((n % 10) as nat == n as nat % 10);
            assert(dec_digits(n as nat) == dec_digits(n as nat / 10).push(
                digit_char(n as nat % 10),
            ));
            assert(out@ =~= entry + dec_digits(n as nat));
        }
    }
}

/// The decimal rendering of `n`.
pub fn u32_string(n: u32) -> (r: String)
    ensures
        r@ == dec_digits(n as nat),
{
    let mut s = String::new();
    append_u32(n, &mut s);
    proof {
        assert(s@ =~= dec_digits(n as nat));
    }
    s
}

/// Builds the JSON error envelope around `message` and pairs it with
/// `status`. The fixed messages this library passes hold no character that
/// JSON requires to be escaped, and the envelope quotes the message as it
/// stands.
pub fn error_response(message: &str, status: u16) -> (r: HttpResponse)
    ensures
        r.status == status,
        r.body@ == error_body_spec(message@),
{
    let mut body = String::from_str("{\"error\":{\"message\":\"");
    body.append(message);
    body.append("\"}}");
    proof {
        assert(body@ =~= error_body_spec(message@));
    }
    HttpResponse { status, body }
}

/// Builds the JSON success body for decoded dimensions, with status 200.
pub fn success_response(d: &Dimensions) -> (r: HttpResponse)
    ensures
        r.status == 200,
        r.body@ == success_body_spec(*d),
{
    let mut body = String::from_str("{\"width\":");
    append_u32(d.width, &mut body);
    body.append(",\"height\":");
    append_u32(d.height, &mut body);
    body.append("}");
    proof {
        assert(body@ =~= success_body_spec(*d));
    }
    HttpResponse { status: 200, body }
}

} // verus!
