use vstd::prelude::*;
use vstd::string::StringExecFns;
use vstd::utf8::decode_utf8;
use vstd::utf8::valid_utf8;

use crate::errors::RedisError;

verus! {

/// One decoded reply from the store, as the façade models it.
///
/// The wire-protocol client hands back exactly one of these per executed
/// command. The array variant is structurally representable but carries no
/// contents here: the façade has no representation for nested replies and
/// refuses to decode them.
#[derive(Debug, Clone, PartialEq, Eq)]
pub enum Reply {
    /// A signed integer reply.
    Int(i64),
    /// A bulk string reply, as raw bytes.
    Bulk(Vec<u8>),
    /// A simple (single-line) string reply.
    Simple(String),
    /// An error reply: the store's own message.
    Error(String),
    /// A null reply (absent bulk string or absent array).
    Nil,
    /// An array reply; its contents are not represented.
    Array,
}

/// The character for one decimal digit value.
pub open spec fn spec_digit_char(d: nat) -> char {
    if d == 0 {
        '0'
    } else if d == 1 {
        '1'
    } else if d == 2 {
        '2'
    } else if d == 3 {
        '3'
    } else if d == 4 {
        '4'
    } else if d == 5 {
        '5'
    } else if d == 6 {
        '6'
    } else if d == 7 {
        '7'
    } else if d == 8 {
        '8'
    } else {
        '9'
    }
}

/// The decimal digits of `n`, most significant first, with no leading zeros
/// (a single `'0'` for zero).
pub open spec fn spec_decimal_digits(n: nat) -> Seq<char>
    decreases n,
{
    if n < 10 {
        seq![spec_digit_char(n)]
    } else {
        spec_decimal_digits(n / 10).push(spec_digit_char(n % 10))
    }
}

/// The canonical decimal text form of `i`: a leading `'-'` for negative
/// values, then the digits of the magnitude.
pub open spec fn spec_decimal(i: int) -> Seq<char> {
    if i < 0 {
        seq!['-'] + spec_decimal_digits((-i) as nat)
    } else {
        spec_decimal_digits(i as nat)
    }
}

/// The digit characters of `ds` read back to front.
spec fn digit_chars_rev(ds: Seq<u64>) -> Seq<char> {
    Seq::new(ds.len(), |j: int| spec_digit_char(ds[ds.len() - 1 - j] as nat))
}

/// A one-character string for the decimal digit value `d`.
fn digit_str(d: u64) -> (s: &'static str)
    requires
        d < 10,
    ensures
        s@ =~= seq![spec_digit_char(d as nat)],
{
    proof {
        reveal_strlit("0");
        reveal_strlit("1");
        reveal_strlit("2");
        reveal_strlit("3");
        reveal_strlit("4");
        reveal_strlit("5");
        reveal_strlit("6");
        reveal_strlit("7");
        reveal_strlit("8");
        reveal_strlit("9");
    }
    if d == 0 {
        "0"
    } else if d == 1 {
        "1"
    } else if d == 2 {
        "2"
    } else if d == 3 {
        "3"
    } else if d == 4 {
        "4"
    } else if d == 5 {
        "5"
    } else if d == 6 {
        "6"
    } else if d == 7 {
        "7"
    } else if d == 8 {
        "8"
    } else {
        "9"
    }
}

/// Renders `v` in its canonical decimal text form.
pub fn to_decimal(v: i64) -> (s: String)
    ensures
        s@ == spec_decimal(v as int),
{
    let m0: u64 = if v < 0 {
        proof {
            assert(-(v as int) <= 0x8000_0000_0000_0000);
        }
        (-(v as i128)) as u64
    } else {
        v as u64
    };
    let ghost n0: nat = m0 as nat;
    proof {
        assert(n0 == if v < 0 { -(v as int) } else { v as int });
    }

    // Collect the digits of the magnitude, least significant first.
    let mut ds: Vec<u64> = Vec::new();
    let mut m: u64 = m0;
    if m == 0 {
        ds.push(0);
        proof {
            assert(digit_chars_rev(ds@) =~= spec_decimal_digits(n0));
        }
    } else {
        while m > 0
            invariant
                forall|k: int| 0 <= k < ds@.len() ==> ds@[k] < 10,
                ds@.len() == 0 ==> m == n0,
                ds@.len() > 0 ==> spec_decimal_digits(n0) =~= (if m > 0 {
                    spec_decimal_digits(m as nat)
                } else {
                    Seq::<char>::empty()
                }) + digit_chars_rev(ds@),
            decreases m,
        {
            let ghost ds_old = ds@;
            let ghost m_old: nat = m as nat;
            let d = m % 10;
            ds.push(d);
            m = m / 10;
            proof {
                assert(digit_chars_rev(ds@) =~= seq![spec_digit_char(d as nat)] + digit_chars_rev(
                    ds_old,
                ));
                if m_old >= 10 {
                    assert(spec_decimal_digits(m_old) =~= spec_decimal_digits(m_old / 10) + seq![
                        spec_digit_char(m_old % 10),
                    ]);
                } else {
                    assert(spec_decimal_digits(m_old) =~= seq![spec_digit_char(m_old)]);
                }
                assert(spec_decimal_digits(n0) =~= (if m > 0 {
                    spec_decimal_digits(m as nat)
                } else {
                    Seq::<char>::empty()
                }) + digit_chars_rev(ds@));
            }
        }
        proof {
            assert(ds@.len() > 0);
            assert(spec_decimal_digits(n0) =~= digit_chars_rev(ds@));
        }
    }

    // Render the sign, then the digits most significant first.
    let mut s = String::new();
    if v < 0 {
        proof {
            reveal_strlit("-");
        }
        s.append("-");
    }
    let ghost sign: Seq<char> = if v < 0 { seq!['-'] } else { Seq::<char>::empty() };
    proof {
        assert(s@ =~= sign);
    }
    let mut i: usize = ds.len();
    while i > 0
        invariant
            i <= ds@.len(),
            forall|k: int| 0 <= k < ds@.len() ==> ds@[k] < 10,
            spec_decimal_digits(n0) =~= digit_chars_rev(ds@),
            s@ =~= sign + digit_chars_rev(ds@).take(ds@.len() - i),
        decreases i,
    {
        i -= 1;
        s.append(digit_str(ds[i]));
        proof {
            assert(digit_chars_rev(ds@)[ds@.len() - 1 - i] == spec_digit_char(ds@[i as int] as nat));
            assert(digit_chars_rev(ds@).take(ds@.len() - i) =~= digit_chars_rev(ds@).take(
                ds@.len() - i - 1,
            ) + seq![spec_digit_char(ds@[i as int] as nat)]);
            assert(s@ =~= sign + digit_chars_rev(ds@).take(ds@.len() - i));
        }
    }
    proof {
        assert(digit_chars_rev(ds@).take(ds@.len() as int) =~= digit_chars_rev(ds@));
        assert(s@ =~= sign + spec_decimal_digits(n0));
        assert(s@ == spec_decimal(v as int));
    }
    s
}

/// Relies on `String::from_utf8`: it succeeds exactly on valid UTF-8 input,
/// and on success returns the string whose characters are the decoding of
/// the input bytes (which is unique, since UTF-8 decoding is a function of
/// the bytes alone).
#[verifier::external_body]
fn bytes_to_string(b: Vec<u8>) -> (r: Option<String>)
    ensures
        r is Some <==> valid_utf8(b@),
        r matches Some(s) ==> s@ == decode_utf8(b@),
{
    String::from_utf8(b).ok()
}

/// What `decode_get` returns for each round-trip outcome `o`.
///
/// A transport failure is reported as `ExecError` with the client's message;
/// an error reply raises `RemoteError` with the store's message verbatim; an
/// array reply is always refused with `UnsupportedReply`; integer, bulk,
/// simple and null replies decode to text, with the integer rendered in its
/// canonical decimal form and a null reply read as the empty string.
pub open spec fn spec_decode_get(o: Result<Reply, String>, r: Result<String, RedisError>) -> bool {
    match o {
        Result::Err(m) => r matches Result::Err(e) && e matches RedisError::ExecError(em) && em@
            == m@,
        Result::Ok(rep) => match rep {
            Reply::Int(i) => r matches Result::Ok(s) && s@ == spec_decimal(i as int),
            Reply::Bulk(b) => if valid_utf8(b@) {
                r matches Result::Ok(s) && s@ == decode_utf8(b@)
            } else {
                r matches Result::Err(e) && e matches RedisError::ExecError(em) && em@
                    == "invalid UTF-8 in reply"@
            },
            Reply::Simple(s0) => r matches Result::Ok(s) && s@ == s0@,
            Reply::Error(m) => r matches Result::Err(e) && e matches RedisError::RemoteError(em)
                && em@ == m@,
            Reply::Nil => r matches Result::Ok(s) && s@ == Seq::<char>::empty(),
            Reply::Array => r == Result::<String, RedisError>::Err(RedisError::UnsupportedReply),
        },
    }
}

/// Decodes one round-trip outcome into `get`'s string result.
///
/// Decoding is stateless and deterministic: the same outcome always yields
/// the same result, as pinned down by [`spec_decode_get`].
pub fn decode_get(o: Result<Reply, String>) -> (r: Result<String, RedisError>)
    ensures
        spec_decode_get(o, r),
{
    match o {
        Result::Err(m) => Result::Err(RedisError::ExecError(m)),
        Result::Ok(rep) => match rep {
            Reply::Int(i) => Result::Ok(to_decimal(i)),
            Reply::Bulk(b) => match bytes_to_string(b) {
                Some(s) => Result::Ok(s),
                None => Result::Err(
                    RedisError::ExecError(String::from_str("invalid UTF-8 in reply")),
                ),
            },
            Reply::Simple(s) => Result::Ok(s),
            Reply::Error(m) => Result::Err(RedisError::RemoteError(m)),
            Reply::Nil => Result::Ok(String::new()),
            Reply::Array => Result::Err(RedisError::UnsupportedReply),
        },
    }
}

/// What `settle_round_trip` returns for each round-trip outcome `o`.
///
/// The operations that discard the reply payload (`set_value` and `execute`)
/// still surface every failure: a transport failure as `ExecError`, an error
/// reply as `RemoteError`; every other reply counts as success.
pub open spec fn spec_settle(o: Result<Reply, String>, r: Result<bool, RedisError>) -> bool {
    match o {
        Result::Err(m) => r matches Result::Err(e) && e matches RedisError::ExecError(em) && em@
            == m@,
        Result::Ok(rep) => match rep {
            Reply::Error(m) => r matches Result::Err(e) && e matches RedisError::RemoteError(em)
                && em@ == m@,
            _ => r == Result::<bool, RedisError>::Ok(true),
        },
    }
}

/// Reduces one round-trip outcome to success or failure, discarding the
/// reply payload, as pinned down by [`spec_settle`].
pub fn settle_round_trip(o: Result<Reply, String>) -> (r: Result<bool, RedisError>)
    ensures
        spec_settle(o, r),
{
    match o {
        Result::Err(m) => Result::Err(RedisError::ExecError(m)),
        Result::Ok(rep) => match rep {
            Reply::Error(m) => Result::Err(RedisError::RemoteError(m)),
            _ => Result::Ok(true),
        },
    }
}

/// Law: a reply of the array variant always raises `UnsupportedReply` on the
/// decode path, whatever the rest of the outcome looks like.
pub proof fn lemma_array_reply_unsupported(o: Result<Reply, String>, r: Result<String, RedisError>)
    requires
        o matches Result::Ok(rep) && rep is Array,
        spec_decode_get(o, r),
    ensures
        r == Result::<String, RedisError>::Err(RedisError::UnsupportedReply),
{
}

/// Law (round trip, decoder side): when the store hands back a bulk reply
/// holding exactly the UTF-8 encoding of a previously stored text `v`,
/// decoding returns `v` itself.
pub proof fn lemma_bulk_round_trip(v: Seq<char>, o: Result<Reply, String>, r: Result<
    String,
    RedisError,
>)
    requires
        o matches Result::Ok(rep) && rep matches Reply::Bulk(b) && b@ == vstd::utf8::encode_utf8(v),
        spec_decode_get(o, r),
    ensures
        r matches Result::Ok(s) && s@ == v,
{
    vstd::utf8::encode_utf8_valid_utf8(v);
    vstd::utf8::encode_utf8_decode_utf8(v);
}

} // verus!
