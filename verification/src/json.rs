//! The crate's own model of a JSON document, and the trusted parse of a text
//! into it. Event logs carry JSON documents; the pipeline reads them through
//! this tree.

use vstd::prelude::*;
use vstd::string::StrSliceExecFns;

verus! {

/// A JSON document. Numbers keep their literal text, so that no value is ever
/// carried through a binary floating-point type.
pub enum Json {
    Null,
    Bool(bool),
    Num(String),
    Str(String),
    Arr(Vec<Json>),
    Obj(Vec<(String, Json)>),
}

/// What `serde_json::from_str` makes of a text: `None` where the text is not a
/// JSON document, otherwise the document as this crate's tree.
pub uninterp spec fn json_of(s: Seq<char>) -> Option<Json>;

#[verifier::external_type_specification]
#[verifier::external_body]
pub struct ExJsonValue(serde_json::Value);

/// Converts serde_json's tree into the crate's own, variant for variant.
#[verifier::external_body]
fn from_value(v: &serde_json::Value) -> Json {
    match v {
        serde_json::Value::Null => Json::Null,
        serde_json::Value::Bool(b) => Json::Bool(*b),
        serde_json::Value::Number(n) => Json::Num(n.to_string()),
        serde_json::Value::String(s) => Json::Str(s.clone()),
        serde_json::Value::Array(a) => Json::Arr(a.iter().map(from_value).collect()),
        serde_json::Value::Object(m) => {
            Json::Obj(m.iter().map(|(k, x)| (k.clone(), from_value(x))).collect())
        },
    }
}

/// Relies on `serde_json::from_str::<serde_json::Value>`: whether and how a
/// text parses as a JSON document is a function of the text alone.
#[verifier::external_body]
pub(crate) fn parse_json(s: &str) -> (r: Option<Json>)
    ensures
        r == json_of(s@),
{
    serde_json::from_str::<serde_json::Value>(s).ok().map(|v| from_value(&v))
}

/// The value of `key` in an object's fields: the first binding whose key
/// matches, as serde_json keeps at most one binding per key.
pub open spec fn obj_get_spec(fields: Seq<(String, Json)>, key: Seq<char>) -> Option<Json>
    decreases fields.len(),
{
    if fields.len() == 0 {
        None
    } else if fields[0].0@ == key {
        Some(fields[0].1)
    } else {
        obj_get_spec(fields.drop_first(), key)
    }
}

/// Looks a key up among an object's fields.
pub fn obj_get<'a>(fields: &'a Vec<(String, Json)>, key: &String) -> (r: Option<&'a Json>)
    ensures
        match r {
            Some(j) => obj_get_spec(fields@, key@) == Some(*j),
            None => obj_get_spec(fields@, key@) is None,
        },
{
    let mut i: usize = 0;
    proof {
        assert(fields@.skip(0) =~= fields@);
    }
    while i < fields.len()
        invariant
            0 <= i <= fields@.len(),
            obj_get_spec(fields@, key@) == obj_get_spec(fields@.skip(i as int), key@),
        decreases fields@.len() - i,
    {
        proof {
            assert(fields@.skip(i as int)[0] == fields@[i as int]);
        }
        if fields[i].0 == *key {
            return Some(&fields[i].1);
        }
        proof {
            assert(fields@.skip(i as int).drop_first() =~= fields@.skip(i as int + 1));
        }
        i += 1;
    }
    proof {
        assert(fields@.skip(fields@.len() as int) =~= Seq::<(String, Json)>::empty());
    }
    None
}

/// Whether `c` is a decimal digit.
pub open spec fn is_digit(c: char) -> bool {
    48 <= c as u32 <= 57
}

/// The value of a decimal digit.
pub open spec fn digit_val(c: char) -> nat {
    (c as u32 - 48) as nat
}

/// Whether every character of `s` is a decimal digit.
pub open spec fn all_digits(s: Seq<char>) -> bool {
    forall|i: int| 0 <= i < s.len() ==> is_digit(s[i])
}

/// The number that a sequence of decimal digits denotes.
pub open spec fn dec_val(s: Seq<char>) -> nat
    decreases s.len(),
{
    if s.len() == 0 {
        0
    } else {
        dec_val(s.drop_last()) * 10 + digit_val(s.last())
    }
}

/// Ten to the `n`th power.
pub open spec fn pow10(n: nat) -> nat
    decreases n,
{
    if n == 0 {
        1
    } else {
        10 * pow10((n - 1) as nat)
    }
}

/// A digit string denotes less than ten to the power of its length.
pub proof fn lemma_dec_val_bound(s: Seq<char>)
    requires
        all_digits(s),
    ensures
        dec_val(s) < pow10(s.len()),
    decreases s.len(),
{
    if s.len() > 0 {
        assert(all_digits(s.drop_last()));
        lemma_dec_val_bound(s.drop_last());
        assert(digit_val(s.last()) <= 9);
    }
}

/// `pow10` does not decrease.
pub proof fn lemma_pow10_increases(a: nat, b: nat)
    requires
        a <= b,
    ensures
        pow10(a) <= pow10(b),
    decreases b,
{
    if a < b {
        lemma_pow10_increases(a, (b - 1) as nat);
    }
}

/// A single byte, written in a document as a number of zero to two hundred
/// and fifty-five.
pub open spec fn json_byte_spec(j: Json) -> Option<u8> {
    match j {
        Json::Num(t) => match parse_u64_spec(t@) {
            Some(v) => if v <= 255 {
                Some(v as u8)
            } else {
                None
            },
            None => None,
        },
        _ => None,
    }
}

/// A byte array, written in a document as an array of numbers.
pub open spec fn json_bytes_spec(a: Seq<Json>) -> Option<Seq<u8>>
    decreases a.len(),
{
    if a.len() == 0 {
        Some(Seq::<u8>::empty())
    } else {
        match json_bytes_spec(a.drop_last()) {
            Some(bs) => match json_byte_spec(a.last()) {
                Some(b) => Some(bs.push(b)),
                None => None,
            },
            None => None,
        }
    }
}

/// An element that is no byte makes the whole array no byte array.
proof fn lemma_json_bytes_none(a: Seq<Json>, i: int)
    requires
        0 <= i < a.len(),
        json_byte_spec(a[i]) is None,
    ensures
        json_bytes_spec(a) is None,
    decreases a.len(),
{
    if i < a.len() - 1 {
        assert(a.drop_last()[i] == a[i]);
        lemma_json_bytes_none(a.drop_last(), i);
    }
}

/// Reads a byte array from an array of number elements.
pub fn json_bytes(a: &Vec<Json>) -> (r: Option<Vec<u8>>)
    ensures
        match r {
            Some(v) => json_bytes_spec(a@) == Some(v@),
            None => json_bytes_spec(a@) is None,
        },
{
    let mut out: Vec<u8> = Vec::new();
    let mut i: usize = 0;
    while i < a.len()
        invariant
            0 <= i <= a@.len(),
            json_bytes_spec(a@.take(i as int)) == Some(out@),
        decreases a@.len() - i,
    {
        let b: u8 = match &a[i] {
            Json::Num(t) => match parse_u64_text(t.as_str()) {
                Some(v) => if v <= 255 {
                    v as u8
                } else {
                    proof {
                        lemma_json_bytes_none(a@, i as int);
                    }
                    return None;
                },
                None => {
                    proof {
                        lemma_json_bytes_none(a@, i as int);
                    }
                    return None;
                },
            },
            _ => {
                proof {
                    lemma_json_bytes_none(a@, i as int);
                }
                return None;
            },
        };
        out.push(b);
        i += 1;
        proof {
            let t = a@.take(i as int);
            assert(t.drop_last() =~= a@.take(i as int - 1));
            assert(t.last() == a@[i as int - 1]);
        }
    }
    proof {
        assert(a@.take(a@.len() as int) =~= a@);
    }
    Some(out)
}

/// The largest accepted digit count denotes values below ten to the
/// nineteenth, which a 64-bit integer holds.
proof fn lemma_pow10_18_value()
    ensures
        pow10(18) == 1000000000000000000,
{
    reveal_with_fuel(pow10, 19);
}

/// What a numeric field's text denotes: a number of one to nineteen decimal
/// digits. Longer texts are treated as malformed, so every accepted value
/// fits a 64-bit integer.
pub open spec fn parse_u64_spec(s: Seq<char>) -> Option<u64> {
    if 1 <= s.len() <= 19 && all_digits(s) {
        Some(dec_val(s) as u64)
    } else {
        None
    }
}

/// Reads a decimal number of at most nineteen digits from a text.
#[verifier::rlimit(50)]
pub fn parse_u64_text(s: &str) -> (r: Option<u64>)
    ensures
        r == parse_u64_spec(s@),
{
    let n: usize = s.unicode_len();
    if n < 1 || n > 19 {
        return None;
    }
    let mut acc: u64 = 0;
    let mut i: usize = 0;
    while i < n
        invariant
            1 <= n <= 19,
            n == s@.len(),
            0 <= i <= n,
            all_digits(s@.take(i as int)),
            acc == dec_val(s@.take(i as int)),
        decreases n - i,
    {
        let c: char = s.get_char(i);
        let v: u32 = c as u32;
        if v < 48 || v > 57 {
            assert(!is_digit(s@[i as int]));
            return None;
        }
        proof {
            lemma_dec_val_bound(s@.take(i as int));
            lemma_pow10_increases(i as nat, 18);
            lemma_pow10_18_value();
        }
        let d: u64 = (v - 48) as u64;
        acc = acc * 10 + d;
        i += 1;
        proof {
            let t = s@.take(i as int);
            assert(t.drop_last() =~= s@.take(i as int - 1));
            assert(t.last() == s@[i as int - 1]);
        }
    }
    proof {
        assert(s@.take(n as int) =~= s@);
    }
    Some(acc)
}

} // verus!
