//! The function invoker: turning textual arguments into typed module
//! values, one per declared parameter, and shaping the call's results.

use vstd::prelude::*;
use vstd::string::StrSliceExecFns;

use crate::module::{FuncSig, Val, ValKind};

verus! {

/// Why an invocation could not be assembled.
#[derive(Clone, Copy, PartialEq, Eq, Structural, Debug)]
pub enum InvokeError {
    /// Textual arguments ran out before the declared parameters did.
    NotEnoughArguments,
    /// A textual argument did not parse as the declared integer type.
    BadIntegerText,
    /// The declared parameter type cannot be filled from text here:
    /// reference types are never textually invocable, and floating-point
    /// text is converted by the embedder, outside the verified runtime.
    UnsupportedParamType,
}

pub open spec fn is_digit(c: char) -> bool {
    48 <= c as u32 <= 57
}

pub open spec fn digit_val(c: char) -> int {
    c as u32 - 48
}

/// Value of a string of decimal digits, most significant first.
pub open spec fn digits_val(s: Seq<char>) -> int
    decreases s.len(),
{
    if s.len() == 0 {
        0
    } else {
        digits_val(s.drop_last()) * 10 + digit_val(s.last())
    }
}

pub open spec fn all_digits(s: Seq<char>) -> bool {
    forall|i: int| 0 <= i < s.len() ==> is_digit(#[trigger] s[i])
}

/// The digit part of an optionally signed integer text.
pub open spec fn int_magnitude_text(s: Seq<char>) -> Seq<char> {
    if s.len() >= 1 && (s[0] == '+' || s[0] == '-') {
        s.drop_first()
    } else {
        s
    }
}

pub open spec fn int_is_negative(s: Seq<char>) -> bool {
    s.len() >= 1 && s[0] == '-'
}

/// The integer a text denotes: an optional sign, then one or more decimal
/// digits, nothing else — the grammar the standard library's integer
/// parsing accepts.
pub open spec fn parse_int_spec(s: Seq<char>) -> Option<int> {
    let ds = int_magnitude_text(s);
    if ds.len() >= 1 && all_digits(ds) {
        Some(
            if int_is_negative(s) {
                -digits_val(ds)
            } else {
                digits_val(ds)
            },
        )
    } else {
        None
    }
}

pub open spec fn parse_i32_spec(s: Seq<char>) -> Option<i32> {
    match parse_int_spec(s) {
        Some(v) => if i32::MIN <= v <= i32::MAX {
            Some(v as i32)
        } else {
            None
        },
        None => None,
    }
}

pub open spec fn parse_i64_spec(s: Seq<char>) -> Option<i64> {
    match parse_int_spec(s) {
        Some(v) => if i64::MIN <= v <= i64::MAX {
            Some(v as i64)
        } else {
            None
        },
        None => None,
    }
}

proof fn lemma_digits_val_nonneg(s: Seq<char>)
    requires
        all_digits(s),
    ensures
        digits_val(s) >= 0,
    decreases s.len(),
{
    if s.len() > 0 {
        assert(all_digits(s.drop_last()));
        lemma_digits_val_nonneg(s.drop_last());
    }
}

/// A digit string is worth at least any of its prefixes.
proof fn lemma_digits_val_prefix_le(s: Seq<char>, k: int)
    requires
        all_digits(s),
        0 <= k <= s.len(),
    ensures
        digits_val(s.take(k)) <= digits_val(s),
    decreases s.len() - k,
{
    if k < s.len() {
        lemma_digits_val_prefix_le(s, k + 1);
        let t = s.take(k + 1);
        assert(all_digits(t));
        assert(t.drop_last() =~= s.take(k));
        assert(all_digits(s.take(k)));
        lemma_digits_val_nonneg(s.take(k));
        assert(digits_val(t) == digits_val(s.take(k)) * 10 + digit_val(t.last()));
        assert(digits_val(s.take(k)) * 10 >= digits_val(s.take(k)));
        assert(digit_val(t.last()) >= 0);
    } else {
        assert(s.take(k) =~= s);
    }
}

/// Parse the decimal digits of `s` from position `start` to its end, as
/// long as their value stays within `limit`.
fn parse_magnitude(s: &str, start: usize, limit: u128) -> (r: Option<u128>)
    requires
        (start as nat) <= s@.len(),
        limit <= 9223372036854775808,
    ensures
        ({
            let ds = s@.skip(start as int);
            match r {
                Some(m) => ds.len() >= 1 && all_digits(ds) && m as int == digits_val(ds) && m
                    <= limit,
                None => !(ds.len() >= 1 && all_digits(ds) && digits_val(ds) <= limit as int),
            }
        }),
{
    let ghost ds = s@.skip(start as int);
    let n = s.unicode_len();
    if start >= n {
        return None;
    }
    let mut acc: u128 = 0;
    let mut i: usize = start;
    while i < n
        invariant
            start <= i <= n,
            n as nat == s@.len(),
            (start as nat) < s@.len(),
            limit <= 9223372036854775808,
            ds == s@.skip(start as int),
            all_digits(s@.subrange(start as int, i as int)),
            acc as int == digits_val(s@.subrange(start as int, i as int)),
            acc <= limit,
        decreases n - i,
    {
        let c = s.get_char(i);
        let d: u32 = c as u32;
        if d < 48 || d > 57 {
            proof {
                assert(ds[i - start] == s@[i as int]);
                assert(!is_digit(ds[i - start]));
            }
            return None;
        }
        let ghost prefix = s@.subrange(start as int, i as int);
        let ghost prefix2 = s@.subrange(start as int, i as int + 1);
        proof {
            assert(prefix2.drop_last() =~= prefix);
            assert(prefix2.last() == s@[i as int]);
            assert(is_digit(s@[i as int]));
            assert(all_digits(prefix2));
            lemma_digits_val_nonneg(prefix);
        }
        acc = acc * 10 + ((d - 48) as u128);
        if acc > limit {
            proof {
                // Whatever follows, the value can only grow past the limit.
                if all_digits(ds) && ds.len() >= 1 {
                    assert(ds.take(i as int + 1 - start as int) =~= prefix2);
                    lemma_digits_val_prefix_le(ds, i as int + 1 - start as int);
                }
            }
            return None;
        }
        i = i + 1;
    }
    proof {
        assert(s@.subrange(start as int, n as int) =~= ds);
        assert(ds.len() >= 1);
    }
    Some(acc)
}

/// Parse a 32-bit integer from text, exactly as the standard library's
/// integer parsing would: optional sign, decimal digits, range-checked.
pub fn parse_i32(s: &str) -> (r: Option<i32>)
    ensures
        r == parse_i32_spec(s@),
{
    let n = s.unicode_len();
    if n == 0 {
        return None;
    }
    let c0 = s.get_char(0);
    let neg = c0 == '-';
    let start: usize = if neg || c0 == '+' {
        1
    } else {
        0
    };
    let limit: u128 = if neg {
        2147483648
    } else {
        2147483647
    };
    proof {
        if start == 0 {
            assert(s@.skip(0) =~= int_magnitude_text(s@));
        } else {
            assert(s@.skip(1) =~= int_magnitude_text(s@));
        }
    }
    match parse_magnitude(s, start, limit) {
        Some(m) => {
            if neg {
                Some((-(m as i64)) as i32)
            } else {
                Some(m as i32)
            }
        },
        None => {
            proof {
                let ds = int_magnitude_text(s@);
                if ds.len() >= 1 && all_digits(ds) {
                    lemma_digits_val_nonneg(ds);
                }
            }
            None
        },
    }
}

/// Parse a 64-bit integer from text, exactly as the standard library's
/// integer parsing would: optional sign, decimal digits, range-checked.
pub fn parse_i64(s: &str) -> (r: Option<i64>)
    ensures
        r == parse_i64_spec(s@),
{
    let n = s.unicode_len();
    if n == 0 {
        return None;
    }
    let c0 = s.get_char(0);
    let neg = c0 == '-';
    let start: usize = if neg || c0 == '+' {
        1
    } else {
        0
    };
    let limit: u128 = if neg {
        9223372036854775808
    } else {
        9223372036854775807
    };
    proof {
        if start == 0 {
            assert(s@.skip(0) =~= int_magnitude_text(s@));
        } else {
            assert(s@.skip(1) =~= int_magnitude_text(s@));
        }
    }
    match parse_magnitude(s, start, limit) {
        Some(m) => {
            if neg {
                Some((-(m as i128)) as i64)
            } else {
                Some(m as i64)
            }
        },
        None => {
            proof {
                let ds = int_magnitude_text(s@);
                if ds.len() >= 1 && all_digits(ds) {
                    lemma_digits_val_nonneg(ds);
                }
            }
            None
        },
    }
}

/// The value one textual argument yields for one declared parameter type.
pub open spec fn arg_val_spec(kind: ValKind, text: Seq<char>) -> Result<Val, InvokeError> {
    match kind {
        ValKind::I32 => match parse_i32_spec(text) {
            Some(v) => Ok(Val::I32(v)),
            None => Err(InvokeError::BadIntegerText),
        },
        ValKind::I64 => match parse_i64_spec(text) {
            Some(v) => Ok(Val::I64(v)),
            None => Err(InvokeError::BadIntegerText),
        },
        ValKind::F32 => Err(InvokeError::UnsupportedParamType),
        ValKind::F64 => Err(InvokeError::UnsupportedParamType),
        ValKind::Other => Err(InvokeError::UnsupportedParamType),
    }
}

/// Marshalling of textual arguments against declared parameters: one text
/// per parameter, in order; the first failure is the call's failure.
pub open spec fn marshal_spec(params: Seq<ValKind>, texts: Seq<Seq<char>>) -> Result<
    Seq<Val>,
    InvokeError,
>
    decreases params.len(),
{
    if params.len() == 0 {
        Ok(Seq::empty())
    } else if texts.len() == 0 {
        Err(InvokeError::NotEnoughArguments)
    } else {
        match arg_val_spec(params[0], texts[0]) {
            Ok(v) => match marshal_spec(params.drop_first(), texts.drop_first()) {
                Ok(rest) => Ok(seq![v] + rest),
                Err(e) => Err(e),
            },
            Err(e) => Err(e),
        }
    }
}

proof fn lemma_marshal_prefix(params: Seq<ValKind>, texts: Seq<Seq<char>>, i: int)
    requires
        0 <= i <= params.len(),
        i <= texts.len(),
        forall|j: int| 0 <= j < i ==> (#[trigger] arg_val_spec(params[j], texts[j])) is Ok,
    ensures
        marshal_spec(params, texts) == match marshal_spec(params.skip(i), texts.skip(i)) {
            Ok(rest) => Ok::<Seq<Val>, InvokeError>(
                Seq::new(i as nat, |j: int| arg_val_spec(params[j], texts[j]).unwrap()) + rest,
            ),
            Err(e) => Err(e),
        },
    decreases i,
{
    if i == 0 {
        assert(params.skip(0) =~= params);
        assert(texts.skip(0) =~= texts);
        match marshal_spec(params, texts) {
            Ok(rest) => {
                assert(Seq::new(0, |j: int| arg_val_spec(params[j], texts[j]).unwrap()) + rest
                    =~= rest);
            },
            Err(_) => {},
        }
    } else {
        lemma_marshal_prefix(params, texts, i - 1);
        let p1 = params.skip(i - 1);
        let t1 = texts.skip(i - 1);
        assert(p1.len() > 0);
        assert(t1.len() > 0);
        assert(p1[0] == params[i - 1]);
        assert(t1[0] == texts[i - 1]);
        assert(p1.drop_first() =~= params.skip(i));
        assert(t1.drop_first() =~= texts.skip(i));
        let pre1 = Seq::new((i - 1) as nat, |j: int| arg_val_spec(params[j], texts[j]).unwrap());
        let pre = Seq::new(i as nat, |j: int| arg_val_spec(params[j], texts[j]).unwrap());
        match marshal_spec(params.skip(i), texts.skip(i)) {
            Ok(rest) => {
                assert(pre1 + (seq![arg_val_spec(params[i - 1], texts[i - 1]).unwrap()] + rest)
                    =~= pre + rest);
            },
            Err(_) => {},
        }
    }
}

/// Marshal one textual argument for each declared parameter: 32- and
/// 64-bit integers are parsed here; argument shortage, malformed integers
/// and parameter types text cannot fill are each their own error.
pub fn marshal_args(params: &Vec<ValKind>, texts: &Vec<String>) -> (r: Result<
    Vec<Val>,
    InvokeError,
>)
    ensures
        match r {
            Ok(vals) => marshal_spec(params.deep_view(), texts.deep_view()) == Ok::<
                Seq<Val>,
                InvokeError,
            >(vals@),
            Err(e) => marshal_spec(params.deep_view(), texts.deep_view()) == Err::<
                Seq<Val>,
                InvokeError,
            >(e),
        },
{
    let ghost pv = params.deep_view();
    let ghost tv = texts.deep_view();
    let mut vals: Vec<Val> = Vec::new();
    let mut i: usize = 0;
    while i < params.len()
        invariant
            0 <= i <= params@.len(),
            i <= texts@.len(),
            pv == params.deep_view(),
            tv == texts.deep_view(),
            pv.len() == params@.len(),
            tv.len() == texts@.len(),
            vals@.len() == i,
            forall|j: int|
                0 <= j < i ==> (#[trigger] arg_val_spec(pv[j], tv[j])) == Ok::<Val, InvokeError>(
                    vals@[j],
                ),
        decreases params@.len() - i,
    {
        proof {
            lemma_marshal_prefix(pv, tv, i as int);
        }
        if i >= texts.len() {
            proof {
                assert(pv.skip(i as int).len() > 0);
                assert(tv.skip(i as int).len() == 0);
            }
            return Err(InvokeError::NotEnoughArguments);
        }
        let ghost pr = pv.skip(i as int);
        let ghost tr = tv.skip(i as int);
        proof {
            assert(pr[0] == pv[i as int]);
            assert(tr[0] == tv[i as int]);
            assert(tv[i as int] == texts@[i as int]@);
        }
        let v: Val = match params[i] {
            ValKind::I32 => match parse_i32(texts[i].as_str()) {
                Some(n) => Val::I32(n),
                None => {
                    return Err(InvokeError::BadIntegerText);
                },
            },
            ValKind::I64 => match parse_i64(texts[i].as_str()) {
                Some(n) => Val::I64(n),
                None => {
                    return Err(InvokeError::BadIntegerText);
                },
            },
            ValKind::F32 => {
                return Err(InvokeError::UnsupportedParamType);
            },
            ValKind::F64 => {
                return Err(InvokeError::UnsupportedParamType);
            },
            ValKind::Other => {
                return Err(InvokeError::UnsupportedParamType);
            },
        };
        vals.push(v);
        i = i + 1;
    }
    proof {
        lemma_marshal_prefix(pv, tv, i as int);
        assert(pv.skip(i as int).len() == 0);
        assert(vals@ =~= Seq::new(i as nat, |j: int| arg_val_spec(pv[j], tv[j]).unwrap()));
    }
    Ok(vals)
}

/// Invocation arity (law): when a function declares more parameters than
/// textual arguments were supplied, marshalling fails — no partial call is
/// assembled — and when every supplied argument does parse, the failure is
/// the argument-count error itself.
pub proof fn lemma_invocation_arity(params: Seq<ValKind>, texts: Seq<Seq<char>>)
    requires
        texts.len() < params.len(),
    ensures
        marshal_spec(params, texts) is Err,
        (forall|i: int| 0 <= i < texts.len() ==> (#[trigger] arg_val_spec(params[i], texts[i]))
            is Ok) ==> marshal_spec(params, texts) == Err::<Seq<Val>, InvokeError>(
            InvokeError::NotEnoughArguments,
        ),
    decreases texts.len(),
{
    if texts.len() == 0 {
        assert(params.len() > 0);
    } else {
        match arg_val_spec(params[0], texts[0]) {
            Ok(_) => {
                lemma_invocation_arity(params.drop_first(), texts.drop_first());
                assert forall|i: int|
                    0 <= i < texts.len() && (forall|j: int|
                        0 <= j < texts.len() ==> (#[trigger] arg_val_spec(params[j], texts[j]))
                            is Ok) implies (#[trigger] arg_val_spec(
                    params.drop_first()[i - 1],
                    texts.drop_first()[i - 1],
                )) is Ok || i == 0 by {}
            },
            Err(_) => {},
        }
    }
}

/// Whether invoking this function consumes textual arguments at all; the
/// embedder prints its one-time advisory exactly when it does.
pub fn takes_arguments(sig: &FuncSig) -> (r: bool)
    ensures
        r == (sig.params@.len() > 0),
{
    sig.params.len() > 0
}

/// The zero-valued placeholders the result vector is seeded with: one null
/// reference per declared result.
pub fn default_results(count: usize) -> (r: Vec<Val>)
    ensures
        r@.len() == count,
        forall|i: int| 0 <= i < count ==> r@[i] == Val::NullRef,
    decreases count,
{
    let mut r: Vec<Val> = Vec::new();
    let mut i: usize = 0;
    while i < count
        invariant
            i <= count,
            r@.len() == i,
            forall|j: int| 0 <= j < i ==> r@[j] == Val::NullRef,
        decreases count - i,
    {
        r.push(Val::NullRef);
        i = i + 1;
    }
    r
}

} // verus!
