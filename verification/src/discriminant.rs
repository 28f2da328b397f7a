//! The discriminant evaluator: an explicit discriminant is accepted only as a
//! bare base-10 integer literal, read as a signed 64-bit value.
//!
//! Here also lives the successor rule that assigns every variant its
//! discriminant: an explicit literal sets the running value, every other
//! variant gets one more than its predecessor (zero for the first).

use vstd::prelude::*;

use crate::model::{DiscrExpr, DiscrExprView, SourceVariantView, TransformError};

verus! {

/// Whether `c` is a decimal digit.
pub open spec fn is_digit(c: char) -> bool {
    ('0' as int) <= (c as int) && (c as int) <= ('9' as int)
}

/// Whether `s` is a non-empty run of decimal digits.
pub open spec fn is_digit_seq(s: Seq<char>) -> bool {
    s.len() > 0 && forall|i: int| 0 <= i < s.len() ==> is_digit(#[trigger] s[i])
}

/// The number a run of decimal digits denotes.
pub open spec fn digits_value(s: Seq<char>) -> int
    decreases s.len(),
{
    if s.len() == 0 {
        0
    } else {
        10 * digits_value(s.drop_last()) + (s.last() as int - '0' as int)
    }
}

/// A run of decimal digits denotes a number at least as large as any of its
/// prefixes denotes.
pub proof fn lemma_digits_value_prefix(s: Seq<char>, k: int)
    requires
        0 <= k <= s.len(),
        forall|i: int| 0 <= i < s.len() ==> is_digit(#[trigger] s[i]),
    ensures
        0 <= digits_value(s.take(k)) <= digits_value(s),
    decreases s.len() - k,
{
    if k == s.len() {
        assert(s.take(k) =~= s);
        lemma_digits_value_nonneg(s);
    } else {
        lemma_digits_value_prefix(s, k + 1);
        assert(s.take(k + 1).drop_last() =~= s.take(k));
        assert(s.take(k + 1).last() == s[k]);
        lemma_digits_value_nonneg(s.take(k));
    }
}

/// A run of decimal digits denotes a non-negative number.
pub proof fn lemma_digits_value_nonneg(s: Seq<char>)
    requires
        forall|i: int| 0 <= i < s.len() ==> is_digit(#[trigger] s[i]),
    ensures
        digits_value(s) >= 0,
    decreases s.len(),
{
    if s.len() > 0 {
        lemma_digits_value_nonneg(s.drop_last());
    }
}

/// Reads a non-empty run of decimal digits as a signed 64-bit value.
///
/// Returns the denoted number exactly when the text is such a run and the
/// number fits; `None` otherwise.
pub fn parse_decimal(digits: &str) -> (r: Option<i64>)
    ensures
        (r is Some) == (is_digit_seq(digits@) && digits_value(digits@) <= i64::MAX as int),
        r matches Some(v) ==> v as int == digits_value(digits@),
{
    let n = digits.unicode_len();
    if n == 0 {
        return None;
    }
    let mut acc: i64 = 0;
    let mut i: usize = 0;
    while i < n
        invariant
            n == digits@.len(),
            0 < n,
            i <= n,
            forall|j: int| 0 <= j < i ==> is_digit(#[trigger] digits@[j]),
            acc as int == digits_value(digits@.take(i as int)),
            0 <= acc,
        decreases n - i,
    {
        let c = digits.get_char(i);
        let u = c as u32;
        if u < 48 || u > 57 {
            assert(!is_digit(digits@[i as int]));
            return None;
        }
        let d = (u - 48) as i64;
        assert(is_digit(digits@[i as int]));
        if acc > (i64::MAX - d) / 10 {
            proof {
                assert(digits_value(digits@.take(i as int + 1)) > i64::MAX as int) by {
                    assert(digits@.take(i as int + 1).drop_last() =~= digits@.take(i as int));
                    assert(digits@.take(i as int + 1).last() == digits@[i as int]);
                };
                if is_digit_seq(digits@) {
                    lemma_digits_value_prefix(digits@, i as int + 1);
                }
            }
            return None;
        }
        proof {
            assert(10 * ((i64::MAX - d) / 10) <= i64::MAX - d);
        }
        acc = acc * 10 + d;
        proof {
            assert(digits@.take(i as int + 1).drop_last() =~= digits@.take(i as int));
            assert(digits@.take(i as int + 1).last() == digits@[i as int]);
        }
        i += 1;
    }
    proof {
        assert(digits@.take(n as int) =~= digits@);
    }
    Some(acc)
}

/// The outcome the evaluator owes for the explicit discriminant `d` of the
/// variant at position `variant`: the literal's value when it is a run of
/// digits denoting a signed 64-bit value, and the matching failure otherwise.
pub open spec fn eval_discr(d: DiscrExprView, variant: usize) -> Result<i64, TransformError> {
    match d {
        DiscrExprView::IntLiteral(s) => if is_digit_seq(s) && digits_value(s) <= i64::MAX as int {
            Ok(digits_value(s) as i64)
        } else if is_digit_seq(s) {
            Err(TransformError::DiscriminantOutOfRange { variant })
        } else {
            Err(TransformError::NonIntegerDiscriminant { variant })
        },
        DiscrExprView::Other => Err(TransformError::NonIntegerDiscriminant { variant }),
    }
}

/// Evaluates an explicit discriminant expression to its integer value.
///
/// Only a bare integer literal is accepted; the value is read as a signed
/// 64-bit integer. `variant` names the position whose source span a failure
/// is reported at.
pub fn evaluate_discriminant_expr(discriminant: &DiscrExpr, variant: usize) -> (r: Result<
    i64,
    TransformError,
>)
    ensures
        r == eval_discr(discriminant@, variant),
{
    match discriminant {
        DiscrExpr::IntLiteral(s) => {
            match parse_decimal(s.as_str()) {
                Some(v) => Ok(v),
                None => {
                    if is_digit_run(s.as_str()) {
                        Err(TransformError::DiscriminantOutOfRange { variant })
                    } else {
                        Err(TransformError::NonIntegerDiscriminant { variant })
                    }
                },
            }
        },
        DiscrExpr::Other => Err(TransformError::NonIntegerDiscriminant { variant }),
    }
}

/// Whether the text is a non-empty run of decimal digits.
fn is_digit_run(digits: &str) -> (r: bool)
    ensures
        r == is_digit_seq(digits@),
{
    let n = digits.unicode_len();
    if n == 0 {
        return false;
    }
    let mut i: usize = 0;
    while i < n
        invariant
            n == digits@.len(),
            0 < n,
            i <= n,
            forall|j: int| 0 <= j < i ==> is_digit(#[trigger] digits@[j]),
        decreases n - i,
    {
        let c = digits.get_char(i);
        let u = c as u32;
        if u < 48 || u > 57 {
            assert(!is_digit(digits@[i as int]));
            return false;
        }
        assert(is_digit(digits@[i as int]));
        i += 1;
    }
    true
}

/// The value the variant at position `i` explicitly carries, when it carries
/// a well-formed one.
pub open spec fn explicit_value(v: SourceVariantView) -> Option<int> {
    match v.discriminant {
        Some(DiscrExprView::IntLiteral(s)) => if is_digit_seq(s) && digits_value(s)
            <= i64::MAX as int {
            Some(digits_value(s))
        } else {
            None
        },
        _ => None,
    }
}

/// The discriminant of the variant at position `i` under the successor rule:
/// an explicit literal sets it, otherwise it is one more than the previous
/// variant's (zero for the first variant).
pub open spec fn discr_at(vs: Seq<SourceVariantView>, i: int) -> int
    decreases i,
{
    match explicit_value(vs[i]) {
        Some(n) => n,
        None => if i <= 0 {
            0
        } else {
            discr_at(vs, i - 1) + 1
        },
    }
}

/// Discriminant identity: a variant with an explicit discriminant takes
/// exactly that value; any other variant takes one more than its
/// predecessor's value, and the first variant takes zero.
pub proof fn lemma_discriminant_identity(vs: Seq<SourceVariantView>, i: int)
    requires
        0 <= i < vs.len(),
    ensures
        explicit_value(vs[i]) matches Some(n) ==> discr_at(vs, i) == n,
        explicit_value(vs[i]) is None && i == 0 ==> discr_at(vs, i) == 0,
        explicit_value(vs[i]) is None && i > 0 ==> discr_at(vs, i) == discr_at(vs, i - 1) + 1,
{
}

} // verus!
