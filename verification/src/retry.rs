//! Retry guidance attached to errors.
use std::time::Duration;

use vstd::prelude::*;

use crate::text::{decimal, decimal_text, digits_value, is_digit, lemma_decimal_reads_back};

verus! {

/// The whole number of milliseconds that [`Duration::as_millis`] returns
/// for a duration.
pub uninterp spec fn duration_millis(duration: Duration) -> u128;

/// Calls [`Duration::as_millis`]. Its result is named by
/// [`duration_millis`]: a function of the duration alone.
#[verifier::external_body]
fn duration_as_millis(duration: &Duration) -> (millis: u128)
    ensures
        millis == duration_millis(*duration),
{
    duration.as_millis()
}

/// Retry guidance attached to an error.
///
/// It tells callers whether an operation may be retried and whether a delay
/// is advised; it does not schedule, execute or limit retries.
#[derive(Debug, PartialEq, Eq)]
pub enum RetryHint {
    /// The operation should not be retried.
    Never,
    /// The operation may be retried immediately.
    Safe,
    /// The operation may be retried after a suggested delay.
    After(Duration),
}

impl RetryHint {
    /// Whether the hint allows a retry.
    pub open spec fn spec_is_retryable(&self) -> bool {
        !(self is Never)
    }

    /// Whether the hint carries a delay.
    pub open spec fn spec_has_delay(&self) -> bool {
        self is After
    }

    /// The suggested delay, if any.
    pub open spec fn spec_retry_after(&self) -> Option<Duration> {
        match self {
            RetryHint::After(duration) => Some(*duration),
            _ => None,
        }
    }

    /// The suggested delay in whole milliseconds, truncated to `u64`, if any.
    pub open spec fn spec_retry_after_ms(&self) -> Option<u64> {
        match self {
            RetryHint::After(duration) => Some(duration_millis(*duration) as u64),
            _ => None,
        }
    }

    /// The readable text of the hint: `never`, `safe` or `after(<ms>ms)`.
    pub open spec fn spec_text(&self) -> Seq<char> {
        match self {
            RetryHint::Never => "never"@,
            RetryHint::Safe => "safe"@,
            RetryHint::After(duration) => "after("@ + decimal(duration_millis(*duration) as nat)
                + "ms)"@,
        }
    }

    /// Returns `true` if the operation is retryable: `false` for `Never`,
    /// `true` for `Safe` and `After`.
    #[verifier::when_used_as_spec(spec_is_retryable)]
    pub fn is_retryable(&self) -> (retryable: bool)
        ensures
            retryable == self.spec_is_retryable(),
    {
        match self {
            RetryHint::Never => false,
            _ => true,
        }
    }

    /// Returns the suggested retry delay: `Some` only for `After`.
    #[verifier::when_used_as_spec(spec_retry_after)]
    pub fn retry_after(&self) -> (delay: Option<Duration>)
        ensures
            delay == self.spec_retry_after(),
    {
        match self {
            RetryHint::After(duration) => Some(*duration),
            RetryHint::Never | RetryHint::Safe => None,
        }
    }

    /// Returns `true` if this hint contains a delayed retry recommendation.
    #[verifier::when_used_as_spec(spec_has_delay)]
    pub fn has_delay(&self) -> (delayed: bool)
        ensures
            delayed == self.spec_has_delay(),
    {
        match self {
            RetryHint::After(_) => true,
            _ => false,
        }
    }

    /// Returns the suggested retry delay in milliseconds, if any.
    ///
    /// The whole number of milliseconds is truncated to `u64`.
    #[verifier::when_used_as_spec(spec_retry_after_ms)]
    pub fn retry_after_ms(&self) -> (millis: Option<u64>)
        ensures
            millis == self.spec_retry_after_ms(),
    {
        match self {
            RetryHint::After(duration) => {
                let total = duration_as_millis(duration);
                Some(#[verifier::truncate] (total as u64))
            },
            RetryHint::Never | RetryHint::Safe => None,
        }
    }

    /// Returns the readable text of the hint.
    pub fn to_string(&self) -> (text: String)
        ensures
            text@ == self.spec_text(),
    {
        match self {
            RetryHint::Never => String::from_str("never"),
            RetryHint::Safe => String::from_str("safe"),
            RetryHint::After(duration) => {
                let millis = duration_as_millis(duration);
                let mut text = String::from_str("after(");
                let digits = decimal_text(millis);
                text.append(digits.as_str());
                text.append("ms)");
                text
            },
        }
    }
}

impl Clone for RetryHint {
    fn clone(&self) -> (copy: Self)
        ensures
            copy == *self,
    {
        match self {
            RetryHint::Never => RetryHint::Never,
            RetryHint::Safe => RetryHint::Safe,
            RetryHint::After(duration) => RetryHint::After(*duration),
        }
    }
}

/// How the questions a hint answers relate: only `Never` forbids a retry,
/// only `After(d)` carries a delay, which is `d`, and its milliseconds are
/// the whole milliseconds of `d` modulo 2^64.
pub proof fn lemma_retry_hint_consistent(hint: RetryHint)
    ensures
        hint.spec_has_delay() ==> hint.spec_is_retryable(),
        hint.spec_retry_after() is Some <==> hint.spec_has_delay(),
        hint.spec_retry_after_ms() is Some <==> hint.spec_has_delay(),
        !hint.spec_is_retryable() <==> hint == RetryHint::Never,
        hint.spec_has_delay() <==> hint is After,
        forall|d: Duration| hint.spec_retry_after() == Some(d) <==> hint == RetryHint::After(d),
        hint matches RetryHint::After(d) ==> hint.spec_retry_after_ms()->0 as int == duration_millis(
            d,
        ) as int % 0x1_0000_0000_0000_0000,
{
    if let RetryHint::After(d) = hint {
        let m = duration_millis(d);
        assert((m as u64) as int == m as int % 0x1_0000_0000_0000_0000) by (bit_vector);
    }
}

/// The text of a delayed hint is `after(`, then the whole milliseconds of
/// the delay written in base ten (digits only, no leading zero), then `ms)`,
/// for every duration; `Never` and `Safe` read `never` and `safe`.
pub proof fn lemma_retry_text_shows_millis(duration: Duration)
    ensures
        ({
            let t = RetryHint::After(duration).spec_text();
            let digits = t.subrange(6, t.len() - 3);
            &&& t.len() > 9
            &&& t.take(6) == "after("@
            &&& t.skip(t.len() - 3) == "ms)"@
            &&& forall|i: int| 0 <= i < digits.len() ==> is_digit(#[trigger] digits[i])
            &&& digits_value(digits) == duration_millis(duration) as int
            &&& digits.len() > 1 ==> digits[0] != '0'
        }),
        RetryHint::Never.spec_text() == "never"@,
        RetryHint::Safe.spec_text() == "safe"@,
{
    reveal_strlit("after(");
    reveal_strlit("ms)");
    let n = duration_millis(duration) as nat;
    lemma_decimal_reads_back(n);
    let t = RetryHint::After(duration).spec_text();
    let d = decimal(n);
    assert(t =~= "after("@ + d + "ms)"@);
    assert(t.take(6) =~= "after("@);
    assert(t.skip(t.len() - 3) =~= "ms)"@);
    assert(t.subrange(6, t.len() - 3) =~= d);
}

} // verus!
