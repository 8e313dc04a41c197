use vstd::prelude::*;

use crate::errors::BarcodeError;

verus! {

/// The time gap between two consecutive sampled frames, held exactly as the
/// rational number `seconds_num / seconds_den` seconds.
#[derive(Clone, Copy, PartialEq, Eq, Structural, Debug)]
pub struct SamplingInterval {
    pub seconds_num: u64,
    pub seconds_den: u64,
}

impl SamplingInterval {
    /// A sampling interval is a positive number of seconds.
    pub open spec fn wf(self) -> bool {
        self.seconds_num > 0 && self.seconds_den > 0
    }
}

/// Computes the sampling interval for a video of `duration_seconds` seconds:
/// exactly `duration_seconds / (target_width + margin)` seconds, so that an
/// extractor sampling at that interval produces at least `target_width + margin`
/// frames. A zero duration leaves the interval undefined and is rejected.
pub fn plan_interval(duration_seconds: u64, target_width: u64, margin: u64) -> (r: Result<
    SamplingInterval,
    BarcodeError,
>)
    requires
        target_width >= 1,
        target_width + margin <= u64::MAX,
    ensures
        r is Ok <==> duration_seconds > 0,
        (r matches Ok(iv) ==> iv.wf() && iv.seconds_num == duration_seconds && iv.seconds_den
            == target_width + margin),
        (r matches Err(e) ==> e == BarcodeError::ZeroOrInvalidDuration),
{
    if duration_seconds == 0 {
        Err(BarcodeError::ZeroOrInvalidDuration)
    } else {
        Ok(SamplingInterval { seconds_num: duration_seconds, seconds_den: target_width + margin })
    }
}

/// The least whole number of samples that covers `a / b`: the ceiling of the
/// quotient.
pub open spec fn ceil_div(a: int, b: int) -> int {
    (a + b - 1) / b
}

/// An extractor that samples every `seconds_num / seconds_den` seconds over a
/// `duration` second video produces `ceil(duration * seconds_den / seconds_num)`
/// frames. For the planned interval that count is exactly
/// `target_width + margin`, which is never below the output width: the margin
/// only adds frames.
pub proof fn lemma_planned_interval_covers_width(
    duration: u64,
    target_width: u64,
    margin: u64,
    iv: SamplingInterval,
)
    requires
        duration > 0,
        target_width >= 1,
        target_width + margin <= u64::MAX,
        iv.seconds_num == duration,
        iv.seconds_den == target_width + margin,
    ensures
        ceil_div(duration * iv.seconds_den, iv.seconds_num as int) == target_width + margin,
        ceil_div(duration * iv.seconds_den, iv.seconds_num as int) >= target_width,
{
    let d = duration as int;
    let k = target_width + margin;
    assert(d * k + d - 1 == k * d + (d - 1)) by (nonlinear_arith);
    vstd::arithmetic::div_mod::lemma_fundamental_div_mod_converse(
        d * k + d - 1,
        d,
        k as int,
        d - 1,
    );
}

} // verus!
