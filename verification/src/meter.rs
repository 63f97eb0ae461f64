//! The levels of a stretch of recorded sound.
use crate::event::DictationIndicatorEvent;
use crate::scalar::{absolute, is_nan, magnitude, nan, Scalar, ZERO};
use vstd::prelude::*;

verus! {

/// Whether `peak` is the largest magnitude among the samples that are not NaN, or zero
/// where there is none.
pub open spec fn is_peak(samples: Seq<Scalar>, peak: Scalar) -> bool {
    &&& !is_nan(peak)
    &&& forall|i: int|
        0 <= i < samples.len() && !is_nan(#[trigger] samples[i]) ==> magnitude(samples[i]) <= peak
    &&& peak == ZERO || exists|i: int|
        0 <= i < samples.len() && !is_nan(#[trigger] samples[i]) && magnitude(samples[i]) == peak
}

/// Finds the largest magnitude among `samples`.
pub fn peak_of(samples: &[Scalar]) -> (peak: Scalar)
    ensures
        is_peak(samples@, peak),
{
    let mut peak: Scalar = ZERO;
    let mut i: usize = 0;
    while i < samples.len()
        invariant
            i <= samples.len(),
            is_peak(samples@.take(i as int), peak),
        decreases samples.len() - i,
    {
        let sample: Scalar = samples[i];
        let ghost before = samples@.take(i as int);
        let ghost seen = samples@.take(i + 1);
        assert(forall|j: int| 0 <= j < i ==> #[trigger] before[j] == seen[j]);
        assert(seen[i as int] == sample);
        if !nan(sample) && absolute(sample) > peak {
            peak = absolute(sample);
        } else if peak != ZERO {
            assert(exists|j: int|
                0 <= j < before.len() && !is_nan(#[trigger] before[j]) && magnitude(before[j])
                    == peak);
            let ghost j = choose|j: int|
                0 <= j < before.len() && !is_nan(#[trigger] before[j]) && magnitude(before[j])
                    == peak;
            assert(seen[j] == before[j]);
        }
        i += 1;
    }
    assert(samples@.take(i as int) =~= samples@);
    peak
}

/// Whether `event` reports `samples`, whose root mean square is `average`.
pub open spec fn is_report(
    samples: Seq<Scalar>,
    average: Scalar,
    event: Option<DictationIndicatorEvent>,
) -> bool {
    match event {
        None => samples.len() == 0,
        Some(DictationIndicatorEvent::Meter { average: reported, peak }) => {
            samples.len() > 0 && reported == average && is_peak(samples, peak)
        },
        Some(_) => false,
    }
}

/// Reports `samples` by their root mean square `average` and their peak; silence of no
/// length reports nothing.
pub fn meter(samples: &[Scalar], average: Scalar) -> (event: Option<DictationIndicatorEvent>)
    ensures
        is_report(samples@, average, event),
        event is None <==> samples@.len() == 0,
        event matches Some(e) ==> e is Meter && e->average == average && is_peak(
            samples@,
            e->peak,
        ),
{
    if samples.len() == 0 {
        return None;
    }
    let peak: Scalar = peak_of(samples);
    Some(DictationIndicatorEvent::Meter { average, peak })
}

/// The samples determine their peak.
pub proof fn law_peak_is_unique(samples: Seq<Scalar>, one: Scalar, other: Scalar)
    requires
        is_peak(samples, one),
        is_peak(samples, other),
    ensures
        one == other,
{
    if one != ZERO {
        let i = choose|i: int|
            0 <= i < samples.len() && !is_nan(#[trigger] samples[i]) && magnitude(samples[i])
                == one;
        assert(magnitude(samples[i]) <= other);
    }
    if other != ZERO {
        let i = choose|i: int|
            0 <= i < samples.len() && !is_nan(#[trigger] samples[i]) && magnitude(samples[i])
                == other;
        assert(magnitude(samples[i]) <= one);
    }
}

/// No samples have the peak zero; one more sample raises the peak to its magnitude if that is
/// larger, and is passed over if it is no number.
pub proof fn law_peak_grows_with_the_samples(
    samples: Seq<Scalar>,
    sample: Scalar,
    before: Scalar,
    after: Scalar,
)
    requires
        is_peak(samples, before),
        is_peak(samples.push(sample), after),
    ensures
        samples.len() == 0 ==> before == ZERO,
        is_nan(sample) ==> after == before,
        !is_nan(sample) && magnitude(sample) > before ==> after == magnitude(sample),
        !is_nan(sample) && magnitude(sample) <= before ==> after == before,
{
    let more = samples.push(sample);
    assert(more[samples.len() as int] == sample);
    assert(forall|i: int| 0 <= i < samples.len() ==> #[trigger] more[i] == samples[i]);
    if before != ZERO {
        let i = choose|i: int|
            0 <= i < samples.len() && !is_nan(#[trigger] samples[i]) && magnitude(samples[i])
                == before;
        assert(more[i] == samples[i]);
        assert(before <= after);
    }
    if after != ZERO {
        let i = choose|i: int|
            0 <= i < more.len() && !is_nan(#[trigger] more[i]) && magnitude(more[i]) == after;
        if i < samples.len() {
            assert(samples[i] == more[i]);
            assert(after <= before);
        }
    }
}

/// Any samples at all are reported, by their average and by a level that none of them exceeds;
/// there is one such report.
pub proof fn law_reports_hold_average_and_peak(
    samples: Seq<Scalar>,
    average: Scalar,
    one: Option<DictationIndicatorEvent>,
    other: Option<DictationIndicatorEvent>,
    i: int,
)
    requires
        is_report(samples, average, one),
        is_report(samples, average, other),
        0 <= i < samples.len(),
    ensures
        one == other,
        one matches Some(event) && event is Meter && event->average == average && (!is_nan(
            samples[i],
        ) ==> magnitude(samples[i]) <= event->peak),
{
    match (one, other) {
        (
            Some(DictationIndicatorEvent::Meter { peak, .. }),
            Some(DictationIndicatorEvent::Meter { peak: other_peak, .. }),
        ) => {
            law_peak_is_unique(samples, peak, other_peak);
        },
        _ => {},
    }
}

} // verus!
