//! Peak meter over the genuine captured input.

use vstd::prelude::*;

use crate::time::{elapsed, Instant};

verus! {

/// Age beyond which an observation is no longer presented, in nanoseconds.
pub const METER_STALE_NANOS: u64 = 1_000_000_000;

/// Full scale in thousandths.
pub const METER_FULL_SCALE: u16 = 1_000;

/// Best-effort peak recorder of one capture generation at a time.
#[derive(Clone, Copy, Debug, PartialEq, Eq, Structural)]
pub struct CaptureInputMeter {
    /// Generation whose observations are accepted.
    pub generation: Option<u64>,
    /// Whether the current window holds an observation.
    pub observed: bool,
    /// Largest peak of the current window, in thousandths.
    pub peak_permille: u16,
    /// First observation of the current window.
    pub observed_at: Option<Instant>,
}

/// A meter that accepts nothing.
pub open spec fn idle_meter() -> CaptureInputMeter {
    CaptureInputMeter { generation: None, observed: false, peak_permille: 0, observed_at: None }
}

/// Whether the current window started longer than a second before `now`.
pub open spec fn window_stale(meter: CaptureInputMeter, now: Instant) -> bool {
    meter.observed_at matches Some(oldest) && elapsed(oldest, now) > METER_STALE_NANOS
}

/// The meter with an empty window.
pub open spec fn window_emptied(meter: CaptureInputMeter) -> CaptureInputMeter {
    CaptureInputMeter { observed: false, peak_permille: 0, observed_at: None, ..meter }
}

/// A peak cut off at full scale.
pub open spec fn capped_peak(peak_permille: u16) -> u16 {
    if peak_permille > METER_FULL_SCALE { METER_FULL_SCALE } else { peak_permille }
}

/// The meter after a peak of `generation` at `now`: other generations are
/// ignored, a stale window starts over, and the largest peak is kept.
pub open spec fn peak_recorded(
    meter: CaptureInputMeter,
    generation: u64,
    peak_permille: u16,
    now: Instant,
) -> CaptureInputMeter {
    if meter.generation != Some(generation) {
        meter
    } else {
        let window = if window_stale(meter, now) { window_emptied(meter) } else { meter };
        let capped = capped_peak(peak_permille);
        CaptureInputMeter {
            observed: true,
            peak_permille: if window.peak_permille < capped { capped } else { window.peak_permille },
            observed_at: if window.observed_at is Some { window.observed_at } else { Some(now) },
            ..window
        }
    }
}

/// What sampling the window of `generation` at `now` gives: the peak of a
/// window that was observed and is not stale.
pub open spec fn window_sample(meter: CaptureInputMeter, generation: u64, now: Instant) -> Option<u16> {
    if meter.generation == Some(generation) && meter.observed && meter.observed_at is Some
        && !window_stale(meter, now) {
        Some(meter.peak_permille)
    } else {
        None
    }
}

impl Default for CaptureInputMeter {
    fn default() -> (r: Self)
        ensures
            r == idle_meter(),
    {
        CaptureInputMeter { generation: None, observed: false, peak_permille: 0, observed_at: None }
    }
}

impl CaptureInputMeter {
    /// Starts accepting observations of `generation` only.
    pub fn begin_generation(&mut self, generation: u64)
        ensures
            *final(self) == (CaptureInputMeter { generation: Some(generation), ..idle_meter() }),
    {
        *self = CaptureInputMeter {
            generation: Some(generation),
            observed: false,
            peak_permille: 0,
            observed_at: None,
        };
    }

    /// Generation whose observations are accepted.
    pub fn generation(&self) -> (r: Option<u64>)
        ensures
            r == self.generation,
    {
        self.generation
    }

    /// Stops accepting observations of `generation`.
    pub fn invalidate_generation(&mut self, generation: u64)
        ensures
            *final(self) == if old(self).generation == Some(generation) {
                idle_meter()
            } else {
                *old(self)
            },
    {
        if self.generation == Some(generation) {
            *self = CaptureInputMeter::default();
        }
    }

    /// Empties the window of `generation`.
    pub fn discard_window(&mut self, generation: u64)
        ensures
            *final(self) == if old(self).generation == Some(generation) {
                window_emptied(*old(self))
            } else {
                *old(self)
            },
    {
        if self.generation == Some(generation) {
            self.empty_window();
        }
    }

    fn empty_window(&mut self)
        ensures
            *final(self) == window_emptied(*old(self)),
    {
        self.observed = false;
        self.peak_permille = 0;
        self.observed_at = None;
    }

    /// Records a peak of `generation` observed at `observed_at`.
    pub fn record_peak_at(&mut self, generation: u64, peak_permille: u16, observed_at: Instant)
        ensures
            *final(self) == peak_recorded(*old(self), generation, peak_permille, observed_at),
    {
        if self.generation != Some(generation) {
            return;
        }
        let stale: bool = match self.observed_at {
            Some(oldest) => observed_at.duration_since(oldest).nanos > METER_STALE_NANOS,
            None => false,
        };
        if stale {
            self.empty_window();
        }
        self.observed = true;
        let capped: u16 = if peak_permille > METER_FULL_SCALE { METER_FULL_SCALE } else { peak_permille };
        if self.peak_permille < capped {
            self.peak_permille = capped;
        }
        if self.observed_at.is_none() {
            self.observed_at = Some(observed_at);
        }
    }

    /// Consumes the window of `generation` at `now`.
    pub fn take_window_at(&mut self, generation: u64, now: Instant) -> (r: Option<u16>)
        ensures
            r == window_sample(*old(self), generation, now),
            *final(self) == if old(self).generation == Some(generation) && old(self).observed {
                window_emptied(*old(self))
            } else {
                *old(self)
            },
    {
        if self.generation != Some(generation) || !self.observed {
            return None;
        }
        let peak: u16 = self.peak_permille;
        let fresh: bool = match self.observed_at {
            Some(observed_at) => now.duration_since(observed_at).nanos <= METER_STALE_NANOS,
            None => false,
        };
        self.empty_window();
        if fresh {
            Some(peak)
        } else {
            None
        }
    }
}

/// Measured silence is an observation: a recorded zero reads as zero, while a
/// window without any observation reads as nothing.
pub proof fn law_silence_differs_from_no_observation(generation: u64, now: Instant)
    ensures
        ({
            let fresh = CaptureInputMeter { generation: Some(generation), ..idle_meter() };
            &&& window_sample(fresh, generation, now) is None
            &&& window_sample(peak_recorded(fresh, generation, 0, now), generation, now) == Some(0u16)
        }),
{
}

/// A cancelled or replaced generation can neither write nor be read.
pub proof fn law_other_generations_cannot_use_the_meter(
    meter: CaptureInputMeter,
    generation: u64,
    peak_permille: u16,
    now: Instant,
)
    requires
        meter.generation != Some(generation),
    ensures
        peak_recorded(meter, generation, peak_permille, now) == meter,
        window_sample(meter, generation, now) is None,
{
}

/// A sample lies within full scale, covers every peak of its window, and is
/// never older than a second.
pub proof fn law_samples_are_bounded_and_fresh(
    meter: CaptureInputMeter,
    generation: u64,
    peak_permille: u16,
    seen: Instant,
    now: Instant,
)
    requires
        meter.peak_permille <= METER_FULL_SCALE,
        meter.generation == Some(generation),
    ensures
        ({
            let after = peak_recorded(meter, generation, peak_permille, seen);
            &&& after.peak_permille <= METER_FULL_SCALE
            &&& peak_permille <= METER_FULL_SCALE ==> after.peak_permille >= peak_permille
            &&& window_sample(after, generation, now) matches Some(peak) ==> peak == after.peak_permille
                && elapsed(after.observed_at->0, now) <= METER_STALE_NANOS
        }),
{
}

/// One recorded peak.
pub struct PeakRecord {
    /// Generation that observed it.
    pub generation: u64,
    /// Peak, in thousandths.
    pub peak_permille: u16,
    /// When it was observed.
    pub at: Instant,
}

/// The meter after a list of recorded peaks.
pub open spec fn peaks_recorded(meter: CaptureInputMeter, records: Seq<PeakRecord>) -> CaptureInputMeter
    decreases records.len(),
{
    if records.len() == 0 {
        meter
    } else {
        let record = records.last();
        peak_recorded(
            peaks_recorded(meter, records.drop_last()),
            record.generation,
            record.peak_permille,
            record.at,
        )
    }
}

/// Position of the record that opened the current window of `generation`: the
/// first one, or the latest that came more than a second after the one that
/// opened the window before it.
pub open spec fn window_opener(records: Seq<PeakRecord>, generation: u64) -> Option<int>
    decreases records.len(),
{
    if records.len() == 0 {
        None
    } else {
        let before = window_opener(records.drop_last(), generation);
        if records.last().generation != generation {
            before
        } else {
            match before {
                Some(opener) => if elapsed(records[opener].at, records.last().at)
                    > METER_STALE_NANOS {
                    Some(records.len() - 1)
                } else {
                    before
                },
                None => Some(records.len() - 1),
            }
        }
    }
}

/// Whether `peak` is the largest capped peak that `generation` recorded from
/// position `from` on.
pub open spec fn largest_peak(records: Seq<PeakRecord>, generation: u64, from: int, peak: u16) -> bool {
    &&& exists|i: int|
        from <= i < records.len() && (#[trigger] records[i]).generation == generation
            && capped_peak(records[i].peak_permille) == peak
    &&& forall|i: int|
        from <= i < records.len() && (#[trigger] records[i]).generation == generation
            ==> capped_peak(records[i].peak_permille) <= peak
}

/// From an empty window on, sampling gives the largest capped peak that the
/// meter's generation recorded since its current window opened, as long as
/// that window is no older than a second, and nothing where nothing was
/// recorded. Peaks of other generations count for nothing.
pub proof fn law_window_gives_its_largest_peak(
    meter: CaptureInputMeter,
    generation: u64,
    records: Seq<PeakRecord>,
    now: Instant,
)
    requires
        meter == (CaptureInputMeter { generation: Some(generation), ..idle_meter() }),
    ensures
        ({
            let after = peaks_recorded(meter, records);
            match window_opener(records, generation) {
                None => {
                    &&& after == meter
                    &&& window_sample(after, generation, now) is None
                    &&& forall|i: int|
                        0 <= i < records.len() ==> (#[trigger] records[i]).generation != generation
                },
                Some(opener) => {
                    &&& 0 <= opener < records.len()
                    &&& records[opener].generation == generation
                    &&& after.observed_at == Some(records[opener].at)
                    &&& largest_peak(records, generation, opener, after.peak_permille)
                    &&& window_sample(after, generation, now) == if elapsed(records[opener].at, now)
                        <= METER_STALE_NANOS {
                        Some(after.peak_permille)
                    } else {
                        None
                    }
                },
            }
        }),
    decreases records.len(),
{
    if records.len() > 0 {
        let front = records.drop_last();
        let record = records.last();
        law_window_gives_its_largest_peak(meter, generation, front, now);
        lemma_metering_keeps_the_generation(meter, records);
        lemma_metering_keeps_the_generation(meter, front);
        let before = peaks_recorded(meter, front);
        let after = peaks_recorded(meter, records);
        assert(records[records.len() - 1] == record);
        assert(forall|i: int| 0 <= i < front.len() ==> front[i] == records[i]);
        match window_opener(front, generation) {
            Some(opener) => {
                let held = choose|i: int|
                    opener <= i < front.len() && (#[trigger] front[i]).generation == generation
                        && capped_peak(front[i].peak_permille) == before.peak_permille;
                assert(records[held] == front[held]);
                assert(records[opener] == front[opener]);
                if window_opener(records, generation) == Some(opener) {
                    if after.peak_permille == before.peak_permille {
                        assert(capped_peak(records[held].peak_permille) == after.peak_permille);
                    } else {
                        assert(capped_peak(records[records.len() - 1].peak_permille)
                            == after.peak_permille);
                    }
                    assert forall|i: int|
                        opener <= i < records.len() && (#[trigger] records[i]).generation
                            == generation implies capped_peak(records[i].peak_permille)
                        <= after.peak_permille by {
                        if i < front.len() {
                            assert(front[i] == records[i]);
                        }
                    }
                }
            },
            None => {
                assert forall|i: int| 0 <= i < front.len() implies (#[trigger] records[i]).generation
                    != generation by {
                    assert(front[i].generation != generation);
                }
            },
        }
    }
}

proof fn lemma_metering_keeps_the_generation(meter: CaptureInputMeter, records: Seq<PeakRecord>)
    requires
        meter.observed_at is Some <==> meter.observed,
    ensures
        peaks_recorded(meter, records).generation == meter.generation,
        peaks_recorded(meter, records).observed_at is Some <==> peaks_recorded(meter, records).observed,
    decreases records.len(),
{
    if records.len() > 0 {
        lemma_metering_keeps_the_generation(meter, records.drop_last());
    }
}

} // verus!
