//! The rolling window of samples sent to subscribers: the last five seconds,
//! thinned to at most one sample per 50 ms.
use vstd::prelude::*;
use crate::session::SessionState;
use crate::store::{Sample, TelemetryStore};

verus! {

/// Length of the window.
pub const WINDOW_DURATION_MS: u64 = 5_000;

/// Least spacing between two samples of a window.
pub const WINDOW_STRIDE_MS: u64 = 50;

#[derive(Debug)]
pub struct SamplesWindow {
    pub start_ms: u64,
    pub end_ms: u64,
    pub stride_ms: u64,
    pub samples: Vec<Sample>,
}

/// The samples of `s` kept, in order: those within `[start, end]` that come at
/// least one stride after the last one kept (the first in range always).
pub open spec fn decimate_from(s: Seq<Sample>, start: u64, end: u64, last: Option<u64>) -> Seq<Sample>
    decreases s.len(),
{
    if s.len() == 0 {
        Seq::empty()
    } else {
        let x = s[0];
        let rest = s.subrange(1, s.len() as int);
        if x.t_ms < start || x.t_ms > end {
            decimate_from(rest, start, end, last)
        } else if last is None || (x.t_ms >= last.unwrap() && x.t_ms - last.unwrap()
            >= WINDOW_STRIDE_MS) {
            seq![x] + decimate_from(rest, start, end, Some(x.t_ms))
        } else {
            decimate_from(rest, start, end, last)
        }
    }
}

pub open spec fn window_start(now: u64) -> u64 {
    if now >= WINDOW_DURATION_MS { (now - WINDOW_DURATION_MS) as u64 } else { 0 }
}

/// Thins `samples` (oldest first) to the window that ends at `now_ms`.
pub fn decimate_samples(samples: &Vec<Sample>, now_ms: u64) -> (r: SamplesWindow)
    ensures
        r.start_ms == window_start(now_ms),
        r.end_ms == now_ms,
        r.stride_ms == WINDOW_STRIDE_MS,
        r.samples@ == decimate_from(samples@, window_start(now_ms), now_ms, None),
        forall|k: int|
            0 <= k < r.samples@.len() ==> r.start_ms <= #[trigger] r.samples@[k].t_ms <= r.end_ms,
        forall|k: int|
            0 <= k < r.samples@.len() - 1 ==> #[trigger] r.samples@[k + 1].t_ms >= r.samples@[k].t_ms
                + WINDOW_STRIDE_MS,
{
    proof {
        lemma_decimated_spacing(samples@, window_start(now_ms), now_ms, None);
    }
    let start_ms = now_ms.saturating_sub(WINDOW_DURATION_MS);
    let mut out: Vec<Sample> = Vec::new();
    let mut last_t: Option<u64> = None;
    let mut i: usize = 0;
    assert(samples@.subrange(0, samples@.len() as int) =~= samples@);
    assert(out@ + decimate_from(samples@, start_ms, now_ms, None) =~= decimate_from(
        samples@,
        start_ms,
        now_ms,
        None,
    ));
    while i < samples.len()
        invariant
            i <= samples@.len(),
            start_ms == window_start(now_ms),
            out@ + decimate_from(samples@.subrange(i as int, samples@.len() as int), start_ms, now_ms, last_t)
                == decimate_from(samples@, start_ms, now_ms, None),
        decreases samples@.len() - i,
    {
        let ghost tail = samples@.subrange(i as int, samples@.len() as int);
        assert(tail.subrange(1, tail.len() as int) =~= samples@.subrange(
            i + 1,
            samples@.len() as int,
        ));
        let sample = samples[i];
        if sample.t_ms < start_ms || sample.t_ms > now_ms {
        } else {
            let emit = match last_t {
                Some(prev) => sample.t_ms.saturating_sub(prev) >= WINDOW_STRIDE_MS,
                None => true,
            };
            if emit {
                let ghost old_out = out@;
                last_t = Some(sample.t_ms);
                out.push(sample);
                assert(out@ == old_out + seq![sample]);
                assert(old_out + seq![sample] + decimate_from(
                    tail.subrange(1, tail.len() as int),
                    start_ms,
                    now_ms,
                    last_t,
                ) =~= old_out + (seq![sample] + decimate_from(
                    tail.subrange(1, tail.len() as int),
                    start_ms,
                    now_ms,
                    last_t,
                )));
            }
        }
        i = i + 1;
    }
    assert(samples@.subrange(samples@.len() as int, samples@.len() as int) =~= Seq::<
        Sample,
    >::empty());
    assert(out@ =~= out@ + Seq::<Sample>::empty());
    SamplesWindow { start_ms, end_ms: now_ms, stride_ms: WINDOW_STRIDE_MS, samples: out }
}

/// Every sample of a window lies within it, and each comes at least one
/// stride after the one before.
pub proof fn lemma_decimated_spacing(s: Seq<Sample>, start: u64, end: u64, last: Option<u64>)
    ensures
        ({
            let r = decimate_from(s, start, end, last);
            &&& forall|k: int| 0 <= k < r.len() ==> start <= #[trigger] r[k].t_ms <= end
            &&& forall|k: int|
                0 <= k < r.len() - 1 ==> #[trigger] r[k + 1].t_ms >= r[k].t_ms + WINDOW_STRIDE_MS
            &&& last is Some && r.len() > 0 ==> r[0].t_ms >= last.unwrap() + WINDOW_STRIDE_MS
        }),
    decreases s.len(),
{
    if s.len() > 0 {
        let x = s[0];
        let rest = s.subrange(1, s.len() as int);
        if x.t_ms < start || x.t_ms > end {
            lemma_decimated_spacing(rest, start, end, last);
        } else if last is None || (x.t_ms >= last.unwrap() && x.t_ms - last.unwrap()
            >= WINDOW_STRIDE_MS) {
            lemma_decimated_spacing(rest, start, end, Some(x.t_ms));
            let tail = decimate_from(rest, start, end, Some(x.t_ms));
            let r = seq![x] + tail;
            assert forall|k: int| 0 <= k < r.len() - 1 implies #[trigger] r[k + 1].t_ms
                >= r[k].t_ms + WINDOW_STRIDE_MS by {
                assert(r[k + 1] == tail[k]);
                if k > 0 {
                    assert(r[k] == tail[k - 1]);
                    let j = k - 1;
                    assert(tail[j + 1].t_ms >= tail[j].t_ms + WINDOW_STRIDE_MS);
                } else {
                    assert(r[k] == x);
                }
            }
            assert forall|k: int| 0 <= k < r.len() implies start <= #[trigger] r[k].t_ms <= end by {
                if k > 0 {
                    assert(r[k] == tail[k - 1]);
                }
            }
        } else {
            lemma_decimated_spacing(rest, start, end, last);
        }
    }
}

/// Positions in `s` of the samples that `decimate_from` keeps.
pub open spec fn decimate_positions(s: Seq<Sample>, start: u64, end: u64, last: Option<u64>) -> Seq<int>
    decreases s.len(),
{
    if s.len() == 0 {
        Seq::empty()
    } else {
        let x = s[0];
        let rest = s.subrange(1, s.len() as int);
        if x.t_ms < start || x.t_ms > end {
            decimate_positions(rest, start, end, last).map_values(|j: int| j + 1)
        } else if last is None || (x.t_ms >= last.unwrap() && x.t_ms - last.unwrap()
            >= WINDOW_STRIDE_MS) {
            seq![0int] + decimate_positions(rest, start, end, Some(x.t_ms)).map_values(
                |j: int| j + 1,
            )
        } else {
            decimate_positions(rest, start, end, last).map_values(|j: int| j + 1)
        }
    }
}

/// A window is a subsequence of the history it was cut from: its samples
/// stand there in the same order.
pub proof fn lemma_decimated_subsequence(s: Seq<Sample>, start: u64, end: u64, last: Option<u64>)
    ensures
        ({
            let r = decimate_from(s, start, end, last);
            let idx = decimate_positions(s, start, end, last);
            &&& idx.len() == r.len()
            &&& forall|k: int| 0 <= k < idx.len() ==> 0 <= #[trigger] idx[k] < s.len() && r[k] == s[idx[k]]
            &&& forall|k: int| 0 <= k < idx.len() - 1 ==> #[trigger] idx[k] < idx[k + 1]
        }),
    decreases s.len(),
{
    if s.len() > 0 {
        let x = s[0];
        let rest = s.subrange(1, s.len() as int);
        if x.t_ms < start || x.t_ms > end || !(last is None || (x.t_ms >= last.unwrap() && x.t_ms
            - last.unwrap() >= WINDOW_STRIDE_MS)) {
            lemma_decimated_subsequence(rest, start, end, last);
            let ri = decimate_positions(rest, start, end, last);
            let idx = ri.map_values(|j: int| j + 1);
            assert forall|k: int| 0 <= k < idx.len() - 1 implies #[trigger] idx[k] < idx[k + 1] by {
                assert(ri[k] < ri[k + 1]);
            }
        } else {
            lemma_decimated_subsequence(rest, start, end, Some(x.t_ms));
            let ri = decimate_positions(rest, start, end, Some(x.t_ms));
            let rr = decimate_from(rest, start, end, Some(x.t_ms));
            let idx = seq![0int] + ri.map_values(|j: int| j + 1);
            let r = seq![x] + rr;
            assert forall|k: int| 0 <= k < idx.len() implies 0 <= #[trigger] idx[k] < s.len() && r[k]
                == s[idx[k]] by {
                if k > 0 {
                    assert(idx[k] == ri[k - 1] + 1);
                    assert(r[k] == rr[k - 1]);
                }
            }
            assert forall|k: int| 0 <= k < idx.len() - 1 implies #[trigger] idx[k] < idx[k + 1] by {
                if k > 0 {
                    let j = k - 1;
                    assert(ri[j] < ri[j + 1]);
                } else {
                    assert(idx[1] == ri[0] + 1);
                }
            }
        }
    }
}

/// The window to publish at `now_ms`: none out of race, with no samples, or
/// when no sample falls in the window.
pub fn samples_window(store: &TelemetryStore, now_ms: u64) -> (r: Option<SamplesWindow>)
    requires
        store.wf(),
    ensures
        match r {
            Some(w) => {
                &&& store.session.session_state == SessionState::InRace
                &&& w.start_ms == window_start(now_ms)
                &&& w.end_ms == now_ms
                &&& w.stride_ms == WINDOW_STRIDE_MS
                &&& w.samples@ == decimate_from(store.samples@, window_start(now_ms), now_ms, None)
                &&& w.samples@.len() > 0
                &&& ({
                    let idx = decimate_positions(store.samples@, window_start(now_ms), now_ms, None);
                    &&& idx.len() == w.samples@.len()
                    &&& forall|k: int|
                        0 <= k < idx.len() ==> 0 <= #[trigger] idx[k] < store.samples@.len()
                            && w.samples@[k] == store.samples@[idx[k]]
                    &&& forall|k: int| 0 <= k < idx.len() - 1 ==> #[trigger] idx[k] < idx[k + 1]
                })
            },
            None => store.session.session_state != SessionState::InRace || decimate_from(
                store.samples@,
                window_start(now_ms),
                now_ms,
                None,
            ).len() == 0,
        },
{
    proof {
        lemma_decimated_subsequence(store.samples@, window_start(now_ms), now_ms, None);
    }
    if store.session.session_state != SessionState::InRace {
        return None;
    }
    if store.samples.len() == 0 {
        assert(store.samples@ =~= Seq::<Sample>::empty());
        return None;
    }
    let samples = store.samples.to_vec_ordered();
    let window = decimate_samples(&samples, now_ms);
    if window.samples.len() == 0 {
        return None;
    }
    Some(window)
}

} // verus!
