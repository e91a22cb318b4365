use vstd::prelude::*;

verus! {

/// What the progress monitor decides after reading one sample of the
/// running byte count.
#[derive(Clone, Copy, Debug, PartialEq, Eq, Structural)]
pub enum MonitorStep {
    /// The counter reached the total: finalize the indicator and stop
    /// polling. With a total of zero this is the very first decision, so the
    /// polling loop is never entered.
    Finished,
    /// Advance the indicator by this many bytes, remember the sample as the
    /// new baseline, and poll again after one interval.
    Advance(u64),
}

/// Decide one iteration of the polling loop: `prev` is the baseline from the
/// last iteration, `downloaded` the fresh sample, `total` the fixed
/// denominator. The monitor stops at the first sample that reaches the
/// total — within one polling interval of the counter getting there — and
/// otherwise advances the indicator by exactly the bytes gained since the
/// last sample.
pub fn monitor_step(prev: u64, downloaded: u64, total: u64) -> (r: MonitorStep)
    requires
        prev <= downloaded,
    ensures
        downloaded >= total ==> r == MonitorStep::Finished,
        downloaded < total ==> r == MonitorStep::Advance((downloaded - prev) as u64),
        total == 0 ==> r == MonitorStep::Finished,
{
    if downloaded >= total {
        MonitorStep::Finished
    } else {
        MonitorStep::Advance(downloaded - prev)
    }
}

/// A byte-count trace is monotone: no sample is smaller than an earlier one.
/// This is what sampling the transfer counter yields, since that counter
/// only ever grows.
pub open spec fn monotone(samples: Seq<u64>) -> bool {
    forall|j: int, k: int| 0 <= j <= k < samples.len() ==> samples[j] <= samples[k]
}

/// Index of the first sample in `samples[i..]` that reached the total, or
/// the trace length when none did.
pub open spec fn first_done_from(total: u64, samples: Seq<u64>, i: int) -> int
    decreases samples.len() - i,
{
    if i < 0 || i >= samples.len() {
        samples.len() as int
    } else if samples[i] >= total {
        i
    } else {
        first_done_from(total, samples, i + 1)
    }
}

/// How one monitor run went: how many samples it took before stopping, and
/// how far it had advanced the indicator when it stopped.
#[derive(Clone, Copy, Debug, PartialEq, Eq, Structural)]
pub struct MonitorReport {
    pub polls: usize,
    pub advanced: u64,
}

/// Replay the polling loop over a trace of samples of the running byte
/// count. The monitor stops at the first sample that reached the total and
/// reports how many polls it took — so it terminates one poll after the
/// counter gets there, and on the very first poll when the total is zero.
/// The indicator's advances telescope: when the monitor stops it has
/// advanced exactly to the last sample it saw below the total. A trace that
/// never reaches the total exhausts without a report: the monitor alone
/// never ends a stalled transfer.
pub fn run_monitor(total: u64, samples: &Vec<u64>) -> (r: Option<MonitorReport>)
    requires
        monotone(samples@),
    ensures
        r is Some <==> first_done_from(total, samples@, 0) < samples@.len(),
        r matches Some(rep) ==> ({
            &&& rep.polls == first_done_from(total, samples@, 0) + 1
            &&& rep.advanced == (if first_done_from(total, samples@, 0) == 0 {
                0
            } else {
                samples@[first_done_from(total, samples@, 0) - 1]
            })
        }),
        total == 0 && samples@.len() > 0 ==> (r matches Some(rep) && rep.polls == 1
            && rep.advanced == 0),
{
    let mut baseline: u64 = 0;
    let mut i: usize = 0;
    while i < samples.len()
        invariant
            monotone(samples@),
            0 <= i <= samples@.len(),
            first_done_from(total, samples@, 0) == first_done_from(total, samples@, i as int),
            baseline == (if i == 0 {
                0
            } else {
                samples@[i - 1]
            }),
            i > 0 ==> samples@[i - 1] < total,
        decreases samples@.len() - i,
    {
        let sample = samples[i];
        match monitor_step(baseline, sample, total) {
            MonitorStep::Finished => {
                return Some(MonitorReport { polls: i + 1, advanced: baseline });
            },
            MonitorStep::Advance(_delta) => {
                baseline = sample;
                i = i + 1;
            },
        }
    }
    None
}

} // verus!
