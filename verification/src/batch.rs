use vstd::prelude::*;

use crate::asset::{DownloadType, DouyinDownloader};
use crate::errors::TransferError;
use crate::transfer::{counted_from, transcript_outcome};

verus! {

/// Which asset kinds one run fetches, in launch order: cover, then music,
/// then video. The `all` flag selects every kind regardless of the single
/// flags; otherwise each flag selects its own kind, and nothing else is
/// ever launched.
pub open spec fn plan_spec(all: bool, music: bool, cover: bool, video: bool) -> Seq<
    DownloadType,
> {
    let with_cover = if all || cover {
        seq![DownloadType::Cover]
    } else {
        Seq::<DownloadType>::empty()
    };
    let with_music = if all || music {
        with_cover.push(DownloadType::Music)
    } else {
        with_cover
    };
    if all || video {
        with_music.push(DownloadType::Video)
    } else {
        with_music
    }
}

/// Turn the run's flags into the launch plan: exactly one entry per
/// requested kind, in launch order, and no entry for a kind that was not
/// requested.
pub fn plan_batch(all: bool, music: bool, cover: bool, video: bool) -> (r: Vec<DownloadType>)
    ensures
        r@ == plan_spec(all, music, cover, video),
{
    let mut plan: Vec<DownloadType> = Vec::new();
    if all || cover {
        plan.push(DownloadType::Cover);
    }
    if all || music {
        plan.push(DownloadType::Music);
    }
    if all || video {
        plan.push(DownloadType::Video);
    }
    proof {
        assert(plan@ =~= plan_spec(all, music, cover, video));
    }
    plan
}

/// Drive every launched unit to completion and collect one outcome per
/// unit. No unit is skipped and none is waited on twice: the coordinator
/// returns exactly when each of the N launched transfers has terminated,
/// successfully or not, and a unit's failure is carried as its own outcome
/// value with no effect on any sibling.
pub fn run_all(units: Vec<DouyinDownloader>, transcripts: &Vec<Vec<u64>>) -> (r: (
    Vec<DouyinDownloader>,
    Vec<Result<bool, TransferError>>,
))
    requires
        units@.len() == transcripts@.len(),
        forall|j: int| 0 <= j < units@.len() ==> units@[j].wf(),
    ensures
        r.0@.len() == units@.len(),
        r.1@.len() == units@.len(),
        forall|j: int| #![trigger r.1@[j]]
            0 <= j < units@.len() ==> r.1@[j] == transcript_outcome(
                units@[j].spec_total() - units@[j].spec_downloaded(),
                transcripts@[j]@,
                0,
            ),
        forall|j: int| #![trigger r.0@[j]]
            0 <= j < units@.len() ==> ({
                &&& r.0@[j].wf()
                &&& r.0@[j].spec_total() == units@[j].spec_total()
                &&& r.0@[j].spec_source_url() == units@[j].spec_source_url()
                &&& r.0@[j].spec_dest_path() == units@[j].spec_dest_path()
                &&& r.0@[j].spec_downloaded() == units@[j].spec_downloaded() + counted_from(
                    units@[j].spec_total() - units@[j].spec_downloaded(),
                    transcripts@[j]@,
                    0,
                )
                &&& (r.1@[j] is Ok ==> r.0@[j].spec_downloaded() == r.0@[j].spec_total())
            }),
{
    let ghost units0 = units@;
    let mut rest = units;
    let mut done: Vec<DouyinDownloader> = Vec::new();
    let mut outcomes: Vec<Result<bool, TransferError>> = Vec::new();
    while rest.len() > 0
        invariant
            done@.len() == outcomes@.len(),
            done@.len() + rest@.len() == units0.len(),
            units0.len() == transcripts@.len(),
            rest@ == units0.subrange(done@.len() as int, units0.len() as int),
            forall|j: int| 0 <= j < units0.len() ==> units0[j].wf(),
            forall|j: int| #![trigger outcomes@[j]]
                0 <= j < done@.len() ==> outcomes@[j] == transcript_outcome(
                    units0[j].spec_total() - units0[j].spec_downloaded(),
                    transcripts@[j]@,
                    0,
                ),
            forall|j: int| #![trigger done@[j]]
                0 <= j < done@.len() ==> ({
                    &&& done@[j].wf()
                    &&& done@[j].spec_total() == units0[j].spec_total()
                    &&& done@[j].spec_source_url() == units0[j].spec_source_url()
                    &&& done@[j].spec_dest_path() == units0[j].spec_dest_path()
                    &&& done@[j].spec_downloaded() == units0[j].spec_downloaded() + counted_from(
                        units0[j].spec_total() - units0[j].spec_downloaded(),
                        transcripts@[j]@,
                        0,
                    )
                    &&& (outcomes@[j] is Ok ==> done@[j].spec_downloaded()
                        == done@[j].spec_total())
                }),
        decreases rest@.len(),
    {
        let i = done.len();
        let mut unit = rest.remove(0);
        proof {
            assert(unit == units0[i as int]);
        }
        let outcome = unit.download(&transcripts[i]);
        done.push(unit);
        outcomes.push(outcome);
        proof {
            assert(rest@ =~= units0.subrange(done@.len() as int, units0.len() as int));
        }
    }
    (done, outcomes)
}

} // verus!
