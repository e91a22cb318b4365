use douyin_dl::asset::{asset_file_name, DouyinDownloader, DownloadType};
use douyin_dl::batch::{plan_batch, run_all};
use douyin_dl::errors::{InitError, TransferError};
use douyin_dl::monitor::{monitor_step, run_monitor, MonitorReport, MonitorStep};
use douyin_dl::transfer::{DownloadState, Downloader, InitProbe, TransferEvent, TransferStep};

fn probe(len: u64) -> InitProbe {
    InitProbe { dest_writable: true, content_length: Some(len) }
}

#[test]
fn construction_fixes_total_from_probe() {
    let d = Downloader::new(b"http://a/v".to_vec(), b"out/v.mp4".to_vec(), None, probe(1234))
        .unwrap();
    assert_eq!(d.total_size(), 1234);
    assert_eq!(d.total_size(), 1234);
    assert_eq!(d.downloaded_size(), 0);
}

#[test]
fn construction_fails_without_length() {
    let r = Downloader::new(
        b"http://a/v".to_vec(),
        b"out/v.mp4".to_vec(),
        None,
        InitProbe { dest_writable: true, content_length: None },
    );
    assert_eq!(r.err(), Some(InitError::SizeUnknown));
}

#[test]
fn construction_fails_on_unwritable_directory() {
    let r = Downloader::new(
        b"http://a/v".to_vec(),
        b"out/v.mp4".to_vec(),
        None,
        InitProbe { dest_writable: false, content_length: Some(10) },
    );
    assert_eq!(r.err(), Some(InitError::DestinationUnwritable));
}

#[test]
fn resume_offset_leaves_the_tail() {
    let d = Downloader::new(b"u".to_vec(), b"p".to_vec(), Some(400), probe(1000)).unwrap();
    assert_eq!(d.total_size(), 600);
}

#[test]
fn resume_offset_past_the_end_leaves_nothing() {
    let d = Downloader::new(b"u".to_vec(), b"p".to_vec(), Some(2000), probe(1000)).unwrap();
    assert_eq!(d.total_size(), 0);
}

#[test]
fn four_quarter_chunks_complete_a_million_bytes() {
    // a resource of 1,000,000 bytes delivered in 4 chunks of 250,000 bytes
    let mut d = Downloader::new(b"u".to_vec(), b"p".to_vec(), None, probe(1_000_000)).unwrap();
    let chunks: Vec<u64> = vec![250_000, 250_000, 250_000, 250_000];
    let mut samples: Vec<u64> = Vec::new();
    for c in &chunks {
        assert_eq!(d.transfer_step(TransferEvent::Chunk(*c)), TransferStep::Continue);
        samples.push(d.downloaded_size());
    }
    assert_eq!(d.transfer_step(TransferEvent::End), TransferStep::Done);
    // observed progress is non-decreasing and ends at exactly the total
    for w in samples.windows(2) {
        assert!(w[0] <= w[1]);
    }
    assert_eq!(samples, vec![250_000, 500_000, 750_000, 1_000_000]);
    assert_eq!(d.downloaded_size(), 1_000_000);
    assert_eq!(d.total_size(), 1_000_000);
}

#[test]
fn download_succeeds_on_exact_transcript() {
    let mut d = Downloader::new(b"u".to_vec(), b"p".to_vec(), None, probe(1_000_000)).unwrap();
    let r = d.download(&vec![250_000, 250_000, 250_000, 250_000]);
    assert_eq!(r, Ok(true));
    assert_eq!(d.downloaded_size(), d.total_size());
}

#[test]
fn download_fails_short_stream() {
    let mut d = Downloader::new(b"u".to_vec(), b"p".to_vec(), None, probe(1000)).unwrap();
    let r = d.download(&vec![400, 400]);
    assert_eq!(r, Err(TransferError::PrematureEnd));
    assert_eq!(d.downloaded_size(), 800);
}

#[test]
fn download_fails_on_overrun() {
    let mut d = Downloader::new(b"u".to_vec(), b"p".to_vec(), None, probe(1000)).unwrap();
    let r = d.download(&vec![600, 600]);
    assert_eq!(r, Err(TransferError::Overrun));
    assert_eq!(d.downloaded_size(), 600);
}

#[test]
fn network_and_write_failures_are_reported() {
    let mut d = Downloader::new(b"u".to_vec(), b"p".to_vec(), None, probe(10)).unwrap();
    assert_eq!(
        d.transfer_step(TransferEvent::NetworkError),
        TransferStep::Failed(TransferError::Interrupted)
    );
    assert_eq!(
        d.transfer_step(TransferEvent::WriteError),
        TransferStep::Failed(TransferError::WriteFailed)
    );
}

#[test]
fn empty_resource_downloads_immediately() {
    // a size probe of 0 bytes: success with no chunks at all
    let mut d = Downloader::new(b"u".to_vec(), b"p".to_vec(), None, probe(0)).unwrap();
    assert_eq!(d.download(&Vec::new()), Ok(true));
    assert_eq!(d.downloaded_size(), 0);
    assert_eq!(d.total_size(), 0);
}

#[test]
fn monitor_stops_on_first_full_sample() {
    assert_eq!(monitor_step(0, 1_000_000, 1_000_000), MonitorStep::Finished);
    assert_eq!(monitor_step(100, 300, 1000), MonitorStep::Advance(200));
}

#[test]
fn monitor_never_polls_past_completion() {
    let samples: Vec<u64> = vec![250_000, 500_000, 750_000, 1_000_000];
    let report = run_monitor(1_000_000, &samples).unwrap();
    assert_eq!(report, MonitorReport { polls: 4, advanced: 750_000 });
}

#[test]
fn monitor_exits_at_once_on_zero_total() {
    // the polling loop is never entered: one sample decides
    assert_eq!(monitor_step(0, 0, 0), MonitorStep::Finished);
    let report = run_monitor(0, &vec![0]).unwrap();
    assert_eq!(report, MonitorReport { polls: 1, advanced: 0 });
}

#[test]
fn monitor_trace_without_completion_gives_no_report() {
    assert_eq!(run_monitor(1000, &vec![100, 200, 300]), None);
}

#[test]
fn file_names_follow_the_kind() {
    let id = b"7094619797".to_vec();
    let dir = b"download".to_vec();
    assert_eq!(
        asset_file_name(&DownloadType::Cover, &id, &dir),
        b"download/cover_7094619797.jpeg".to_vec()
    );
    assert_eq!(
        asset_file_name(&DownloadType::Music, &id, &dir),
        b"download/music_7094619797.m4a".to_vec()
    );
    assert_eq!(
        asset_file_name(&DownloadType::Video, &id, &dir),
        b"download/video_7094619797.mp4".to_vec()
    );
}

#[test]
fn orchestrator_passes_through_to_the_downloader() {
    let mut d = DouyinDownloader::new(
        b"42".to_vec(),
        b"http://a/v".to_vec(),
        DownloadType::Video,
        b"download".to_vec(),
        probe(500),
    )
    .unwrap();
    assert_eq!(d.filesize(), 500);
    assert_eq!(d.downloaded_size(), 0);
    assert_eq!(d.download(&vec![500]), Ok(true));
    assert_eq!(d.downloaded_size(), 500);
}

#[test]
fn orchestrator_propagates_init_failure() {
    let r = DouyinDownloader::new(
        b"42".to_vec(),
        b"http://a/v".to_vec(),
        DownloadType::Video,
        b"download".to_vec(),
        InitProbe { dest_writable: true, content_length: None },
    );
    assert!(r.is_err());
    assert_eq!(r.err(), Some(InitError::SizeUnknown));
}

#[test]
fn plan_all_launches_three_kinds() {
    assert_eq!(
        plan_batch(true, false, false, false),
        vec![DownloadType::Cover, DownloadType::Music, DownloadType::Video]
    );
}

#[test]
fn plan_without_flags_launches_nothing() {
    assert_eq!(plan_batch(false, false, false, false), Vec::<DownloadType>::new());
}

#[test]
fn cover_and_music_only_produce_exactly_two_files() {
    // requesting only the cover and music kinds: two output files, never a third
    let plan = plan_batch(false, true, true, false);
    assert_eq!(plan, vec![DownloadType::Cover, DownloadType::Music]);
    let id = b"42".to_vec();
    let dir = b"download".to_vec();
    let files: Vec<Vec<u8>> = plan.iter().map(|k| asset_file_name(k, &id, &dir)).collect();
    assert_eq!(files.len(), 2);
    assert_eq!(files[0], b"download/cover_42.jpeg".to_vec());
    assert_eq!(files[1], b"download/music_42.m4a".to_vec());
}

#[test]
fn batch_completes_every_unit_and_swallows_failures() {
    let mut units = Vec::new();
    for kind in [DownloadType::Cover, DownloadType::Music, DownloadType::Video] {
        units.push(
            DouyinDownloader::new(
                b"42".to_vec(),
                b"http://a/v".to_vec(),
                kind,
                b"download".to_vec(),
                probe(100),
            )
            .unwrap(),
        );
    }
    let transcripts: Vec<Vec<u64>> = vec![vec![100], vec![60], vec![50, 50]];
    let (done, outcomes) = run_all(units, &transcripts);
    assert_eq!(done.len(), 3);
    assert_eq!(outcomes.len(), 3);
    assert_eq!(outcomes[0], Ok(true));
    assert_eq!(outcomes[1], Err(TransferError::PrematureEnd));
    assert_eq!(outcomes[2], Ok(true));
    assert_eq!(done[0].downloaded_size(), 100);
    assert_eq!(done[1].downloaded_size(), 60);
    assert_eq!(done[2].downloaded_size(), 100);
}

#[test]
fn state_counts_chunks_exactly_and_rejects_overruns() {
    let mut s = DownloadState::new(100);
    assert_eq!(s.total_size(), 100);
    assert!(s.apply_chunk(60));
    assert_eq!(s.downloaded_size(), 60);
    assert!(!s.apply_chunk(50));
    assert_eq!(s.downloaded_size(), 60);
    assert!(!s.is_complete());
    assert!(s.apply_chunk(40));
    assert!(s.is_complete());
    assert_eq!(s.total_size(), 100);
}

#[test]
fn destination_path_is_the_bound_file() {
    let d = DouyinDownloader::new(
        b"42".to_vec(),
        b"http://a/v".to_vec(),
        DownloadType::Cover,
        b"download".to_vec(),
        probe(10),
    )
    .unwrap();
    assert_eq!(d.dest_path(), &b"download/cover_42.jpeg".to_vec());
}
