use mediabox::error::MediaError;
use mediabox::io::IoError;
use mediabox::format::{
    find_demuxer, probe, select_demuxer, DemuxerMetadata, DemuxerProbe, DemuxerRegistry,
    ProbeResult,
};
use mediabox::io::Io;

/// A demuxer capability test with a fixed answer.
struct FixedScore(ProbeResult);

impl DemuxerProbe for FixedScore {
    fn probe(&self, _data: &[u8]) -> ProbeResult {
        self.0
    }
}

/// A capability test that recognizes a magic two-byte prefix.
struct MagicProbe;

impl DemuxerProbe for MagicProbe {
    fn probe(&self, data: &[u8]) -> ProbeResult {
        if data.starts_with(b"MK") {
            ProbeResult::Certain
        } else {
            ProbeResult::Unsure
        }
    }
}

fn registry(scores: &[ProbeResult]) -> DemuxerRegistry {
    let mut reg = DemuxerRegistry::new();
    for (k, s) in scores.iter().enumerate() {
        reg.register(DemuxerMetadata::new(format!("demuxer-{k}"), Box::new(FixedScore(*s))));
    }
    reg
}

#[test]
fn earliest_registered_wins_ties() {
    let reg = registry(&[
        ProbeResult::Maybe(5),
        ProbeResult::Maybe(5),
        ProbeResult::Maybe(3),
    ]);
    assert_eq!(find_demuxer(&reg, b""), Some(0));
}

#[test]
fn higher_score_beats_earlier_registration() {
    let reg = registry(&[
        ProbeResult::Maybe(1),
        ProbeResult::Certain,
        ProbeResult::Maybe(200),
    ]);
    assert_eq!(find_demuxer(&reg, b""), Some(1));
}

#[test]
fn probing_is_deterministic() {
    let reg = registry(&[
        ProbeResult::Maybe(2),
        ProbeResult::Maybe(7),
        ProbeResult::Maybe(7),
    ]);
    let first = find_demuxer(&reg, b"xyz");
    for _ in 0..10 {
        assert_eq!(find_demuxer(&reg, b"xyz"), first);
    }
    assert_eq!(first, Some(1));
}

#[test]
fn all_unsure_finds_nothing() {
    let reg = registry(&[ProbeResult::Unsure, ProbeResult::Unsure]);
    assert_eq!(find_demuxer(&reg, b""), None);
    let empty = DemuxerRegistry::new();
    assert_eq!(find_demuxer(&empty, b""), None);
}

#[test]
fn select_demuxer_matches_fold_semantics() {
    assert_eq!(select_demuxer(&vec![]), None);
    assert_eq!(select_demuxer(&vec![ProbeResult::Unsure]), None);
    assert_eq!(
        select_demuxer(&vec![ProbeResult::Unsure, ProbeResult::Maybe(0)]),
        Some(1)
    );
    assert_eq!(
        select_demuxer(&vec![ProbeResult::Certain, ProbeResult::Certain]),
        Some(0)
    );
}

#[test]
fn probe_sniffs_without_consuming() {
    let mut reg = DemuxerRegistry::new();
    reg.register(DemuxerMetadata::new(String::from("mkv"), Box::new(MagicProbe)));
    let io = Io::from_reader(b"MKdata".to_vec());
    let picked = probe(&reg, &io).unwrap();
    assert_eq!(picked, 0);
    assert_eq!(reg.get(picked).name, "mkv");
    // the sniffing read consumed nothing
    assert_eq!(io.read_probe().unwrap(), b"MKdata".to_vec());
}

#[test]
fn probe_without_reader_reports_io_condition() {
    let reg = DemuxerRegistry::new();
    let io = Io::null();
    assert!(matches!(
        probe(&reg, &io),
        Err(MediaError::Probe(IoError::NotReadable))
    ));
}

#[test]
fn probe_with_no_match_reports_no_demuxer() {
    let mut reg = DemuxerRegistry::new();
    reg.register(DemuxerMetadata::new(String::from("mkv"), Box::new(MagicProbe)));
    let io = Io::from_reader(b"not-a-container".to_vec());
    assert!(matches!(probe(&reg, &io), Err(MediaError::NoDemuxer)));
}
