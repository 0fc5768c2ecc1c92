use std::collections::HashMap;

use mediabox::codec::{
    AssCodec, ScriptedDecoder, ScriptedEncoder, SubtitleCodec, SubtitleInfo, TextCue, TextPart,
};
use mediabox::media::{Fraction, MediaInfo, MediaTime, Packet, Track};
use mediabox::pipeline::{process_transcode, PacketTranscoder, Transcode};
use mediabox::span::Span;

fn packet(id: u32, payload: &[u8]) -> Packet {
    Packet {
        time: MediaTime { pts: 42, timebase: Fraction { numerator: 1, denominator: 1000 } },
        track: Track {
            id,
            info: MediaInfo {
                name: String::from("ass"),
                subtitle: SubtitleInfo {
                    codec: SubtitleCodec::Ass(AssCodec { header: String::from("hdr") }),
                },
            },
        },
        buffer: Span::from_bytes(payload.to_vec()),
    }
}

fn cue(text: &str) -> TextCue {
    TextCue {
        time: MediaTime { pts: 0, timebase: Fraction { numerator: 1, denominator: 1000 } },
        style: String::from("Default"),
        text: vec![TextPart::Text(String::from(text))],
    }
}

/// One track state: a decoder yielding `cues_per_packet` cues per packet and
/// an encoder emitting one packet (tagged with an id of its own invention)
/// per cue.
fn transcode(cues_per_packet: usize, fail_feed: bool) -> Transcode {
    let mut per_packet = Vec::new();
    for k in 0..cues_per_packet {
        per_packet.push(cue(&format!("line-{k}")));
    }
    Transcode::Subtitles {
        decoder: Box::new(ScriptedDecoder {
            per_packet,
            pending: Vec::new(),
            fail_start: false,
            fail_feed,
        }),
        encoder: Box::new(ScriptedEncoder {
            info: SubtitleInfo {
                codec: SubtitleCodec::Ass(AssCodec { header: String::from("h") }),
            },
            per_cue: vec![packet(999, b"enc")],
            pending: Vec::new(),
            fail_start: false,
            fail_feed: false,
        }),
    }
}

#[test]
fn pass_through_leaves_packet_and_map_untouched() {
    let mut transcoder = PacketTranscoder::new(HashMap::new());
    let out = transcoder.process(packet(7, b"payload")).unwrap();
    assert_eq!(out.len(), 1);
    assert_eq!(out[0].track.id, 7);
    assert_eq!(out[0].time.pts, 42);
    assert_eq!(out[0].buffer.spans()[0], b"payload".to_vec());
    // still pass-through on the next packet: the map gained no entry
    let out2 = transcoder.process(packet(7, b"more")).unwrap();
    assert_eq!(out2.len(), 1);
    assert_eq!(out2[0].buffer.spans()[0], b"more".to_vec());
}

#[test]
fn zero_decoder_outputs_emit_zero_packets() {
    let mut mapping = HashMap::new();
    mapping.insert(5u32, transcode(0, false));
    let mut transcoder = PacketTranscoder::new(mapping);
    let out = transcoder.process(packet(5, b"in")).unwrap();
    assert_eq!(out.len(), 0);
}

#[test]
fn two_decoder_outputs_feed_encoder_twice_and_retag() {
    let mut mapping = HashMap::new();
    mapping.insert(5u32, transcode(2, false));
    let mut transcoder = PacketTranscoder::new(mapping);
    let out = transcoder.process(packet(5, b"in")).unwrap();
    // the encoder was fed twice: it emits exactly one packet per fed cue
    assert_eq!(out.len(), 2);
    for p in &out {
        assert_eq!(p.track.id, 5);
        // only the id was touched: timestamp and payload are the encoder's
        assert_eq!(p.time.pts, 42);
        assert_eq!(p.buffer.spans()[0], b"enc".to_vec());
    }
}

#[test]
fn retag_changes_only_the_track_id() {
    let p = packet(7, b"payload");
    let q = p.clone().retag(9);
    assert_eq!(q.track.id, 9);
    assert_eq!(q.time.pts, p.time.pts);
    assert_eq!(q.track.info.name, p.track.info.name);
    assert_eq!(q.buffer.spans()[0], p.buffer.spans()[0]);
}

#[test]
fn state_survives_successful_runs() {
    let mut mapping = HashMap::new();
    mapping.insert(5u32, transcode(1, false));
    let mut transcoder = PacketTranscoder::new(mapping);
    let first = transcoder.process(packet(5, b"one")).unwrap();
    assert_eq!(first.len(), 1);
    let second = transcoder.process(packet(5, b"two")).unwrap();
    assert_eq!(second.len(), 1);
    assert_eq!(second[0].track.id, 5);
}

#[test]
fn failed_run_drops_state_and_later_packets_pass_through() {
    let mut mapping = HashMap::new();
    mapping.insert(5u32, transcode(1, true));
    let mut transcoder = PacketTranscoder::new(mapping);
    let err = transcoder.process(packet(5, b"boom")).unwrap_err();
    assert_eq!(err.message, "decoder broke");
    // the entry was dropped, not reinserted: pass-through from now on
    let out = transcoder.process(packet(5, b"after")).unwrap();
    assert_eq!(out.len(), 1);
    assert_eq!(out[0].buffer.spans()[0], b"after".to_vec());
}

#[test]
fn take_state_gives_exclusive_ownership() {
    let mut mapping = HashMap::new();
    mapping.insert(5u32, transcode(1, false));
    let mut transcoder = PacketTranscoder::new(mapping);
    let mut state = transcoder.take_state(5).unwrap();
    // while the state is out, the track's packets pass through
    let out = transcoder.process(packet(5, b"race")).unwrap();
    assert_eq!(out.len(), 1);
    assert_eq!(out[0].buffer.spans()[0], b"race".to_vec());
    // the holder runs the loop and gives the state back
    let produced = process_transcode(packet(5, b"work"), 5, &mut state).unwrap();
    assert_eq!(produced.len(), 1);
    assert_eq!(produced[0].track.id, 5);
    transcoder.restore_state(5, state);
    let again = transcoder.process(packet(5, b"more")).unwrap();
    assert_eq!(again.len(), 1);
    assert_eq!(again[0].track.id, 5);
}

#[test]
fn take_state_on_unmapped_track_is_none() {
    let mut transcoder = PacketTranscoder::new(HashMap::new());
    assert!(transcoder.take_state(3).is_none());
}

#[test]
fn encoder_failure_also_drops_state() {
    let mut mapping = HashMap::new();
    let state = Transcode::Subtitles {
        decoder: Box::new(ScriptedDecoder {
            per_packet: vec![cue("line")],
            pending: Vec::new(),
            fail_start: false,
            fail_feed: false,
        }),
        encoder: Box::new(ScriptedEncoder {
            info: SubtitleInfo {
                codec: SubtitleCodec::Ass(AssCodec { header: String::from("h") }),
            },
            per_cue: Vec::new(),
            pending: Vec::new(),
            fail_start: false,
            fail_feed: true,
        }),
    };
    mapping.insert(5u32, state);
    let mut transcoder = PacketTranscoder::new(mapping);
    let err = transcoder.process(packet(5, b"boom")).unwrap_err();
    assert_eq!(err.message, "encoder broke");
    let out = transcoder.process(packet(5, b"after")).unwrap();
    assert_eq!(out.len(), 1);
}
