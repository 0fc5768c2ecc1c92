//! The stateful packet transcoding pipeline: one decode/encode state machine
//! per track id, exclusive ownership by move-out/move-back, pass-through for
//! unmapped tracks.
use vstd::prelude::*;

use std::collections::HashMap;

use crate::codec::{SubtitleDecoder, SubtitleEncoder};
use crate::error::CodecError;
use crate::media::Packet;

verus! {

broadcast use vstd::std_specs::hash::group_hash_axioms;

/// The owned per-track transcoding state: a decoder and an encoder instance,
/// plus whatever they buffer. One variant exists today; audio and video are
/// designed to slot in as further variants.
pub enum Transcode {
    Subtitles { decoder: Box<dyn SubtitleDecoder>, encoder: Box<dyn SubtitleEncoder> },
}

/// Runs one inbound packet through a track's decode/encode state machine and
/// collects the outbound packets, in the order the decoder and, within each
/// decoded unit, the encoder produce them. Every collected packet goes
/// through `Packet::retag` with the original track id before it is handed
/// out — the encoder does not know the session-level id, and the retag is
/// the only change made to what the encoder produced.
pub fn process_transcode(pkt: Packet, track_id: u32, transcoding: &mut Transcode) -> (r: Result<
    Vec<Packet>,
    CodecError,
>)
    ensures
        r matches Ok(out) ==> forall|i: int| 0 <= i < out@.len() ==> out@[i].track.id == track_id,
{
    match transcoding {
        Transcode::Subtitles { decoder, encoder } => {
            let mut out: Vec<Packet> = Vec::new();
            decoder.feed(pkt)?;
            loop
                invariant
                    forall|i: int| 0 <= i < out@.len() ==> out@[i].track.id == track_id,
                decreases decoder.buffered(),
            {
                let decoded = match decoder.receive() {
                    Some(d) => d,
                    None => {
                        break ;
                    },
                };
                encoder.feed(decoded)?;
                let ghost decoder_fuel = decoder.buffered();
                loop
                    invariant
                        forall|i: int|
                            0 <= i < out@.len() ==> out@[i].track.id == track_id,
                        decoder.buffered() == decoder_fuel,
                    decreases encoder.buffered(),
                {
                    let encoded = match encoder.receive() {
                        Some(p) => p,
                        None => {
                            break ;
                        },
                    };
                    out.push(encoded.retag(track_id));
                }
            }
            Ok(out)
        },
    }
}

/// Law: taking a track's state out leaves its id unmapped, and a failed run
/// never gives the state back. So two runs for one track can never hold the
/// state at once, and every packet arriving after a failure finds no entry:
/// it takes the pass-through path.
pub proof fn lemma_removed_track_passes_through(mapping: Map<u32, Transcode>, track_id: u32)
    ensures
        !mapping.remove(track_id).contains_key(track_id),
{
}

/// The transcoding pipeline: a mapping from track id to owned `Transcode`
/// state. The map starts with whatever the embedding application decided to
/// transcode; tracks without an entry pass through untouched.
pub struct PacketTranscoder {
    pub mapping: HashMap<u32, Transcode>,
}

impl PacketTranscoder {
    pub fn new(mapping: HashMap<u32, Transcode>) -> (r: Self)
        ensures
            r.mapping == mapping,
    {
        PacketTranscoder { mapping }
    }

    /// Takes exclusive ownership of a track's state by removing its entry:
    /// until the state is given back, every other packet for the track sees
    /// the pass-through path. This move, not a lock, is the pipeline's sole
    /// concurrency-safety mechanism.
    pub fn take_state(&mut self, track_id: u32) -> (r: Option<Transcode>)
        ensures
            old(self).mapping@.contains_key(track_id) ==> final(self).mapping@ == old(self).mapping@.remove(track_id) && (r matches Some(t) && t == old(self).mapping@[track_id]),
            !old(self).mapping@.contains_key(track_id) ==> final(self).mapping@ == old(self).mapping@ && r is None,
    {
        let r = self.mapping.remove(&track_id);
        proof {
            if old(self).mapping@.contains_key(track_id) {
                assert(final(self).mapping@ =~= old(self).mapping@.remove(track_id));
            } else {
                assert(final(self).mapping@ =~= old(self).mapping@);
            }
        }
        r
    }

    /// Gives a track's state back after a successful run; the next packet
    /// for the track finds it again.
    pub fn restore_state(&mut self, track_id: u32, state: Transcode)
        ensures
            final(self).mapping@ == old(self).mapping@.insert(track_id, state),
    {
        let _ = self.mapping.insert(track_id, state);
    }

    /// Feeds one packet through the pipeline and collects what comes out.
    ///
    /// A packet whose track id has no entry passes through unchanged, as the
    /// single element of the result, and the map is untouched. Otherwise the
    /// entry is removed for the duration of the run; on success it is put
    /// back (every other entry untouched) and the retagged outputs are
    /// returned, and on failure it is dropped for good: from then on the
    /// track's packets take the pass-through path.
    pub fn process(&mut self, pkt: Packet) -> (r: Result<Vec<Packet>, CodecError>)
        ensures
            !old(self).mapping@.contains_key(pkt.track.id) ==> final(self).mapping@ == old(self).mapping@ && (r matches Ok(out) && out@.len() == 1 && out@[0] == pkt),
            old(self).mapping@.contains_key(pkt.track.id) ==> match r {
                Ok(_) => final(self).mapping@.dom() == old(self).mapping@.dom() && forall|k: u32|
                    k != pkt.track.id && #[trigger] old(self).mapping@.contains_key(k) ==> final(self).mapping@[k] == old(self).mapping@[k],
                Err(_) => final(self).mapping@ == old(self).mapping@.remove(pkt.track.id),
            },
            r matches Ok(out) ==> forall|i: int|
                0 <= i < out@.len() ==> out@[i].track.id == pkt.track.id,
    {
        let track_id = pkt.track.id;
        let mut transcoding = match self.take_state(track_id) {
            Some(t) => t,
            None => {
                let mut out: Vec<Packet> = Vec::new();
                out.push(pkt);
                return Ok(out);
            },
        };
        match process_transcode(pkt, track_id, &mut transcoding) {
            Ok(out) => {
                self.restore_state(track_id, transcoding);
                proof {
                    assert(final(self).mapping@.dom() =~= old(self).mapping@.dom());
                }
                Ok(out)
            },
            Err(e) => Err(e),
        }
    }
}

} // verus!
