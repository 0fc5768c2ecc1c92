//! Format probing: every registered demuxer scores a sniffed byte prefix,
//! and the best unambiguous match wins, earliest registration first on ties.
use vstd::prelude::*;

use crate::error::MediaError;
use crate::io::Io;

verus! {

/// A demuxer's confidence that a byte prefix is in its format: `Unsure`,
/// a graded `Maybe`, or `Certain`.
#[derive(Clone, Copy, Debug, PartialEq, Eq, Structural)]
pub enum ProbeResult {
    Unsure,
    Maybe(u8),
    Certain,
}

impl ProbeResult {
    /// Total order on confidence: `Unsure` below every `Maybe`, graded
    /// `Maybe`s in between, `Certain` on top.
    pub open spec fn spec_rank(&self) -> int {
        match self {
            ProbeResult::Unsure => 0,
            ProbeResult::Maybe(k) => 1 + *k as int,
            ProbeResult::Certain => 1000,
        }
    }

    pub fn rank(&self) -> (r: u16)
        ensures
            r == self.spec_rank(),
    {
        match self {
            ProbeResult::Unsure => 0,
            ProbeResult::Maybe(k) => 1 + (*k as u16),
            ProbeResult::Certain => 1000,
        }
    }
}

/// The capability test a demuxer registers: scoring a byte prefix.
pub trait DemuxerProbe: Send + Sync {
    fn probe(&self, data: &[u8]) -> ProbeResult;
}

/// An immutable registry descriptor: a stable demuxer name paired with its
/// capability test.
pub struct DemuxerMetadata {
    pub name: String,
    pub prober: Box<dyn DemuxerProbe>,
}

impl DemuxerMetadata {
    pub fn new(name: String, prober: Box<dyn DemuxerProbe>) -> (r: Self)
        ensures
            r.name == name,
    {
        DemuxerMetadata { name, prober }
    }

    /// Asks the registered demuxer to score the prefix.
    pub fn probe(&self, data: &[u8]) -> (r: ProbeResult) {
        self.prober.probe(data)
    }
}

/// The process-wide demuxer collection: populated by the bootstrap code
/// calling `register` once per compiled-in demuxer before any lookup, then
/// treated as read-only. Registration order is significant and must be
/// stable: it breaks probing ties.
pub struct DemuxerRegistry {
    entries: Vec<DemuxerMetadata>,
}

impl DemuxerRegistry {
    pub closed spec fn entries_view(&self) -> Seq<DemuxerMetadata> {
        self.entries@
    }

    pub fn new() -> (r: Self)
        ensures
            r.entries_view() == Seq::<DemuxerMetadata>::empty(),
    {
        let r = DemuxerRegistry { entries: Vec::new() };
        proof {
            assert(r.entries_view() =~= Seq::<DemuxerMetadata>::empty());
        }
        r
    }

    /// Appends a descriptor; nothing is ever unregistered or overridden.
    pub fn register(&mut self, meta: DemuxerMetadata)
        ensures
            final(self).entries_view() == old(self).entries_view().push(meta),
    {
        self.entries.push(meta);
    }

    pub fn len(&self) -> (r: usize)
        ensures
            r == self.entries_view().len(),
    {
        self.entries.len()
    }

    pub fn get(&self, i: usize) -> (r: &DemuxerMetadata)
        requires
            i < self.entries_view().len(),
        ensures
            *r == self.entries_view()[i as int],
    {
        &self.entries[i]
    }
}

/// The index the probing fold keeps among the first `n` scores: the
/// incumbent survives a tie (`>=`), so the earliest maximal score wins.
pub open spec fn best_upto(scores: Seq<ProbeResult>, n: int) -> int
    recommends
        1 <= n <= scores.len(),
    decreases n,
{
    if n <= 1 {
        0
    } else {
        let b = best_upto(scores, n - 1);
        if scores[b].spec_rank() >= scores[n - 1].spec_rank() {
            b
        } else {
            n - 1
        }
    }
}

/// What probing selects from a fixed score list: the earliest maximal
/// score's index, or nothing when no demuxer got past `Unsure`.
pub open spec fn spec_select(scores: Seq<ProbeResult>) -> Option<int> {
    if scores.len() == 0 {
        None
    } else {
        let b = best_upto(scores, scores.len() as int);
        if scores[b] is Unsure {
            None
        } else {
            Some(b)
        }
    }
}

/// Law: probing is deterministic in the scores and resolves ties to the
/// earlier registration. The kept index always holds a maximal score, and
/// every earlier index scores strictly lower.
pub proof fn lemma_probe_tie_break(scores: Seq<ProbeResult>, n: int)
    requires
        1 <= n <= scores.len(),
    ensures
        0 <= best_upto(scores, n) < n,
        forall|j: int|
            0 <= j < n ==> #[trigger] scores[j].spec_rank() <= scores[best_upto(
                scores,
                n,
            )].spec_rank(),
        forall|j: int|
            0 <= j < best_upto(scores, n) ==> #[trigger] scores[j].spec_rank() < scores[best_upto(
                scores,
                n,
            )].spec_rank(),
    decreases n,
{
    if n > 1 {
        lemma_probe_tie_break(scores, n - 1);
    }
}

/// Folds over a fixed score list exactly as probing does, keeping the
/// incumbent on ties, and refusing a winner that is `Unsure`.
pub fn select_demuxer(scores: &Vec<ProbeResult>) -> (r: Option<usize>)
    ensures
        match r {
            Some(i) => spec_select(scores@) == Some(i as int),
            None => spec_select(scores@) is None,
        },
{
    if scores.len() == 0 {
        return None;
    }
    let mut best: usize = 0;
    let mut j: usize = 1;
    while j < scores.len()
        invariant
            1 <= j <= scores@.len(),
            0 <= best < j,
            best == best_upto(scores@, j as int),
        decreases scores@.len() - j,
    {
        if scores[best].rank() >= scores[j].rank() {
        } else {
            best = j;
        }
        j += 1;
    }
    match scores[best] {
        ProbeResult::Unsure => None,
        _ => Some(best),
    }
}

/// Scores the prefix against every registered demuxer, in registration
/// order, and picks the best unambiguous match: the earliest maximal score,
/// unless that score is `Unsure`.
pub fn find_demuxer(registry: &DemuxerRegistry, data: &[u8]) -> (r: Option<usize>)
    ensures
        r matches Some(i) ==> i < registry.entries_view().len(),
        registry.entries_view().len() == 0 ==> r is None,
{
    let n = registry.len();
    let mut scores: Vec<ProbeResult> = Vec::new();
    let mut i: usize = 0;
    while i < n
        invariant
            i <= n,
            n == registry.entries_view().len(),
            scores@.len() == i,
        decreases n - i,
    {
        let s = registry.get(i).probe(data);
        scores.push(s);
        i += 1;
    }
    let r = select_demuxer(&scores);
    proof {
        if scores@.len() >= 1 {
            lemma_probe_tie_break(scores@, scores@.len() as int);
        }
    }
    r
}

/// Sniffs the resource's unconsumed bytes without advancing the read
/// cursor, and picks a demuxer for them. Fails with the underlying I/O
/// condition when sniffing fails, and with `NoDemuxer` when no registered
/// demuxer recognizes the prefix; with a reader attached the sniff itself
/// cannot fail, so one of those two outcomes is owed.
pub fn probe(registry: &DemuxerRegistry, io: &Io) -> (r: Result<usize, MediaError>)
    ensures
        io.reader is None ==> (r matches Err(MediaError::Probe(e)) && e is NotReadable),
        io.reader is Some ==> (r matches Ok(i) && i < registry.entries_view().len()) || (
        r matches Err(e) && e is NoDemuxer),
        r matches Ok(i) ==> i < registry.entries_view().len(),
        io.reader is Some && registry.entries_view().len() == 0 ==> (r matches Err(e)
            && e is NoDemuxer),
{
    let data = match io.read_probe() {
        Ok(d) => d,
        Err(e) => {
            return Err(MediaError::Probe(e));
        },
    };
    match find_demuxer(registry, data.as_slice()) {
        Some(i) => Ok(i),
        None => Err(MediaError::NoDemuxer),
    }
}

} // verus!
