//! Mixing several asynchronous PCM sources into one mono 16-bit stream.
//!
//! Each source has a queue of samples. Once every active source has a small
//! jitter buffer, the first frames of all active queues are summed (clamped to
//! the 16-bit range), encoded little-endian, and cut into fixed-size chunks.

use vstd::prelude::*;
use std::collections::VecDeque;

verus! {

/// Frames every active source must hold before mixing starts.
pub const MIX_THRESHOLD_FRAMES: usize = 2400;
/// Frames kept per source; older frames are dropped when a source runs ahead.
pub const MAX_BUFFER_FRAMES: usize = 19200;
/// Bytes of one published PCM chunk.
pub const CHUNK_BYTES: usize = 4096;

pub open spec fn clamp_i16(s: int) -> i16 {
    if s > 32767 {
        32767
    } else if s < -32768 {
        -32768i16
    } else {
        s as i16
    }
}

/// The little-endian bytes of a sample.
pub open spec fn le_bytes(x: i16) -> Seq<u8> {
    seq![((x as u16) % 256) as u8, ((x as u16) / 256) as u8]
}

pub open spec fn sample_or_zero(q: Seq<i16>, k: int) -> int {
    if 0 <= k < q.len() {
        q[k] as int
    } else {
        0
    }
}

/// The sum of frame `k` over the active sources among the first `upto`.
pub open spec fn frame_sum(queues: Seq<Seq<i16>>, active: Seq<bool>, k: int, upto: int) -> int
    decreases upto,
{
    if upto <= 0 {
        0
    } else {
        frame_sum(queues, active, k, upto - 1) + (if active[upto - 1] {
            sample_or_zero(queues[upto - 1], k)
        } else {
            0
        })
    }
}

/// The first `n` mixed samples.
pub open spec fn mixed_samples(queues: Seq<Seq<i16>>, active: Seq<bool>, n: int) -> Seq<i16> {
    Seq::new(n as nat, |k: int| clamp_i16(frame_sum(queues, active, k, queues.len() as int)))
}

/// The little-endian encoding of a sample sequence.
pub open spec fn encode(samples: Seq<i16>) -> Seq<u8>
    decreases samples.len(),
{
    if samples.len() == 0 {
        Seq::empty()
    } else {
        encode(samples.drop_last()) + le_bytes(samples.last())
    }
}

/// A queue after `data` arrived: only the newest [`MAX_BUFFER_FRAMES`] frames stay.
pub open spec fn capped(q: Seq<i16>) -> Seq<i16> {
    if q.len() > MAX_BUFFER_FRAMES {
        q.subrange(q.len() - MAX_BUFFER_FRAMES, q.len() as int)
    } else {
        q
    }
}

/// The fewest frames among the active sources among the first `upto`, or
/// `usize::MAX` when none is active.
pub open spec fn min_active(queues: Seq<Seq<i16>>, active: Seq<bool>, upto: int) -> int
    decreases upto,
{
    if upto <= 0 {
        usize::MAX as int
    } else {
        let rest = min_active(queues, active, upto - 1);
        if active[upto - 1] && (queues[upto - 1].len() as int) < rest {
            queues[upto - 1].len() as int
        } else {
            rest
        }
    }
}

pub struct MixerView {
    pub queues: Seq<Seq<i16>>,
    pub pending: Seq<u8>,
}

/// The mixer state.
pub struct Mixer {
    queues: Vec<VecDeque<i16>>,
    pending: Vec<u8>,
}

impl View for Mixer {
    type V = MixerView;

    closed spec fn view(&self) -> MixerView {
        MixerView {
            queues: Seq::new(self.queues@.len(), |i: int| self.queues@[i]@),
            pending: self.pending@,
        }
    }
}

/// The concatenation of byte chunks.
pub open spec fn flatten(chunks: Seq<Seq<u8>>) -> Seq<u8>
    decreases chunks.len(),
{
    if chunks.len() == 0 {
        Seq::empty()
    } else {
        flatten(chunks.drop_last()) + chunks.last()
    }
}

pub open spec fn chunk_views(chunks: Seq<Vec<u8>>) -> Seq<Seq<u8>> {
    chunks.map_values(|c: Vec<u8>| c@)
}

/// The queues after the first `n` frames of every active queue were mixed.
pub open spec fn dropped(queues: Seq<Seq<i16>>, active: Seq<bool>, n: int) -> Seq<Seq<i16>> {
    Seq::new(queues.len(), |i: int| if active[i] {
        queues[i].subrange(n, queues[i].len() as int)
    } else {
        queues[i]
    })
}

/// Whether a round mixes: some source is active and every active source holds
/// the jitter buffer, or capture is ending and every active source holds a frame.
pub open spec fn round_mixes(n: int, cancelled: bool) -> bool {
    n != usize::MAX as int && (n >= MIX_THRESHOLD_FRAMES || (n > 0 && cancelled))
}

proof fn lemma_min_active_le(queues: Seq<Seq<i16>>, active: Seq<bool>, upto: int, i: int)
    requires
        0 <= i < upto <= active.len(),
        upto <= queues.len(),
        active[i],
    ensures
        min_active(queues, active, upto) <= queues[i].len(),
    decreases upto,
{
    if i < upto - 1 {
        lemma_min_active_le(queues, active, upto - 1, i);
    }
}

proof fn lemma_frame_sum_bound(queues: Seq<Seq<i16>>, active: Seq<bool>, k: int, upto: int)
    requires
        0 <= upto <= active.len(),
        upto <= queues.len(),
    ensures
        -32768 * upto <= frame_sum(queues, active, k, upto) <= 32768 * upto,
    decreases upto,
{
    if upto > 0 {
        lemma_frame_sum_bound(queues, active, k, upto - 1);
    }
}


/// The samples of little-endian 16-bit PCM bytes; a trailing odd byte is ignored.
pub open spec fn decode(bytes: Seq<u8>) -> Seq<i16> {
    Seq::new(bytes.len() / 2, |k: int| (bytes[2 * k] as int + 256 * (bytes[2 * k + 1] as int)) as u16 as i16)
}

/// The samples of a PCM chunk, as the recorder writes them.
pub fn decode_pcm(bytes: &Vec<u8>) -> (samples: Vec<i16>)
    ensures
        samples@ == decode(bytes@),
{
    let mut samples: Vec<i16> = Vec::new();
    let len = bytes.len();
    let n = len / 2;
    let mut k: usize = 0;
    while k < n
        invariant
            len == bytes@.len(),
            n == len / 2,
            k <= n,
            samples@ == decode(bytes@).subrange(0, k as int),
        decreases n - k,
    {
        let lo = bytes[2 * k] as u16;
        let hi = bytes[2 * k + 1] as u16;
        let u: u16 = lo + 256 * hi;
        samples.push(#[verifier::truncate] (u as i16));
        k = k + 1;
        assert(samples@ =~= decode(bytes@).subrange(0, k as int));
    }
    assert(decode(bytes@).subrange(0, n as int) =~= decode(bytes@));
    samples
}

proof fn lemma_encode_len(s: Seq<i16>)
    ensures
        encode(s).len() == 2 * s.len(),
    decreases s.len(),
{
    if s.len() > 0 {
        lemma_encode_len(s.drop_last());
    }
}

proof fn lemma_encode_index(s: Seq<i16>, k: int)
    requires
        0 <= k < s.len(),
    ensures
        encode(s)[2 * k] == le_bytes(s[k])[0],
        encode(s)[2 * k + 1] == le_bytes(s[k])[1],
    decreases s.len(),
{
    lemma_encode_len(s.drop_last());
    if k < s.len() - 1 {
        lemma_encode_index(s.drop_last(), k);
    }
}

proof fn lemma_le_bytes_inverse(x: i16)
    ensures
        (le_bytes(x)[0] as int + 256 * (le_bytes(x)[1] as int)) as u16 as i16 == x,
{
    let u = x as u16;
    assert(((u % 256) as u8) as int + 256 * (((u / 256) as u8) as int) == u as int);
    assert((u as u16) as i16 == x) by (bit_vector)
        requires
            u == x as u16,
    ;
}

/// What the mixer publishes is what the recorder writes: decoding the encoded
/// samples gives the samples back.
pub proof fn law_pcm_round_trip(samples: Seq<i16>)
    ensures
        decode(encode(samples)) == samples,
{
    lemma_encode_len(samples);
    assert forall|k: int| 0 <= k < samples.len() implies #[trigger] decode(encode(samples))[k] == samples[k] by {
        lemma_encode_index(samples, k);
        lemma_le_bytes_inverse(samples[k]);
    }
    assert(decode(encode(samples)) =~= samples);
}

/// With a single active source, mixing passes its samples through unchanged.
pub proof fn law_single_source_passes_through(queues: Seq<Seq<i16>>, active: Seq<bool>, a: int, k: int)
    requires
        active.len() == queues.len(),
        0 <= a < queues.len(),
        active[a],
        forall|i: int| 0 <= i < active.len() && i != a ==> !active[i],
        0 <= k < queues[a].len(),
    ensures
        mixed_samples(queues, active, k + 1)[k] == queues[a][k],
{
    lemma_single_sum(queues, active, a, k, queues.len() as int);
}

proof fn lemma_single_sum(queues: Seq<Seq<i16>>, active: Seq<bool>, a: int, k: int, upto: int)
    requires
        active.len() == queues.len(),
        0 <= a < queues.len(),
        0 <= upto <= queues.len(),
        forall|i: int| 0 <= i < active.len() && i != a ==> !active[i],
        active[a],
        0 <= k < queues[a].len(),
    ensures
        frame_sum(queues, active, k, upto) == (if a < upto { queues[a][k] as int } else { 0 }),
    decreases upto,
{
    if upto > 0 {
        lemma_single_sum(queues, active, a, k, upto - 1);
    }
}

impl Mixer {
    /// The mixer holds fewer pending bytes than a chunk, and whole samples only.
    pub open spec fn wf(&self) -> bool {
        self@.pending.len() < CHUNK_BYTES && self@.pending.len() % 2 == 0
    }

    pub fn new(source_count: usize) -> (m: Mixer)
        ensures
            m.wf(),
            m@.queues == Seq::new(source_count as nat, |i: int| Seq::<i16>::empty()),
            m@.pending == Seq::<u8>::empty(),
    {
        let mut queues: Vec<VecDeque<i16>> = Vec::new();
        let mut i: usize = 0;
        while i < source_count
            invariant
                i <= source_count,
                queues@.len() == i,
                forall|k: int| 0 <= k < i ==> (#[trigger] queues@[k])@ == Seq::<i16>::empty(),
            decreases source_count - i,
        {
            queues.push(VecDeque::new());
            i = i + 1;
        }
        let m = Mixer { queues, pending: Vec::new() };
        assert(m@.queues =~= Seq::new(source_count as nat, |i: int| Seq::<i16>::empty()));
        m
    }

    pub fn source_count(&self) -> (n: usize)
        ensures
            n == self@.queues.len(),
    {
        self.queues.len()
    }

    /// Queues the samples `data` of source `source_id`; unknown sources are ignored.
    pub fn push_chunk(&mut self, source_id: usize, data: Vec<i16>)
        requires
            old(self).wf(),
        ensures
            final(self).wf(),
            final(self)@.pending == old(self)@.pending,
            source_id < old(self)@.queues.len() ==> final(self)@.queues == old(self)@.queues.update(
                source_id as int,
                capped(old(self)@.queues[source_id as int] + data@),
            ),
            source_id >= old(self)@.queues.len() ==> final(self)@.queues == old(self)@.queues,
    {
        if source_id >= self.queues.len() {
            return;
        }
        let ghost old_queues = self@.queues;
        let mut q = self.queues.remove(source_id);
        let ghost start = q@;
        let mut i: usize = 0;
        while i < data.len()
            invariant
                i <= data@.len(),
                q@ == start + data@.subrange(0, i as int),
            decreases data@.len() - i,
        {
            q.push_back(data[i]);
            i = i + 1;
            assert(q@ =~= start + data@.subrange(0, i as int));
        }
        assert(data@.subrange(0, data@.len() as int) =~= data@);
        let len = q.len();
        if len > MAX_BUFFER_FRAMES {
            let rest = q.split_off(len - MAX_BUFFER_FRAMES);
            q = rest;
        }
        self.queues.insert(source_id, q);
        assert(self@.queues =~= old_queues.update(source_id as int, capped(old_queues[source_id as int] + data@)));
    }

    /// One mixing round with the sources flagged in `active`: the chunks it
    /// publishes followed by the bytes left pending are the bytes pending before
    /// followed by the encoded mixed samples, and every chunk is whole.
    pub fn mix_round(&mut self, active: &Vec<bool>, cancelled: bool) -> (chunks: Vec<Vec<u8>>)
        requires
            old(self).wf(),
            active@.len() == old(self)@.queues.len(),
        ensures
            final(self).wf(),
            ({
                let q = old(self)@.queues;
                let n = min_active(q, active@, q.len() as int);
                &&& !round_mixes(n, cancelled) ==> final(self)@ == old(self)@ && chunks@.len() == 0
                &&& round_mixes(n, cancelled) ==> {
                    &&& final(self)@.queues == dropped(q, active@, n)
                    &&& flatten(chunk_views(chunks@)) + final(self)@.pending == old(self)@.pending + encode(mixed_samples(q, active@, n))
                    &&& forall|j: int| 0 <= j < chunks@.len() ==> (#[trigger] chunks@[j])@.len() == CHUNK_BYTES
                }
            }),
    {
        let ghost q0 = self@.queues;
        let count = self.queues.len();
        let mut n: usize = usize::MAX;
        let mut i: usize = 0;
        while i < count
            invariant
                count == self.queues@.len(),
                count == active@.len(),
                q0 == self@.queues,
                i <= count,
                n == min_active(q0, active@, i as int),
            decreases count - i,
        {
            if active[i] && self.queues[i].len() < n {
                n = self.queues[i].len();
            }
            i = i + 1;
        }
        if n == usize::MAX || !(n >= MIX_THRESHOLD_FRAMES || (n > 0 && cancelled)) {
            return Vec::new();
        }
        let ghost p0 = self@.pending;
        let mut chunks: Vec<Vec<u8>> = Vec::new();
        let mut k: usize = 0;
        while k < n
            invariant
                count == self.queues@.len(),
                count == active@.len(),
                q0 == self@.queues,
                n == min_active(q0, active@, count as int),
                k <= n,
                self@.pending.len() < CHUNK_BYTES,
                self@.pending.len() % 2 == 0,
                flatten(chunk_views(chunks@)) + self@.pending == p0 + encode(mixed_samples(q0, active@, k as int)),
                forall|j: int| 0 <= j < chunks@.len() ==> (#[trigger] chunks@[j])@.len() == CHUNK_BYTES,
            decreases n - k,
        {
            let mut sum: i128 = 0;
            let mut i: usize = 0;
            while i < count
                invariant
                    count == self.queues@.len(),
                    count == active@.len(),
                    q0 == self@.queues,
                    n == min_active(q0, active@, count as int),
                    k < n,
                    i <= count,
                    sum == frame_sum(q0, active@, k as int, i as int),
                decreases count - i,
            {
                proof {
                    lemma_frame_sum_bound(q0, active@, k as int, i as int);
                }
                if active[i] {
                    proof {
                        lemma_min_active_le(q0, active@, count as int, i as int);
                    }
                    let x = self.queues[i][k];
                    sum = sum + x as i128;
                }
                i = i + 1;
            }
            let s: i16 = if sum > 32767 {
                32767
            } else if sum < -32768 {
                -32768
            } else {
                sum as i16
            };
            let u = s as u16;
            let ghost before = self@.pending;
            self.pending.push((u % 256) as u8);
            self.pending.push((u / 256) as u8);
            let ghost cv0 = chunk_views(chunks@);
            proof {
                let m = mixed_samples(q0, active@, k as int);
                let m1 = mixed_samples(q0, active@, k + 1);
                assert(m1.drop_last() =~= m);
                assert(m1.last() == s);
                assert(encode(m1) == encode(m) + le_bytes(s));
                assert(self@.pending =~= before + le_bytes(s));
                assert(flatten(cv0) + self@.pending =~= (flatten(cv0) + before) + le_bytes(s));
                assert(p0 + encode(m1) =~= (p0 + encode(m)) + le_bytes(s));
            }
            if self.pending.len() >= CHUNK_BYTES {
                let ghost pend = self@.pending;
                let full = self.pending.split_off(0);
                chunks.push(full);
                proof {
                    assert(chunk_views(chunks@).drop_last() =~= cv0);
                    assert(chunk_views(chunks@).last() == pend);
                    assert(self@.pending =~= Seq::<u8>::empty());
                    assert(flatten(chunk_views(chunks@)) + self@.pending =~= flatten(cv0) + pend);
                }
            }
            k = k + 1;
        }
        let mut i: usize = 0;
        while i < count
            invariant
                count == self.queues@.len(),
                count == active@.len(),
                n == min_active(q0, active@, count as int),
                i <= count,
                q0.len() == count,
                self@.pending.len() < CHUNK_BYTES,
                self@.pending.len() % 2 == 0,
                flatten(chunk_views(chunks@)) + self@.pending == p0 + encode(mixed_samples(q0, active@, n as int)),
                forall|j: int| 0 <= j < chunks@.len() ==> (#[trigger] chunks@[j])@.len() == CHUNK_BYTES,
                self@.queues == Seq::new(count as nat, |j: int| if j < i && active@[j] {
                    q0[j].subrange(n as int, q0[j].len() as int)
                } else {
                    q0[j]
                }),
            decreases count - i,
        {
            if active[i] {
                proof {
                    lemma_min_active_le(q0, active@, count as int, i as int);
                }
                let ghost before = self@.queues;
                assert(before[i as int] == q0[i as int]);
                let ghost raw = self.queues@;
                let mut q = self.queues.remove(i);
                assert(q@ == raw[i as int]@);
                assert(q@ == q0[i as int]);
                let rest = q.split_off(n);
                self.queues.insert(i, rest);
                assert(self@.queues =~= before.update(i as int, q0[i as int].subrange(n as int, q0[i as int].len() as int)));
            }
            i = i + 1;
            assert(self@.queues =~= Seq::new(count as nat, |j: int| if j < i && active@[j] {
                q0[j].subrange(n as int, q0[j].len() as int)
            } else {
                q0[j]
            }));
        }
        assert(self@.queues =~= dropped(q0, active@, n as int));
        chunks
    }

    /// The bytes still pending when capture ends, if any.
    pub fn flush(&mut self) -> (rest: Option<Vec<u8>>)
        requires
            old(self).wf(),
        ensures
            final(self).wf(),
            final(self)@.queues == old(self)@.queues,
            final(self)@.pending == Seq::<u8>::empty(),
            old(self)@.pending.len() > 0 ==> rest is Some && rest->0@ == old(self)@.pending,
            old(self)@.pending.len() == 0 ==> rest is None,
    {
        if self.pending.len() == 0 {
            return None;
        }
        let full = self.pending.split_off(0);
        Some(full)
    }
}

} // verus!
