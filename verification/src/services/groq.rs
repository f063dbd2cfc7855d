//! Resumable chunked transcription of a recorded WAV file with Groq Whisper:
//! how the file is split, the per-chunk manifest kept on disk so that finished
//! chunks are not sent again, and the final transcript.

use vstd::prelude::*;
use crate::services::deepgram::{backoff_secs, pow2};
use crate::text::{cat, cat3, decimal, decimal_string, join_spec, join_strings, owned, text_eq, trim, trim_spec, views};

verus! {

/// The largest chunk sent in one request.
pub const MAX_CHUNK_SIZE_BYTES: u32 = 20000000;
/// Upload attempts per chunk.
pub const MAX_UPLOAD_ATTEMPTS: u32 = 4;

/// Refuses a blank key and the template placeholder.
pub fn check_api_key(api_key: &str) -> (r: Result<(), String>)
    ensures
        (trim_spec(api_key@).len() == 0 || api_key@ == "your_groq_api_key_here"@) ==> r is Err
            && r->Err_0@ == "groq_api_key is empty or invalid in settings.json"@,
        !(trim_spec(api_key@).len() == 0 || api_key@ == "your_groq_api_key_here"@) ==> r is Ok,
{
    let t = trim(api_key);
    if t.unicode_len() == 0 || text_eq(api_key, "your_groq_api_key_here") {
        Err(owned("groq_api_key is empty or invalid in settings.json"))
    } else {
        Ok(())
    }
}

/// How a WAV file is sent.
#[derive(Clone, Copy, Debug, PartialEq, Eq, Structural)]
pub enum ChunkPlan {
    /// The file as it is.
    Whole,
    /// Re-encoded in parts of this many samples.
    Split { samples_per_chunk: u32 },
}

/// The plan for a file of `frames` frames of `channels` channels of
/// `bits_per_sample` bits.
pub fn chunk_plan(frames: u32, channels: u16, bits_per_sample: u16) -> (p: ChunkPlan)
    requires
        (frames as int) * (channels as int) <= u32::MAX,
        (frames as int) * (channels as int) * ((bits_per_sample / 8) as int) <= u32::MAX,
    ensures
        ({
            let bps = (bits_per_sample / 8) as int;
            let total = (frames as int) * (channels as int) * bps;
            &&& total <= MAX_CHUNK_SIZE_BYTES ==> p == ChunkPlan::Whole
            &&& total > MAX_CHUNK_SIZE_BYTES ==> bps > 0 && p == (ChunkPlan::Split { samples_per_chunk: ((MAX_CHUNK_SIZE_BYTES as int) / bps) as u32 })
        }),
{
    let total_samples: u32 = frames * channels as u32;
    let bytes_per_sample: u32 = (bits_per_sample / 8) as u32;
    let total_bytes: u32 = total_samples * bytes_per_sample;
    if total_bytes <= MAX_CHUNK_SIZE_BYTES {
        ChunkPlan::Whole
    } else {
        ChunkPlan::Split { samples_per_chunk: MAX_CHUNK_SIZE_BYTES / bytes_per_sample }
    }
}

/// The bytes of the WAV file that `hound::WavWriter` writes for integer
/// samples `samples` with this channel count, sample rate and sample width.
pub uninterp spec fn wav_bytes(channels: u16, sample_rate: u32, bits_per_sample: u16, samples: Seq<i16>) -> Seq<u8>;

/// Whether `hound` can write `samples` as a WAV file: a sample width it writes
/// (8-bit samples must fit in `i8`), and whole frames.
pub open spec fn wav_encodable(channels: u16, bits_per_sample: u16, samples: Seq<i16>) -> bool {
    &&& (bits_per_sample == 16 || bits_per_sample == 24 || bits_per_sample == 32 || (bits_per_sample == 8
        && forall|i: int| 0 <= i < samples.len() ==> -128 <= #[trigger] samples[i] <= 127))
    &&& (samples.len() as int) % (channels as int) == 0
}

/// The bytes per sample that `hound` writes for a sample width.
pub open spec fn wav_sample_bytes(bits_per_sample: u16) -> int {
    (bits_per_sample as int + 7) / 8
}

/// The limits within which `hound`'s `u16` and `u32` header arithmetic does
/// not overflow or divide by zero, for `n` samples.
pub open spec fn wav_writable(channels: u16, sample_rate: u32, bits_per_sample: u16, n: int) -> bool {
    &&& channels > 0
    &&& sample_rate > 0
    &&& bits_per_sample <= 65528
    &&& (sample_rate as int) * wav_sample_bytes(bits_per_sample) * (channels as int) <= u32::MAX
    &&& n * wav_sample_bytes(bits_per_sample) + 60 <= u32::MAX
}

/// Writes `samples` as an integer-sample WAV file in memory with
/// `hound::WavWriter` (`new`, `write_sample`, `finalize`). The contract
/// claims that the bytes are a function of the arguments, and, as the writer's
/// source shows, that it fails exactly when the width is one it does not
/// write, an 8-bit sample does not fit, or the last frame is incomplete.
#[verifier::external_body]
fn encode_wav(channels: u16, sample_rate: u32, bits_per_sample: u16, samples: &[i16]) -> (r: Result<Vec<u8>, String>)
    requires
        wav_writable(channels, sample_rate, bits_per_sample, samples@.len() as int),
    ensures
        r is Ok <==> wav_encodable(channels, bits_per_sample, samples@),
        r is Ok ==> r->Ok_0@ == wav_bytes(channels, sample_rate, bits_per_sample, samples@),
{
    let spec = hound::WavSpec { channels, sample_rate, bits_per_sample, sample_format: hound::SampleFormat::Int };
    let mut cursor = std::io::Cursor::new(Vec::new());
    let mut writer = hound::WavWriter::new(&mut cursor, spec).map_err(|e| e.to_string())?;
    for &sample in samples {
        writer.write_sample(sample).map_err(|e| e.to_string())?;
    }
    writer.finalize().map_err(|e| e.to_string())?;
    Ok(cursor.into_inner())
}

/// The number of chunks of `k` samples that `n` samples make, the last one
/// possibly shorter.
pub open spec fn chunk_count(n: int, k: int) -> int {
    (n + k - 1) / k
}

/// Chunk `i` of `samples` in chunks of `k` samples.
pub open spec fn wav_chunk(samples: Seq<i16>, k: int, i: int) -> Seq<i16> {
    samples.subrange(i * k, if (i + 1) * k < samples.len() { (i + 1) * k } else { samples.len() as int })
}

proof fn lemma_chunk_count(n: int, k: int, idx: int)
    requires
        k > 0,
        idx >= 0,
        n >= 0,
        idx * k >= n,
        idx == 0 || (idx - 1) * k < n,
    ensures
        chunk_count(n, k) == idx,
{
    assert((idx - 1) * k == idx * k - k) by (nonlinear_arith);
    let r = n + k - 1 - idx * k;
    assert(n + k - 1 == idx * k + r);
    vstd::arithmetic::div_mod::lemma_fundamental_div_mod_converse_div(n + k - 1, k, idx, r);
}

/// Re-encodes `samples` as WAV files of `samples_per_chunk` samples each, the
/// last one holding the rest, in order; it fails where `hound` cannot write a
/// chunk.
pub fn split_wav_chunks(
    channels: u16,
    sample_rate: u32,
    bits_per_sample: u16,
    samples: &Vec<i16>,
    samples_per_chunk: u32,
) -> (r: Result<Vec<Vec<u8>>, String>)
    requires
        samples_per_chunk > 0,
        wav_writable(channels, sample_rate, bits_per_sample, samples@.len() as int),
    ensures
        r is Ok <==> forall|i: int| 0 <= i < chunk_count(samples@.len() as int, samples_per_chunk as int)
            ==> wav_encodable(channels, bits_per_sample, #[trigger] wav_chunk(samples@, samples_per_chunk as int, i)),
        r is Ok ==> {
            let chunks = r->Ok_0@;
            &&& chunks.len() == chunk_count(samples@.len() as int, samples_per_chunk as int)
            &&& forall|i: int| 0 <= i < chunks.len() ==> (#[trigger] chunks[i])@ == wav_bytes(
                channels,
                sample_rate,
                bits_per_sample,
                wav_chunk(samples@, samples_per_chunk as int, i),
            )
        },
{
    let n = samples.len();
    let k = samples_per_chunk as usize;
    let ghost kk = samples_per_chunk as int;
    let mut chunks: Vec<Vec<u8>> = Vec::new();
    let mut start: usize = 0;
    let mut idx: usize = 0;
    while start < n
        invariant
            n == samples@.len(),
            k as int == kk,
            kk == samples_per_chunk as int,
            kk > 0,
            wav_writable(channels, sample_rate, bits_per_sample, n as int),
            start <= n,
            idx <= start,
            start as int == idx * kk || (start == n && idx * kk >= n),
            idx == 0 || (idx - 1) * kk < n,
            chunks@.len() == idx,
            forall|j: int| 0 <= j < idx ==> wav_encodable(channels, bits_per_sample, #[trigger] wav_chunk(samples@, kk, j)),
            forall|j: int| 0 <= j < idx ==> (#[trigger] chunks@[j])@ == wav_bytes(
                channels,
                sample_rate,
                bits_per_sample,
                wav_chunk(samples@, kk, j),
            ),
        decreases n - start,
    {
        let end = if n - start > k { start + k } else { n };
        let mut part: Vec<i16> = Vec::new();
        let mut j = start;
        while j < end
            invariant
                start <= j <= end,
                end <= samples@.len(),
                part@ == samples@.subrange(start as int, j as int),
            decreases end - j,
        {
            part.push(samples[j]);
            j = j + 1;
            assert(part@ =~= samples@.subrange(start as int, j as int));
        }
        proof {
            assert((idx + 1) * kk == idx * kk + kk) by (nonlinear_arith);
            assert(part@ == wav_chunk(samples@, kk, idx as int));
            let b = wav_sample_bytes(bits_per_sample);
            let m = part@.len() as int;
            assert(m * b <= (n as int) * b) by (nonlinear_arith)
                requires
                    0 <= m <= n,
                    b >= 0,
            ;
        }
        let encoded = encode_wav(channels, sample_rate, bits_per_sample, part.as_slice());
        match encoded {
            Err(e) => {
                proof {
                    assert(!wav_encodable(channels, bits_per_sample, wav_chunk(samples@, kk, idx as int)));
                    assert(idx < chunk_count(n as int, kk)) by {
                        assert(idx * kk < n);
                        lemma_chunk_count_above(n as int, kk, idx as int);
                    }
                }
                return Err(e);
            },
            Ok(bytes) => {
                chunks.push(bytes);
                proof {
                    assert(chunks@[idx as int]@ == wav_bytes(channels, sample_rate, bits_per_sample, wav_chunk(samples@, kk, idx as int)));
                }
            },
        }
        start = end;
        idx = idx + 1;
        proof {
            assert(idx * kk == (idx - 1) * kk + kk) by (nonlinear_arith);
        }
    }
    proof {
        lemma_chunk_count(n as int, kk, idx as int);
    }
    Ok(chunks)
}

proof fn lemma_chunk_count_above(n: int, k: int, idx: int)
    requires
        k > 0,
        idx >= 0,
        idx * k < n,
    ensures
        idx < chunk_count(n, k),
{
    let x = n + k - 1;
    vstd::arithmetic::div_mod::lemma_fundamental_div_mod(x, k);
    vstd::arithmetic::div_mod::lemma_mod_pos_bound(x, k);
    let q = x / k;
    assert(k * q > k * idx);
    assert(q > idx) by (nonlinear_arith)
        requires
            k > 0,
            k * q > k * idx,
    ;
}

/// The manifest file kept beside a WAV file.
pub fn manifest_path(wav_file_path: &str) -> (r: String)
    ensures
        r@ == wav_file_path@ + ".workflow.json"@,
{
    cat(wav_file_path, ".workflow.json")
}

/// The progress of one chunk.
pub struct ChunkState {
    pub index: usize,
    pub status: String,
    pub text: String,
    pub attempts: u32,
    pub last_error: Option<String>,
}

/// The progress of a whole file.
pub struct WorkflowManifest {
    pub source_file: String,
    pub model: String,
    pub language: String,
    pub updated_at: String,
    pub chunks: Vec<ChunkState>,
}

pub struct ChunkView {
    pub index: usize,
    pub status: Seq<char>,
    pub text: Seq<char>,
    pub attempts: u32,
    pub last_error: Option<Seq<char>>,
}

impl View for ChunkState {
    type V = ChunkView;

    open spec fn view(&self) -> ChunkView {
        ChunkView {
            index: self.index,
            status: self.status@,
            text: self.text@,
            attempts: self.attempts,
            last_error: match self.last_error {
                Some(e) => Some(e@),
                None => None,
            },
        }
    }
}

pub open spec fn chunk_views(chunks: Seq<ChunkState>) -> Seq<ChunkView> {
    chunks.map_values(|c: ChunkState| c@)
}

/// The chunk texts that go into the transcript: trimmed, blank ones left out.
pub open spec fn kept_texts(chunks: Seq<ChunkView>) -> Seq<Seq<char>>
    decreases chunks.len(),
{
    if chunks.len() == 0 {
        Seq::empty()
    } else {
        let rest = kept_texts(chunks.drop_last());
        let t = trim_spec(chunks.last().text);
        if t.len() > 0 {
            rest.push(t)
        } else {
            rest
        }
    }
}

/// Whether a saved manifest belongs to this file, model, language and chunking.
pub open spec fn manifest_matches_spec(m: WorkflowManifest, wav: Seq<char>, model: Seq<char>, language: Seq<char>, count: nat) -> bool {
    m.chunks@.len() == count && m.source_file@ == wav && m.model@ == model && m.language@ == language
}

/// The attempt count after one more attempt, wrapping at `u32::MAX`.
pub open spec fn next_attempts(n: u32) -> u32 {
    if n < u32::MAX { (n + 1) as u32 } else { 0 }
}

/// A fresh chunk record.
pub open spec fn fresh_chunk(i: int) -> ChunkView {
    ChunkView { index: (i + 1) as usize, status: "pending"@, text: Seq::empty(), attempts: 0, last_error: None }
}

impl WorkflowManifest {
    /// Whether this manifest belongs to this file, model, language and chunk count.
    pub fn matches(&self, wav_file_path: &str, model: &str, language: &str, chunk_count: usize) -> (b: bool)
        ensures
            b == manifest_matches_spec(*self, wav_file_path@, model@, language@, chunk_count as nat),
    {
        self.chunks.len() == chunk_count && text_eq(self.source_file.as_str(), wav_file_path)
            && text_eq(self.model.as_str(), model) && text_eq(self.language.as_str(), language)
    }

    /// A manifest with every chunk pending.
    pub fn fresh(wav_file_path: &str, model: &str, language: &str, chunk_count: usize, updated_at: &str) -> (m: WorkflowManifest)
        requires
            chunk_count < usize::MAX,
        ensures
            m.source_file@ == wav_file_path@,
            m.model@ == model@,
            m.language@ == language@,
            m.updated_at@ == updated_at@,
            chunk_views(m.chunks@) == Seq::new(chunk_count as nat, |i: int| fresh_chunk(i)),
    {
        let mut chunks: Vec<ChunkState> = Vec::new();
        let mut i: usize = 0;
        while i < chunk_count
            invariant
                i <= chunk_count < usize::MAX,
                chunk_views(chunks@) == Seq::new(i as nat, |k: int| fresh_chunk(k)),
            decreases chunk_count - i,
        {
            let ghost before = chunks@;
            let c = ChunkState { index: i + 1, status: owned("pending"), text: String::new(), attempts: 0, last_error: None };
            assert(c@ == fresh_chunk(i as int));
            chunks.push(c);
            assert(chunk_views(chunks@) =~= chunk_views(before).push(fresh_chunk(i as int)));
            i = i + 1;
            assert(chunk_views(chunks@) =~= Seq::new(i as nat, |k: int| fresh_chunk(k)));
        }
        WorkflowManifest {
            source_file: owned(wav_file_path),
            model: owned(model),
            language: owned(language),
            updated_at: owned(updated_at),
            chunks,
        }
    }

    /// The saved manifest when it belongs to this run, else a fresh one.
    pub fn load_or_create(saved: Option<WorkflowManifest>, wav_file_path: &str, model: &str, language: &str, chunk_count: usize, updated_at: &str) -> (m: WorkflowManifest)
        requires
            chunk_count < usize::MAX,
        ensures
            saved is Some && manifest_matches_spec(saved->0, wav_file_path@, model@, language@, chunk_count as nat) ==> m == saved->0,
            m.source_file@ == wav_file_path@,
            m.model@ == model@,
            m.language@ == language@,
            m.chunks@.len() == chunk_count,
            !(saved is Some && manifest_matches_spec(saved->0, wav_file_path@, model@, language@, chunk_count as nat)) ==> {
                &&& m.source_file@ == wav_file_path@
                &&& m.model@ == model@
                &&& m.language@ == language@
                &&& m.updated_at@ == updated_at@
                &&& chunk_views(m.chunks@) == Seq::new(chunk_count as nat, |i: int| fresh_chunk(i))
            },
    {
        if let Some(m) = saved {
            if m.matches(wav_file_path, model, language, chunk_count) {
                return m;
            }
        }
        let m = WorkflowManifest::fresh(wav_file_path, model, language, chunk_count, updated_at);
        assert(chunk_views(m.chunks@).len() == m.chunks@.len());
        m
    }

    /// Whether chunk `i` was already transcribed.
    pub fn chunk_succeeded(&self, i: usize) -> (b: bool)
        requires
            i < self.chunks@.len(),
        ensures
            b == (self.chunks@[i as int].status@ == "success"@),
    {
        text_eq(self.chunks[i].status.as_str(), "success")
    }

    fn set_chunk(&mut self, i: usize, c: ChunkState)
        requires
            i < old(self).chunks@.len(),
        ensures
            final(self).chunks@ == old(self).chunks@.update(i as int, c),
            final(self).source_file == old(self).source_file,
            final(self).model == old(self).model,
            final(self).language == old(self).language,
            final(self).updated_at == old(self).updated_at,
    {
        let _ = self.chunks.remove(i);
        self.chunks.insert(i, c);
        assert(self.chunks@ =~= old(self).chunks@.update(i as int, c));
    }

    /// An upload of chunk `i` begins; the attempt count wraps at `u32::MAX`.
    pub fn begin_attempt(&mut self, i: usize)
        requires
            i < old(self).chunks@.len(),
        ensures
            ({
                let c = old(self).chunks@[i as int]@;
                chunk_views(final(self).chunks@) == chunk_views(old(self).chunks@).update(i as int, ChunkView {
                    attempts: next_attempts(c.attempts),
                    status: "uploading"@,
                    last_error: None,
                    ..c
                })
            }),
            final(self).source_file == old(self).source_file,
            final(self).model == old(self).model,
            final(self).language == old(self).language,
    {
        let old_c = &self.chunks[i];
        let c = ChunkState {
            index: old_c.index,
            status: owned("uploading"),
            text: old_c.text.clone(),
            attempts: old_c.attempts.wrapping_add(1),
            last_error: None,
        };
        self.set_chunk(i, c);
        assert(chunk_views(self.chunks@) =~= chunk_views(old(self).chunks@).update(i as int, self.chunks@[i as int]@));
    }

    /// Chunk `i` was transcribed as `text`.
    pub fn mark_success(&mut self, i: usize, text: &str)
        requires
            i < old(self).chunks@.len(),
        ensures
            ({
                let c = old(self).chunks@[i as int]@;
                chunk_views(final(self).chunks@) == chunk_views(old(self).chunks@).update(i as int, ChunkView {
                    status: "success"@,
                    text: trim_spec(text@),
                    last_error: None,
                    ..c
                })
            }),
            final(self).source_file == old(self).source_file,
            final(self).model == old(self).model,
            final(self).language == old(self).language,
    {
        let old_c = &self.chunks[i];
        let c = ChunkState {
            index: old_c.index,
            status: owned("success"),
            text: trim(text),
            attempts: old_c.attempts,
            last_error: None,
        };
        self.set_chunk(i, c);
        assert(chunk_views(self.chunks@) =~= chunk_views(old(self).chunks@).update(i as int, self.chunks@[i as int]@));
    }

    /// The upload of chunk `i` failed with `err`.
    pub fn mark_failed(&mut self, i: usize, err: &str)
        requires
            i < old(self).chunks@.len(),
        ensures
            ({
                let c = old(self).chunks@[i as int]@;
                chunk_views(final(self).chunks@) == chunk_views(old(self).chunks@).update(i as int, ChunkView {
                    status: "failed"@,
                    last_error: Some(err@),
                    ..c
                })
            }),
            final(self).source_file == old(self).source_file,
            final(self).model == old(self).model,
            final(self).language == old(self).language,
    {
        let old_c = &self.chunks[i];
        let c = ChunkState {
            index: old_c.index,
            status: owned("failed"),
            text: old_c.text.clone(),
            attempts: old_c.attempts,
            last_error: Some(owned(err)),
        };
        self.set_chunk(i, c);
        assert(chunk_views(self.chunks@) =~= chunk_views(old(self).chunks@).update(i as int, self.chunks@[i as int]@));
    }

    /// The transcript: the trimmed chunk texts, blank ones left out, joined by spaces.
    pub fn final_text(&self) -> (r: String)
        ensures
            r@ == manifest_text(*self),
    {
        let mut kept: Vec<String> = Vec::new();
        let mut i: usize = 0;
        while i < self.chunks.len()
            invariant
                i <= self.chunks@.len(),
                views(kept@) == kept_texts(chunk_views(self.chunks@).subrange(0, i as int)),
            decreases self.chunks@.len() - i,
        {
            let t = trim(self.chunks[i].text.as_str());
            proof {
                let pre = chunk_views(self.chunks@).subrange(0, i as int);
                let post = chunk_views(self.chunks@).subrange(0, i + 1);
                assert(post.drop_last() =~= pre);
                assert(post.last() == self.chunks@[i as int]@);
            }
            if t.unicode_len() > 0 {
                let ghost before = kept@;
                kept.push(t);
                assert(views(kept@) =~= views(before).push(kept@[kept@.len() - 1]@));
            }
            i = i + 1;
        }
        assert(chunk_views(self.chunks@).subrange(0, self.chunks@.len() as int) =~= chunk_views(self.chunks@));
        join_strings(&kept, " ")
    }
}

/// Every chunk of the manifest was transcribed.
pub open spec fn all_chunks_succeeded(m: WorkflowManifest) -> bool {
    forall|i: int| 0 <= i < m.chunks@.len() ==> (#[trigger] m.chunks@[i])@.status == "success"@
}

/// The effect of [`GroqRun::next`] from run `o`: finish after the last
/// chunk; give up on a chunk whose attempts in this run are used up; stop when
/// cancelled; skip a chunk already transcribed; else begin another upload.
pub open spec fn next_outcome(o: GroqRun, cancelled: bool, n: GroqRun, step: GroqStep) -> bool {
    let i = o.chunk as int;
    if o.chunk >= o.manifest.chunks@.len() {
        step is Finished && n == o
    } else if o.attempt >= MAX_UPLOAD_ATTEMPTS {
        step is Stop && step->Stop_0@ == "Groq chunk "@ + decimal((i + 1) as nat) + " failed finally: "@
            + o.last_error@ && n == o
    } else if cancelled {
        step is Stop && step->Stop_0@ == "Groq cancelled"@ && n == o
    } else if o.attempt == 0 && o.manifest.chunks@[i].status@ == "success"@ {
        &&& step is Skip
        &&& step->Skip_index == o.chunk
        &&& step->Skip_line@ == "Groq: chunk "@ + decimal((i + 1) as nat) + " skipped (already successful)"@
        &&& n == GroqRun { chunk: (o.chunk + 1) as usize, ..o }
    } else {
        let c = o.manifest.chunks@[i]@;
        &&& step is Upload
        &&& step->Upload_index == o.chunk
        &&& step->Upload_line@ == "Groq: upload chunk "@ + decimal((i + 1) as nat) + " attempt "@
            + decimal((o.attempt + 1) as nat)
        &&& n.chunk == o.chunk
        &&& n.attempt == o.attempt + 1
        &&& n.last_error == o.last_error
        &&& n.manifest.source_file == o.manifest.source_file
        &&& n.manifest.model == o.manifest.model
        &&& n.manifest.language == o.manifest.language
        &&& n.manifest.chunks@.len() == o.manifest.chunks@.len()
        &&& chunk_views(n.manifest.chunks@) == chunk_views(o.manifest.chunks@).update(i, ChunkView {
            attempts: next_attempts(c.attempts),
            status: "uploading"@,
            last_error: None,
            ..c
        })
    }
}

/// The text of a run's manifest: its trimmed, non-blank chunk texts joined by spaces.
pub open spec fn manifest_text(m: WorkflowManifest) -> Seq<char> {
    join_spec(kept_texts(chunk_views(m.chunks@)), " "@)
}

/// A run resumed over a manifest whose chunks were all transcribed sends no
/// upload: any sequence of uncancelled steps from it only skips chunks or
/// finishes, keeps the manifest, and so gives the same text again.
pub proof fn law_finished_run_uploads_nothing(runs: Seq<GroqRun>, steps: Seq<GroqStep>)
    requires
        runs.len() == steps.len() + 1,
        runs[0].attempt == 0,
        all_chunks_succeeded(runs[0].manifest),
        forall|k: int| 0 <= k < steps.len() ==> next_outcome(#[trigger] runs[k], false, runs[k + 1], steps[k]),
    ensures
        forall|k: int| 0 <= k < steps.len() ==> !(#[trigger] steps[k] is Upload),
        forall|k: int| 0 <= k < runs.len() ==> (#[trigger] runs[k]).manifest == runs[0].manifest && runs[k].attempt == 0,
        manifest_text(runs[runs.len() - 1].manifest) == manifest_text(runs[0].manifest),
    decreases steps.len(),
{
    if steps.len() > 0 {
        let m = steps.len() - 1;
        let rs = runs.subrange(0, m + 1);
        let ss = steps.subrange(0, m);
        assert forall|k: int| 0 <= k < ss.len() implies next_outcome(#[trigger] rs[k], false, rs[k + 1], ss[k]) by {
            assert(rs[k] == runs[k] && rs[k + 1] == runs[k + 1] && ss[k] == steps[k]);
        }
        law_finished_run_uploads_nothing(rs, ss);
        assert(rs[m] == runs[m]);
        assert(next_outcome(runs[m], false, runs[m + 1], steps[m]));
        assert forall|k: int| 0 <= k < steps.len() implies !(#[trigger] steps[k] is Upload) by {
            if k < m {
                assert(ss[k] == steps[k]);
            }
        }
        assert forall|k: int| 0 <= k < runs.len() implies (#[trigger] runs[k]).manifest == runs[0].manifest
            && runs[k].attempt == 0 by {
            if k <= m {
                assert(rs[k] == runs[k]);
            }
        }
    }
}

/// The next thing a transcription run does.
pub enum GroqStep {
    /// Chunk `index` was transcribed in an earlier run: log `line` and go on.
    Skip { index: usize, line: String },
    /// Save the manifest, log `line`, then upload chunk `index`.
    Upload { index: usize, line: String },
    /// Every chunk is transcribed.
    Finished,
    /// Save the manifest and end with this error.
    Stop(String),
}

/// A transcription run over the chunks of one file: the manifest, the chunk
/// being worked on, the attempts made at it in this run and the last error.
pub struct GroqRun {
    pub manifest: WorkflowManifest,
    pub chunk: usize,
    pub attempt: u32,
    pub last_error: String,
}

impl GroqRun {
    pub open spec fn wf(&self) -> bool {
        &&& self.chunk <= self.manifest.chunks@.len()
        &&& self.attempt <= MAX_UPLOAD_ATTEMPTS
        &&& self.attempt > 0 ==> self.chunk < self.manifest.chunks@.len()
            && self.manifest.chunks@[self.chunk as int].status@ != "success"@
    }

    /// A run that starts at the first chunk.
    pub fn new(manifest: WorkflowManifest) -> (r: GroqRun)
        ensures
            r.wf(),
            r.manifest == manifest,
            r.chunk == 0,
            r.attempt == 0,
            r.last_error@ == Seq::<char>::empty(),
    {
        GroqRun { manifest, chunk: 0, attempt: 0, last_error: String::new() }
    }

    /// The next step (see [`next_outcome`]): finish after the last chunk; give
    /// up on a chunk after [`MAX_UPLOAD_ATTEMPTS`] failed uploads; stop when
    /// cancelled; skip a chunk already transcribed; else begin another upload.
    pub fn next(&mut self, cancelled: bool) -> (step: GroqStep)
        requires
            old(self).wf(),
        ensures
            final(self).wf(),
            step is Upload ==> old(self).manifest.chunks@[step->Upload_index as int].status@ != "success"@,
            !cancelled && old(self).attempt == 0 && all_chunks_succeeded(old(self).manifest) ==> {
                &&& step is Skip || step is Finished
                &&& final(self).manifest == old(self).manifest
                &&& final(self).attempt == 0
            },
            next_outcome(*old(self), cancelled, *final(self), step),
    {
        if self.chunk >= self.manifest.chunks.len() {
            return GroqStep::Finished;
        }
        let i = self.chunk;
        if self.attempt >= MAX_UPLOAD_ATTEMPTS {
            return GroqStep::Stop(chunk_gave_up_text(i + 1, self.last_error.as_str()));
        }
        if cancelled {
            return GroqStep::Stop(owned("Groq cancelled"));
        }
        if self.attempt == 0 && self.manifest.chunk_succeeded(i) {
            self.chunk = i + 1;
            return GroqStep::Skip { index: i, line: chunk_skipped_line(i + 1) };
        }
        self.attempt = self.attempt + 1;
        self.manifest.begin_attempt(i);
        proof {
            assert(chunk_views(self.manifest.chunks@).len() == chunk_views(old(self).manifest.chunks@).len());
            assert(chunk_views(self.manifest.chunks@)[i as int].status == "uploading"@);
            assert(self.manifest.chunks@[i as int]@.status == "uploading"@);
            reveal_strlit("uploading");
            reveal_strlit("success");
        }
        GroqStep::Upload { index: i, line: upload_attempt_line(i + 1, self.attempt) }
    }

    /// Records the outcome of the upload begun by [`GroqRun::next`]: a
    /// transcript moves on to the next chunk; an error is kept for the next
    /// attempt. Returns the line to log and, after an error, the seconds to
    /// wait before the next step.
    pub fn upload_done(&mut self, result: Result<String, String>) -> (r: (String, Option<u64>))
        requires
            old(self).wf(),
            old(self).chunk < old(self).manifest.chunks@.len(),
            old(self).attempt >= 1,
        ensures
            final(self).wf(),
            final(self).manifest.source_file == old(self).manifest.source_file,
            final(self).manifest.model == old(self).manifest.model,
            final(self).manifest.language == old(self).manifest.language,
            final(self).manifest.chunks@.len() == old(self).manifest.chunks@.len(),
            ({
                let o = *old(self);
                let n = *final(self);
                let i = o.chunk as int;
                let c = o.manifest.chunks@[i]@;
                match result {
                    Ok(text) => {
                        &&& chunk_views(n.manifest.chunks@) == chunk_views(o.manifest.chunks@).update(i, ChunkView {
                            status: "success"@,
                            text: trim_spec(text@),
                            last_error: None,
                            ..c
                        })
                        &&& n.chunk == o.chunk + 1
                        &&& n.attempt == 0
                        &&& n.last_error == o.last_error
                        &&& r.0@ == "Groq: chunk "@ + decimal((i + 1) as nat) + " success"@
                        &&& r.1 is None
                    },
                    Err(e) => {
                        &&& chunk_views(n.manifest.chunks@) == chunk_views(o.manifest.chunks@).update(i, ChunkView {
                            status: "failed"@,
                            last_error: Some(e@),
                            ..c
                        })
                        &&& n.chunk == o.chunk
                        &&& n.attempt == o.attempt
                        &&& n.last_error@ == e@
                        &&& r.0@ == "Groq: chunk "@ + decimal((i + 1) as nat) + " failed: "@ + e@
                        &&& r.1 == Some(pow2(if o.attempt < 5 { o.attempt as nat } else { 5 }) as u64)
                    },
                }
            }),
    {
        let i = self.chunk;
        let n = self.manifest.chunks.len();
        assert(i + 1 <= n);
        match result {
            Ok(text) => {
                self.manifest.mark_success(i, text.as_str());
                proof {
                    assert(chunk_views(self.manifest.chunks@).len() == chunk_views(old(self).manifest.chunks@).len());
                }
                self.chunk = i + 1;
                self.attempt = 0;
                (chunk_success_line(i + 1), None)
            },
            Err(e) => {
                self.manifest.mark_failed(i, e.as_str());
                proof {
                    assert(chunk_views(self.manifest.chunks@).len() == chunk_views(old(self).manifest.chunks@).len());
                    assert(chunk_views(self.manifest.chunks@)[i as int].status == "failed"@);
                    assert(self.manifest.chunks@[i as int]@.status == "failed"@);
                    reveal_strlit("failed");
                    reveal_strlit("success");
                }
                let line = chunk_failed_line(i + 1, e.as_str());
                let wait = backoff_secs(self.attempt);
                self.last_error = e;
                (line, Some(wait))
            },
        }
    }
}

/// The log line of an upload attempt of chunk number `number`.
pub fn upload_attempt_line(number: usize, attempt: u32) -> (r: String)
    ensures
        r@ == "Groq: upload chunk "@ + decimal(number as nat) + " attempt "@ + decimal(attempt as nat),
{
    let n = decimal_string(number as u64);
    let a = decimal_string(attempt as u64);
    let mut r = cat3("Groq: upload chunk ", n.as_str(), " attempt ");
    r.append(a.as_str());
    r
}

/// The log line of a chunk that needs no upload.
pub fn chunk_skipped_line(number: usize) -> (r: String)
    ensures
        r@ == "Groq: chunk "@ + decimal(number as nat) + " skipped (already successful)"@,
{
    let n = decimal_string(number as u64);
    cat3("Groq: chunk ", n.as_str(), " skipped (already successful)")
}

/// The log line of a transcribed chunk.
pub fn chunk_success_line(number: usize) -> (r: String)
    ensures
        r@ == "Groq: chunk "@ + decimal(number as nat) + " success"@,
{
    let n = decimal_string(number as u64);
    cat3("Groq: chunk ", n.as_str(), " success")
}

/// The log line of a failed chunk upload.
pub fn chunk_failed_line(number: usize, err: &str) -> (r: String)
    ensures
        r@ == "Groq: chunk "@ + decimal(number as nat) + " failed: "@ + err@,
{
    let n = decimal_string(number as u64);
    let mut r = cat3("Groq: chunk ", n.as_str(), " failed: ");
    r.append(err);
    r
}

/// The error once every attempt at a chunk failed.
pub fn chunk_gave_up_text(number: usize, err: &str) -> (r: String)
    ensures
        r@ == "Groq chunk "@ + decimal(number as nat) + " failed finally: "@ + err@,
{
    let n = decimal_string(number as u64);
    let mut r = cat3("Groq chunk ", n.as_str(), " failed finally: ");
    r.append(err);
    r
}

/// The saved transcript, or nothing for a blank transcript.
pub fn whisper_transcript_content(stamp: &str, wav_file_path: &str, final_text: &str) -> (r: Option<String>)
    ensures
        trim_spec(final_text@).len() == 0 ==> r is None,
        trim_spec(final_text@).len() > 0 ==> r is Some && r->0@ == "["@ + stamp@ + "] [File: "@ + wav_file_path@ + "]\n"@
            + trim_spec(final_text@) + "\n\n"@,
{
    let t = trim(final_text);
    if t.unicode_len() == 0 {
        return None;
    }
    let mut r = cat3("[", stamp, "] [File: ");
    r.append(wav_file_path);
    r.append("]\n");
    r.append(t.as_str());
    r.append("\n\n");
    Some(r)
}

/// Chunks already transcribed stay transcribed: beginning an attempt or failing
/// one changes only the chunk being uploaded, so a resumed run skips the others.
pub proof fn law_other_chunks_unchanged(before: Seq<ChunkView>, i: int, j: int, c: ChunkView)
    requires
        0 <= i < before.len(),
        0 <= j < before.len(),
        i != j,
    ensures
        before.update(i, c)[j] == before[j],
{
}

/// A saved manifest is reused exactly when it was made for the same source
/// file, model, language and number of chunks; a manifest for another model
/// (or file, language or chunking) is never taken for this run.
pub proof fn law_manifest_reused_only_for_the_same_run(
    m: WorkflowManifest,
    wav: Seq<char>,
    model: Seq<char>,
    language: Seq<char>,
    count: nat,
)
    ensures
        manifest_matches_spec(m, wav, model, language, count) ==> m.source_file@ == wav && m.model@ == model
            && m.language@ == language && m.chunks@.len() == count,
        m.model@ != model ==> !manifest_matches_spec(m, wav, model, language, count),
        m.source_file@ == wav && m.model@ == model && m.language@ == language && m.chunks@.len() == count
            ==> manifest_matches_spec(m, wav, model, language, count),
{
}

} // verus!
