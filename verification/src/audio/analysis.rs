//! Voice-activity analysis of a 16-bit PCM WAV file: format checks, windowing,
//! peak level, which windows are loud enough, and active time. A window is
//! loud enough when its mean power relative to full scale is at least a
//! threshold given as a ratio of integers (`den / num`); the default threshold
//! is -50 dBFS. The comparison is made exactly, on integers.

use vstd::prelude::*;
use crate::text::{cat3, decimal, decimal_string, owned};

verus! {

/// The default length of an analysis window, in milliseconds.
pub const DEFAULT_WINDOW_MS: u32 = 100;

/// The default active time below which a recording counts as silent, in milliseconds.
pub const DEFAULT_MIN_ACTIVE_MS: u32 = 300;

/// The default level, in dBFS, below which a window counts as silence.
pub const SILENCE_THRESHOLD_DBFS: i32 = -50;

/// Full scale of a 16-bit sample.
pub const FULL_SCALE: u64 = 32767;

/// The default threshold as a power ratio `den / num` with `den = 1`:
/// `10^(-SILENCE_THRESHOLD_DBFS / 10)`. A window of `count` samples whose
/// squares sum to `sum` has an RMS level of at least -50 dBFS exactly when
/// `sum * 10^5 >= count * FULL_SCALE^2`, since
/// `20 log10(sqrt(sum / count) / FULL_SCALE) >= -50` says
/// `sum / count >= FULL_SCALE^2 / 10^5`.
pub const DEFAULT_POWER_NUM: u32 = 100000;

/// The denominator of the default threshold ratio.
pub const DEFAULT_POWER_DEN: u32 = 1;

/// Whether a window of `count` samples whose squares sum to `square_sum` is
/// loud enough for the threshold ratio `den / num`: its mean power relative
/// to full scale, `square_sum / (count * FULL_SCALE^2)`, is at least
/// `den / num`. An empty window is silent.
pub open spec fn window_active_spec(square_sum: int, count: int, num: int, den: int) -> bool {
    count > 0 && square_sum * num >= count * (FULL_SCALE as int) * (FULL_SCALE as int) * den
}

/// The square of a sample.
pub open spec fn square(s: i16) -> int {
    (s as int) * (s as int)
}

/// Milliseconds of audio in `samples` interleaved samples, with the product
/// `samples * 1000` saturating at `u64::MAX`.
pub open spec fn samples_to_ms_spec(samples: u64, channels: u64, sample_rate: u32) -> u64 {
    if channels == 0 || sample_rate == 0 {
        0
    } else {
        let p: int = if samples * 1000 > u64::MAX { u64::MAX as int } else { samples * 1000 };
        (p / (channels as int) / (sample_rate as int)) as u64
    }
}

pub fn samples_to_ms(samples: u64, channels: u64, sample_rate: u32) -> (ms: u64)
    ensures
        ms == samples_to_ms_spec(samples, channels, sample_rate),
{
    if channels == 0 || sample_rate == 0 {
        return 0;
    }
    let p: u64 = if samples > u64::MAX / 1000 { u64::MAX } else { samples * 1000 };
    p / channels / sample_rate as u64
}

pub open spec fn wav_format_check_spec(sample_rate: u32, channels: u16, is_float: bool, bits_per_sample: u16) -> Result<(), Seq<char>> {
    if sample_rate == 0 || channels == 0 {
        Err("WAV sample rate/channel invalid"@)
    } else if is_float || bits_per_sample != 16 {
        Err("Unsupported WAV format: "@ + (if is_float { "Float"@ } else { "Int"@ }) + " "@ + decimal(bits_per_sample as nat) + "-bit"@)
    } else {
        Ok(())
    }
}

/// Accepts only 16-bit integer PCM with a sample rate and channels.
pub fn check_wav_format(sample_rate: u32, channels: u16, is_float: bool, bits_per_sample: u16) -> (r: Result<(), String>)
    ensures
        match wav_format_check_spec(sample_rate, channels, is_float, bits_per_sample) {
            Ok(()) => r is Ok,
            Err(e) => r is Err && r->Err_0@ == e,
        },
{
    if sample_rate == 0 || channels == 0 {
        return Err(owned("WAV sample rate/channel invalid"));
    }
    if is_float || bits_per_sample != 16 {
        let b = decimal_string(bits_per_sample as u64);
        let mut m = cat3("Unsupported WAV format: ", if is_float { "Float" } else { "Int" }, " ");
        m.append(b.as_str());
        m.append("-bit");
        return Err(m);
    }
    Ok(())
}

proof fn lemma_div_superadditive(x: int, y: int, d: int)
    requires
        0 <= x,
        0 <= y,
        0 < d,
    ensures
        x / d + y / d <= (x + y) / d,
        x / d >= 0,
{
    vstd::arithmetic::div_mod::lemma_fundamental_div_mod(x, d);
    vstd::arithmetic::div_mod::lemma_fundamental_div_mod(y, d);
    vstd::arithmetic::div_mod::lemma_fundamental_div_mod(x + y, d);
    vstd::arithmetic::div_mod::lemma_mod_pos_bound(x, d);
    vstd::arithmetic::div_mod::lemma_mod_pos_bound(y, d);
    vstd::arithmetic::div_mod::lemma_mod_pos_bound(x + y, d);
    let q1 = x / d;
    let q2 = y / d;
    let q3 = (x + y) / d;
    assert(q1 + q2 <= q3) by (nonlinear_arith)
        requires
            x == d * q1 + x % d,
            y == d * q2 + y % d,
            x + y == d * q3 + (x + y) % d,
            0 <= x % d < d,
            0 <= y % d < d,
            0 <= (x + y) % d < d,
            0 < d,
    {
    }
    assert(q1 >= 0) by (nonlinear_arith)
        requires
            x == d * q1 + x % d,
            0 <= x % d < d,
            0 <= x,
            0 < d,
    {
    }
}

proof fn lemma_div_monotone(x: int, y: int, d: int)
    requires
        0 <= x <= y,
        0 < d,
    ensures
        x / d <= y / d,
{
    lemma_div_superadditive(x, y - x, d);
    lemma_div_superadditive(y - x, 0, d);
}

/// Milliseconds of audio add up at most to the milliseconds of the whole:
/// counting two stretches of samples apart never gives more than counting
/// them together, and more samples never give fewer milliseconds.
pub proof fn law_samples_to_ms_superadditive(a: u64, b: u64, channels: u64, sample_rate: u32)
    requires
        channels > 0,
        sample_rate > 0,
        a + b <= u64::MAX / 1000,
    ensures
        samples_to_ms_spec(a, channels, sample_rate) + samples_to_ms_spec(b, channels, sample_rate)
            <= samples_to_ms_spec((a + b) as u64, channels, sample_rate),
        a <= b ==> samples_to_ms_spec(a, channels, sample_rate) <= samples_to_ms_spec(b, channels, sample_rate),
{
    let c = channels as int;
    let r = sample_rate as int;
    let x = 1000 * (a as int);
    let y = 1000 * (b as int);
    lemma_div_superadditive(x, y, c);
    lemma_div_superadditive(x / c, y / c, r);
    lemma_div_superadditive(x + y, 0, c);
    lemma_div_monotone(x / c + y / c, (x + y) / c, r);
    lemma_div_superadditive(x / c, 0, r);
    lemma_div_superadditive(y / c, 0, r);
    lemma_div_superadditive((x + y) / c, 0, r);
    if a <= b {
        lemma_div_monotone(x, y, c);
        lemma_div_monotone(x / c, y / c, r);
    }
}

/// The samples in one analysis window of `window_ms` milliseconds (at least one).
pub open spec fn window_samples_spec(sample_rate: u32, channels: u16, window_ms: u32) -> int {
    let w: int = if window_ms == 0 { 1 } else { window_ms as int };
    let n = (sample_rate as int) * (channels as int) * w / 1000;
    if n < 1 { 1 } else { n }
}

pub fn window_samples(sample_rate: u32, channels: u16, window_ms: u32) -> (n: u64)
    requires
        (sample_rate as int) * (channels as int) * (if window_ms == 0 { 1 } else { window_ms as int }) <= u64::MAX,
    ensures
        n == window_samples_spec(sample_rate, channels, window_ms),
{
    let w: u64 = if window_ms == 0 { 1 } else { window_ms as u64 };
    assert((sample_rate as int) * (channels as int) <= (sample_rate as int) * (channels as int) * (w as int)) by (nonlinear_arith)
        requires
            w >= 1,
            sample_rate >= 0,
            channels >= 0,
    {
    }
    let n = (sample_rate as u64) * (channels as u64) * w / 1000;
    if n < 1 { 1 } else { n }
}

/// The absolute value of a sample, with `i16::MIN` mapped to `i16::MAX`.
pub open spec fn abs_level(s: i16) -> i16 {
    if s < 0 {
        if s == -32768 { 32767 } else { (-s) as i16 }
    } else {
        s
    }
}

/// Whether a window is loud enough (see [`window_active_spec`]).
pub fn window_active(square_sum: u128, count: u64, num: u32, den: u32) -> (b: bool)
    requires
        square_sum <= (count as int) * 0x4000_0000,
    ensures
        b == window_active_spec(square_sum as int, count as int, num as int, den as int),
{
    if count == 0 {
        return false;
    }
    assert(square_sum * (num as int) <= (count as int) * 0x4000_0000 * 0x1_0000_0000) by (nonlinear_arith)
        requires
            square_sum <= (count as int) * 0x4000_0000,
            num <= u32::MAX,
    {
    }
    assert((count as int) * 0x4000_0000 * 0x1_0000_0000 <= u128::MAX) by (nonlinear_arith)
        requires
            count <= u64::MAX,
    {
    }
    assert((count as int) * 32767 * 32767 * (den as int) <= (count as int) * 0x4000_0000 * 0x1_0000_0000) by (nonlinear_arith)
        requires
            count <= u64::MAX,
            den <= u32::MAX,
    {
    }
    square_sum * (num as u128) >= (count as u128) * (FULL_SCALE as u128) * (FULL_SCALE as u128) * (den as u128)
}

/// The sum of the squares of the samples.
pub open spec fn sq_sum(s: Seq<i16>) -> int
    decreases s.len(),
{
    if s.len() == 0 {
        0
    } else {
        sq_sum(s.drop_last()) + square(s.last())
    }
}

/// The peak level of the samples (see [`abs_level`]); 0 for no samples.
pub open spec fn peak_of(s: Seq<i16>) -> i16
    decreases s.len(),
{
    if s.len() == 0 {
        0
    } else {
        let p = peak_of(s.drop_last());
        if abs_level(s.last()) > p {
            abs_level(s.last())
        } else {
            p
        }
    }
}

/// The milliseconds a window adds to the active time: its duration when it is
/// loud enough for the threshold `den / num`, else nothing.
pub open spec fn window_ms_if_active(win: Seq<i16>, channels: u64, sample_rate: u32, num: u32, den: u32) -> int {
    if window_active_spec(sq_sum(win), win.len() as int, num as int, den as int) {
        samples_to_ms_spec(win.len() as u64, channels, sample_rate) as int
    } else {
        0
    }
}

/// The active time of the samples cut into windows of `w` samples from the
/// start (the last window may be shorter): the sum of the durations of the
/// windows that are loud enough.
pub open spec fn active_ms_of(s: Seq<i16>, w: nat, channels: u64, sample_rate: u32, num: u32, den: u32) -> int
    decreases s.len(),
{
    if s.len() == 0 || w == 0 {
        0
    } else {
        let k: int = if s.len() % w == 0 { w as int } else { (s.len() % w) as int };
        proof {
            lemma_last_window_len(s.len(), w);
        }
        active_ms_of(s.subrange(0, s.len() - k), w, channels, sample_rate, num, den)
            + window_ms_if_active(s.subrange(s.len() - k, s.len() as int), channels, sample_rate, num, den)
    }
}

/// The last window of `len > 0` samples in windows of `w` holds between 1 and
/// `len` samples.
pub proof fn lemma_last_window_len(len: nat, w: nat)
    requires
        len > 0,
        w > 0,
    ensures
        0 < (if len % w == 0 { w as int } else { (len % w) as int }) <= len,
{
    vstd::arithmetic::div_mod::lemma_fundamental_div_mod(len as int, w as int);
    vstd::arithmetic::div_mod::lemma_mod_pos_bound(len as int, w as int);
    let d = len as int / w as int;
    assert(d >= 0) by (nonlinear_arith)
        requires
            len == w * d + len % w,
            0 <= len % w < w,
            len > 0,
            w > 0,
    {
    }
    if len % w == 0 {
        assert(w <= len) by (nonlinear_arith)
            requires
                len == w * d,
                len > 0,
                w > 0,
                d >= 0,
        {
        }
    } else {
        assert(len % w <= len) by (nonlinear_arith)
            requires
                len == w * d + len % w,
                d >= 0,
                w > 0,
        {
        }
    }
}

proof fn lemma_active_ms_of_step(s: Seq<i16>, w: nat, q: nat, r: nat, channels: u64, sample_rate: u32, num: u32, den: u32)
    requires
        w > 0,
        0 < r <= w,
        s.len() == q * w + r,
        r == w || r < w,
    ensures
        active_ms_of(s, w, channels, sample_rate, num, den) == active_ms_of(
            s.subrange(0, (q * w) as int),
            w,
            channels,
            sample_rate,
            num,
            den,
        ) + window_ms_if_active(s.subrange((q * w) as int, s.len() as int), channels, sample_rate, num, den),
{
    if r == w {
        assert(s.len() == (q + 1) * w) by (nonlinear_arith)
            requires
                s.len() == q * w + r,
                r == w,
        {
        }
        vstd::arithmetic::div_mod::lemma_mod_multiples_basic((q + 1) as int, w as int);
    } else {
        vstd::arithmetic::div_mod::lemma_fundamental_div_mod_converse(s.len() as int, w as int, q as int, r as int);
    }
}

/// The analysis of a whole recording of interleaved samples: windows of
/// `window_ms` milliseconds (see [`window_samples_spec`]) are loud enough for
/// the threshold `power_den / power_num`; the recording is active once it has
/// at least `min_active_ms` of loud windows.
pub fn analyze_samples(
    samples: &Vec<i16>,
    channels: u16,
    sample_rate: u32,
    window_ms: u32,
    power_num: u32,
    power_den: u32,
    min_active_ms: u32,
) -> (c: ActivityCounts)
    requires
        (sample_rate as int) * (channels as int) * (if window_ms == 0 { 1 } else { window_ms as int }) <= u64::MAX,
        samples@.len() < u64::MAX / 1000,
    ensures
        c.duration_ms == samples_to_ms_spec(samples@.len() as u64, channels as u64, sample_rate),
        c.active_ms == active_ms_of(
            samples@,
            window_samples_spec(sample_rate, channels, window_ms) as nat,
            channels as u64,
            sample_rate,
            power_num,
            power_den,
        ),
        c.peak_amplitude == peak_of(samples@),
        c.is_active == (c.active_ms >= min_active_ms),
        c.active_ms <= c.duration_ms,
{
    let w = window_samples(sample_rate, channels, window_ms);
    let ghost wn = w as nat;
    let ghost ch = channels as u64;
    let mut t = ActivityTracker::new(w, channels as u64, sample_rate, power_num, power_den);
    let n = samples.len();
    let mut i: usize = 0;
    let ghost mut q: nat = 0;
    proof {
        assert(samples@.subrange(0, 0) =~= Seq::<i16>::empty());
    }
    while i < n
        invariant
            n == samples@.len(),
            n < u64::MAX / 1000,
            w >= 1,
            wn == w,
            ch == channels as u64,
            t.wf(),
            t.window_samples == w,
            t.channels == ch,
            t.sample_rate == sample_rate,
            t.power_num == power_num,
            t.power_den == power_den,
            i <= n,
            t.total_samples == i,
            i == q * wn + t.window_count,
            t.window_count < w,
            t.active_ms == active_ms_of(samples@.subrange(0, (q * wn) as int), wn, ch, sample_rate, power_num, power_den),
            t.window_square_sum == sq_sum(samples@.subrange((q * wn) as int, i as int)),
            t.peak_amplitude == peak_of(samples@.subrange(0, i as int)),
        decreases n - i,
    {
        let x = samples[i];
        let full = t.push_sample(x);
        proof {
            assert(samples@.subrange((q * wn) as int, i + 1).drop_last() =~= samples@.subrange((q * wn) as int, i as int));
            assert(samples@.subrange(0, i + 1).drop_last() =~= samples@.subrange(0, i as int));
        }
        i = i + 1;
        if full {
            let ghost closed = samples@.subrange(0, i as int);
            proof {
                assert(t.window_count == w);
                lemma_active_ms_of_step(closed, wn, q, wn, ch, sample_rate, power_num, power_den);
                assert(closed.subrange(0, (q * wn) as int) =~= samples@.subrange(0, (q * wn) as int));
                assert(closed.subrange((q * wn) as int, closed.len() as int) =~= samples@.subrange((q * wn) as int, i as int));
            }
            t.close_window();
            proof {
                assert((q + 1) * wn == q * wn + wn) by (nonlinear_arith);
                q = q + 1;
                assert(samples@.subrange((q * wn) as int, i as int) =~= Seq::<i16>::empty());
            }
        }
    }
    proof {
        assert(samples@.subrange(0, n as int) =~= samples@);
    }
    if t.window_count > 0 {
        proof {
            lemma_active_ms_of_step(samples@, wn, q, t.window_count as nat, ch, sample_rate, power_num, power_den);
        }
        t.close_window();
    } else {
        proof {
            assert(samples@.subrange(0, (q * wn) as int) =~= samples@);
        }
    }
    t.finish(min_active_ms)
}

/// The running totals of an analysis.
pub struct ActivityTracker {
    pub window_samples: u64,
    pub channels: u64,
    pub sample_rate: u32,
    pub total_samples: u64,
    pub window_count: u64,
    pub window_square_sum: u128,
    pub power_num: u32,
    pub power_den: u32,
    pub peak_amplitude: i16,
    pub active_ms: u64,
}

/// The result of an analysis, without the overall decibel level.
pub struct ActivityCounts {
    pub duration_ms: u64,
    pub active_ms: u64,
    pub peak_amplitude: i16,
    pub is_active: bool,
}

impl ActivityTracker {
    pub open spec fn wf(&self) -> bool {
        &&& self.window_samples >= 1
        &&& self.window_count <= self.total_samples
        &&& self.window_count <= self.window_samples
        &&& self.active_ms as int <= 1000 * (self.total_samples - self.window_count)
        &&& self.active_ms <= samples_to_ms_spec(
            (self.total_samples - self.window_count) as u64,
            self.channels,
            self.sample_rate,
        )
        &&& 0 <= self.peak_amplitude
        &&& self.window_square_sum <= (self.window_count as int) * 0x4000_0000
    }

    /// A tracker with windows of `window_samples` samples and the loudness
    /// threshold `power_den / power_num` (see [`window_active_spec`]).
    pub fn new(window_samples: u64, channels: u64, sample_rate: u32, power_num: u32, power_den: u32) -> (t: ActivityTracker)
        requires
            window_samples >= 1,
        ensures
            t.wf(),
            t.power_num == power_num && t.power_den == power_den,
            t.window_samples == window_samples,
            t.channels == channels,
            t.sample_rate == sample_rate,
            t.total_samples == 0 && t.window_count == 0 && t.window_square_sum == 0,
            t.peak_amplitude == 0 && t.active_ms == 0,
    {
        ActivityTracker {
            window_samples,
            channels,
            sample_rate,
            total_samples: 0,
            window_count: 0,
            window_square_sum: 0,
            power_num,
            power_den,
            peak_amplitude: 0,
            active_ms: 0,
        }
    }

    /// Counts one sample; returns whether its window is now full, in which case
    /// the caller calls `close_window`.
    pub fn push_sample(&mut self, sample: i16) -> (window_full: bool)
        requires
            old(self).wf(),
            old(self).window_count < old(self).window_samples,
            old(self).total_samples < u64::MAX / 1000,
        ensures
            final(self).wf(),
            final(self).total_samples == old(self).total_samples + 1,
            final(self).window_count == old(self).window_count + 1,
            final(self).window_square_sum == old(self).window_square_sum + square(sample),
            final(self).peak_amplitude == (if abs_level(sample) > old(self).peak_amplitude { abs_level(sample) } else { old(self).peak_amplitude }),
            final(self).active_ms == old(self).active_ms,
            final(self).window_samples == old(self).window_samples,
            final(self).channels == old(self).channels,
            final(self).sample_rate == old(self).sample_rate,
            final(self).power_num == old(self).power_num && final(self).power_den == old(self).power_den,
            window_full == (final(self).window_count >= final(self).window_samples),
    {
        let abs: i16 = if sample < 0 {
            if sample == -32768 { 32767 } else { -sample }
        } else {
            sample
        };
        if abs > self.peak_amplitude {
            self.peak_amplitude = abs;
        }
        let wide: i64 = sample as i64;
        assert(0 <= wide * wide <= 0x4000_0000) by (nonlinear_arith)
            requires
                -32768 <= wide <= 32767,
        {
        }
        assert(self.window_square_sum + wide * wide <= (self.window_count as int + 1) * 0x4000_0000) by (nonlinear_arith)
            requires
                self.window_square_sum <= (self.window_count as int) * 0x4000_0000,
                0 <= wide * wide <= 0x4000_0000,
        {
        }
        assert((self.window_count as int + 1) * 0x4000_0000 <= u128::MAX) by (nonlinear_arith)
            requires
                self.window_count < u64::MAX,
        {
        }
        self.window_square_sum = self.window_square_sum + (wide * wide) as u128;
        self.total_samples = self.total_samples + 1;
        self.window_count = self.window_count + 1;
        self.window_count >= self.window_samples
    }

    /// Ends the current window; a window loud enough adds its duration.
    pub fn close_window(&mut self)
        requires
            old(self).wf(),
            old(self).total_samples < u64::MAX / 1000,
        ensures
            final(self).wf(),
            final(self).window_count == 0,
            final(self).window_square_sum == 0,
            final(self).total_samples == old(self).total_samples,
            final(self).peak_amplitude == old(self).peak_amplitude,
            final(self).window_samples == old(self).window_samples,
            final(self).channels == old(self).channels,
            final(self).sample_rate == old(self).sample_rate,
            final(self).power_num == old(self).power_num && final(self).power_den == old(self).power_den,
            final(self).active_ms == old(self).active_ms + (if window_active_spec(
                old(self).window_square_sum as int,
                old(self).window_count as int,
                old(self).power_num as int,
                old(self).power_den as int,
            ) {
                samples_to_ms_spec(old(self).window_count, old(self).channels, old(self).sample_rate) as int
            } else {
                0
            }),
    {
        let active = self.window_count > 0 && window_active(self.window_square_sum, self.window_count, self.power_num, self.power_den);
        proof {
            if self.channels > 0 && self.sample_rate > 0 {
                law_samples_to_ms_superadditive(
                    (self.total_samples - self.window_count) as u64,
                    self.window_count,
                    self.channels,
                    self.sample_rate,
                );
            }
        }
        if active {
            let add = samples_to_ms(self.window_count, self.channels, self.sample_rate);
            assert(add <= 1000 * self.window_count) by (nonlinear_arith)
                requires
                    add == samples_to_ms_spec(self.window_count, self.channels, self.sample_rate),
                    self.window_count < u64::MAX / 1000,
            {
            }
            self.active_ms = self.active_ms + add;
        }
        self.window_count = 0;
        self.window_square_sum = 0;
    }

    /// The totals once every sample was read; a source is active once it has
    /// at least `min_active_ms` of active windows.
    pub fn finish(&self, min_active_ms: u32) -> (c: ActivityCounts)
        ensures
            c.duration_ms == samples_to_ms_spec(self.total_samples, self.channels, self.sample_rate),
            c.active_ms == self.active_ms,
            c.peak_amplitude == self.peak_amplitude,
            c.is_active == (self.active_ms >= min_active_ms),
            self.wf() && self.total_samples <= u64::MAX / 1000 ==> c.active_ms <= c.duration_ms,
    {
        proof {
            if self.wf() && self.total_samples <= u64::MAX / 1000 && self.channels > 0 && self.sample_rate > 0 {
                law_samples_to_ms_superadditive(
                    (self.total_samples - self.window_count) as u64,
                    self.window_count,
                    self.channels,
                    self.sample_rate,
                );
            }
        }
        ActivityCounts {
            duration_ms: samples_to_ms(self.total_samples, self.channels, self.sample_rate),
            active_ms: self.active_ms,
            peak_amplitude: self.peak_amplitude,
            is_active: self.active_ms >= min_active_ms as u64,
        }
    }
}

} // verus!
