use vstd::prelude::*;

verus! {

/// Half-width, in bins, of the window around zero frequency left out of the peak
/// search and of the noise.
pub const DC_MASK_WIDTH: usize = 2;

/// Half-width, in bins, of the window whose energy counts as the fundamental.
pub const FUND_SPAN: usize = 10;

/// Half-width, in bins, of the window around the image of the fundamental.
pub const IMAGE_SPAN: usize = 1;

/// Half-width, in bins, of the window around the fundamental left out of the
/// spur search.
pub const SPUR_MASK_SPAN: usize = 6;

/// Why the metrics of a path cannot be computed.
#[derive(Debug, Clone, Copy, PartialEq, Eq, Structural)]
pub enum MetricsError {
    /// The I and Q sequences do not have the same length.
    LengthMismatch,
    /// The path holds no sample.
    NoSamples,
}

/// The number of samples of a path, when its I and Q sequences pair up and are
/// not empty.
pub fn check_iq(i_data: &Vec<i16>, q_data: &Vec<i16>) -> (r: Result<usize, MetricsError>)
    ensures
        r is Ok <==> i_data@.len() == q_data@.len() && i_data@.len() > 0,
        r is Ok ==> r->Ok_0 == i_data@.len(),
        r == Err::<usize, MetricsError>(MetricsError::LengthMismatch) <==> i_data@.len()
            != q_data@.len(),
        r == Err::<usize, MetricsError>(MetricsError::NoSamples) <==> i_data@.len()
            == q_data@.len() && i_data@.len() == 0,
{
    if i_data.len() != q_data.len() {
        Err(MetricsError::LengthMismatch)
    } else if i_data.len() == 0 {
        Err(MetricsError::NoSamples)
    } else {
        Ok(i_data.len())
    }
}

/// A half-open range of spectrum bins, `[start, end)`.
#[derive(Debug, Clone, Copy, PartialEq, Eq, Structural)]
pub struct BinWindow {
    pub start: usize,
    pub end: usize,
}

impl BinWindow {
    pub open spec fn contains(&self, i: int) -> bool {
        self.start <= i < self.end
    }
}

/// The bins within `half` of `center`, cut to the spectrum's `n` bins.
pub open spec fn clip_spec(center: int, half: int, n: int) -> (int, int) {
    (vstd::math::max(center - half, 0), vstd::math::min(center + half + 1, n))
}

pub open spec fn window_is(w: BinWindow, center: int, half: int, n: int) -> bool {
    w.start as int == clip_spec(center, half, n).0 && w.end as int == clip_spec(center, half, n).1
}

/// The zero-frequency bin of a centred spectrum of `n` bins.
pub open spec fn center_spec(n: int) -> int {
    n / 2
}

fn clip(center: usize, half: usize, n: usize) -> (r: BinWindow)
    requires
        center <= n,
        center + half + 1 <= usize::MAX,
    ensures
        window_is(r, center as int, half as int, n as int),
        r.start <= r.end <= n,
{
    let start = if center >= half {
        center - half
    } else {
        0
    };
    let end = if center + half + 1 <= n {
        center + half + 1
    } else {
        n
    };
    BinWindow { start, end }
}

/// The bins around zero frequency.
pub fn dc_window(n: usize) -> (r: BinWindow)
    requires
        n < usize::MAX - 16,
    ensures
        window_is(r, center_spec(n as int), DC_MASK_WIDTH as int, n as int),
        r.start <= r.end <= n,
{
    clip(n / 2, DC_MASK_WIDTH, n)
}

/// Whether bin `i` may hold the fundamental: it lies outside the window around
/// zero frequency.
pub fn peak_candidate(i: usize, n: usize) -> (r: bool)
    requires
        n < usize::MAX - 16,
    ensures
        r == !(clip_spec(center_spec(n as int), DC_MASK_WIDTH as int, n as int).0 <= i
            < clip_spec(center_spec(n as int), DC_MASK_WIDTH as int, n as int).1),
{
    let w = dc_window(n);
    !(w.start <= i && i < w.end)
}

/// The bins whose energy counts as the fundamental at bin `peak`.
pub fn fund_window(peak: usize, n: usize) -> (r: BinWindow)
    requires
        peak < n,
        n < usize::MAX - 16,
    ensures
        window_is(r, peak as int, FUND_SPAN as int, n as int),
        r.start <= peak < r.end <= n,
{
    clip(peak, FUND_SPAN, n)
}

/// The bin mirroring bin `peak` about zero frequency.
pub open spec fn image_spec(peak: int, n: int) -> int {
    center_spec(n) - (peak - center_spec(n))
}

/// The bins around the image of the fundamental at `peak`, when the image lies
/// in the spectrum.
pub fn image_window(peak: usize, n: usize) -> (r: Option<BinWindow>)
    requires
        peak < n,
        n < usize::MAX - 16,
    ensures
        r is Some <==> 0 <= image_spec(peak as int, n as int) < n,
        r is Some ==> window_is(r->Some_0, image_spec(peak as int, n as int), IMAGE_SPAN as int, n as int),
        r is Some ==> r->Some_0.start <= r->Some_0.end <= n,
{
    let c = n / 2;
    if peak <= 2 * c && 2 * c - peak < n {
        Some(clip(2 * c - peak, IMAGE_SPAN, n))
    } else {
        None
    }
}

/// Whether bin `i` is left out of the spur search when the fundamental is at
/// `peak`: it is within the spur mask of the fundamental, within the window
/// around zero frequency, or within the window around the image.
pub open spec fn spur_masked_spec(i: int, peak: int, n: int) -> bool {
    ||| peak - SPUR_MASK_SPAN as int <= i < peak + SPUR_MASK_SPAN as int + 1
    ||| center_spec(n) - DC_MASK_WIDTH as int <= i < center_spec(n) + DC_MASK_WIDTH as int + 1
    ||| image_spec(peak, n) - IMAGE_SPAN as int <= i < image_spec(peak, n) + IMAGE_SPAN as int + 1
}

/// Whether bin `i` is left out of the spur search.
pub fn spur_masked(i: usize, peak: usize, n: usize) -> (r: bool)
    requires
        i < n,
        peak < n,
        n < usize::MAX / 4,
    ensures
        r == spur_masked_spec(i as int, peak as int, n as int),
{
    let c = n / 2;
    let in_fund = i + SPUR_MASK_SPAN >= peak && i < peak + SPUR_MASK_SPAN + 1;
    let in_dc = i + DC_MASK_WIDTH >= c && i < c + DC_MASK_WIDTH + 1;
    // the image bin 2c - peak may be negative: compare i + peak with 2c
    let in_image = i + peak + IMAGE_SPAN >= 2 * c && i + peak < 2 * c + IMAGE_SPAN + 1;
    in_fund || in_dc || in_image
}

/// The central half of the spectrum, over which channel power is summed.
pub fn channel_window(n: usize) -> (r: BinWindow)
    ensures
        r.start as int == vstd::math::max(center_spec(n as int) - n as int / 4, 0),
        r.end as int == vstd::math::min(center_spec(n as int) + n as int / 4, n as int),
        r.start <= r.end <= n,
{
    let c = n / 2;
    let q = n / 4;
    BinWindow { start: c - q, end: if c + q <= n { c + q } else { n } }
}

/// The bins of the window around zero frequency that lie within the channel
/// window, whose energy the channel power leaves out; `None` when there are none.
pub fn channel_dc_overlap(n: usize) -> (r: Option<BinWindow>)
    requires
        n < usize::MAX - 16,
    ensures
        ({
            let ch = (vstd::math::max(center_spec(n as int) - n as int / 4, 0), vstd::math::min(
                center_spec(n as int) + n as int / 4,
                n as int,
            ));
            let lo = vstd::math::max(ch.0, center_spec(n as int) - DC_MASK_WIDTH as int);
            let hi = vstd::math::min(ch.1, center_spec(n as int) + DC_MASK_WIDTH as int + 1);
            &&& r is Some <==> hi > lo
            &&& r is Some ==> r->Some_0.start == lo && r->Some_0.end == hi
        }),
{
    let ch = channel_window(n);
    let c = n / 2;
    let lo = if c >= DC_MASK_WIDTH && c - DC_MASK_WIDTH > ch.start {
        c - DC_MASK_WIDTH
    } else {
        ch.start
    };
    let hi = if c + DC_MASK_WIDTH + 1 < ch.end {
        c + DC_MASK_WIDTH + 1
    } else {
        ch.end
    };
    if hi > lo {
        Some(BinWindow { start: lo, end: hi })
    } else {
        None
    }
}

/// The fundamental's window lies within the spectrum and holds the peak, so the
/// energy it sums is part of the total energy.
pub proof fn lemma_fund_window_within(peak: int, n: int)
    requires
        0 <= peak < n,
    ensures
        0 <= clip_spec(peak, FUND_SPAN as int, n).0 <= peak < clip_spec(peak, FUND_SPAN as int, n).1
            <= n,
{
}

} // verus!
