use crate::pixel::{Image, PixelBuffer, Rgb};
use vstd::prelude::*;

verus! {

/// The number of luminance levels, and so of buckets and of columns.
pub const LEVELS: usize = 256;

/// The number of rows of the bar chart.
pub const CHART_HEIGHT: usize = 500;

/// The luminance of a pixel: the mean of its three channels, rounded down.
/// It lies in `0..=255`.
pub open spec fn luminance(p: Rgb) -> int {
    (p.r + p.g + p.b) / 3
}

/// The pixels of luminance `level`.
pub open spec fn has_luminance(level: int) -> spec_fn(Rgb) -> bool {
    |p: Rgb| luminance(p) == level
}

/// How many of `pixels` have luminance `level`.
pub open spec fn bucket_count(pixels: Seq<Rgb>, level: int) -> nat {
    pixels.filter(has_luminance(level)).len()
}

/// The 256 buckets of `pixels`: for each luminance, the number of pixels
/// that have it.
pub open spec fn tally(pixels: Seq<Rgb>) -> Seq<nat> {
    Seq::new(LEVELS as nat, |level: int| bucket_count(pixels, level))
}

/// The sum of all counts.
pub open spec fn total(counts: Seq<nat>) -> nat
    decreases counts.len(),
{
    if counts.len() == 0 {
        0
    } else {
        total(counts.drop_last()) + counts.last()
    }
}

/// Raising one count by one raises the sum by one.
proof fn lemma_total_increment(counts: Seq<nat>, k: int)
    requires
        0 <= k < counts.len(),
    ensures
        total(counts.update(k, counts[k] + 1)) == total(counts) + 1,
    decreases counts.len(),
{
    let raised = counts.update(k, counts[k] + 1);
    if k == counts.len() - 1 {
        assert(raised.drop_last() =~= counts.drop_last());
    } else {
        assert(raised.drop_last() =~= counts.drop_last().update(k, counts[k] + 1));
        lemma_total_increment(counts.drop_last(), k);
    }
}

/// One more pixel raises the bucket of its luminance by one and leaves the
/// other buckets as they were.
proof fn lemma_tally_push(pixels: Seq<Rgb>, p: Rgb)
    ensures
        0 <= luminance(p) < LEVELS,
        tally(pixels.push(p)) == tally(pixels).update(
            luminance(p),
            tally(pixels)[luminance(p)] + 1,
        ),
{
    assert forall|level: int| 0 <= level < LEVELS implies bucket_count(pixels.push(p), level)
        == bucket_count(pixels, level) + if luminance(p) == level {
        1nat
    } else {
        0nat
    } by {
        pixels.lemma_filter_len_push(has_luminance(level), p);
    }
    assert(tally(pixels.push(p)) =~= tally(pixels).update(
        luminance(p),
        tally(pixels)[luminance(p)] + 1,
    ));
}

/// Every pixel is counted exactly once: the buckets of `pixels` add up to
/// the number of pixels.
pub proof fn lemma_tally_total(pixels: Seq<Rgb>)
    ensures
        total(tally(pixels)) == pixels.len(),
    decreases pixels.len(),
{
    if pixels.len() == 0 {
        assert forall|level: int| 0 <= level < LEVELS implies bucket_count(pixels, level) == 0 by {
            pixels.lemma_filter_len(has_luminance(level));
        }
        lemma_total_zero(tally(pixels));
    } else {
        let rest = pixels.drop_last();
        let p = pixels.last();
        assert(rest.push(p) =~= pixels);
        lemma_tally_push(rest, p);
        lemma_tally_total(rest);
        lemma_total_increment(tally(rest), luminance(p));
    }
}

/// Counts that are all zero add up to zero.
proof fn lemma_total_zero(counts: Seq<nat>)
    requires
        forall|k: int| 0 <= k < counts.len() ==> counts[k] == 0,
    ensures
        total(counts) == 0,
    decreases counts.len(),
{
    if counts.len() > 0 {
        lemma_total_zero(counts.drop_last());
    }
}

/// The largest of the counts; zero where there are none.
pub open spec fn peak(counts: Seq<nat>) -> nat
    decreases counts.len(),
{
    if counts.len() == 0 {
        0
    } else if counts.last() >= peak(counts.drop_last()) {
        counts.last()
    } else {
        peak(counts.drop_last())
    }
}

/// No count is above the peak, and the peak of counts that are not empty is
/// one of them.
pub proof fn lemma_peak(counts: Seq<nat>)
    ensures
        forall|k: int| 0 <= k < counts.len() ==> counts[k] <= peak(counts),
        counts.len() > 0 ==> exists|k: int| 0 <= k < counts.len() && counts[k] == peak(counts),
    decreases counts.len(),
{
    if counts.len() > 0 {
        let rest = counts.drop_last();
        lemma_peak(rest);
        assert forall|k: int| 0 <= k < counts.len() implies counts[k] <= peak(counts) by {
            if k < rest.len() {
                assert(counts[k] == rest[k]);
            }
        }
        if counts.last() >= peak(rest) {
            assert(counts[counts.len() - 1] == peak(counts));
        } else {
            let k = choose|k: int| 0 <= k < rest.len() && rest[k] == peak(rest);
            assert(counts[k] == peak(counts));
        }
    }
}

/// Whether the bar of a bucket that holds `count` pixels covers row `row`,
/// counted from the top, where the fullest bucket holds `peak`. The bar
/// fills the fraction `count / peak` of the chart's height from the bottom
/// up, and covers the row if that fraction is at least
/// `(CHART_HEIGHT - row) / CHART_HEIGHT`. No bar covers anything where the
/// peak is zero.
pub open spec fn lit(count: nat, peak: nat, row: int) -> bool {
    peak > 0 && count * CHART_HEIGHT >= (CHART_HEIGHT - row) * peak
}

/// The number of rows that the bar of a bucket covers.
pub open spec fn bar_height(count: nat, peak: nat) -> nat {
    if peak == 0 {
        0
    } else {
        (count * CHART_HEIGHT) as nat / peak
    }
}

/// A bar covers exactly the lowest `bar_height` rows.
pub proof fn lemma_bar_height(count: nat, peak: nat, row: int)
    requires
        0 <= row < CHART_HEIGHT,
    ensures
        lit(count, peak, row) <==> CHART_HEIGHT - row <= bar_height(count, peak),
{
    if peak > 0 {
        let n = (count * CHART_HEIGHT) as int;
        let d = peak as int;
        let q = n / d;
        let t = CHART_HEIGHT - row;
        vstd::arithmetic::div_mod::lemma_fundamental_div_mod(n, d);
        vstd::arithmetic::div_mod::lemma_mod_bound(n, d);
        if t <= q {
            assert(t * d <= q * d) by (nonlinear_arith)
                requires
                    t <= q,
                    d > 0,
            ;
            assert(d * q == q * d) by (nonlinear_arith);
        } else {
            assert(t * d >= (q + 1) * d) by (nonlinear_arith)
                requires
                    t >= q + 1,
                    d > 0,
            ;
            assert((q + 1) * d == d * q + d) by (nonlinear_arith);
        }
    }
}

/// The bar chart of `counts`, one column for each bucket: a pixel is white
/// where the bar of its column covers its row, and black elsewhere.
pub open spec fn bar_chart(counts: Seq<nat>) -> Image {
    Image {
        width: LEVELS as nat,
        height: CHART_HEIGHT as nat,
        pixels: Seq::new(
            (LEVELS * CHART_HEIGHT) as nat,
            |i: int|
                if lit(counts[i % LEVELS as int], peak(counts), i / LEVELS as int) {
                    Rgb::gray(255)
                } else {
                    Rgb::gray(0)
                },
        ),
    }
}

/// The bucket of a pixel: the mean of its three channels, rounded down. It
/// never leaves `0..=255`, so no limiting is left to do.
pub fn luminance_bucket(p: Rgb) -> (level: usize)
    ensures
        level == luminance(p),
        level < LEVELS,
{
    (p.r as usize + p.g as usize + p.b as usize) / 3
}

/// The luminance histogram of an image: 256 counts, one for each level.
#[derive(Debug, PartialEq, Eq)]
pub struct Histogram {
    counts: Vec<usize>,
}

impl View for Histogram {
    type V = Seq<nat>;

    closed spec fn view(&self) -> Seq<nat> {
        self.counts@.map_values(|c: usize| c as nat)
    }
}

impl Histogram {
    #[verifier::type_invariant]
    spec fn inv(self) -> bool {
        self.counts@.len() == LEVELS
    }

    /// Counts the pixels of `img` by luminance. Every pixel is counted
    /// exactly once, so the counts add up to the number of pixels.
    pub fn of(img: &PixelBuffer) -> (hist: Histogram)
        ensures
            hist@ == tally(img@.pixels),
            total(hist@) == img@.width * img@.height,
    {
        let pixels = img.pixels();
        let n: usize = pixels.len();
        let mut counts: Vec<usize> = Vec::new();
        let mut k: usize = 0;
        while k < LEVELS
            invariant
                k <= LEVELS,
                counts@.len() == k,
                forall|j: int| 0 <= j < k ==> counts@[j] == 0,
            decreases LEVELS - k,
        {
            counts.push(0);
            k += 1;
        }
        proof {
            assert forall|level: int| 0 <= level < LEVELS implies bucket_count(
                pixels@.take(0),
                level,
            ) == 0 by {
                pixels@.take(0).lemma_filter_len(has_luminance(level));
            }
        }
        let mut i: usize = 0;
        while i < n
            invariant
                n == pixels@.len(),
                i <= n,
                counts@.len() == LEVELS,
                forall|level: int|
                    0 <= level < LEVELS ==> #[trigger] counts@[level] == bucket_count(
                        pixels@.take(i as int),
                        level,
                    ),
            decreases n - i,
        {
            let level = luminance_bucket(pixels[i]);
            proof {
                let seen = pixels@.take(i as int);
                assert(seen.push(pixels@[i as int]) =~= pixels@.take(i + 1));
                seen.lemma_filter_len(has_luminance(level as int));
                assert forall|l: int| 0 <= l < LEVELS implies bucket_count(
                    pixels@.take(i + 1),
                    l,
                ) == bucket_count(seen, l) + if l == level {
                    1nat
                } else {
                    0nat
                } by {
                    seen.lemma_filter_len_push(has_luminance(l), pixels@[i as int]);
                }
            }
            let count: usize = counts[level];
            counts.set(level, count + 1);
            i += 1;
        }
        let hist = Histogram { counts };
        proof {
            assert(pixels@.take(n as int) =~= pixels@);
            assert(hist@ =~= tally(img@.pixels));
            lemma_tally_total(img@.pixels);
        }
        hist
    }

    /// The counts, by luminance.
    pub fn counts(&self) -> (counts: &Vec<usize>)
        ensures
            counts@.len() == LEVELS,
            self@.len() == LEVELS,
            forall|level: int| 0 <= level < LEVELS ==> counts@[level] == self@[level],
    {
        proof {
            use_type_invariant(self);
        }
        &self.counts
    }

    /// The number of pixels in the fullest bucket.
    pub fn max_count(&self) -> (max: usize)
        ensures
            max == peak(self@),
    {
        proof {
            use_type_invariant(self);
        }
        let mut max: usize = 0;
        let mut k: usize = 0;
        while k < LEVELS
            invariant
                k <= LEVELS,
                self.counts@.len() == LEVELS,
                max == peak(self@.take(k as int)),
            decreases LEVELS - k,
        {
            proof {
                assert(self@.take(k + 1).drop_last() =~= self@.take(k as int));
            }
            if self.counts[k] >= max {
                max = self.counts[k];
            }
            k += 1;
        }
        proof {
            assert(self@.take(LEVELS as int) =~= self@);
        }
        max
    }

    /// Draws the histogram as a bar chart of 256 columns and 500 rows, white
    /// bars on black. The bars grow upward from the bottom row, and the bar
    /// of the fullest bucket fills its column.
    pub fn render(&self) -> (chart: PixelBuffer)
        ensures
            chart@ == bar_chart(self@),
            chart@.wf(),
    {
        proof {
            use_type_invariant(self);
        }
        let max = self.max_count();
        let mut heights: Vec<usize> = Vec::new();
        let mut col: usize = 0;
        while col < LEVELS
            invariant
                col <= LEVELS,
                self.counts@.len() == LEVELS,
                self@.len() == LEVELS,
                max == peak(self@),
                heights@.len() == col,
                forall|c: int|
                    0 <= c < col ==> #[trigger] heights@[c] == bar_height(self@[c], max as nat),
            decreases LEVELS - col,
        {
            proof {
                lemma_peak(self@);
                assert(self@[col as int] == self.counts@[col as int]);
            }
            heights.push(rows_covered(self.counts[col], max));
            col += 1;
        }
        let mut pixels: Vec<Rgb> = Vec::new();
        let mut row: usize = 0;
        while row < CHART_HEIGHT
            invariant
                row <= CHART_HEIGHT,
                self@.len() == LEVELS,
                max == peak(self@),
                heights@.len() == LEVELS,
                forall|c: int|
                    0 <= c < LEVELS ==> #[trigger] heights@[c] == bar_height(self@[c], max as nat),
                pixels@.len() == row * LEVELS,
                forall|i: int|
                    0 <= i < row * LEVELS ==> #[trigger] pixels@[i] == bar_chart(self@).pixels[i],
            decreases CHART_HEIGHT - row,
        {
            let mut col: usize = 0;
            while col < LEVELS
                invariant
                    row < CHART_HEIGHT,
                    col <= LEVELS,
                    self@.len() == LEVELS,
                    max == peak(self@),
                    heights@.len() == LEVELS,
                    forall|c: int|
                        0 <= c < LEVELS ==> #[trigger] heights@[c] == bar_height(
                            self@[c],
                            max as nat,
                        ),
                    pixels@.len() == row * LEVELS + col,
                    forall|i: int|
                        0 <= i < row * LEVELS + col ==> #[trigger] pixels@[i] == bar_chart(
                            self@,
                        ).pixels[i],
                decreases LEVELS - col,
            {
                proof {
                    lemma_bar_height(self@[col as int], max as nat, row as int);
                }
                let v: u8 = if CHART_HEIGHT - row <= heights[col] {
                    255
                } else {
                    0
                };
                pixels.push(Rgb::gray(v));
                col += 1;
            }
            row += 1;
        }
        let chart = PixelBuffer::new(LEVELS, CHART_HEIGHT, pixels);
        proof {
            assert(chart@ =~= bar_chart(self@));
        }
        chart
    }
}

/// The number of rows covered by the bar of a bucket that holds `count`
/// pixels, where the fullest bucket holds `max`.
fn rows_covered(count: usize, max: usize) -> (rows: usize)
    requires
        count <= max,
    ensures
        rows == bar_height(count as nat, max as nat),
        rows <= CHART_HEIGHT,
{
    if max == 0 {
        0
    } else {
        let scaled: u128 = count as u128 * CHART_HEIGHT as u128;
        let rows: u128 = scaled / max as u128;
        proof {
            let n = count * CHART_HEIGHT;
            let d = max as int;
            vstd::arithmetic::div_mod::lemma_fundamental_div_mod(n, d);
            vstd::arithmetic::div_mod::lemma_mod_bound(n, d);
            assert(n <= CHART_HEIGHT * d) by (nonlinear_arith)
                requires
                    n == count * CHART_HEIGHT,
                    count <= d,
            ;
            assert(n / d <= CHART_HEIGHT) by (nonlinear_arith)
                requires
                    n == d * (n / d) + n % d,
                    0 <= n % d < d,
                    n <= CHART_HEIGHT * d,
                    d > 0,
            ;
        }
        rows as usize
    }
}

/// The luminance histogram of `img` as a bar chart of 256 columns and 500
/// rows. Column `c` stands for the pixels of luminance `c`.
pub fn histogram(img: &PixelBuffer) -> (chart: PixelBuffer)
    ensures
        chart@ == bar_chart(tally(img@.pixels)),
        chart@.wf(),
{
    Histogram::of(img).render()
}

/// Where all pixels have the luminance `level`, they are all in its bucket.
proof fn lemma_uniform_bucket(pixels: Seq<Rgb>, level: int, bucket: int)
    requires
        forall|i: int| 0 <= i < pixels.len() ==> luminance(#[trigger] pixels[i]) == level,
    ensures
        bucket_count(pixels, bucket) == if bucket == level {
            pixels.len()
        } else {
            0
        },
    decreases pixels.len(),
{
    if pixels.len() == 0 {
        pixels.lemma_filter_len(has_luminance(bucket));
    } else {
        let rest = pixels.drop_last();
        assert(rest.push(pixels.last()) =~= pixels);
        lemma_uniform_bucket(rest, level, bucket);
        rest.lemma_filter_len_push(has_luminance(bucket), pixels.last());
    }
}

/// The histogram of an image of one luminance. Where the image is not empty
/// and all its pixels have the luminance `level`, the bucket of `level`
/// holds every pixel and the other buckets hold none; in the chart the
/// column of `level` is white from top to bottom, and every other column is
/// black.
pub proof fn lemma_uniform_histogram(pixels: Seq<Rgb>, level: int)
    requires
        pixels.len() > 0,
        forall|i: int| 0 <= i < pixels.len() ==> luminance(#[trigger] pixels[i]) == level,
    ensures
        0 <= level < LEVELS,
        forall|bucket: int|
            0 <= bucket < LEVELS ==> #[trigger] tally(pixels)[bucket] == if bucket == level {
                pixels.len()
            } else {
                0
            },
        forall|bucket: int|
            0 <= bucket < LEVELS ==> bar_height(
                #[trigger] tally(pixels)[bucket],
                peak(tally(pixels)),
            ) == if bucket == level {
                CHART_HEIGHT as nat
            } else {
                0
            },
        forall|row: int, col: int|
            0 <= row < CHART_HEIGHT && 0 <= col < LEVELS ==> #[trigger] bar_chart(
                tally(pixels),
            ).at(row, col) == if col == level {
                Rgb::gray(255)
            } else {
                Rgb::gray(0)
            },
{
    let counts = tally(pixels);
    let n = pixels.len();
    assert(luminance(pixels[0]) == level);
    assert forall|bucket: int| 0 <= bucket < LEVELS implies #[trigger] counts[bucket]
        == if bucket == level {
        n
    } else {
        0
    } by {
        lemma_uniform_bucket(pixels, level, bucket);
    }
    lemma_peak(counts);
    assert(counts[level] == n);
    assert(peak(counts) == n);
    assert((n * CHART_HEIGHT) as nat / n == CHART_HEIGHT) by (nonlinear_arith)
        requires
            n > 0,
    ;
    assert forall|row: int, col: int| 0 <= row < CHART_HEIGHT && 0 <= col < LEVELS implies
        #[trigger] bar_chart(counts).at(row, col) == if col == level {
        Rgb::gray(255)
    } else {
        Rgb::gray(0)
    } by {
        let i = row * LEVELS + col;
        assert(i % LEVELS as int == col && i / LEVELS as int == row);
        lemma_bar_height(counts[col], n, row);
    }
}

} // verus!
