use vstd::prelude::*;

verus! {

/// Why a camera configuration cannot be rendered.
#[derive(Clone, Copy, Debug, PartialEq, Eq, Structural)]
pub enum ConfigError {
    /// The image is less than one pixel wide.
    NonPositiveWidth,
    /// The image is less than one pixel high.
    NonPositiveHeight,
    /// Less than one sample would be taken per pixel.
    NonPositiveSamples,
    /// The number of pixels does not fit in an `i32`.
    TooManyPixels,
}

/// The pixels of an image, numbered row by row from the top left: pixel `(i, j)` (column `i`,
/// row `j`) has index `j * width + i`.
#[derive(Clone, Copy, Debug, PartialEq, Eq, Structural)]
pub struct PixelGrid {
    pub width: u32,
    pub height: u32,
}

impl PixelGrid {
    /// At least one pixel each way, and every index fits in an `i32`.
    pub open spec fn wf(&self) -> bool {
        self.width >= 1 && self.height >= 1 && self.width * self.height <= i32::MAX
    }

    /// The number of pixels.
    pub open spec fn spec_total(&self) -> nat {
        (self.width * self.height) as nat
    }

    /// The number of pixels.
    pub fn total(&self) -> (r: u32)
        requires
            self.wf(),
        ensures
            r == self.spec_total(),
    {
        self.width * self.height
    }

    /// Column and row of the pixel with index `index`.
    pub fn coords(&self, index: u32) -> (r: (u32, u32))
        requires
            self.wf(),
            index < self.spec_total(),
        ensures
            r == (index % self.width, index / self.width),
            r.0 < self.width,
            r.1 < self.height,
    {
        proof {
            let w = self.width as int;
            let h = self.height as int;
            let k = index as int;
            assert(k / w < h) by (nonlinear_arith)
                requires
                    w >= 1,
                    0 <= k < w * h,
            ;
        }
        (index % self.width, index / self.width)
    }

    /// Index of the pixel in column `i` of row `j`.
    pub fn index_of(&self, i: u32, j: u32) -> (r: u32)
        requires
            self.wf(),
            i < self.width,
            j < self.height,
        ensures
            r == j * self.width + i,
            r < self.spec_total(),
    {
        proof {
            let w = self.width as int;
            let h = self.height as int;
            assert(j * w + i < w * h) by (nonlinear_arith)
                requires
                    0 <= i < w,
                    0 <= j < h,
            ;
        }
        j * self.width + i
    }

    /// The indices from `start` on, `size` of them, that lie before `spec_total()`.
    pub fn batch(&self, start: u32, size: u32) -> (r: Vec<u32>)
        requires
            self.wf(),
        ensures
            r@ == batch_seq(start as nat, size as nat, self.spec_total()),
    {
        let total = self.total();
        let end: u32 = if start >= total {
            start
        } else if total - start < size {
            total
        } else {
            start + size
        };
        let mut out: Vec<u32> = Vec::new();
        let mut k: u32 = start;
        while k < end
            invariant
                start <= k <= end,
                end == start + batch_len(start as nat, size as nat, total as nat),
                out@ =~= Seq::new((k - start) as nat, |n: int| (start + n) as u32),
            decreases end - k,
        {
            out.push(k);
            k = k + 1;
        }
        out
    }
}

/// How many indices the batch of at most `size` indices from `start` holds, when there are
/// `total` in all.
pub open spec fn batch_len(start: nat, size: nat, total: nat) -> nat {
    if start >= total {
        0
    } else if start + size <= total {
        size
    } else {
        (total - start) as nat
    }
}

/// The batch of at most `size` consecutive indices from `start`, none at or past `total`.
pub open spec fn batch_seq(start: nat, size: nat, total: nat) -> Seq<u32> {
    Seq::new(batch_len(start, size, total), |n: int| (start + n) as u32)
}

/// The indices in the order in which a render that takes them in batches of `size`, from
/// `start` on, hands them out and writes them.
pub open spec fn batched_order(start: nat, size: nat, total: nat) -> Seq<u32>
    decreases total - start,
{
    if size == 0 || start >= total {
        Seq::empty()
    } else if start + size >= total {
        batch_seq(start, size, total)
    } else {
        batch_seq(start, size, total) + batched_order(start + size, size, total)
    }
}

/// The indices `0, 1, ..., total - 1`: row by row from the top, each row left to right.
pub open spec fn row_major_order(total: nat) -> Seq<u32> {
    Seq::new(total, |n: int| n as u32)
}

/// The value of `check_config` on a configuration.
pub open spec fn config_outcome(
    image_width: i32,
    image_height: i32,
    samples_per_pixel: i32,
) -> Result<PixelGrid, ConfigError> {
    if image_width < 1 {
        Err(ConfigError::NonPositiveWidth)
    } else if image_height < 1 {
        Err(ConfigError::NonPositiveHeight)
    } else if samples_per_pixel < 1 {
        Err(ConfigError::NonPositiveSamples)
    } else if image_width * image_height > i32::MAX {
        Err(ConfigError::TooManyPixels)
    } else {
        Ok(PixelGrid { width: image_width as u32, height: image_height as u32 })
    }
}

/// Checks the integer part of a camera configuration before anything is rendered, and
/// returns the pixel grid of the image.
pub fn check_config(image_width: i32, image_height: i32, samples_per_pixel: i32) -> (r: Result<
    PixelGrid,
    ConfigError,
>)
    ensures
        r == config_outcome(image_width, image_height, samples_per_pixel),
        r is Ok ==> r->Ok_0.wf(),
{
    if image_width < 1 {
        return Err(ConfigError::NonPositiveWidth);
    }
    if image_height < 1 {
        return Err(ConfigError::NonPositiveHeight);
    }
    if samples_per_pixel < 1 {
        return Err(ConfigError::NonPositiveSamples);
    }
    assert((image_width as u64) * (image_height as u64) <= u64::MAX) by (nonlinear_arith)
        requires
            1 <= image_width <= i32::MAX,
            1 <= image_height <= i32::MAX,
    ;
    if (image_width as u64) * (image_height as u64) > i32::MAX as u64 {
        return Err(ConfigError::TooManyPixels);
    }
    Ok(PixelGrid { width: image_width as u32, height: image_height as u32 })
}

proof fn lemma_batched_order_from(start: nat, size: nat, total: nat)
    requires
        size > 0,
        start <= total,
        total <= u32::MAX + 1,
    ensures
        batched_order(start, size, total) =~= Seq::new(
            (total - start) as nat,
            |n: int| (start + n) as u32,
        ),
    decreases total - start,
{
    if start < total {
        if start + size < total {
            lemma_batched_order_from(start + size, size, total);
        }
    }
}

/// Taking the pixels in batches of any positive size, and writing each batch in order once it
/// is done, writes them in row-major order: the same order as one pass over all of them.
pub proof fn lemma_batches_in_row_major_order(grid: PixelGrid, size: nat)
    requires
        grid.wf(),
        size > 0,
    ensures
        batched_order(0, size, grid.spec_total()) == row_major_order(grid.spec_total()),
{
    lemma_batched_order_from(0, size, grid.spec_total());
    assert(batched_order(0, size, grid.spec_total()) =~= row_major_order(grid.spec_total()));
}

/// The row-major index of a pixel and the pixel at an index undo each other, so a pass over
/// rows and columns and a pass over indices visit the same pixel at the same index.
pub proof fn lemma_index_coords_round_trip(grid: PixelGrid, i: nat, j: nat)
    requires
        grid.wf(),
        i < grid.width,
        j < grid.height,
    ensures
        (j * grid.width + i) % (grid.width as int) == i,
        (j * grid.width + i) / (grid.width as int) == j,
{
    let w = grid.width as int;
    assert((j * w + i) % w == i && (j * w + i) / w == j) by (nonlinear_arith)
        requires
            0 <= i < w,
            0 <= j,
    ;
}

} // verus!
