//! The decoded pixel grid and the pixel-level algorithms that work on it.

use vstd::prelude::*;
use vstd::arithmetic::div_mod::lemma_fundamental_div_mod_converse;

verus! {

/// Colour channels per pixel: red, green, blue.
pub const CHANNELS: usize = 3;

/// A grid of RGB pixels as a mathematical value: row after row, pixel after
/// pixel, three bytes each.
pub struct PixelGrid {
    pub width: nat,
    pub height: nat,
    pub pixels: Seq<u8>,
}

/// The distance between two channel values.
pub open spec fn channel_distance(a: u8, b: u8) -> int {
    if a >= b {
        a - b
    } else {
        b - a
    }
}

/// The visibility-enhancing map of a channel distance: above ten it is
/// full intensity, up to ten it is ten times the distance.
pub open spec fn enhanced(distance: int) -> u8 {
    if distance > 10 {
        255u8
    } else {
        (distance * 10) as u8
    }
}

/// The enhanced channel-by-channel distance of two buffers of one length.
pub open spec fn difference_map(a: Seq<u8>, b: Seq<u8>) -> Seq<u8> {
    Seq::new(a.len(), |i: int| enhanced(channel_distance(a[i], b[i])))
}

impl PixelGrid {
    /// Both dimensions fit in 32 bits and the buffer holds exactly
    /// `width * height` pixels.
    pub open spec fn well_formed(self) -> bool {
        &&& self.width <= u32::MAX
        &&& self.height <= u32::MAX
        &&& self.pixels.len() == self.width * self.height * 3
    }

    /// Where channel `channel` of the pixel at (`row`, `col`) lies in the buffer.
    pub open spec fn flat_index(self, row: int, col: int, channel: int) -> int {
        (row * self.width + col) * 3 + channel
    }

    /// Channel `channel` of the pixel at (`row`, `col`).
    pub open spec fn sample(self, row: int, col: int, channel: int) -> u8 {
        self.pixels[self.flat_index(row, col, channel)]
    }

    /// The rectangle lies within the grid on both axes.
    pub open spec fn contains_rect(self, x: nat, y: nat, width: nat, height: nat) -> bool {
        x + width <= self.width && y + height <= self.height
    }

    /// The sub-rectangle with its corner at (`x`, `y`), copied pixel for pixel.
    pub open spec fn cropped(self, x: nat, y: nat, width: nat, height: nat) -> PixelGrid {
        PixelGrid {
            width,
            height,
            pixels: Seq::new(
                width * height * 3,
                |i: int| self.sample(y + i / (3 * (width as int)), x + (i / 3) % (width as int), i % 3),
            ),
        }
    }

    /// The enhanced difference with a grid of the same dimensions.
    pub open spec fn difference(self, other: PixelGrid) -> PixelGrid {
        PixelGrid {
            width: self.width,
            height: self.height,
            pixels: difference_map(self.pixels, other.pixels),
        }
    }
}

/// A decoded image: its dimensions and a flat buffer of RGB bytes. The buffer
/// always holds exactly `width * height * 3` bytes.
#[derive(Debug)]
pub struct DecodedImage {
    pub(crate) width: u32,
    pub(crate) height: u32,
    pub(crate) pixels: Vec<u8>,
}

impl View for DecodedImage {
    type V = PixelGrid;

    closed spec fn view(&self) -> PixelGrid {
        PixelGrid {
            width: self.width as nat,
            height: self.height as nat,
            pixels: self.pixels@,
        }
    }
}

/// Every channel of every pixel of a grid lies inside its buffer.
pub proof fn lemma_flat_index_in_range(
    width: int,
    height: int,
    row: int,
    col: int,
    channel: int,
)
    requires
        0 <= row < height,
        0 <= col < width,
        0 <= channel < 3,
    ensures
        0 <= row * width,
        row * width + col < height * width,
        0 <= (row * width + col) * 3 + channel < width * height * 3,
{
    assert(row * width + width <= height * width) by (nonlinear_arith)
        requires
            0 <= row < height,
            0 <= width,
    ;
    assert(0 <= row * width) by (nonlinear_arith)
        requires
            0 <= row,
            0 <= width,
    ;
    assert(height * width == width * height) by (nonlinear_arith);
}

/// A buffer position splits into exactly one row, column and channel.
pub proof fn lemma_flat_index_splits(width: int, row: int, col: int, channel: int)
    requires
        0 <= row,
        0 <= col < width,
        0 <= channel < 3,
    ensures
        ({
            let i = (row * width + col) * 3 + channel;
            &&& i / (3 * width) == row
            &&& (i / 3) % width == col
            &&& i % 3 == channel
        }),
{
    let i = (row * width + col) * 3 + channel;
    assert(i == row * (3 * width) + (col * 3 + channel)) by (nonlinear_arith)
        requires
            i == (row * width + col) * 3 + channel,
    ;
    lemma_fundamental_div_mod_converse(i, 3 * width, row, col * 3 + channel);
    lemma_fundamental_div_mod_converse(i, 3, row * width + col, channel);
    lemma_fundamental_div_mod_converse(row * width + col, width, row, col);
}

/// The enhanced distance of two channel values.
pub fn enhanced_distance(a: u8, b: u8) -> (out: u8)
    ensures
        out == enhanced(channel_distance(a, b)),
{
    let distance: u8 = if a >= b {
        a - b
    } else {
        b - a
    };
    if distance > 10 {
        255
    } else {
        distance * 10
    }
}

impl DecodedImage {
    #[verifier::type_invariant]
    spec fn consistent(&self) -> bool {
        self.pixels@.len() == self.width * self.height * 3
    }

    /// Takes a buffer as an image of the given dimensions, if it holds
    /// exactly `width * height * 3` bytes.
    pub fn from_raw(width: u32, height: u32, pixels: Vec<u8>) -> (image: Option<DecodedImage>)
        ensures
            image is Some <==> pixels@.len() == width * height * 3,
            image matches Some(img) ==> img@ == (PixelGrid {
                width: width as nat,
                height: height as nat,
                pixels: pixels@,
            }),
            image matches Some(img) ==> img@.well_formed(),
    {
        assert((width as u128) * (height as u128) <= 0xffff_ffff * 0xffff_ffff) by (nonlinear_arith)
            requires
                width <= 0xffff_ffff,
                height <= 0xffff_ffff,
        ;
        assert(width * height * 3 == (width as u128) * (height as u128) * 3);
        let expected: u128 = (width as u128) * (height as u128) * 3;
        if pixels.len() as u128 == expected {
            Some(DecodedImage { width, height, pixels })
        } else {
            None
        }
    }

    /// The number of pixel columns.
    pub fn width(&self) -> (width: u32)
        ensures
            width == self@.width,
    {
        self.width
    }

    /// The number of pixel rows.
    pub fn height(&self) -> (height: u32)
        ensures
            height == self@.height,
    {
        self.height
    }

    /// The RGB bytes, row after row.
    pub fn pixels(&self) -> (pixels: &Vec<u8>)
        ensures
            pixels@ == self@.pixels,
            self@.well_formed(),
    {
        proof {
            use_type_invariant(self);
        }
        &self.pixels
    }

    /// Gives up the image for its buffer.
    pub fn into_raw(self) -> (pixels: Vec<u8>)
        ensures
            pixels@ == self@.pixels,
            self@.well_formed(),
    {
        proof {
            use_type_invariant(&self);
        }
        self.pixels
    }

    /// Copies the sub-rectangle with its corner at (`x`, `y`). A rectangle
    /// that reaches beyond the image on either axis is refused, never clamped.
    pub fn crop(&self, x: u32, y: u32, width: u32, height: u32) -> (out: Result<
        DecodedImage,
        crate::error::ProcessingError,
    >)
        ensures
            self@.well_formed(),
            !self@.contains_rect(x as nat, y as nat, width as nat, height as nat) ==> out == Err::<
                DecodedImage,
                crate::error::ProcessingError,
            >(crate::error::ProcessingError::Validation(
                crate::error::ValidationReason::CropOutOfBounds,
            )),
            self@.contains_rect(x as nat, y as nat, width as nat, height as nat) ==> out is Ok
                && out->Ok_0@ == self@.cropped(x as nat, y as nat, width as nat, height as nat)
                && out->Ok_0@.well_formed(),
    {
        proof {
            use_type_invariant(self);
        }
        if x as u64 + width as u64 > self.width as u64 || y as u64 + height as u64
            > self.height as u64 {
            return Err(crate::error::ProcessingError::Validation(
                crate::error::ValidationReason::CropOutOfBounds,
            ));
        }
        let ghost source = self@;
        let ghost target = source.cropped(x as nat, y as nat, width as nat, height as nat);
        let count = self.pixels.len();
        let mut out: Vec<u8> = Vec::new();
        let mut row: u32 = 0;
        while row < height
            invariant
                row <= height,
                count == source.pixels.len(),
                source == self@,
                source.well_formed(),
                source.contains_rect(x as nat, y as nat, width as nat, height as nat),
                target == source.cropped(x as nat, y as nat, width as nat, height as nat),
                out@.len() == row * width * 3,
                forall|i: int| 0 <= i < out@.len() ==> out@[i] == target.pixels[i],
            decreases height - row,
        {
            let mut col: u32 = 0;
            while col < width
                invariant
                    row < height,
                    col <= width,
                    count == source.pixels.len(),
                    source == self@,
                    source.well_formed(),
                    source.contains_rect(x as nat, y as nat, width as nat, height as nat),
                    target == source.cropped(x as nat, y as nat, width as nat, height as nat),
                    out@.len() == (row * width + col) * 3,
                    forall|i: int| 0 <= i < out@.len() ==> out@[i] == target.pixels[i],
                decreases width - col,
            {
                proof {
                    lemma_flat_index_in_range(
                        source.width as int,
                        source.height as int,
                        y + row,
                        x + col,
                        0,
                    );
                    lemma_flat_index_in_range(
                        source.width as int,
                        source.height as int,
                        y + row,
                        x + col,
                        2,
                    );
                    lemma_flat_index_in_range(width as int, height as int, row as int, col as int, 0);
                    lemma_flat_index_in_range(width as int, height as int, row as int, col as int, 2);
                    lemma_flat_index_splits(width as int, row as int, col as int, 0);
                    lemma_flat_index_splits(width as int, row as int, col as int, 1);
                    lemma_flat_index_splits(width as int, row as int, col as int, 2);
                }
                let line: usize = (y + row) as usize * self.width as usize;
                let base: usize = (line + (x + col) as usize) * 3;
                let ghost start = out@.len() as int;
                out.push(self.pixels[base]);
                out.push(self.pixels[base + 1]);
                out.push(self.pixels[base + 2]);
                proof {
                    assert(target.pixels[start] == source.sample(y + row, x + col, 0));
                    assert(target.pixels[start + 1] == source.sample(y + row, x + col, 1));
                    assert(target.pixels[start + 2] == source.sample(y + row, x + col, 2));
                }
                col = col + 1;
            }
            proof {
                assert((row * width + width) * 3 == (row + 1) * width * 3) by (nonlinear_arith);
            }
            row = row + 1;
        }
        assert(height * width * 3 == width * height * 3) by (nonlinear_arith);
        assert(out@ =~= target.pixels);
        Ok(DecodedImage { width, height, pixels: out })
    }

    /// The enhanced difference with an image of the same dimensions; images
    /// of different dimensions have none.
    pub fn difference(&self, other: &DecodedImage) -> (out: Result<
        DecodedImage,
        crate::error::ProcessingError,
    >)
        ensures
            (self@.width != other@.width || self@.height != other@.height) ==> out == Err::<
                DecodedImage,
                crate::error::ProcessingError,
            >(crate::error::ProcessingError::BufferConstruction),
            (self@.width == other@.width && self@.height == other@.height) ==> out is Ok
                && out->Ok_0@ == self@.difference(other@) && out->Ok_0@.well_formed(),
    {
        proof {
            use_type_invariant(self);
            use_type_invariant(other);
        }
        if self.width != other.width || self.height != other.height {
            return Err(crate::error::ProcessingError::BufferConstruction);
        }
        let count = self.pixels.len();
        let mut out: Vec<u8> = Vec::new();
        let mut i: usize = 0;
        while i < count
            invariant
                i <= count,
                count == self.pixels@.len(),
                count == other.pixels@.len(),
                out@.len() == i,
                forall|k: int|
                    0 <= k < i ==> out@[k] == enhanced(
                        channel_distance(self.pixels@[k], other.pixels@[k]),
                    ),
            decreases count - i,
        {
            out.push(enhanced_distance(self.pixels[i], other.pixels[i]));
            i = i + 1;
        }
        assert(out@ =~= difference_map(self.pixels@, other.pixels@));
        Ok(DecodedImage { width: self.width, height: self.height, pixels: out })
    }
}

/// The difference of a grid with itself is black everywhere.
pub proof fn lemma_difference_of_equal_is_black(grid: PixelGrid)
    ensures
        forall|i: int|
            0 <= i < grid.pixels.len() ==> #[trigger] grid.difference(grid).pixels[i] == 0,
{
}

/// Where two grids differ by exactly one in a single channel of a single
/// pixel, that channel of the difference is ten and every other is zero.
pub proof fn lemma_difference_of_single_step(a: PixelGrid, b: PixelGrid, at: int)
    requires
        a.pixels.len() == b.pixels.len(),
        0 <= at < a.pixels.len(),
        channel_distance(a.pixels[at], b.pixels[at]) == 1,
        forall|i: int| 0 <= i < a.pixels.len() && i != at ==> a.pixels[i] == b.pixels[i],
    ensures
        a.difference(b).pixels[at] == 10,
        forall|i: int|
            0 <= i < a.pixels.len() && i != at ==> #[trigger] a.difference(b).pixels[i] == 0,
{
}

/// A crop within bounds has the requested dimensions, and each of its pixels
/// is the source pixel at the same offset from the corner.
pub proof fn lemma_crop_copies_pixels(
    grid: PixelGrid,
    x: nat,
    y: nat,
    width: nat,
    height: nat,
    row: int,
    col: int,
    channel: int,
)
    requires
        grid.well_formed(),
        grid.contains_rect(x, y, width, height),
        0 <= row < height,
        0 <= col < width,
        0 <= channel < 3,
    ensures
        grid.cropped(x, y, width, height).width == width,
        grid.cropped(x, y, width, height).height == height,
        grid.cropped(x, y, width, height).well_formed(),
        grid.cropped(x, y, width, height).sample(row, col, channel) == grid.sample(
            y + row,
            x + col,
            channel,
        ),
{
    lemma_flat_index_in_range(width as int, height as int, row, col, channel);
    lemma_flat_index_splits(width as int, row, col, channel);
}

} // verus!
