//! The grid of pixels that a render fills, and the bytes that leave it.
//!
//! A pixel knows its column `x` and its height `y` above the bottom row of the
//! image. The grid keeps the pixels row by row from the top of the image down,
//! each row from left to right, so that its bytes come out in raster order.

use vstd::prelude::*;
use vstd::arithmetic::div_mod::lemma_fundamental_div_mod_converse;
use crate::config::{check_image, image_fault, ConfigError};

verus! {

/// A colour ready for display: one byte for each of red, green and blue.
#[derive(Clone, Copy, Debug, PartialEq, Eq, Structural)]
pub struct Rgb {
    pub r: u8,
    pub g: u8,
    pub b: u8,
}

/// One pixel: where it lies and its colour.
#[derive(Clone, Copy, Debug, PartialEq, Eq, Structural)]
pub struct Pixel {
    /// The column, counted from the left.
    pub x: i32,
    /// The height above the bottom row.
    pub y: i32,
    /// The colour, black until the pixel is painted.
    pub color: Rgb,
}

/// The pixels of an image.
#[derive(Debug)]
pub struct Frame {
    buffer: Vec<Pixel>,
    width: i32,
    height: i32,
}

impl Rgb {
    /// Black.
    pub open spec fn black() -> Rgb {
        Rgb { r: 0, g: 0, b: 0 }
    }

    /// The colour of the three given levels.
    pub fn from(r: u8, g: u8, b: u8) -> (c: Rgb)
        ensures
            c == (Rgb { r, g, b }),
    {
        Rgb { r, g, b }
    }
}

impl Pixel {
    /// A black pixel in the bottom left corner.
    pub fn new() -> (p: Pixel)
        ensures
            p == (Pixel { x: 0, y: 0, color: Rgb::black() }),
    {
        Pixel { x: 0, y: 0, color: Rgb { r: 0, g: 0, b: 0 } }
    }

    /// The red level.
    pub fn r(&self) -> (level: u8)
        ensures
            level == self.color.r,
    {
        self.color.r
    }

    /// The green level.
    pub fn g(&self) -> (level: u8)
        ensures
            level == self.color.g,
    {
        self.color.g
    }

    /// The blue level.
    pub fn b(&self) -> (level: u8)
        ensures
            level == self.color.b,
    {
        self.color.b
    }
}

/// The column of the pixel at `index` of a grid `width` wide.
pub open spec fn column_of(index: int, width: int) -> int {
    index % width
}

/// The height above the bottom row of the pixel at `index` of a grid `width`
/// wide and `height` high: the first row of the grid is the top of the image.
pub open spec fn height_of(index: int, width: int, height: int) -> int {
    height - 1 - index / width
}

impl View for Frame {
    type V = Seq<Pixel>;

    closed spec fn view(&self) -> Seq<Pixel> {
        self.buffer@
    }
}

impl Frame {
    #[verifier::type_invariant]
    closed spec fn laid_out(self) -> bool {
        &&& image_fault(self.width as int, self.height as int).is_none()
        &&& self.buffer@.len() == self.width * self.height
        &&& forall|k: int|
            0 <= k < self.buffer@.len() ==> {
                &&& (#[trigger] self.buffer@[k]).x == column_of(k, self.width as int)
                &&& self.buffer@[k].y == height_of(k, self.width as int, self.height as int)
            }
    }

    /// The number of columns.
    pub closed spec fn spec_width(&self) -> i32 {
        self.width
    }

    /// The number of rows.
    pub closed spec fn spec_height(&self) -> i32 {
        self.height
    }

    /// True where the pixels are those of a grid `width` wide and `height`
    /// high: one for each place, each at its index with its coordinates.
    pub open spec fn is_grid(pixels: Seq<Pixel>, width: int, height: int) -> bool {
        &&& pixels.len() == width * height
        &&& forall|k: int|
            0 <= k < pixels.len() ==> {
                &&& (#[trigger] pixels[k]).x == column_of(k, width)
                &&& pixels[k].y == height_of(k, width, height)
            }
    }

    /// A grid of black pixels, `width` wide and `height` high, or the reason
    /// why there is none of this size.
    pub fn new(width: i32, height: i32) -> (out: Result<Frame, ConfigError>)
        ensures
            match out {
                Ok(frame) => {
                    &&& image_fault(width as int, height as int).is_none()
                    &&& frame.width() == width
                    &&& frame.height() == height
                    &&& Frame::is_grid(frame@, width as int, height as int)
                    &&& forall|k: int| 0 <= k < frame@.len() ==> (#[trigger] frame@[k]).color == Rgb::black()
                },
                Err(e) => image_fault(width as int, height as int) == Some(e),
            },
    {
        match check_image(width, height) {
            Some(e) => {
                return Err(e);
            },
            None => {},
        }
        assert(0 < width * height <= i32::MAX) by (nonlinear_arith)
            requires
                0 < width,
                0 < height,
                width * height * 3 <= i32::MAX,
        ;
        let mut buffer: Vec<Pixel> = Vec::with_capacity((width as usize) * (height as usize));
        let mut j: i32 = 0;
        while j < height
            invariant
                0 <= j <= height,
                0 < width,
                0 < width * height <= i32::MAX,
                buffer@.len() == j * width,
                forall|k: int|
                    0 <= k < buffer@.len() ==> {
                        &&& (#[trigger] buffer@[k]).x == column_of(k, width as int)
                        &&& buffer@[k].y == height_of(k, width as int, height as int)
                        &&& buffer@[k].color == Rgb::black()
                    },
            decreases height - j,
        {
            let mut i: i32 = 0;
            while i < width
                invariant
                    0 <= j < height,
                    0 <= i <= width,
                    0 < width * height <= i32::MAX,
                    buffer@.len() == j * width + i,
                    forall|k: int|
                        0 <= k < buffer@.len() ==> {
                            &&& (#[trigger] buffer@[k]).x == column_of(k, width as int)
                            &&& buffer@[k].y == height_of(k, width as int, height as int)
                            &&& buffer@[k].color == Rgb::black()
                        },
                decreases width - i,
            {
                let mut pixel = Pixel::new();
                pixel.x = i;
                pixel.y = height - j - 1;
                proof {
                    lemma_fundamental_div_mod_converse(
                        j * width + i,
                        width as int,
                        j as int,
                        i as int,
                    );
                }
                buffer.push(pixel);
                i += 1;
            }
            assert(j * width + width == (j + 1) * width) by (nonlinear_arith);
            j += 1;
        }
        assert(height * width == width * height) by (nonlinear_arith);
        Ok(Frame { buffer, width, height })
    }

    /// The number of columns.
    #[verifier::when_used_as_spec(spec_width)]
    pub fn width(&self) -> (n: i32)
        ensures
            n == self.width(),
    {
        self.width
    }

    /// The number of rows.
    #[verifier::when_used_as_spec(spec_height)]
    pub fn height(&self) -> (n: i32)
        ensures
            n == self.height(),
    {
        self.height
    }

    /// The pixels, row by row from the top of the image.
    pub fn buffer(&self) -> (pixels: &Vec<Pixel>)
        ensures
            pixels@ == self@,
            Frame::is_grid(self@, self.width() as int, self.height() as int),
            image_fault(self.width() as int, self.height() as int).is_none(),
    {
        proof {
            use_type_invariant(self);
        }
        &self.buffer
    }

    /// The grid in which the pixel at `index` has the given colour. Nothing
    /// else differs, and without such a pixel nothing does.
    pub fn paint(self, index: usize, color: Rgb) -> (out: Frame)
        ensures
            out.width() == self.width(),
            out.height() == self.height(),
            index < self@.len() ==> out@ == self@.update(
                index as int,
                Pixel { color, ..self@[index as int] },
            ),
            index >= self@.len() ==> out@ == self@,
    {
        proof {
            use_type_invariant(&self);
        }
        let width = self.width;
        let height = self.height;
        let mut buffer = self.buffer;
        if index < buffer.len() {
            let pixel = buffer[index];
            buffer.set(index, Pixel { x: pixel.x, y: pixel.y, color });
        }
        Frame { buffer, width, height }
    }

    /// The bytes of the image: for each pixel, in the order of the grid, its
    /// red, green and blue level. There are three times as many bytes as
    /// pixels, that is `width * height * 3`.
    pub fn get_raw_buffer(&self) -> (bytes: Vec<u8>)
        ensures
            bytes@.len() == 3 * self@.len(),
            bytes@.len() == self.width() * self.height() * 3,
            forall|k: int|
                0 <= k < self@.len() ==> {
                    &&& bytes@[3 * k] == (#[trigger] self@[k]).color.r
                    &&& bytes@[3 * k + 1] == self@[k].color.g
                    &&& bytes@[3 * k + 2] == self@[k].color.b
                },
    {
        proof {
            use_type_invariant(self);
        }
        let count = self.buffer.len();
        let mut bytes: Vec<u8> = Vec::with_capacity(count * 3);
        let mut k: usize = 0;
        while k < count
            invariant
                count == self.buffer@.len(),
                count * 3 <= i32::MAX,
                0 <= k <= count,
                bytes@.len() == 3 * k,
                forall|m: int|
                    0 <= m < k ==> {
                        &&& bytes@[3 * m] == (#[trigger] self.buffer@[m]).color.r
                        &&& bytes@[3 * m + 1] == self.buffer@[m].color.g
                        &&& bytes@[3 * m + 2] == self.buffer@[m].color.b
                    },
            decreases count - k,
        {
            let pixel = &self.buffer[k];
            bytes.push(pixel.r());
            bytes.push(pixel.g());
            bytes.push(pixel.b());
            k += 1;
        }
        bytes
    }
}

} // verus!
