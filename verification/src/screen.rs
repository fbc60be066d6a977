//! Simple host-side frame store: RGB pixels packed to `u32` words for a
//! display of fixed dimensions. Printing the words is the front end's job.

use vstd::prelude::*;

verus! {

/// All possible color values on the original monochrome console
#[derive(Clone, Copy, PartialEq, Eq, Structural, Debug)]
pub enum Colors {
    White,
    LightGrey,
    DarkGrey,
    Black,
}

impl Colors {
    /// Create a color from a u8 in the range 0...3
    pub fn from_u8(c: u8) -> (r: Colors)
        requires
            c <= 3,
        ensures
            r == match c {
                0u8 => Colors::White,
                1u8 => Colors::LightGrey,
                2u8 => Colors::DarkGrey,
                _ => Colors::Black,
            },
    {
        match c {
            0 => Colors::White,
            1 => Colors::LightGrey,
            2 => Colors::DarkGrey,
            _ => Colors::Black,
        }
    }
}

/// One RGB pixel.
#[derive(Clone, Copy, PartialEq, Eq, Structural, Debug)]
pub struct Pixel {
    pub r: u8,
    pub g: u8,
    pub b: u8,
}

/// A pixel packed into a 24-bit RGB word.
pub open spec fn spec_display_word(p: Pixel) -> u32 {
    (p.r * 0x10000 + p.g * 0x100 + p.b) as u32
}

/// Pack a pixel's channels into a single display word, red high.
pub fn convert_pixel_to_display_format(pixel: &Pixel) -> (w: u32)
    ensures
        w == spec_display_word(*pixel),
{
    let red = (pixel.r as u32) << 16;
    let green = (pixel.g as u32) << 8;
    let blue = pixel.b as u32;
    proof {
        crate::bits::lemma_rgb_pack(pixel.r, pixel.g, pixel.b);
    }
    red | green | blue
}

/// A width x height grid of packed pixel words.
pub struct ConsoleDisplay {
    pub width: usize,
    pub height: usize,
    pub pixels: Vec<u32>,
}

impl ConsoleDisplay {
    pub open spec fn wf(&self) -> bool {
        &&& self.width * self.height <= usize::MAX
        &&& self.pixels@.len() == self.width * self.height
    }

    pub fn new(width: usize, height: usize) -> (d: ConsoleDisplay)
        requires
            width * height <= usize::MAX,
        ensures
            d.wf(),
            d.width == width,
            d.height == height,
            forall|i: int| 0 <= i < d.pixels@.len() ==> d.pixels@[i] == 0,
    {
        let n = width * height;
        let mut pixels: Vec<u32> = Vec::new();
        let mut i: usize = 0;
        while i < n
            invariant
                i <= n,
                pixels@.len() == i,
                forall|j: int| 0 <= j < i ==> pixels@[j] == 0,
            decreases n - i,
        {
            pixels.push(0);
            i = i + 1;
        }
        ConsoleDisplay { width, height, pixels }
    }

    /// Store a word at (x, y); coordinates off the grid are ignored.
    pub fn set_pixel(&mut self, x: usize, y: usize, color: u32)
        requires
            old(self).wf(),
        ensures
            final(self).wf(),
            final(self).width == old(self).width,
            final(self).height == old(self).height,
            final(self).pixels@ == if x < old(self).width && y < old(self).height {
                old(self).pixels@.update(y * old(self).width + x, color)
            } else {
                old(self).pixels@
            },
    {
        if x < self.width && y < self.height {
            proof {
                assert(y * self.width + x < self.width * self.height) by (nonlinear_arith)
                    requires
                        x < self.width,
                        y < self.height,
                ;
            }
            let index = y * self.width + x;
            self.pixels[index] = color;
        }
    }

    /// Walk the grid in row order and return the index of the last cell
    /// visited; presenting the words is the front end's concern.
    pub fn update(&self) -> (ind: usize)
        requires
            self.wf(),
        ensures
            ind == if self.width > 0 && self.height > 0 {
                (self.height - 1) * self.width + (self.width - 1)
            } else {
                0
            },
    {
        let mut ind: usize = 0;
        let mut y: usize = 0;
        while y < self.height
            invariant
                self.wf(),
                y <= self.height,
                ind == if self.width > 0 && y > 0 {
                    (y - 1) * self.width + (self.width - 1)
                } else {
                    0
                },
            decreases self.height - y,
        {
            let mut x: usize = 0;
            while x < self.width
                invariant
                    self.wf(),
                    y < self.height,
                    x <= self.width,
                    ind == if x > 0 {
                        y * self.width + (x - 1)
                    } else if self.width > 0 && y > 0 {
                        (y - 1) * self.width + (self.width - 1)
                    } else {
                        0
                    },
                decreases self.width - x,
            {
                proof {
                    assert(y * self.width + x < self.width * self.height) by (nonlinear_arith)
                        requires
                            x < self.width,
                            y < self.height,
                    ;
                }
                ind = y * self.width + x;
                x = x + 1;
            }
            y = y + 1;
        }
        ind
    }
}

pub const WIDTH: usize = 64;

pub const HEIGHT: usize = 32;

/// Frame of RGB pixels, copied word by word into a [`ConsoleDisplay`].
pub struct Framebuffer {
    pub data: Vec<Pixel>,
    pub display: ConsoleDisplay,
}

impl Framebuffer {
    pub open spec fn wf(&self) -> bool {
        &&& self.data@.len() == WIDTH * HEIGHT
        &&& self.display.wf()
        &&& self.display.width == WIDTH
        &&& self.display.height == HEIGHT
    }

    pub fn new() -> (f: Framebuffer)
        ensures
            f.wf(),
            forall|i: int|
                0 <= i < f.data@.len() ==> f.data@[i] == (Pixel { r: 0, g: 0, b: 0 }),
            forall|i: int| 0 <= i < f.display.pixels@.len() ==> f.display.pixels@[i] == 0,
    {
        let mut data: Vec<Pixel> = Vec::new();
        let mut i: usize = 0;
        while i < WIDTH * HEIGHT
            invariant
                i <= WIDTH * HEIGHT,
                data@.len() == i,
                forall|j: int| 0 <= j < i ==> data@[j] == (Pixel { r: 0, g: 0, b: 0 }),
            decreases WIDTH * HEIGHT - i,
        {
            data.push(Pixel { r: 0, g: 0, b: 0 });
            i = i + 1;
        }
        Framebuffer { data, display: ConsoleDisplay::new(WIDTH, HEIGHT) }
    }

    /// Pack every pixel into the display grid, then report the index of the
    /// last cell the walk visited.
    pub fn copy_framebuffer_to_display(&mut self) -> (ind: usize)
        requires
            old(self).wf(),
        ensures
            final(self).wf(),
            final(self).data == old(self).data,
            forall|i: int|
                0 <= i < WIDTH * HEIGHT ==> final(self).display.pixels@[i] == spec_display_word(
                    old(self).data@[i],
                ),
            ind == (HEIGHT - 1) * WIDTH + (WIDTH - 1),
    {
        let mut y: usize = 0;
        while y < HEIGHT
            invariant
                self.wf(),
                self.data == old(self).data,
                y <= HEIGHT,
                forall|i: int|
                    0 <= i < y * WIDTH ==> self.display.pixels@[i] == spec_display_word(
                        old(self).data@[i],
                    ),
            decreases HEIGHT - y,
        {
            let mut x: usize = 0;
            while x < WIDTH
                invariant
                    self.wf(),
                    self.data == old(self).data,
                    y < HEIGHT,
                    x <= WIDTH,
                    forall|i: int|
                        0 <= i < y * WIDTH + x ==> self.display.pixels@[i] == spec_display_word(
                            old(self).data@[i],
                        ),
                decreases WIDTH - x,
            {
                proof {
                    assert(y * WIDTH + x < WIDTH * HEIGHT) by (nonlinear_arith)
                        requires
                            x < WIDTH,
                            y < HEIGHT,
                    ;
                }
                let pixel = self.data[y * WIDTH + x];
                let color_value = convert_pixel_to_display_format(&pixel);
                self.display.set_pixel(x, y, color_value);
                x = x + 1;
            }
            y = y + 1;
        }
        self.display.update()
    }
}

} // verus!
