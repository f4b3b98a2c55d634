use vstd::prelude::*;

verus! {

/// One pixel: red, green and blue, eight bits each.
#[derive(Clone, Copy, Debug, PartialEq, Eq, Structural)]
pub struct Color {
    pub r: u8,
    pub g: u8,
    pub b: u8,
}

impl Color {
    /// Black.
    pub fn new() -> (color: Color)
        ensures
            color == (Color { r: 0, g: 0, b: 0 }),
    {
        Color { r: 0, g: 0, b: 0 }
    }

    pub fn new_rgb(r: u8, g: u8, b: u8) -> (color: Color)
        ensures
            color == (Color { r, g, b }),
    {
        Color { r, g, b }
    }

    /// The three channel bytes in the order red, green, blue.
    pub open spec fn bytes(self) -> Seq<u8> {
        seq![self.r, self.g, self.b]
    }

    /// A cursor over the channel bytes of this color, starting at red.
    pub fn into_iter(self) -> (cursor: ColorIntoIterator)
        ensures
            cursor == (ColorIntoIterator { color: self, index: 0 }),
    {
        ColorIntoIterator { color: self, index: 0 }
    }
}

/// A cursor over the three channel bytes of a color.
pub struct ColorIntoIterator {
    pub color: Color,
    pub index: usize,
}

impl ColorIntoIterator {
    /// The channel under the cursor, which then moves on; `None` once all
    /// three were handed out.
    pub fn next(&mut self) -> (channel: Option<u8>)
        ensures
            old(self).index < 3 ==> channel == Some(old(self).color.bytes()[old(self).index as int])
                && *final(self) == (ColorIntoIterator {
                index: (old(self).index + 1) as usize,
                ..*old(self)
            }),
            old(self).index >= 3 ==> channel.is_none() && *final(self) == *old(self),
    {
        let result: u8 = match self.index {
            0 => self.color.r,
            1 => self.color.g,
            2 => self.color.b,
            _ => {
                return None;
            },
        };
        self.index += 1;
        Some(result)
    }
}

/// A raster of pixels, three bytes each, row after row.
pub struct Display {
    pub width: usize,
    pub height: usize,
    pub array: Vec<u8>,
}

/// The mathematical content of a [`Display`].
pub struct DisplayView {
    pub width: usize,
    pub height: usize,
    pub array: Seq<u8>,
}

impl View for Display {
    type V = DisplayView;

    open spec fn view(&self) -> DisplayView {
        DisplayView { width: self.width, height: self.height, array: self.array@ }
    }
}

impl DisplayView {
    /// The buffer holds three bytes for each of `width * height` pixels.
    pub open spec fn wf(self) -> bool {
        self.array.len() == self.width * self.height * 3
    }

    /// Whether column `x` of row `y` lies inside the buffer.
    pub open spec fn holds(self, x: usize, y: usize) -> bool {
        self.width * y + x < self.width * self.height
    }

    /// Offset of the first byte of the pixel in column `x` of row `y`.
    pub open spec fn offset(self, x: usize, y: usize) -> int {
        (self.width * y + x) * 3
    }

    /// The color stored for column `x` of row `y`.
    pub open spec fn pixel(self, x: usize, y: usize) -> Color {
        Color {
            r: self.array[self.offset(x, y)],
            g: self.array[self.offset(x, y) + 1],
            b: self.array[self.offset(x, y) + 2],
        }
    }

    /// The raster with the pixel in column `x` of row `y` set to `color`.
    pub open spec fn with_pixel(self, x: usize, y: usize, color: Color) -> DisplayView {
        DisplayView {
            array: self.array.update(self.offset(x, y), color.r).update(
                self.offset(x, y) + 1,
                color.g,
            ).update(self.offset(x, y) + 2, color.b),
            ..self
        }
    }
}

impl Display {
    pub open spec fn wf(&self) -> bool {
        self@.wf()
    }

    /// A black raster of `width` by `height` pixels.
    pub fn new(width: usize, height: usize) -> (display: Display)
        requires
            width * height * 3 <= usize::MAX,
        ensures
            display.wf(),
            display@.width == width,
            display@.height == height,
            display@.array == Seq::new((width * height * 3) as nat, |i: int| 0u8),
    {
        assert(width * height <= width * height * 3);
        let display = Display { width, height, array: vec![0u8; width * height * 3] };
        assert(display.array@ =~= Seq::new((width * height * 3) as nat, |i: int| 0u8));
        display
    }

    /// The three bytes of the pixel in column `x` of row `y`.
    pub fn get_pixel(&self, x: usize, y: usize) -> (bytes: &[u8])
        requires
            self.wf(),
            self@.holds(x, y),
        ensures
            bytes@ == self@.array.subrange(self@.offset(x, y), self@.offset(x, y) + 3),
            bytes@ =~= self@.pixel(x, y).bytes(),
    {
        proof {
            lemma_offset_in_range(self@, x, y);
            assert(self.array@.len() == self.array.len());
        }
        let start: usize = (self.width * y + x) * 3;
        vstd::slice::slice_subrange(self.array.as_slice(), start, start + 3)
    }

    /// The whole buffer, row after row.
    pub fn get_pixels(&self) -> (bytes: &[u8])
        ensures
            bytes@ == self@.array,
    {
        self.array.as_slice()
    }

    pub fn set_pixel(&mut self, x: usize, y: usize, color: Color)
        requires
            old(self).wf(),
            old(self)@.holds(x, y),
        ensures
            final(self).wf(),
            final(self)@ == old(self)@.with_pixel(x, y, color),
    {
        proof {
            lemma_offset_in_range(self@, x, y);
            assert(self.array@.len() == self.array.len());
        }
        let start: usize = (self.width * y + x) * 3;
        self.array[start] = color.r;
        self.array[start + 1] = color.g;
        self.array[start + 2] = color.b;
    }
}

impl Default for Display {
    /// The picture of the console: 256 by 240 pixels.
    fn default() -> (display: Display)
        ensures
            display.wf(),
            display@.width == 256,
            display@.height == 240,
            display@.array == Seq::new(184320, |i: int| 0u8),
    {
        Display::new(256, 240)
    }
}

/// A pixel inside the buffer starts at an offset that leaves room for its
/// three bytes.
pub proof fn lemma_offset_in_range(display: DisplayView, x: usize, y: usize)
    requires
        display.wf(),
        display.holds(x, y),
    ensures
        0 <= display.width * y <= display.width * y + x,
        0 <= display.offset(x, y),
        display.offset(x, y) + 3 <= display.array.len(),
{
    assert(0 <= display.width * y) by (nonlinear_arith);
}

/// A pixel that was set reads back as the color it was set to, and setting
/// it leaves every other pixel of the raster as it was.
pub proof fn lemma_set_then_get(display: DisplayView, x: usize, y: usize, color: Color)
    requires
        display.wf(),
        display.holds(x, y),
    ensures
        display.with_pixel(x, y, color).wf(),
        display.with_pixel(x, y, color).pixel(x, y) == color,
        forall|x2: usize, y2: usize|
            display.holds(x2, y2) && display.offset(x2, y2) != display.offset(x, y)
                ==> #[trigger] display.with_pixel(x, y, color).pixel(x2, y2) == display.pixel(
                x2,
                y2,
            ),
{
    lemma_offset_in_range(display, x, y);
    assert forall|x2: usize, y2: usize|
        display.holds(x2, y2) && display.offset(x2, y2) != display.offset(x, y)
            implies #[trigger] display.with_pixel(x, y, color).pixel(x2, y2) == display.pixel(
            x2,
            y2,
        ) by {
        lemma_offset_in_range(display, x2, y2);
    }
}

} // verus!
