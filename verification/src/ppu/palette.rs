use crate::ppu::display::Color;
use vstd::prelude::*;

verus! {

/// Shorthand for a color in a table.
pub open spec fn rgb(r: u8, g: u8, b: u8) -> Color {
    Color { r, g, b }
}

/// The four shades that stand for the pattern values 0 to 3 where no palette
/// applies: black, dark grey, light grey, white.
pub open spec fn greyscale_table() -> Seq<Color> {
    seq![rgb(0, 0, 0), rgb(85, 85, 85), rgb(170, 170, 170), rgb(255, 255, 255)]
}

/// The shade for a two bit pattern value.
pub fn greyscale(pattern: u8) -> (color: Color)
    requires
        pattern < 4,
    ensures
        color == greyscale_table()[pattern as int],
{
    if pattern == 0 {
        Color::new_rgb(0, 0, 0)
    } else if pattern == 1 {
        Color::new_rgb(85, 85, 85)
    } else if pattern == 2 {
        Color::new_rgb(170, 170, 170)
    } else {
        Color::new_rgb(255, 255, 255)
    }
}

/// The 64 colors that the picture unit can put out, by color number.
pub open spec fn system_palette() -> Seq<Color> {
    seq![
        rgb(84, 84, 84), rgb(0, 30, 116), rgb(8, 16, 144), rgb(48, 0, 136),
        rgb(68, 0, 100), rgb(92, 0, 48), rgb(84, 4, 0), rgb(60, 24, 0),
        rgb(32, 42, 0), rgb(8, 58, 0), rgb(0, 64, 0), rgb(0, 60, 0),
        rgb(0, 50, 60), rgb(0, 0, 0), rgb(0, 0, 0), rgb(0, 0, 0),
        rgb(152, 150, 152), rgb(8, 76, 196), rgb(48, 50, 236), rgb(92, 30, 228),
        rgb(136, 20, 176), rgb(160, 20, 100), rgb(152, 34, 32), rgb(120, 60, 0),
        rgb(84, 90, 0), rgb(40, 114, 0), rgb(8, 124, 0), rgb(0, 118, 40),
        rgb(0, 102, 120), rgb(0, 0, 0), rgb(0, 0, 0), rgb(0, 0, 0),
        rgb(236, 238, 236), rgb(76, 154, 236), rgb(120, 124, 236), rgb(176, 98, 236),
        rgb(228, 84, 236), rgb(236, 88, 180), rgb(236, 106, 100), rgb(212, 136, 32),
        rgb(160, 170, 0), rgb(116, 196, 0), rgb(76, 208, 32), rgb(56, 204, 108),
        rgb(56, 180, 204), rgb(60, 60, 60), rgb(0, 0, 0), rgb(0, 0, 0),
        rgb(236, 238, 236), rgb(168, 204, 236), rgb(188, 188, 236), rgb(212, 178, 236),
        rgb(236, 174, 236), rgb(236, 174, 212), rgb(236, 180, 176), rgb(228, 196, 144),
        rgb(204, 210, 120), rgb(180, 222, 120), rgb(168, 226, 144), rgb(152, 226, 180),
        rgb(160, 214, 228), rgb(160, 162, 160), rgb(0, 0, 0), rgb(0, 0, 0),
    ]
}

/// The table of the colors that the picture unit can put out.
pub struct Palette {
    pub colors: Vec<Color>,
}

impl View for Palette {
    type V = Seq<Color>;

    open spec fn view(&self) -> Seq<Color> {
        self.colors@
    }
}

impl Palette {
    /// The table holds the 64 system colors.
    pub open spec fn wf(&self) -> bool {
        self@ == system_palette()
    }

    pub fn new() -> (palette: Palette)
        ensures
            palette.wf(),
    {
        let colors: Vec<Color> = vec![
            Color::new_rgb(84, 84, 84), Color::new_rgb(0, 30, 116), Color::new_rgb(8, 16, 144), Color::new_rgb(48, 0, 136),
            Color::new_rgb(68, 0, 100), Color::new_rgb(92, 0, 48), Color::new_rgb(84, 4, 0), Color::new_rgb(60, 24, 0),
            Color::new_rgb(32, 42, 0), Color::new_rgb(8, 58, 0), Color::new_rgb(0, 64, 0), Color::new_rgb(0, 60, 0),
            Color::new_rgb(0, 50, 60), Color::new_rgb(0, 0, 0), Color::new_rgb(0, 0, 0), Color::new_rgb(0, 0, 0),
            Color::new_rgb(152, 150, 152), Color::new_rgb(8, 76, 196), Color::new_rgb(48, 50, 236), Color::new_rgb(92, 30, 228),
            Color::new_rgb(136, 20, 176), Color::new_rgb(160, 20, 100), Color::new_rgb(152, 34, 32), Color::new_rgb(120, 60, 0),
            Color::new_rgb(84, 90, 0), Color::new_rgb(40, 114, 0), Color::new_rgb(8, 124, 0), Color::new_rgb(0, 118, 40),
            Color::new_rgb(0, 102, 120), Color::new_rgb(0, 0, 0), Color::new_rgb(0, 0, 0), Color::new_rgb(0, 0, 0),
            Color::new_rgb(236, 238, 236), Color::new_rgb(76, 154, 236), Color::new_rgb(120, 124, 236), Color::new_rgb(176, 98, 236),
            Color::new_rgb(228, 84, 236), Color::new_rgb(236, 88, 180), Color::new_rgb(236, 106, 100), Color::new_rgb(212, 136, 32),
            Color::new_rgb(160, 170, 0), Color::new_rgb(116, 196, 0), Color::new_rgb(76, 208, 32), Color::new_rgb(56, 204, 108),
            Color::new_rgb(56, 180, 204), Color::new_rgb(60, 60, 60), Color::new_rgb(0, 0, 0), Color::new_rgb(0, 0, 0),
            Color::new_rgb(236, 238, 236), Color::new_rgb(168, 204, 236), Color::new_rgb(188, 188, 236), Color::new_rgb(212, 178, 236),
            Color::new_rgb(236, 174, 236), Color::new_rgb(236, 174, 212), Color::new_rgb(236, 180, 176), Color::new_rgb(228, 196, 144),
            Color::new_rgb(204, 210, 120), Color::new_rgb(180, 222, 120), Color::new_rgb(168, 226, 144), Color::new_rgb(152, 226, 180),
            Color::new_rgb(160, 214, 228), Color::new_rgb(160, 162, 160), Color::new_rgb(0, 0, 0), Color::new_rgb(0, 0, 0),
        ];
        assert(colors@ =~= system_palette());
        Palette { colors }
    }

    /// The color with the number `index`.
    pub fn get_color(&self, index: usize) -> (color: Color)
        requires
            self.wf(),
            index < 0x40,
        ensures
            color == system_palette()[index as int],
    {
        self.colors[index]
    }
}

impl Default for Palette {
    fn default() -> (palette: Palette)
        ensures
            palette.wf(),
    {
        Palette::new()
    }
}

} // verus!
