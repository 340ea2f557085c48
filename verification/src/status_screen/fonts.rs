//! The rows the fonts of the status screen can reach, from `u8g2_fonts`.
use vstd::prelude::*;

use u8g2_fonts::FontRenderer;
use u8g2_fonts::fonts::{u8g2_font_inb21_mr, u8g2_font_inb42_mr, u8g2_font_inr16_mr};
use u8g2_fonts::types::VerticalPosition;

verus! {

/// The vertical extent of the bounding box of a font rendered vertically centered on row 0: its
/// top row and its height.
#[derive(Clone, Copy, PartialEq, Eq, Debug)]
pub struct FontBox {
    /// Top row (px) relative to the line the text is centered on.
    pub top: i32,
    /// Height (px).
    pub height: u32,
}

impl FontBox {
    /// The bounds every `u8g2` font header allows: the box is built from signed bytes of the
    /// header, and a font is only accepted with a box height that is not negative.
    pub open spec fn in_bounds(self) -> bool {
        -1000 < self.top < 1000 && self.height <= 127
    }
}

/// The fonts of the status screen.
#[derive(Clone, Copy, PartialEq, Eq, Debug, Structural)]
pub enum ScreenFont {
    /// `u8g2_font_inb42_mr`, the font of the layer: 42px tall, 35px per character.
    Layer,
    /// `u8g2_font_inr16_mr`, the font of the battery levels: 16px tall, 14px per character.
    Level,
    /// `u8g2_font_inb21_mr`, the font of the transport label: 21px tall, 19px per character.
    Label,
}

/// The bounding box `u8g2_fonts` gives for `font` rendered vertically centered. Each font header
/// holds the box height, its offset below the baseline, the ascent and the descent; the box top
/// is the centering offset `(ascent - descent + 1) / 2 + descent` less the height and the offset.
pub open spec fn spec_font_box(font: ScreenFont) -> FontBox {
    match font {
        ScreenFont::Layer => FontBox { top: -29i32, height: 57u32 },
        ScreenFont::Level => FontBox { top: -11i32, height: 21u32 },
        ScreenFont::Label => FontBox { top: -15i32, height: 29u32 },
    }
}

/// `FontRenderer::get_font_bounding_box` of `u8g2_fonts` for `font`, centered vertically: the
/// widest box any glyph of the font can occupy, of which the top row and the height are kept.
/// The contract states the box the font data of each of the three fonts gives.
#[verifier::external_body]
pub(crate) fn font_box(font: ScreenFont) -> (r: FontBox)
    ensures
        r == spec_font_box(font),
{
    let renderer = match font {
        ScreenFont::Layer => FontRenderer::new::<u8g2_font_inb42_mr>(),
        ScreenFont::Level => FontRenderer::new::<u8g2_font_inr16_mr>(),
        ScreenFont::Label => FontRenderer::new::<u8g2_font_inb21_mr>(),
    };
    let r = renderer.get_font_bounding_box(VerticalPosition::Center);
    FontBox { top: r.top_left.y, height: r.size.height }
}

} // verus!
