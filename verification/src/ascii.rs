//! The glyph sheet: 256 images in 16 columns, indexed by character code,
//! and the framed boxes that are assembled from nine of them.

use vstd::prelude::*;

verus! {

/// Number of images on the glyph sheet.
pub const GLYPH_COUNT: usize = 256;

/// Number of images in a row of the glyph sheet.
pub const SHEET_COLUMNS: usize = 16;

/// The images a framed box is assembled from.
#[derive(Clone, Copy, Debug, PartialEq, Eq, Structural)]
pub struct NineSliceIndices {
    pub center: usize,
    pub upper_left_index: usize,
    pub upper_right_index: usize,
    pub lower_left_index: usize,
    pub lower_right_index: usize,
    pub horizontal_index: usize,
    pub vertical_index: usize,
}

/// One image of a framed box: which image, where its centre lies relative
/// to the centre of the box, in half tiles, and how far it is stretched,
/// in tiles.
#[derive(Clone, Copy, Debug, PartialEq, Eq, Structural)]
pub struct SlicePart {
    pub index: usize,
    pub half_tiles_x: i64,
    pub half_tiles_y: i64,
    pub scale_x: u32,
    pub scale_y: u32,
}

/// Index of the image in a row and column of the sheet.
pub open spec fn sheet_index(row: int, column: int) -> int {
    row * SHEET_COLUMNS + column
}

/// The image of a character, if the sheet has one.
pub open spec fn glyph_of(glyph: char) -> Option<usize> {
    if (glyph as u32) < GLYPH_COUNT {
        Some(glyph as usize)
    } else {
        None
    }
}

/// Whether a text can be drawn: it has at most as many characters as the
/// sheet has images, and the sheet has an image for each.
pub open spec fn drawable(text: Seq<char>) -> bool {
    &&& text.len() <= GLYPH_COUNT
    &&& forall|i: int| 0 <= i < text.len() ==> glyph_of(#[trigger] text[i]) is Some
}

/// The images of a text: the code of each character, in order.
pub open spec fn images_of(text: Seq<char>) -> Seq<usize> {
    Seq::new(text.len(), |i: int| text[i] as usize)
}

/// The nine images of a framed box `width` by `height` tiles, centre
/// first, then the left side top to bottom, the bottom and top edges, and
/// the right side top to bottom.
pub open spec fn parts_of(indices: NineSliceIndices, width: u32, height: u32) -> Seq<SlicePart> {
    let left = 1 - width;
    let right = width - 1;
    let up = height - 1;
    let down = 1 - height;
    let inner_x = (width - 2) as u32;
    let inner_y = (height - 2) as u32;
    seq![
        SlicePart {
            index: indices.center,
            half_tiles_x: 0,
            half_tiles_y: 0,
            scale_x: inner_x,
            scale_y: inner_y,
        },
        SlicePart {
            index: indices.upper_left_index,
            half_tiles_x: left as i64,
            half_tiles_y: up as i64,
            scale_x: 1,
            scale_y: 1,
        },
        SlicePart {
            index: indices.vertical_index,
            half_tiles_x: left as i64,
            half_tiles_y: 0,
            scale_x: 1,
            scale_y: inner_y,
        },
        SlicePart {
            index: indices.lower_left_index,
            half_tiles_x: left as i64,
            half_tiles_y: down as i64,
            scale_x: 1,
            scale_y: 1,
        },
        SlicePart {
            index: indices.horizontal_index,
            half_tiles_x: 0,
            half_tiles_y: down as i64,
            scale_x: inner_x,
            scale_y: 1,
        },
        SlicePart {
            index: indices.horizontal_index,
            half_tiles_x: 0,
            half_tiles_y: up as i64,
            scale_x: inner_x,
            scale_y: 1,
        },
        SlicePart {
            index: indices.upper_right_index,
            half_tiles_x: right as i64,
            half_tiles_y: up as i64,
            scale_x: 1,
            scale_y: 1,
        },
        SlicePart {
            index: indices.vertical_index,
            half_tiles_x: right as i64,
            half_tiles_y: 0,
            scale_x: 1,
            scale_y: inner_y,
        },
        SlicePart {
            index: indices.lower_right_index,
            half_tiles_x: right as i64,
            half_tiles_y: down as i64,
            scale_x: 1,
            scale_y: 1,
        },
    ]
}

impl NineSliceIndices {
    /// Every index names an image of the sheet.
    pub open spec fn wf(self) -> bool {
        &&& self.center < GLYPH_COUNT
        &&& self.upper_left_index < GLYPH_COUNT
        &&& self.upper_right_index < GLYPH_COUNT
        &&& self.lower_left_index < GLYPH_COUNT
        &&& self.lower_right_index < GLYPH_COUNT
        &&& self.horizontal_index < GLYPH_COUNT
        &&& self.vertical_index < GLYPH_COUNT
    }

    /// The box-drawing images of the game's sheet.
    pub fn standard() -> (indices: NineSliceIndices)
        ensures
            indices.center == sheet_index(2, 0),
            indices.upper_left_index == sheet_index(13, 10),
            indices.upper_right_index == sheet_index(11, 15),
            indices.lower_left_index == sheet_index(12, 0),
            indices.lower_right_index == sheet_index(13, 9),
            indices.horizontal_index == sheet_index(12, 4),
            indices.vertical_index == sheet_index(11, 3),
            indices.wf(),
    {
        NineSliceIndices {
            center: 2 * 16,
            upper_left_index: 13 * 16 + 10,
            upper_right_index: 11 * 16 + 15,
            lower_left_index: 12 * 16,
            lower_right_index: 13 * 16 + 9,
            horizontal_index: 12 * 16 + 4,
            vertical_index: 11 * 16 + 3,
        }
    }
}

/// The image of a character that the sheet has an image for.
pub fn glyph_image(glyph: char) -> (index: usize)
    requires
        glyph_of(glyph) is Some,
    ensures
        glyph_of(glyph) == Some(index),
        index == glyph as u32,
        index < GLYPH_COUNT,
{
    let code: u32 = glyph as u32;
    code as usize
}

/// The image of a character, if the sheet has one.
pub fn glyph_index(glyph: char) -> (index: Option<usize>)
    ensures
        index == glyph_of(glyph),
        index matches Some(i) ==> i < GLYPH_COUNT,
{
    let code: u32 = glyph as u32;
    if code < 256 {
        Some(glyph_image(glyph))
    } else {
        None
    }
}

/// Whether a text can be drawn: [`drawable`].
pub fn is_drawable(to_print: &Vec<char>) -> (ok: bool)
    ensures
        ok == drawable(to_print@),
{
    if to_print.len() > GLYPH_COUNT {
        return false;
    }
    let mut i: usize = 0;
    while i < to_print.len()
        invariant
            i <= to_print.len(),
            to_print.len() <= GLYPH_COUNT,
            forall|j: int| 0 <= j < i ==> glyph_of(#[trigger] to_print@[j]) is Some,
        decreases to_print.len() - i,
    {
        if glyph_index(to_print[i]).is_none() {
            return false;
        }
        i += 1;
    }
    true
}

/// The images of a text that can be drawn, one per character in order;
/// the image at place `i` is drawn `i` tiles to the right of the first. A
/// text that cannot be drawn is no input of this function.
pub fn text_images(to_print: &Vec<char>) -> (images: Vec<usize>)
    requires
        drawable(to_print@),
    ensures
        images@ == images_of(to_print@),
        images@.len() == to_print@.len(),
        forall|i: int|
            0 <= i < images@.len() ==> glyph_of(to_print@[i]) == Some(#[trigger] images@[i]),
{
    let mut images: Vec<usize> = Vec::new();
    let mut i: usize = 0;
    while i < to_print.len()
        invariant
            i <= to_print.len(),
            drawable(to_print@),
            images@.len() == i,
            forall|j: int| 0 <= j < i ==> images@[j] == #[trigger] images_of(to_print@)[j],
        decreases to_print.len() - i,
    {
        assert(glyph_of(to_print@[i as int]) is Some);
        images.push(glyph_image(to_print[i]));
        i += 1;
    }
    proof {
        assert(images@ =~= images_of(to_print@));
        assert forall|j: int| 0 <= j < images@.len() implies glyph_of(to_print@[j]) == Some(
            #[trigger] images@[j],
        ) by {
            assert(glyph_of(to_print@[j]) is Some);
        }
    }
    images
}

/// [`text_images`] for every text: `None` exactly when the text cannot be
/// drawn.
pub fn text_glyphs(to_print: &Vec<char>) -> (glyphs: Option<Vec<usize>>)
    ensures
        glyphs is Some <==> drawable(to_print@),
        glyphs matches Some(found) ==> {
            &&& found@ == images_of(to_print@)
            &&& found@.len() == to_print@.len()
            &&& forall|i: int|
                0 <= i < found@.len() ==> glyph_of(to_print@[i]) == Some(#[trigger] found@[i])
        },
{
    if is_drawable(to_print) {
        Some(text_images(to_print))
    } else {
        None
    }
}

/// The nine images of a framed box `width` by `height` tiles.
pub fn nine_slice_parts(indices: &NineSliceIndices, width: u32, height: u32) -> (parts: Vec<
    SlicePart,
>)
    requires
        width >= 2,
        height >= 2,
    ensures
        parts@ == parts_of(*indices, width, height),
        parts@.len() == 9,
{
    let left: i64 = 1 - width as i64;
    let right: i64 = width as i64 - 1;
    let up: i64 = height as i64 - 1;
    let down: i64 = 1 - height as i64;
    let inner_x: u32 = width - 2;
    let inner_y: u32 = height - 2;
    let mut parts: Vec<SlicePart> = Vec::new();
    parts.push(
        SlicePart {
            index: indices.center,
            half_tiles_x: 0,
            half_tiles_y: 0,
            scale_x: inner_x,
            scale_y: inner_y,
        },
    );
    parts.push(
        SlicePart {
            index: indices.upper_left_index,
            half_tiles_x: left,
            half_tiles_y: up,
            scale_x: 1,
            scale_y: 1,
        },
    );
    parts.push(
        SlicePart {
            index: indices.vertical_index,
            half_tiles_x: left,
            half_tiles_y: 0,
            scale_x: 1,
            scale_y: inner_y,
        },
    );
    parts.push(
        SlicePart {
            index: indices.lower_left_index,
            half_tiles_x: left,
            half_tiles_y: down,
            scale_x: 1,
            scale_y: 1,
        },
    );
    parts.push(
        SlicePart {
            index: indices.horizontal_index,
            half_tiles_x: 0,
            half_tiles_y: down,
            scale_x: inner_x,
            scale_y: 1,
        },
    );
    parts.push(
        SlicePart {
            index: indices.horizontal_index,
            half_tiles_x: 0,
            half_tiles_y: up,
            scale_x: inner_x,
            scale_y: 1,
        },
    );
    parts.push(
        SlicePart {
            index: indices.upper_right_index,
            half_tiles_x: right,
            half_tiles_y: up,
            scale_x: 1,
            scale_y: 1,
        },
    );
    parts.push(
        SlicePart {
            index: indices.vertical_index,
            half_tiles_x: right,
            half_tiles_y: 0,
            scale_x: 1,
            scale_y: inner_y,
        },
    );
    parts.push(
        SlicePart {
            index: indices.lower_right_index,
            half_tiles_x: right,
            half_tiles_y: down,
            scale_x: 1,
            scale_y: 1,
        },
    );
    proof {
        assert(parts@ =~= parts_of(*indices, width, height));
    }
    parts
}

} // verus!
