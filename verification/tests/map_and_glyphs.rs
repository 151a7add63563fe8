use rpg_battle::ascii::{
    glyph_image, glyph_index, is_drawable, nine_slice_parts, text_glyphs, text_images,
    NineSliceIndices, SlicePart,
};
use rpg_battle::encounter::{Position, TileGrid};
use rpg_battle::tilemap::{classify, parse_map, tile_position, tile_positions, Tile, TileKind};

fn chars(text: &str) -> Vec<char> {
    text.chars().collect()
}

fn tile(glyph: char, column: usize, row: usize, kind: TileKind) -> Tile {
    Tile { glyph, column, row, kind }
}

#[test]
fn characters_stand_for_kinds() {
    assert_eq!(classify('#'), TileKind::Solid);
    assert_eq!(classify('~'), TileKind::Encounter);
    assert_eq!(classify('.'), TileKind::Open);
    assert_eq!(classify(' '), TileKind::Open);
    assert_eq!(classify('\r'), TileKind::Open);
}

#[test]
fn map_is_read_line_by_line() {
    let tiles = parse_map(&chars("#.#\n.~\n"));
    assert_eq!(
        tiles,
        vec![
            tile('#', 0, 0, TileKind::Solid),
            tile('.', 1, 0, TileKind::Open),
            tile('#', 2, 0, TileKind::Solid),
            tile('.', 0, 1, TileKind::Open),
            tile('~', 1, 1, TileKind::Encounter),
        ]
    );
}

#[test]
fn last_line_needs_no_line_feed() {
    assert_eq!(
        parse_map(&chars("a\nb")),
        vec![tile('a', 0, 0, TileKind::Open), tile('b', 0, 1, TileKind::Open)]
    );
}

#[test]
fn empty_lines_count_as_rows() {
    assert_eq!(
        parse_map(&chars("\n\n~")),
        vec![tile('~', 0, 2, TileKind::Encounter)]
    );
    assert_eq!(parse_map(&chars("")), Vec::new());
    assert_eq!(parse_map(&chars("\n")), Vec::new());
}

#[test]
fn carriage_return_before_line_feed_is_no_tile() {
    assert_eq!(
        parse_map(&chars("#~\r\n.\r\n")),
        vec![
            tile('#', 0, 0, TileKind::Solid),
            tile('~', 1, 0, TileKind::Encounter),
            tile('.', 0, 1, TileKind::Open),
        ]
    );
}

#[test]
fn lone_carriage_return_is_a_tile() {
    assert_eq!(
        parse_map(&chars("a\rb\r")),
        vec![
            tile('a', 0, 0, TileKind::Open),
            tile('\r', 1, 0, TileKind::Open),
            tile('b', 2, 0, TileKind::Open),
            tile('\r', 3, 0, TileKind::Open),
        ]
    );
}

#[test]
fn tiles_lie_right_and_down() {
    let grid = TileGrid::standard();
    assert_eq!(
        tile_position(&tile('#', 3, 2, TileKind::Solid), &grid),
        Some(Position { x: 3000, y: -2000 })
    );
    assert_eq!(
        tile_position(&tile('#', 0, 0, TileKind::Solid), &grid),
        Some(Position { x: 0, y: 0 })
    );
    assert_eq!(tile_position(&tile('#', usize::MAX, 0, TileKind::Solid), &grid), None);
    assert_eq!(tile_position(&tile('#', 0, usize::MAX, TileKind::Solid), &grid), None);
}

#[test]
fn positions_are_picked_by_kind() {
    let grid = TileGrid::standard();
    let tiles = parse_map(&chars("#~.\n~#~"));
    assert_eq!(
        tile_positions(&tiles, TileKind::Encounter, &grid),
        Some(vec![
            Position { x: 1000, y: 0 },
            Position { x: 0, y: -1000 },
            Position { x: 2000, y: -1000 },
        ])
    );
    assert_eq!(
        tile_positions(&tiles, TileKind::Solid, &grid),
        Some(vec![Position { x: 0, y: 0 }, Position { x: 1000, y: -1000 }])
    );
    assert_eq!(
        tile_positions(&tiles, TileKind::Open, &grid),
        Some(vec![Position { x: 2000, y: 0 }])
    );
}

#[test]
fn unrepresentable_position_is_reported_for_its_kind_only() {
    let grid = TileGrid::standard();
    let tiles = vec![
        tile('#', 1, 1, TileKind::Solid),
        tile('~', usize::MAX, 0, TileKind::Encounter),
    ];
    assert_eq!(tile_positions(&tiles, TileKind::Encounter, &grid), None);
    assert_eq!(
        tile_positions(&tiles, TileKind::Solid, &grid),
        Some(vec![Position { x: 1000, y: -1000 }])
    );
}

#[test]
fn glyphs_are_character_codes_below_256() {
    assert_eq!(glyph_index('A'), Some(65));
    assert_eq!(glyph_index('\0'), Some(0));
    assert_eq!(glyph_index('\u{ff}'), Some(255));
    assert_eq!(glyph_index('\u{100}'), None);
    assert_eq!(glyph_index('\u{10ffff}'), None);
}

#[test]
fn text_becomes_one_glyph_per_character() {
    assert_eq!(
        text_glyphs(&chars("Health: 3")),
        Some(vec![72, 101, 97, 108, 116, 104, 58, 32, 51])
    );
    assert_eq!(text_glyphs(&chars("")), Some(Vec::new()));
    assert_eq!(text_glyphs(&chars("caf\u{e9}")), Some(vec![99, 97, 102, 233]));
}

#[test]
fn text_outside_the_sheet_cannot_be_drawn() {
    assert_eq!(text_glyphs(&chars("snow \u{2603}")), None);
    let long: Vec<char> = std::iter::repeat('x').take(257).collect();
    assert_eq!(text_glyphs(&long), None);
    let full: Vec<char> = std::iter::repeat('x').take(256).collect();
    assert_eq!(text_glyphs(&full), Some(vec![120usize; 256]));
}

#[test]
fn standard_box_images_sit_in_the_sheet() {
    let indices = NineSliceIndices::standard();
    assert_eq!(
        indices,
        NineSliceIndices {
            center: 32,
            upper_left_index: 218,
            upper_right_index: 191,
            lower_left_index: 192,
            lower_right_index: 217,
            horizontal_index: 196,
            vertical_index: 179,
        }
    );
}

#[test]
fn box_is_assembled_from_nine_images() {
    let indices = NineSliceIndices::standard();
    let part = |index, half_tiles_x, half_tiles_y, scale_x, scale_y| SlicePart {
        index,
        half_tiles_x,
        half_tiles_y,
        scale_x,
        scale_y,
    };
    assert_eq!(
        nine_slice_parts(&indices, 7, 3),
        vec![
            part(32, 0, 0, 5, 1),
            part(218, -6, 2, 1, 1),
            part(179, -6, 0, 1, 1),
            part(192, -6, -2, 1, 1),
            part(196, 0, -2, 5, 1),
            part(196, 0, 2, 5, 1),
            part(191, 6, 2, 1, 1),
            part(179, 6, 0, 1, 1),
            part(217, 6, -2, 1, 1),
        ]
    );
}

#[test]
fn smallest_box_has_no_inside() {
    let indices = NineSliceIndices::standard();
    let parts = nine_slice_parts(&indices, 2, 2);
    assert_eq!(parts.len(), 9);
    assert_eq!(parts[0].scale_x, 0);
    assert_eq!(parts[0].scale_y, 0);
    assert_eq!(parts[1].half_tiles_x, -1);
    assert_eq!(parts[8].half_tiles_y, -1);
    let wide = nine_slice_parts(&indices, u32::MAX, u32::MAX);
    assert_eq!(wide[6].half_tiles_x, u32::MAX as i64 - 1);
    assert_eq!(wide[3].half_tiles_y, 1 - u32::MAX as i64);
}

#[test]
fn drawable_text_has_its_images() {
    assert!(is_drawable(&chars("Level up!")));
    assert_eq!(
        text_images(&chars("Level up!")),
        vec![76, 101, 118, 101, 108, 32, 117, 112, 33]
    );
    assert_eq!(text_images(&chars("")), Vec::<usize>::new());
    assert_eq!(glyph_image('~'), 126);
    assert_eq!(glyph_image('\u{ff}'), 255);
}

#[test]
fn text_that_cannot_be_drawn_is_told_apart() {
    assert!(is_drawable(&chars("")));
    assert!(is_drawable(&chars("caf\u{e9}")));
    assert!(!is_drawable(&chars("snow \u{2603}")));
    assert!(!is_drawable(&chars("\u{100}")));
    let full: Vec<char> = std::iter::repeat('x').take(256).collect();
    assert!(is_drawable(&full));
    let long: Vec<char> = std::iter::repeat('x').take(257).collect();
    assert!(!is_drawable(&long));
}
