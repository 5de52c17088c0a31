use bevy_sdf_text::writer::{check_input_names, font_name, output_file_name, OutputFile, WriterError};
use bevy_sdf_text::charset::{is_drawable_char, printable_ascii_chars};
use bevy_sdf_text::config::MtsdfAtlasConfig;
use bevy_sdf_text::grid::{preview_size, AtlasGrid};

#[test]
fn printable_ascii_chars_are_bang_to_tilde() {
    let chars = printable_ascii_chars();
    assert_eq!(chars.len(), 94);
    assert_eq!(chars[0], '!');
    assert_eq!(chars[93], '~');
    let expected: Vec<char> = (33u8..=126).map(|b| b as char).collect();
    assert_eq!(chars, expected);
    assert!(!chars.contains(&' '));
}

#[test]
fn drawable_chars_exclude_white_space_and_controls() {
    for c in ['a', 'Z', '!', '~', 'é', '字'] {
        assert!(is_drawable_char(c), "{c:?}");
    }
    for c in [' ', '\t', '\n', '\r', '\u{0}', '\u{1f}', '\u{7f}', '\u{85}', '\u{a0}', '\u{2003}', '\u{3000}'] {
        assert!(!is_drawable_char(c), "{c:?}");
    }
    for c in printable_ascii_chars() {
        assert!(is_drawable_char(c));
    }
}

#[test]
fn drawable_matches_std_on_low_code_points() {
    for u in 0u32..0x3100 {
        if let Some(c) = char::from_u32(u) {
            assert_eq!(is_drawable_char(c), !(c.is_whitespace() || c.is_ascii_control()), "{u:x}");
        }
    }
}

#[test]
fn mtsdf_config_defaults() {
    let config = MtsdfAtlasConfig::new("assets/fonts/Roboto-Regular.ttf".to_string());
    assert_eq!(config.font_path, "assets/fonts/Roboto-Regular.ttf");
    assert_eq!(config.char_size, 64);
    assert_eq!(config.char_gap, 8);
    assert_eq!(config.px_range, 4);
}

#[test]
fn grid_for_printable_ascii() {
    let grid = AtlasGrid::new(64, 8, 94);
    assert_eq!(grid.columns, 16);
    assert_eq!(grid.rows, 6);
    assert_eq!(grid.image_width, 72 * 16);
    assert_eq!(grid.image_height, 72 * 6);
}

#[test]
fn grid_rows_round_up() {
    assert_eq!(AtlasGrid::new(64, 8, 0).rows, 0);
    assert_eq!(AtlasGrid::new(64, 8, 1).rows, 1);
    assert_eq!(AtlasGrid::new(64, 8, 16).rows, 1);
    assert_eq!(AtlasGrid::new(64, 8, 17).rows, 2);
    assert_eq!(AtlasGrid::new(10, 2, 17).image_height, 24);
}

#[test]
fn grid_cells_and_origins() {
    let grid = AtlasGrid::new(64, 8, 94);
    assert_eq!(grid.cell(0), (0, 0));
    assert_eq!(grid.cell(17), (1, 1));
    assert_eq!(grid.cell(93), (13, 5));
    assert_eq!(grid.origin_of(0), (4, 4));
    assert_eq!(grid.origin_of(17), (4 + 72, 4 + 72));
    assert_eq!(grid.origin_of(15), (4 + 15 * 72, 4));
}

#[test]
fn grid_destination_pixels_flip_rows() {
    let grid = AtlasGrid::new(64, 8, 94);
    assert_eq!(grid.dest_pixel(0, 0, 0), (4, 4 + 63));
    assert_eq!(grid.dest_pixel(0, 63, 63), (4 + 63, 4));
    assert_eq!(grid.dest_pixel(17, 2, 5), (4 + 72 + 2, 4 + 72 + 58));
    let last = grid.dest_pixel(95, 63, 0);
    assert!(last.0 < grid.image_width && last.1 < grid.image_height);
}

#[test]
fn grid_pixels_never_collide() {
    let grid = AtlasGrid::new(4, 3, 20);
    let mut seen = std::collections::HashSet::new();
    for i in 0..32u32 {
        for x in 0..4u32 {
            for y in 0..4u32 {
                let p = grid.dest_pixel(i, x, y);
                assert!(p.0 < grid.image_width && p.1 < grid.image_height);
                assert!(seen.insert(p), "pixel {p:?} written twice");
            }
        }
    }
}

#[test]
fn grid_margin_bounds() {
    let grid = AtlasGrid::new(64, 8, 94);
    assert_eq!(grid.margin_bounds(0, 4), (2, 2, 6, 6));
    assert_eq!(grid.margin_bounds(17, 4), (74, 74, 78, 78));
    assert_eq!(grid.margin_bounds(1, 5), (74, 2, 78, 6));
}

#[test]
fn preview_size_scales_each_side() {
    assert_eq!(preview_size(1152, 432, (8, 1)), (9216, 3456));
    assert_eq!(preview_size(100, 50, (1, 3)), (33, 16));
    assert_eq!(preview_size(100, 50, (2, 3)), (66, 33));
}

#[test]
fn writer_names_and_files() {
    assert_eq!(check_input_names(1, true), Ok(()));
    assert_eq!(check_input_names(3, false), Ok(()));
    assert_eq!(check_input_names(0, true), Ok(()));
    assert_eq!(check_input_names(2, true), Err(WriterError::NameForManyInputs));
    assert_eq!(font_name(Some("Body"), Some("Roboto-Regular")), Ok("Body".to_string()));
    assert_eq!(font_name(None, Some("Roboto-Regular")), Ok("Roboto-Regular".to_string()));
    assert_eq!(font_name(None, None), Err(WriterError::InvalidInput));
    assert_eq!(output_file_name("Roboto", OutputFile::SdfFont), "Roboto.sdfb");
    assert_eq!(output_file_name("Roboto", OutputFile::AtlasImage), "Roboto-atlas.png");
    assert_eq!(output_file_name("Roboto", OutputFile::PreviewImage), "Roboto-preview.png");
    assert_eq!(output_file_name("Field", OutputFile::SoccerSvg), "Field.svg");
}

#[test]
fn drawable_chars_agree_with_std_char_classes() {
    for code in (0u32..0x3100).chain(0xFFF0..0x10000).chain(0x1F600..0x1F610) {
        if let Some(c) = char::from_u32(code) {
            let expected = !(c.is_whitespace() || c.is_ascii_control());
            assert_eq!(is_drawable_char(c), expected, "{c:?}");
        }
    }
}
