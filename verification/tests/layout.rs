use bevy_sdf_text::layout::{
    char_at_byte_index, layout_alignment, HorizontalAlignment, RawSectionGlyphs, SdfTextAlignment,
    TextAlignment, VerticalAlignment,
};

#[test]
fn text_alignment_horizontal() {
    assert_eq!(TextAlignment::Left.horizontal(), HorizontalAlignment::Left);
    assert_eq!(TextAlignment::Center.horizontal(), HorizontalAlignment::Center);
    assert_eq!(TextAlignment::Right.horizontal(), HorizontalAlignment::Right);
    assert_eq!(TextAlignment::Top.horizontal(), HorizontalAlignment::Left);
    assert_eq!(TextAlignment::Bottom.horizontal(), HorizontalAlignment::Left);
}

#[test]
fn text_alignment_vertical() {
    assert_eq!(TextAlignment::Top.vertical(), VerticalAlignment::Top);
    assert_eq!(TextAlignment::Center.vertical(), VerticalAlignment::Center);
    assert_eq!(TextAlignment::Bottom.vertical(), VerticalAlignment::Bottom);
    assert_eq!(TextAlignment::Left.vertical(), VerticalAlignment::Bottom);
    assert_eq!(TextAlignment::Right.vertical(), VerticalAlignment::Bottom);
}

#[test]
fn layout_alignment_defaults_to_left_top() {
    assert_eq!(layout_alignment(None, None), (HorizontalAlignment::Left, VerticalAlignment::Top));
    assert_eq!(
        layout_alignment(Some(TextAlignment::Center), None),
        (HorizontalAlignment::Center, VerticalAlignment::Top)
    );
    assert_eq!(
        layout_alignment(Some(TextAlignment::Right), Some(TextAlignment::Bottom)),
        (HorizontalAlignment::Right, VerticalAlignment::Bottom)
    );
    assert_eq!(
        layout_alignment(None, Some(TextAlignment::Left)),
        (HorizontalAlignment::Left, VerticalAlignment::Bottom)
    );
}

#[test]
fn sdf_text_alignment_maps_one_to_one() {
    assert_eq!(SdfTextAlignment::default(), SdfTextAlignment::Left);
    assert_eq!(SdfTextAlignment::Left.horizontal(), HorizontalAlignment::Left);
    assert_eq!(SdfTextAlignment::Center.horizontal(), HorizontalAlignment::Center);
    assert_eq!(SdfTextAlignment::Right.horizontal(), HorizontalAlignment::Right);
}

fn runs_of(sections: &[usize]) -> Vec<(usize, Vec<usize>)> {
    RawSectionGlyphs::groups(&sections.to_vec()).into_iter().map(|r| (r.index, r.glyphs)).collect()
}

#[test]
fn groups_split_runs_of_sections() {
    assert_eq!(runs_of(&[]), vec![]);
    assert_eq!(runs_of(&[0]), vec![(0, vec![0])]);
    assert_eq!(
        runs_of(&[0, 0, 1, 1, 1, 2]),
        vec![(0, vec![0, 1]), (1, vec![2, 3, 4]), (2, vec![5])]
    );
}

#[test]
fn groups_start_a_new_run_when_a_section_returns() {
    assert_eq!(
        runs_of(&[0, 0, 1, 0, 0]),
        vec![(0, vec![0, 1]), (1, vec![2]), (0, vec![3, 4])]
    );
    assert_eq!(runs_of(&[3, 3, 3]), vec![(3, vec![0, 1, 2])]);
}

#[test]
fn char_at_byte_index_ascii() {
    let text = "Hello, World! ";
    assert_eq!(char_at_byte_index(text, 0), Some('H'));
    assert_eq!(char_at_byte_index(text, 7), Some('W'));
    assert_eq!(char_at_byte_index(text, 13), Some(' '));
    assert_eq!(char_at_byte_index(text, 14), None);
    assert_eq!(char_at_byte_index(text, usize::MAX), None);
    assert_eq!(char_at_byte_index("", 0), None);
}

#[test]
fn char_at_byte_index_multibyte() {
    let text = "aé字😀b";
    assert_eq!(char_at_byte_index(text, 0), Some('a'));
    assert_eq!(char_at_byte_index(text, 1), Some('é'));
    assert_eq!(char_at_byte_index(text, 2), None);
    assert_eq!(char_at_byte_index(text, 3), Some('字'));
    assert_eq!(char_at_byte_index(text, 4), None);
    assert_eq!(char_at_byte_index(text, 6), Some('😀'));
    assert_eq!(char_at_byte_index(text, 9), None);
    assert_eq!(char_at_byte_index(text, 10), Some('b'));
    for (i, c) in text.char_indices() {
        assert_eq!(char_at_byte_index(text, i), Some(c));
    }
}
