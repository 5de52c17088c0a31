use bevy::ecs::component::Tick;
use bevy_sdf_text::font_loader::SdfFontLoader;
use bevy_sdf_text::error::MtsdfTextError;
use bevy_sdf_text::mesh::{plane_indices, push_quad_indices, text_mesh_indices};
use bevy_sdf_text::painter::{is_stale_text, TextPainterState};
use bevy_sdf_text::text_update::{sections_ready, TextUpdateQueue};

fn draw(state: &mut TextPainterState, tick: u32, next_entity: &mut u64) -> u64 {
    match state.begin_draw(tick) {
        Some(e) => e,
        None => {
            let e = *next_entity;
            *next_entity += 1;
            state.push_spawned(e);
            e
        }
    }
}

#[test]
fn painter_reuses_entities_per_draw_position() {
    let mut state = TextPainterState::new();
    let mut next = 100;
    assert_eq!(draw(&mut state, 1, &mut next), 100);
    assert_eq!(draw(&mut state, 1, &mut next), 101);
    assert_eq!(state.cursor, 2);
    // next run: same positions, same entities
    assert_eq!(draw(&mut state, 2, &mut next), 100);
    assert_eq!(draw(&mut state, 2, &mut next), 101);
    assert_eq!(draw(&mut state, 2, &mut next), 102);
    assert_eq!(state.entities, vec![100, 101, 102]);
    // a run with fewer draws keeps the spare entity
    assert_eq!(draw(&mut state, 3, &mut next), 100);
    assert_eq!(state.cursor, 1);
    assert_eq!(state.run_tick, Some(3));
    assert_eq!(state.entities.len(), 3);
}

#[test]
fn painter_begin_draw_without_free_entity() {
    let mut state = TextPainterState::new();
    assert_eq!(state.begin_draw(7), None);
    assert_eq!(state.cursor, 0);
    state.push_spawned(42);
    assert_eq!(state.cursor, 1);
    assert_eq!(state.begin_draw(7), None);
    assert_eq!(state.begin_draw(8), Some(42));
}

#[test]
fn stale_texts_follow_tick_order() {
    // drawn in the current run: visible
    assert!(!is_stale_text(5, 3, 5));
    // drawn before the previous run: hidden
    assert!(is_stale_text(2, 3, 5));
    // drawn exactly at the previous run: hidden
    assert!(is_stale_text(3, 3, 5));
    // wrapping ticks
    assert!(!is_stale_text(0, u32::MAX - 1, 1));
    assert!(is_stale_text(u32::MAX - 3, u32::MAX - 1, 1));
}

#[test]
fn update_queue_retries_deferred_texts() {
    let mut q = TextUpdateQueue::new();
    assert!(!q.take_due(9, false));
    assert!(q.take_due(9, true));
    q.defer(9);
    assert!(q.is_pending(9));
    // a changed text is handled and stays queued
    assert!(q.take_due(9, true));
    assert!(q.is_pending(9));
    // an unchanged queued text is handled and leaves the queue
    assert!(q.take_due(9, false));
    assert!(!q.is_pending(9));
    assert!(!q.take_due(9, false));
}

#[test]
fn quad_indices() {
    let mut v = vec![7u16];
    push_quad_indices(&mut v, 8);
    assert_eq!(v, vec![7, 8, 9, 10, 8, 10, 11]);
}

#[test]
fn text_mesh_indices_per_glyph() {
    assert_eq!(text_mesh_indices(0), Vec::<u16>::new());
    assert_eq!(text_mesh_indices(2), vec![0, 1, 2, 0, 2, 3, 4, 5, 6, 4, 6, 7]);
    let big = text_mesh_indices(16385);
    assert_eq!(big.len(), 6 * 16385);
    assert_eq!(big[6 * 16383..6 * 16383 + 6], [65532, 65533, 65534, 65532, 65534, 65535]);
    // the 16385th quad wraps around, as the u16 vertex base does
    assert_eq!(big[6 * 16384..], [0, 1, 2, 0, 2, 3]);
}

#[test]
fn plane_indices_two_triangles() {
    assert_eq!(plane_indices(), vec![0, 1, 2, 0, 2, 3]);
}

#[test]
fn loader_handles_sdfb() {
    let loader = SdfFontLoader::default();
    assert_eq!(loader.extensions(), vec!["sdfb"]);
}

#[test]
fn text_error_variants() {
    assert_eq!(MtsdfTextError::GlyphNotFound('x'), MtsdfTextError::GlyphNotFound('x'));
    assert_ne!(MtsdfTextError::GlyphNotFound('x'), MtsdfTextError::NoSuchFont);
}

#[test]
fn stale_texts_agree_with_bevy_ticks() {
    let samples = [0u32, 1, 2, 3, 1000, 3_258_167_295, 3_258_167_296, 3_258_167_297, u32::MAX - 1, u32::MAX];
    for &drawn in &samples {
        for &last in &samples {
            for &this in &samples {
                let bevy_newer = Tick::new(drawn).is_newer_than(Tick::new(last), Tick::new(this));
                assert_eq!(is_stale_text(drawn, last, this), !bevy_newer, "{drawn} {last} {this}");
            }
        }
    }
}

#[test]
fn text_is_ready_only_when_every_section_has_an_atlas() {
    assert!(sections_ready::<u8>(&vec![]));
    assert!(sections_ready(&vec![Some(1), Some(2)]));
    assert!(!sections_ready(&vec![Some(1), None, Some(3)]));
    assert!(!sections_ready::<u8>(&vec![None]));
}
