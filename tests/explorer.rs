use kpageflags::catalog::FlagCategory;
use kpageflags::explorer::{
    cell_symbol, AppState, ExplorerKey, GridArea, KeyAction, PointerEvent, PointerKind,
};
use kpageflags::page::PageInfo;
use kpageflags::text::parse_pfn;

fn grid() -> GridArea {
    GridArea { x: 2, y: 3, width: 60, height: 20 }
}

fn press(state: &mut AppState, kind: PointerKind, column: u16, row: u16) {
    state.handle_mouse_event(PointerEvent { kind, column, row });
}

#[test]
fn selecting_one_cell_leaves_the_view_unchanged() {
    let mut s = AppState::new();
    s.set_grid_area(grid());
    s.zoom_in();
    s.move_down();
    let (z, x, y) = (s.zoom_milli, s.offset_x, s.offset_y);
    press(&mut s, PointerKind::Down, 10, 10);
    press(&mut s, PointerKind::Up, 10, 10);
    assert_eq!((s.zoom_milli, s.offset_x, s.offset_y), (z, x, y));
    assert!(!s.mouse_selecting);
    assert_eq!(s.selection_start, None);
    press(&mut s, PointerKind::Down, 10, 10);
    press(&mut s, PointerKind::Drag, 30, 10);
    press(&mut s, PointerKind::Up, 30, 10);
    assert_eq!((s.zoom_milli, s.offset_x, s.offset_y), (z, x, y));
}

#[test]
fn selecting_a_rectangle_zooms_to_fit_and_centres_it() {
    let mut s = AppState::new();
    s.set_grid_area(grid());
    press(&mut s, PointerKind::Down, 12, 5);
    press(&mut s, PointerKind::Drag, 21, 8);
    assert!(s.is_cell_in_selection(grid(), 15, 3));
    assert!(!s.is_cell_in_selection(grid(), 9, 3));
    press(&mut s, PointerKind::Up, 21, 8);
    // 10 × 4 cells: min(60/10, 20/4) = 5.
    assert_eq!(s.zoom_milli, 5000);
    // Centre (14, 3) at zoom 5: 14/5 - 30 and 3/5 - 10, clamped to 0.
    assert_eq!((s.offset_x, s.offset_y), (0, 0));
    assert!(!s.mouse_selecting);
}

#[test]
fn releasing_outside_the_grid_cancels_the_selection() {
    let mut s = AppState::new();
    s.set_grid_area(grid());
    press(&mut s, PointerKind::Down, 12, 5);
    press(&mut s, PointerKind::Up, 200, 200);
    assert!(!s.mouse_selecting);
    assert_eq!(s.zoom_milli, 1000);
}

#[test]
fn zoom_is_clamped_and_panning_stops_at_the_origin() {
    let mut s = AppState::new();
    for _ in 0..40 {
        s.zoom_in();
    }
    assert_eq!(s.zoom_milli, 10_000);
    assert_eq!(s.pan_step(), 1);
    for _ in 0..40 {
        s.zoom_out();
    }
    assert_eq!(s.zoom_milli, 100);
    assert_eq!(s.pan_step(), 100);
    s.move_left();
    s.move_up();
    assert_eq!((s.offset_x, s.offset_y), (0, 0));
    s.move_right();
    s.move_down();
    assert_eq!((s.offset_x, s.offset_y), (100, 100));
    s.reset_view();
    assert_eq!((s.zoom_milli, s.offset_x, s.offset_y), (1000, 0, 0));
    press(&mut s, PointerKind::ScrollUp, 0, 0);
    assert_eq!(s.zoom_milli, 1000);
    s.set_grid_area(grid());
    press(&mut s, PointerKind::ScrollUp, 5, 5);
    assert_eq!(s.zoom_milli, 1200);
}

#[test]
fn keys_drive_the_explorer() {
    let mut s = AppState::new();
    assert_eq!(s.handle_key(ExplorerKey::Char('q')), KeyAction::Quit);
    assert_eq!(s.handle_key(ExplorerKey::Char('r')), KeyAction::Refresh);
    assert_eq!(s.handle_key(ExplorerKey::Char('h')), KeyAction::Continue);
    assert!(s.show_help);
    s.handle_key(ExplorerKey::Char('s'));
    assert!(!s.show_stats);
    s.handle_key(ExplorerKey::Char('5'));
    assert_eq!(s.filter_category, Some(FlagCategory::IO));
    s.handle_key(ExplorerKey::Char('0'));
    assert_eq!(s.filter_category, None);
    s.handle_key(ExplorerKey::Char('+'));
    assert_eq!(s.zoom_milli, 1200);
    s.handle_key(ExplorerKey::Char('-'));
    assert_eq!(s.zoom_milli, 1000);
    s.handle_key(ExplorerKey::Right);
    assert_eq!(s.offset_x, 10);
    s.handle_key(ExplorerKey::Home);
    assert_eq!(s.offset_x, 0);
}

#[test]
fn filter_and_grid_indexing() {
    let mut s = AppState::new();
    s.start_background_scan(vec![
        PageInfo::new(0, 0x1),
        PageInfo::new(1, 0x20),
        PageInfo::new(2, 0x21),
        PageInfo::new(3, 0),
    ]);
    assert_eq!(s.filtered_pages().len(), 4);
    s.set_filter(Some(FlagCategory::Memory));
    let shown = s.filtered_pages();
    assert_eq!(shown.iter().map(|p| p.pfn).collect::<Vec<_>>(), vec![1, 2]);
    let stats = s.statistics();
    assert_eq!(stats.total_scanned, 2);
    assert_eq!(stats.flag_counts[5], 2);
    assert_eq!(s.cells_per_row(80), 80);
    s.move_right();
    s.move_down();
    assert_eq!(s.grid_index(80, 3, 2), Some(10 * 80 + 10 + 2 * 80 + 3));
    assert_eq!(s.grid_index(usize::MAX, 0, 1), None);
}

#[test]
fn background_load_asks_for_chunks_after_half_way() {
    let mut s = AppState::new();
    s.start_background_scan(vec![PageInfo::new(0, 1)]);
    let mut chunks = Vec::new();
    while s.scanning {
        if let Some(c) = s.update_scan_progress() {
            chunks.push(c);
            s.append_chunk(vec![PageInfo::new(c.0, 1); 20_000]);
        }
    }
    assert_eq!(chunks, vec![(10_000, 10_000), (20_000, 10_000), (30_000, 10_000)]);
    assert_eq!(s.scan_progress, 100);
    assert_eq!(s.total_pages_scanned, 60_001);
    s.refresh_data(vec![]);
    assert_eq!(s.total_pages_scanned, 0);
}

#[test]
fn cell_symbols() {
    assert_eq!(cell_symbol(&PageInfo::new(0, 0)), '.');
    assert_eq!(cell_symbol(&PageInfo::new(0, 0x1)), 'S');
    assert_eq!(cell_symbol(&PageInfo::new(0, 0x3)), '●');
    assert_eq!(cell_symbol(&PageInfo::new(0, 1 << 40)), '?');
}

#[test]
fn pfn_arguments_are_hex_or_decimal() {
    assert_eq!(parse_pfn("0x1f"), Some(31));
    assert_eq!(parse_pfn("0xFFFFFFFFFFFFFFFF"), Some(u64::MAX));
    assert_eq!(parse_pfn("0x10000000000000000"), None);
    assert_eq!(parse_pfn("1234"), Some(1234));
    assert_eq!(parse_pfn("+7"), Some(7));
    assert_eq!(parse_pfn("0x"), None);
    assert_eq!(parse_pfn("12a"), None);
    assert_eq!(parse_pfn(""), None);
}
