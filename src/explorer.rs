//! Data and interaction model of the interactive explorer: a pannable,
//! zoomable grid over the loaded records, a category filter, rectangle
//! selection to zoom, and a progressive background load.
use vstd::prelude::*;
use crate::catalog::FlagCategory;
use crate::page::{PageInfo, category_present, record_categories};
use crate::catalog::{NUM_FLAGS, NUM_CATEGORIES};
use crate::counters::{
    FlagCounters, SAFETY_LIMIT, records_with_any_flag, records_with_flag, category_hits_in,
};

verus! {

/// Zoom is held in thousandths: 1000 is 1.0.
pub const ZOOM_SCALE: u32 = 1000;

pub const MIN_ZOOM: u32 = 100;

pub const MAX_ZOOM: u32 = 10_000;

/// Logical cells moved by one pan step at zoom 1.0.
pub const PAN_CELLS: u32 = 10;

/// Records loaded by one background step.
pub const CHUNK_PAGES: u64 = 10_000;

/// Background steps load more only while fewer records than this are loaded.
pub const BACKGROUND_TARGET: usize = 50_000;

/// Records loaded by a refresh.
pub const REFRESH_PAGES: u64 = 100_000;

/// The screen rectangle the grid is drawn in.
#[derive(Debug, Clone, Copy, PartialEq, Eq, Structural)]
pub struct GridArea {
    pub x: u16,
    pub y: u16,
    pub width: u16,
    pub height: u16,
}

/// Keys the explorer reacts to.
#[derive(Debug, Clone, Copy, PartialEq, Eq, Structural)]
pub enum ExplorerKey {
    Char(char),
    Up,
    Down,
    Left,
    Right,
    Home,
    Esc,
    Other,
}

/// What the event loop does after a key.
#[derive(Debug, Clone, Copy, PartialEq, Eq, Structural)]
pub enum KeyAction {
    Continue,
    Quit,
    Refresh,
}

/// Pointer events; the press, drag and release are of the primary button.
#[derive(Debug, Clone, Copy, PartialEq, Eq, Structural)]
pub enum PointerKind {
    Down,
    Drag,
    Up,
    ScrollUp,
    ScrollDown,
    Other,
}

#[derive(Debug, Clone, Copy, PartialEq, Eq, Structural)]
pub struct PointerEvent {
    pub kind: PointerKind,
    pub column: u16,
    pub row: u16,
}

/// A record passes the filter when there is none, or when one of its
/// matched flags belongs to the filter's category.
pub open spec fn passes_filter(filter: Option<FlagCategory>, p: PageInfo) -> bool {
    match filter {
        None => true,
        Some(c) => category_present(p.flags, c),
    }
}

/// The records among the first `n` of `pages` that pass the filter, in order.
pub open spec fn filtered_upto(pages: Seq<PageInfo>, filter: Option<FlagCategory>, n: int) -> Seq<
    PageInfo,
>
    decreases n,
{
    if n <= 0 {
        Seq::empty()
    } else if passes_filter(filter, pages[n - 1]) {
        filtered_upto(pages, filter, n - 1).push(pages[n - 1])
    } else {
        filtered_upto(pages, filter, n - 1)
    }
}

pub open spec fn spec_zoom_in(z: u32) -> u32 {
    if z * 6 / 5 <= MAX_ZOOM {
        (z * 6 / 5) as u32
    } else {
        MAX_ZOOM
    }
}

pub open spec fn spec_zoom_out(z: u32) -> u32 {
    if z * 5 / 6 >= MIN_ZOOM {
        (z * 5 / 6) as u32
    } else {
        MIN_ZOOM
    }
}

/// Logical cells moved by one pan step at zoom `z`.
pub open spec fn spec_pan_step(z: u32) -> int {
    (PAN_CELLS * ZOOM_SCALE) as int / z as int
}

pub open spec fn step_back(offset: i64, step: int) -> i64 {
    if offset - step >= 0 {
        (offset - step) as i64
    } else {
        0
    }
}

pub open spec fn step_forward(offset: i64, step: int) -> i64 {
    if offset + step <= i64::MAX {
        (offset + step) as i64
    } else {
        i64::MAX
    }
}

pub open spec fn clamp_zoom(z: int) -> u32 {
    if z < MIN_ZOOM {
        MIN_ZOOM
    } else if z > MAX_ZOOM {
        MAX_ZOOM
    } else {
        z as u32
    }
}

pub open spec fn spec_min(a: int, b: int) -> int {
    if a <= b {
        a
    } else {
        b
    }
}

pub open spec fn spec_max(a: int, b: int) -> int {
    if a >= b {
        a
    } else {
        b
    }
}

/// Coordinate relative to the start of the grid, 0 left of it.
pub open spec fn rel(p: u16, origin: u16) -> int {
    if p >= origin {
        p - origin
    } else {
        0
    }
}

/// The selection rectangle in grid cells: (min_x, max_x, min_y, max_y).
pub open spec fn selection_box(area: GridArea, start: (u16, u16), end: (u16, u16)) -> (
    int,
    int,
    int,
    int,
) {
    (
        spec_min(rel(start.0, area.x), rel(end.0, area.x)),
        spec_max(rel(start.0, area.x), rel(end.0, area.x)),
        spec_min(rel(start.1, area.y), rel(end.1, area.y)),
        spec_max(rel(start.1, area.y), rel(end.1, area.y)),
    )
}

/// Zoom that fits a `sel_w` × `sel_h` selection to the grid, clamped.
pub open spec fn fit_zoom(area: GridArea, sel_w: int, sel_h: int) -> u32 {
    clamp_zoom(
        spec_min(
            area.width * ZOOM_SCALE as int / sel_w,
            area.height * ZOOM_SCALE as int / sel_h,
        ),
    )
}

/// Offset that puts the selection's centre `center` at the middle of a grid `extent` wide.
pub open spec fn centred_offset(center: int, zoom: u32, extent: u16) -> i64 {
    spec_max(center * ZOOM_SCALE as int / zoom as int - extent / 2, 0) as i64
}

/// Logical cells per grid row of `width` screen cells at zoom `z`, at least one.
pub open spec fn spec_cells_per_row(width: u16, z: u32) -> int {
    spec_max(width * z as int / ZOOM_SCALE as int, 1)
}

/// State of the explorer.
pub struct AppState {
    pub pages: Vec<PageInfo>,
    pub zoom_milli: u32,
    pub offset_x: i64,
    pub offset_y: i64,
    pub grid_width: usize,
    pub grid_height: usize,
    pub selected_page: Option<usize>,
    pub show_help: bool,
    pub show_stats: bool,
    pub filter_category: Option<FlagCategory>,
    pub total_pages_scanned: usize,
    pub scanning: bool,
    /// Progress of the background load, in percent.
    pub scan_progress: u32,
    pub next_chunk_pfn: u64,
    pub mouse_selecting: bool,
    pub selection_start: Option<(u16, u16)>,
    pub selection_end: Option<(u16, u16)>,
    pub grid_area: Option<GridArea>,
}

impl AppState {
    pub open spec fn wf(&self) -> bool {
        &&& MIN_ZOOM <= self.zoom_milli <= MAX_ZOOM
        &&& self.offset_x >= 0
        &&& self.offset_y >= 0
        &&& self.scan_progress <= 100
    }

    pub open spec fn spec_with_zoom(self, z: u32) -> AppState {
        AppState { zoom_milli: z, ..self }
    }

    pub open spec fn spec_cancel_selection(self) -> AppState {
        AppState { mouse_selecting: false, selection_start: None, selection_end: None, ..self }
    }

    /// The state after the selection was applied: zoom to fit and centre it,
    /// unless it is one cell wide or high, or there is nothing to apply.
    pub open spec fn spec_zoom_to_selection(self) -> AppState {
        match (self.selection_start, self.selection_end, self.grid_area) {
            (Some(start), Some(end), Some(area)) => {
                let (min_x, max_x, min_y, max_y) = selection_box(area, start, end);
                let sel_w = max_x - min_x + 1;
                let sel_h = max_y - min_y + 1;
                if sel_w > 1 && sel_h > 1 {
                    let z = fit_zoom(area, sel_w, sel_h);
                    AppState {
                        zoom_milli: z,
                        offset_x: centred_offset((min_x + max_x) / 2, z, area.width),
                        offset_y: centred_offset((min_y + max_y) / 2, z, area.height),
                        ..self
                    }
                } else {
                    self
                }
            },
            _ => self,
        }
    }

    pub open spec fn in_grid(self, column: u16, row: u16) -> bool {
        match self.grid_area {
            Some(a) => a.x <= column < a.x + a.width && a.y <= row < a.y + a.height,
            None => false,
        }
    }

    /// The explorer at start: zoom 1.0, origin, no filter, nothing loaded.
    pub fn new() -> (s: AppState)
        ensures
            s.wf(),
            s.pages@.len() == 0,
            s.zoom_milli == ZOOM_SCALE,
            s.offset_x == 0,
            s.offset_y == 0,
            s.filter_category is None,
            !s.show_help,
            s.show_stats,
            !s.scanning,
            s.scan_progress == 0,
            !s.mouse_selecting,
            s.selection_start is None,
            s.selection_end is None,
            s.grid_area is None,
    {
        AppState {
            pages: Vec::new(),
            zoom_milli: ZOOM_SCALE,
            offset_x: 0,
            offset_y: 0,
            grid_width: 80,
            grid_height: 24,
            selected_page: None,
            show_help: false,
            show_stats: true,
            filter_category: None,
            total_pages_scanned: 0,
            scanning: false,
            scan_progress: 0,
            next_chunk_pfn: 0,
            mouse_selecting: false,
            selection_start: None,
            selection_end: None,
            grid_area: None,
        }
    }

    pub fn zoom_in(&mut self)
        requires
            old(self).wf(),
        ensures
            final(self).wf(),
            *final(self) == old(self).spec_with_zoom(spec_zoom_in(old(self).zoom_milli)),
    {
        let z = self.zoom_milli * 6 / 5;
        self.zoom_milli = if z <= MAX_ZOOM { z } else { MAX_ZOOM };
    }

    pub fn zoom_out(&mut self)
        requires
            old(self).wf(),
        ensures
            final(self).wf(),
            *final(self) == old(self).spec_with_zoom(spec_zoom_out(old(self).zoom_milli)),
    {
        let z = self.zoom_milli * 5 / 6;
        self.zoom_milli = if z >= MIN_ZOOM { z } else { MIN_ZOOM };
    }

    /// Logical cells moved by one pan step at the current zoom.
    pub fn pan_step(&self) -> (step: i64)
        requires
            self.wf(),
        ensures
            step == spec_pan_step(self.zoom_milli),
            1 <= step <= 100,
    {
        let z = self.zoom_milli;
        assert(1 <= 10000u32 / z <= 100) by (nonlinear_arith)
            requires
                100 <= z <= 10000,
        ;
        ((PAN_CELLS * ZOOM_SCALE) / z) as i64
    }

    pub fn move_up(&mut self)
        requires
            old(self).wf(),
        ensures
            final(self).wf(),
            *final(self) == (AppState {
                offset_y: step_back(old(self).offset_y, spec_pan_step(old(self).zoom_milli)),
                ..*old(self)
            }),
    {
        let step = self.pan_step();
        self.offset_y = if self.offset_y >= step { self.offset_y - step } else { 0 };
    }

    pub fn move_down(&mut self)
        requires
            old(self).wf(),
        ensures
            final(self).wf(),
            *final(self) == (AppState {
                offset_y: step_forward(old(self).offset_y, spec_pan_step(old(self).zoom_milli)),
                ..*old(self)
            }),
    {
        let step = self.pan_step();
        self.offset_y = if self.offset_y <= i64::MAX - step { self.offset_y + step } else { i64::MAX };
    }

    pub fn move_left(&mut self)
        requires
            old(self).wf(),
        ensures
            final(self).wf(),
            *final(self) == (AppState {
                offset_x: step_back(old(self).offset_x, spec_pan_step(old(self).zoom_milli)),
                ..*old(self)
            }),
    {
        let step = self.pan_step();
        self.offset_x = if self.offset_x >= step { self.offset_x - step } else { 0 };
    }

    pub fn move_right(&mut self)
        requires
            old(self).wf(),
        ensures
            final(self).wf(),
            *final(self) == (AppState {
                offset_x: step_forward(old(self).offset_x, spec_pan_step(old(self).zoom_milli)),
                ..*old(self)
            }),
    {
        let step = self.pan_step();
        self.offset_x = if self.offset_x <= i64::MAX - step { self.offset_x + step } else { i64::MAX };
    }

    pub fn set_filter(&mut self, category: Option<FlagCategory>)
        ensures
            *final(self) == (AppState { filter_category: category, ..*old(self) }),
    {
        self.filter_category = category;
    }

    /// Back to zoom 1.0 at the origin.
    pub fn reset_view(&mut self)
        ensures
            *final(self) == (AppState { zoom_milli: ZOOM_SCALE, offset_x: 0, offset_y: 0, ..*old(self) }),
    {
        self.zoom_milli = ZOOM_SCALE;
        self.offset_x = 0;
        self.offset_y = 0;
    }

    pub fn cancel_selection(&mut self)
        ensures
            *final(self) == old(self).spec_cancel_selection(),
    {
        self.mouse_selecting = false;
        self.selection_start = None;
        self.selection_end = None;
    }

    /// Records where the grid was last drawn, for pointer hit-testing.
    pub fn set_grid_area(&mut self, area: GridArea)
        ensures
            *final(self) == (AppState { grid_area: Some(area), ..*old(self) }),
    {
        self.grid_area = Some(area);
    }

    /// Reacts to a key and says whether the loop goes on, quits or must refresh.
    pub fn handle_key(&mut self, key: ExplorerKey) -> (action: KeyAction)
        requires
            old(self).wf(),
        ensures
            final(self).wf(),
            action == match key {
                ExplorerKey::Char('q') => KeyAction::Quit,
                ExplorerKey::Char('r') => KeyAction::Refresh,
                _ => KeyAction::Continue,
            },
            key == ExplorerKey::Char('h') ==> *final(self) == (AppState {
                show_help: !old(self).show_help,
                ..*old(self)
            }),
            key == ExplorerKey::Char('s') ==> *final(self) == (AppState {
                show_stats: !old(self).show_stats,
                ..*old(self)
            }),
            (key == ExplorerKey::Char('+') || key == ExplorerKey::Char('=')) ==> *final(self)
                == old(self).spec_with_zoom(spec_zoom_in(old(self).zoom_milli)),
            key == ExplorerKey::Char('-') ==> *final(self) == old(self).spec_with_zoom(
                spec_zoom_out(old(self).zoom_milli),
            ),
            key == ExplorerKey::Char('0') ==> *final(self) == (AppState {
                filter_category: None,
                ..*old(self)
            }),
            key == ExplorerKey::Char('1') ==> *final(self) == (AppState {
                filter_category: Some(FlagCategory::State),
                ..*old(self)
            }),
            key == ExplorerKey::Char('2') ==> *final(self) == (AppState {
                filter_category: Some(FlagCategory::Memory),
                ..*old(self)
            }),
            key == ExplorerKey::Char('3') ==> *final(self) == (AppState {
                filter_category: Some(FlagCategory::Usage),
                ..*old(self)
            }),
            key == ExplorerKey::Char('4') ==> *final(self) == (AppState {
                filter_category: Some(FlagCategory::Allocation),
                ..*old(self)
            }),
            key == ExplorerKey::Char('5') ==> *final(self) == (AppState {
                filter_category: Some(FlagCategory::IO),
                ..*old(self)
            }),
            key == ExplorerKey::Char('6') ==> *final(self) == (AppState {
                filter_category: Some(FlagCategory::Structure),
                ..*old(self)
            }),
            key == ExplorerKey::Char('7') ==> *final(self) == (AppState {
                filter_category: Some(FlagCategory::Special),
                ..*old(self)
            }),
            key == ExplorerKey::Char('8') ==> *final(self) == (AppState {
                filter_category: Some(FlagCategory::Error),
                ..*old(self)
            }),
            key == ExplorerKey::Up ==> *final(self) == (AppState {
                offset_y: step_back(old(self).offset_y, spec_pan_step(old(self).zoom_milli)),
                ..*old(self)
            }),
            key == ExplorerKey::Down ==> *final(self) == (AppState {
                offset_y: step_forward(old(self).offset_y, spec_pan_step(old(self).zoom_milli)),
                ..*old(self)
            }),
            key == ExplorerKey::Left ==> *final(self) == (AppState {
                offset_x: step_back(old(self).offset_x, spec_pan_step(old(self).zoom_milli)),
                ..*old(self)
            }),
            key == ExplorerKey::Right ==> *final(self) == (AppState {
                offset_x: step_forward(old(self).offset_x, spec_pan_step(old(self).zoom_milli)),
                ..*old(self)
            }),
            key == ExplorerKey::Home ==> *final(self) == (AppState {
                zoom_milli: ZOOM_SCALE,
                offset_x: 0,
                offset_y: 0,
                ..*old(self)
            }),
            key == ExplorerKey::Esc ==> *final(self) == old(self).spec_cancel_selection(),
            (key == ExplorerKey::Other || key == ExplorerKey::Char('q') || key
                == ExplorerKey::Char('r')) ==> *final(self) == *old(self),
    {
        match key {
            ExplorerKey::Char('q') => {
                return KeyAction::Quit;
            },
            ExplorerKey::Char('r') => {
                return KeyAction::Refresh;
            },
            ExplorerKey::Char('h') => {
                self.show_help = !self.show_help;
            },
            ExplorerKey::Char('s') => {
                self.show_stats = !self.show_stats;
            },
            ExplorerKey::Char('+') | ExplorerKey::Char('=') => self.zoom_in(),
            ExplorerKey::Char('-') => self.zoom_out(),
            ExplorerKey::Up => self.move_up(),
            ExplorerKey::Down => self.move_down(),
            ExplorerKey::Left => self.move_left(),
            ExplorerKey::Right => self.move_right(),
            ExplorerKey::Char('1') => self.set_filter(Some(FlagCategory::State)),
            ExplorerKey::Char('2') => self.set_filter(Some(FlagCategory::Memory)),
            ExplorerKey::Char('3') => self.set_filter(Some(FlagCategory::Usage)),
            ExplorerKey::Char('4') => self.set_filter(Some(FlagCategory::Allocation)),
            ExplorerKey::Char('5') => self.set_filter(Some(FlagCategory::IO)),
            ExplorerKey::Char('6') => self.set_filter(Some(FlagCategory::Structure)),
            ExplorerKey::Char('7') => self.set_filter(Some(FlagCategory::Special)),
            ExplorerKey::Char('8') => self.set_filter(Some(FlagCategory::Error)),
            ExplorerKey::Char('0') => self.set_filter(None),
            ExplorerKey::Home => self.reset_view(),
            ExplorerKey::Esc => self.cancel_selection(),
            _ => {},
        }
        KeyAction::Continue
    }

    /// Applies the current selection: fits it to the grid and centres it.
    pub fn zoom_to_selection(&mut self)
        requires
            old(self).wf(),
        ensures
            final(self).wf(),
            *final(self) == old(self).spec_zoom_to_selection(),
    {
        if let (Some(start), Some(end), Some(area)) = (
            self.selection_start,
            self.selection_end,
            self.grid_area,
        ) {
            let (min_x, max_x, min_y, max_y) = selection_bounds(area, start, end);
            let sel_w = max_x - min_x + 1;
            let sel_h = max_y - min_y + 1;
            if sel_w > 1 && sel_h > 1 {
                let z = fitting_zoom(area, sel_w, sel_h);
                self.zoom_milli = z;
                self.offset_x = centring_offset((min_x + max_x) / 2, z, area.width);
                self.offset_y = centring_offset((min_y + max_y) / 2, z, area.height);
            }
        }
    }

    /// Reacts to a pointer event. Inside the grid a press starts a selection,
    /// a drag extends it, a release applies and ends it, and scrolling zooms.
    /// A release outside the grid ends a selection without applying it; other
    /// events outside the grid are ignored.
    pub fn handle_mouse_event(&mut self, ev: PointerEvent)
        requires
            old(self).wf(),
        ensures
            final(self).wf(),
            !old(self).in_grid(ev.column, ev.row) ==> *final(self) == if ev.kind == PointerKind::Up
                && old(self).mouse_selecting {
                old(self).spec_cancel_selection()
            } else {
                *old(self)
            },
            old(self).in_grid(ev.column, ev.row) ==> *final(self) == match ev.kind {
                PointerKind::Down => AppState {
                    mouse_selecting: true,
                    selection_start: Some((ev.column, ev.row)),
                    selection_end: Some((ev.column, ev.row)),
                    ..*old(self)
                },
                PointerKind::Drag => if old(self).mouse_selecting {
                    AppState { selection_end: Some((ev.column, ev.row)), ..*old(self) }
                } else {
                    *old(self)
                },
                PointerKind::Up => if old(self).mouse_selecting {
                    (AppState {
                        selection_end: Some((ev.column, ev.row)),
                        ..*old(self)
                    }).spec_zoom_to_selection().spec_cancel_selection()
                } else {
                    *old(self)
                },
                PointerKind::ScrollUp => old(self).spec_with_zoom(spec_zoom_in(old(self).zoom_milli)),
                PointerKind::ScrollDown => old(self).spec_with_zoom(
                    spec_zoom_out(old(self).zoom_milli),
                ),
                PointerKind::Other => *old(self),
            },
    {
        let inside = match self.grid_area {
            Some(a) => ev.column >= a.x && (ev.column as u32) < a.x as u32 + a.width as u32
                && ev.row >= a.y && (ev.row as u32) < a.y as u32 + a.height as u32,
            None => false,
        };
        if !inside {
            if ev.kind == PointerKind::Up && self.mouse_selecting {
                self.cancel_selection();
            }
            return;
        }
        match ev.kind {
            PointerKind::Down => {
                self.mouse_selecting = true;
                self.selection_start = Some((ev.column, ev.row));
                self.selection_end = Some((ev.column, ev.row));
            },
            PointerKind::Drag => {
                if self.mouse_selecting {
                    self.selection_end = Some((ev.column, ev.row));
                }
            },
            PointerKind::Up => {
                if self.mouse_selecting {
                    self.selection_end = Some((ev.column, ev.row));
                    self.zoom_to_selection();
                    self.cancel_selection();
                }
            },
            PointerKind::ScrollUp => self.zoom_in(),
            PointerKind::ScrollDown => self.zoom_out(),
            PointerKind::Other => {},
        }
    }

    /// The grid cell at `col`, `row` lies in the current selection.
    pub fn is_cell_in_selection(&self, area: GridArea, col: u16, row: u16) -> (inside: bool)
        ensures
            inside == match (self.selection_start, self.selection_end) {
                (Some(start), Some(end)) => {
                    let (min_x, max_x, min_y, max_y) = selection_box(area, start, end);
                    min_x <= col <= max_x && min_y <= row <= max_y
                },
                _ => false,
            },
    {
        if let (Some(start), Some(end)) = (self.selection_start, self.selection_end) {
            let sx = start.0.saturating_sub(area.x);
            let sy = start.1.saturating_sub(area.y);
            let ex = end.0.saturating_sub(area.x);
            let ey = end.1.saturating_sub(area.y);
            let min_x = if sx <= ex { sx } else { ex };
            let max_x = if sx >= ex { sx } else { ex };
            let min_y = if sy <= ey { sy } else { ey };
            let max_y = if sy >= ey { sy } else { ey };
            col >= min_x && col <= max_x && row >= min_y && row <= max_y
        } else {
            false
        }
    }

    /// Logical cells per grid row of `width` screen cells at the current zoom.
    pub fn cells_per_row(&self, width: u16) -> (n: usize)
        requires
            self.wf(),
        ensures
            n == spec_cells_per_row(width, self.zoom_milli),
    {
        let w = width as u64;
        let z = self.zoom_milli as u64;
        assert(w * z <= 65535 * 10000 && w * z / 1000 <= 655350) by (nonlinear_arith)
            requires
                w <= 65535,
                z <= 10000,
        ;
        let n = (w * z / ZOOM_SCALE as u64) as usize;
        if n >= 1 { n } else { 1 }
    }

    /// Index into the filtered records of the cell at `col`, `row` when rows
    /// hold `per_row` logical cells; `None` when it lies beyond any index.
    pub fn grid_index(&self, per_row: usize, col: usize, row: usize) -> (idx: Option<usize>)
        requires
            self.wf(),
        ensures
            ({
                let i = self.offset_y * per_row + self.offset_x + row * per_row + col;
                &&& i <= usize::MAX ==> idx == Some(i as usize)
                &&& i > usize::MAX ==> idx is None
            }),
    {
        let oy = self.offset_y as u128;
        let ox = self.offset_x as u128;
        let pr = per_row as u128;
        assert(oy * pr <= 0x8000_0000_0000_0000u128 * 0x1_0000_0000_0000_0000u128) by (nonlinear_arith)
            requires
                oy < 0x8000_0000_0000_0000u128,
                pr < 0x1_0000_0000_0000_0000u128,
        ;
        let a = oy * pr;
        if a > usize::MAX as u128 {
            return None;
        }
        assert(row as u128 * pr <= 0xFFFF_FFFF_FFFF_FFFFu128 * 0xFFFF_FFFF_FFFF_FFFFu128) by (nonlinear_arith)
            requires
                row <= 0xFFFF_FFFF_FFFF_FFFFu128,
                pr <= 0xFFFF_FFFF_FFFF_FFFFu128,
        ;
        let b = row as u128 * pr;
        if b > usize::MAX as u128 {
            return None;
        }
        let i = a + ox + b + col as u128;
        if i <= usize::MAX as u128 {
            Some(i as usize)
        } else {
            None
        }
    }

    /// The loaded records that pass the category filter, in order.
    pub fn filtered_pages(&self) -> (v: Vec<PageInfo>)
        ensures
            v@ == filtered_upto(self.pages@, self.filter_category, self.pages@.len() as int),
    {
        let mut v: Vec<PageInfo> = Vec::new();
        let mut i: usize = 0;
        while i < self.pages.len()
            invariant
                i <= self.pages@.len(),
                v@ == filtered_upto(self.pages@, self.filter_category, i as int),
            decreases self.pages@.len() - i,
        {
            let p = self.pages[i];
            let keep = match self.filter_category {
                None => true,
                Some(c) => p.has_category(c),
            };
            if keep {
                v.push(p);
            }
            i = i + 1;
        }
        v
    }

    /// Flag and category counts over the records that pass the filter.
    pub fn statistics(&self) -> (c: FlagCounters)
        requires
            self.pages@.len() <= SAFETY_LIMIT,
        ensures
            c.wf(),
            ({
                let shown = filtered_upto(self.pages@, self.filter_category, self.pages@.len() as int);
                &&& c.total_scanned == shown.len()
                &&& c.total_with_any_flag == records_with_any_flag(shown, shown.len() as int)
                &&& forall|i: int|
                    0 <= i < NUM_FLAGS ==> #[trigger] c.flag_counts@[i] == records_with_flag(
                        shown,
                        i,
                        shown.len() as int,
                    )
                &&& forall|k: int|
                    0 <= k < NUM_CATEGORIES ==> #[trigger] c.category_counts@[k] == category_hits_in(
                        shown,
                        k,
                        shown.len() as int,
                    )
            }),
    {
        let shown = self.filtered_pages();
        proof {
            lemma_filtered_len(self.pages@, self.filter_category, self.pages@.len() as int);
        }
        let mut c = FlagCounters::new();
        c.observe_all(&shown);
        c
    }

    /// Starts a background load with the first chunk of records.
    pub fn start_background_scan(&mut self, initial: Vec<PageInfo>)
        ensures
            final(self).pages@ == initial@,
            final(self).total_pages_scanned == initial@.len(),
            final(self).scanning,
            final(self).scan_progress == 1,
            final(self).next_chunk_pfn == CHUNK_PAGES,
            final(self).zoom_milli == old(self).zoom_milli,
            final(self).offset_x == old(self).offset_x,
            final(self).offset_y == old(self).offset_y,
    {
        self.pages = initial;
        self.total_pages_scanned = self.pages.len();
        self.scanning = true;
        self.scan_progress = 1;
        self.next_chunk_pfn = CHUNK_PAGES;
    }

    /// Advances the background load by one tick. Returns the chunk to load
    /// next, as (first PFN, count), when one is due; the caller loads it and
    /// hands it to `append_chunk`.
    pub fn update_scan_progress(&mut self) -> (chunk: Option<(u64, u64)>)
        requires
            old(self).wf(),
        ensures
            final(self).wf(),
            final(self).pages@ == old(self).pages@,
            !old(self).scanning ==> chunk is None && final(self).scan_progress == old(self).scan_progress && !final(self).scanning,
            old(self).scanning && old(self).scan_progress >= 100 ==> chunk is None && !final(self).scanning,
            old(self).scanning && old(self).scan_progress < 100 ==> {
                &&& final(self).scanning
                &&& final(self).scan_progress == old(self).scan_progress + 1
                &&& chunk == if final(self).scan_progress > 50 && old(self).pages@.len()
                    < BACKGROUND_TARGET && old(self).next_chunk_pfn <= u64::MAX - CHUNK_PAGES {
                    Some((old(self).next_chunk_pfn, CHUNK_PAGES))
                } else {
                    None
                }
            },
            chunk is Some ==> final(self).next_chunk_pfn == old(self).next_chunk_pfn + CHUNK_PAGES,
            chunk is None ==> final(self).next_chunk_pfn == old(self).next_chunk_pfn,
    {
        if !self.scanning {
            return None;
        }
        if self.scan_progress < 100 {
            self.scan_progress = self.scan_progress + 1;
            if self.scan_progress > 50 && self.pages.len() < BACKGROUND_TARGET
                && self.next_chunk_pfn <= u64::MAX - CHUNK_PAGES {
                let start = self.next_chunk_pfn;
                self.next_chunk_pfn = start + CHUNK_PAGES;
                return Some((start, CHUNK_PAGES));
            }
            None
        } else {
            self.scanning = false;
            None
        }
    }

    /// Appends a loaded chunk to the records.
    pub fn append_chunk(&mut self, chunk: Vec<PageInfo>)
        ensures
            final(self).pages@ == old(self).pages@ + chunk@,
            final(self).total_pages_scanned == final(self).pages@.len(),
            final(self).scanning == old(self).scanning,
            final(self).scan_progress == old(self).scan_progress,
    {
        let mut chunk = chunk;
        self.pages.append(&mut chunk);
        self.total_pages_scanned = self.pages.len();
    }

    /// Replaces the records by a fresh load, which ends any background load.
    pub fn refresh_data(&mut self, fresh: Vec<PageInfo>)
        ensures
            final(self).pages@ == fresh@,
            final(self).total_pages_scanned == fresh@.len(),
            !final(self).scanning,
            final(self).scan_progress == 100,
    {
        self.pages = fresh;
        self.total_pages_scanned = self.pages.len();
        self.scanning = false;
        self.scan_progress = 100;
    }
}

fn selection_bounds(area: GridArea, start: (u16, u16), end: (u16, u16)) -> (b: (i64, i64, i64, i64))
    ensures
        b.0 == selection_box(area, start, end).0,
        b.1 == selection_box(area, start, end).1,
        b.2 == selection_box(area, start, end).2,
        b.3 == selection_box(area, start, end).3,
        0 <= b.0 <= b.1 <= 65535,
        0 <= b.2 <= b.3 <= 65535,
{
    let sx = start.0.saturating_sub(area.x);
    let sy = start.1.saturating_sub(area.y);
    let ex = end.0.saturating_sub(area.x);
    let ey = end.1.saturating_sub(area.y);
    let min_x: i64 = if sx <= ex { sx as i64 } else { ex as i64 };
    let max_x: i64 = if sx >= ex { sx as i64 } else { ex as i64 };
    let min_y: i64 = if sy <= ey { sy as i64 } else { ey as i64 };
    let max_y: i64 = if sy >= ey { sy as i64 } else { ey as i64 };
    (min_x, max_x, min_y, max_y)
}

fn fitting_zoom(area: GridArea, sel_w: i64, sel_h: i64) -> (z: u32)
    requires
        1 < sel_w <= 65536,
        1 < sel_h <= 65536,
    ensures
        z == fit_zoom(area, sel_w as int, sel_h as int),
        MIN_ZOOM <= z <= MAX_ZOOM,
{
    let zx = area.width as i64 * ZOOM_SCALE as i64 / sel_w;
    let zy = area.height as i64 * ZOOM_SCALE as i64 / sel_h;
    let fit = if zx <= zy { zx } else { zy };
    if fit < MIN_ZOOM as i64 {
        MIN_ZOOM
    } else if fit > MAX_ZOOM as i64 {
        MAX_ZOOM
    } else {
        fit as u32
    }
}

fn centring_offset(center: i64, zoom: u32, extent: u16) -> (o: i64)
    requires
        0 <= center <= 65535,
        MIN_ZOOM <= zoom <= MAX_ZOOM,
    ensures
        o == centred_offset(center as int, zoom, extent),
        o >= 0,
{
    assert(center as int * 1000 / (zoom as int) <= 655350) by (nonlinear_arith)
        requires
            0 <= center <= 65535,
            100 <= zoom,
    ;
    let o = center * ZOOM_SCALE as i64 / zoom as i64 - extent as i64 / 2;
    if o >= 0 { o } else { 0 }
}

impl Default for AppState {
    fn default() -> (s: AppState)
        ensures
            s.wf(),
            s.pages@.len() == 0,
            s.zoom_milli == ZOOM_SCALE,
            s.offset_x == 0,
            s.offset_y == 0,
            s.filter_category is None,
            !s.scanning,
            !s.mouse_selecting,
            s.grid_area is None,
    {
        AppState::new()
    }
}

proof fn lemma_filtered_len(pages: Seq<PageInfo>, filter: Option<FlagCategory>, n: int)
    requires
        0 <= n,
    ensures
        filtered_upto(pages, filter, n).len() <= n,
    decreases n,
{
    if n > 0 {
        lemma_filtered_len(pages, filter, n - 1);
    }
}

/// Grid symbol of a record: '.' with no flag set, its category's letter
/// when its flags fall in one category, '●' for several, '?' when only
/// unknown bits are set.
pub fn cell_symbol(page: &PageInfo) -> (c: char)
    ensures
        page.flags == 0 ==> c == '.',
        page.flags != 0 && record_categories(page.flags).len() == 1 ==> c
            == crate::catalog::spec_category_symbol(record_categories(page.flags)[0]),
        page.flags != 0 && record_categories(page.flags).len() > 1 ==> c == '●',
        page.flags != 0 && record_categories(page.flags).len() == 0 ==> c == '?',
{
    if page.flags == 0 {
        return '.';
    }
    let cats = page.get_flag_categories();
    if cats.len() == 1 {
        crate::catalog::category_symbol(cats[0])
    } else if cats.len() > 1 {
        '●'
    } else {
        '?'
    }
}

} // verus!
