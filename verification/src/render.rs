//! The render projector: walks the synchronized grid snapshot in
//! display order and emits paint primitives.
//!
//! Coordinates are in whole pixels relative to the widget origin; the
//! painter adds the widget offset, centers glyphs inside their cell
//! and strokes the hyperlink underline at 15% of the cell height.

use vstd::prelude::*;
use crate::types::Point;
use crate::mode::MODE_APP_CURSOR;
use crate::theme::{
    Rgb, Color, NamedColor, TerminalTheme, spec_get_color, spec_palette_wf, ColorPalette,
};
use crate::snapshot::{
    GridSnapshot, RenderableContent, lemma_vis_index, lemma_vis_row_mul,
};

verus! {

/// A resolved color together with the dim attribute; the painter
/// applies the 70%-opacity dim adjustment, which lives in its color
/// space.
#[derive(Clone, Copy, Debug, PartialEq, Eq, Structural)]
pub struct PaintColor {
    pub rgb: Rgb,
    pub dim: bool,
}

/// One paint primitive, in display order.
#[derive(Clone, Copy, Debug, PartialEq, Eq, Structural)]
pub enum RenderShape {
    /// The whole widget filled with the global background.
    Backdrop { color: Rgb },
    /// A cell background that differs from the global background,
    /// one pixel wider and taller to close the grid seams.
    Rect { x: u32, y: u32, width: u32, height: u32, color: PaintColor },
    /// The underline beneath a hovered hyperlink cell, to be stroked
    /// at 15% of `cell_height`.
    Underline { x: u32, y: u32, width: u32, cell_height: u16, color: PaintColor },
    /// The full-cell cursor highlight.
    Cursor { x: u32, y: u32, width: u32, height: u32, color: Rgb },
    /// A glyph at its cell origin, to be centered over `width`.
    Glyph { x: u32, y: u32, width: u32, c: char, color: PaintColor },
}

/// A color resolved under a well-formed palette.
pub open spec fn spec_resolve(palette: ColorPalette, c: Color) -> Rgb {
    match spec_get_color(palette, c) {
        Ok(rgb) => rgb,
        Err(_) => Rgb { r: 0, g: 0, b: 0 },
    }
}

/// The global background every frame starts from.
pub open spec fn spec_global_bg(palette: ColorPalette) -> Rgb {
    spec_resolve(palette, Color::Named(NamedColor::Background))
}

/// The paint primitives one visible cell contributes.
///
/// Wide-character spacers are skipped entirely.  The foreground
/// carries the dim flag; inverse cells and selected cells swap
/// foreground and background; a background equal to the global one is
/// not painted; a hovered hyperlink cell is underlined when the
/// pointer is inside the span; the cursor cell gets a full-cell
/// highlight in the cursor's foreground color; spaces and tabs draw
/// no glyph, and at the cursor cell in application-cursor mode the
/// glyph uses the swapped color.
pub open spec fn spec_cell_shapes(
    content: RenderableContent,
    palette: ColorPalette,
    mouse_position: Point,
    k: int,
) -> Seq<RenderShape> {
    let g = content.grid;
    let p = g.spec_visible_point(k);
    let cell = g.spec_visible_cell(k);
    if cell.wide_spacer {
        Seq::empty()
    } else {
        let cw = content.terminal_size.cell_width as int;
        let ch = content.terminal_size.cell_height as int;
        let row = k / (g.columns as int);
        let col = k % (g.columns as int);
        let x = (cw * col) as u32;
        let y = (ch * row) as u32;
        let width = (if cell.wide {
            2 * cw
        } else {
            cw
        }) as u32;
        let fg0 = PaintColor { rgb: spec_resolve(palette, cell.fg), dim: cell.dim };
        let bg0 = PaintColor { rgb: spec_resolve(palette, cell.bg), dim: false };
        let selected = match content.selectable_range {
            Some(range) => range.spec_contains(p),
            None => false,
        };
        let swap = cell.inverse || selected;
        let fg = if swap {
            bg0
        } else {
            fg0
        };
        let bg = if swap {
            fg0
        } else {
            bg0
        };
        let global = PaintColor { rgb: spec_global_bg(palette), dim: false };
        let hovered = match content.hovered_hyperlink {
            Some(link) => link.spec_contains(p) && link.spec_contains(mouse_position),
            None => false,
        };
        let at_cursor = content.cursor_point == p;
        let glyph_color = if at_cursor && content.terminal_mode.spec_contains(MODE_APP_CURSOR) {
            bg
        } else {
            fg
        };
        (if bg != global {
            seq![
                RenderShape::Rect {
                    x,
                    y,
                    width: (width + 1) as u32,
                    height: (ch + 1) as u32,
                    color: bg,
                },
            ]
        } else {
            Seq::<RenderShape>::empty()
        }) + (if hovered {
            seq![
                RenderShape::Underline {
                    x,
                    y: (y + ch) as u32,
                    width,
                    cell_height: content.terminal_size.cell_height,
                    color: fg,
                },
            ]
        } else {
            Seq::<RenderShape>::empty()
        }) + (if at_cursor {
            seq![
                RenderShape::Cursor {
                    x,
                    y,
                    width,
                    height: ch as u32,
                    color: spec_resolve(palette, content.cursor.fg),
                },
            ]
        } else {
            Seq::<RenderShape>::empty()
        }) + (if cell.c != ' ' && cell.c != '\t' {
            seq![RenderShape::Glyph { x, y, width, c: cell.c, color: glyph_color }]
        } else {
            Seq::<RenderShape>::empty()
        })
    }
}

/// The frame's primitives up to the `k`-th visible cell: the backdrop
/// first, then each cell's contribution in display order.
pub open spec fn spec_project_prefix(
    content: RenderableContent,
    palette: ColorPalette,
    mouse_position: Point,
    k: int,
) -> Seq<RenderShape>
    decreases k,
{
    if k <= 0 {
        seq![RenderShape::Backdrop { color: spec_global_bg(palette) }]
    } else {
        spec_project_prefix(content, palette, mouse_position, k - 1) + spec_cell_shapes(
            content,
            palette,
            mouse_position,
            k - 1,
        )
    }
}

/// Every paint primitive of one frame.
pub open spec fn spec_project(
    content: RenderableContent,
    palette: ColorPalette,
    mouse_position: Point,
) -> Seq<RenderShape> {
    spec_project_prefix(content, palette, mouse_position, content.grid.spec_visible_len())
}

fn resolve(theme: &TerminalTheme, c: Color) -> (r: Rgb)
    requires
        spec_palette_wf(*theme.palette),
    ensures
        r == spec_resolve(*theme.palette, c),
{
    match theme.get_color(c) {
        Ok(rgb) => rgb,
        Err(_) => vstd::pervasive::unreached(),
    }
}

/// Project the snapshot into paint primitives.
///
/// The theme must be well formed: a malformed palette entry is a
/// configuration error the caller fails fast on, checked up front
/// with `palette_ok`.
#[verifier::rlimit(100)]
pub fn project(
    content: &RenderableContent,
    theme: &TerminalTheme,
    mouse_position: Point,
) -> (r: Vec<RenderShape>)
    requires
        content.wf(),
        spec_palette_wf(*theme.palette),
    ensures
        r@ == spec_project(*content, *theme.palette, mouse_position),
{
    let mut shapes: Vec<RenderShape> = Vec::new();
    let global_bg = resolve(theme, Color::Named(NamedColor::Background));
    shapes.push(RenderShape::Backdrop { color: global_bg });
    assert(shapes@ =~= spec_project_prefix(*content, *theme.palette, mouse_position, 0));

    let g = &content.grid;
    if g.columns == 0 {
        assert(g.spec_visible_len() == 0);
        return shapes;
    }
    let cw: u32 = content.terminal_size.cell_width as u32;
    let ch: u32 = content.terminal_size.cell_height as u32;
    let vr0: usize = ((-(g.display_offset as i64)) - g.top_line as i64) as usize;
    let mut row: usize = 0;
    proof {
        lemma_vis_row_mul(g.screen_rows as int, g.columns as int, 0);
    }
    while row < g.screen_rows
        invariant
            content.wf(),
            spec_palette_wf(*theme.palette),
            g == &content.grid,
            g.columns >= 1,
            cw == content.terminal_size.cell_width,
            ch == content.terminal_size.cell_height,
            vr0 == g.spec_viewport_top() - g.top_line,
            global_bg == spec_global_bg(*theme.palette),
            row <= g.screen_rows,
            shapes@ == spec_project_prefix(
                *content,
                *theme.palette,
                mouse_position,
                row * g.columns,
            ),
        decreases g.screen_rows - row,
    {
        let mut col: usize = 0;
        while col < g.columns
            invariant
                content.wf(),
                spec_palette_wf(*theme.palette),
                g == &content.grid,
                g.columns >= 1,
                cw == content.terminal_size.cell_width,
                ch == content.terminal_size.cell_height,
                vr0 == g.spec_viewport_top() - g.top_line,
                global_bg == spec_global_bg(*theme.palette),
                row < g.screen_rows,
                col <= g.columns,
                shapes@ == spec_project_prefix(
                    *content,
                    *theme.palette,
                    mouse_position,
                    row * g.columns + col,
                ),
            decreases g.columns - col,
        {
            let ghost k = row * g.columns + col;
            proof {
                lemma_vis_index(*g, row as int, col as int);
            }
            let idx: usize = (vr0 + row) * g.columns + col;
            let cell = g.cells[idx];
            assert(cell == g.spec_visible_cell(k));
            if !cell.wide_spacer {
                let p = Point {
                    line: (row as i64 - g.display_offset as i64) as i32,
                    column: col,
                };
                assert(p == g.spec_visible_point(k));
                proof {
                    assert(cw * col < 0x1_0000_0000 && ch * row + ch < 0x1_0000_0000)
                        by (nonlinear_arith)
                        requires
                            cw <= 0xffff,
                            ch <= 0xffff,
                            col < 0x10000,
                            row < 0x10000,
                    ;
                }
                let x: u32 = cw * (col as u32);
                let y: u32 = ch * (row as u32);
                let width: u32 = if cell.wide {
                    2 * cw
                } else {
                    cw
                };
                let fg0 = PaintColor { rgb: resolve(theme, cell.fg), dim: cell.dim };
                let bg0 = PaintColor { rgb: resolve(theme, cell.bg), dim: false };
                let selected = match &content.selectable_range {
                    Some(range) => range.contains(p),
                    None => false,
                };
                let swap = cell.inverse || selected;
                let fg = if swap {
                    bg0
                } else {
                    fg0
                };
                let bg = if swap {
                    fg0
                } else {
                    bg0
                };
                let global = PaintColor { rgb: global_bg, dim: false };
                let hovered = match &content.hovered_hyperlink {
                    Some(link) => link.contains(p) && link.contains(mouse_position),
                    None => false,
                };
                let at_cursor = content.cursor_point == p;

                if bg != global {
                    shapes.push(
                        RenderShape::Rect { x, y, width: width + 1, height: ch + 1, color: bg },
                    );
                }
                if hovered {
                    shapes.push(
                        RenderShape::Underline {
                            x,
                            y: y + ch,
                            width,
                            cell_height: content.terminal_size.cell_height,
                            color: fg,
                        },
                    );
                }
                if at_cursor {
                    shapes.push(
                        RenderShape::Cursor {
                            x,
                            y,
                            width,
                            height: ch,
                            color: resolve(theme, content.cursor.fg),
                        },
                    );
                }
                if cell.c != ' ' && cell.c != '\t' {
                    let glyph_color = if at_cursor && content.terminal_mode.contains(
                        MODE_APP_CURSOR,
                    ) {
                        bg
                    } else {
                        fg
                    };
                    shapes.push(
                        RenderShape::Glyph { x, y, width, c: cell.c, color: glyph_color },
                    );
                }
            }
            col = col + 1;
            assert(shapes@ =~= spec_project_prefix(
                *content,
                *theme.palette,
                mouse_position,
                row * g.columns + col,
            ));
        }
        row = row + 1;
        proof {
            lemma_vis_row_mul(g.screen_rows as int, g.columns as int, row as int);
            assert((row - 1) * g.columns + g.columns == row * g.columns) by (nonlinear_arith);
        }
    }
    proof {
        lemma_vis_row_mul(g.screen_rows as int, g.columns as int, g.screen_rows as int);
    }
    shapes
}

} // verus!
