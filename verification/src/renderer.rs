//! The console view: what part of the grid is shown and the text that shows
//! it.  The functions here compose text; writing it to a terminal is the
//! caller's business.

use crate::cell_set::{cells_of, CellSet};
use crate::coords::Point;
use crate::text::{decimal, padded_left, push_char, push_decimal_padded, push_repeated, push_text, repeated};
use vstd::prelude::*;

verus! {

/// How the grid is drawn.
#[derive(Debug, Clone, Copy, PartialEq, Eq, Structural)]
pub struct RenderConfig {
    pub alive_char: char,
    pub dead_char: char,
    pub border_char: char,
    pub show_border: bool,
    pub show_stats: bool,
    pub show_controls: bool,
    pub clear_screen: bool,
    pub viewport_x: i32,
    pub viewport_y: i32,
    pub viewport_width: i32,
    pub viewport_height: i32,
}

/// The configuration of a renderer that was given none: a window of eighty
/// by twenty-four at the origin, with border, statistics and controls.
pub open spec fn default_render_config() -> RenderConfig {
    RenderConfig {
        alive_char: '#',
        dead_char: ' ',
        border_char: '.',
        show_border: true,
        show_stats: true,
        show_controls: true,
        clear_screen: true,
        viewport_x: 0,
        viewport_y: 0,
        viewport_width: 80,
        viewport_height: 24,
    }
}

impl Default for RenderConfig {
    fn default() -> (config: RenderConfig)
        ensures
            config == default_render_config(),
    {
        RenderConfig {
            alive_char: '#',
            dead_char: ' ',
            border_char: '.',
            show_border: true,
            show_stats: true,
            show_controls: true,
            clear_screen: true,
            viewport_x: 0,
            viewport_y: 0,
            viewport_width: 80,
            viewport_height: 24,
        }
    }
}

/// What a view shows of a simulation at one moment.
#[derive(Debug, Clone)]
pub struct SimulationSnapshot {
    pub generation: u64,
    pub live_cells: Vec<(i32, i32)>,
    pub population: usize,
    pub is_running: bool,
    pub grid_width: i32,
    pub grid_height: i32,
}

/// Half of `v`, rounded towards zero.
pub open spec fn half(v: int) -> int {
    if v >= 0 {
        v / 2
    } else {
        -((-v) / 2)
    }
}

/// The character that shows the cell `c`.
pub open spec fn cell_char(config: RenderConfig, live: Set<Point>, c: Point) -> char {
    if live.contains(c) {
        config.alive_char
    } else {
        config.dead_char
    }
}

/// The text of one row of the grid: the `width` cells from `start_x` on in
/// the row `y`.
pub open spec fn row_text(
    config: RenderConfig,
    live: Set<Point>,
    start_x: int,
    y: int,
    width: int,
) -> Seq<char> {
    Seq::new(
        if width > 0 {
            width as nat
        } else {
            0
        },
        |i: int| cell_char(config, live, (start_x + i, y)),
    )
}

/// What stands between two rows: a line break, followed by the border
/// character where the border is shown.
pub open spec fn row_break(config: RenderConfig) -> Seq<char> {
    if config.show_border {
        seq!['\n', config.border_char]
    } else {
        seq!['\n']
    }
}

/// The text of the first `rows` rows of a frame whose top left cell is
/// `(start_x, start_y)`.
pub open spec fn frame_text(
    config: RenderConfig,
    live: Set<Point>,
    start_x: int,
    start_y: int,
    width: int,
    rows: int,
) -> Seq<char>
    decreases rows,
{
    if rows <= 0 {
        Seq::empty()
    } else if rows == 1 {
        row_text(config, live, start_x, start_y, width)
    } else {
        frame_text(config, live, start_x, start_y, width, rows - 1) + row_break(config) + row_text(
            config,
            live,
            start_x,
            start_y + rows - 1,
            width,
        )
    }
}

/// The line of statistics.
pub open spec fn stats_text(snapshot: SimulationSnapshot) -> Seq<char> {
    "Gen: "@ + padded_left(decimal(snapshot.generation as nat), 6) + " | Cells: "@ + padded_left(
        decimal(snapshot.population as nat),
        6,
    ) + " | Status: "@ + if snapshot.is_running {
        "RUNNING"@
    } else {
        "PAUSED"@
    }
}

/// The line that names the controls.
pub open spec fn controls_text() -> Seq<char> {
    "Controls: [SPACE] Start/Pause | [>/.] Step | [R] Reset | [Q] Quit | [W/A/S/D] Move | [L] Load Pattern"@
}

/// The console renderer.
pub struct ConsoleRenderer {
    config: RenderConfig,
}

impl ConsoleRenderer {
    /// The renderer's configuration.
    pub closed spec fn config(&self) -> RenderConfig {
        self.config
    }

    /// A renderer with the given configuration.
    pub fn new(config: RenderConfig) -> (r: ConsoleRenderer)
        ensures
            r.config() == config,
    {
        ConsoleRenderer { config }
    }

    /// A renderer with the default configuration.
    pub fn default() -> (r: ConsoleRenderer)
        ensures
            r.config() == default_render_config(),
    {
        ConsoleRenderer::new(RenderConfig::default())
    }

    /// Places and sizes the window.
    pub fn set_viewport(&mut self, x: i32, y: i32, width: i32, height: i32)
        ensures
            final(self).config() == (RenderConfig {
                viewport_x: x,
                viewport_y: y,
                viewport_width: width,
                viewport_height: height,
                ..old(self).config()
            }),
    {
        self.config.viewport_x = x;
        self.config.viewport_y = y;
        self.config.viewport_width = width;
        self.config.viewport_height = height;
    }

    /// Moves the window so that `(center_x, center_y)` is at its middle.
    pub fn center_viewport(&mut self, center_x: i32, center_y: i32)
        requires
            i32::MIN <= center_x - half(old(self).config().viewport_width as int) <= i32::MAX,
            i32::MIN <= center_y - half(old(self).config().viewport_height as int) <= i32::MAX,
        ensures
            final(self).config() == (RenderConfig {
                viewport_x: (center_x - half(old(self).config().viewport_width as int)) as i32,
                viewport_y: (center_y - half(old(self).config().viewport_height as int)) as i32,
                ..old(self).config()
            }),
    {
        self.config.viewport_x = center_x - half_of(self.config.viewport_width);
        self.config.viewport_y = center_y - half_of(self.config.viewport_height);
    }

    /// Moves the window by `(delta_x, delta_y)`.
    pub fn move_viewport(&mut self, delta_x: i32, delta_y: i32)
        requires
            i32::MIN <= old(self).config().viewport_x + delta_x <= i32::MAX,
            i32::MIN <= old(self).config().viewport_y + delta_y <= i32::MAX,
        ensures
            final(self).config() == (RenderConfig {
                viewport_x: (old(self).config().viewport_x + delta_x) as i32,
                viewport_y: (old(self).config().viewport_y + delta_y) as i32,
                ..old(self).config()
            }),
    {
        self.config.viewport_x = self.config.viewport_x + delta_x;
        self.config.viewport_y = self.config.viewport_y + delta_y;
    }

    /// The renderer's configuration.
    pub fn get_render_config(&self) -> (config: &RenderConfig)
        ensures
            *config == self.config(),
    {
        &self.config
    }

    /// Replaces the renderer's configuration.
    pub fn set_render_config(&mut self, config: RenderConfig)
        ensures
            final(self).config() == config,
    {
        self.config = config;
    }

    /// A text of `count` copies of `c`.
    pub fn repeat_char(&self, c: char, count: i32) -> (text: String)
        requires
            count >= 0,
        ensures
            text@ == repeated(c, count as int),
    {
        let mut text = String::new();
        push_repeated(&mut text, c, count as usize);
        assert(text@ =~= repeated(c, count as int));
        text
    }

    /// The line of statistics for `snapshot`.
    pub fn format_stats(&self, snapshot: &SimulationSnapshot) -> (text: String)
        ensures
            text@ == stats_text(*snapshot),
    {
        let mut text = String::new();
        push_text(&mut text, "Gen: ");
        push_decimal_padded(&mut text, snapshot.generation, 6);
        push_text(&mut text, " | Cells: ");
        push_decimal_padded(&mut text, snapshot.population as u64, 6);
        push_text(&mut text, " | Status: ");
        if snapshot.is_running {
            push_text(&mut text, "RUNNING");
        } else {
            push_text(&mut text, "PAUSED");
        }
        assert(text@ =~= stats_text(*snapshot));
        text
    }

    /// The line that closes the frame at its top: the border character,
    /// `width` times.  Nothing for a width below one.
    pub fn render_border(&self, width: i32) -> (text: String)
        ensures
            text@ == repeated(self.config().border_char, width as int),
    {
        let mut text = String::new();
        if width > 0 {
            push_repeated(&mut text, self.config.border_char, width as usize);
        }
        assert(text@ =~= repeated(self.config().border_char, width as int));
        text
    }

    /// The text of a frame of `width` by `height` cells whose top left cell
    /// is `(start_x, start_y)`: one row after the other, with a line break
    /// between two rows and, where the border is shown, the border character
    /// after each break.
    pub fn render_frame(
        &self,
        snapshot: &SimulationSnapshot,
        start_x: i32,
        start_y: i32,
        width: i32,
        height: i32,
    ) -> (text: String)
        ensures
            text@ == frame_text(
                self.config(),
                cells_of(snapshot.live_cells@),
                start_x as int,
                start_y as int,
                width as int,
                height as int,
            ),
    {
        let live = CellSet::from_cells(snapshot.live_cells.as_slice());
        let mut text = String::new();
        let mut y: i32 = 0;
        proof {
            live.lemma_members_in_range();
        }
        while y < height
            invariant
                0 <= y,
                y <= height || (height < 0 && y == 0),
                live@ == cells_of(snapshot.live_cells@),
                forall|c: Point| #[trigger] live@.contains(c) ==> crate::coords::in_range(c),
                text@ == frame_text(
                    self.config(),
                    live@,
                    start_x as int,
                    start_y as int,
                    width as int,
                    y as int,
                ),
            decreases height - y,
        {
            let ghost before = text@;
            if y > 0 {
                push_char(&mut text, '\n');
                if self.config.show_border {
                    push_char(&mut text, self.config.border_char);
                }
            }
            let ghost broken = text@;
            let world_y: i64 = start_y as i64 + y as i64;
            let mut x: i32 = 0;
            proof {
                assert(text@ =~= broken + row_text(self.config(), live@, start_x as int, world_y as int, 0));
            }
            while x < width
                invariant
                    0 <= x,
                    x <= width || (width < 0 && x == 0),
                    world_y == start_y + y,
                    forall|c: Point| #[trigger] live@.contains(c) ==> crate::coords::in_range(c),
                    text@ == broken + row_text(
                        self.config(),
                        live@,
                        start_x as int,
                        world_y as int,
                        x as int,
                    ),
                decreases width - x,
            {
                let world_x: i64 = start_x as i64 + x as i64;
                let alive = world_x >= -0x8000_0000 && world_x <= 0x7fff_ffff && world_y
                    >= -0x8000_0000 && world_y <= 0x7fff_ffff && live.contains(
                    (world_x as i32, world_y as i32),
                );
                let cell = if alive {
                    self.config.alive_char
                } else {
                    self.config.dead_char
                };
                push_char(&mut text, cell);
                x += 1;
                proof {
                    assert(text@ =~= broken + row_text(
                        self.config(),
                        live@,
                        start_x as int,
                        world_y as int,
                        x as int,
                    ));
                }
            }
            proof {
                assert(row_text(self.config(), live@, start_x as int, world_y as int, x as int)
                    =~= row_text(
                    self.config(),
                    live@,
                    start_x as int,
                    world_y as int,
                    width as int,
                ));
                if y > 0 {
                    assert(broken =~= before + row_break(self.config()));
                } else {
                    assert(broken =~= Seq::<char>::empty());
                    assert(text@ =~= row_text(
                        self.config(),
                        live@,
                        start_x as int,
                        world_y as int,
                        width as int,
                    ));
                }
            }
            y += 1;
        }
        text
    }

    /// The height that is left for the grid in the window: three rows go
    /// to the statistics and three to the controls, where they are shown.
    pub open spec fn grid_rows(&self) -> int {
        let after_stats = if self.config().show_stats {
            self.config().viewport_height - 3
        } else {
            self.config().viewport_height as int
        };
        let after_controls = if self.config().show_controls {
            after_stats - 3
        } else {
            after_stats
        };
        if after_controls < i32::MIN {
            i32::MIN as int
        } else {
            after_controls
        }
    }

    /// The text of the grid as the window shows it: the frame at the
    /// window's place, as wide as the window and as high as the rows that
    /// are left for it.
    pub fn render_grid(&self, snapshot: &SimulationSnapshot) -> (text: String)
        ensures
            text@ == frame_text(
                self.config(),
                cells_of(snapshot.live_cells@),
                self.config().viewport_x as int,
                self.config().viewport_y as int,
                self.config().viewport_width as int,
                self.grid_rows(),
            ),
    {
        let mut grid_height: i64 = self.config.viewport_height as i64;
        if self.config.show_stats {
            grid_height = grid_height - 3;
        }
        if self.config.show_controls {
            grid_height = grid_height - 3;
        }
        let rows: i32 = if grid_height < -0x8000_0000 {
            -0x8000_0000
        } else {
            grid_height as i32
        };
        self.render_frame(
            snapshot,
            self.config.viewport_x,
            self.config.viewport_y,
            self.config.viewport_width,
            rows,
        )
    }

    /// The rule and the line of statistics that follow the grid.
    pub fn render_stats(&self, snapshot: &SimulationSnapshot) -> (text: String)
        ensures
            text@ == seq!['\n'] + repeated('=', self.config().viewport_width as int) + seq!['\n']
                + stats_text(*snapshot) + seq!['\n'],
    {
        let mut text = String::new();
        push_char(&mut text, '\n');
        if self.config.viewport_width > 0 {
            push_repeated(&mut text, '=', self.config.viewport_width as usize);
        }
        push_char(&mut text, '\n');
        let stats = self.format_stats(snapshot);
        push_text(&mut text, stats.as_str());
        push_char(&mut text, '\n');
        assert(text@ =~= seq!['\n'] + repeated('=', self.config().viewport_width as int) + seq![
            '\n',
        ] + stats_text(*snapshot) + seq!['\n']);
        text
    }

    /// The rule and the line of controls that end the screen.
    pub fn render_controls(&self) -> (text: String)
        ensures
            text@ == repeated('-', self.config().viewport_width as int) + seq!['\n']
                + controls_text() + seq!['\n'],
    {
        let mut text = String::new();
        if self.config.viewport_width > 0 {
            push_repeated(&mut text, '-', self.config.viewport_width as usize);
        }
        push_char(&mut text, '\n');
        push_text(
            &mut text,
            "Controls: [SPACE] Start/Pause | [>/.] Step | [R] Reset | [Q] Quit | [W/A/S/D] Move | [L] Load Pattern",
        );
        push_char(&mut text, '\n');
        assert(text@ =~= repeated('-', self.config().viewport_width as int) + seq!['\n']
            + controls_text() + seq!['\n']);
        text
    }
}

/// Half of `v`, rounded towards zero.
fn half_of(v: i32) -> (h: i32)
    ensures
        h as int == half(v as int),
{
    if v >= 0 {
        v / 2
    } else if v == i32::MIN {
        -0x4000_0000
    } else {
        -((-v) / 2)
    }
}

} // verus!
