//! The controller: it owns the board, the run/pause flag and the tick rate,
//! and turns input events into board operations.

use vstd::prelude::*;
use crate::board::Board;
use crate::grid::{
    blank, generations, next_generation, rectangular, resized, toggled, Grid,
};

verus! {

/// A button, as far as the game tells buttons apart.
#[derive(Clone, Copy, Debug, PartialEq, Eq, Structural)]
pub enum Button {
    /// The Return key.
    Return,
    /// The space bar.
    Space,
    /// The `R` key.
    R,
    /// The left mouse button.
    MouseLeft,
    /// Any other key or button.
    Other,
}

/// One event from the outside: the clock, the pointer, the keyboard or the
/// window.
#[derive(Clone, Copy, Debug)]
pub enum Event {
    /// The clock asks for the next generation.
    Tick,
    /// A button went down. `pointer` is the pixel under the pointer, where
    /// that is known.
    Press { button: Button, pointer: Option<(i64, i64)> },
    /// The wheel turned by `delta` notches.
    Scroll { delta: i64 },
    /// The window took new pixel dimensions.
    Resize { pixel_width: u32, pixel_height: u32 },
}

/// The board together with the state of the simulation.
pub struct Game {
    board: Board,
    running: bool,
    tick_rate: u64,
}

/// What a game is, as plain values.
pub struct GameState {
    /// The board's grid.
    pub grid: Grid,
    /// The board's number of columns.
    pub width: nat,
    /// The board's number of rows.
    pub height: nat,
    /// The board's pixels per cell edge.
    pub scale: nat,
    /// Whether ticks advance the board.
    pub running: bool,
    /// Ticks asked for per second.
    pub tick_rate: nat,
}

/// What holds of every game's state: the scale is positive and the grid has
/// a cell at every coordinate within the board's size.
pub open spec fn valid(s: GameState) -> bool {
    &&& 0 < s.scale <= u32::MAX
    &&& s.width <= u32::MAX
    &&& s.height <= u32::MAX
    &&& s.tick_rate <= u64::MAX
    &&& rectangular(s.grid, s.width, s.height)
}

/// The state with `running` flipped.
pub open spec fn run_toggled(s: GameState) -> GameState {
    GameState { running: !s.running, ..s }
}

/// The state with every cell dead.
pub open spec fn cleared(s: GameState) -> GameState {
    GameState { grid: blank(s.width, s.height), ..s }
}

/// The state after a click at the pixel `(pixel_x, pixel_y)`: the cell under
/// the pixel, at the pixel's coordinates divided by the scale and rounded
/// down, is flipped. A pixel that lies on no cell changes nothing.
pub open spec fn clicked(s: GameState, pixel_x: int, pixel_y: int) -> GameState {
    GameState { grid: toggled(s.grid, pixel_x / s.scale as int, pixel_y / s.scale as int), ..s }
}

/// The state after one tick: the next generation while running, the same
/// state while paused.
pub open spec fn ticked(s: GameState) -> GameState {
    if s.running {
        GameState { grid: next_generation(s.grid), ..s }
    } else {
        s
    }
}

/// The state after `n` ticks.
pub open spec fn ticked_times(s: GameState, n: nat) -> GameState
    decreases n,
{
    if n == 0 {
        s
    } else {
        ticked(ticked_times(s, (n - 1) as nat))
    }
}

/// The state with `delta` added to the tick rate, or with a tick rate of
/// zero where the sum would be negative.
pub open spec fn rate_adjusted(s: GameState, delta: int) -> GameState {
    GameState {
        tick_rate: if s.tick_rate + delta < 0 {
            0
        } else {
            (s.tick_rate + delta) as nat
        },
        ..s
    }
}

/// The state after the window took the given pixel dimensions: the board
/// has as many cells as fit at its scale, and keeps the cells at the
/// coordinates that it had before.
pub open spec fn window_resized(s: GameState, pixel_width: nat, pixel_height: nat) -> GameState {
    let width = (pixel_width as int / s.scale as int) as nat;
    let height = (pixel_height as int / s.scale as int) as nat;
    GameState { grid: resized(s.grid, width, height), width, height, ..s }
}

/// The state after a button went down: Return and the space bar pause or
/// resume, `R` clears the board, the left mouse button flips the cell under
/// the pointer if the pointer's position is known, and nothing else has an
/// effect.
pub open spec fn pressed(s: GameState, button: Button, pointer: Option<(i64, i64)>) -> GameState {
    match button {
        Button::Return | Button::Space => run_toggled(s),
        Button::R => cleared(s),
        Button::MouseLeft => match pointer {
            Some(at) => clicked(s, at.0 as int, at.1 as int),
            None => s,
        },
        Button::Other => s,
    }
}

/// The state after an event.
pub open spec fn after_event(s: GameState, event: Event) -> GameState {
    match event {
        Event::Tick => ticked(s),
        Event::Press { button, pointer } => pressed(s, button, pointer),
        Event::Scroll { delta } => rate_adjusted(s, delta as int),
        Event::Resize { pixel_width, pixel_height } => window_resized(
            s,
            pixel_width as nat,
            pixel_height as nat,
        ),
    }
}

/// While the game is paused, no number of ticks changes anything.
pub proof fn lemma_paused_ticks(s: GameState, n: nat)
    requires
        !s.running,
    ensures
        ticked_times(s, n) == s,
    decreases n,
{
    if n > 0 {
        lemma_paused_ticks(s, (n - 1) as nat);
    }
}

/// While the game is running, each tick advances the grid by exactly one
/// generation and changes nothing else.
pub proof fn lemma_running_ticks(s: GameState, n: nat)
    requires
        s.running,
    ensures
        ticked_times(s, n) == (GameState { grid: generations(s.grid, n), ..s }),
        ticked_times(s, n + 1).grid == next_generation(ticked_times(s, n).grid),
    decreases n,
{
    if n > 0 {
        lemma_running_ticks(s, (n - 1) as nat);
    }
}

impl View for Game {
    type V = GameState;

    closed spec fn view(&self) -> GameState {
        GameState {
            grid: self.board@,
            width: self.board.spec_width(),
            height: self.board.spec_height(),
            scale: self.board.spec_scale(),
            running: self.running,
            tick_rate: self.tick_rate as nat,
        }
    }
}

impl Game {
    /// The game's invariant: its board is well formed.
    pub open spec fn wf(&self) -> bool {
        valid(self@)
    }

    /// A game on the given board.
    pub fn new(board: Board, running: bool, tick_rate: u64) -> (game: Game)
        requires
            board.wf(),
        ensures
            game.wf(),
            game@ == (GameState {
                grid: board@,
                width: board.spec_width(),
                height: board.spec_height(),
                scale: board.spec_scale(),
                running,
                tick_rate: tick_rate as nat,
            }),
    {
        Game { board, running, tick_rate }
    }

    /// The board, to read.
    pub fn board(&self) -> (board: &Board)
        requires
            self.wf(),
        ensures
            board.wf(),
            board@ == self@.grid,
            board.spec_width() == self@.width,
            board.spec_height() == self@.height,
            board.spec_scale() == self@.scale,
    {
        &self.board
    }

    /// Whether ticks advance the board.
    pub fn is_running(&self) -> (running: bool)
        ensures
            running == self@.running,
    {
        self.running
    }

    /// The number of ticks asked for per second.
    pub fn tick_rate(&self) -> (rate: u64)
        ensures
            rate == self@.tick_rate,
    {
        self.tick_rate
    }

    /// Pauses a running game and resumes a paused one. The board is left
    /// alone.
    pub fn toggle_running(&mut self)
        ensures
            final(self).wf() == old(self).wf(),
            final(self)@ == run_toggled(old(self)@),
    {
        self.running = !self.running;
    }

    /// Replaces the grid by a dead one of the same size and scale. Whether
    /// the game runs does not change.
    pub fn reset(&mut self)
        requires
            old(self).wf(),
        ensures
            final(self).wf(),
            final(self)@ == cleared(old(self)@),
    {
        self.board.clear();
    }

    /// Flips the cell under the pixel `(pixel_x, pixel_y)`. A pixel left of,
    /// above or beyond the grid changes nothing.
    pub fn handle_pointer_click(&mut self, pixel_x: i64, pixel_y: i64)
        requires
            old(self).wf(),
        ensures
            final(self).wf(),
            final(self)@ == clicked(old(self)@, pixel_x as int, pixel_y as int),
    {
        let scale: i64 = self.board.scale() as i64;
        if pixel_x >= 0 && pixel_y >= 0 {
            let x: i64 = pixel_x / scale;
            let y: i64 = pixel_y / scale;
            if x <= 0xffff_ffff && y <= 0xffff_ffff {
                self.board.toggle_cell(x as u32, y as u32);
            }
        } else {
            proof {
                let s = scale as int;
                assert(pixel_x < 0 ==> pixel_x as int / s < 0) by (nonlinear_arith)
                    requires
                        s > 0,
                ;
                assert(pixel_y < 0 ==> pixel_y as int / s < 0) by (nonlinear_arith)
                    requires
                        s > 0,
                ;
            }
        }
    }

    /// Advances the board by one generation if the game is running, and
    /// does nothing if it is paused.
    pub fn handle_tick(&mut self)
        requires
            old(self).wf(),
        ensures
            final(self).wf(),
            final(self)@ == ticked(old(self)@),
    {
        if self.running {
            self.board.step();
        }
    }

    /// Adds `delta` to the tick rate, stopping at zero.
    pub fn adjust_tick_rate(&mut self, delta: i64)
        requires
            old(self)@.tick_rate + delta <= u64::MAX,
        ensures
            final(self).wf() == old(self).wf(),
            final(self)@ == rate_adjusted(old(self)@, delta as int),
    {
        let sum: i128 = self.tick_rate as i128 + delta as i128;
        if sum < 0 {
            self.tick_rate = 0;
        } else {
            self.tick_rate = sum as u64;
        }
    }

    /// Resizes the board to the new pixel dimensions.
    pub fn handle_resize(&mut self, new_pixel_width: u32, new_pixel_height: u32)
        requires
            old(self).wf(),
        ensures
            final(self).wf(),
            final(self)@ == window_resized(
                old(self)@,
                new_pixel_width as nat,
                new_pixel_height as nat,
            ),
    {
        self.board.resize(new_pixel_width, new_pixel_height);
    }

    /// Handles a button that went down.
    pub fn input(&mut self, button: Button, pointer: Option<(i64, i64)>)
        requires
            old(self).wf(),
        ensures
            final(self).wf(),
            final(self)@ == pressed(old(self)@, button, pointer),
    {
        match button {
            Button::Return | Button::Space => {
                self.toggle_running();
            },
            Button::R => {
                self.reset();
            },
            Button::MouseLeft => {
                match pointer {
                    Some((pixel_x, pixel_y)) => {
                        self.handle_pointer_click(pixel_x, pixel_y);
                    },
                    None => {},
                }
            },
            Button::Other => {},
        }
    }

    /// Handles one event from the outside.
    pub fn handle_event(&mut self, event: Event)
        requires
            old(self).wf(),
            event matches Event::Scroll { delta } ==> old(self)@.tick_rate + delta <= u64::MAX,
        ensures
            final(self).wf(),
            final(self)@ == after_event(old(self)@, event),
    {
        match event {
            Event::Tick => {
                self.handle_tick();
            },
            Event::Press { button, pointer } => {
                self.input(button, pointer);
            },
            Event::Scroll { delta } => {
                self.adjust_tick_rate(delta);
            },
            Event::Resize { pixel_width, pixel_height } => {
                self.handle_resize(pixel_width, pixel_height);
            },
        }
    }
}

} // verus!
