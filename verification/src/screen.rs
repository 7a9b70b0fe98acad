//! The virtual screens, the clicks that switch between them, and what each
//! frame shows.
//!
//! The program that owns the window samples the mouse and the clock and
//! hands the values in; the functions here decide what follows.

use vstd::prelude::*;
use crate::color::{pack, Color};
use crate::geometry::{Dimensions, Position};
use crate::ui::{clear, painted, Ui};

verus! {

/// Width of the window in pixels.
pub const WIDTH: usize = 500;

/// Height of the window in pixels.
pub const HEIGHT: usize = 500;

/// The screen that is shown. No click leads to `Default`, and none leads
/// away from it.
#[derive(Clone, Copy, Debug, PartialEq, Eq, Structural)]
pub enum VirtualScreen {
    Main,
    Options,
    Default,
}

/// What a click asks for: show a screen, or leave the frame loop.
#[derive(Clone, Copy, Debug, PartialEq, Eq, Structural)]
pub enum ClickOutcome {
    Show(VirtualScreen),
    Exit,
}

/// Where the two buttons are. The exit button leaves the program on the main
/// screen and leads back to the main screen on the options screen.
#[derive(Clone, Copy, Debug, PartialEq, Eq, Structural)]
pub struct Layout {
    pub options_button: Dimensions,
    pub exit_button: Dimensions,
}

impl Layout {
    /// The buttons of a window of `width` by `height` pixels: each a tenth of
    /// the window wide and high, in the top row, the options button at the
    /// left edge and the exit button at the right edge.
    pub open spec fn of_window(width: usize, height: usize) -> Layout {
        Layout {
            options_button: Dimensions {
                left: 0,
                top: 0,
                right: width / 10,
                bottom: height / 10,
            },
            exit_button: Dimensions {
                left: (width - width / 10) as usize,
                top: 0,
                right: width,
                bottom: height / 10,
            },
        }
    }

    /// Both buttons are rectangles that can be drawn.
    pub open spec fn well_formed(self) -> bool {
        self.options_button.well_formed() && self.exit_button.well_formed()
    }

    /// The buttons of a window of `width` by `height` pixels. They can be
    /// drawn if the window is at least ten pixels wide and high.
    pub fn new(width: usize, height: usize) -> (layout: Layout)
        ensures
            layout == Layout::of_window(width, height),
            layout.well_formed() <==> width >= 10 && height >= 10,
    {
        Layout {
            options_button: Dimensions::new(0, 0, width / 10, height / 10),
            exit_button: Dimensions::new(width - width / 10, 0, width, height / 10),
        }
    }
}

/// What a click in column `x` of row `y` asks for while `screen` is shown.
pub open spec fn after_click(screen: VirtualScreen, layout: Layout, x: int, y: int) -> ClickOutcome {
    match screen {
        VirtualScreen::Main => if layout.exit_button.covers(x, y) {
            ClickOutcome::Exit
        } else if layout.options_button.covers(x, y) {
            ClickOutcome::Show(VirtualScreen::Options)
        } else {
            ClickOutcome::Show(VirtualScreen::Main)
        },
        VirtualScreen::Options => if layout.exit_button.covers(x, y) {
            ClickOutcome::Show(VirtualScreen::Main)
        } else {
            ClickOutcome::Show(VirtualScreen::Options)
        },
        VirtualScreen::Default => ClickOutcome::Show(VirtualScreen::Default),
    }
}

/// What the release of the mouse button asks for while `screen` is shown. A
/// pointer outside the window has no position: nothing changes then.
pub open spec fn after_release(
    screen: VirtualScreen,
    layout: Layout,
    pointer: Option<Position>,
) -> ClickOutcome {
    match pointer {
        Some(pos) => after_click(screen, layout, pos.x as int, pos.y as int),
        None => ClickOutcome::Show(screen),
    }
}

impl VirtualScreen {
    /// What a click at `pos` asks for while this screen is shown.
    pub fn on_click(self, layout: &Layout, pos: Position) -> (outcome: ClickOutcome)
        ensures
            outcome == after_click(self, *layout, pos.x as int, pos.y as int),
    {
        match self {
            VirtualScreen::Main => {
                if layout.exit_button.contains(pos) {
                    ClickOutcome::Exit
                } else if layout.options_button.contains(pos) {
                    ClickOutcome::Show(VirtualScreen::Options)
                } else {
                    ClickOutcome::Show(VirtualScreen::Main)
                }
            },
            VirtualScreen::Options => {
                if layout.exit_button.contains(pos) {
                    ClickOutcome::Show(VirtualScreen::Main)
                } else {
                    ClickOutcome::Show(VirtualScreen::Options)
                }
            },
            VirtualScreen::Default => ClickOutcome::Show(VirtualScreen::Default),
        }
    }

    /// What the release of the mouse button asks for while this screen is
    /// shown, given where the pointer was, if it was inside the window.
    pub fn on_release(self, layout: &Layout, pointer: Option<Position>) -> (outcome: ClickOutcome)
        ensures
            outcome == after_release(self, *layout, pointer),
    {
        match pointer {
            Some(pos) => self.on_click(layout, pos),
            None => ClickOutcome::Show(self),
        }
    }
}

/// A click never leads to `Default`, and the only way out of the frame loop
/// is a click on the exit button of the main screen.
pub proof fn lemma_click_outcomes(screen: VirtualScreen, layout: Layout, x: int, y: int)
    ensures
        screen != VirtualScreen::Default ==> after_click(screen, layout, x, y)
            != ClickOutcome::Show(VirtualScreen::Default),
        after_click(screen, layout, x, y) == ClickOutcome::Exit <==> screen == VirtualScreen::Main
            && layout.exit_button.covers(x, y),
        !layout.exit_button.covers(x, y) && !layout.options_button.covers(x, y) ==> after_click(
            screen,
            layout,
            x,
            y,
        ) == ClickOutcome::Show(screen),
{
}

/// One mouse button, followed from frame to frame: whether it is down now,
/// and whether it went down and its release has not been reported yet.
#[derive(Clone, Copy, Debug, PartialEq, Eq, Structural)]
pub struct MouseEdge {
    pub down: bool,
    pub pending: bool,
}

impl MouseEdge {
    /// A button that is up and has nothing to report.
    pub fn new() -> (edge: MouseEdge)
        ensures
            edge == (MouseEdge { down: false, pending: false }),
    {
        MouseEdge { down: false, pending: false }
    }

    /// Takes this frame's sample of the button. The result says whether the
    /// button was released: it had gone down before and is up now. A release
    /// is reported once.
    pub fn sample(&mut self, pressed: bool) -> (released: bool)
        ensures
            released == (old(self).pending && !pressed),
            final(self).down == pressed,
            final(self).pending == pressed,
    {
        if pressed {
            self.down = true;
            self.pending = true;
        } else {
            self.down = false;
        }
        if self.pending && !self.down {
            self.pending = false;
            true
        } else {
            false
        }
    }
}

/// The animation phase after `elapsed_millis` milliseconds: it advances every
/// 90 milliseconds and starts again from 0 after 254.
pub open spec fn phase_at(elapsed_millis: int) -> int {
    elapsed_millis / 90 % 255
}

/// The animation phase after `elapsed_millis` milliseconds.
pub fn animation_phase(elapsed_millis: u128) -> (phase: u8)
    ensures
        phase == phase_at(elapsed_millis as int),
        phase < 255,
{
    (elapsed_millis / 90 % 255) as u8
}

/// The colour that every frame starts from: opaque black.
pub open spec fn background() -> Color {
    Color { a: 255, r: 0, g: 0, b: 0 }
}

/// The colour of the options button.
pub open spec fn options_button_color() -> Color {
    Color { a: 0, r: 255, g: 255, b: 0 }
}

/// The colour of the exit button: red, with the animation phase as its
/// alpha channel.
pub open spec fn exit_button_color(phase: u8) -> Color {
    Color { a: phase, r: 255, g: 0, b: 0 }
}

/// The frame that `screen` shows in a buffer of `len` pixels: the background,
/// on it the options button if the main screen is shown, and on that the exit
/// button, whatever screen is shown.
pub open spec fn frame(
    len: nat,
    screen: VirtualScreen,
    layout: Layout,
    phase: u8,
    width: int,
    height: int,
) -> Seq<u32> {
    let cleared = Seq::new(len, |i: int| pack(background()) as u32);
    let with_options = if screen == VirtualScreen::Main {
        painted(
            cleared,
            layout.options_button,
            pack(options_button_color()) as u32,
            width,
            height,
        )
    } else {
        cleared
    };
    painted(with_options, layout.exit_button, pack(exit_button_color(phase)) as u32, width, height)
}

/// Renders the frame that `screen` shows into the buffer, over whatever the
/// buffer held. The buttons that the screen shows must be rectangles that can
/// be drawn.
pub fn render(
    buffer: &mut Vec<u32>,
    screen: VirtualScreen,
    layout: &Layout,
    phase: u8,
    width: usize,
    height: usize,
)
    requires
        layout.exit_button.well_formed(),
        screen == VirtualScreen::Main ==> layout.options_button.well_formed(),
        width * height <= old(buffer)@.len(),
    ensures
        final(buffer)@ == frame(
            old(buffer)@.len(),
            screen,
            *layout,
            phase,
            width as int,
            height as int,
        ),
{
    let ghost len: nat = buffer@.len();
    clear(buffer, Color::new(255, 0, 0, 0).to_packed());
    assert(buffer@ =~= Seq::new(len, |i: int| pack(background()) as u32));
    match screen {
        VirtualScreen::Main => {
            buffer.draw_button(&layout.options_button, Color::new(0, 255, 255, 0), width, height);
        },
        _ => {},
    }
    buffer.draw_button(&layout.exit_button, Color::new(phase, 255, 0, 0), width, height);
}

/// What the frame loop carries from frame to frame: the screen that is
/// shown, and the left mouse button.
#[derive(Clone, Copy, Debug, PartialEq, Eq, Structural)]
pub struct AppState {
    pub screen: VirtualScreen,
    pub left_mouse: MouseEdge,
}

impl AppState {
    /// The state at start: the main screen, the mouse button up.
    pub fn new() -> (state: AppState)
        ensures
            state == (AppState {
                screen: VirtualScreen::Main,
                left_mouse: MouseEdge { down: false, pending: false },
            }),
    {
        AppState { screen: VirtualScreen::Main, left_mouse: MouseEdge::new() }
    }

    /// Takes this frame's sample of the left mouse button and says whether
    /// the button was released. The screen stays as it is.
    pub fn sample_mouse(&mut self, pressed: bool) -> (released: bool)
        ensures
            released == (old(self).left_mouse.pending && !pressed),
            final(self).left_mouse == (MouseEdge { down: pressed, pending: pressed }),
            final(self).screen == old(self).screen,
    {
        self.left_mouse.sample(pressed)
    }

    /// Acts on a release of the left mouse button, given where the pointer
    /// was, if it was inside the window. The result says whether the frame
    /// loop ends; if it does, and if the pointer was outside the window, the
    /// screen stays as it is.
    pub fn release(&mut self, layout: &Layout, pointer: Option<Position>) -> (exit: bool)
        ensures
            exit == (after_release(old(self).screen, *layout, pointer) == ClickOutcome::Exit),
            after_release(old(self).screen, *layout, pointer) == (if exit {
                ClickOutcome::Exit
            } else {
                ClickOutcome::Show(final(self).screen)
            }),
            exit ==> final(self).screen == old(self).screen,
            final(self).left_mouse == old(self).left_mouse,
    {
        match self.screen.on_release(layout, pointer) {
            ClickOutcome::Show(next) => {
                self.screen = next;
                false
            },
            ClickOutcome::Exit => true,
        }
    }
}

} // verus!
