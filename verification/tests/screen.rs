use pixel_ui::geometry::{Dimensions, Position};
use pixel_ui::screen::{
    animation_phase, render, AppState, ClickOutcome, Layout, MouseEdge, VirtualScreen, HEIGHT,
    WIDTH,
};

const BLACK: u32 = 0xFF00_0000;
const YELLOW: u32 = 0x00FF_FF00;

fn pixel_at(buffer: &[u32], x: usize, y: usize) -> u32 {
    buffer[y * WIDTH + x]
}

#[test]
fn window_is_500_by_500() {
    assert_eq!(WIDTH, 500);
    assert_eq!(HEIGHT, 500);
}

#[test]
fn layout_puts_the_buttons_in_the_top_corners() {
    let layout = Layout::new(WIDTH, HEIGHT);
    assert_eq!(layout.options_button, Dimensions::new(0, 0, 50, 50));
    assert_eq!(layout.exit_button, Dimensions::new(450, 0, 500, 50));
    assert!(layout.options_button.is_well_formed());
    assert!(layout.exit_button.is_well_formed());
}

#[test]
fn layout_of_a_tiny_window_cannot_be_drawn() {
    let layout = Layout::new(9, 100);
    assert_eq!(layout.options_button, Dimensions::new(0, 0, 0, 10));
    assert_eq!(layout.exit_button, Dimensions::new(9, 0, 9, 10));
    assert!(!layout.options_button.is_well_formed());
    assert!(!layout.exit_button.is_well_formed());
    let layout = Layout::new(10, 10);
    assert!(layout.options_button.is_well_formed());
    assert!(layout.exit_button.is_well_formed());
}

#[test]
fn clicks_walk_from_main_to_options_and_back_and_out() {
    let layout = Layout::new(WIDTH, HEIGHT);
    let mut state = AppState::new();
    assert_eq!(state.screen, VirtualScreen::Main);

    let exit = state.release(&layout, Some(Position::new(25, 25)));
    assert!(!exit);
    assert_eq!(state.screen, VirtualScreen::Options);

    let exit = state.release(&layout, Some(Position::new(475, 25)));
    assert!(!exit);
    assert_eq!(state.screen, VirtualScreen::Main);

    let exit = state.release(&layout, Some(Position::new(475, 25)));
    assert!(exit);
    assert_eq!(state.screen, VirtualScreen::Main);
}

#[test]
fn click_outside_the_window_changes_nothing() {
    let layout = Layout::new(WIDTH, HEIGHT);
    for screen in [VirtualScreen::Main, VirtualScreen::Options, VirtualScreen::Default] {
        assert_eq!(screen.on_release(&layout, None), ClickOutcome::Show(screen));
        let mut state = AppState { screen, left_mouse: MouseEdge::new() };
        let before = state;
        assert!(!state.release(&layout, None));
        assert_eq!(state, before);
    }
}

#[test]
fn main_screen_transitions() {
    let layout = Layout::new(WIDTH, HEIGHT);
    let main = VirtualScreen::Main;
    assert_eq!(main.on_click(&layout, Position::new(450, 0)), ClickOutcome::Exit);
    assert_eq!(main.on_click(&layout, Position::new(500, 50)), ClickOutcome::Exit);
    assert_eq!(
        main.on_click(&layout, Position::new(0, 0)),
        ClickOutcome::Show(VirtualScreen::Options)
    );
    assert_eq!(
        main.on_click(&layout, Position::new(50, 50)),
        ClickOutcome::Show(VirtualScreen::Options)
    );
    assert_eq!(main.on_click(&layout, Position::new(51, 50)), ClickOutcome::Show(main));
    assert_eq!(main.on_click(&layout, Position::new(449, 10)), ClickOutcome::Show(main));
    assert_eq!(main.on_click(&layout, Position::new(250, 250)), ClickOutcome::Show(main));
    assert_eq!(main.on_click(&layout, Position::new(475, 51)), ClickOutcome::Show(main));
}

#[test]
fn options_screen_transitions() {
    let layout = Layout::new(WIDTH, HEIGHT);
    let options = VirtualScreen::Options;
    assert_eq!(
        options.on_click(&layout, Position::new(475, 25)),
        ClickOutcome::Show(VirtualScreen::Main)
    );
    assert_eq!(options.on_click(&layout, Position::new(25, 25)), ClickOutcome::Show(options));
    assert_eq!(options.on_click(&layout, Position::new(250, 250)), ClickOutcome::Show(options));
}

#[test]
fn default_screen_ignores_clicks() {
    let layout = Layout::new(WIDTH, HEIGHT);
    let default = VirtualScreen::Default;
    assert_eq!(default.on_click(&layout, Position::new(475, 25)), ClickOutcome::Show(default));
    assert_eq!(default.on_click(&layout, Position::new(25, 25)), ClickOutcome::Show(default));
    assert_eq!(default.on_click(&layout, Position::new(250, 250)), ClickOutcome::Show(default));
}

#[test]
fn exit_button_wins_where_the_buttons_overlap() {
    let layout = Layout {
        options_button: Dimensions::new(0, 0, 10, 10),
        exit_button: Dimensions::new(5, 0, 15, 10),
    };
    assert_eq!(VirtualScreen::Main.on_click(&layout, Position::new(7, 5)), ClickOutcome::Exit);
}

#[test]
fn release_is_reported_once_after_a_press() {
    let mut edge = MouseEdge::new();
    assert!(!edge.sample(false));
    assert!(!edge.sample(true));
    assert_eq!(edge, MouseEdge { down: true, pending: true });
    assert!(!edge.sample(true));
    assert!(edge.sample(false));
    assert_eq!(edge, MouseEdge { down: false, pending: false });
    assert!(!edge.sample(false));
    assert!(!edge.sample(true));
    assert!(edge.sample(false));
}

#[test]
fn sampling_the_mouse_keeps_the_screen() {
    let mut state = AppState { screen: VirtualScreen::Options, left_mouse: MouseEdge::new() };
    assert!(!state.sample_mouse(true));
    assert_eq!(state.screen, VirtualScreen::Options);
    assert!(state.sample_mouse(false));
    assert_eq!(state.screen, VirtualScreen::Options);
    assert_eq!(state.left_mouse, MouseEdge::new());
}

#[test]
fn animation_phase_advances_every_90_milliseconds() {
    assert_eq!(animation_phase(0), 0);
    assert_eq!(animation_phase(89), 0);
    assert_eq!(animation_phase(90), 1);
    assert_eq!(animation_phase(179), 1);
    assert_eq!(animation_phase(180), 2);
    assert_eq!(animation_phase(90 * 254), 254);
    assert_eq!(animation_phase(90 * 255 - 1), 254);
    assert_eq!(animation_phase(90 * 255), 0);
    assert_eq!(animation_phase(90 * 256), 1);
    assert_eq!(animation_phase(1_000_000), 146);
    assert_eq!(animation_phase(u128::MAX), (u128::MAX / 90 % 255) as u8);
}

#[test]
fn main_screen_shows_both_buttons() {
    let layout = Layout::new(WIDTH, HEIGHT);
    let mut buffer = vec![0x1234_5678u32; WIDTH * HEIGHT];
    render(&mut buffer, VirtualScreen::Main, &layout, 7, WIDTH, HEIGHT);
    let red: u32 = 0x07FF_0000;
    assert_eq!(buffer.len(), WIDTH * HEIGHT);
    assert_eq!(pixel_at(&buffer, 0, 0), YELLOW);
    assert_eq!(pixel_at(&buffer, 50, 50), YELLOW);
    assert_eq!(pixel_at(&buffer, 51, 50), BLACK);
    assert_eq!(pixel_at(&buffer, 50, 51), BLACK);
    assert_eq!(pixel_at(&buffer, 450, 0), red);
    assert_eq!(pixel_at(&buffer, 499, 50), red);
    assert_eq!(pixel_at(&buffer, 449, 0), BLACK);
    assert_eq!(pixel_at(&buffer, 499, 51), BLACK);
    assert_eq!(pixel_at(&buffer, 0, 51), BLACK);
    assert_eq!(pixel_at(&buffer, 250, 250), BLACK);
    assert_eq!(pixel_at(&buffer, 499, 499), BLACK);
}

#[test]
fn main_screen_frame_holds_exactly_the_two_buttons() {
    let layout = Layout::new(WIDTH, HEIGHT);
    let mut buffer = vec![0u32; WIDTH * HEIGHT];
    render(&mut buffer, VirtualScreen::Main, &layout, 200, WIDTH, HEIGHT);
    for y in 0..HEIGHT {
        for x in 0..WIDTH {
            let expected = if y <= 50 && x >= 450 {
                0xC8FF_0000
            } else if y <= 50 && x <= 50 {
                YELLOW
            } else {
                BLACK
            };
            assert_eq!(pixel_at(&buffer, x, y), expected);
        }
    }
}

#[test]
fn other_screens_show_the_exit_button_alone() {
    let layout = Layout::new(WIDTH, HEIGHT);
    for screen in [VirtualScreen::Options, VirtualScreen::Default] {
        let mut buffer = vec![0x1234_5678u32; WIDTH * HEIGHT];
        render(&mut buffer, screen, &layout, 0, WIDTH, HEIGHT);
        for y in 0..HEIGHT {
            for x in 0..WIDTH {
                let expected = if y <= 50 && x >= 450 { 0x00FF_0000 } else { BLACK };
                assert_eq!(pixel_at(&buffer, x, y), expected);
            }
        }
    }
}

#[test]
fn options_button_need_not_be_drawable_where_it_is_not_shown() {
    let layout = Layout {
        options_button: Dimensions::new(5, 5, 5, 5),
        exit_button: Dimensions::new(2, 0, 3, 1),
    };
    let mut buffer = vec![0u32; 16];
    render(&mut buffer, VirtualScreen::Options, &layout, 255, 4, 4);
    let red: u32 = 0xFFFF_0000;
    let expected: Vec<u32> = vec![
        BLACK, BLACK, red, red, //
        BLACK, BLACK, red, red, //
        BLACK, BLACK, BLACK, BLACK, //
        BLACK, BLACK, BLACK, BLACK,
    ];
    assert_eq!(buffer, expected);
}

#[test]
fn exit_button_is_drawn_over_the_options_button() {
    let layout = Layout {
        options_button: Dimensions::new(0, 0, 2, 1),
        exit_button: Dimensions::new(2, 0, 3, 1),
    };
    let mut buffer = vec![0u32; 16];
    render(&mut buffer, VirtualScreen::Main, &layout, 1, 4, 4);
    let red: u32 = 0x01FF_0000;
    let expected: Vec<u32> = vec![
        YELLOW, YELLOW, red, red, //
        YELLOW, YELLOW, red, red, //
        BLACK, BLACK, BLACK, BLACK, //
        BLACK, BLACK, BLACK, BLACK,
    ];
    assert_eq!(buffer, expected);
}
