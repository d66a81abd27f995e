use frame_session::command::{Command, Rgba, Viewport};
use frame_session::game::Game;
use frame_session::session::Phase;

fn clear_of(width: i32, height: i32) -> Vec<Command> {
    vec![
        Command::ClearRenderTarget { color: Rgba { red: 0, green: 0, blue: 500, alpha: 1000 } },
        Command::ClearDepthStencil { depth: 1000, stencil: 0 },
        Command::BindRenderTarget,
        Command::SetViewport {
            viewport: Viewport {
                top_left_x: 0,
                top_left_y: 0,
                width,
                height,
                min_depth: 0,
                max_depth: 1000,
            },
        },
    ]
}

fn ready(width: i32, height: i32) -> Game {
    let mut game = Game::new();
    let _ = game.initialize(1, width, height);
    assert!(game.device_created(0, 0xb100).is_ok());
    assert!(game.swap_chain_created(0).is_ok());
    assert!(game.render_target_view_created(0).is_ok());
    assert!(game.depth_stencil_view_created(0).is_ok());
    game
}

#[test]
fn render_does_nothing_before_the_first_tick() {
    let mut game = ready(800, 600);
    assert!(game.is_ready());
    let before = game.state();
    assert_eq!(game.render(), vec![]);
    assert_eq!(game.state(), before);
    assert_eq!(game.phase(), Phase::Ready);
}

#[test]
fn render_does_nothing_before_the_first_tick_without_resources() {
    let mut game = Game::new();
    let before = game.state();
    assert_eq!(game.render(), vec![]);
    assert_eq!(game.state(), before);
}

#[test]
fn render_after_the_first_tick_clears_and_presents() {
    let mut game = ready(800, 600);
    let _ = game.tick();
    let mut expected = clear_of(800, 600);
    expected.push(Command::Present { sync_interval: 1, flags: 0 });
    assert_eq!(game.render(), expected);
    assert_eq!(game.phase(), Phase::Presenting);
    assert_eq!(game.frame_count(), 1);
}

#[test]
fn render_without_resources_asks_for_nothing() {
    let mut game = Game::new();
    assert_eq!(game.tick(), vec![Command::AdvanceTimer]);
    assert_eq!(game.tick(), vec![Command::AdvanceTimer]);
    assert_eq!(game.frame_count(), 2);
    let before = game.state();
    assert_eq!(game.render(), vec![]);
    assert_eq!(game.state(), before);
    assert_eq!(game.phase(), Phase::Uninitialized);
}

#[test]
fn clear_without_anything_asks_for_nothing() {
    let game = Game::new();
    assert_eq!(game.clear(), vec![]);
}

#[test]
fn clear_without_device_asks_for_nothing() {
    let mut game = Game::new();
    let _ = game.initialize(1, 800, 600);
    assert_eq!(game.phase(), Phase::CreatingDevice);
    assert_eq!(game.clear(), vec![]);
}

#[test]
fn clear_without_swap_chain_asks_for_nothing() {
    let mut game = Game::new();
    let _ = game.initialize(1, 800, 600);
    assert!(game.device_created(0, 0xb100).is_ok());
    assert!(game.has_device());
    assert!(!game.has_swap_chain());
    assert_eq!(game.clear(), vec![]);
}

#[test]
fn clear_without_render_target_view_asks_for_nothing() {
    let mut game = Game::new();
    let _ = game.initialize(1, 800, 600);
    assert!(game.device_created(0, 0xb100).is_ok());
    assert!(game.swap_chain_created(0).is_ok());
    assert_eq!(game.phase(), Phase::CreatingRenderTargetView);
    assert!(game.has_swap_chain());
    assert_eq!(game.clear(), vec![]);
}

#[test]
fn clear_without_depth_stencil_view_asks_for_nothing() {
    let mut game = Game::new();
    let _ = game.initialize(1, 800, 600);
    assert!(game.device_created(0, 0xb100).is_ok());
    assert!(game.swap_chain_created(0).is_ok());
    assert!(game.render_target_view_created(0).is_ok());
    assert_eq!(game.phase(), Phase::CreatingDepthStencilView);
    assert_eq!(game.clear(), vec![]);
    assert!(!game.is_ready());
}

#[test]
fn clear_with_everything_prepares_the_whole_target() {
    let game = ready(1024, 768);
    assert_eq!(game.clear(), clear_of(1024, 768));
    let small = ready(-4, 0);
    assert_eq!(small.clear(), clear_of(1, 1));
}

#[test]
fn clear_after_a_stop_asks_for_nothing() {
    let mut game = ready(800, 600);
    let _ = game.tick();
    let _ = game.tick();
    assert!(game.presented(-1).is_err());
    assert_eq!(game.clear(), vec![]);
    assert!(!game.is_ready());
}

#[test]
fn tick_counts_every_frame() {
    let mut game = ready(800, 600);
    for expected in 1..=5u64 {
        let commands = game.tick();
        assert_eq!(commands[0], Command::AdvanceTimer);
        if expected > 1 {
            assert_eq!(commands.len(), 6);
            assert_eq!(game.presented(0), Ok(vec![]));
        } else {
            assert_eq!(commands.len(), 1);
        }
        assert_eq!(game.frame_count(), expected);
    }
}
