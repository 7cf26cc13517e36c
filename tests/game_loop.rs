use game_loop::driver::{Error, GameLoop, Remainder, Renderer, Updater};
use game_loop::time::Span;
use std::time::{Duration, Instant};

#[derive(Debug, Default)]
struct State {
    update: usize,
    render: usize,
    last_remainder: Option<f32>,
}

impl Updater for State {
    type Error = std::io::Error;

    fn update(&mut self) -> Result<(), Self::Error> {
        self.update += 1;
        Ok(())
    }
}

impl Renderer for State {
    type Error = std::io::Error;

    fn render(&mut self, remainder: Remainder) -> Result<(), Self::Error> {
        self.render += 1;
        self.last_remainder = Some(as_f32(&remainder));
        Ok(())
    }
}

/// A game state whose updates fail from the `fail_at`-th call on, and whose
/// renders fail when `fail_render` is set.
#[derive(Debug, Default)]
struct Flaky {
    update: usize,
    render: usize,
    fail_at: usize,
    fail_render: bool,
}

impl Updater for Flaky {
    type Error = String;

    fn update(&mut self) -> Result<(), Self::Error> {
        self.update += 1;
        if self.update >= self.fail_at {
            Err(format!("update {} failed", self.update))
        } else {
            Ok(())
        }
    }
}

impl Renderer for Flaky {
    type Error = String;

    fn render(&mut self, _remainder: Remainder) -> Result<(), Self::Error> {
        self.render += 1;
        if self.fail_render {
            Err(String::from("render failed"))
        } else {
            Ok(())
        }
    }
}

fn as_f32(r: &Remainder) -> f32 {
    r.accumulated_nanos() as f32 / r.interval_nanos() as f32
}

fn fraction<T: Updater + Renderer>(game_loop: &GameLoop<T>) -> f32 {
    as_f32(&game_loop.remainder())
}

#[test]
fn test_game_loop_state() {
    let mut game_loop = GameLoop::new(State {
        update: 1,
        render: 2,
        last_remainder: None,
    });

    assert_eq!(game_loop.state().update, 1);
    assert_eq!(game_loop.state().render, 2);
}

#[test]
fn test_game_loop_tick_drains_accumulated_time() {
    let mut game_loop = GameLoop::new(State::default());

    game_loop.add_accumulated_time(Span::from_millis(10));
    game_loop.tick().unwrap();
    assert_eq!(game_loop.state().update, 1);

    game_loop.add_accumulated_time(Span::from_millis(6));
    game_loop.tick().unwrap();
    assert_eq!(game_loop.state().update, 1);

    game_loop.add_accumulated_time(Span::from_millis(16));
    game_loop.tick().unwrap();
    assert_eq!(game_loop.state().update, 3);
}

#[test]
fn test_game_loop_remainder() {
    let mut game_loop = GameLoop::new(State::default());

    game_loop.add_accumulated_time(Span::from_millis(9));
    assert_eq!(fraction(&game_loop), 0.9);
}

#[test]
#[should_panic]
fn test_game_loop_invalid_remainder() {
    let mut game_loop = GameLoop::new(State::default());

    game_loop.add_accumulated_time(Span::from_millis(10));

    // A full interval is outside the range that `remainder` accepts; a caller
    // has to check before asking.
    assert!(game_loop.remainder_in_range(), "remainder out of range");
    let _ = game_loop.remainder();
}

#[test]
fn test_game_loop_tick_runs_renderer() {
    let mut game_loop = GameLoop::new(State::default());

    game_loop.tick().unwrap();

    assert_eq!(game_loop.state().render, 1);
}

#[test]
fn advance_drains_in_fixed_intervals() {
    let mut game_loop = GameLoop::new(State::default());

    game_loop.add_accumulated_time(Span::from_millis(10));
    game_loop.advance(Span::zero()).unwrap();
    assert_eq!(game_loop.state().update, 1);
    assert_eq!(game_loop.state().last_remainder, Some(0.0));
    assert_eq!(fraction(&game_loop), 0.0);

    game_loop.add_accumulated_time(Span::from_millis(6));
    game_loop.advance(Span::zero()).unwrap();
    assert_eq!(game_loop.state().update, 1);
    assert_eq!(game_loop.state().last_remainder, Some(0.6));
    assert_eq!(game_loop.remainder().accumulated_nanos(), 6_000_000);

    game_loop.add_accumulated_time(Span::from_millis(16));
    game_loop.advance(Span::zero()).unwrap();
    assert_eq!(game_loop.state().update, 3);
    assert_eq!(game_loop.state().last_remainder, Some(0.2));
    assert_eq!(game_loop.remainder().accumulated_nanos(), 2_000_000);
    assert_eq!(game_loop.state().render, 3);
}

#[test]
fn advance_adds_elapsed_time() {
    let mut game_loop = GameLoop::new(State::default());

    game_loop.add_accumulated_time(Span::from_millis(3));
    game_loop.advance(Span::from_nanos(45_000_000)).unwrap();
    assert_eq!(game_loop.state().update, 4);
    assert_eq!(game_loop.remainder().accumulated_nanos(), 8_000_000);
    assert_eq!(game_loop.remainder().interval_nanos(), 10_000_000);
}

#[test]
fn many_adds_then_one_tick() {
    let mut game_loop = GameLoop::new(State::default());

    for _ in 0..7 {
        game_loop.add_accumulated_time(Span::from_millis(3));
    }
    game_loop.advance(Span::zero()).unwrap();
    assert_eq!(game_loop.state().update, 2);
    assert_eq!(game_loop.remainder().accumulated_nanos(), 1_000_000);
}

#[test]
fn tick_with_nothing_accumulated_only_renders() {
    let mut game_loop = GameLoop::new(State::default());

    game_loop.advance(Span::zero()).unwrap();
    assert_eq!(game_loop.state().update, 0);
    assert_eq!(game_loop.state().render, 1);
    assert_eq!(game_loop.state().last_remainder, Some(0.0));
}

#[test]
fn remainder_is_in_range_after_every_tick() {
    let mut game_loop = GameLoop::new(State::default());

    for millis in [0, 1, 9, 10, 11, 19, 25, 100, 999] {
        game_loop.add_accumulated_time(Span::from_millis(millis));
        game_loop.tick().unwrap();
        assert!(game_loop.remainder_in_range());
        let r = game_loop.remainder();
        assert!(r.accumulated_nanos() < r.interval_nanos() as u128);
        let f = fraction(&game_loop);
        assert!((0.0..1.0).contains(&f));
    }
}

#[test]
fn failed_update_stops_the_tick() {
    let mut game_loop = GameLoop::new(Flaky {
        fail_at: 3,
        ..Flaky::default()
    });

    game_loop.add_accumulated_time(Span::from_millis(45));
    match game_loop.advance(Span::zero()) {
        Err(Error::Update(e)) => assert_eq!(e, "update 3 failed"),
        other => panic!("expected an update error, got {:?}", other),
    }
    assert_eq!(game_loop.state().update, 3);
    assert_eq!(game_loop.state().render, 0);
    // Two intervals were spent; the failing update spent nothing.
    assert_eq!(game_loop.remainder_in_range(), false);

    // The next tick retries the same slot.
    game_loop.state().fail_at = usize::MAX;
    game_loop.advance(Span::zero()).unwrap();
    assert_eq!(game_loop.state().update, 5);
    assert_eq!(game_loop.state().render, 1);
    assert_eq!(game_loop.remainder().accumulated_nanos(), 5_000_000);
}

#[test]
fn failed_first_update_spends_nothing() {
    let mut game_loop = GameLoop::new(Flaky {
        fail_at: 1,
        ..Flaky::default()
    });

    game_loop.add_accumulated_time(Span::from_millis(12));
    assert!(matches!(game_loop.tick(), Err(Error::Update(_))));
    assert_eq!(game_loop.state().update, 1);
    assert_eq!(game_loop.state().render, 0);

    game_loop.state().fail_at = usize::MAX;
    game_loop.advance(Span::zero()).unwrap();
    assert_eq!(game_loop.state().update, 2);
    assert_eq!(game_loop.remainder().accumulated_nanos(), 2_000_000);
}

#[test]
fn failed_render_is_reported() {
    let mut game_loop = GameLoop::new(Flaky {
        fail_at: usize::MAX,
        fail_render: true,
        ..Flaky::default()
    });

    game_loop.add_accumulated_time(Span::from_millis(25));
    match game_loop.tick() {
        Err(Error::Render(e)) => assert_eq!(e, "render failed"),
        other => panic!("expected a render error, got {:?}", other),
    }
    assert_eq!(game_loop.state().update, 2);
    assert_eq!(game_loop.state().render, 1);
    assert_eq!(game_loop.remainder().accumulated_nanos(), 5_000_000);
}

#[test]
fn custom_update_rate() {
    let mut game_loop = GameLoop::with_updates_per_second(State::default(), 50);

    assert_eq!(game_loop.remainder().interval_nanos(), 20_000_000);
    game_loop.add_accumulated_time(Span::from_millis(50));
    game_loop.advance(Span::zero()).unwrap();
    assert_eq!(game_loop.state().update, 2);
    assert_eq!(game_loop.state().last_remainder, Some(0.5));
}

#[test]
fn default_update_interval_is_ten_milliseconds() {
    let game_loop = GameLoop::new(State::default());
    assert_eq!(game_loop.remainder().interval_nanos(), 10_000_000);
    assert_eq!(game_loop.remainder().accumulated_nanos(), 0);
}

#[test]
fn tick_measures_time_since_previous_tick() {
    let mut game_loop = GameLoop::new(State::default());

    game_loop.tick().unwrap();
    let start = Instant::now();
    while start.elapsed() < Duration::from_millis(25) {}
    game_loop.tick().unwrap();

    assert!(game_loop.state().update >= 2);
    assert_eq!(game_loop.state().render, 2);
    assert!(game_loop.remainder_in_range());
}

#[test]
fn span_constructors() {
    assert_eq!(Span::zero().as_nanos(), 0);
    assert_eq!(Span::from_millis(7).as_nanos(), 7_000_000);
    assert_eq!(Span::from_nanos(123).as_nanos(), 123);
    assert_eq!(
        Span::from_millis(u64::MAX).as_nanos(),
        u64::MAX as u128 * 1_000_000
    );
}
