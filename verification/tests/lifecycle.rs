//! Lifecycle scenarios: single-instance creation, the initial resize, the
//! suspend gate, error handling in the loop, and forced shutdown.

use std::cell::RefCell;
use std::rc::Rc;

use runloop::app::{App, AppConfig, AppCreateError, AppRunError, InstanceFlag};
use runloop::game::{Game, GameError};
use runloop::platform::{OsMessage, WM_DESTROY};

#[derive(Default)]
struct Counts {
    initialize: u32,
    update: u32,
    render: u32,
    resizes: Vec<(u32, u32)>,
}

struct ScriptedGame {
    counts: Rc<RefCell<Counts>>,
    fail_initialize: bool,
    updates_before_error: Option<u32>,
    renders_before_error: Option<u32>,
}

impl ScriptedGame {
    fn well_behaved(counts: &Rc<RefCell<Counts>>) -> ScriptedGame {
        ScriptedGame {
            counts: Rc::clone(counts),
            fail_initialize: false,
            updates_before_error: None,
            renders_before_error: None,
        }
    }
}

impl Game for ScriptedGame {
    fn initialize(&mut self) -> Result<(), GameError> {
        self.counts.borrow_mut().initialize += 1;
        if self.fail_initialize {
            Err(GameError { code: 7 })
        } else {
            Ok(())
        }
    }

    fn update(&mut self, _dt: u64) -> Result<(), GameError> {
        let mut counts = self.counts.borrow_mut();
        counts.update += 1;
        match self.updates_before_error {
            Some(n) if counts.update > n => Err(GameError { code: 42 }),
            _ => Ok(()),
        }
    }

    fn render(&mut self, _dt: u64) -> Result<(), GameError> {
        let mut counts = self.counts.borrow_mut();
        counts.render += 1;
        match self.renders_before_error {
            Some(n) if counts.render > n => Err(GameError { code: 43 }),
            _ => Ok(()),
        }
    }

    fn on_resize(&mut self, width: u32, height: u32) {
        self.counts.borrow_mut().resizes.push((width, height));
    }
}

fn demo_config() -> AppConfig {
    AppConfig { x: 0, y: 0, width: 800, height: 600, name: String::from("demo") }
}

fn destroy_message() -> OsMessage {
    OsMessage { code: WM_DESTROY, wparam: 0, lparam: 0 }
}

#[test]
fn second_create_fails_with_multiple_create_error() {
    let mut flag = InstanceFlag::new();
    let first_counts = Rc::new(RefCell::new(Counts::default()));
    let (first, _) = App::create(ScriptedGame::well_behaved(&first_counts), demo_config(), &mut flag);
    assert!(first.is_ok());

    let second_counts = Rc::new(RefCell::new(Counts::default()));
    let (second, _) =
        App::create(ScriptedGame::well_behaved(&second_counts), demo_config(), &mut flag);
    assert!(matches!(second, Err(AppCreateError::MultipleCreateError)));
    let untouched = second_counts.borrow();
    assert_eq!(untouched.initialize, 0);
    assert_eq!(untouched.update, 0);
    assert_eq!(untouched.render, 0);
    assert!(untouched.resizes.is_empty());
}

#[test]
fn create_delivers_initial_resize_exactly_once() {
    let mut flag = InstanceFlag::new();
    let counts = Rc::new(RefCell::new(Counts::default()));
    let (created, _) = App::create(ScriptedGame::well_behaved(&counts), demo_config(), &mut flag);
    assert!(created.is_ok());
    let seen = counts.borrow();
    assert_eq!(seen.initialize, 1);
    assert_eq!(seen.resizes, vec![(800, 600)]);
}

#[test]
fn suspended_run_skips_update_and_render() {
    let mut flag = InstanceFlag::new();
    let counts = Rc::new(RefCell::new(Counts::default()));
    let (created, _) = App::create(ScriptedGame::well_behaved(&counts), demo_config(), &mut flag);
    let mut app = created.unwrap();
    app.set_suspended(true);
    app.post_message(destroy_message());
    let (result, _) = app.run(10);
    assert_eq!(result, Ok(()));
    let seen = counts.borrow();
    assert_eq!(seen.update, 0);
    assert_eq!(seen.render, 0);
}

#[test]
fn update_error_on_fourth_frame_skips_render_and_stops() {
    let mut flag = InstanceFlag::new();
    let counts = Rc::new(RefCell::new(Counts::default()));
    let game = ScriptedGame {
        counts: Rc::clone(&counts),
        fail_initialize: false,
        updates_before_error: Some(3),
        renders_before_error: None,
    };
    let (created, _) = App::create(game, demo_config(), &mut flag);
    let app = created.unwrap();
    let (result, _) = app.run(100);
    assert_eq!(result, Err(AppRunError::Game(GameError { code: 42 })));
    let seen = counts.borrow();
    assert_eq!(seen.update, 4);
    assert_eq!(seen.render, 3);
}

#[test]
fn render_error_stops_right_after_its_update() {
    let mut flag = InstanceFlag::new();
    let counts = Rc::new(RefCell::new(Counts::default()));
    let game = ScriptedGame {
        counts: Rc::clone(&counts),
        fail_initialize: false,
        updates_before_error: None,
        renders_before_error: Some(0),
    };
    let (created, _) = App::create(game, demo_config(), &mut flag);
    let app = created.unwrap();
    let (result, _) = app.run(100);
    assert_eq!(result, Err(AppRunError::Game(GameError { code: 43 })));
    let seen = counts.borrow();
    assert_eq!(seen.update, 1);
    assert_eq!(seen.render, 1);
}

#[test]
fn quit_message_stops_loop_before_that_frame() {
    let mut flag = InstanceFlag::new();
    let counts = Rc::new(RefCell::new(Counts::default()));
    let (created, _) = App::create(ScriptedGame::well_behaved(&counts), demo_config(), &mut flag);
    let mut app = created.unwrap();
    app.post_message(destroy_message());
    let (result, _) = app.run(10);
    assert_eq!(result, Ok(()));
    let seen = counts.borrow();
    assert_eq!(seen.update, 0);
    assert_eq!(seen.render, 0);
}

#[test]
fn frame_budget_bounds_a_quiet_run() {
    let mut flag = InstanceFlag::new();
    let counts = Rc::new(RefCell::new(Counts::default()));
    let (created, _) = App::create(ScriptedGame::well_behaved(&counts), demo_config(), &mut flag);
    let app = created.unwrap();
    let (result, _) = app.run(5);
    assert_eq!(result, Ok(()));
    let seen = counts.borrow();
    assert_eq!(seen.update, 5);
    assert_eq!(seen.render, 5);
}

#[test]
fn failed_initialize_reports_game_error_and_keeps_flag_set() {
    let mut flag = InstanceFlag::new();
    let counts = Rc::new(RefCell::new(Counts::default()));
    let game = ScriptedGame {
        counts: Rc::clone(&counts),
        fail_initialize: true,
        updates_before_error: None,
        renders_before_error: None,
    };
    let (created, _) = App::create(game, demo_config(), &mut flag);
    assert!(matches!(created, Err(AppCreateError::Game(GameError { code: 7 }))));
    assert!(counts.borrow().resizes.is_empty());

    let retry_counts = Rc::new(RefCell::new(Counts::default()));
    let (retried, _) =
        App::create(ScriptedGame::well_behaved(&retry_counts), demo_config(), &mut flag);
    assert!(matches!(retried, Err(AppCreateError::MultipleCreateError)));
}

#[test]
fn instance_flag_latches_on_first_claim() {
    let mut flag = InstanceFlag::new();
    assert!(!flag.check_and_set());
    assert!(flag.check_and_set());
    assert!(flag.check_and_set());
}

#[test]
fn error_messages_name_the_failure() {
    assert_eq!(
        AppCreateError::MultipleCreateError.message(),
        "Attempt to create multiple `App` instances"
    );
    assert_eq!(AppCreateError::Game(GameError { code: 1 }).message(), "game error");
    assert_eq!(AppRunError::Game(GameError { code: 1 }).message(), "game error");
}
