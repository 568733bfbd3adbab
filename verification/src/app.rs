//! The application lifecycle: single-instance creation, the
//! create -> loop -> shutdown protocol, and suspend gating of the
//! simulation step.

use vstd::prelude::*;
use crate::events::{
    complete_iterations, count_kind, ev_pump, ev_render_ok, ev_update_ok, final_iteration,
    full_iteration, kind_of, lemma_complete_iterations_append, lemma_loop_trace_prepend,
    loop_trace, run_trace, Event, EventKind,
};
use crate::game::{Game, GameError};
use crate::platform::{queue_posts_quit, OsMessage, PlatformError, PlatformState};

verus! {

/// Application configuration, consumed once by `create`: the initial
/// window position and client-area size, and the display name used for
/// the window. No field has a default; the caller supplies all of them.
#[derive(Debug)]
pub struct AppConfig {
    /// Window starting position, x axis.
    pub x: i32,
    /// Window starting position, y axis.
    pub y: i32,
    /// Starting client-area width.
    pub width: u32,
    /// Starting client-area height.
    pub height: u32,
    /// The application name used in windowing.
    pub name: String,
}

/// The process-wide "an application was created" token. It is set by the
/// first successful check during `create` and never cleared afterwards,
/// even when creation fails later: creation is observable only through
/// this flag never resetting. A process owns exactly one value of this
/// type; `create` takes it exclusively, so the check-and-set cannot race.
/// Minting the flag once per process is the embedder's obligation: `new`
/// is freely callable, so the single-instance guarantee is per flag value,
/// by construction, not a property `new` itself can enforce.
pub struct InstanceFlag {
    set: bool,
}

impl InstanceFlag {
    /// The flag has been claimed by a `create` call.
    pub closed spec fn is_set(self) -> bool {
        self.set
    }

    /// The one per-process flag, initially unclaimed.
    pub fn new() -> (flag: InstanceFlag)
        ensures
            !flag.is_set(),
    {
        InstanceFlag { set: false }
    }

    /// Claims the flag, reporting whether it was already claimed. The
    /// exclusive borrow makes the check and the set one indivisible step.
    pub fn check_and_set(&mut self) -> (was_set: bool)
        ensures
            was_set == old(self).is_set(),
            final(self).is_set(),
    {
        let was_set = self.set;
        self.set = true;
        was_set
    }
}

/// Why `create` failed. Every failure is fatal to creation; nothing is
/// retried.
#[derive(Clone, Copy, Debug, PartialEq, Eq, Structural)]
pub enum AppCreateError {
    /// A live application already exists in this process.
    MultipleCreateError,
    /// The platform backend failed to start.
    Platform(PlatformError),
    /// The game's one-time initialization failed.
    Game(GameError),
}

impl AppCreateError {
    /// The failure's display text. `MultipleCreateError` carries its own
    /// wording; the other variants display as their wrapped cause, which
    /// here is a bare code, so this names the failing collaborator and the
    /// payload renders the code itself.
    pub fn message(&self) -> (r: &'static str)
        ensures
            self is MultipleCreateError ==> r@ == "Attempt to create multiple `App` instances"@,
            self is Platform ==> r@ == "platform error"@,
            self is Game ==> r@ == "game error"@,
    {
        match self {
            AppCreateError::MultipleCreateError => "Attempt to create multiple `App` instances",
            AppCreateError::Platform(_) => "platform error",
            AppCreateError::Game(_) => "game error",
        }
    }
}

/// Why `run` stopped with an error. Any occurrence is fatal to the run:
/// the loop stops, forced cleanup runs, and the error is returned.
#[derive(Clone, Copy, Debug, PartialEq, Eq, Structural)]
pub enum AppRunError {
    /// The message pump or the platform shutdown failed.
    Platform(PlatformError),
    /// The game's update or render step failed.
    Game(GameError),
}

impl AppRunError {
    /// The failure's display text. Both variants display as their wrapped
    /// cause, which here is a bare code, so this names the failing
    /// collaborator and the payload renders the code itself.
    pub fn message(&self) -> (r: &'static str)
        ensures
            self is Platform ==> r@ == "platform error"@,
            self is Game ==> r@ == "game error"@,
    {
        match self {
            AppRunError::Platform(_) => "platform error",
            AppRunError::Game(_) => "game error",
        }
    }
}

/// The root entity: owns one game and one platform backend and drives the
/// create -> loop -> shutdown protocol over them.
pub struct App<G: Game> {
    game: G,
    running: bool,
    suspended: bool,
    platform: PlatformState,
    width: u32,
    height: u32,
    last_time: u64,
    events: Ghost<Seq<Event>>,
}

/// What a finished `create` call guarantees, given the trace `t` of the
/// calls it made: on success the backend was started at the configured
/// position and client size under the configured name, the game
/// initialized, and exactly one resize notice with the configured size was
/// delivered, in that order, and the application starts running and not
/// suspended with an idle platform; a game that refuses to initialize
/// aborts creation right after its failure; the modelled backend cannot
/// fail to start, and the single-instance check was already passed, so no
/// other error can come.
pub open spec fn create_outcome<G: Game>(
    res: Result<App<G>, AppCreateError>,
    t: Seq<Event>,
    config: AppConfig,
) -> bool {
    match res {
        Ok(app) => {
            &&& t =~= seq![
                Event::PlatformStartup,
                (Event::GameInitialize { error: None }),
                (Event::GameResize { width: config.width, height: config.height }),
            ]
            &&& app.trace() == t
            &&& app.is_running()
            &&& !app.is_suspended()
            &&& app.size() == (config.width, config.height)
            &&& app.platform_state().window_open()
            &&& !app.platform_state().quit_posted()
            &&& app.platform_state().pending() =~= Seq::<OsMessage>::empty()
            &&& app.platform_state().client_size() == (config.width, config.height)
            &&& app.platform_state().client_pos() == (config.x, config.y)
            &&& app.platform_state().title() == config.name@
        },
        Err(AppCreateError::Game(e)) => t =~= seq![
            Event::PlatformStartup,
            (Event::GameInitialize { error: Some(e) }),
        ],
        Err(AppCreateError::Platform(_)) => false,
        Err(AppCreateError::MultipleCreateError) => false,
    }
}

/// The pump events of a run are anchored to the platform the run started
/// with: the run owns the application, so no message can arrive while the
/// loop turns. The first pump therefore reports the quit signal exactly
/// when one was already posted or queued at entry, and every later pump
/// finds an empty queue and reports more to do.
pub open spec fn pumps_anchored(
    pre: Seq<Event>,
    full: Seq<Event>,
    platform: PlatformState,
) -> bool {
    let body = full.subrange(pre.len() as int, full.len() - 1);
    &&& (body.len() > 0 ==> body[0] == ev_pump(
        !(platform.quit_posted() || queue_posts_quit(platform.pending())),
    ))
    &&& forall|i: int|
        1 <= i < body.len() && kind_of(#[trigger] body[i]) == EventKind::Pump ==> body[i]
            == ev_pump(true)
}

/// A successful `create` has notified the game of the configured size
/// exactly once, as its very last step, after starting the platform and
/// initializing the game exactly once each; `run` delivers no further
/// resize (see `lemma_run_shutdown_exactly_once`), so the notice precedes
/// everything `run` does.
pub proof fn lemma_create_resizes_once<G: Game>(
    res: Result<App<G>, AppCreateError>,
    t: Seq<Event>,
    config: AppConfig,
)
    requires
        create_outcome(res, t, config),
        res is Ok,
    ensures
        t.len() == 3,
        t[2] == (Event::GameResize { width: config.width, height: config.height }),
        count_kind(t, EventKind::ResizeNote) == 1,
        count_kind(t, EventKind::Initialize) == 1,
        count_kind(t, EventKind::Startup) == 1,
{
    reveal_with_fuel(count_kind, 5);
    assert(t.skip(1) =~= seq![
        (Event::GameInitialize { error: None }),
        (Event::GameResize { width: config.width, height: config.height }),
    ]);
    assert(t.skip(1).skip(1) =~= seq![
        (Event::GameResize { width: config.width, height: config.height }),
    ]);
    assert(t.skip(1).skip(1).skip(1) =~= Seq::<Event>::empty());
}

impl<G: Game> App<G> {
    /// The loop keeps iterating while this holds.
    pub closed spec fn is_running(self) -> bool {
        self.running
    }

    /// While set, iterations pump messages but skip update and render.
    pub closed spec fn is_suspended(self) -> bool {
        self.suspended
    }

    /// Current client-area size as the application tracks it.
    pub closed spec fn size(self) -> (u32, u32) {
        (self.width, self.height)
    }

    /// The calls made so far into the game and the platform.
    pub closed spec fn trace(self) -> Seq<Event> {
        self.events@
    }

    /// The owned platform backend's state.
    pub closed spec fn platform_state(self) -> PlatformState {
        self.platform
    }

    /// Creates the one application of the process: claims the
    /// single-instance flag (and fails with `MultipleCreateError`, touching
    /// neither platform nor game, when it was already claimed), starts the
    /// platform backend with the configured position, size and name,
    /// initializes the game, and delivers one resize notice with the
    /// configured size. The flag stays claimed even when a later step
    /// fails. Returns the application together with the trace of the calls
    /// made.
    pub fn create(game: G, app_config: AppConfig, flag: &mut InstanceFlag) -> (r: (
        Result<App<G>, AppCreateError>,
        Ghost<Seq<Event>>,
    ))
        ensures
            final(flag).is_set(),
            old(flag).is_set() ==> (r.0 matches Err(AppCreateError::MultipleCreateError) && r.1@
                =~= Seq::<Event>::empty()),
            !old(flag).is_set() ==> create_outcome(r.0, r.1@, app_config),
    {
        if flag.check_and_set() {
            return (Err(AppCreateError::MultipleCreateError), Ghost(Seq::empty()));
        }
        let platform = match PlatformState::startup(
            app_config.name.as_str(),
            app_config.x,
            app_config.y,
            app_config.width,
            app_config.height,
        ) {
            Ok(p) => p,
            Err(e) => {
                return (Err(AppCreateError::Platform(e)), Ghost(Seq::empty()));
            },
        };
        let ghost startup_trace: Seq<Event> = seq![Event::PlatformStartup];
        let mut out = App {
            game,
            running: true,
            suspended: false,
            platform,
            width: app_config.width,
            height: app_config.height,
            last_time: 0,
            events: Ghost(startup_trace),
        };
        match out.game.initialize() {
            Err(e) => {
                out.events = Ghost(out.events@.push(Event::GameInitialize { error: Some(e) }));
                let trace = out.events;
                proof {
                    assert(trace@ =~= seq![
                        Event::PlatformStartup,
                        (Event::GameInitialize { error: Some(e) }),
                    ]);
                }
                return (Err(AppCreateError::Game(e)), trace);
            },
            Ok(()) => {
                out.events = Ghost(out.events@.push(Event::GameInitialize { error: None }));
            },
        }
        out.game.on_resize(out.width, out.height);
        out.events = Ghost(
            out.events@.push(Event::GameResize { width: out.width, height: out.height }),
        );
        let trace = out.events;
        proof {
            assert(trace@ =~= seq![
                Event::PlatformStartup,
                (Event::GameInitialize { error: None }),
                (Event::GameResize { width: app_config.width, height: app_config.height }),
            ]);
        }
        (Ok(out), trace)
    }

    /// The hook for a platform backend or an external controller to gate
    /// the simulation step: while suspended the loop keeps pumping messages
    /// but skips update and render.
    pub fn set_suspended(&mut self, suspended: bool)
        ensures
            final(self).is_suspended() == suspended,
            final(self).is_running() == old(self).is_running(),
            final(self).size() == old(self).size(),
            final(self).trace() == old(self).trace(),
            final(self).platform_state() == old(self).platform_state(),
    {
        self.suspended = suspended;
    }

    /// Queues one raw window message on the owned backend, as the host
    /// does while the process runs.
    pub fn post_message(&mut self, message: OsMessage)
        ensures
            final(self).platform_state().pending() =~= old(
                self,
            ).platform_state().pending().push(message),
            final(self).platform_state().window_open() == old(self).platform_state().window_open(),
            final(self).platform_state().quit_posted() == old(self).platform_state().quit_posted(),
            final(self).is_running() == old(self).is_running(),
            final(self).is_suspended() == old(self).is_suspended(),
            final(self).size() == old(self).size(),
            final(self).trace() == old(self).trace(),
    {
        self.platform.post_message(message);
    }

    /// Runs the loop to completion, consuming the application: each
    /// iteration pumps platform messages and stops cleanly when the quit
    /// signal is observed; otherwise, unless suspended, it steps update
    /// then render, and the first game failure stops the loop at once with
    /// that error. Whatever way the loop exits, the platform backend is
    /// shut down exactly once, last. The loop also stops, with success,
    /// once it has driven `max_frames` complete iterations: the caller
    /// allots the frame budget, since a verified loop must be bounded.
    /// Returns the result together with the full trace; `run_trace` pins
    /// the trace's shape, `pumps_anchored` ties its pump events to the
    /// platform state the run started with, every update and render
    /// receives the placeholder timestep 0, and with this backend the only
    /// possible error is the game's own.
    pub fn run(self, max_frames: u64) -> (r: (Result<(), AppRunError>, Ghost<Seq<Event>>))
        ensures
            run_trace(
                self.trace(),
                r.1@,
                self.is_suspended(),
                self.is_running(),
                max_frames as nat,
                r.0,
            ),
            pumps_anchored(self.trace(), r.1@, self.platform_state()),
            r.0 is Err ==> r.0 matches Err(AppRunError::Game(_)),
    {
        let mut app = self;
        let ghost pre: Seq<Event> = app.events@;
        let ghost running0: bool = app.running;
        let ghost entry_platform: PlatformState = app.platform;
        let ghost first_pump: Event = ev_pump(
            !(entry_platform.quit_posted() || queue_posts_quit(entry_platform.pending())),
        );
        let suspended = app.suspended;
        let mut res: Result<(), AppRunError> = Ok(());
        let mut frame: u64 = 0;
        while app.running && frame < max_frames
            invariant_except_break
                app.suspended == suspended,
                app.running == running0,
                frame <= max_frames,
                app.events@.len() >= pre.len(),
                app.events@.subrange(0, pre.len() as int) =~= pre,
                complete_iterations(app.events@.skip(pre.len() as int), suspended, frame as nat),
                res == Ok::<(), AppRunError>(()),
                !running0 ==> app.events@ =~= pre,
                first_pump == ev_pump(
                    !(entry_platform.quit_posted() || queue_posts_quit(entry_platform.pending())),
                ),
                app.events@.len() == pre.len() ==> app.platform == entry_platform,
                app.events@.len() > pre.len() ==> app.events@[pre.len() as int] == first_pump,
                app.events@.len() > pre.len() ==> (!app.platform.quit_posted()
                    && app.platform.pending() =~= Seq::<OsMessage>::empty()),
                forall|i: int|
                    pre.len() < i < app.events@.len() && kind_of(#[trigger] app.events@[i])
                        == EventKind::Pump ==> app.events@[i] == ev_pump(true),
            ensures
                app.suspended == suspended,
                app.events@.len() >= pre.len(),
                app.events@.subrange(0, pre.len() as int) =~= pre,
                running0 ==> (loop_trace(app.events@.skip(pre.len() as int), suspended, res)
                    || (complete_iterations(
                    app.events@.skip(pre.len() as int),
                    suspended,
                    max_frames as nat,
                ) && res == Ok::<(), AppRunError>(()))),
                !running0 ==> app.events@ =~= pre && res == Ok::<(), AppRunError>(()),
                res == Ok::<(), AppRunError>(()) || res matches Err(AppRunError::Game(_)),
                app.events@.len() > pre.len() ==> app.events@[pre.len() as int] == first_pump,
                forall|i: int|
                    pre.len() < i < app.events@.len() && kind_of(#[trigger] app.events@[i])
                        == EventKind::Pump ==> app.events@[i] == ev_pump(true),
            decreases max_frames - frame,
        {
            let ghost done: Seq<Event> = app.events@.skip(pre.len() as int);
            let keep_running = match app.platform.pump_messages() {
                Ok(more) => more,
                Err(e) => {
                    res = Err(AppRunError::Platform(e));
                    app.running = false;
                    break ;
                },
            };
            app.events = Ghost(app.events@.push(ev_pump(keep_running)));
            proof {
                if done.len() == 0 {
                    assert(app.events@[pre.len() as int] == ev_pump(keep_running));
                    assert(ev_pump(keep_running) == first_pump);
                } else {
                    assert(!queue_posts_quit(Seq::<OsMessage>::empty()));
                    assert(keep_running);
                }
            }
            if !keep_running {
                app.running = false;
                proof {
                    let tail = seq![ev_pump(false)];
                    assert(final_iteration(tail, suspended, res));
                    assert(app.events@.skip(pre.len() as int) =~= done + tail);
                    lemma_loop_trace_prepend(done, tail, suspended, frame as nat, res);
                    assert(app.events@.subrange(0, pre.len() as int) =~= pre);
                }
                break ;
            }
            if !app.suspended {
                match app.game.update(0) {
                    Err(e) => {
                        app.events = Ghost(
                            app.events@.push(Event::GameUpdate { dt: 0, error: Some(e) }),
                        );
                        app.running = false;
                        res = Err(AppRunError::Game(e));
                        proof {
                            let tail = seq![
                                ev_pump(true),
                                (Event::GameUpdate { dt: 0, error: Some(e) }),
                            ];
                            assert(final_iteration(tail, suspended, res));
                            assert(app.events@.skip(pre.len() as int) =~= done + tail);
                            lemma_loop_trace_prepend(done, tail, suspended, frame as nat, res);
                            assert(app.events@.subrange(0, pre.len() as int) =~= pre);
                        }
                        break ;
                    },
                    Ok(()) => {
                        app.events = Ghost(
                            app.events@.push(Event::GameUpdate { dt: 0, error: None }),
                        );
                    },
                }
                match app.game.render(0) {
                    Err(e) => {
                        app.events = Ghost(
                            app.events@.push(Event::GameRender { dt: 0, error: Some(e) }),
                        );
                        app.running = false;
                        res = Err(AppRunError::Game(e));
                        proof {
                            let tail = seq![
                                ev_pump(true),
                                ev_update_ok(),
                                (Event::GameRender { dt: 0, error: Some(e) }),
                            ];
                            assert(final_iteration(tail, suspended, res));
                            assert(app.events@.skip(pre.len() as int) =~= done + tail);
                            lemma_loop_trace_prepend(done, tail, suspended, frame as nat, res);
                            assert(app.events@.subrange(0, pre.len() as int) =~= pre);
                        }
                        break ;
                    },
                    Ok(()) => {
                        app.events = Ghost(
                            app.events@.push(Event::GameRender { dt: 0, error: None }),
                        );
                    },
                }
                proof {
                    let iter = seq![ev_pump(true), ev_update_ok(), ev_render_ok()];
                    assert(full_iteration(iter, suspended));
                    assert(app.events@.skip(pre.len() as int) =~= done + iter);
                    lemma_complete_iterations_append(done, iter, suspended, frame as nat);
                    assert(app.events@.subrange(0, pre.len() as int) =~= pre);
                }
            } else {
                proof {
                    let iter = seq![ev_pump(true)];
                    assert(full_iteration(iter, suspended));
                    assert(app.events@.skip(pre.len() as int) =~= done + iter);
                    lemma_complete_iterations_append(done, iter, suspended, frame as nat);
                    assert(app.events@.subrange(0, pre.len() as int) =~= pre);
                }
            }
            frame = frame + 1;
        }
        app.running = false;
        let ghost exited: Seq<Event> = app.events@;
        let ghost body: Seq<Event> = exited.skip(pre.len() as int);
        app.events = Ghost(app.events@.push(Event::PlatformShutdown));
        let shutdown_result = app.platform.shutdown();
        let trace = app.events;
        proof {
            assert(trace@.subrange(0, pre.len() as int) =~= pre);
            assert(trace@.subrange(pre.len() as int, trace@.len() - 1) =~= body);
            if body.len() > 0 {
                assert(body[0] == exited[pre.len() as int]);
            }
            assert forall|i: int|
                1 <= i < body.len() && kind_of(#[trigger] body[i])
                    == EventKind::Pump implies body[i] == ev_pump(true) by {
                assert(body[i] == exited[pre.len() + i]);
                assert(kind_of(exited[pre.len() + i]) == EventKind::Pump);
            }
        }
        match shutdown_result {
            Err(e) => (Err(AppRunError::Platform(e)), trace),
            Ok(()) => (res, trace),
        }
    }
}

} // verus!
