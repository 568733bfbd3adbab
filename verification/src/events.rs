//! The lifecycle trace: the ordered record of the calls the application
//! core makes into the game and the platform, and the grammar every run of
//! the loop follows.
//!
//! `create` and `run` return this trace as ghost data; their contracts pin
//! it down, and the lemmas here state the protocol laws: the pump runs
//! every iteration, a suspended iteration steps neither update nor render,
//! a failed update ends the loop before any render, a quit signal stops
//! the loop before that iteration's frame, and shutdown happens exactly
//! once, last.

use vstd::prelude::*;
use crate::app::AppRunError;
use crate::game::GameError;

verus! {

/// One call the application core made into a collaborator.
pub enum Event {
    /// The platform backend was started.
    PlatformStartup,
    /// `game.initialize` was called; `error` holds its failure, if any.
    GameInitialize { error: Option<GameError> },
    /// `game.on_resize(width, height)` was called.
    GameResize { width: u32, height: u32 },
    /// `platform.pump_messages` was called; `keep_running` is what it
    /// returned (`false`: the process quit signal was observed).
    PumpMessages { keep_running: bool },
    /// `game.update(dt)` was called; `error` holds its failure, if any.
    GameUpdate { dt: u64, error: Option<GameError> },
    /// `game.render(dt)` was called; `error` holds its failure, if any.
    GameRender { dt: u64, error: Option<GameError> },
    /// The platform backend was shut down.
    PlatformShutdown,
}

/// The shape of an event, without its payload.
#[derive(PartialEq, Eq, Structural)]
pub enum EventKind {
    Startup,
    Initialize,
    ResizeNote,
    Pump,
    Update,
    Render,
    Shutdown,
}

pub open spec fn kind_of(e: Event) -> EventKind {
    match e {
        Event::PlatformStartup => EventKind::Startup,
        Event::GameInitialize { .. } => EventKind::Initialize,
        Event::GameResize { .. } => EventKind::ResizeNote,
        Event::PumpMessages { .. } => EventKind::Pump,
        Event::GameUpdate { .. } => EventKind::Update,
        Event::GameRender { .. } => EventKind::Render,
        Event::PlatformShutdown => EventKind::Shutdown,
    }
}

/// How many events of kind `k` the trace holds.
pub open spec fn count_kind(t: Seq<Event>, k: EventKind) -> nat
    decreases t.len(),
{
    if t.len() == 0 {
        0
    } else {
        (if kind_of(t[0]) == k {
            1nat
        } else {
            0nat
        }) + count_kind(t.skip(1), k)
    }
}

pub open spec fn ev_pump(keep_running: bool) -> Event {
    Event::PumpMessages { keep_running }
}

pub open spec fn ev_update_ok() -> Event {
    Event::GameUpdate { dt: 0, error: None }
}

pub open spec fn ev_render_ok() -> Event {
    Event::GameRender { dt: 0, error: None }
}

/// The final, loop-ending step of a run together with the result the loop
/// records: a quit signal stops the loop cleanly before that iteration's
/// update and render; a failed update ends the iteration without a render;
/// a failed render ends it right after the update. Game failures surface
/// as the game's own error, and every step receives the placeholder
/// timestep 0 (frame timing is not computed yet).
pub open spec fn final_iteration(t: Seq<Event>, suspended: bool, res: Result<
    (),
    AppRunError,
>) -> bool {
    ||| (t =~= seq![ev_pump(false)] && res == Ok::<(), AppRunError>(()))
    ||| {
        &&& !suspended
        &&& t.len() == 2
        &&& t[0] == ev_pump(true)
        &&& t[1] matches Event::GameUpdate { dt, error: Some(e) }
        &&& dt == 0
        &&& res == Err::<(), AppRunError>(AppRunError::Game(e))
    }
    ||| {
        &&& !suspended
        &&& t.len() == 3
        &&& t[0] == ev_pump(true)
        &&& t[1] == ev_update_ok()
        &&& t[2] matches Event::GameRender { dt, error: Some(e) }
        &&& dt == 0
        &&& res == Err::<(), AppRunError>(AppRunError::Game(e))
    }
}

/// The events of the run loop: zero or more complete iterations (the pump
/// reports more to do and, unless suspended, update then render succeed in
/// that order), then the final iteration.
pub open spec fn loop_trace(t: Seq<Event>, suspended: bool, res: Result<(), AppRunError>) -> bool
    decreases t.len(),
{
    ||| final_iteration(t, suspended, res)
    ||| (suspended && t.len() >= 1 && t[0] == ev_pump(true) && loop_trace(t.skip(1), suspended, res))
    ||| (!suspended && t.len() >= 3 && t[0] == ev_pump(true) && t[1] == ev_update_ok() && t[2]
        == ev_render_ok() && loop_trace(t.skip(3), suspended, res))
}

/// A trace made of exactly `n` complete, non-final iterations: in each the
/// pump reports more to do and, unless suspended, update then render
/// succeed.
pub open spec fn complete_iterations(t: Seq<Event>, suspended: bool, n: nat) -> bool
    decreases t.len(),
{
    if n == 0 {
        t.len() == 0
    } else {
        ||| (suspended && t.len() >= 1 && t[0] == ev_pump(true) && complete_iterations(
            t.skip(1),
            suspended,
            (n - 1) as nat,
        ))
        ||| (!suspended && t.len() >= 3 && t[0] == ev_pump(true) && t[1] == ev_update_ok() && t[2]
            == ev_render_ok() && complete_iterations(t.skip(3), suspended, (n - 1) as nat))
    }
}

/// One complete, non-final iteration.
pub open spec fn full_iteration(t: Seq<Event>, suspended: bool) -> bool {
    if suspended {
        t =~= seq![ev_pump(true)]
    } else {
        t =~= seq![ev_pump(true), ev_update_ok(), ev_render_ok()]
    }
}

/// The whole trace of `run`, extending the trace `pre` recorded before the
/// call: the loop segment, then exactly one platform shutdown as the very
/// last event. The loop segment either ends the loop (quit signal or game
/// failure), or is exactly `frame_limit` complete iterations whose budget
/// ran out, in which case the run reports success. When the loop is never
/// entered (`running` already false) the loop segment is empty and the
/// result is success.
pub open spec fn run_trace(
    pre: Seq<Event>,
    full: Seq<Event>,
    suspended: bool,
    running: bool,
    frame_limit: nat,
    res: Result<(), AppRunError>,
) -> bool {
    &&& full.len() > pre.len()
    &&& full.subrange(0, pre.len() as int) =~= pre
    &&& full.last() == Event::PlatformShutdown
    &&& {
        let body = full.subrange(pre.len() as int, full.len() - 1);
        if running {
            ||| loop_trace(body, suspended, res)
            ||| (complete_iterations(body, suspended, frame_limit) && res == Ok::<
                (),
                AppRunError,
            >(()))
        } else {
            body.len() == 0 && res == Ok::<(), AppRunError>(())
        }
    }
}

/// Appending one complete iteration on the right extends a trace of `n`
/// complete iterations to one of `n + 1`.
pub proof fn lemma_complete_iterations_append(
    t: Seq<Event>,
    iter: Seq<Event>,
    suspended: bool,
    n: nat,
)
    requires
        complete_iterations(t, suspended, n),
        full_iteration(iter, suspended),
    ensures
        complete_iterations(t + iter, suspended, n + 1),
    decreases t.len(),
{
    if n == 0 {
        assert(t + iter =~= iter);
        assert(complete_iterations(Seq::<Event>::empty(), suspended, 0));
        if suspended {
            assert(iter.skip(1) =~= Seq::<Event>::empty());
        } else {
            assert(iter.skip(3) =~= Seq::<Event>::empty());
        }
    } else if suspended {
        assert((t + iter).skip(1) =~= t.skip(1) + iter);
        lemma_complete_iterations_append(t.skip(1), iter, suspended, (n - 1) as nat);
    } else {
        assert((t + iter).skip(3) =~= t.skip(3) + iter);
        lemma_complete_iterations_append(t.skip(3), iter, suspended, (n - 1) as nat);
    }
}

/// A sequence of complete iterations followed by a valid loop ending is a
/// valid loop trace.
pub proof fn lemma_loop_trace_prepend(
    t: Seq<Event>,
    rest: Seq<Event>,
    suspended: bool,
    n: nat,
    res: Result<(), AppRunError>,
)
    requires
        complete_iterations(t, suspended, n),
        loop_trace(rest, suspended, res),
    ensures
        loop_trace(t + rest, suspended, res),
    decreases t.len(),
{
    if n == 0 {
        assert(t + rest =~= rest);
    } else if suspended {
        assert((t + rest).skip(1) =~= t.skip(1) + rest);
        lemma_loop_trace_prepend(t.skip(1), rest, suspended, (n - 1) as nat, res);
    } else {
        assert((t + rest).skip(3) =~= t.skip(3) + rest);
        lemma_loop_trace_prepend(t.skip(3), rest, suspended, (n - 1) as nat, res);
    }
}

/// While suspended, the loop still pumps messages every iteration but
/// steps neither update nor render: every event of such a loop is a pump,
/// and every one before the last reported more to do.
pub proof fn lemma_suspended_skips_frame(t: Seq<Event>, res: Result<(), AppRunError>)
    requires
        loop_trace(t, true, res),
    ensures
        t.len() >= 1,
        forall|i: int| 0 <= i < t.len() ==> kind_of(#[trigger] t[i]) == EventKind::Pump,
        forall|i: int| 0 <= i < t.len() - 1 ==> #[trigger] t[i] == ev_pump(true),
        t.last() == ev_pump(false),
        res == Ok::<(), AppRunError>(()),
    decreases t.len(),
{
    if final_iteration(t, true, res) {
        assert(t =~= seq![ev_pump(false)]);
    } else {
        lemma_suspended_skips_frame(t.skip(1), res);
        assert(t.last() == t.skip(1).last());
        assert forall|i: int| 0 <= i < t.len() implies kind_of(#[trigger] t[i])
            == EventKind::Pump by {
            if i >= 1 {
                assert(t[i] == t.skip(1)[i - 1]);
            }
        }
        assert forall|i: int| 0 <= i < t.len() - 1 implies #[trigger] t[i] == ev_pump(true) by {
            if i >= 1 {
                assert(t[i] == t.skip(1)[i - 1]);
            }
        }
    }
}

/// A suspended loop whose frame budget ran out also only ever pumped, and
/// every pump reported more to do.
pub proof fn lemma_suspended_skips_frame_budget(t: Seq<Event>, n: nat)
    requires
        complete_iterations(t, true, n),
    ensures
        forall|i: int| 0 <= i < t.len() ==> #[trigger] t[i] == ev_pump(true),
    decreases t.len(),
{
    if n > 0 {
        lemma_suspended_skips_frame_budget(t.skip(1), (n - 1) as nat);
        assert forall|i: int| 0 <= i < t.len() implies #[trigger] t[i] == ev_pump(true) by {
            if i >= 1 {
                assert(t[i] == t.skip(1)[i - 1]);
            }
        }
    }
}

/// A suspended run can only end cleanly: the game is never stepped, so no
/// game failure can arise, and with this backend the pump cannot fail.
pub proof fn lemma_suspended_run_succeeds(
    pre: Seq<Event>,
    full: Seq<Event>,
    running: bool,
    frame_limit: nat,
    res: Result<(), AppRunError>,
)
    requires
        run_trace(pre, full, true, running, frame_limit, res),
    ensures
        res == Ok::<(), AppRunError>(()),
{
    let body = full.subrange(pre.len() as int, full.len() - 1);
    if running && loop_trace(body, true, res) {
        lemma_suspended_skips_frame(body, res);
    }
}

/// A failed update ends the loop at once: the failing update is the last
/// event of the loop segment (so no render follows it in that iteration)
/// and the loop's result is that game error.
pub proof fn lemma_update_error_is_final(
    t: Seq<Event>,
    suspended: bool,
    res: Result<(), AppRunError>,
    i: int,
)
    requires
        loop_trace(t, suspended, res),
        0 <= i < t.len(),
        t[i] matches Event::GameUpdate { error: Some(_), .. },
    ensures
        i == t.len() - 1,
        res matches Err(AppRunError::Game(_)),
    decreases t.len(),
{
    if final_iteration(t, suspended, res) {
        if t =~= seq![ev_pump(false)] {
            assert(false);
        }
    } else if suspended {
        assert(i >= 1);
        assert(t[i] == t.skip(1)[i - 1]);
        lemma_update_error_is_final(t.skip(1), suspended, res, i - 1);
    } else {
        assert(i >= 3);
        assert(t[i] == t.skip(3)[i - 3]);
        lemma_update_error_is_final(t.skip(3), suspended, res, i - 3);
    }
}

/// A pump that reports the quit signal stops the loop at once: it is the
/// last event of the loop segment (so that iteration ran no update and no
/// render) and the run's result is success.
pub proof fn lemma_quit_stops_loop(
    t: Seq<Event>,
    suspended: bool,
    res: Result<(), AppRunError>,
    i: int,
)
    requires
        loop_trace(t, suspended, res),
        0 <= i < t.len(),
        t[i] == ev_pump(false),
    ensures
        i == t.len() - 1,
        res == Ok::<(), AppRunError>(()),
    decreases t.len(),
{
    if final_iteration(t, suspended, res) {
        if !(t =~= seq![ev_pump(false)]) {
            assert(i != 0);
        }
    } else if suspended {
        assert(i >= 1);
        assert(t[i] == t.skip(1)[i - 1]);
        lemma_quit_stops_loop(t.skip(1), suspended, res, i - 1);
    } else {
        assert(i >= 3);
        assert(t[i] == t.skip(3)[i - 3]);
        lemma_quit_stops_loop(t.skip(3), suspended, res, i - 3);
    }
}

/// Counting events of one kind distributes over concatenation.
pub proof fn lemma_count_kind_append(a: Seq<Event>, b: Seq<Event>, k: EventKind)
    ensures
        count_kind(a + b, k) == count_kind(a, k) + count_kind(b, k),
    decreases a.len(),
{
    if a.len() == 0 {
        assert(a + b =~= b);
    } else {
        assert((a + b).skip(1) =~= a.skip(1) + b);
        lemma_count_kind_append(a.skip(1), b, k);
    }
}

/// Counting one event of the trace.
proof fn lemma_count_single(e: Event, k: EventKind)
    ensures
        count_kind(seq![e], k) == if kind_of(e) == k {
            1nat
        } else {
            0nat
        },
{
    reveal_with_fuel(count_kind, 2);
    assert(seq![e].skip(1) =~= Seq::<Event>::empty());
}

/// Unfolds `count_kind` over the (at most three) events of one iteration,
/// all of which are pump, update or render events.
proof fn lemma_count_small(t: Seq<Event>)
    requires
        t.len() <= 3,
        forall|i: int|
            0 <= i < t.len() ==> {
                ||| kind_of(#[trigger] t[i]) == EventKind::Pump
                ||| kind_of(t[i]) == EventKind::Update
                ||| kind_of(t[i]) == EventKind::Render
            },
    ensures
        count_kind(t, EventKind::Startup) == 0,
        count_kind(t, EventKind::Initialize) == 0,
        count_kind(t, EventKind::ResizeNote) == 0,
        count_kind(t, EventKind::Shutdown) == 0,
    decreases t.len(),
{
    if t.len() > 0 {
        assert(forall|i: int| 0 <= i < t.skip(1).len() ==> #[trigger] t.skip(1)[i] == t[i + 1]);
        lemma_count_small(t.skip(1));
    }
}

/// The run loop itself never starts the platform, never re-initializes the
/// game, never delivers a resize, and never shuts the platform down: its
/// trace holds no event of those kinds.
pub proof fn lemma_loop_trace_counts(t: Seq<Event>, suspended: bool, res: Result<(), AppRunError>)
    requires
        loop_trace(t, suspended, res),
    ensures
        count_kind(t, EventKind::Startup) == 0,
        count_kind(t, EventKind::Initialize) == 0,
        count_kind(t, EventKind::ResizeNote) == 0,
        count_kind(t, EventKind::Shutdown) == 0,
    decreases t.len(),
{
    if final_iteration(t, suspended, res) {
        lemma_count_small(t);
    } else if suspended {
        assert(t =~= t.take(1) + t.skip(1));
        assert(t.take(1)[0] == t[0]);
        lemma_count_small(t.take(1));
        lemma_loop_trace_counts(t.skip(1), suspended, res);
        lemma_count_kind_append(t.take(1), t.skip(1), EventKind::Startup);
        lemma_count_kind_append(t.take(1), t.skip(1), EventKind::Initialize);
        lemma_count_kind_append(t.take(1), t.skip(1), EventKind::ResizeNote);
        lemma_count_kind_append(t.take(1), t.skip(1), EventKind::Shutdown);
    } else {
        assert(t =~= t.take(3) + t.skip(3));
        assert(t.take(3)[0] == t[0] && t.take(3)[1] == t[1] && t.take(3)[2] == t[2]);
        lemma_count_small(t.take(3));
        lemma_loop_trace_counts(t.skip(3), suspended, res);
        lemma_count_kind_append(t.take(3), t.skip(3), EventKind::Startup);
        lemma_count_kind_append(t.take(3), t.skip(3), EventKind::Initialize);
        lemma_count_kind_append(t.take(3), t.skip(3), EventKind::ResizeNote);
        lemma_count_kind_append(t.take(3), t.skip(3), EventKind::Shutdown);
    }
}

/// A budget-bounded loop segment also never starts the platform, never
/// re-initializes the game, never delivers a resize, and never shuts the
/// platform down.
pub proof fn lemma_complete_iterations_counts(t: Seq<Event>, suspended: bool, n: nat)
    requires
        complete_iterations(t, suspended, n),
    ensures
        count_kind(t, EventKind::Startup) == 0,
        count_kind(t, EventKind::Initialize) == 0,
        count_kind(t, EventKind::ResizeNote) == 0,
        count_kind(t, EventKind::Shutdown) == 0,
    decreases t.len(),
{
    if n == 0 {
        assert(count_kind(t, EventKind::Startup) == 0);
    } else if suspended {
        assert(t =~= t.take(1) + t.skip(1));
        assert(t.take(1)[0] == t[0]);
        lemma_count_small(t.take(1));
        lemma_complete_iterations_counts(t.skip(1), suspended, (n - 1) as nat);
        lemma_count_kind_append(t.take(1), t.skip(1), EventKind::Startup);
        lemma_count_kind_append(t.take(1), t.skip(1), EventKind::Initialize);
        lemma_count_kind_append(t.take(1), t.skip(1), EventKind::ResizeNote);
        lemma_count_kind_append(t.take(1), t.skip(1), EventKind::Shutdown);
    } else {
        assert(t =~= t.take(3) + t.skip(3));
        assert(t.take(3)[0] == t[0] && t.take(3)[1] == t[1] && t.take(3)[2] == t[2]);
        lemma_count_small(t.take(3));
        lemma_complete_iterations_counts(t.skip(3), suspended, (n - 1) as nat);
        lemma_count_kind_append(t.take(3), t.skip(3), EventKind::Startup);
        lemma_count_kind_append(t.take(3), t.skip(3), EventKind::Initialize);
        lemma_count_kind_append(t.take(3), t.skip(3), EventKind::ResizeNote);
        lemma_count_kind_append(t.take(3), t.skip(3), EventKind::Shutdown);
    }
}

/// Over a whole run, the platform shutdown happens exactly once, as the
/// very last event, and the run delivers no resize and no initialization:
/// the forced-cleanup path is reached on every exit of the loop and only
/// there.
pub proof fn lemma_run_shutdown_exactly_once(
    pre: Seq<Event>,
    full: Seq<Event>,
    suspended: bool,
    running: bool,
    frame_limit: nat,
    res: Result<(), AppRunError>,
)
    requires
        run_trace(pre, full, suspended, running, frame_limit, res),
    ensures
        count_kind(full.skip(pre.len() as int), EventKind::Shutdown) == 1,
        count_kind(full.skip(pre.len() as int), EventKind::ResizeNote) == 0,
        count_kind(full.skip(pre.len() as int), EventKind::Initialize) == 0,
        count_kind(full.skip(pre.len() as int), EventKind::Startup) == 0,
{
    let body = full.subrange(pre.len() as int, full.len() - 1);
    let tail = seq![full.last()];
    assert(full.skip(pre.len() as int) =~= body + tail);
    if running {
        if loop_trace(body, suspended, res) {
            lemma_loop_trace_counts(body, suspended, res);
        } else {
            lemma_complete_iterations_counts(body, suspended, frame_limit);
        }
    } else {
        assert(count_kind(body, EventKind::Shutdown) == 0);
        assert(count_kind(body, EventKind::ResizeNote) == 0);
        assert(count_kind(body, EventKind::Initialize) == 0);
        assert(count_kind(body, EventKind::Startup) == 0);
    }
    lemma_count_single(full.last(), EventKind::Shutdown);
    lemma_count_single(full.last(), EventKind::ResizeNote);
    lemma_count_single(full.last(), EventKind::Initialize);
    lemma_count_single(full.last(), EventKind::Startup);
    lemma_count_kind_append(body, tail, EventKind::Shutdown);
    lemma_count_kind_append(body, tail, EventKind::ResizeNote);
    lemma_count_kind_append(body, tail, EventKind::Initialize);
    lemma_count_kind_append(body, tail, EventKind::Startup);
}

} // verus!
