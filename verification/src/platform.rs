//! Platform boundary: window state, queued window messages, and the fixed
//! dispatch from raw message codes to lifecycle/input intents.
//!
//! The backend is modelled over plain values: the native window handle is
//! "present" between a successful `startup` and the first `shutdown`, raw
//! messages queue up until `pump_messages` drains them, and a destroy
//! notification posts the process quit signal that makes the pump report
//! that the process should stop.

use vstd::prelude::*;

verus! {

// Raw window-message codes, as the host windowing system numbers them.
pub const WM_DESTROY: u32 = 0x0002;
pub const WM_SIZE: u32 = 0x0005;
pub const WM_CLOSE: u32 = 0x0010;
pub const WM_ERASEBKGND: u32 = 0x0014;
pub const WM_KEYDOWN: u32 = 0x0100;
pub const WM_KEYUP: u32 = 0x0101;
pub const WM_SYSKEYDOWN: u32 = 0x0104;
pub const WM_SYSKEYUP: u32 = 0x0105;
pub const WM_MOUSEMOVE: u32 = 0x0200;
pub const WM_LBUTTONDOWN: u32 = 0x0201;
pub const WM_LBUTTONUP: u32 = 0x0202;
pub const WM_RBUTTONDOWN: u32 = 0x0204;
pub const WM_RBUTTONUP: u32 = 0x0205;
pub const WM_MBUTTONDOWN: u32 = 0x0207;
pub const WM_MBUTTONUP: u32 = 0x0208;
pub const WM_MOUSEWHEEL: u32 = 0x020A;

// Non-client metrics of the window frame: how far the outer window
// rectangle extends beyond the client area on each side (title bar and
// resizable border), as the adjusted-rectangle query reports them for an
// overlapped, captioned, thick-framed window.
pub const FRAME_LEFT: i64 = -8;
pub const FRAME_TOP: i64 = -31;
pub const FRAME_RIGHT: i64 = 8;
pub const FRAME_BOTTOM: i64 = 8;

/// An error reported by the platform boundary, carrying the native error
/// code. The modelled backend never produces one, but the lifecycle treats
/// every platform call as fallible, so real backends can report failure.
#[derive(Clone, Copy, Debug, PartialEq, Eq, Structural)]
pub struct PlatformError {
    pub code: u64,
}

/// One raw window message as the host queues it: a message code plus the
/// two packed parameter words.
#[derive(Clone, Copy, Debug, PartialEq, Eq, Structural)]
pub struct OsMessage {
    pub code: u32,
    pub wparam: u64,
    pub lparam: i64,
}

/// The normalized, host-independent meaning of a raw message code.
///
/// Resize, key, mouse-move, wheel and button messages are recognized as
/// distinct intents but are not yet wired to any callback; a close request
/// is deliberately swallowed (only an explicit destroy notification posts
/// the quit signal).
#[derive(Clone, Copy, Debug, PartialEq, Eq, Structural)]
pub enum Intent {
    /// Erase-background: handled, the default erase is suppressed.
    SuppressErase,
    /// Close request: handled with no action; the window stays up.
    IgnoreClose,
    /// Destroy notification: post the process quit signal.
    PostQuit,
    /// Client area changed size.
    Resize,
    /// A keyboard key went down or up.
    Key { pressed: bool },
    /// The mouse moved.
    MouseMove,
    /// The mouse wheel turned.
    Wheel,
    /// A mouse button went down or up.
    Button { pressed: bool },
    /// Anything unrecognized: passed to the host's default handler.
    PassThrough,
}

/// The fixed mapping from a raw message code to its intent.
pub open spec fn spec_dispatch(code: u32) -> Intent {
    if code == WM_ERASEBKGND {
        Intent::SuppressErase
    } else if code == WM_CLOSE {
        Intent::IgnoreClose
    } else if code == WM_DESTROY {
        Intent::PostQuit
    } else if code == WM_SIZE {
        Intent::Resize
    } else if code == WM_KEYDOWN || code == WM_SYSKEYDOWN {
        Intent::Key { pressed: true }
    } else if code == WM_KEYUP || code == WM_SYSKEYUP {
        Intent::Key { pressed: false }
    } else if code == WM_MOUSEMOVE {
        Intent::MouseMove
    } else if code == WM_MOUSEWHEEL {
        Intent::Wheel
    } else if code == WM_LBUTTONDOWN || code == WM_MBUTTONDOWN || code == WM_RBUTTONDOWN {
        Intent::Button { pressed: true }
    } else if code == WM_LBUTTONUP || code == WM_MBUTTONUP || code == WM_RBUTTONUP {
        Intent::Button { pressed: false }
    } else {
        Intent::PassThrough
    }
}

/// The window-procedure dispatch: maps one raw message code to the intent
/// the lifecycle acts on.
pub fn dispatch_message(code: u32) -> (intent: Intent)
    ensures
        intent == spec_dispatch(code),
{
    if code == WM_ERASEBKGND {
        Intent::SuppressErase
    } else if code == WM_CLOSE {
        Intent::IgnoreClose
    } else if code == WM_DESTROY {
        Intent::PostQuit
    } else if code == WM_SIZE {
        Intent::Resize
    } else if code == WM_KEYDOWN || code == WM_SYSKEYDOWN {
        Intent::Key { pressed: true }
    } else if code == WM_KEYUP || code == WM_SYSKEYUP {
        Intent::Key { pressed: false }
    } else if code == WM_MOUSEMOVE {
        Intent::MouseMove
    } else if code == WM_MOUSEWHEEL {
        Intent::Wheel
    } else if code == WM_LBUTTONDOWN || code == WM_MBUTTONDOWN || code == WM_RBUTTONDOWN {
        Intent::Button { pressed: true }
    } else if code == WM_LBUTTONUP || code == WM_MBUTTONUP || code == WM_RBUTTONUP {
        Intent::Button { pressed: false }
    } else {
        Intent::PassThrough
    }
}

/// True when some queued message dispatches to the quit intent.
pub open spec fn queue_posts_quit(msgs: Seq<OsMessage>) -> bool {
    exists|i: int| 0 <= i < msgs.len() && (#[trigger] spec_dispatch(msgs[i].code)) is PostQuit
}

/// The platform backend: one native window per process, a pending-message
/// queue, and the observed quit signal.
pub struct PlatformState {
    window: bool,
    quit: bool,
    queue: Vec<OsMessage>,
    client_x: i32,
    client_y: i32,
    client_width: u32,
    client_height: u32,
    outer_x: i64,
    outer_y: i64,
    outer_width: u64,
    outer_height: u64,
    title: String,
}

impl PlatformState {
    /// The native window handle is valid: set between a successful
    /// `startup` and the first `shutdown`.
    pub closed spec fn window_open(self) -> bool {
        self.window
    }

    /// The process quit signal has been observed by the pump.
    pub closed spec fn quit_posted(self) -> bool {
        self.quit
    }

    /// The raw messages queued and not yet pumped.
    pub closed spec fn pending(self) -> Seq<OsMessage> {
        self.queue@
    }

    /// Requested client-area position.
    pub closed spec fn client_pos(self) -> (i32, i32) {
        (self.client_x, self.client_y)
    }

    /// Client-area size; the outer window is sized so the client area
    /// matches this exactly.
    pub closed spec fn client_size(self) -> (u32, u32) {
        (self.client_width, self.client_height)
    }

    /// Outer window position: the client position adjusted by the frame
    /// metrics.
    pub closed spec fn outer_pos(self) -> (i64, i64) {
        (self.outer_x, self.outer_y)
    }

    /// Outer window size: the client size plus the frame on both axes.
    pub closed spec fn outer_size(self) -> (u64, u64) {
        (self.outer_width, self.outer_height)
    }

    /// The window title.
    pub closed spec fn title(self) -> Seq<char> {
        self.title@
    }

    /// The client-area size the window was created with.
    pub fn client_area(&self) -> (r: (u32, u32))
        ensures
            r == self.client_size(),
    {
        (self.client_width, self.client_height)
    }

    /// Whether the native window is currently up.
    pub fn has_window(&self) -> (r: bool)
        ensures
            r == self.window_open(),
    {
        self.window
    }

    /// Creates the native window. The outer rectangle is computed from the
    /// requested client rectangle by adding the frame metrics, so that the
    /// client area matches the request exactly; the window comes up
    /// visible, with an empty message queue and no quit signal. The
    /// modelled backend has no host to fail in, so startup always
    /// succeeds.
    pub fn startup(name: &str, x: i32, y: i32, width: u32, height: u32) -> (r: Result<
        PlatformState,
        PlatformError,
    >)
        ensures
            r matches Ok(p) && {
                &&& p.window_open()
                &&& !p.quit_posted()
                &&& p.pending() =~= Seq::<OsMessage>::empty()
                &&& p.client_pos() == (x, y)
                &&& p.client_size() == (width, height)
                &&& p.outer_pos().0 == x as i64 + FRAME_LEFT
                &&& p.outer_pos().1 == y as i64 + FRAME_TOP
                &&& p.outer_size().0 == width as u64 + (FRAME_RIGHT - FRAME_LEFT)
                &&& p.outer_size().1 == height as u64 + (FRAME_BOTTOM - FRAME_TOP)
                &&& p.title() == name@
            },
    {
        let outer_x: i64 = x as i64 + FRAME_LEFT;
        let outer_y: i64 = y as i64 + FRAME_TOP;
        let outer_width: u64 = width as u64 + (FRAME_RIGHT - FRAME_LEFT) as u64;
        let outer_height: u64 = height as u64 + (FRAME_BOTTOM - FRAME_TOP) as u64;
        Ok(
            PlatformState {
                window: true,
                quit: false,
                queue: Vec::new(),
                client_x: x,
                client_y: y,
                client_width: width,
                client_height: height,
                outer_x,
                outer_y,
                outer_width,
                outer_height,
                title: name.to_owned(),
            },
        )
    }

    /// Destroys the native window if present and succeeds as a no-op
    /// otherwise: safe to call any number of times.
    pub fn shutdown(&mut self) -> (r: Result<(), PlatformError>)
        ensures
            r matches Ok(()),
            !final(self).window_open(),
            final(self).quit_posted() == old(self).quit_posted(),
            final(self).pending() == old(self).pending(),
            final(self).client_pos() == old(self).client_pos(),
            final(self).client_size() == old(self).client_size(),
            final(self).outer_pos() == old(self).outer_pos(),
            final(self).outer_size() == old(self).outer_size(),
            final(self).title() == old(self).title(),
    {
        if self.window {
            self.window = false;
        }
        Ok(())
    }

    /// Queues one raw message, as the host does while the process runs.
    pub fn post_message(&mut self, message: OsMessage)
        ensures
            final(self).pending() =~= old(self).pending().push(message),
            final(self).window_open() == old(self).window_open(),
            final(self).quit_posted() == old(self).quit_posted(),
            final(self).client_pos() == old(self).client_pos(),
            final(self).client_size() == old(self).client_size(),
            final(self).outer_pos() == old(self).outer_pos(),
            final(self).outer_size() == old(self).outer_size(),
            final(self).title() == old(self).title(),
    {
        self.queue.push(message);
    }

    /// Drains every queued message without blocking, dispatching each to
    /// the window procedure; a destroy notification posts the quit signal.
    /// Returns `false` exactly when the quit signal has been observed,
    /// `true` otherwise; the modelled pump itself never fails.
    pub fn pump_messages(&mut self) -> (r: Result<bool, PlatformError>)
        ensures
            final(self).pending() =~= Seq::<OsMessage>::empty(),
            final(self).quit_posted() == (old(self).quit_posted() || queue_posts_quit(
                old(self).pending(),
            )),
            r matches Ok(more) && more == !final(self).quit_posted(),
            final(self).window_open() == old(self).window_open(),
            final(self).client_pos() == old(self).client_pos(),
            final(self).client_size() == old(self).client_size(),
            final(self).outer_pos() == old(self).outer_pos(),
            final(self).outer_size() == old(self).outer_size(),
            final(self).title() == old(self).title(),
    {
        let ghost initial: Seq<OsMessage> = self.queue@;
        let ghost quit0: bool = self.quit;
        let n: usize = self.queue.len();
        let mut i: usize = 0;
        while i < n
            invariant
                i <= n,
                n == initial.len(),
                self.queue@ =~= initial,
                self.window == old(self).window,
                self.client_x == old(self).client_x,
                self.client_y == old(self).client_y,
                self.client_width == old(self).client_width,
                self.client_height == old(self).client_height,
                self.outer_x == old(self).outer_x,
                self.outer_y == old(self).outer_y,
                self.outer_width == old(self).outer_width,
                self.outer_height == old(self).outer_height,
                self.title@ == old(self).title@,
                quit0 == old(self).quit,
                self.quit == (quit0 || queue_posts_quit(initial.take(i as int))),
            decreases n - i,
        {
            let message = self.queue[i];
            let intent = dispatch_message(message.code);
            if matches!(intent, Intent::PostQuit) {
                self.quit = true;
            }
            proof {
                assert(initial.take(i as int + 1) =~= initial.take(i as int).push(initial[i as int]));
                if spec_dispatch(initial[i as int].code) is PostQuit {
                    assert(initial.take(i as int + 1)[i as int] == initial[i as int]);
                    assert(spec_dispatch(initial.take(i as int + 1)[i as int].code) is PostQuit);
                    assert(queue_posts_quit(initial.take(i as int + 1)));
                } else {
                    assert(queue_posts_quit(initial.take(i as int + 1)) == queue_posts_quit(
                        initial.take(i as int),
                    )) by {
                        if queue_posts_quit(initial.take(i as int + 1)) {
                            let j = choose|j: int|
                                0 <= j < initial.take(i as int + 1).len() && (#[trigger] spec_dispatch(
                                    initial.take(i as int + 1)[j].code,
                                )) is PostQuit;
                            assert(j < i + 1);
                            assert(j != i);
                            assert(spec_dispatch(initial.take(i as int)[j].code) is PostQuit);
                        }
                    }
                }
            }
            i = i + 1;
        }
        proof {
            assert(initial.take(n as int) =~= initial);
        }
        self.queue.clear();
        Ok(!self.quit)
    }
}

} // verus!
