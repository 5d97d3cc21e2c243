//! Messages between the render, keyboard and compositor threads, the
//! condvar that wakes the render thread, and the decisions the compositor
//! thread takes on them.
use std::sync::{Condvar, Mutex};
use std::time::Duration;
use vstd::prelude::*;

verus! {

/// The mutex and condvar of a `RenderWaker`, kept together so that the
/// condvar is only ever used with its own mutex and no lock guard leaves
/// them.
#[verifier::external_body]
struct WakerSync {
    mutex: Mutex<()>,
    condvar: Condvar,
}

impl WakerSync {
    /// `Mutex::new(())` and `Condvar::new()`.
    #[verifier::external_body]
    fn new() -> WakerSync {
        WakerSync { mutex: Mutex::new(()), condvar: Condvar::new() }
    }

    /// `Condvar::notify_one` while holding the mutex (`Mutex::lock`, taking
    /// the guard out of a poisoned lock as well), which is released again
    /// before returning.
    #[verifier::external_body]
    fn notify(&self) {
        let _guard = self.mutex.lock().unwrap_or_else(|e| e.into_inner());
        self.condvar.notify_one();
    }

    /// `Condvar::wait_timeout` on the mutex locked here (poisoning
    /// tolerated); the re-acquired guard is released before returning.
    #[verifier::external_body]
    fn wait(&self, timeout: Duration) {
        let guard = self.mutex.lock().unwrap_or_else(|e| e.into_inner());
        let _ = self.condvar.wait_timeout(guard, timeout);
    }
}

/// Condvar-based wakeup primitive shared between threads.
///
/// The compositor thread calls `wake()` when a new buffer is committed.
/// The render thread sleeps on `wait_timeout()` instead of a plain sleep.
pub struct RenderWaker {
    sync: WakerSync,
}

impl RenderWaker {
    pub fn new() -> Self {
        RenderWaker { sync: WakerSync::new() }
    }

    /// Wake the render thread (non-blocking).
    pub fn wake(&self) {
        // Lock briefly just to pair with the condvar correctly.
        self.sync.notify();
    }

    /// Sleep until woken or `timeout` elapses. The lock taken for the wait
    /// is released before returning.
    pub fn wait_timeout(&self, timeout: Duration) {
        self.sync.wait(timeout);
    }
}

/// Kind of a touch event forwarded to the compositor thread.
#[derive(Debug, Clone, Copy, PartialEq, Eq)]
pub enum TouchEventKind {
    Down,
    Up,
    Motion,
}

/// Key event forwarded from the keyboard thread to the compositor thread
/// for injection into `wl_keyboard`.
#[derive(Debug, Clone, Copy, PartialEq, Eq)]
pub struct KeyEvent {
    pub keycode: u32,
    pub pressed: bool,
}

/// Commands from the render thread to the compositor thread.
#[derive(Debug, Clone, PartialEq, Eq)]
pub enum CompositorCommand {
    /// Notify the client that a frame was presented (sends wl_surface.frame callback).
    FrameDone,
    /// Launch an app: the compositor should expect a new client. (`command`
    /// is the app's shell command line.)
    LaunchApp { command: String, url: Option<String> },
    /// Close the current app.
    CloseApp,
}

/// Keyboard grab commands from the render thread to the keyboard thread.
#[derive(Debug, Clone, Copy, PartialEq, Eq)]
pub enum GrabCommand {
    Grab,
    Release,
}

/// What the compositor thread does with a command.
#[derive(Debug, Clone, Copy, PartialEq, Eq)]
pub enum CommandEffect {
    /// Fire pending frame callbacks before the next flush.
    MarkFramePresented,
    /// Nothing: app lifecycle is handled by the render thread.
    Nothing,
    /// Drop the toplevel and clear the shared "has toplevel" flag.
    DropToplevel,
}

pub fn command_effect(cmd: &CompositorCommand) -> (e: CommandEffect)
    ensures
        e == match cmd {
            CompositorCommand::FrameDone => CommandEffect::MarkFramePresented,
            CompositorCommand::LaunchApp { .. } => CommandEffect::Nothing,
            CompositorCommand::CloseApp => CommandEffect::DropToplevel,
        },
{
    match cmd {
        CompositorCommand::FrameDone => CommandEffect::MarkFramePresented,
        CompositorCommand::LaunchApp { .. } => CommandEffect::Nothing,
        CompositorCommand::CloseApp => CommandEffect::DropToplevel,
    }
}

/// Linux input event type of key events.
pub const EV_KEY: u16 = 1;

/// Offset between an evdev scancode and the XKB keycode of the same key.
pub const XKB_KEYCODE_OFFSET: u32 = 8;

/// The key event the keyboard thread forwards for an evdev event, if any:
/// key presses and releases, with the scancode moved to XKB keycode space;
/// repeats and non-key events are dropped.
pub open spec fn forwarded_key(ev_type: u16, code: u16, value: i32) -> Option<KeyEvent> {
    if ev_type != EV_KEY {
        None
    } else if value == 0 {
        Some(KeyEvent { keycode: (code + XKB_KEYCODE_OFFSET) as u32, pressed: false })
    } else if value == 1 {
        Some(KeyEvent { keycode: (code + XKB_KEYCODE_OFFSET) as u32, pressed: true })
    } else {
        None
    }
}

pub fn key_event_from_evdev(ev_type: u16, code: u16, value: i32) -> (r: Option<KeyEvent>)
    ensures
        r == forwarded_key(ev_type, code, value),
{
    if ev_type != EV_KEY {
        return None;
    }
    // value: 0 = up, 1 = down, 2 = repeat (skip repeats)
    let pressed = match value {
        0 => false,
        1 => true,
        _ => return None,
    };
    // evdev scancode → XKB keycode (+ 8 offset)
    let keycode = code as u32 + XKB_KEYCODE_OFFSET;
    Some(KeyEvent { keycode, pressed })
}

/// Position of a surface layer relative to the window content area: its
/// position in the surface tree minus the origin of the toplevel's window
/// geometry (which hides client-side title bars).
pub fn content_position(x: i32, y: i32, geo_x: i32, geo_y: i32) -> (r: (i32, i32))
    requires
        i32::MIN <= x - geo_x <= i32::MAX,
        i32::MIN <= y - geo_y <= i32::MAX,
    ensures
        r.0 == x - geo_x,
        r.1 == y - geo_y,
{
    (x - geo_x, y - geo_y)
}

/// Pixel formats of shared-memory client buffers, as far as they matter here.
#[derive(Debug, Clone, Copy, PartialEq, Eq)]
pub enum ShmFormat {
    Argb8888,
    Xrgb8888,
    Other,
}

/// DRM fourcc codes the render thread imports buffers as.
#[derive(Debug, Clone, Copy, PartialEq, Eq)]
pub enum BufferFourcc {
    Argb8888,
    Xrgb8888,
}

/// Map a wl_shm format to a DRM fourcc: the two formats every client must
/// support map to themselves, anything else is imported as XRGB8888.
pub fn shm_format_to_fourcc(fmt: ShmFormat) -> (r: BufferFourcc)
    ensures
        r == match fmt {
            ShmFormat::Argb8888 => BufferFourcc::Argb8888,
            _ => BufferFourcc::Xrgb8888,
        },
{
    match fmt {
        ShmFormat::Argb8888 => BufferFourcc::Argb8888,
        ShmFormat::Xrgb8888 => BufferFourcc::Xrgb8888,
        ShmFormat::Other => BufferFourcc::Xrgb8888,
    }
}

/// What the compositor loop does after dispatching client requests.
#[derive(Debug, Clone, Copy, PartialEq, Eq)]
pub struct LoopStep {
    /// Forget the toplevel, whose role was destroyed (the client may map a
    /// new one); this happens before anything walks its surface tree.
    pub drop_toplevel: bool,
    /// Send `done` to the pending frame callbacks before flushing.
    pub fire_frame_callbacks: bool,
}

/// The loop's decision after a dispatch, given whether the current toplevel
/// (if any) is still alive and whether a frame was presented since the last
/// iteration; the "frame presented" flag is consumed.
pub fn after_dispatch(toplevel_alive: Option<bool>, frame_presented: &mut bool) -> (step: LoopStep)
    ensures
        step.drop_toplevel == (toplevel_alive == Some(false)),
        step.fire_frame_callbacks == *old(frame_presented),
        !*final(frame_presented),
{
    let drop_toplevel = match toplevel_alive {
        Some(alive) => !alive,
        None => false,
    };
    let fire = *frame_presented;
    if fire {
        *frame_presented = false;
    }
    LoopStep { drop_toplevel, fire_frame_callbacks: fire }
}

/// How a commit changes a surface's attached buffer.
#[derive(Debug, Clone, PartialEq, Eq)]
pub enum BufferAssignment<T> {
    /// A new buffer was attached.
    NewBuffer(T),
    /// The buffer was detached.
    Removed,
}

/// Apply a committed buffer assignment to a surface's cached buffer and hand
/// back the buffer to release: the previously cached one, which is released
/// only when the next commit replaces or removes it (double buffering).
pub fn apply_buffer_assignment<T>(cached: &mut Option<T>, assignment: BufferAssignment<T>) -> (released: Option<T>)
    ensures
        released == *old(cached),
        match assignment {
            BufferAssignment::NewBuffer(b) => *final(cached) == Some(b),
            BufferAssignment::Removed => *final(cached) is None,
        },
{
    let mut slot = match assignment {
        BufferAssignment::NewBuffer(b) => Some(b),
        BufferAssignment::Removed => None,
    };
    std::mem::swap(&mut slot, cached);
    slot
}

} // verus!

verus! {

/// Only key events (evdev type 1) are forwarded: a press (value 1) or a
/// release (value 0) of scancode `c` becomes XKB keycode `c + 8`, pressed or
/// released; repeats and every other event type are dropped.
pub proof fn lemma_forwarded_keys(ev_type: u16, code: u16, value: i32)
    ensures
        ev_type != 1 ==> forwarded_key(ev_type, code, value) is None,
        ev_type == 1 && value == 1 ==> forwarded_key(ev_type, code, value) == Some(
            KeyEvent { keycode: (code + 8) as u32, pressed: true },
        ),
        ev_type == 1 && value == 0 ==> forwarded_key(ev_type, code, value) == Some(
            KeyEvent { keycode: (code + 8) as u32, pressed: false },
        ),
        ev_type == 1 && value != 0 && value != 1 ==> forwarded_key(ev_type, code, value) is None,
{
}

} // verus!
