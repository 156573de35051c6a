use vstd::prelude::*;
use std::sync::Arc;
use parking_lot::lock_api::{Mutex, MutexGuard};
use parking_lot::RawMutex;
use crate::color::Rgb;
use crate::error::{OutOfBounds, SizeMismatch};
use crate::screen::{Screen, ScreenView};

verus! {

/// Width, in cells, of the screen that effects draw on.
pub const SCREEN_WIDTH: usize = 320;

/// Height, in cells, of the screen that effects draw on.
pub const SCREEN_HEIGHT: usize = 240;

/// Number of bytes in the RGBA rendering of the effect screen.
pub const FRAME_BYTES: usize = 4 * SCREEN_WIDTH * SCREEN_HEIGHT;

/// `parking_lot::RawMutex`: the lock itself, without the data it guards.
#[verifier::external_type_specification]
#[verifier::external_body]
pub struct ExRawMutex(RawMutex);

/// `lock_api::Mutex`, which `parking_lot::Mutex` is an alias of: a value
/// of type `T` behind a lock of type `R`.
#[verifier::external_type_specification]
#[verifier::external_body]
#[verifier::reject_recursive_types(R)]
#[verifier::reject_recursive_types(T)]
pub struct ExMutex<R, T: ?Sized>(Mutex<R, T>);

/// Exclusive access to the canvas behind a lock, for as long as the value
/// lives. Wraps `parking_lot::MutexGuard`, whose own declaration needs a
/// trait of that crate.
#[verifier::external_body]
struct CanvasGuard<'a> {
    guard: MutexGuard<'a, RawMutex, Canvas>,
}

/// `parking_lot::Mutex::new`: a new, unlocked mutex around `canvas`.
#[verifier::external_body]
fn new_mutex(canvas: Canvas) -> Mutex<RawMutex, Canvas> {
    Mutex::new(canvas)
}

/// `parking_lot::Mutex::lock`: blocks until the mutex is free, then holds
/// it until the guard is dropped. Nothing is claimed of the canvas found
/// behind it.
#[verifier::external_body]
fn lock<'a>(mutex: &'a Mutex<RawMutex, Canvas>) -> CanvasGuard<'a> {
    CanvasGuard { guard: mutex.lock() }
}

/// `Arc::clone`: another pointer to the same mutex, which is that mutex
/// and no copy of it.
#[verifier::external_body]
fn share(cell: &Arc<Mutex<RawMutex, Canvas>>) -> (handle: Arc<Mutex<RawMutex, Canvas>>)
    ensures
        handle == *cell,
{
    Arc::clone(cell)
}

/// `DerefMut::deref_mut` of `parking_lot::MutexGuard`: the canvas that the
/// guard protects.
#[verifier::external_body]
fn guarded<'a, 'b>(guard: &'b mut CanvasGuard<'a>) -> &'b mut Canvas {
    &mut *guard.guard
}

/// The screen of a running effect: a [`Screen`] that is known to have the
/// size `SCREEN_WIDTH` by `SCREEN_HEIGHT` wherever it turns up, also
/// behind a lock.
struct Canvas {
    screen: Screen,
}

impl Canvas {
    #[verifier::type_invariant]
    spec fn inv(self) -> bool {
        on_effect_screen(self.screen@)
    }

    /// What the canvas holds.
    spec fn shown(self) -> ScreenView {
        self.screen@
    }

    /// A canvas with every cell at index 0 and an all-black palette.
    fn new() -> (canvas: Canvas)
        ensures
            canvas.shown() == ScreenView::blank(SCREEN_WIDTH as nat, SCREEN_HEIGHT as nat),
    {
        Canvas { screen: Screen::new(SCREEN_WIDTH, SCREEN_HEIGHT) }
    }
}

/// The screen is well formed and has the size of the effect screen.
pub open spec fn on_effect_screen(s: ScreenView) -> bool {
    s.wf() && s.width == SCREEN_WIDTH && s.height == SCREEN_HEIGHT
}

/// The coordinate names a cell of the effect screen.
pub open spec fn in_frame(x: usize, y: usize) -> bool {
    x < SCREEN_WIDTH && y < SCREEN_HEIGHT
}

/// The report made of a coordinate outside the effect screen.
pub open spec fn outside_frame(x: usize, y: usize) -> OutOfBounds {
    OutOfBounds { x, y, width: SCREEN_WIDTH, height: SCREEN_HEIGHT }
}

/// A handle to the effect screen. All handles cloned from one another
/// name the same screen; every operation takes the screen's lock for its
/// own duration only, so operations are atomic one by one and not as a
/// group.
pub struct SharedScreen {
    cell: Arc<Mutex<RawMutex, Canvas>>,
    initial: Ghost<ScreenView>,
}

impl Clone for SharedScreen {
    /// Another handle to the same screen.
    fn clone(&self) -> (handle: SharedScreen)
        ensures
            handle == *self,
    {
        SharedScreen { cell: share(&self.cell), initial: Ghost(self.initial@) }
    }
}

impl SharedScreen {
    /// What the screen held when it was put behind its lock. What it holds
    /// now is for the lock to tell, at the moment it is taken.
    pub closed spec fn started_as(&self) -> ScreenView {
        self.initial@
    }

    /// A fresh effect screen: every cell 0, every palette entry black.
    pub fn new() -> (shared: SharedScreen)
        ensures
            shared.started_as() == ScreenView::blank(SCREEN_WIDTH as nat, SCREEN_HEIGHT as nat),
    {
        let canvas = Canvas::new();
        let ghost initial = canvas.shown();
        SharedScreen { cell: Arc::new(new_mutex(canvas)), initial: Ghost(initial) }
    }

    /// Sets every cell to `color`.
    pub fn clear(&self, color: u8) {
        let mut guard = lock(&self.cell);
        let canvas = guarded(&mut guard);
        proof {
            use_type_invariant(&*canvas);
        }
        canvas.screen.cls(color);
    }

    /// Reads the cell at `(x, y)`. Fails exactly when the coordinate is
    /// outside the screen.
    pub fn get_pixel(&self, x: usize, y: usize) -> (r: Result<u8, OutOfBounds>)
        ensures
            r is Ok <==> in_frame(x, y),
            r matches Err(e) ==> e == outside_frame(x, y),
    {
        let mut guard = lock(&self.cell);
        let canvas = guarded(&mut guard);
        proof {
            use_type_invariant(&*canvas);
        }
        canvas.screen.get_pixel(x, y)
    }

    /// Writes the cell at `(x, y)`. Fails, without writing, exactly when
    /// the coordinate is outside the screen.
    pub fn set_pixel(&self, x: usize, y: usize, color: u8) -> (r: Result<(), OutOfBounds>)
        ensures
            r is Ok <==> in_frame(x, y),
            r matches Err(e) ==> e == outside_frame(x, y),
    {
        let mut guard = lock(&self.cell);
        let canvas = guarded(&mut guard);
        proof {
            use_type_invariant(&*canvas);
        }
        canvas.screen.set_pixel(x, y, color)
    }

    /// Overwrites palette entry `index`.
    pub fn set_palette(&self, index: u8, color: Rgb) {
        let mut guard = lock(&self.cell);
        let canvas = guarded(&mut guard);
        proof {
            use_type_invariant(&*canvas);
        }
        canvas.screen.pal(index, color);
    }

    /// Reads palette entry `index`.
    pub fn palette_entry(&self, index: u8) -> Rgb {
        let mut guard = lock(&self.cell);
        let canvas = guarded(&mut guard);
        canvas.screen.palette_entry(index)
    }

    /// A copy of the screen as it is at the moment of the call.
    pub fn snapshot(&self) -> (screen: Screen)
        ensures
            on_effect_screen(screen@),
    {
        let mut guard = lock(&self.cell);
        let canvas = guarded(&mut guard);
        proof {
            use_type_invariant(&*canvas);
        }
        canvas.screen.clone()
    }

    /// Renders the screen, as it is at the moment of the call, into `out`.
    /// A buffer whose length is not `FRAME_BYTES` is rejected and left as
    /// it was; any other buffer is overwritten with the RGBA rendering of
    /// an effect screen.
    pub fn draw(&self, out: &mut [u8]) -> (r: Result<(), SizeMismatch>)
        ensures
            old(out)@.len() == FRAME_BYTES ==> r is Ok && exists|s: ScreenView|
                on_effect_screen(s) && final(out)@ == s.rgba(),
            old(out)@.len() != FRAME_BYTES ==> final(out)@ == old(out)@ && r == Err::<
                (),
                SizeMismatch,
            >(
                SizeMismatch {
                    width: SCREEN_WIDTH,
                    height: SCREEN_HEIGHT,
                    actual: old(out)@.len() as usize,
                },
            ),
    {
        let mut guard = lock(&self.cell);
        let canvas = guarded(&mut guard);
        proof {
            use_type_invariant(&*canvas);
        }
        let ghost s = canvas.screen@;
        let r = canvas.screen.draw(out);
        assert(old(out)@.len() == FRAME_BYTES ==> on_effect_screen(s) && out@ == s.rgba());
        r
    }
}

} // verus!
