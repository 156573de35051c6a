use vstd::prelude::*;
use vstd::string::*;
use crate::engine::{Answer, DrawingCall, Engine, Entry, Exchange, Global, Request};
use crate::error::{EffectError, EngineFailure, SizeMismatch};
use crate::reload::{ReloadWatcher, SourceRead, WatchState};
use crate::screen::ScreenView;
use crate::shared::{on_effect_screen, SharedScreen, FRAME_BYTES, SCREEN_HEIGHT, SCREEN_WIDTH};

verus! {

/// The frame counter that follows `count`: one more, wrapping to zero
/// past the largest value.
pub open spec fn next_frame(count: u64) -> u64 {
    if count == u64::MAX {
        0
    } else {
        (count + 1) as u64
    }
}

/// What an update reports, given how its reload (if one was due) and its
/// frame went: a failed reload is reported whatever the frame did, else
/// the frame's own outcome.
pub open spec fn update_outcome(
    reload: Option<Result<(), EffectError>>,
    frame: Result<(), EffectError>,
) -> Result<(), EffectError> {
    match reload {
        Some(Err(e)) => Err(e),
        _ => frame,
    }
}

/// The requests that bind the four drawing calls to `screen`, in the
/// order they are made.
pub open spec fn binding_requests(screen: SharedScreen) -> Seq<Request> {
    seq![
        Request::Bind(DrawingCall::Clear, screen),
        Request::Bind(DrawingCall::GetPixel, screen),
        Request::Bind(DrawingCall::SetPixel, screen),
        Request::Bind(DrawingCall::SetPalette, screen),
    ]
}

/// The requests that load a script, in the order they are made: publish
/// the screen's size and the frame counter, run the source under the
/// script's path as its name, call `Init`.
pub open spec fn load_requests(source: Seq<char>, path: Seq<char>, frames: u64) -> Seq<Request> {
    seq![
        Request::Publish(Global::Width, SCREEN_WIDTH as u64),
        Request::Publish(Global::Height, SCREEN_HEIGHT as u64),
        Request::Publish(Global::Time, frames),
        Request::Run { source, name: path },
        Request::Invoke(Entry::Init),
    ]
}

/// The requests that make up one frame, in the order they are made:
/// publish the frame counter, call `Render` with the timestamp.
pub open spec fn frame_requests(frames: u64, now_ms: u128) -> Seq<Request> {
    seq![Request::Publish(Global::Time, frames), Request::Invoke(Entry::Render(now_ms))]
}

/// The requests that a reload makes when `pending` is what the watcher
/// holds: those of a load if the file was read, none if it could not be
/// read or if no change is waiting.
pub open spec fn reload_requests(pending: Option<SourceRead>, path: Seq<char>, frames: u64) -> Seq<
    Request,
> {
    match pending {
        Some(Ok(source)) => load_requests(source@, path, frames),
        _ => Seq::empty(),
    }
}

/// `after` continues `before`: it holds everything that `before` holds,
/// in the same places.
pub open spec fn extends(before: Seq<Exchange>, after: Seq<Exchange>) -> bool {
    before.len() <= after.len() && after.take(before.len() as int) =~= before
}

/// What `after` holds beyond `before`.
pub open spec fn added(before: Seq<Exchange>, after: Seq<Exchange>) -> Seq<Exchange> {
    after.skip(before.len() as int)
}

/// The requests of a record, in order.
pub open spec fn asked(done: Seq<Exchange>) -> Seq<Request> {
    Seq::new(done.len(), |i: int| done[i].request)
}

/// None of the first `n` requests of the record was answered with a
/// failure.
pub open spec fn unfailed_to(done: Seq<Exchange>, n: int) -> bool {
    forall|i: int| 0 <= i < n && i < done.len() ==> !((#[trigger] done[i]).answer is Failed)
}

/// No request of the record was answered with a failure.
pub open spec fn unfailed(done: Seq<Exchange>) -> bool {
    unfailed_to(done, done.len() as int)
}

/// The failure that the record ends with, if it ends with one.
pub open spec fn failure_of(done: Seq<Exchange>) -> Option<EngineFailure> {
    if done.len() > 0 && done.last().answer is Failed {
        Some(done.last().answer->Failed_0)
    } else {
        None
    }
}

/// `done` is the record of a run through `plan`: the requests of `plan`
/// were made one after the other, in order; a request was made only
/// after every one before it had been answered without failure; and the
/// run went on to the end of `plan` unless an answer was a failure.
pub open spec fn ran(plan: Seq<Request>, done: Seq<Exchange>) -> bool {
    &&& done.len() <= plan.len()
    &&& asked(done) =~= plan.take(done.len() as int)
    &&& unfailed_to(done, done.len() - 1)
    &&& failure_of(done) is None ==> done.len() == plan.len()
}

/// What a run with the record `done` reports: the failure that ended it,
/// or success.
pub open spec fn engine_result(done: Seq<Exchange>) -> Result<(), EngineFailure> {
    match failure_of(done) {
        Some(fault) => Err(fault),
        None => Ok(()),
    }
}

/// What a load reports, given what was read of the file and the record
/// of the run that the load made: the engine's failure if the run ended
/// with one, else the read failure if the file could not be read, else
/// success.
pub open spec fn load_result(source: SourceRead, done: Seq<Exchange>) -> Result<(), EffectError> {
    match failure_of(done) {
        Some(fault) => Err(EffectError::of_engine(fault)),
        None => match source {
            Err(reason) => Err(EffectError::ScriptLoad(reason)),
            Ok(_) => Ok(()),
        },
    }
}

/// What a frame reports, given the record of its run: the engine's
/// failure if the run ended with one, else success.
pub open spec fn frame_result(done: Seq<Exchange>) -> Result<(), EffectError> {
    match failure_of(done) {
        Some(fault) => Err(EffectError::of_engine(fault)),
        None => Ok(()),
    }
}

/// What the reload of an update reports, given what the watcher held and
/// the record of the run that the reload made: nothing where no change
/// was waiting, else what the load reports.
pub open spec fn reload_result(pending: Option<SourceRead>, done: Seq<Exchange>) -> Option<
    Result<(), EffectError>,
> {
    match pending {
        None => None,
        Some(source) => Some(load_result(source, done)),
    }
}

/// The requests that `init` makes: bind the drawing calls to `screen`,
/// then load the script if its file was read.
pub open spec fn init_requests(
    screen: SharedScreen,
    source: SourceRead,
    path: Seq<char>,
    frames: u64,
) -> Seq<Request> {
    binding_requests(screen) + reload_requests(Some(source), path, frames)
}

/// `done` is the record of an update whose reload made the first `n`
/// exchanges and whose frame made the rest, and `r` is what that update
/// reports: the reload is a run through the requests of a reload, the
/// frame a run through the requests of a frame with the counter already
/// advanced, and the result combines what the two report.
pub open spec fn updated_at(
    pending: Option<SourceRead>,
    path: Seq<char>,
    frames: u64,
    now_ms: u128,
    done: Seq<Exchange>,
    r: Result<(), EffectError>,
    n: int,
) -> bool {
    &&& 0 <= n <= done.len()
    &&& ran(reload_requests(pending, path, frames), done.take(n))
    &&& ran(frame_requests(next_frame(frames), now_ms), done.skip(n))
    &&& r == update_outcome(reload_result(pending, done.take(n)), frame_result(done.skip(n)))
}

/// `done` is the record of an update and `r` what it reports: a reload,
/// run to its end or to its first failure, then a frame, run to its end
/// or to its first failure whatever the reload did.
pub open spec fn updated(
    pending: Option<SourceRead>,
    path: Seq<char>,
    frames: u64,
    now_ms: u128,
    done: Seq<Exchange>,
    r: Result<(), EffectError>,
) -> bool {
    exists|n: int| #[trigger] updated_at(pending, path, frames, now_ms, done, r, n)
}

/// Combines the outcome of a reload and of the frame that followed it
/// into the outcome of the whole update.
pub fn settle(reload: Option<Result<(), EffectError>>, frame: Result<(), EffectError>) -> (r: Result<
    (),
    EffectError,
>)
    ensures
        r == update_outcome(reload, frame),
{
    match reload {
        Some(Err(e)) => Err(e),
        _ => frame,
    }
}

/// Advances a frame counter by one frame.
pub fn advance(count: u64) -> (next: u64)
    ensures
        next == next_frame(count),
        count < u64::MAX ==> next == count + 1,
{
    count.wrapping_add(1)
}

/// An update that reloads asks for the new source to be run and for
/// `Init` to be called before it asks for `Render`, and it publishes the
/// frame counter that follows the old one: a reload does not reset the
/// counter.
pub proof fn lemma_reload_calls_init_before_render(
    source: String,
    path: Seq<char>,
    frames: u64,
    now_ms: u128,
)
    ensures
        ({
            let done = reload_requests(Some(Ok(source)), path, frames) + frame_requests(
                next_frame(frames),
                now_ms,
            );
            &&& done.len() == 7
            &&& done[3] == Request::Run { source: source@, name: path }
            &&& done[4] == Request::Invoke(Entry::Init)
            &&& done[5] == Request::Publish(Global::Time, next_frame(frames))
            &&& done[6] == Request::Invoke(Entry::Render(now_ms))
        }),
{
}

/// An update that has nothing to reload asks for one frame and nothing
/// else.
pub proof fn lemma_clean_update_is_one_frame(path: Seq<char>, frames: u64, now_ms: u128)
    ensures
        reload_requests(None, path, frames) + frame_requests(next_frame(frames), now_ms)
            == frame_requests(next_frame(frames), now_ms),
        frame_requests(next_frame(frames), now_ms).len() == 2,
        frame_requests(next_frame(frames), now_ms)[0] == Request::Publish(
            Global::Time,
            next_frame(frames),
        ),
        frame_requests(next_frame(frames), now_ms)[1] == Request::Invoke(Entry::Render(now_ms)),
{
}

/// A run reports success exactly when every request of its plan was
/// made and none was answered with a failure; a failure that it reports
/// is the answer to the last request made.
pub proof fn lemma_run_succeeds_exactly_when_all_answered(plan: Seq<Request>, done: Seq<Exchange>)
    requires
        ran(plan, done),
    ensures
        engine_result(done) is Ok <==> done.len() == plan.len() && unfailed(done),
        engine_result(done) matches Err(fault) ==> done.len() > 0 && done.last().answer
            == Answer::Failed(fault),
        unfailed(done) <==> failure_of(done) is None,
{
}

/// `init` reports success exactly when the file was read and all nine
/// requests were made and answered without failure: four bindings, three
/// published values, the run of the source and the call of `Init`, which
/// may be absent. Nothing is asked after a failure, and a failure is
/// reported as the error that stands for it. Every drawing call that is
/// bound is bound to `screen`.
pub proof fn lemma_init_succeeds_exactly_when_all_answered(
    screen: SharedScreen,
    source: SourceRead,
    path: Seq<char>,
    frames: u64,
    done: Seq<Exchange>,
)
    requires
        ran(init_requests(screen, source, path, frames), done),
    ensures
        load_result(source, done) is Ok <==> source is Ok && done.len() == 9 && unfailed(done),
        unfailed_to(done, done.len() - 1),
        forall|i: int|
            0 <= i < done.len() && i < 4 ==> (#[trigger] done[i]).request
                == binding_requests(screen)[i],
        done.len() > 0 ==> (done.last().answer matches Answer::Failed(fault) ==> load_result(
            source,
            done,
        ) == Err::<(), EffectError>(EffectError::of_engine(fault))),
        unfailed(done) ==> (source matches Err(reason) ==> done.len() == 4 && load_result(
            source,
            done,
        ) == Err::<(), EffectError>(EffectError::ScriptLoad(reason))),
{
    let plan = init_requests(screen, source, path, frames);
    lemma_run_succeeds_exactly_when_all_answered(plan, done);
    assert forall|i: int| 0 <= i < done.len() && i < 4 implies (#[trigger] done[i]).request
        == binding_requests(screen)[i] by {
        assert(asked(done)[i] == plan.take(done.len() as int)[i]);
    }
}

/// A frame reports success exactly when the counter was published and
/// `Render` was asked for and neither answer was a failure. A script
/// without `Render` answers `Absent`, which is no failure; a `Render`
/// that fails makes the frame fail with the error that stands for it.
pub proof fn lemma_frame_succeeds_exactly_when_all_answered(
    frames: u64,
    now_ms: u128,
    done: Seq<Exchange>,
)
    requires
        ran(frame_requests(frames, now_ms), done),
    ensures
        frame_result(done) is Ok <==> done.len() == 2 && unfailed(done),
        done.len() >= 1,
        done[0].request == Request::Publish(Global::Time, frames),
        done.len() == 2 ==> done[1].request == Request::Invoke(Entry::Render(now_ms)),
        done.len() == 2 && done[0].answer is Done && done[1].answer is Absent ==> frame_result(
            done,
        ) is Ok,
        done.len() == 2 ==> (done[1].answer matches Answer::Failed(fault) ==> frame_result(done)
            == Err::<(), EffectError>(EffectError::of_engine(fault))),
{
    let plan = frame_requests(frames, now_ms);
    lemma_run_succeeds_exactly_when_all_answered(plan, done);
    assert(asked(done)[0] == plan.take(done.len() as int)[0]);
    if done.len() == 2 {
        assert(asked(done)[1] == plan.take(done.len() as int)[1]);
    }
}

/// An update reports success exactly when no unreadable file was
/// waiting and every request of the reload and of the frame was made and
/// answered without failure; the record is then the requests of the
/// reload followed by those of the frame.
pub proof fn lemma_update_succeeds_exactly_when_all_answered(
    pending: Option<SourceRead>,
    path: Seq<char>,
    frames: u64,
    now_ms: u128,
    done: Seq<Exchange>,
    r: Result<(), EffectError>,
)
    requires
        updated(pending, path, frames, now_ms, done, r),
    ensures
        r is Ok <==> !(pending matches Some(Err(_))) && unfailed(done) && done.len()
            == reload_requests(pending, path, frames).len() + 2,
        r is Ok ==> asked(done) == reload_requests(pending, path, frames) + frame_requests(
            next_frame(frames),
            now_ms,
        ),
        pending matches Some(Err(reason)) ==> r == Err::<(), EffectError>(
            EffectError::ScriptLoad(reason),
        ),
{
    let first = reload_requests(pending, path, frames);
    let second = frame_requests(next_frame(frames), now_ms);
    let n = choose|n: int| #[trigger] updated_at(pending, path, frames, now_ms, done, r, n);
    let reloaded = done.take(n);
    let drawn = done.skip(n);
    lemma_run_succeeds_exactly_when_all_answered(first, reloaded);
    lemma_run_succeeds_exactly_when_all_answered(second, drawn);
    assert(done =~= reloaded + drawn);
    if unfailed(done) {
        assert forall|i: int| 0 <= i < reloaded.len() implies !((#[trigger] reloaded[i]).answer
            is Failed) by {
            assert(reloaded[i] == done[i]);
        }
        assert forall|i: int| 0 <= i < drawn.len() implies !((#[trigger] drawn[i]).answer
            is Failed) by {
            assert(drawn[i] == done[i + n]);
        }
    }
    if unfailed(reloaded) && unfailed(drawn) {
        assert forall|i: int| 0 <= i < done.len() implies !((#[trigger] done[i]).answer
            is Failed) by {
            if i < n {
                assert(reloaded[i] == done[i]);
            } else {
                assert(drawn[i - n] == done[i]);
            }
        }
    }
    if r is Ok {
        assert(first.take(first.len() as int) =~= first);
        assert(second.take(second.len() as int) =~= second);
        assert forall|i: int| 0 <= i < done.len() implies asked(done)[i] == (first + second)[i] by {
            if i < n {
                assert(done[i] == reloaded[i]);
                assert(asked(reloaded)[i] == first[i]);
            } else {
                assert(done[i] == drawn[i - n]);
                assert(asked(drawn)[i - n] == second[i - n]);
            }
        }
        assert(asked(done) =~= first + second);
    }
}

/// A scripted effect: a script engine, the screen its script draws on, a
/// frame counter, and the watcher that tells when the script file has
/// changed.
pub struct LuaEffect {
    engine: Engine,
    screen: SharedScreen,
    frame_count: u64,
    script_path: String,
    watcher: ReloadWatcher,
}

impl LuaEffect {
    /// Number of updates made so far, modulo 2^64.
    pub closed spec fn frames(&self) -> u64 {
        self.frame_count
    }

    /// The path of the script file, as given at construction.
    pub closed spec fn path(&self) -> Seq<char> {
        self.script_path@
    }

    /// What was read from the script file at its latest change, while
    /// that change has not been acted on.
    pub closed spec fn pending(&self) -> Option<SourceRead> {
        self.watcher.pending()
    }

    /// Everything asked of the script engine so far, with the answers
    /// it gave, oldest first.
    pub closed spec fn record(&self) -> Seq<Exchange> {
        self.engine.history()
    }

    /// The handle through which the effect reaches the screen that its
    /// script draws on.
    pub closed spec fn shared(&self) -> SharedScreen {
        self.screen
    }

    /// Clean or dirty: whether a reload is due at the next update.
    pub open spec fn reload_state(&self) -> WatchState {
        if self.pending() is Some {
            WatchState::Dirty
        } else {
            WatchState::Clean
        }
    }

    /// A new effect for the script at `path`: a fresh engine of which
    /// nothing has been asked, a fresh screen, frame counter 0 and
    /// nothing to reload.
    pub fn new(path: String) -> (effect: LuaEffect)
        ensures
            effect.frames() == 0,
            effect.path() == path@,
            effect.pending() is None,
            effect.record() == Seq::<Exchange>::empty(),
            effect.shared().started_as() == ScreenView::blank(
                SCREEN_WIDTH as nat,
                SCREEN_HEIGHT as nat,
            ),
    {
        LuaEffect {
            engine: Engine::new(),
            screen: SharedScreen::new(),
            frame_count: 0,
            script_path: path,
            watcher: ReloadWatcher::new(),
        }
    }

    /// The current value of the frame counter.
    pub fn frame_count(&self) -> (count: u64)
        ensures
            count == self.frames(),
    {
        self.frame_count
    }

    /// The path of the script file.
    pub fn script_path(&self) -> (path: &str)
        ensures
            path@ == self.path(),
    {
        self.script_path.as_str()
    }

    /// Another handle to the screen that the script draws on: the
    /// effect's own screen, not a copy of it.
    pub fn screen(&self) -> (screen: SharedScreen)
        ensures
            screen == self.shared(),
    {
        self.screen.clone()
    }

    /// Whether the next update will reload the script.
    pub fn reload_due(&self) -> (due: bool)
        ensures
            due == (self.reload_state() == WatchState::Dirty),
    {
        self.watcher.is_dirty()
    }

    /// Records that the script file changed and what reading it gave; the
    /// next update reloads from it. A change still waiting is superseded.
    /// Nothing is asked of the engine yet.
    pub fn file_changed(&mut self, source: SourceRead)
        ensures
            final(self).pending() == Some(source),
            final(self).frames() == old(self).frames(),
            final(self).path() == old(self).path(),
            final(self).shared() == old(self).shared(),
            final(self).record() == old(self).record(),
    {
        self.watcher.file_changed(source);
    }

    /// Prepares the engine and loads the script for the first time.
    ///
    /// Binds the four drawing calls to the effect's own screen, the one
    /// that `draw` renders; then, if the file was read, makes the
    /// requests of a load: publish `W`, `H` and `time`, run the source
    /// once, call `Init`. Each request is made only after every one
    /// before it was answered without failure, and the first failure ends
    /// the run and is reported as the error that stands for it. If no
    /// request failed, the result is success where the file was read and
    /// `ScriptLoad` with the reason where it was not. A script without
    /// `Init` is no failure. The frame counter, the watcher and the screen
    /// handle stay as they were.
    pub fn init(&mut self, source: SourceRead) -> (r: Result<(), EffectError>)
        ensures
            final(self).frames() == old(self).frames(),
            final(self).path() == old(self).path(),
            final(self).shared() == old(self).shared(),
            final(self).pending() == old(self).pending(),
            extends(old(self).record(), final(self).record()),
            ran(
                init_requests(old(self).shared(), source, old(self).path(), old(self).frames()),
                added(old(self).record(), final(self).record()),
            ),
            r == load_result(source, added(old(self).record(), final(self).record())),
            r is Ok <==> source is Ok && added(old(self).record(), final(self).record()).len() == 9
                && unfailed(added(old(self).record(), final(self).record())),
    {
        let ghost before = self.engine.history();
        let ghost plan = init_requests(self.shared(), source, self.path(), self.frames());
        match self.bind_drawing_calls() {
            Err(fault) => {
                proof {
                    let done = added(before, self.engine.history());
                    assert(asked(done) =~= plan.take(done.len() as int));
                    lemma_init_succeeds_exactly_when_all_answered(
                        self.shared(),
                        source,
                        self.path(),
                        self.frames(),
                        done,
                    );
                }
                return Err(EffectError::from_engine(fault));
            },
            Ok(()) => {},
        }
        let ghost bound = self.engine.history();
        let r = self.load_and_exec_script(source);
        proof {
            let bindings = added(before, bound);
            let loaded = added(bound, self.engine.history());
            let done = added(before, self.engine.history());
            assert(bound =~= before + bindings);
            assert(self.engine.history() =~= bound + loaded);
            assert(done =~= bindings + loaded);
            assert(asked(done) =~= plan.take(done.len() as int)) by {
                assert(asked(bindings) =~= binding_requests(self.shared()));
                assert forall|i: int| 0 <= i < done.len() implies asked(done)[i] == plan[i] by {
                    if i < 4 {
                        assert(done[i] == bindings[i]);
                        assert(asked(bindings)[i] == binding_requests(self.shared())[i]);
                    } else {
                        assert(done[i] == loaded[i - 4]);
                        assert(asked(loaded)[i - 4] == reload_requests(
                            Some(source),
                            self.path(),
                            self.frames(),
                        ).take(loaded.len() as int)[i - 4]);
                    }
                }
            }
            assert(unfailed_to(done, done.len() - 1)) by {
                assert forall|i: int| 0 <= i < done.len() - 1 implies !((
                #[trigger] done[i]).answer is Failed) by {
                    if i < 4 {
                        assert(done[i] == bindings[i]);
                    } else {
                        assert(done[i] == loaded[i - 4]);
                    }
                }
            }
            if loaded.len() == 0 {
                assert(done =~= bindings);
            } else {
                assert(done.last() == loaded.last());
            }
            lemma_init_succeeds_exactly_when_all_answered(
                self.shared(),
                source,
                self.path(),
                self.frames(),
                done,
            );
        }
        r
    }

    /// Advances the effect by one frame.
    ///
    /// If a change of the script file is waiting, the watcher returns to
    /// clean and, if the file was read, the requests of a load are made,
    /// up to the first that fails. Then, whether or not that worked, the
    /// frame counter goes up by one and the requests of a frame are made:
    /// publish the counter as `time`, call `Render` with `now_ms`, the
    /// second only if the first did not fail. The counter is not reset by
    /// a reload. A script without `Render` is no failure.
    ///
    /// The result is what the reload reports if the reload failed, be
    /// it the engine's failure or a file that could not be read, and what
    /// the frame reports otherwise.
    pub fn update(&mut self, now_ms: u128) -> (r: Result<(), EffectError>)
        ensures
            final(self).frames() == next_frame(old(self).frames()),
            old(self).frames() < u64::MAX ==> final(self).frames() == old(self).frames() + 1,
            final(self).reload_state() == WatchState::Clean,
            final(self).path() == old(self).path(),
            final(self).shared() == old(self).shared(),
            extends(old(self).record(), final(self).record()),
            updated(
                old(self).pending(),
                old(self).path(),
                old(self).frames(),
                now_ms,
                added(old(self).record(), final(self).record()),
                r,
            ),
            old(self).pending() matches Some(Err(reason)) ==> r == Err::<(), EffectError>(
                EffectError::ScriptLoad(reason),
            ),
            r is Ok <==> !(old(self).pending() matches Some(Err(_))) && unfailed(
                added(old(self).record(), final(self).record()),
            ) && added(old(self).record(), final(self).record()).len() == reload_requests(
                old(self).pending(),
                old(self).path(),
                old(self).frames(),
            ).len() + 2,
    {
        let ghost before = self.engine.history();
        let ghost pending = self.pending();
        let reload = match self.watcher.take() {
            Some(source) => Some(self.load_and_exec_script(source)),
            None => None,
        };
        let ghost between = self.engine.history();
        self.frame_count = advance(self.frame_count);
        let frame = self.render(now_ms);
        let r = settle(reload, frame);
        proof {
            let reloaded = added(before, between);
            let drawn = added(between, self.engine.history());
            let done = added(before, self.engine.history());
            assert(between =~= before + reloaded);
            assert(self.engine.history() =~= between + drawn);
            assert(done =~= reloaded + drawn);
            assert(done.take(reloaded.len() as int) =~= reloaded);
            assert(done.skip(reloaded.len() as int) =~= drawn);
            assert(updated_at(
                pending,
                self.path(),
                old(self).frames(),
                now_ms,
                done,
                r,
                reloaded.len() as int,
            ));
            lemma_update_succeeds_exactly_when_all_answered(
                pending,
                self.path(),
                old(self).frames(),
                now_ms,
                done,
                r,
            );
        }
        r
    }

    /// Renders the screen, as it is at the moment of the call, into
    /// `pixels`: four bytes per cell in row-major order, the red, green
    /// and blue of the cell's palette entry followed by 255. A buffer
    /// whose length is not `FRAME_BYTES` is rejected and left as it was.
    /// Nothing is asked of the engine.
    pub fn draw(&self, pixels: &mut [u8]) -> (r: Result<(), EffectError>)
        ensures
            old(pixels)@.len() == FRAME_BYTES ==> r is Ok && exists|s: ScreenView|
                on_effect_screen(s) && final(pixels)@ == s.rgba(),
            old(pixels)@.len() != FRAME_BYTES ==> final(pixels)@ == old(pixels)@ && r == Err::<
                (),
                EffectError,
            >(
                EffectError::SizeMismatch(
                    SizeMismatch {
                        width: SCREEN_WIDTH,
                        height: SCREEN_HEIGHT,
                        actual: old(pixels)@.len() as usize,
                    },
                ),
            ),
    {
        match self.screen.draw(pixels) {
            Ok(()) => Ok(()),
            Err(mismatch) => Err(EffectError::SizeMismatch(mismatch)),
        }
    }

    /// Binds the four drawing calls to this effect's screen, each only
    /// after the one before it was bound, and reports the first failure.
    fn bind_drawing_calls(&mut self) -> (r: Result<(), EngineFailure>)
        ensures
            final(self).frames() == old(self).frames(),
            final(self).path() == old(self).path(),
            final(self).shared() == old(self).shared(),
            final(self).pending() == old(self).pending(),
            extends(old(self).record(), final(self).record()),
            ran(
                binding_requests(old(self).shared()),
                added(old(self).record(), final(self).record()),
            ),
            r == engine_result(added(old(self).record(), final(self).record())),
    {
        let ghost before = self.engine.history();
        let ghost plan = binding_requests(self.shared());
        let ghost mut done: Seq<Exchange> = Seq::empty();
        let first = self.engine.bind(DrawingCall::Clear, &self.screen);
        proof {
            done = done.push(Exchange { request: plan[0], answer: Answer::of(first) });
            assert(added(before, self.engine.history()) =~= done);
            assert(asked(done) =~= plan.take(1));
        }
        if first.is_err() {
            return first;
        }
        let second = self.engine.bind(DrawingCall::GetPixel, &self.screen);
        proof {
            done = done.push(Exchange { request: plan[1], answer: Answer::of(second) });
            assert(added(before, self.engine.history()) =~= done);
            assert(asked(done) =~= plan.take(2));
        }
        if second.is_err() {
            return second;
        }
        let third = self.engine.bind(DrawingCall::SetPixel, &self.screen);
        proof {
            done = done.push(Exchange { request: plan[2], answer: Answer::of(third) });
            assert(added(before, self.engine.history()) =~= done);
            assert(asked(done) =~= plan.take(3));
        }
        if third.is_err() {
            return third;
        }
        let fourth = self.engine.bind(DrawingCall::SetPalette, &self.screen);
        proof {
            done = done.push(Exchange { request: plan[3], answer: Answer::of(fourth) });
            assert(added(before, self.engine.history()) =~= done);
            assert(asked(done) =~= plan.take(4));
        }
        match fourth {
            Err(fault) => Err(fault),
            Ok(()) => Ok(()),
        }
    }

    /// Loads the script from what was read of its file.
    ///
    /// Without source text nothing is asked of the engine and the read
    /// failure is reported as `ScriptLoad`. With it, the requests of a
    /// load are made, each only after every one before it was answered
    /// without failure: nothing is run after a value could not be
    /// published, and `Init` is not called after a run that failed. The
    /// first failure is reported as the error that stands for it; without
    /// one the load succeeds, whether or not the script defines `Init`.
    fn load_and_exec_script(&mut self, source: SourceRead) -> (r: Result<(), EffectError>)
        ensures
            final(self).frames() == old(self).frames(),
            final(self).path() == old(self).path(),
            final(self).shared() == old(self).shared(),
            final(self).pending() == old(self).pending(),
            extends(old(self).record(), final(self).record()),
            ran(
                reload_requests(Some(source), old(self).path(), old(self).frames()),
                added(old(self).record(), final(self).record()),
            ),
            r == load_result(source, added(old(self).record(), final(self).record())),
    {
        let ghost before = self.engine.history();
        let ghost plan = reload_requests(Some(source), self.path(), self.frames());
        let ghost mut done: Seq<Exchange> = Seq::empty();
        let text = match source {
            Err(reason) => {
                assert(added(before, self.engine.history()) =~= done);
                assert(asked(done) =~= plan.take(0));
                return Err(EffectError::ScriptLoad(reason));
            },
            Ok(text) => text,
        };
        let width = self.engine.publish(Global::Width, SCREEN_WIDTH as u64);
        proof {
            done = done.push(Exchange { request: plan[0], answer: Answer::of(width) });
            assert(added(before, self.engine.history()) =~= done);
            assert(asked(done) =~= plan.take(1));
        }
        match width {
            Err(fault) => { return Err(EffectError::from_engine(fault)); },
            Ok(()) => {},
        }
        let height = self.engine.publish(Global::Height, SCREEN_HEIGHT as u64);
        proof {
            done = done.push(Exchange { request: plan[1], answer: Answer::of(height) });
            assert(added(before, self.engine.history()) =~= done);
            assert(asked(done) =~= plan.take(2));
        }
        match height {
            Err(fault) => { return Err(EffectError::from_engine(fault)); },
            Ok(()) => {},
        }
        let time = self.engine.publish(Global::Time, self.frame_count);
        proof {
            done = done.push(Exchange { request: plan[2], answer: Answer::of(time) });
            assert(added(before, self.engine.history()) =~= done);
            assert(asked(done) =~= plan.take(3));
        }
        match time {
            Err(fault) => { return Err(EffectError::from_engine(fault)); },
            Ok(()) => {},
        }
        let run = self.engine.run(text.as_str(), self.script_path.as_str());
        proof {
            done = done.push(Exchange { request: plan[3], answer: Answer::of(run) });
            assert(added(before, self.engine.history()) =~= done);
            assert(asked(done) =~= plan.take(4));
        }
        match run {
            Err(fault) => { return Err(EffectError::from_engine(fault)); },
            Ok(()) => {},
        }
        let called = self.engine.invoke(Entry::Init);
        proof {
            done = done.push(Exchange { request: plan[4], answer: Answer::of_invoke(called) });
            assert(added(before, self.engine.history()) =~= done);
            assert(asked(done) =~= plan.take(5));
        }
        match called {
            Err(fault) => Err(EffectError::from_engine(fault)),
            Ok(_) => Ok(()),
        }
    }

    /// Runs one frame of the loaded script: publishes the frame counter
    /// and then, unless that failed, calls `Render` with `now_ms`. The
    /// first failure is reported as the error that stands for it; a
    /// script without `Render` makes the frame succeed without a call.
    fn render(&mut self, now_ms: u128) -> (r: Result<(), EffectError>)
        ensures
            final(self).frames() == old(self).frames(),
            final(self).path() == old(self).path(),
            final(self).shared() == old(self).shared(),
            final(self).pending() == old(self).pending(),
            extends(old(self).record(), final(self).record()),
            ran(
                frame_requests(old(self).frames(), now_ms),
                added(old(self).record(), final(self).record()),
            ),
            r == frame_result(added(old(self).record(), final(self).record())),
    {
        let ghost before = self.engine.history();
        let ghost plan = frame_requests(self.frames(), now_ms);
        let ghost mut done: Seq<Exchange> = Seq::empty();
        let time = self.engine.publish(Global::Time, self.frame_count);
        proof {
            done = done.push(Exchange { request: plan[0], answer: Answer::of(time) });
            assert(added(before, self.engine.history()) =~= done);
            assert(asked(done) =~= plan.take(1));
        }
        match time {
            Err(fault) => { return Err(EffectError::from_engine(fault)); },
            Ok(()) => {},
        }
        let called = self.engine.invoke(Entry::Render(now_ms));
        proof {
            done = done.push(Exchange { request: plan[1], answer: Answer::of_invoke(called) });
            assert(added(before, self.engine.history()) =~= done);
            assert(asked(done) =~= plan.take(2));
        }
        match called {
            Err(fault) => Err(EffectError::from_engine(fault)),
            Ok(_) => Ok(()),
        }
    }
}

} // verus!
