use vstd::prelude::*;

verus! {

/// The phases the game goes through: loading the hero's sprites, setting up
/// the scene, playing, and a finished phase that no transition enters.
#[derive(Clone, Copy, Debug, PartialEq, Eq, Structural)]
pub enum AppState {
    Preload,
    Setup,
    InGame,
    Finished,
}

impl Default for AppState {
    /// The game starts by loading its sprites.
    fn default() -> (state: AppState)
        ensures
            state == AppState::Preload,
    {
        AppState::Preload
    }
}

/// What moves the game on from one phase to the next.
#[derive(Clone, Copy, Debug, PartialEq, Eq, Structural)]
pub enum PhaseEvent {
    /// Every folder of the hero's sprites has finished loading.
    SpritesLoaded,
    /// The scene has been set up.
    SetupDone,
}

/// How far along the game is in its phases.
pub open spec fn phase_rank(state: AppState) -> int {
    match state {
        AppState::Preload => 0,
        AppState::Setup => 1,
        AppState::InGame => 2,
        AppState::Finished => 3,
    }
}

/// The phase after `event` in phase `state`: the sprites having loaded ends
/// the loading phase, a finished setup starts the game, and every other
/// event is ignored in that phase.
pub open spec fn phase_after(state: AppState, event: PhaseEvent) -> AppState {
    match (state, event) {
        (AppState::Preload, PhaseEvent::SpritesLoaded) => AppState::Setup,
        (AppState::Setup, PhaseEvent::SetupDone) => AppState::InGame,
        _ => state,
    }
}

/// The phase the game moves to on `event`, as `phase_after` says.
pub fn next_phase(state: AppState, event: PhaseEvent) -> (next: AppState)
    ensures
        next == phase_after(state, event),
        state == AppState::Preload && event == PhaseEvent::SpritesLoaded ==> next == AppState::Setup,
        state == AppState::Setup && event == PhaseEvent::SetupDone ==> next == AppState::InGame,
        !(state == AppState::Preload && event == PhaseEvent::SpritesLoaded) && !(state
            == AppState::Setup && event == PhaseEvent::SetupDone) ==> next == state,
{
    match (state, event) {
        (AppState::Preload, PhaseEvent::SpritesLoaded) => AppState::Setup,
        (AppState::Setup, PhaseEvent::SetupDone) => AppState::InGame,
        _ => state,
    }
}

/// The phases only move forward, one at a time: no event takes the game
/// back, none skips a phase, and none enters the finished phase.
pub proof fn lemma_phases_move_forward(state: AppState, event: PhaseEvent)
    ensures
        phase_rank(state) <= phase_rank(phase_after(state, event)) <= phase_rank(state) + 1,
        phase_after(state, event) == AppState::Finished ==> state == AppState::Finished,
{
}

// ---------------------------------------------------------------------------
// Loading the hero's sprite folders
// ---------------------------------------------------------------------------

/// Which of the hero's sprite folders have been reported loaded so far, one
/// flag per folder.
#[derive(Debug)]
pub struct LoadProgress {
    pub loaded: Vec<bool>,
}

/// The flags of `loaded` after a report that the folders flagged in
/// `matched` have loaded: a folder counts as loaded once any report said so.
pub open spec fn merged(loaded: Seq<bool>, matched: Seq<bool>) -> Seq<bool> {
    Seq::new(loaded.len(), |i: int| loaded[i] || matched[i])
}

/// Whether every flag is set.
pub open spec fn all_set(flags: Seq<bool>) -> bool {
    forall|i: int| 0 <= i < flags.len() ==> flags[i]
}

impl LoadProgress {
    /// Progress of loading `folders` sprite folders, none loaded yet.
    pub fn new(folders: usize) -> (progress: LoadProgress)
        ensures
            progress.loaded@ == Seq::new(folders as nat, |i: int| false),
    {
        let mut loaded: Vec<bool> = Vec::new();
        let mut i: usize = 0;
        while i < folders
            invariant
                i <= folders,
                loaded@ == Seq::new(i as nat, |j: int| false),
            decreases folders - i,
        {
            loaded.push(false);
            i = i + 1;
        }
        LoadProgress { loaded }
    }

    /// Records a report that the folders flagged in `matched` have loaded.
    pub fn record(&mut self, matched: &Vec<bool>)
        requires
            matched.len() == old(self).loaded.len(),
        ensures
            final(self).loaded@ == merged(old(self).loaded@, matched@),
            final(self).loaded@.len() == old(self).loaded@.len(),
            forall|i: int|
                0 <= i < matched.len() ==> final(self).loaded@[i] == (old(self).loaded@[i]
                    || matched@[i]),
    {
        let n = self.loaded.len();
        let mut now: Vec<bool> = Vec::new();
        let mut i: usize = 0;
        while i < n
            invariant
                n == self.loaded.len(),
                n == matched.len(),
                i <= n,
                now@ =~= merged(self.loaded@, matched@).take(i as int),
            decreases n - i,
        {
            now.push(self.loaded[i] || matched[i]);
            i = i + 1;
        }
        self.loaded = now;
    }

    /// Whether every sprite folder has been reported loaded.
    pub fn all_loaded(&self) -> (done: bool)
        ensures
            done == all_set(self.loaded@),
            done == (forall|i: int| 0 <= i < self.loaded@.len() ==> self.loaded@[i]),
    {
        let mut i: usize = 0;
        while i < self.loaded.len()
            invariant
                i <= self.loaded.len(),
                forall|j: int| 0 <= j < i ==> self.loaded@[j],
            decreases self.loaded.len() - i,
        {
            if !self.loaded[i] {
                return false;
            }
            i = i + 1;
        }
        true
    }
}

/// Something that happens while the game runs: a report of which sprite
/// folders an asset event says have loaded, or the scene being set up.
pub enum Happening {
    SpriteReport(Seq<bool>),
    SetupDone,
}

/// The phase and loading flags after `happening`, from phase `phase` with
/// flags `loaded`. Reports count only in the loading phase; once every
/// folder has been reported loaded the loading phase ends.
pub open spec fn game_step(phase: AppState, loaded: Seq<bool>, happening: Happening) -> (
    AppState,
    Seq<bool>,
) {
    match happening {
        Happening::SpriteReport(matched) => {
            if phase == AppState::Preload {
                let now = merged(loaded, matched);
                (
                    if all_set(now) {
                        phase_after(phase, PhaseEvent::SpritesLoaded)
                    } else {
                        phase
                    },
                    now,
                )
            } else {
                (phase, loaded)
            }
        },
        Happening::SetupDone => (phase_after(phase, PhaseEvent::SetupDone), loaded),
    }
}

/// Handles a report, from one asset event, of which sprite folders have
/// loaded: in the loading phase it records them and ends the phase once
/// every folder has been reported loaded; in other phases it does nothing.
/// `matched[i]` tells whether the event reports folder `i` loaded with its
/// dependencies.
pub fn on_sprite_report(phase: AppState, progress: &mut LoadProgress, matched: &Vec<bool>) -> (next:
    AppState)
    requires
        matched.len() == old(progress).loaded.len(),
    ensures
        (next, final(progress).loaded@) == game_step(
            phase,
            old(progress).loaded@,
            Happening::SpriteReport(matched@),
        ),
        phase == AppState::Preload ==> final(progress).loaded@.len() == matched.len() && forall|
            i: int,
        |
            0 <= i < matched.len() ==> final(progress).loaded@[i] == (old(progress).loaded@[i]
                || matched@[i]),
        phase == AppState::Preload && (forall|i: int|
            0 <= i < matched.len() ==> old(progress).loaded@[i] || matched@[i]) ==> next
            == AppState::Setup,
        phase == AppState::Preload && !(forall|i: int|
            0 <= i < matched.len() ==> old(progress).loaded@[i] || matched@[i]) ==> next
            == AppState::Preload,
        phase != AppState::Preload ==> next == phase && final(progress).loaded@ == old(
            progress,
        ).loaded@,
{
    if phase != AppState::Preload {
        return phase;
    }
    progress.record(matched);
    if progress.all_loaded() {
        next_phase(phase, PhaseEvent::SpritesLoaded)
    } else {
        phase
    }
}

/// What a report does: in the loading phase, a folder counts as loaded once
/// it is reported loaded, and as soon as every folder has been the loading
/// phase ends and setup begins; otherwise loading goes on. Outside the
/// loading phase a report changes nothing. Setting up moves the game from
/// setup to playing, and changes nothing in any other phase.
pub proof fn lemma_reports_end_loading(phase: AppState, loaded: Seq<bool>, matched: Seq<bool>)
    requires
        matched.len() == loaded.len(),
    ensures
        ({
            let (next, now) = game_step(phase, loaded, Happening::SpriteReport(matched));
            let every = forall|i: int| 0 <= i < loaded.len() ==> loaded[i] || matched[i];
            &&& phase == AppState::Preload ==> now.len() == loaded.len() && forall|i: int|
                0 <= i < loaded.len() ==> now[i] == (loaded[i] || matched[i])
            &&& phase == AppState::Preload && every ==> next == AppState::Setup
            &&& phase == AppState::Preload && !every ==> next == AppState::Preload
            &&& phase != AppState::Preload ==> next == phase && now == loaded
        }),
        game_step(phase, loaded, Happening::SetupDone) == (if phase == AppState::Setup {
            AppState::InGame
        } else {
            phase
        }, loaded),
{
    let now = merged(loaded, matched);
    let every = forall|i: int| 0 <= i < loaded.len() ==> loaded[i] || matched[i];
    if all_set(now) {
        assert forall|i: int| 0 <= i < loaded.len() implies loaded[i] || matched[i] by {
            assert(now[i]);
        }
    }
    if every {
        assert forall|i: int| 0 <= i < now.len() implies now[i] by {
            assert(loaded[i] || matched[i]);
        }
    }
}

/// The phase and loading flags after a run of happenings.
pub open spec fn game_after(phase: AppState, loaded: Seq<bool>, run: Seq<Happening>) -> (
    AppState,
    Seq<bool>,
)
    decreases run.len(),
{
    if run.len() == 0 {
        (phase, loaded)
    } else {
        let (p, l) = game_after(phase, loaded, run.drop_last());
        game_step(p, l, run.last())
    }
}

/// Whether some report in `run` says folder `i` has loaded.
pub open spec fn reported_loaded(run: Seq<Happening>, i: int) -> bool {
    exists|k: int|
        0 <= k < run.len() && (#[trigger] run[k] matches Happening::SpriteReport(m) && m[i])
}

/// Whether some report came in `run`.
pub open spec fn report_happened(run: Seq<Happening>) -> bool {
    exists|k: int| 0 <= k < run.len() && #[trigger] run[k] matches Happening::SpriteReport(_)
}

/// Whether the scene was set up somewhere in `run`.
pub open spec fn setup_happened(run: Seq<Happening>) -> bool {
    exists|k: int| 0 <= k < run.len() && #[trigger] run[k] matches Happening::SetupDone
}

/// Whatever happens, a game that starts by loading `folders` sprite folders
/// never finishes; it leaves the loading phase only after every folder has
/// been reported loaded, and it plays only after that and a finished setup.
/// Conversely, once every folder has been reported loaded it has left the
/// loading phase.
/// (Each report speaks of every folder.)
pub proof fn lemma_game_waits_for_every_folder(folders: nat, run: Seq<Happening>)
    requires
        forall|k: int|
            0 <= k < run.len() ==> (#[trigger] run[k] matches Happening::SpriteReport(m) ==> m.len()
                == folders),
    ensures
        ({
            let (phase, loaded) = game_after(AppState::Preload, Seq::new(folders, |i: int| false), run);
            &&& phase != AppState::Finished
            &&& phase != AppState::Preload ==> forall|i: int|
                0 <= i < folders ==> reported_loaded(run, i)
            &&& phase == AppState::InGame ==> setup_happened(run)
            &&& report_happened(run) && (forall|i: int| 0 <= i < folders ==> reported_loaded(run, i))
                ==> phase != AppState::Preload
        }),
{
    lemma_game_invariant(folders, run);
}

proof fn lemma_game_invariant(folders: nat, run: Seq<Happening>)
    requires
        forall|k: int|
            0 <= k < run.len() ==> (#[trigger] run[k] matches Happening::SpriteReport(m) ==> m.len()
                == folders),
    ensures
        ({
            let (phase, loaded) = game_after(AppState::Preload, Seq::new(folders, |i: int| false), run);
            &&& loaded.len() == folders
            &&& forall|i: int| 0 <= i < folders && loaded[i] ==> reported_loaded(run, i)
            &&& phase != AppState::Finished
            &&& phase != AppState::Preload ==> all_set(loaded)
            &&& phase == AppState::InGame ==> setup_happened(run)
            &&& phase == AppState::Preload ==> forall|i: int|
                0 <= i < folders ==> (loaded[i] <==> reported_loaded(run, i))
            &&& phase == AppState::Preload && report_happened(run) ==> !all_set(loaded)
        }),
    decreases run.len(),
{
    if run.len() > 0 {
        let init = run.drop_last();
        let k = run.len() - 1;
        assert forall|j: int|
            0 <= j < init.len() implies (#[trigger] init[j] matches Happening::SpriteReport(m)
            ==> m.len() == folders) by {
            assert(init[j] == run[j]);
        }
        lemma_game_invariant(folders, init);
        let (p, l) = game_after(AppState::Preload, Seq::new(folders, |i: int| false), init);
        let (phase, loaded) = game_after(AppState::Preload, Seq::new(folders, |i: int| false), run);
        assert forall|i: int| 0 <= i < folders && loaded[i] implies reported_loaded(run, i) by {
            if l[i] {
                let j = choose|j: int|
                    0 <= j < init.len() && (#[trigger] init[j] matches Happening::SpriteReport(m)
                        && m[i]);
                assert(run[j] == init[j]);
            } else {
                assert(run[k] == run.last());
            }
        }
        if setup_happened(init) {
            let j = choose|j: int| 0 <= j < init.len() && #[trigger] init[j] matches Happening::SetupDone;
            assert(run[j] == init[j]);
        }
        if phase == AppState::InGame && p != AppState::InGame {
            assert(run[k] == run.last());
        }
        lemma_reports_extend(init, run.last());
        assert(init.push(run.last()) =~= run);
        if p == AppState::Preload {
            match run.last() {
                Happening::SpriteReport(m) => {
                    assert(m.len() == folders) by {
                        assert(run[k] == run.last());
                    }
                    if phase == AppState::Preload {
                        assert forall|i: int| 0 <= i < folders implies (loaded[i]
                            <==> reported_loaded(run, i)) by {
                            assert(loaded[i] == (l[i] || m[i]));
                        }
                    }
                },
                Happening::SetupDone => {
                    assert forall|i: int| 0 <= i < folders implies (loaded[i]
                        <==> reported_loaded(run, i)) by {
                        assert(loaded[i] == l[i]);
                    }
                },
            }
        }
    }
}

proof fn lemma_reports_extend(init: Seq<Happening>, last: Happening)
    ensures
        forall|i: int|
            reported_loaded(init.push(last), i) <==> (reported_loaded(init, i) || (
            last matches Happening::SpriteReport(m) && m[i])),
        report_happened(init.push(last)) <==> (report_happened(init)
            || last is SpriteReport),
        setup_happened(init.push(last)) <==> (setup_happened(init) || last is SetupDone),
{
    let run = init.push(last);
    let k = init.len() as int;
    assert(run[k] == last);
    assert forall|i: int|
        reported_loaded(run, i) <==> (reported_loaded(init, i) || (last matches Happening::SpriteReport(
            m,
        ) && m[i])) by {
        if reported_loaded(init, i) {
            let j = choose|j: int|
                0 <= j < init.len() && (#[trigger] init[j] matches Happening::SpriteReport(m) && m[i]);
            assert(run[j] == init[j]);
        }
        if reported_loaded(run, i) {
            let j = choose|j: int|
                0 <= j < run.len() && (#[trigger] run[j] matches Happening::SpriteReport(m) && m[i]);
            if j < k {
                assert(init[j] == run[j]);
            }
        }
    }
    if report_happened(init) {
        let j = choose|j: int| 0 <= j < init.len() && #[trigger] init[j] matches Happening::SpriteReport(_);
        assert(run[j] == init[j]);
    }
    if report_happened(run) {
        let j = choose|j: int| 0 <= j < run.len() && #[trigger] run[j] matches Happening::SpriteReport(_);
        if j < k {
            assert(init[j] == run[j]);
        }
    }
    if setup_happened(init) {
        let j = choose|j: int| 0 <= j < init.len() && #[trigger] init[j] matches Happening::SetupDone;
        assert(run[j] == init[j]);
    }
    if setup_happened(run) {
        let j = choose|j: int| 0 <= j < run.len() && #[trigger] run[j] matches Happening::SetupDone;
        if j < k {
            assert(init[j] == run[j]);
        }
    }
}

} // verus!
