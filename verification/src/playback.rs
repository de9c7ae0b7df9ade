//! The playback loop as a state machine: what a session shows and sounds at
//! each moment, and where a key press or a passing second takes it.

use vstd::prelude::*;
use vstd::string::StringExecFns;
use crate::locked_u_int::LockedUInt;
use crate::paths::{join, joined, sounds_path, CONFIG_DIR, SOUNDS_DIR};
use crate::screen::{Screen, ScreenModel, ScreenType};
use crate::timer::{
    clock_text, countdown, countdown_text, remaining, spec_overtime, spec_remaining, Timer,
};
use crate::util::{
    bold, bold_text, clear_screen, clear_screen_text, just_left, left_text, plain, plain_text,
};
use crate::workout::{lemma_total_seconds_monotonic, lemma_total_seconds_step, total_seconds};

verus! {

/// The seconds left on a screen at which the forewarning sounds.
pub const FOREWARNING_SECONDS: u64 = 7;

pub const TOTAL_ELAPSED: &'static str = "Total Elapsed: ";

pub const TOTAL_REMAINING: &'static str = "Total Remaining: ";

pub const CURRENT_ELAPSED: &'static str = "Current Elapsed: ";

pub const CURRENT_REMAINING: &'static str = "Current Remaining: ";

/// A key press, as far as the session tells keys apart.
#[derive(Copy, Clone, Debug, PartialEq, Eq, Structural)]
pub enum Key {
    Char(char),
    Up,
    Down,
    Left,
    Right,
    Home,
    End,
    Other,
}

/// One of the three sounds of a session.
#[derive(Copy, Clone, Debug, PartialEq, Eq, Structural)]
pub enum Cue {
    /// The forewarning that a screen is about to end.
    Tick,
    /// The start of an exercise.
    Bell,
    /// The start of a rest or of the cooldown.
    Whistle,
}

/// Where a session stands: the screen that is shown, and the seconds that it
/// has been shown for.
#[derive(Copy, Clone, Debug)]
pub struct PlayState {
    pub cursor: LockedUInt,
    pub elapsed: u64,
}

/// What the loop does after it has drawn a frame and looked for a key.
#[derive(Copy, Clone, Debug)]
pub enum Step {
    /// The session is over: nothing more is drawn.
    Quit,
    /// The user moved to another screen: clear the terminal and draw the
    /// given state at once.
    Redraw(PlayState),
    /// Nothing moved the session: wait for one second, then draw the given
    /// state.
    Sleep(PlayState),
}

/// What is shown and sounded for one state.
#[derive(Debug)]
pub struct Frame {
    /// The sounds to start, in order.
    pub cues: Vec<Cue>,
    /// The text to write to the terminal.
    pub text: String,
}

/// A session that is ready to be played: its screens, and the time at which
/// each of them starts.
pub struct Playback {
    screens: Vec<Screen>,
    starts: Vec<u64>,
    total: u64,
}

/// The screen at index `i`; beyond the end it is the cooldown.
pub open spec fn screen_at(screens: Seq<ScreenModel>, i: int) -> ScreenModel {
    if 0 <= i < screens.len() {
        screens[i]
    } else {
        ScreenModel::cooldown()
    }
}

/// The seconds that the screens before index `i` are timed for.
pub open spec fn seconds_before(screens: Seq<ScreenModel>, i: int) -> nat {
    if 0 <= i < screens.len() {
        total_seconds(screens.take(i))
    } else {
        total_seconds(screens)
    }
}

/// One more second, if the count can hold it.
pub open spec fn one_more(elapsed: u64) -> u64 {
    if elapsed < u64::MAX {
        (elapsed + 1) as u64
    } else {
        elapsed
    }
}

/// The seconds of the session that have gone by: those of the screens before
/// the current one and those spent on it, as far as the count can hold them.
pub open spec fn session_elapsed(screens: Seq<ScreenModel>, s: PlayState) -> u64 {
    if seconds_before(screens, s.cursor.value as int) + s.elapsed <= u64::MAX {
        (seconds_before(screens, s.cursor.value as int) + s.elapsed) as u64
    } else {
        u64::MAX
    }
}

/// The sounds that start on one second of a screen: the forewarning when
/// seven seconds are left on a screen that is not the last, and, on the
/// screen's first second, the whistle for a rest or the cooldown and the bell
/// for an exercise.
pub open spec fn spec_cues(kind: ScreenType, remaining: u64, elapsed: u64, last: bool) -> Seq<Cue> {
    (if remaining == FOREWARNING_SECONDS && !last {
        seq![Cue::Tick]
    } else {
        Seq::<Cue>::empty()
    }) + (if elapsed == 0 {
        match kind {
            ScreenType::Cooldown(_) => seq![Cue::Whistle],
            ScreenType::Rest(_) => seq![Cue::Whistle],
            ScreenType::Exercise(_, _) => seq![Cue::Bell],
            ScreenType::WarmUp(_) => Seq::<Cue>::empty(),
        }
    } else {
        Seq::<Cue>::empty()
    })
}

/// The sounds that start when a state is drawn.
pub open spec fn frame_cues(screens: Seq<ScreenModel>, s: PlayState) -> Seq<Cue> {
    let kind = screen_at(screens, s.cursor.value as int).screen_type;
    spec_cues(
        kind,
        spec_remaining(s.elapsed, kind.seconds()),
        s.elapsed,
        !(s.cursor.value < s.cursor.max),
    )
}

/// The text that is written when a state is drawn: on a cleared terminal the
/// two clocks of the session and the two of the screen, the heading of the
/// screen in bold, and the screen.
pub open spec fn frame_text(screens: Seq<ScreenModel>, s: PlayState) -> Seq<char> {
    let screen = screen_at(screens, s.cursor.value as int);
    let gone = session_elapsed(screens, s);
    clear_screen_text() + left_text() + TOTAL_ELAPSED@ + clock_text(gone as nat) + "\n"@
        + left_text() + TOTAL_REMAINING@ + countdown_text(gone, total_seconds(screens) as u64)
        + "\n"@ + left_text() + CURRENT_ELAPSED@ + clock_text(s.elapsed as nat) + "\n"@
        + left_text() + CURRENT_REMAINING@ + countdown_text(s.elapsed, screen.screen_type.seconds())
        + "\n"@ + bold_text() + screen.screen_type.heading_text() + plain_text() + "\n"@
        + screen.text()
}

/// The state after one second without a key: the second is counted, and
/// when the screen's time is up and it is not the last screen, the next
/// screen starts.
pub open spec fn ticked(screens: Seq<ScreenModel>, s: PlayState) -> PlayState {
    let elapsed = one_more(s.elapsed);
    if elapsed >= screen_at(screens, s.cursor.value as int).screen_type.seconds() && s.cursor.value
        < s.cursor.max {
        PlayState { cursor: s.cursor.advanced(1), elapsed: 0 }
    } else {
        PlayState { cursor: s.cursor, elapsed }
    }
}

/// The state after `n` seconds without a key.
pub open spec fn ticks(screens: Seq<ScreenModel>, s: PlayState, n: nat) -> PlayState
    decreases n,
{
    if n == 0 {
        s
    } else {
        ticked(screens, ticks(screens, s, (n - 1) as nat))
    }
}

/// What follows a frame, given the key that was waiting, if one was: `q`
/// ends the session; a key that moves to another screen starts that screen
/// at once; anything else lets a second pass.
pub open spec fn stepped(screens: Seq<ScreenModel>, s: PlayState, key: Option<Key>) -> Step {
    match key {
        Some(Key::Char(c)) => if c == 'q' {
            Step::Quit
        } else {
            Step::Sleep(ticked(screens, s))
        },
        Some(Key::Up) | Some(Key::Left) => Step::Redraw(
            PlayState { cursor: s.cursor.retreated(1), elapsed: 0 },
        ),
        Some(Key::Home) => Step::Redraw(
            PlayState { cursor: LockedUInt { value: 0, max: s.cursor.max }, elapsed: 0 },
        ),
        Some(Key::Down) | Some(Key::Right) => if s.cursor.value < s.cursor.max {
            Step::Redraw(PlayState { cursor: s.cursor.advanced(1), elapsed: 0 })
        } else {
            Step::Sleep(ticked(screens, s))
        },
        Some(Key::End) => Step::Redraw(
            PlayState { cursor: LockedUInt { value: s.cursor.max, max: s.cursor.max }, elapsed: 0 },
        ),
        Some(Key::Other) | None => Step::Sleep(ticked(screens, s)),
    }
}

impl PlayState {
    /// A state that a session can be in: the cursor is on one of the
    /// screens, its bound is the last of them, and a screen that is not the
    /// last has not been shown for longer than it is timed for.
    pub open spec fn valid(self, screens: Seq<ScreenModel>) -> bool {
        &&& screens.len() >= 1
        &&& self.cursor.max == screens.len() - 1
        &&& self.cursor.value <= self.cursor.max
        &&& self.cursor.value < self.cursor.max ==> self.elapsed <= screens[self.cursor.value as int].screen_type.seconds()
    }
}

impl Step {
    /// The state that the loop goes on with, where it goes on.
    pub open spec fn next(self) -> Option<PlayState> {
        match self {
            Step::Quit => None,
            Step::Redraw(s) => Some(s),
            Step::Sleep(s) => Some(s),
        }
    }
}

/// `q` ends the session from any state: there is no state to go on with, and
/// so nothing more to draw.
pub proof fn lemma_quit_ends(screens: Seq<ScreenModel>, s: PlayState)
    ensures
        stepped(screens, s, Some(Key::Char('q'))) == Step::Quit,
        stepped(screens, s, Some(Key::Char('q'))).next() is None,
{
}

/// On the last screen the keys that move forward do what no key does: the
/// second passes and the cursor stays on the last screen.
pub proof fn lemma_forward_at_end(screens: Seq<ScreenModel>, s: PlayState)
    requires
        s.cursor.value == s.cursor.max,
    ensures
        stepped(screens, s, Some(Key::Down)) == stepped(screens, s, None),
        stepped(screens, s, Some(Key::Right)) == stepped(screens, s, None),
        stepped(screens, s, Some(Key::Down)) == Step::Sleep(
            PlayState { cursor: s.cursor, elapsed: one_more(s.elapsed) },
        ),
{
}

/// Whatever the key, a session that goes on from a valid state goes on in a
/// valid state: the cursor stays on one of the screens.
pub proof fn lemma_step_keeps_valid(screens: Seq<ScreenModel>, s: PlayState, key: Option<Key>)
    requires
        s.valid(screens),
    ensures
        stepped(screens, s, key).next() matches Some(n) ==> n.valid(screens) && n.cursor.max
            == s.cursor.max,
{
}

/// While a screen that is not the last has time left, each second without a
/// key is counted on that screen.
pub proof fn lemma_dwell(screens: Seq<ScreenModel>, s: PlayState, n: nat)
    requires
        s.cursor.value < s.cursor.max,
        s.elapsed == 0,
        n < screen_at(screens, s.cursor.value as int).screen_type.seconds(),
    ensures
        ticks(screens, s, n) == (PlayState { cursor: s.cursor, elapsed: n as u64 }),
    decreases n,
{
    if n > 0 {
        lemma_dwell(screens, s, (n - 1) as nat);
    }
}

/// A screen that is not the last and is timed for `d` seconds, with `d` at
/// least one, gives way to the next after exactly `d` seconds without a key:
/// the cursor is then one further and the count of seconds is back at zero.
pub proof fn lemma_auto_advance(screens: Seq<ScreenModel>, s: PlayState)
    requires
        s.cursor.value < s.cursor.max,
        s.elapsed == 0,
        screen_at(screens, s.cursor.value as int).screen_type.seconds() >= 1,
    ensures
        ticks(
            screens,
            s,
            screen_at(screens, s.cursor.value as int).screen_type.seconds() as nat,
        ) == (PlayState {
            cursor: LockedUInt { value: (s.cursor.value + 1) as usize, max: s.cursor.max },
            elapsed: 0,
        }),
{
    let d = screen_at(screens, s.cursor.value as int).screen_type.seconds() as nat;
    lemma_dwell(screens, s, (d - 1) as nat);
}

/// On a screen that is not the last, the forewarning sounds on the second
/// on which seven seconds are left, and on no other: once where the screen is
/// timed for seven seconds or more, and never where it is timed for fewer.
pub proof fn lemma_forewarning_once(screens: Seq<ScreenModel>, s: PlayState, n: nat)
    requires
        s.cursor.value < s.cursor.max,
        s.elapsed == 0,
        n < screen_at(screens, s.cursor.value as int).screen_type.seconds(),
    ensures
        frame_cues(screens, ticks(screens, s, n)).contains(Cue::Tick) <==> n + 7 == screen_at(
            screens,
            s.cursor.value as int,
        ).screen_type.seconds(),
{
    lemma_dwell(screens, s, n);
    let state = ticks(screens, s, n);
    let kind = screen_at(screens, s.cursor.value as int).screen_type;
    let left = spec_remaining(state.elapsed, kind.seconds());
    let first = if left == FOREWARNING_SECONDS {
        seq![Cue::Tick]
    } else {
        Seq::<Cue>::empty()
    };
    let second = frame_cues(screens, state).skip(first.len() as int);
    assert(frame_cues(screens, state) =~= first + second);
    if left == FOREWARNING_SECONDS {
        assert(frame_cues(screens, state)[0] == Cue::Tick);
    } else {
        assert forall|i: int| 0 <= i < frame_cues(screens, state).len() implies frame_cues(
            screens,
            state,
        )[i] != Cue::Tick by {}
    }
}

/// In a valid state, and as long as the seconds of the session can be
/// counted, the clock of the session runs out exactly when the clock of the
/// screen does, which can only be on the last screen.
pub proof fn lemma_clocks_agree(screens: Seq<ScreenModel>, s: PlayState)
    requires
        s.valid(screens),
        total_seconds(screens) <= u64::MAX,
        seconds_before(screens, s.cursor.value as int) + s.elapsed <= u64::MAX,
    ensures
        spec_overtime(session_elapsed(screens, s), total_seconds(screens) as u64) == spec_overtime(
            s.elapsed,
            screen_at(screens, s.cursor.value as int).screen_type.seconds(),
        ),
        spec_overtime(session_elapsed(screens, s), total_seconds(screens) as u64) ==> s.cursor.value
            == s.cursor.max,
{
    let i = s.cursor.value as int;
    lemma_total_seconds_step(screens, i);
    lemma_total_seconds_monotonic(screens, i + 1);
    if i == screens.len() - 1 {
        assert(screens.take(i + 1) =~= screens);
    }
}

impl Cue {
    /// The name that the sound is registered and played under.
    pub open spec fn name_text(self) -> Seq<char> {
        match self {
            Cue::Tick => "tick"@,
            Cue::Bell => "bell"@,
            Cue::Whistle => "whistle"@,
        }
    }

    /// The name of the file that holds the sound.
    pub open spec fn file_name_text(self) -> Seq<char> {
        match self {
            Cue::Tick => "tick.wav"@,
            Cue::Bell => "bell.wav"@,
            Cue::Whistle => "whistle.wav"@,
        }
    }

    /// The name that the sound is registered and played under.
    pub fn name(&self) -> (s: &'static str)
        ensures
            s@ == self.name_text(),
    {
        match self {
            Cue::Tick => "tick",
            Cue::Bell => "bell",
            Cue::Whistle => "whistle",
        }
    }

    /// The name of the file that holds the sound.
    pub fn file_name(&self) -> (s: &'static str)
        ensures
            s@ == self.file_name_text(),
    {
        match self {
            Cue::Tick => "tick.wav",
            Cue::Bell => "bell.wav",
            Cue::Whistle => "whistle.wav",
        }
    }

    /// The path of the file that holds the sound, given the user's
    /// configuration directory.
    pub fn path(&self, config_home: &str) -> (r: String)
        ensures
            r@ == joined(
                joined(joined(config_home@, CONFIG_DIR@), SOUNDS_DIR@),
                self.file_name_text(),
            ),
    {
        join(sounds_path(config_home).as_str(), self.file_name())
    }
}

/// The sounds that start on one second of a screen, in the order in which
/// they are started.
pub fn cues(kind: &ScreenType, remaining: u64, elapsed: u64, last: bool) -> (r: Vec<Cue>)
    ensures
        r@ == spec_cues(*kind, remaining, elapsed, last),
{
    let mut r: Vec<Cue> = Vec::new();
    if remaining == FOREWARNING_SECONDS && !last {
        r.push(Cue::Tick);
    }
    if elapsed == 0 {
        match kind {
            ScreenType::Cooldown(_) => {
                r.push(Cue::Whistle);
            },
            ScreenType::Rest(_) => {
                r.push(Cue::Whistle);
            },
            ScreenType::Exercise(_, _) => {
                r.push(Cue::Bell);
            },
            ScreenType::WarmUp(_) => {},
        }
    }
    assert(r@ =~= spec_cues(*kind, remaining, elapsed, last));
    r
}

impl View for Playback {
    type V = Seq<ScreenModel>;

    closed spec fn view(&self) -> Seq<ScreenModel> {
        self.screens.deep_view()
    }
}

impl Playback {
    /// What holds of every session: it has a screen, the start of each
    /// screen is the time of those before it, and the total is the time of
    /// them all.
    #[verifier::type_invariant]
    pub closed spec fn wf(self) -> bool {
        &&& self.screens@.len() >= 1
        &&& self.starts@.len() == self.screens@.len()
        &&& forall|i: int|
            0 <= i < self.starts@.len() ==> #[trigger] self.starts@[i] == total_seconds(
                self.screens.deep_view().take(i),
            )
        &&& self.total == total_seconds(self.screens.deep_view())
    }

    /// Prepares a session of the given screens. There is none where no
    /// screen is given, or where the seconds of all the screens together are
    /// too many to count.
    pub fn new(screens: Vec<Screen>) -> (r: Option<Playback>)
        ensures
            r is Some <==> screens@.len() >= 1 && total_seconds(screens.deep_view()) <= u64::MAX,
            r matches Some(p) ==> p@ == screens.deep_view() && p.wf(),
    {
        if screens.len() == 0 {
            return None;
        }
        let ghost all = screens.deep_view();
        let mut starts: Vec<u64> = Vec::new();
        let mut sum: u64 = 0;
        let mut i: usize = 0;
        assert(all.take(0) =~= Seq::<ScreenModel>::empty());
        while i < screens.len()
            invariant
                i <= screens.len(),
                all == screens.deep_view(),
                starts@.len() == i,
                forall|j: int| 0 <= j < i ==> #[trigger] starts@[j] == total_seconds(all.take(j)),
                sum == total_seconds(all.take(i as int)),
            decreases screens.len() - i,
        {
            proof {
                lemma_total_seconds_step(all, i as int);
                lemma_total_seconds_monotonic(all, i + 1);
            }
            starts.push(sum);
            match sum.checked_add(screens[i].screen_type.duration()) {
                Some(next) => {
                    sum = next;
                },
                None => {
                    return None;
                },
            }
            i = i + 1;
        }
        assert(all.take(i as int) =~= all);
        Some(Playback { screens, starts, total: sum })
    }

    /// The number of screens.
    pub fn len(&self) -> (n: usize)
        ensures
            n == self@.len(),
            n >= 1,
    {
        proof {
            use_type_invariant(self);
        }
        self.screens.len()
    }

    /// The seconds that the whole session is timed for.
    pub fn total(&self) -> (t: u64)
        ensures
            t == total_seconds(self@),
    {
        proof {
            use_type_invariant(self);
        }
        self.total
    }

    /// The state in which a session begins: the first screen, just started.
    pub fn start(&self) -> (s: PlayState)
        ensures
            s.cursor.value == 0,
            s.cursor.max == self@.len() - 1,
            s.elapsed == 0,
            s.valid(self@),
    {
        proof {
            use_type_invariant(self);
        }
        PlayState { cursor: LockedUInt::new(self.screens.len() - 1), elapsed: 0 }
    }

    /// The kind of the screen at index `i`; beyond the end it is the
    /// cooldown.
    pub fn kind_at(&self, i: usize) -> (kind: ScreenType)
        ensures
            kind == screen_at(self@, i as int).screen_type,
    {
        if i < self.screens.len() {
            self.screens[i].screen_type
        } else {
            ScreenType::cooldown()
        }
    }

    /// The seconds of the session that have gone by in a state.
    pub fn elapsed(&self, state: &PlayState) -> (gone: u64)
        ensures
            gone == session_elapsed(self@, *state),
    {
        proof {
            use_type_invariant(self);
        }
        let before = if state.cursor.value < self.starts.len() {
            self.starts[state.cursor.value]
        } else {
            self.total
        };
        match before.checked_add(state.elapsed) {
            Some(gone) => gone,
            None => u64::MAX,
        }
    }

    /// The sounds that start when a state is drawn.
    pub fn cues(&self, state: &PlayState) -> (r: Vec<Cue>)
        ensures
            r@ == frame_cues(self@, *state),
    {
        let kind = self.kind_at(state.cursor.value);
        let (left, _) = remaining(state.elapsed, kind.duration());
        cues(&kind, left, state.elapsed, !(state.cursor.value < state.cursor.max))
    }

    /// The text that is written when a state is drawn.
    pub fn render(&self, state: &PlayState) -> (s: String)
        ensures
            s@ == frame_text(self@, *state),
    {
        proof {
            use_type_invariant(self);
        }
        let kind = self.kind_at(state.cursor.value);
        let body = if state.cursor.value < self.screens.len() {
            self.screens[state.cursor.value].to_string()
        } else {
            Screen::cooldown().to_string()
        };
        let gone = self.elapsed(state);
        let left = just_left();
        let mut s = clear_screen();
        s.append(left.as_str());
        s.append(TOTAL_ELAPSED);
        s.append(gone.as_time().as_str());
        s.append("\n");
        s.append(left.as_str());
        s.append(TOTAL_REMAINING);
        s.append(countdown(gone, self.total).as_str());
        s.append("\n");
        s.append(left.as_str());
        s.append(CURRENT_ELAPSED);
        s.append(state.elapsed.as_time().as_str());
        s.append("\n");
        s.append(left.as_str());
        s.append(CURRENT_REMAINING);
        s.append(countdown(state.elapsed, kind.duration()).as_str());
        s.append("\n");
        s.append(bold().as_str());
        s.append(kind.heading().as_str());
        s.append(plain().as_str());
        s.append("\n");
        s.append(body.as_str());
        s
    }

    /// What is shown and sounded for a state.
    pub fn frame(&self, state: &PlayState) -> (f: Frame)
        ensures
            f.cues@ == frame_cues(self@, *state),
            f.text@ == frame_text(self@, *state),
    {
        Frame { cues: self.cues(state), text: self.render(state) }
    }

    /// The state after one second without a key.
    pub fn tick(&self, state: PlayState) -> (r: PlayState)
        ensures
            r == ticked(self@, state),
    {
        let elapsed = if state.elapsed < u64::MAX {
            state.elapsed + 1
        } else {
            state.elapsed
        };
        let mut cursor = state.cursor;
        if elapsed >= self.kind_at(cursor.value).duration() && cursor.value < cursor.max {
            cursor.advance(1);
            PlayState { cursor, elapsed: 0 }
        } else {
            PlayState { cursor, elapsed }
        }
    }

    /// What follows a frame, given the key that was waiting, if one was.
    pub fn step(&self, state: PlayState, key: Option<Key>) -> (r: Step)
        ensures
            r == stepped(self@, state, key),
            key == Some(Key::Char('q')) ==> r is Quit,
    {
        let mut cursor = state.cursor;
        match key {
            Some(Key::Char(c)) => {
                if c == 'q' {
                    Step::Quit
                } else {
                    Step::Sleep(self.tick(state))
                }
            },
            Some(Key::Up) | Some(Key::Left) => {
                cursor.retreat(1);
                Step::Redraw(PlayState { cursor, elapsed: 0 })
            },
            Some(Key::Home) => {
                cursor.value = 0;
                Step::Redraw(PlayState { cursor, elapsed: 0 })
            },
            Some(Key::Down) | Some(Key::Right) => {
                if cursor.value < cursor.max {
                    cursor.advance(1);
                    Step::Redraw(PlayState { cursor, elapsed: 0 })
                } else {
                    Step::Sleep(self.tick(state))
                }
            },
            Some(Key::End) => {
                cursor.value = cursor.max;
                Step::Redraw(PlayState { cursor, elapsed: 0 })
            },
            Some(Key::Other) | None => Step::Sleep(self.tick(state)),
        }
    }
}

} // verus!
