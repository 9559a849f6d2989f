//! The dashboard's state: what a tick changes, and what a key does in each
//! of the two input modes.

use crate::generator::draw_between;
use crate::generator::entropy_rng;
use crate::generator::seeded_rng;
use crate::generator::CorruptedSinSignal;
use crate::generator::RandomSignal;
use crate::generator::RangeSettings;
use crate::generator::SampleSource;
use crate::generator::WaveSettings;
use crate::selection::cursor_next;
use crate::selection::cursor_previous;
use crate::selection::ring_next;
use crate::selection::ring_previous;
use crate::selection::StatefulList;
use crate::selection::TabsState;
use crate::window::axis_after;
use crate::window::ticked;
use crate::window::Signal;
use crate::window::Signals;
use rand::rngs::StdRng;
use vstd::prelude::*;

verus! {

/// Progress counts thousandths and starts over after this many.
pub const PROGRESS_FULL: u64 = 1000;

/// Power is held in thousandths of a percent, up to this many.
pub const POWER_FULL: u64 = 100_000;

/// A step of the power's random walk is drawn from `[0, POWER_SPAN)` and
/// lowered by `POWER_SHIFT`.
pub const POWER_SPAN: u64 = 50_000;

/// What a number drawn for the power's walk is lowered by, so that the power
/// falls as often as it rises.
pub const POWER_SHIFT: u64 = 25_000;

/// The log feed turns on every tick whose progress this divides.
pub const LOG_PERIOD: u64 = 5;

/// The packet feed turns on every tick whose progress this divides.
pub const PACKET_PERIOD: u64 = 3;

/// The power walks on every tick whose progress this divides.
pub const POWER_PERIOD: u64 = 10;

/// `String::push`: the character is appended.
pub assume_specification[ String::push ](text: &mut String, ch: char)
    ensures
        final(text)@ == old(text)@.push(ch),
;

/// `String::pop`: the last character leaves and is returned; an empty string
/// stays empty and returns nothing.
pub assume_specification[ String::pop ](text: &mut String) -> (last: Option<char>)
    ensures
        old(text)@.len() > 0 ==> last == Some(old(text)@.last()) && final(text)@ == old(
            text,
        )@.drop_last(),
        old(text)@.len() == 0 ==> last is None && final(text)@ == old(text)@,
;

/// `String::clear`: the string is empty afterwards.
pub assume_specification[ String::clear ](text: &mut String)
    ensures
        final(text)@ == Seq::<char>::empty(),
;

/// A key of the keyboard, as far as the dashboard tells keys apart.
#[derive(Clone, Copy, Debug, PartialEq, Eq)]
pub enum Key {
    Char(char),
    Enter,
    Backspace,
    Delete,
    Esc,
    Up,
    Down,
    Left,
    Right,
    Other,
}

/// A launcher of the catalog.
#[derive(Clone, Copy, Debug)]
pub struct Launcher<'a> {
    pub name: &'a str,
    pub location: &'a str,
    /// Latitude and longitude, in ten-millionths of a degree.
    pub coords: (i64, i64),
    pub status: &'a str,
}

/// The part of the state that keys act on, apart from the two cursors.
pub struct InputState {
    /// Whether keys are taken as characters of the code.
    pub typing: bool,
    /// The code typed so far.
    pub code: Seq<char>,
    pub launched: bool,
    pub quit: bool,
}

/// What one key does. While the code is typed: Enter launches and leaves the
/// mode if the code is the required one, and otherwise does nothing;
/// Backspace and Delete take the last character away; Esc clears the code and
/// leaves the mode; a character is appended. Otherwise `q` asks to quit and
/// `t` enters the mode, keeping the code. Every other key leaves the state as
/// it is.
pub open spec fn input_after(state: InputState, required: Seq<char>, key: Key) -> InputState {
    if state.typing {
        match key {
            Key::Enter => if state.code == required {
                InputState { typing: false, launched: true, ..state }
            } else {
                state
            },
            Key::Backspace | Key::Delete => if state.code.len() > 0 {
                InputState { code: state.code.drop_last(), ..state }
            } else {
                state
            },
            Key::Esc => InputState { typing: false, code: Seq::empty(), ..state },
            Key::Char(c) => InputState { code: state.code.push(c), ..state },
            _ => state,
        }
    } else {
        match key {
            Key::Char(c) => if c == 'q' {
                InputState { quit: true, ..state }
            } else if c == 't' {
                InputState { typing: true, ..state }
            } else {
                state
            },
            _ => state,
        }
    }
}

/// The state after the keys of `keys`, pressed first to last.
pub open spec fn input_after_keys(state: InputState, required: Seq<char>, keys: Seq<Key>)
    -> InputState
    decreases keys.len(),
{
    if keys.len() == 0 {
        state
    } else {
        input_after(input_after_keys(state, required, keys.drop_last()), required, keys.last())
    }
}

/// Whether `keys` are the keys that type `text`, one character each.
pub open spec fn spells(keys: Seq<Key>, text: Seq<char>) -> bool {
    &&& keys.len() == text.len()
    &&& forall|i: int| 0 <= i < keys.len() ==> #[trigger] keys[i] == Key::Char(text[i])
}

/// Progress one tick later: one thousandth more, and 0 after the last.
pub open spec fn progress_after(progress: u64) -> u64 {
    if progress >= PROGRESS_FULL {
        0
    } else {
        (progress + 1) as u64
    }
}

/// A feed with its last entry moved to the front. An empty feed stays empty.
pub open spec fn rotated<T>(feed: Seq<T>) -> Seq<T> {
    if feed.len() == 0 {
        feed
    } else {
        seq![feed.last()] + feed.drop_last()
    }
}

/// Power after a step of the walk: `drawn - POWER_SHIFT` is added, and the
/// sum is kept between 0 and `POWER_FULL`.
pub open spec fn power_after(power: u64, drawn: u64) -> u64 {
    let sum = power + drawn - POWER_SHIFT;
    if sum < 0 {
        0
    } else if sum > POWER_FULL {
        POWER_FULL
    } else {
        sum as u64
    }
}

/// Moves the last entry of `feed` to its front.
pub fn rotate_last_to_front<T>(feed: &mut Vec<T>)
    ensures
        final(feed)@ == rotated(old(feed)@),
{
    match feed.pop() {
        Some(last) => {
            feed.insert(0, last);
            assert(feed@ =~= rotated(old(feed)@));
        },
        None => {},
    }
}

/// One step of the power's walk, for the number that was drawn.
pub fn walk_power(power: u64, drawn: u64) -> (walked: u64)
    ensures
        walked == power_after(power, drawn),
        walked <= POWER_FULL,
{
    if drawn >= POWER_SHIFT {
        let rise: u64 = drawn - POWER_SHIFT;
        if power >= POWER_FULL || rise > POWER_FULL - power {
            POWER_FULL
        } else {
            power + rise
        }
    } else {
        let fall: u64 = POWER_SHIFT - drawn;
        if power <= fall {
            0
        } else if power - fall > POWER_FULL {
            POWER_FULL
        } else {
            power - fall
        }
    }
}

/// The state of the dashboard.
pub struct App<'a> {
    pub title: &'a str,
    pub should_quit: bool,
    pub tabs: TabsState<'a>,
    /// Progress of the confirmation, in thousandths.
    pub progress: u64,
    pub sparkline: Signal<RandomSignal>,
    pub tasks: StatefulList<&'a str>,
    pub logs: StatefulList<(&'a str, &'a str)>,
    pub signals: Signals,
    pub packets: Vec<(&'a str, u64)>,
    pub launchers: Vec<Launcher<'a>>,
    /// Power, in thousandths of a percent.
    pub power: u64,
    pub code: String,
    pub correct_code: String,
    pub typing: bool,
    pub missile_launched: bool,
    /// Where the steps of the power's walk are drawn from.
    pub rng: StdRng,
}

impl<'a> App<'a> {
    /// Counters are in range, cursors point at items, and each window holds
    /// the newest samples of its source, in the order in which it gave them.
    pub open spec fn wf(&self) -> bool {
        &&& self.progress <= PROGRESS_FULL
        &&& self.power <= POWER_FULL
        &&& self.tabs.wf()
        &&& self.tasks.wf()
        &&& self.logs.wf()
        &&& self.sparkline.wf()
        &&& self.signals.sin1.wf()
        &&& self.signals.sin2.wf()
    }

    /// The part of the state that keys act on.
    pub open spec fn input_state(&self) -> InputState {
        InputState {
            typing: self.typing,
            code: self.code@,
            launched: self.missile_launched,
            quit: self.should_quit,
        }
    }

    /// Whether two states differ in nothing but what a key may change.
    pub open spec fn same_simulation(&self, other: &App<'a>) -> bool {
        &&& self.title == other.title
        &&& self.progress == other.progress
        &&& self.sparkline == other.sparkline
        &&& self.logs == other.logs
        &&& self.signals == other.signals
        &&& self.packets == other.packets
        &&& self.launchers == other.launchers
        &&& self.power == other.power
        &&& self.correct_code == other.correct_code
        &&& self.rng == other.rng
        &&& self.tabs.titles == other.tabs.titles
        &&& self.tasks.items == other.tasks.items
    }

    /// Puts a dashboard together from the catalogs and from sources that
    /// have handed out nothing yet.
    fn assemble(
        title: &'a str,
        correct_code: String,
        tasks: Vec<&'a str>,
        logs: Vec<(&'a str, &'a str)>,
        packets: Vec<(&'a str, u64)>,
        launchers: Vec<Launcher<'a>>,
        strength: RandomSignal,
        wave1: CorruptedSinSignal,
        wave2: CorruptedSinSignal,
        rng: StdRng,
    ) -> (app: App<'a>)
        requires
            strength.settings() == (RangeSettings { lower: 0, upper: 100 }),
            strength.emitted().len() == 0,
            wave1.settings() == (WaveSettings { interval: 200, period: 3000, scale: 16000 }),
            wave1.position() == 0,
            wave1.emitted().len() == 0,
            wave2.settings() == (WaveSettings { interval: 100, period: 2000, scale: 8000 }),
            wave2.position() == 0,
            wave2.emitted().len() == 0,
        ensures
            app.starts_with(title, correct_code, tasks, logs, packets, launchers),
    {
        let titles: Vec<&'a str> = vec!["System Monitor", "Launch Missile"];
        App {
            title,
            should_quit: false,
            tabs: TabsState::new(titles),
            progress: 0,
            sparkline: Signal::new(strength, 300, 1),
            tasks: StatefulList::with_items(tasks),
            logs: StatefulList::with_items(logs),
            signals: Signals {
                sin1: Signal::new(wave1, 100, 5),
                sin2: Signal::new(wave2, 200, 10),
                window: [0, 20],
            },
            packets,
            launchers,
            power: 50_000,
            code: String::new(),
            correct_code,
            typing: false,
            missile_launched: false,
            rng,
        }
    }

    /// What a dashboard is when it is made: the first of two tabs shown,
    /// nothing selected, no progress, power at half, an empty code, neither
    /// launched nor about to quit, and three windows filled with the first
    /// samples of their sources, the waves starting at position 0.
    pub open spec fn starts_with(
        &self,
        title: &'a str,
        correct_code: String,
        tasks: Vec<&'a str>,
        logs: Vec<(&'a str, &'a str)>,
        packets: Vec<(&'a str, u64)>,
        launchers: Vec<Launcher<'a>>,
    ) -> bool {
        &&& self.wf()
        &&& self.title == title
        &&& self.correct_code == correct_code
        &&& self.tasks.items == tasks
        &&& self.tasks.selected is None
        &&& self.logs.items == logs
        &&& self.logs.selected is None
        &&& self.packets == packets
        &&& self.launchers == launchers
        &&& self.tabs.titles@ =~= seq!["System Monitor", "Launch Missile"]
        &&& self.tabs.index == 0
        &&& self.progress == 0
        &&& self.power == 50_000
        &&& self.code@ == Seq::<char>::empty()
        &&& !self.typing
        &&& !self.missile_launched
        &&& !self.should_quit
        &&& self.sparkline@.window.len() == 300
        &&& self.sparkline@.stream =~= self.sparkline@.window
        &&& self.sparkline@.rate == 1
        &&& self.sparkline.settings() == (RangeSettings { lower: 0, upper: 100 })
        &&& self.signals.sin1@.window.len() == 100
        &&& self.signals.sin1@.window[0].x == 0
        &&& self.signals.sin1@.stream =~= self.signals.sin1@.window
        &&& self.signals.sin1@.rate == 5
        &&& self.signals.sin1.settings() == (WaveSettings {
            interval: 200,
            period: 3000,
            scale: 16000,
        })
        &&& self.signals.sin2@.window.len() == 200
        &&& self.signals.sin2@.window[0].x == 0
        &&& self.signals.sin2@.stream =~= self.signals.sin2@.window
        &&& self.signals.sin2@.rate == 10
        &&& self.signals.sin2.settings() == (WaveSettings {
            interval: 100,
            period: 2000,
            scale: 8000,
        })
        &&& self.signals.window[0] == 0
        &&& self.signals.window[1] == 20
    }

    /// A dashboard over the given catalogs, with random sources seeded by the
    /// operating system.
    pub fn new(
        title: &'a str,
        correct_code: String,
        tasks: Vec<&'a str>,
        logs: Vec<(&'a str, &'a str)>,
        packets: Vec<(&'a str, u64)>,
        launchers: Vec<Launcher<'a>>,
    ) -> (app: App<'a>)
        ensures
            app.starts_with(title, correct_code, tasks, logs, packets, launchers),
    {
        App::assemble(
            title,
            correct_code,
            tasks,
            logs,
            packets,
            launchers,
            RandomSignal::new(0, 100),
            CorruptedSinSignal::new(200, 3000, 16000),
            CorruptedSinSignal::new(100, 2000, 8000),
            entropy_rng(),
        )
    }

    /// A dashboard over the given catalogs whose random sources give the same
    /// numbers for the same `seed`.
    pub fn with_seed(
        title: &'a str,
        correct_code: String,
        tasks: Vec<&'a str>,
        logs: Vec<(&'a str, &'a str)>,
        packets: Vec<(&'a str, u64)>,
        launchers: Vec<Launcher<'a>>,
        seed: u64,
    ) -> (app: App<'a>)
        ensures
            app.starts_with(title, correct_code, tasks, logs, packets, launchers),
    {
        App::assemble(
            title,
            correct_code,
            tasks,
            logs,
            packets,
            launchers,
            RandomSignal::with_seed(0, 100, seed),
            CorruptedSinSignal::with_seed(200, 3000, 16000, seed.wrapping_add(1)),
            CorruptedSinSignal::with_seed(100, 2000, 8000, seed.wrapping_add(2)),
            seeded_rng(seed.wrapping_add(3)),
        )
    }

    /// Selects the task above the selected one.
    pub fn on_up(&mut self)
        ensures
            final(self).tasks.selected == cursor_previous(
                old(self).tasks.selected,
                old(self).tasks.items.len(),
            ),
            final(self).tabs.index == old(self).tabs.index,
            final(self).input_state() == old(self).input_state(),
            final(self).same_simulation(old(self)),
            old(self).wf() ==> final(self).wf(),
    {
        self.tasks.previous();
    }

    /// Selects the task below the selected one.
    pub fn on_down(&mut self)
        ensures
            final(self).tasks.selected == cursor_next(
                old(self).tasks.selected,
                old(self).tasks.items.len(),
            ),
            final(self).tabs.index == old(self).tabs.index,
            final(self).input_state() == old(self).input_state(),
            final(self).same_simulation(old(self)),
            old(self).wf() ==> final(self).wf(),
    {
        self.tasks.next();
    }

    /// Shows the tab to the right.
    pub fn on_right(&mut self)
        ensures
            final(self).tabs.index == ring_next(old(self).tabs.index, old(self).tabs.titles.len()),
            final(self).tasks.selected == old(self).tasks.selected,
            final(self).input_state() == old(self).input_state(),
            final(self).same_simulation(old(self)),
            old(self).wf() ==> final(self).wf(),
    {
        self.tabs.next();
    }

    /// Shows the tab to the left.
    pub fn on_left(&mut self)
        ensures
            final(self).tabs.index == ring_previous(
                old(self).tabs.index,
                old(self).tabs.titles.len(),
            ),
            final(self).tasks.selected == old(self).tasks.selected,
            final(self).input_state() == old(self).input_state(),
            final(self).same_simulation(old(self)),
            old(self).wf() ==> final(self).wf(),
    {
        self.tabs.previous();
    }

    /// Takes one key. While the code is typed the key acts on the code alone;
    /// otherwise `q` and `t` act as `input_after` says, and the arrows move
    /// the task cursor (up, down) and the tab (left, right).
    pub fn on_key(&mut self, key: Key)
        ensures
            final(self).input_state() == input_after(
                old(self).input_state(),
                old(self).correct_code@,
                key,
            ),
            final(self).tasks.selected == tasks_after(
                old(self).typing,
                old(self).tasks.selected,
                old(self).tasks.items.len(),
                key,
            ),
            final(self).tabs.index == tab_after(
                old(self).typing,
                old(self).tabs.index,
                old(self).tabs.titles.len(),
                key,
            ),
            final(self).same_simulation(old(self)),
            old(self).wf() ==> final(self).wf(),
    {
        if self.typing {
            match key {
                Key::Enter => {
                    if self.code == self.correct_code {
                        self.missile_launched = true;
                        self.typing = false;
                    }
                },
                Key::Backspace | Key::Delete => {
                    self.code.pop();
                },
                Key::Esc => {
                    self.code.clear();
                    self.typing = false;
                },
                Key::Char(c) => {
                    self.code.push(c);
                },
                _ => {},
            }
        } else {
            match key {
                Key::Char(c) => {
                    if c == 'q' {
                        self.should_quit = true;
                    } else if c == 't' {
                        self.typing = true;
                    }
                },
                Key::Up => {
                    self.on_up();
                },
                Key::Down => {
                    self.on_down();
                },
                Key::Left => {
                    self.on_left();
                },
                Key::Right => {
                    self.on_right();
                },
                _ => {},
            }
        }
    }

    /// Moves the simulation on by one tick: progress advances, the three
    /// windows and the time axis move on, and the feeds and the power change
    /// on the ticks whose progress their periods divide. Keys' state and the
    /// cursors stay as they are.
    pub fn on_tick(&mut self)
        ensures
            final(self).progress == progress_after(old(self).progress),
            ticked(old(self).sparkline@, final(self).sparkline@),
            ticked(old(self).signals.sin1@, final(self).signals.sin1@),
            ticked(old(self).signals.sin2@, final(self).signals.sin2@),
            final(self).sparkline.settings() == old(self).sparkline.settings(),
            final(self).signals.sin1.settings() == old(self).signals.sin1.settings(),
            final(self).signals.sin2.settings() == old(self).signals.sin2.settings(),
            final(self).signals.window == axis_after(old(self).signals.window),
            final(self).logs.items@ == if final(self).progress % LOG_PERIOD == 0 {
                rotated(old(self).logs.items@)
            } else {
                old(self).logs.items@
            },
            final(self).logs.selected == old(self).logs.selected,
            final(self).packets@ == if final(self).progress % PACKET_PERIOD == 0 {
                rotated(old(self).packets@)
            } else {
                old(self).packets@
            },
            final(self).progress % POWER_PERIOD == 0 ==> exists|drawn: u64|
                drawn < POWER_SPAN && final(self).power == #[trigger] power_after(
                    old(self).power,
                    drawn,
                ),
            final(self).progress % POWER_PERIOD != 0 ==> final(self).power == old(self).power,
            final(self).title == old(self).title,
            final(self).tabs == old(self).tabs,
            final(self).tasks == old(self).tasks,
            final(self).launchers == old(self).launchers,
            final(self).correct_code == old(self).correct_code,
            final(self).input_state() == old(self).input_state(),
            old(self).wf() ==> final(self).wf(),
    {
        self.progress = if self.progress >= PROGRESS_FULL {
            0
        } else {
            self.progress + 1
        };

        self.sparkline.on_tick();
        self.signals.on_tick();

        if self.progress % LOG_PERIOD == 0 {
            rotate_last_to_front(&mut self.logs.items);
        }
        if self.progress % PACKET_PERIOD == 0 {
            rotate_last_to_front(&mut self.packets);
        }
        if self.progress % POWER_PERIOD == 0 {
            let drawn: u64 = draw_between(&mut self.rng, 0, POWER_SPAN);
            self.power = walk_power(self.power, drawn);
        }
    }
}

/// The task cursor after a key: up and down move it unless the code is typed.
pub open spec fn tasks_after(typing: bool, cursor: Option<usize>, len: usize, key: Key) -> Option<
    usize,
> {
    if typing {
        cursor
    } else {
        match key {
            Key::Up => cursor_previous(cursor, len),
            Key::Down => cursor_next(cursor, len),
            _ => cursor,
        }
    }
}

/// The tab after a key: left and right move it unless the code is typed.
pub open spec fn tab_after(typing: bool, index: usize, len: usize, key: Key) -> usize {
    if typing {
        index
    } else {
        match key {
            Key::Left => ring_previous(index, len),
            Key::Right => ring_next(index, len),
            _ => index,
        }
    }
}

/// The keys `t`, then `typing`, then Enter.
pub open spec fn launch_keys(typing: Seq<Key>) -> Seq<Key> {
    seq![Key::Char('t')] + typing + seq![Key::Enter]
}

/// Pressing the keys of `first` and then those of `second` is pressing the
/// keys of both in a row.
pub proof fn lemma_keys_in_a_row(
    state: InputState,
    required: Seq<char>,
    first: Seq<Key>,
    second: Seq<Key>,
)
    ensures
        input_after_keys(state, required, first + second) == input_after_keys(
            input_after_keys(state, required, first),
            required,
            second,
        ),
    decreases second.len(),
{
    if second.len() == 0 {
        assert(first + second =~= first);
    } else {
        lemma_keys_in_a_row(state, required, first, second.drop_last());
        assert((first + second).drop_last() =~= first + second.drop_last());
        assert((first + second).last() == second.last());
    }
}

/// While the code is typed, typing `text` appends it to the code and changes
/// nothing else.
pub proof fn lemma_typing_appends(
    state: InputState,
    required: Seq<char>,
    keys: Seq<Key>,
    text: Seq<char>,
)
    requires
        state.typing,
        spells(keys, text),
    ensures
        input_after_keys(state, required, keys) == (InputState {
            code: state.code + text,
            ..state
        }),
    decreases keys.len(),
{
    if keys.len() == 0 {
        assert(state.code + text =~= state.code);
    } else {
        assert(spells(keys.drop_last(), text.drop_last()));
        lemma_typing_appends(state, required, keys.drop_last(), text.drop_last());
        assert(keys.last() == Key::Char(text.last()));
        assert((state.code + text.drop_last()).push(text.last()) =~= state.code + text);
    }
}

/// The state after `t`, the keys that type `text` and Enter is the state
/// that Enter leaves when `text` has been added to the code.
proof fn lemma_before_enter(
    state: InputState,
    required: Seq<char>,
    keys: Seq<Key>,
    text: Seq<char>,
)
    requires
        !state.typing,
        spells(keys, text),
    ensures
        input_after_keys(state, required, launch_keys(keys)) == input_after(
            InputState { typing: true, code: state.code + text, ..state },
            required,
            Key::Enter,
        ),
{
    let start = seq![Key::Char('t')];
    let end = seq![Key::Enter];
    let entered = InputState { typing: true, ..state };
    assert(input_after_keys(state, required, start) == entered) by {
        assert(start.drop_last() =~= Seq::<Key>::empty());
        assert(start.last() == Key::Char('t'));
        reveal_with_fuel(input_after_keys, 2);
    }
    lemma_keys_in_a_row(state, required, start, keys);
    lemma_typing_appends(entered, required, keys, text);
    lemma_keys_in_a_row(state, required, start + keys, end);
    let typed_in = InputState { typing: true, code: state.code + text, ..state };
    assert(input_after_keys(typed_in, required, end) == input_after(typed_in, required, Key::Enter))
        by {
        assert(end.drop_last() =~= Seq::<Key>::empty());
        assert(end.last() == Key::Enter);
        reveal_with_fuel(input_after_keys, 2);
    }
}

/// Outside the code mode and with no code typed yet, `t`, the required code
/// and Enter launch and leave the code mode.
pub proof fn lemma_required_code_launches(state: InputState, required: Seq<char>, keys: Seq<Key>)
    requires
        !state.typing,
        state.code.len() == 0,
        spells(keys, required),
    ensures
        input_after_keys(state, required, launch_keys(keys)) == (InputState {
            typing: false,
            code: required,
            launched: true,
            quit: state.quit,
        }),
{
    lemma_before_enter(state, required, keys, required);
    assert(state.code + required =~= required);
}

/// Outside the code mode, not launched and with no code typed yet, `t`, a
/// code other than the required one and Enter do not launch: the code mode
/// stays, with the wrong code in it.
pub proof fn lemma_wrong_code_stays(
    state: InputState,
    required: Seq<char>,
    keys: Seq<Key>,
    wrong: Seq<char>,
)
    requires
        !state.typing,
        !state.launched,
        state.code.len() == 0,
        spells(keys, wrong),
        wrong != required,
    ensures
        input_after_keys(state, required, launch_keys(keys)) == (InputState {
            typing: true,
            code: wrong,
            launched: false,
            quit: state.quit,
        }),
{
    lemma_before_enter(state, required, keys, wrong);
    assert(state.code + wrong =~= wrong);
}

/// Esc leaves the code mode with the code cleared, whatever was typed.
pub proof fn lemma_escape_clears(state: InputState, required: Seq<char>)
    requires
        state.typing,
    ensures
        input_after(state, required, Key::Esc) == (InputState {
            typing: false,
            code: Seq::empty(),
            ..state
        }),
{
}

/// A key launches only by Enter on the required code in the code mode, and
/// enters the code mode only by `t` outside it.
pub proof fn lemma_only_enter_launches(state: InputState, required: Seq<char>, key: Key)
    ensures
        input_after(state, required, key).launched <==> state.launched || (state.typing && key
            == Key::Enter && state.code == required),
        input_after(state, required, key).typing && !state.typing ==> key == Key::Char('t'),
{
}

/// Once launched, no keys undo it.
pub proof fn lemma_launch_is_kept(state: InputState, required: Seq<char>, keys: Seq<Key>)
    requires
        state.launched,
    ensures
        input_after_keys(state, required, keys).launched,
    decreases keys.len(),
{
    if keys.len() > 0 {
        lemma_launch_is_kept(state, required, keys.drop_last());
    }
}

} // verus!
