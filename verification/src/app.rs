//! The application's decisions: which tab is shown, what a key does, what a
//! received event changes, and the log of the most recent raw sentences.
use vstd::prelude::*;

use circular_buffer::FixedCircularBuffer;

use crate::input::{KeyCode, KeyEvent, KeyEventKind};
use crate::nmea::{RawNmeaLog, SentenceKind};

verus! {

/// Maximum amount of NMEA sentences to store and render in the raw data tab.
pub const MAX_RAW_NMEA_LOGS: usize = 1000;

/// Tab of the interface.
#[derive(Debug, Clone, Copy, PartialEq, Eq, Structural)]
pub enum AppTab {
    Monitor,
    /// The world map tab (titled "Map").
    Worldmap,
    Raw,
}

impl Default for AppTab {
    fn default() -> (r: Self)
        ensures
            r == AppTab::Monitor,
    {
        AppTab::Monitor
    }
}

/// Position of a tab in the tab bar.
pub open spec fn tab_index(t: AppTab) -> usize {
    match t {
        AppTab::Monitor => 0,
        AppTab::Worldmap => 1,
        AppTab::Raw => 2,
    }
}

/// The tab at a position of the tab bar, if there is one.
pub open spec fn tab_at(i: usize) -> Option<AppTab> {
    if i == 0 {
        Some(AppTab::Monitor)
    } else if i == 1 {
        Some(AppTab::Worldmap)
    } else if i == 2 {
        Some(AppTab::Raw)
    } else {
        None
    }
}

/// The tab to the right of `t`; the last tab stays.
pub open spec fn tab_after(t: AppTab) -> AppTab {
    match tab_at(if tab_index(t) < usize::MAX { (tab_index(t) + 1) as usize } else { usize::MAX }) {
        Some(n) => n,
        None => t,
    }
}

/// The tab to the left of `t`; the first tab stays.
pub open spec fn tab_before(t: AppTab) -> AppTab {
    match tab_at(if tab_index(t) > 0 { (tab_index(t) - 1) as usize } else { 0 }) {
        Some(p) => p,
        None => t,
    }
}

/// Title of a tab.
pub open spec fn tab_title(t: AppTab) -> Seq<char> {
    match t {
        AppTab::Monitor => " Monitor "@,
        AppTab::Worldmap => "   Map   "@,
        AppTab::Raw => "   Raw   "@,
    }
}

impl AppTab {
    /// The tabs in the order of the tab bar.
    pub fn all() -> (r: [AppTab; 3])
        ensures
            r@ == seq![AppTab::Monitor, AppTab::Worldmap, AppTab::Raw],
    {
        [AppTab::Monitor, AppTab::Worldmap, AppTab::Raw]
    }

    /// Position of the tab in the tab bar.
    pub fn index(&self) -> (r: usize)
        ensures
            r == tab_index(*self),
    {
        match self {
            AppTab::Monitor => 0,
            AppTab::Worldmap => 1,
            AppTab::Raw => 2,
        }
    }

    /// The tab at position `i` of the tab bar, if there is one.
    pub fn from_repr(i: usize) -> (r: Option<AppTab>)
        ensures
            r == tab_at(i),
    {
        if i == 0 {
            Some(AppTab::Monitor)
        } else if i == 1 {
            Some(AppTab::Worldmap)
        } else if i == 2 {
            Some(AppTab::Raw)
        } else {
            None
        }
    }

    /// Moves to the tab on the right, if there is one.
    pub fn next(&mut self)
        ensures
            *final(self) == tab_after(*old(self)),
    {
        let next_index = self.index().saturating_add(1);
        *self = match AppTab::from_repr(next_index) {
            Some(t) => t,
            None => *self,
        };
    }

    /// Moves to the tab on the left, if there is one.
    pub fn prev(&mut self)
        ensures
            *final(self) == tab_before(*old(self)),
    {
        let prev_index = self.index().saturating_sub(1);
        *self = match AppTab::from_repr(prev_index) {
            Some(t) => t,
            None => *self,
        };
    }

    pub fn as_str(&self) -> (r: &'static str)
        ensures
            r@ == tab_title(*self),
    {
        match self {
            AppTab::Monitor => " Monitor ",
            AppTab::Worldmap => "   Map   ",
            AppTab::Raw => "   Raw   ",
        }
    }
}

/// Moving right and back left returns to the same tab, except from the last
/// tab, where moving right stays.
pub proof fn lemma_tab_prev_undoes_next(t: AppTab)
    requires
        t != AppTab::Raw,
    ensures
        tab_before(tab_after(t)) == t,
{
}

/// Moving left and back right returns to the same tab, except from the
/// first tab, where moving left stays.
pub proof fn lemma_tab_next_undoes_prev(t: AppTab)
    requires
        t != AppTab::Monitor,
    ensures
        tab_after(tab_before(t)) == t,
{
}

/// Application events.
#[derive(Clone, Debug)]
pub enum AppEvent {
    /// Quit the application.
    Quit,
    /// NMEA message received.
    NmeaMessage(SentenceKind),
    /// Raw NMEA sentence for raw data logging.
    RawNmeaSentence(RawNmeaLog),
}

// ---------------------------------------------------------------------------
// Log of raw sentences
// ---------------------------------------------------------------------------

#[verifier::external_type_specification]
#[verifier::external_body]
#[verifier::reject_recursive_types(T)]
pub struct ExFixedCircularBuffer<T, const N: usize>(FixedCircularBuffer<T, N>);

/// The items of a raw log buffer, from the oldest to the newest.
pub uninterp spec fn buffer_items(b: FixedCircularBuffer<RawNmeaLog, 1000>) -> Seq<RawNmeaLog>;

/// `FixedCircularBuffer::new`: an empty buffer.
#[verifier::external_body]
fn buffer_new() -> (r: FixedCircularBuffer<RawNmeaLog, 1000>)
    ensures
        buffer_items(r) == Seq::<RawNmeaLog>::empty(),
{
    FixedCircularBuffer::<RawNmeaLog, 1000>::new()
}

/// `CircularBuffer::push_back`: appends `item` at the back; when the buffer
/// holds its capacity of 1000 items or more, the front item is removed and
/// returned.
#[verifier::external_body]
fn buffer_push_back(b: &mut FixedCircularBuffer<RawNmeaLog, 1000>, item: RawNmeaLog) -> (r: Option<
    RawNmeaLog,
>)
    ensures
        buffer_items(*old(b)).len() < 1000 ==> buffer_items(*final(b)) == buffer_items(
            *old(b),
        ).push(item) && r is None,
        buffer_items(*old(b)).len() >= 1000 ==> buffer_items(*final(b)) == buffer_items(
            *old(b),
        ).drop_first().push(item) && r == Some(buffer_items(*old(b))[0]),
{
    b.push_back(item)
}

/// `CircularBuffer::len`: the number of items.
#[verifier::external_body]
fn buffer_len(b: &FixedCircularBuffer<RawNmeaLog, 1000>) -> (r: usize)
    ensures
        r == buffer_items(*b).len(),
{
    b.len()
}

/// `CircularBuffer::get`: the item at `index`, counted from the front.
#[verifier::external_body]
fn buffer_get(b: &FixedCircularBuffer<RawNmeaLog, 1000>, index: usize) -> (r: Option<&RawNmeaLog>)
    ensures
        index < buffer_items(*b).len() ==> r == Some(&buffer_items(*b)[index as int]),
        index >= buffer_items(*b).len() ==> r is None,
{
    b.get(index)
}

/// The last `n` items of `s`, or all of them when there are fewer.
pub open spec fn keep_last<T>(s: Seq<T>, n: nat) -> Seq<T> {
    if s.len() <= n {
        s
    } else {
        s.skip(s.len() - n)
    }
}

/// The log of the most recent raw sentences, oldest first.
pub struct RawLog {
    buf: FixedCircularBuffer<RawNmeaLog, 1000>,
}

impl RawLog {
    /// The logged sentences, oldest first.
    pub closed spec fn items(&self) -> Seq<RawNmeaLog> {
        buffer_items(self.buf)
    }

    #[verifier::type_invariant]
    closed spec fn bounded(&self) -> bool {
        buffer_items(self.buf).len() <= MAX_RAW_NMEA_LOGS
    }

    /// An empty log.
    pub fn new() -> (r: RawLog)
        ensures
            r.items() == Seq::<RawNmeaLog>::empty(),
    {
        RawLog { buf: buffer_new() }
    }

    /// Appends a sentence; once the log holds its maximum, the oldest
    /// sentence leaves it.
    pub fn push(&mut self, log: RawNmeaLog)
        ensures
            final(self).items() == keep_last(old(self).items().push(log), MAX_RAW_NMEA_LOGS as nat),
    {
        proof {
            use_type_invariant(&*self);
        }
        let ghost before = self.items();
        let mut buf = buffer_new();
        std::mem::swap(&mut buf, &mut self.buf);
        let _ = buffer_push_back(&mut buf, log);
        proof {
            if before.len() >= 1000 {
                assert(before.drop_first().push(log) =~= before.push(log).skip(before.push(log).len() - 1000));
            }
        }
        self.buf = buf;
    }

    /// The number of logged sentences.
    pub fn len(&self) -> (r: usize)
        ensures
            r == self.items().len(),
            r <= MAX_RAW_NMEA_LOGS,
    {
        proof {
            use_type_invariant(self);
        }
        buffer_len(&self.buf)
    }

    /// The logged sentence at `index`, oldest first.
    pub fn get(&self, index: usize) -> (r: Option<&RawNmeaLog>)
        ensures
            index < self.items().len() ==> r == Some(&self.items()[index as int]),
            index >= self.items().len() ==> r is None,
    {
        buffer_get(&self.buf, index)
    }
}

/// Pushing onto a log that holds the last sentences of a history leaves it
/// holding the last sentences of the longer history: the log always holds
/// the most recent sentences, at most its maximum, in the order received.
pub proof fn lemma_log_keeps_most_recent(history: Seq<RawNmeaLog>, log: RawNmeaLog)
    ensures
        keep_last(keep_last(history, MAX_RAW_NMEA_LOGS as nat).push(log), MAX_RAW_NMEA_LOGS as nat)
            == keep_last(history.push(log), MAX_RAW_NMEA_LOGS as nat),
{
    let n = MAX_RAW_NMEA_LOGS as nat;
    let k = keep_last(history, n);
    if history.len() > n {
        assert(k.push(log).len() == n + 1);
        assert(k.push(log).skip(1) =~= history.push(log).skip(history.push(log).len() - n));
    } else if history.len() == n {
        assert(k.push(log).skip(1) =~= history.push(log).skip(1));
    }
}

// ---------------------------------------------------------------------------
// Application state
// ---------------------------------------------------------------------------

/// Which navigation data to refresh after a parsed sentence.
#[derive(Debug, Clone, Copy, PartialEq, Eq, Structural)]
pub enum NmeaUpdate {
    /// Position fix data (GGA).
    FromGga,
    /// Recommended minimum data (RMC).
    FromRmc,
    /// Satellites in view (GSV).
    FromGsv,
    /// Nothing to refresh.
    Nothing,
}

/// The refresh that a parsed sentence calls for.
pub open spec fn update_for(kind: SentenceKind) -> NmeaUpdate {
    match kind {
        SentenceKind::Gga => NmeaUpdate::FromGga,
        SentenceKind::Rmc => NmeaUpdate::FromRmc,
        SentenceKind::Gsv => NmeaUpdate::FromGsv,
        _ => NmeaUpdate::Nothing,
    }
}

/// What a key event does in the main view.
pub open spec fn key_effect(tab: AppTab, key: KeyEvent) -> (AppTab, Option<AppEvent>) {
    if key.kind != KeyEventKind::Press {
        (tab, None)
    } else {
        match key.code {
            KeyCode::Esc => (tab, Some(AppEvent::Quit)),
            KeyCode::Char(c) => if c == 'q' {
                (tab, Some(AppEvent::Quit))
            } else if (c == 'c' || c == 'C') && key.modifiers.bits == 2 {
                (tab, Some(AppEvent::Quit))
            } else {
                (tab, None)
            },
            KeyCode::Tab => (tab_after(tab), None),
            KeyCode::Right => (tab_after(tab), None),
            KeyCode::Left => (tab_before(tab), None),
            _ => (tab, None),
        }
    }
}

/// State of the application that its decisions read and change.
pub struct AppState {
    /// Whether the application is running.
    pub running: bool,
    /// Current tab.
    pub tab: AppTab,
    /// Raw NMEA data logs.
    pub raw_data: RawLog,
}

impl AppState {
    /// A running application on the first tab, with an empty log.
    pub fn new() -> (r: AppState)
        ensures
            r.running,
            r.tab == AppTab::Monitor,
            r.raw_data.items() == Seq::<RawNmeaLog>::empty(),
    {
        AppState { running: true, tab: AppTab::default(), raw_data: RawLog::new() }
    }

    /// Handles a key event: Esc, `q` and Ctrl+C (with no other modifier)
    /// ask to quit, Tab and Right move to the next tab, Left to the previous
    /// one; keys that are not pressed do nothing. Returns the event to queue.
    pub fn handle_key_event(&mut self, key: KeyEvent) -> (r: Option<AppEvent>)
        ensures
            (final(self).tab, r) == key_effect(old(self).tab, key),
            final(self).running == old(self).running,
            final(self).raw_data == old(self).raw_data,
    {
        if key.kind != KeyEventKind::Press {
            return None;
        }
        match key.code {
            KeyCode::Esc => Some(AppEvent::Quit),
            KeyCode::Char(c) => {
                if c == 'q' {
                    Some(AppEvent::Quit)
                } else if (c == 'c' || c == 'C') && key.modifiers.bits == 2 {
                    Some(AppEvent::Quit)
                } else {
                    None
                }
            },
            KeyCode::Tab => {
                self.tab.next();
                None
            },
            KeyCode::Right => {
                self.tab.next();
                None
            },
            KeyCode::Left => {
                self.tab.prev();
                None
            },
            _ => None,
        }
    }

    /// The refresh that a parsed sentence calls for: GGA, RMC and GSV
    /// sentences refresh their data, the others nothing.
    pub fn handle_nmea_msg(&self, kind: SentenceKind) -> (r: NmeaUpdate)
        ensures
            r == update_for(kind),
    {
        match kind {
            SentenceKind::Gga => NmeaUpdate::FromGga,
            SentenceKind::Rmc => NmeaUpdate::FromRmc,
            SentenceKind::Gsv => NmeaUpdate::FromGsv,
            _ => NmeaUpdate::Nothing,
        }
    }

    /// Logs a raw sentence.
    pub fn handle_raw_nmea(&mut self, raw: RawNmeaLog)
        ensures
            final(self).raw_data.items() == keep_last(
                old(self).raw_data.items().push(raw),
                MAX_RAW_NMEA_LOGS as nat,
            ),
            final(self).running == old(self).running,
            final(self).tab == old(self).tab,
    {
        self.raw_data.push(raw);
    }

    /// Stops the application.
    pub fn quit(&mut self)
        ensures
            !final(self).running,
            final(self).tab == old(self).tab,
            final(self).raw_data == old(self).raw_data,
    {
        self.running = false;
    }

    /// Handles an application event: Quit stops, a raw sentence is logged,
    /// a parsed sentence gives the refresh it calls for.
    pub fn handle_app_event(&mut self, event: AppEvent) -> (r: NmeaUpdate)
        ensures
            match event {
                AppEvent::Quit => !final(self).running && final(self).tab == old(self).tab
                    && final(self).raw_data == old(self).raw_data && r == NmeaUpdate::Nothing,
                AppEvent::NmeaMessage(k) => final(self).running == old(self).running
                    && final(self).tab == old(self).tab && final(self).raw_data == old(
                    self,
                ).raw_data && r == update_for(k),
                AppEvent::RawNmeaSentence(log) => final(self).running == old(self).running
                    && final(self).tab == old(self).tab && final(self).raw_data.items()
                    == keep_last(old(self).raw_data.items().push(log), MAX_RAW_NMEA_LOGS as nat)
                    && r == NmeaUpdate::Nothing,
            },
    {
        match event {
            AppEvent::Quit => {
                self.quit();
                NmeaUpdate::Nothing
            },
            AppEvent::NmeaMessage(kind) => self.handle_nmea_msg(kind),
            AppEvent::RawNmeaSentence(raw) => {
                self.handle_raw_nmea(raw);
                NmeaUpdate::Nothing
            },
        }
    }
}

/// In the main view, a pressed Tab or Right moves to the tab at the next
/// position of the tab bar and a pressed Left to the one at the previous
/// position, staying on the last and on the first tab; none of them asks to
/// quit. The tab reached is the one that [`AppTab::next`] and
/// [`AppTab::prev`] reach.
pub proof fn lemma_arrow_keys_move_one_tab(tab: AppTab, key: KeyEvent)
    requires
        key.kind == KeyEventKind::Press,
    ensures
        key.code is Right || key.code is Tab ==> {
            &&& tab_index(key_effect(tab, key).0) == if tab_index(tab) < 2 {
                tab_index(tab) + 1
            } else {
                2
            }
            &&& key_effect(tab, key).0 == tab_after(tab)
            &&& key_effect(tab, key).1 is None
        },
        key.code is Left ==> {
            &&& tab_index(key_effect(tab, key).0) == if tab_index(tab) > 0 {
                tab_index(tab) - 1
            } else {
                0
            }
            &&& key_effect(tab, key).0 == tab_before(tab)
            &&& key_effect(tab, key).1 is None
        },
{
}

} // verus!
