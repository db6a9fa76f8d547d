//! Signals tracking data: one entry per tracked signal of a satellite, the
//! counts of tracked and used satellites and signals, and the grouping of
//! the signals by satellite for the bar chart.
use vstd::prelude::*;

use std::collections::{BTreeMap, HashMap};
use vstd::std_specs::btree::{increasing_seq, spec_keys_iter};
use vstd::std_specs::cmp::OrdSpec;
use vstd::std_specs::iter::IteratorSpec;

use crate::gnss::{
    GalileoSignal, GlonassSignal, Gnss, GnssSignal, GpsSignal, gnss_letter, signal_code,
    signal_gnss,
};
use crate::text::{decimal_chars, decimal_digits, string_from_chars};

verus! {

/// Tracking data of one signal of a satellite.
#[derive(Clone, Copy, Debug)]
pub struct SignalInfo {
    pub signal: GnssSignal,
    pub svid: u8,
    /// Carrier to noise density (dB-Hz).
    pub cn0: u8,
    pub is_used: bool,
}

impl SignalInfo {
    pub fn new(signal: GnssSignal, svid: u8, cn0: u8, is_used: bool) -> (r: Self)
        ensures
            r == (SignalInfo { signal, svid, cn0, is_used }),
    {
        SignalInfo { signal, svid, cn0, is_used }
    }

    /// A fixed set of signals, for trying out the display.
    pub fn dummy() -> (r: Vec<Self>)
        ensures
            r@ == dummy_signals(),
    {
        let mut v: Vec<SignalInfo> = Vec::new();
        v.push(SignalInfo::new(GnssSignal::Gps(GpsSignal::L1CA), 1, 44, true));
        v.push(SignalInfo::new(GnssSignal::Gps(GpsSignal::L2C), 1, 41, true));
        v.push(SignalInfo::new(GnssSignal::Galileo(GalileoSignal::E1BC), 5, 29, false));
        v.push(SignalInfo::new(GnssSignal::Galileo(GalileoSignal::E5AIQ), 5, 30, false));
        v.push(SignalInfo::new(GnssSignal::Gps(GpsSignal::L1CA), 3, 48, true));
        v.push(SignalInfo::new(GnssSignal::Gps(GpsSignal::L1CA), 28, 39, true));
        v.push(SignalInfo::new(GnssSignal::Gps(GpsSignal::L2C), 28, 39, true));
        v.push(SignalInfo::new(GnssSignal::Gps(GpsSignal::L1C), 28, 32, false));
        v.push(SignalInfo::new(GnssSignal::Gps(GpsSignal::L5IQ), 28, 30, false));
        v.push(SignalInfo::new(GnssSignal::Gps(GpsSignal::L1CA), 24, 41, true));
        v.push(SignalInfo::new(GnssSignal::Galileo(GalileoSignal::E1BC), 3, 38, true));
        v.push(SignalInfo::new(GnssSignal::Galileo(GalileoSignal::E1BC), 36, 31, false));
        v.push(SignalInfo::new(GnssSignal::Glonass(GlonassSignal::L1OF), 22, 48, true));
        v
    }
}

/// The fixed set of signals of [`SignalInfo::dummy`].
pub open spec fn dummy_signals() -> Seq<SignalInfo> {
    seq![
        SignalInfo { signal: GnssSignal::Gps(GpsSignal::L1CA), svid: 1, cn0: 44, is_used: true },
        SignalInfo { signal: GnssSignal::Gps(GpsSignal::L2C), svid: 1, cn0: 41, is_used: true },
        SignalInfo { signal: GnssSignal::Galileo(GalileoSignal::E1BC), svid: 5, cn0: 29, is_used: false },
        SignalInfo { signal: GnssSignal::Galileo(GalileoSignal::E5AIQ), svid: 5, cn0: 30, is_used: false },
        SignalInfo { signal: GnssSignal::Gps(GpsSignal::L1CA), svid: 3, cn0: 48, is_used: true },
        SignalInfo { signal: GnssSignal::Gps(GpsSignal::L1CA), svid: 28, cn0: 39, is_used: true },
        SignalInfo { signal: GnssSignal::Gps(GpsSignal::L2C), svid: 28, cn0: 39, is_used: true },
        SignalInfo { signal: GnssSignal::Gps(GpsSignal::L1C), svid: 28, cn0: 32, is_used: false },
        SignalInfo { signal: GnssSignal::Gps(GpsSignal::L5IQ), svid: 28, cn0: 30, is_used: false },
        SignalInfo { signal: GnssSignal::Gps(GpsSignal::L1CA), svid: 24, cn0: 41, is_used: true },
        SignalInfo { signal: GnssSignal::Galileo(GalileoSignal::E1BC), svid: 3, cn0: 38, is_used: true },
        SignalInfo { signal: GnssSignal::Galileo(GalileoSignal::E1BC), svid: 36, cn0: 31, is_used: false },
        SignalInfo { signal: GnssSignal::Glonass(GlonassSignal::L1OF), svid: 22, cn0: 48, is_used: true },
    ]
}

// ---------------------------------------------------------------------------
// Satellites
// ---------------------------------------------------------------------------

/// Rank of a constellation in the order of [`Gnss`].
pub open spec fn gnss_rank(g: Gnss) -> nat {
    match g {
        Gnss::Gps => 0,
        Gnss::Glonass => 1,
        Gnss::Galileo => 2,
        Gnss::Beidou => 3,
        Gnss::Other => 4,
    }
}

/// A satellite (constellation and number) as one number, ordered as the
/// pair (constellation, number).
pub open spec fn sat_key(gnss: Gnss, svid: u8) -> nat {
    gnss_rank(gnss) * 256 + svid as nat
}

/// The satellite of a signal.
pub open spec fn signal_key(s: SignalInfo) -> nat {
    sat_key(signal_gnss(s.signal), s.svid)
}

/// Whether the signal at `i` is the first one of its satellite.
pub open spec fn is_first(s: Seq<SignalInfo>, i: int) -> bool {
    forall|j: int| 0 <= j < i ==> signal_key(#[trigger] s[j]) != signal_key(s[i])
}

/// The number of satellites among the first `n` signals.
pub open spec fn count_satellites_upto(s: Seq<SignalInfo>, n: int) -> nat
    decreases n,
{
    if n <= 0 {
        0
    } else {
        count_satellites_upto(s, n - 1) + if is_first(s, n - 1) {
            1nat
        } else {
            0nat
        }
    }
}

/// The number of satellites among the first `n` signals whose first signal
/// is used.
pub open spec fn count_used_satellites_upto(s: Seq<SignalInfo>, n: int) -> nat
    decreases n,
{
    if n <= 0 {
        0
    } else {
        count_used_satellites_upto(s, n - 1) + if is_first(s, n - 1) && s[n - 1].is_used {
            1nat
        } else {
            0nat
        }
    }
}

/// The number of used signals among the first `n`.
pub open spec fn count_used_upto(s: Seq<SignalInfo>, n: int) -> nat
    decreases n,
{
    if n <= 0 {
        0
    } else {
        count_used_upto(s, n - 1) + if s[n - 1].is_used {
            1nat
        } else {
            0nat
        }
    }
}

proof fn lemma_counts_bounded(s: Seq<SignalInfo>, n: int)
    requires
        0 <= n,
    ensures
        count_satellites_upto(s, n) <= n,
        count_used_satellites_upto(s, n) <= count_satellites_upto(s, n),
        count_used_upto(s, n) <= n,
    decreases n,
{
    if n > 0 {
        lemma_counts_bounded(s, n - 1);
    }
}

/// The key of a signal's satellite.
fn key_of(s: &SignalInfo) -> (r: u16)
    ensures
        r == signal_key(*s),
        r < 1280,
{
    let g = Gnss::from(s.signal);
    let rank: u16 = match g {
        Gnss::Gps => 0,
        Gnss::Glonass => 1,
        Gnss::Galileo => 2,
        Gnss::Beidou => 3,
        Gnss::Other => 4,
    };
    rank * 256 + s.svid as u16
}

/// The signals, and what is counted of them.
#[derive(Clone, Debug)]
pub struct SignalInfoSet(pub Vec<SignalInfo>);

impl SignalInfoSet {
    /// The number of satellites tracked (those with at least one signal)
    /// and the number of them used, a satellite counting as used when its
    /// first signal in the list is used.
    pub fn count_satellites(&self) -> (r: (usize, usize))
        ensures
            r.0 == count_satellites_upto(self.0@, self.0@.len() as int),
            r.1 == count_used_satellites_upto(self.0@, self.0@.len() as int),
    {
        let s = &self.0;
        let mut svs: HashMap<u64, bool> = HashMap::new();
        let mut used: usize = 0;
        let mut i: usize = 0;
        while i < s.len()
            invariant
                i <= s@.len(),
                forall|k: u64|
                    svs@.contains_key(k) <==> exists|j: int|
                        0 <= j < i && signal_key(#[trigger] s@[j]) == k,
                svs@.dom().finite(),
                svs@.len() == count_satellites_upto(s@, i as int),
                used == count_used_satellites_upto(s@, i as int),
            decreases s@.len() - i,
        {
            proof {
                lemma_counts_bounded(s@, i as int);
            }
            let key = key_of(&s[i]) as u64;
            proof {
                if svs@.contains_key(key) {
                    let j = choose|j: int| 0 <= j < i && signal_key(#[trigger] s@[j]) == key;
                    assert(!is_first(s@, i as int));
                } else {
                    assert forall|j: int| 0 <= j < i implies signal_key(#[trigger] s@[j]) != signal_key(
                        s@[i as int],
                    ) by {}
                    assert(is_first(s@, i as int));
                }
            }
            if !svs.contains_key(&key) {
                svs.insert(key, s[i].is_used);
                if s[i].is_used {
                    used = used + 1;
                }
                proof {
                    assert(signal_key(s@[i as int]) == key);
                }
            }
            i = i + 1;
        }
        (svs.len(), used)
    }

    /// The number of signals tracked and the number of them used.
    pub fn count_signals(&self) -> (r: (usize, usize))
        ensures
            r.0 == self.0@.len(),
            r.1 == count_used_upto(self.0@, self.0@.len() as int),
    {
        let s = &self.0;
        let mut used: usize = 0;
        let mut i: usize = 0;
        while i < s.len()
            invariant
                i <= s@.len(),
                used == count_used_upto(s@, i as int),
            decreases s@.len() - i,
        {
            proof {
                lemma_counts_bounded(s@, i as int);
            }
            if s[i].is_used {
                used = used + 1;
            }
            i = i + 1;
        }
        (s.len(), used)
    }
}

// ---------------------------------------------------------------------------
// Grouping by satellite
// ---------------------------------------------------------------------------

/// One bar of the chart: a signal's C/N0, its code, and whether it is used.
#[derive(Clone, Copy, Debug)]
pub struct SignalBar {
    pub value: u64,
    pub label: &'static str,
    pub used: bool,
}

/// The signals of one satellite, with the satellite's label.
#[derive(Clone, Debug)]
pub struct SatelliteGroup {
    pub gnss: Gnss,
    pub svid: u8,
    pub label: String,
    pub bars: Vec<SignalBar>,
}

/// A [`SignalBar`] as plain values.
pub struct BarModel {
    pub value: u64,
    pub label: Seq<char>,
    pub used: bool,
}

/// A [`SatelliteGroup`] as plain values.
pub struct GroupModel {
    pub gnss: Gnss,
    pub svid: u8,
    pub label: Seq<char>,
    pub bars: Seq<BarModel>,
}

impl View for SignalBar {
    type V = BarModel;

    open spec fn view(&self) -> BarModel {
        BarModel { value: self.value, label: self.label@, used: self.used }
    }
}

impl View for SatelliteGroup {
    type V = GroupModel;

    open spec fn view(&self) -> GroupModel {
        GroupModel {
            gnss: self.gnss,
            svid: self.svid,
            label: self.label@,
            bars: self.bars@.map_values(|b: SignalBar| b@),
        }
    }
}

/// The bar of a signal.
pub open spec fn bar_of(s: SignalInfo) -> BarModel {
    BarModel { value: s.cn0 as u64, label: signal_code(s.signal), used: s.is_used }
}

/// The bars of the signals of the satellite `key`, in the order of `s`.
pub open spec fn bars_for(s: Seq<SignalInfo>, key: nat) -> Seq<BarModel>
    decreases s.len(),
{
    if s.len() == 0 {
        Seq::empty()
    } else if signal_key(s.last()) == key {
        bars_for(s.drop_last(), key).push(bar_of(s.last()))
    } else {
        bars_for(s.drop_last(), key)
    }
}

/// A satellite that one of the signals belongs to has at least one bar.
proof fn lemma_bars_nonempty(s: Seq<SignalInfo>, w: int)
    requires
        0 <= w < s.len(),
    ensures
        bars_for(s, signal_key(s[w])).len() > 0,
    decreases s.len(),
{
    if w < s.len() - 1 {
        lemma_bars_nonempty(s.drop_last(), w);
        assert(s.drop_last()[w] == s[w]);
    }
}

/// A number written with at least two digits.
pub open spec fn two_digits(n: nat) -> Seq<char> {
    if n < 10 {
        seq!['0'] + decimal_digits(n)
    } else {
        decimal_digits(n)
    }
}

/// Label of a satellite: its constellation's letter and its number with at
/// least two digits, such as `G01`.
pub open spec fn sat_label(gnss: Gnss, svid: u8) -> Seq<char> {
    seq![gnss_letter(gnss)] + two_digits(svid as nat)
}

/// The key of a group.
pub open spec fn group_key(g: GroupModel) -> nat {
    sat_key(g.gnss, g.svid)
}

/// `g` holds one group per satellite of the signals `s` (each group has at
/// least one bar, and every signal's satellite has a group), ordered by
/// constellation and then by number, each with the satellite's label and
/// the bars of its signals in the order of `s`.
pub open spec fn is_grouping(s: Seq<SignalInfo>, g: Seq<GroupModel>) -> bool {
    &&& forall|a: int, b: int| 0 <= a < b < g.len() ==> group_key(g[a]) < group_key(g[b])
    &&& forall|a: int| 0 <= a < g.len() ==> bars_for(s, group_key(#[trigger] g[a])).len() > 0
    &&& forall|i: int|
        0 <= i < s.len() ==> exists|a: int| 0 <= a < g.len() && group_key(g[a]) == signal_key(#[trigger] s[i])
    &&& forall|a: int|
        0 <= a < g.len() ==> (#[trigger] g[a]).label == sat_label(g[a].gnss, g[a].svid) && g[a].bars
            == bars_for(s, group_key(g[a]))
}

/// The constellation of rank `r`.
fn gnss_of_rank(r: u16) -> (g: Gnss)
    requires
        r < 5,
    ensures
        gnss_rank(g) == r,
{
    if r == 0 {
        Gnss::Gps
    } else if r == 1 {
        Gnss::Glonass
    } else if r == 2 {
        Gnss::Galileo
    } else if r == 3 {
        Gnss::Beidou
    } else {
        Gnss::Other
    }
}

/// The label of a satellite.
fn satellite_label(gnss: Gnss, svid: u8) -> (r: String)
    ensures
        r@ == sat_label(gnss, svid),
{
    let mut v: Vec<char> = Vec::new();
    v.push(gnss.as_char());
    if svid < 10 {
        v.push('0');
    }
    let d = decimal_chars(svid as u64);
    let mut i: usize = 0;
    let ghost start = v@;
    while i < d.len()
        invariant
            i <= d@.len(),
            v@ == start + d@.take(i as int),
        decreases d@.len() - i,
    {
        v.push(d[i]);
        assert(d@.take(i + 1) == d@.take(i as int).push(d@[i as int]));
        i = i + 1;
    }
    assert(d@.take(d@.len() as int) == d@);
    string_from_chars(v.as_slice())
}

/// The bars of the signals, by satellite key, as the chart groups them.
fn bars_by_satellite(s: &Vec<SignalInfo>) -> (m: BTreeMap<u64, Vec<SignalBar>>)
    ensures
        forall|k: u64|
            #[trigger] m@.contains_key(k) ==> k < 1280 && m@[k]@.map_values(|b: SignalBar| b@)
                == bars_for(s@, k as nat) && bars_for(s@, k as nat).len() > 0,
        forall|n: nat| #[trigger] bars_for(s@, n).len() > 0 ==> n < 1280 && m@.contains_key(n as u64),
{
    let mut bars_per_sv: BTreeMap<u64, Vec<SignalBar>> = BTreeMap::new();
    let mut i: usize = 0;
    while i < s.len()
        invariant
            i <= s@.len(),
            forall|k: u64|
                #[trigger] bars_per_sv@.contains_key(k) ==> k < 1280 && bars_per_sv@[k]@.map_values(
                    |b: SignalBar| b@,
                ) == bars_for(s@.take(i as int), k as nat) && bars_for(s@.take(i as int), k as nat).len()
                    > 0,
            forall|n: nat|
                #[trigger] bars_for(s@.take(i as int), n).len() > 0 ==> n < 1280
                    && bars_per_sv@.contains_key(n as u64),
        decreases s@.len() - i,
    {
        let key = key_of(&s[i]) as u64;
        let bar = SignalBar {
            value: s[i].cn0 as u64,
            label: s[i].signal.as_signal_code_str(),
            used: s[i].is_used,
        };
        let ghost before = bars_per_sv@;
        let mut bars = match bars_per_sv.remove(&key) {
            Some(v) => v,
            None => Vec::new(),
        };
        let ghost old_bars = bars@;
        bars.push(bar);
        bars_per_sv.insert(key, bars);
        proof {
            let t0 = s@.take(i as int);
            let t1 = s@.take(i + 1);
            assert(t1.drop_last() == t0);
            assert(t1.last() == s@[i as int]);
            assert(bar@ == bar_of(s@[i as int]));
            assert(bars_for(t1, key as nat) == bars_for(t0, key as nat).push(bar_of(s@[i as int])));
            if before.contains_key(key) {
                assert(old_bars == before[key]@);
            } else {
                assert(bars_for(t0, key as nat).len() == 0);
                assert(old_bars.map_values(|b: SignalBar| b@) =~= bars_for(t0, key as nat));
            }
            assert(bars_per_sv@[key]@.map_values(|b: SignalBar| b@) =~= bars_for(t1, key as nat));
            assert forall|k: u64| #[trigger] bars_per_sv@.contains_key(k) implies k < 1280
                && bars_per_sv@[k]@.map_values(|b: SignalBar| b@) == bars_for(t1, k as nat) && bars_for(
                t1,
                k as nat,
            ).len() > 0 by {
                if k != key {
                    assert(before.contains_key(k));
                    assert(bars_for(t1, k as nat) == bars_for(t0, k as nat));
                }
            }
            assert forall|n: nat| #[trigger] bars_for(t1, n).len() > 0 implies n < 1280
                && bars_per_sv@.contains_key(n as u64) by {
                if n != key {
                    assert(bars_for(t1, n) == bars_for(t0, n));
                }
            }
        }
        i = i + 1;
    }
    assert(s@.take(s@.len() as int) == s@);
    bars_per_sv
}

/// The keys of `m`, in increasing order.
fn sorted_keys(m: &BTreeMap<u64, Vec<SignalBar>>) -> (r: Vec<u64>)
    ensures
        forall|k: u64| m@.contains_key(k) <==> r@.contains(k),
        forall|a: int, b: int| 0 <= a < b < r@.len() ==> r@[a] < r@[b],
{
    let mut keys: Vec<u64> = Vec::new();
    for k in it: m.keys()
        invariant
            it.seq() == spec_keys_iter(m).remaining(),
            keys@.len() == it.index(),
            forall|a: int| 0 <= a < keys@.len() ==> keys@[a] == *it.seq()[a],
    {
        keys.push(*k);
    }
    proof {
        let ghost seq = spec_keys_iter(m).remaining();
        assert(keys@ =~= seq.unref());
        assert(increasing_seq(seq));
        broadcast use vstd::laws_cmp::lemma_ref_obeys_cmp_spec;
        assert(vstd::laws_cmp::obeys_cmp::<&u64>());
        assert forall|a: int, b: int| 0 <= a < b < keys@.len() implies keys@[a] < keys@[b] by {
            assert(OrdSpec::cmp_spec(&seq[a], &seq[b]) is Less);
            assert(keys@[a] == *seq[a] && keys@[b] == *seq[b]);
        }
    }
    keys
}

proof fn lemma_grouping_of_views(s: Seq<SignalInfo>, groups: Seq<SatelliteGroup>)
    requires
        forall|a: int, b: int| 0 <= a < b < groups.len() ==> group_key(groups[a]@) < group_key(groups[b]@),
        forall|a: int| 0 <= a < groups.len() ==> bars_for(s, group_key(#[trigger] groups[a]@)).len() > 0,
        forall|i: int|
            0 <= i < s.len() ==> exists|a: int|
                0 <= a < groups.len() && group_key(groups[a]@) == signal_key(#[trigger] s[i]),
        forall|a: int|
            0 <= a < groups.len() ==> (#[trigger] groups[a]@).label == sat_label(groups[a]@.gnss, groups[a]@.svid)
                && groups[a]@.bars == bars_for(s, group_key(groups[a]@)),
    ensures
        is_grouping(s, groups.map_values(|g: SatelliteGroup| g@)),
{
    let g = groups.map_values(|x: SatelliteGroup| x@);
    assert forall|a: int| 0 <= a < g.len() implies #[trigger] g[a] == groups[a]@ by {}
    assert forall|i: int| 0 <= i < s.len() implies exists|a: int| 0 <= a < g.len() && group_key(g[a]) == signal_key(#[trigger] s[i]) by {
        let a = choose|a: int| 0 <= a < groups.len() && group_key(groups[a]@) == signal_key(s[i]);
        assert(g[a] == groups[a]@);
    }
}

impl SignalInfoSet {
    /// The signals grouped by satellite for the bar chart: one group per
    /// satellite, ordered by constellation and then by number, each labelled
    /// with the constellation's letter and the two-digit number, holding the
    /// bars of the satellite's signals in their order.
    pub fn bar_groups(&self) -> (r: Vec<SatelliteGroup>)
        ensures
            is_grouping(self.0@, r@.map_values(|g: SatelliteGroup| g@)),
    {
        let s = &self.0;
        let mut bars_per_sv = bars_by_satellite(s);
        let keys = sorted_keys(&bars_per_sv);
        let ghost all = bars_per_sv@;
        assert forall|a: int| 0 <= a < keys@.len() implies bars_per_sv@.contains_key(
            #[trigger] keys@[a],
        ) by {
            assert(keys@.contains(keys@[a]));
        }
        let mut groups: Vec<SatelliteGroup> = Vec::new();
        let mut j: usize = 0;
        while j < keys.len()
            invariant
                j <= keys@.len(),
                groups@.len() == j,
                forall|a: int, b: int| 0 <= a < b < keys@.len() ==> keys@[a] < keys@[b],
                forall|k: u64| all.contains_key(k) <==> keys@.contains(k),
                forall|k: u64|
                    #[trigger] all.contains_key(k) ==> k < 1280 && all[k]@.map_values(|b: SignalBar| b@)
                        == bars_for(s@, k as nat) && bars_for(s@, k as nat).len() > 0,
                forall|a: int|
                    j <= a < keys@.len() ==> bars_per_sv@.contains_key(#[trigger] keys@[a])
                        && bars_per_sv@[keys@[a]] == all[keys@[a]],
                forall|a: int|
                    0 <= a < j ==> group_key((#[trigger] groups@[a])@) == keys@[a] as nat
                        && groups@[a]@.label == sat_label(groups@[a]@.gnss, groups@[a]@.svid)
                        && groups@[a]@.bars == bars_for(s@, keys@[a] as nat),
            decreases keys@.len() - j,
        {
            let key = keys[j];
            proof {
                assert(keys@.contains(key));
                assert(all.contains_key(key));
            }
            let ghost before = bars_per_sv@;
            let bars = match bars_per_sv.remove(&key) {
                Some(v) => v,
                None => Vec::new(),
            };
            let rank = (key / 256) as u16;
            let svid = (key % 256) as u8;
            let gnss = gnss_of_rank(rank);
            assert(sat_key(gnss, svid) == key);
            let group = SatelliteGroup { gnss, svid, label: satellite_label(gnss, svid), bars };
            let ghost old_groups = groups@;
            groups.push(group);
            proof {
                assert(groups@[j as int] == group);
                assert(forall|a: int| 0 <= a < j ==> groups@[a] == old_groups[a]);
                assert forall|a: int| j + 1 <= a < keys@.len() implies bars_per_sv@.contains_key(
                    #[trigger] keys@[a],
                ) && bars_per_sv@[keys@[a]] == all[keys@[a]] by {
                    assert(keys@[j as int] < keys@[a]);
                }
            }
            j = j + 1;
        }
        proof {
            assert forall|i: int| 0 <= i < s@.len() implies exists|a: int|
                0 <= a < groups@.len() && group_key(groups@[a]@) == signal_key(#[trigger] s@[i]) by {
                lemma_bars_nonempty(s@, i);
                let n = signal_key(s@[i]);
                assert(bars_for(s@, n).len() > 0);
                assert(keys@.contains(n as u64));
                let a = choose|a: int| 0 <= a < keys@.len() && keys@[a] == n as u64;
                assert(group_key(groups@[a]@) == keys@[a] as nat);
            }
            assert forall|a: int| 0 <= a < groups@.len() implies bars_for(
                s@,
                group_key(#[trigger] groups@[a]@),
            ).len() > 0 by {
                assert(keys@.contains(keys@[a]));
                assert(all.contains_key(keys@[a]));
            }
            assert forall|a: int, b: int| 0 <= a < b < groups@.len() implies group_key(groups@[a]@)
                < group_key(groups@[b]@) by {
                assert(group_key(groups@[a]@) == keys@[a] as nat);
                assert(group_key(groups@[b]@) == keys@[b] as nat);
            }
        }
        proof {
            lemma_grouping_of_views(s@, groups@);
        }
        groups
    }
}

// ---------------------------------------------------------------------------
// What the chart and the counts agree on
// ---------------------------------------------------------------------------

/// The satellites of the first `n` signals.
pub open spec fn keys_upto(s: Seq<SignalInfo>, n: int) -> Set<nat> {
    Set::new(|k: nat| exists|i: int| 0 <= i < n && signal_key(#[trigger] s[i]) == k)
}

/// The number of bars of all the groups.
pub open spec fn bar_total(g: Seq<GroupModel>) -> nat
    decreases g.len(),
{
    if g.len() == 0 {
        0
    } else {
        bar_total(g.drop_last()) + g.last().bars.len()
    }
}

/// The number of bars that the satellites `ks` have among the signals `s`.
spec fn key_total(ks: Seq<nat>, s: Seq<SignalInfo>) -> nat
    decreases ks.len(),
{
    if ks.len() == 0 {
        0
    } else {
        key_total(ks.drop_last(), s) + bars_for(s, ks.last()).len()
    }
}

/// How often `k` occurs in `ks`.
spec fn occurrences(ks: Seq<nat>, k: nat) -> nat
    decreases ks.len(),
{
    if ks.len() == 0 {
        0
    } else {
        occurrences(ks.drop_last(), k) + if ks.last() == k {
            1nat
        } else {
            0nat
        }
    }
}

/// The satellites counted by [`count_satellites_upto`] are the distinct
/// satellites of the signals.
proof fn lemma_keys_upto_len(s: Seq<SignalInfo>, n: int)
    requires
        0 <= n <= s.len(),
    ensures
        keys_upto(s, n).finite(),
        keys_upto(s, n).len() == count_satellites_upto(s, n),
    decreases n,
{
    if n == 0 {
        assert(keys_upto(s, 0) =~= Set::empty());
    } else {
        lemma_keys_upto_len(s, n - 1);
        let k = signal_key(s[n - 1]);
        if is_first(s, n - 1) {
            assert(keys_upto(s, n) =~= keys_upto(s, n - 1).insert(k));
            assert(!keys_upto(s, n - 1).contains(k));
        } else {
            assert(keys_upto(s, n) =~= keys_upto(s, n - 1));
        }
    }
}

/// A satellite with a bar has a signal.
proof fn lemma_bars_have_signal(s: Seq<SignalInfo>, k: nat)
    requires
        bars_for(s, k).len() > 0,
    ensures
        exists|i: int| 0 <= i < s.len() && signal_key(#[trigger] s[i]) == k,
    decreases s.len(),
{
    if signal_key(s.last()) == k {
        assert(signal_key(s[s.len() - 1]) == k);
    } else {
        lemma_bars_have_signal(s.drop_last(), k);
        let i = choose|i: int| 0 <= i < s.len() - 1 && signal_key(#[trigger] s.drop_last()[i]) == k;
        assert(s.drop_last()[i] == s[i]);
    }
}

/// The keys of the groups.
spec fn group_keys(g: Seq<GroupModel>) -> Seq<nat> {
    g.map_values(|x: GroupModel| group_key(x))
}

proof fn lemma_bar_total_by_keys(s: Seq<SignalInfo>, g: Seq<GroupModel>)
    requires
        forall|a: int| 0 <= a < g.len() ==> (#[trigger] g[a]).bars == bars_for(s, group_key(g[a])),
    ensures
        bar_total(g) == key_total(group_keys(g), s),
    decreases g.len(),
{
    if g.len() > 0 {
        lemma_bar_total_by_keys(s, g.drop_last());
        assert(group_keys(g).drop_last() =~= group_keys(g.drop_last()));
        assert(g.last() == g[g.len() - 1]);
    }
}

/// Adding a signal adds one bar to each occurrence of its satellite.
proof fn lemma_key_total_step(ks: Seq<nat>, s: Seq<SignalInfo>)
    requires
        s.len() > 0,
    ensures
        key_total(ks, s) == key_total(ks, s.drop_last()) + occurrences(ks, signal_key(s.last())),
    decreases ks.len(),
{
    if ks.len() > 0 {
        lemma_key_total_step(ks.drop_last(), s);
    }
}

proof fn lemma_key_total_empty(ks: Seq<nat>, s: Seq<SignalInfo>)
    requires
        s.len() == 0,
    ensures
        key_total(ks, s) == 0,
    decreases ks.len(),
{
    if ks.len() > 0 {
        lemma_key_total_empty(ks.drop_last(), s);
    }
}

proof fn lemma_occurrences_absent(ks: Seq<nat>, k: nat)
    requires
        !ks.contains(k),
    ensures
        occurrences(ks, k) == 0,
    decreases ks.len(),
{
    if ks.len() > 0 {
        assert(ks.last() == ks[ks.len() - 1]);
        assert forall|j: int| 0 <= j < ks.len() - 1 implies ks.drop_last()[j] != k by {
            assert(ks.drop_last()[j] == ks[j]);
        }
        lemma_occurrences_absent(ks.drop_last(), k);
    }
}

proof fn lemma_occurrences_once(ks: Seq<nat>, k: nat)
    requires
        ks.no_duplicates(),
        ks.contains(k),
    ensures
        occurrences(ks, k) == 1,
    decreases ks.len(),
{
    let last = ks.len() - 1;
    assert(ks.last() == ks[last]);
    assert forall|j: int| 0 <= j < last implies ks.drop_last()[j] == ks[j] by {}
    if ks.last() == k {
        assert forall|j: int| 0 <= j < last implies ks.drop_last()[j] != k by {
            assert(ks.drop_last()[j] == ks[j]);
        }
        lemma_occurrences_absent(ks.drop_last(), k);
    } else {
        let j = choose|j: int| 0 <= j < ks.len() && ks[j] == k;
        assert(ks.drop_last()[j] == k);
        lemma_occurrences_once(ks.drop_last(), k);
    }
}

/// Satellites without repetition that include every signal's satellite have
/// one bar per signal.
proof fn lemma_key_total_covers(ks: Seq<nat>, s: Seq<SignalInfo>)
    requires
        ks.no_duplicates(),
        forall|i: int| 0 <= i < s.len() ==> ks.contains(signal_key(#[trigger] s[i])),
    ensures
        key_total(ks, s) == s.len(),
    decreases s.len(),
{
    if s.len() == 0 {
        lemma_key_total_empty(ks, s);
    } else {
        assert forall|i: int| 0 <= i < s.len() - 1 implies ks.contains(
            signal_key(#[trigger] s.drop_last()[i]),
        ) by {
            assert(s.drop_last()[i] == s[i]);
        }
        lemma_key_total_covers(ks, s.drop_last());
        lemma_key_total_step(ks, s);
        assert(s.last() == s[s.len() - 1]);
        lemma_occurrences_once(ks, signal_key(s.last()));
    }
}

/// The keys of a grouping are the satellites of the signals, each once.
proof fn lemma_group_keys(s: Seq<SignalInfo>, g: Seq<GroupModel>)
    requires
        is_grouping(s, g),
    ensures
        group_keys(g).no_duplicates(),
        group_keys(g).to_set() =~= keys_upto(s, s.len() as int),
        forall|i: int| 0 <= i < s.len() ==> group_keys(g).contains(signal_key(#[trigger] s[i])),
{
    let ks = group_keys(g);
    assert forall|a: int, b: int| 0 <= a < ks.len() && 0 <= b < ks.len() && a != b implies ks[a]
        != ks[b] by {
        if a < b {
            assert(group_key(g[a]) < group_key(g[b]));
        } else {
            assert(group_key(g[b]) < group_key(g[a]));
        }
    }
    assert forall|i: int| 0 <= i < s.len() implies ks.contains(signal_key(#[trigger] s[i])) by {
        let a = choose|a: int| 0 <= a < g.len() && group_key(g[a]) == signal_key(s[i]);
        assert(ks[a] == signal_key(s[i]));
    }
    assert forall|k: nat| ks.to_set().contains(k) implies keys_upto(s, s.len() as int).contains(k) by {
        let a = choose|a: int| 0 <= a < ks.len() && ks[a] == k;
        assert(bars_for(s, group_key(g[a])).len() > 0);
        lemma_bars_have_signal(s, k);
    }
    assert forall|k: nat| keys_upto(s, s.len() as int).contains(k) implies ks.to_set().contains(k) by {
        let i = choose|i: int| 0 <= i < s.len() && signal_key(#[trigger] s[i]) == k;
        assert(ks.contains(signal_key(s[i])));
    }
}

/// The chart has one group for each satellite that
/// [`SignalInfoSet::count_satellites`] counts as tracked.
pub proof fn lemma_one_group_per_tracked_satellite(s: Seq<SignalInfo>, g: Seq<GroupModel>)
    requires
        is_grouping(s, g),
    ensures
        g.len() == count_satellites_upto(s, s.len() as int),
{
    lemma_group_keys(s, g);
    group_keys(g).unique_seq_to_set();
    lemma_keys_upto_len(s, s.len() as int);
}

/// The bars of the chart, over all its groups, are as many as the signals
/// that [`SignalInfoSet::count_signals`] counts as tracked: each signal has
/// exactly one bar.
pub proof fn lemma_one_bar_per_tracked_signal(s: Seq<SignalInfo>, g: Seq<GroupModel>)
    requires
        is_grouping(s, g),
    ensures
        bar_total(g) == s.len(),
{
    lemma_group_keys(s, g);
    lemma_bar_total_by_keys(s, g);
    lemma_key_total_covers(group_keys(g), s);
}

} // verus!
