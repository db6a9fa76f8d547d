//! GNSS constellations and the signals that each of them broadcasts.
use vstd::prelude::*;

verus! {

/// A satellite navigation system.
#[derive(Debug, Clone, Copy, PartialEq, Eq, Structural, PartialOrd, Ord, Hash)]
pub enum Gnss {
    Gps,
    Glonass,
    Galileo,
    Beidou,
    Other,
}

impl Default for Gnss {
    fn default() -> (r: Self)
        ensures
            r == Gnss::Gps,
    {
        Gnss::Gps
    }
}

/// GPS signals.
#[derive(Debug, Clone, Copy, PartialEq, Eq, Structural, Hash)]
pub enum GpsSignal {
    L1CA,
    L1C,
    L1P,
    L2C,
    L2P,
    L5I,
    L5Q,
    L5IQ,
}

impl Default for GpsSignal {
    fn default() -> (r: Self)
        ensures
            r == GpsSignal::L1CA,
    {
        GpsSignal::L1CA
    }
}

/// GLONASS signals.
#[derive(Debug, Clone, Copy, PartialEq, Eq, Structural, Hash)]
pub enum GlonassSignal {
    L1OF,
    L1OC,
    L2OF,
    L2OC,
    L3OC,
}

impl Default for GlonassSignal {
    fn default() -> (r: Self)
        ensures
            r == GlonassSignal::L1OF,
    {
        GlonassSignal::L1OF
    }
}

/// Galileo signals.
#[derive(Debug, Clone, Copy, PartialEq, Eq, Structural, Hash)]
pub enum GalileoSignal {
    E1B,
    E1C,
    E1BC,
    E6B,
    E6C,
    E6BC,
    E5BI,
    E5BQ,
    E5BIQ,
    E5AI,
    E5AQ,
    E5AIQ,
    E5Q,
}

impl Default for GalileoSignal {
    fn default() -> (r: Self)
        ensures
            r == GalileoSignal::E1BC,
    {
        GalileoSignal::E1BC
    }
}

/// BeiDou signals.
#[derive(Debug, Clone, Copy, PartialEq, Eq, Structural, Hash)]
pub enum BeidouSignal {
    B1I,
    B1Q,
    B1A,
    B1C,
    B2I,
    B2Q,
    B2A,
    B2B,
    B3I,
    B3Q,
    B3A,
}

impl Default for BeidouSignal {
    fn default() -> (r: Self)
        ensures
            r == BeidouSignal::B1I,
    {
        BeidouSignal::B1I
    }
}

/// A signal of one of the constellations.
#[derive(Debug, Clone, Copy, PartialEq, Eq, Structural, Hash)]
pub enum GnssSignal {
    Gps(GpsSignal),
    Glonass(GlonassSignal),
    Galileo(GalileoSignal),
    Beidou(BeidouSignal),
    Other,
}

/// The default signal of a constellation.
pub open spec fn default_signal(gnss: Gnss) -> GnssSignal {
    match gnss {
        Gnss::Gps => GnssSignal::Gps(GpsSignal::L1CA),
        Gnss::Glonass => GnssSignal::Glonass(GlonassSignal::L1OF),
        Gnss::Galileo => GnssSignal::Galileo(GalileoSignal::E1BC),
        Gnss::Beidou => GnssSignal::Beidou(BeidouSignal::B1I),
        Gnss::Other => GnssSignal::Other,
    }
}

/// The constellation that broadcasts a signal.
pub open spec fn signal_gnss(signal: GnssSignal) -> Gnss {
    match signal {
        GnssSignal::Gps(_) => Gnss::Gps,
        GnssSignal::Glonass(_) => Gnss::Glonass,
        GnssSignal::Galileo(_) => Gnss::Galileo,
        GnssSignal::Beidou(_) => Gnss::Beidou,
        GnssSignal::Other => Gnss::Other,
    }
}

impl From<Gnss> for GnssSignal {
    fn from(gnss: Gnss) -> (r: Self)
        ensures
            r == default_signal(gnss),
    {
        match gnss {
            Gnss::Gps => GnssSignal::Gps(GpsSignal::default()),
            Gnss::Glonass => GnssSignal::Glonass(GlonassSignal::default()),
            Gnss::Galileo => GnssSignal::Galileo(GalileoSignal::default()),
            Gnss::Beidou => GnssSignal::Beidou(BeidouSignal::default()),
            Gnss::Other => GnssSignal::Other,
        }
    }
}

impl vstd::std_specs::convert::FromSpecImpl<Gnss> for GnssSignal {
    open spec fn obeys_from_spec() -> bool {
        true
    }

    open spec fn from_spec(v: Gnss) -> GnssSignal {
        default_signal(v)
    }
}

impl From<GnssSignal> for Gnss {
    fn from(signal: GnssSignal) -> (r: Self)
        ensures
            r == signal_gnss(signal),
    {
        match signal {
            GnssSignal::Gps(_) => Gnss::Gps,
            GnssSignal::Glonass(_) => Gnss::Glonass,
            GnssSignal::Galileo(_) => Gnss::Galileo,
            GnssSignal::Beidou(_) => Gnss::Beidou,
            GnssSignal::Other => Gnss::Other,
        }
    }
}

impl vstd::std_specs::convert::FromSpecImpl<GnssSignal> for Gnss {
    open spec fn obeys_from_spec() -> bool {
        true
    }

    open spec fn from_spec(v: GnssSignal) -> Gnss {
        signal_gnss(v)
    }
}

/// The default signal of a constellation belongs to that constellation:
/// converting a constellation to its signal and back gives it again.
pub proof fn lemma_default_signal_round_trip(gnss: Gnss)
    ensures
        signal_gnss(default_signal(gnss)) == gnss,
{
}

/// Full name of a constellation.
pub open spec fn gnss_name(gnss: Gnss) -> Seq<char> {
    match gnss {
        Gnss::Gps => "GPS"@,
        Gnss::Glonass => "GLONASS"@,
        Gnss::Galileo => "Galileo"@,
        Gnss::Beidou => "BeiDou"@,
        Gnss::Other => "Other"@,
    }
}

/// One letter code of a constellation (RINEX convention).
pub open spec fn gnss_letter(gnss: Gnss) -> char {
    match gnss {
        Gnss::Gps => 'G',
        Gnss::Glonass => 'R',
        Gnss::Galileo => 'E',
        Gnss::Beidou => 'B',
        Gnss::Other => '-',
    }
}

/// Three letter code of a constellation.
pub open spec fn gnss_code(gnss: Gnss) -> Seq<char> {
    match gnss {
        Gnss::Gps => "GPS"@,
        Gnss::Glonass => "GLO"@,
        Gnss::Galileo => "GAL"@,
        Gnss::Beidou => "BDS"@,
        Gnss::Other => "---"@,
    }
}

impl Gnss {
    pub fn as_str(&self) -> (r: &'static str)
        ensures
            r@ == gnss_name(*self),
    {
        match self {
            Gnss::Gps => "GPS",
            Gnss::Glonass => "GLONASS",
            Gnss::Galileo => "Galileo",
            Gnss::Beidou => "BeiDou",
            Gnss::Other => "Other",
        }
    }

    pub fn as_char(&self) -> (r: char)
        ensures
            r == gnss_letter(*self),
    {
        match self {
            Gnss::Gps => 'G',
            Gnss::Glonass => 'R',
            Gnss::Galileo => 'E',
            Gnss::Beidou => 'B',
            Gnss::Other => '-',
        }
    }

    pub fn as_code_str(&self) -> (r: &'static str)
        ensures
            r@ == gnss_code(*self),
    {
        match self {
            Gnss::Gps => "GPS",
            Gnss::Glonass => "GLO",
            Gnss::Galileo => "GAL",
            Gnss::Beidou => "BDS",
            Gnss::Other => "---",
        }
    }
}

/// Name of a GPS signal.
pub open spec fn gps_signal_name(s: GpsSignal) -> Seq<char> {
    match s {
        GpsSignal::L1CA => "L1CA"@,
        GpsSignal::L1C => "L1C"@,
        GpsSignal::L1P => "L1P"@,
        GpsSignal::L2C => "L2C"@,
        GpsSignal::L2P => "L2P"@,
        GpsSignal::L5I => "L5I"@,
        GpsSignal::L5Q => "L5Q"@,
        GpsSignal::L5IQ => "L5IQ"@,
    }
}

/// Name of a GLONASS signal.
pub open spec fn glonass_signal_name(s: GlonassSignal) -> Seq<char> {
    match s {
        GlonassSignal::L1OF => "L1OF"@,
        GlonassSignal::L1OC => "L1OC"@,
        GlonassSignal::L2OF => "L2OF"@,
        GlonassSignal::L2OC => "L2OC"@,
        GlonassSignal::L3OC => "L3OC"@,
    }
}

/// Name of a Galileo signal.
pub open spec fn galileo_signal_name(s: GalileoSignal) -> Seq<char> {
    match s {
        GalileoSignal::E1B => "E1B"@,
        GalileoSignal::E1C => "E1C"@,
        GalileoSignal::E1BC => "E1BC"@,
        GalileoSignal::E6B => "E6B"@,
        GalileoSignal::E6C => "E6C"@,
        GalileoSignal::E6BC => "E6BC"@,
        GalileoSignal::E5BI => "E5BI"@,
        GalileoSignal::E5BQ => "E5BQ"@,
        GalileoSignal::E5BIQ => "E5BIQ"@,
        GalileoSignal::E5AI => "E5AI"@,
        GalileoSignal::E5AQ => "E5AQ"@,
        GalileoSignal::E5AIQ => "E5AIQ"@,
        GalileoSignal::E5Q => "E5Q"@,
    }
}

/// Name of a BeiDou signal.
pub open spec fn beidou_signal_name(s: BeidouSignal) -> Seq<char> {
    match s {
        BeidouSignal::B1I => "B1I"@,
        BeidouSignal::B1Q => "B1Q"@,
        BeidouSignal::B1A => "B1A"@,
        BeidouSignal::B1C => "B1C"@,
        BeidouSignal::B2I => "B2I"@,
        BeidouSignal::B2Q => "B2Q"@,
        BeidouSignal::B2A => "B2A"@,
        BeidouSignal::B2B => "B2B"@,
        BeidouSignal::B3I => "B3I"@,
        BeidouSignal::B3Q => "B3Q"@,
        BeidouSignal::B3A => "B3A"@,
    }
}

/// Code of a signal: the name of the signal, or `UNK` for an unknown one.
pub open spec fn signal_code(s: GnssSignal) -> Seq<char> {
    match s {
        GnssSignal::Gps(x) => gps_signal_name(x),
        GnssSignal::Glonass(x) => glonass_signal_name(x),
        GnssSignal::Galileo(x) => galileo_signal_name(x),
        GnssSignal::Beidou(x) => beidou_signal_name(x),
        GnssSignal::Other => "UNK"@,
    }
}

/// The length and the first five characters of a code (a blank stands for
/// a missing character).
spec fn code_shape(c: Seq<char>) -> (nat, char, char, char, char, char) {
    (
        c.len(),
        c[0],
        c[1],
        c[2],
        if c.len() > 3 {
            c[3]
        } else {
            ' '
        },
        if c.len() > 4 {
            c[4]
        } else {
            ' '
        },
    )
}

/// The shape of each signal's code, spelled out.
spec fn code_shape_of(s: GnssSignal) -> (nat, char, char, char, char, char) {
    match s {
        GnssSignal::Gps(GpsSignal::L1CA) => (4nat, 'L', '1', 'C', 'A', ' '),
        GnssSignal::Gps(GpsSignal::L1C) => (3nat, 'L', '1', 'C', ' ', ' '),
        GnssSignal::Gps(GpsSignal::L1P) => (3nat, 'L', '1', 'P', ' ', ' '),
        GnssSignal::Gps(GpsSignal::L2C) => (3nat, 'L', '2', 'C', ' ', ' '),
        GnssSignal::Gps(GpsSignal::L2P) => (3nat, 'L', '2', 'P', ' ', ' '),
        GnssSignal::Gps(GpsSignal::L5I) => (3nat, 'L', '5', 'I', ' ', ' '),
        GnssSignal::Gps(GpsSignal::L5Q) => (3nat, 'L', '5', 'Q', ' ', ' '),
        GnssSignal::Gps(GpsSignal::L5IQ) => (4nat, 'L', '5', 'I', 'Q', ' '),
        GnssSignal::Glonass(GlonassSignal::L1OF) => (4nat, 'L', '1', 'O', 'F', ' '),
        GnssSignal::Glonass(GlonassSignal::L1OC) => (4nat, 'L', '1', 'O', 'C', ' '),
        GnssSignal::Glonass(GlonassSignal::L2OF) => (4nat, 'L', '2', 'O', 'F', ' '),
        GnssSignal::Glonass(GlonassSignal::L2OC) => (4nat, 'L', '2', 'O', 'C', ' '),
        GnssSignal::Glonass(GlonassSignal::L3OC) => (4nat, 'L', '3', 'O', 'C', ' '),
        GnssSignal::Galileo(GalileoSignal::E1B) => (3nat, 'E', '1', 'B', ' ', ' '),
        GnssSignal::Galileo(GalileoSignal::E1C) => (3nat, 'E', '1', 'C', ' ', ' '),
        GnssSignal::Galileo(GalileoSignal::E1BC) => (4nat, 'E', '1', 'B', 'C', ' '),
        GnssSignal::Galileo(GalileoSignal::E6B) => (3nat, 'E', '6', 'B', ' ', ' '),
        GnssSignal::Galileo(GalileoSignal::E6C) => (3nat, 'E', '6', 'C', ' ', ' '),
        GnssSignal::Galileo(GalileoSignal::E6BC) => (4nat, 'E', '6', 'B', 'C', ' '),
        GnssSignal::Galileo(GalileoSignal::E5BI) => (4nat, 'E', '5', 'B', 'I', ' '),
        GnssSignal::Galileo(GalileoSignal::E5BQ) => (4nat, 'E', '5', 'B', 'Q', ' '),
        GnssSignal::Galileo(GalileoSignal::E5BIQ) => (5nat, 'E', '5', 'B', 'I', 'Q'),
        GnssSignal::Galileo(GalileoSignal::E5AI) => (4nat, 'E', '5', 'A', 'I', ' '),
        GnssSignal::Galileo(GalileoSignal::E5AQ) => (4nat, 'E', '5', 'A', 'Q', ' '),
        GnssSignal::Galileo(GalileoSignal::E5AIQ) => (5nat, 'E', '5', 'A', 'I', 'Q'),
        GnssSignal::Galileo(GalileoSignal::E5Q) => (3nat, 'E', '5', 'Q', ' ', ' '),
        GnssSignal::Beidou(BeidouSignal::B1I) => (3nat, 'B', '1', 'I', ' ', ' '),
        GnssSignal::Beidou(BeidouSignal::B1Q) => (3nat, 'B', '1', 'Q', ' ', ' '),
        GnssSignal::Beidou(BeidouSignal::B1A) => (3nat, 'B', '1', 'A', ' ', ' '),
        GnssSignal::Beidou(BeidouSignal::B1C) => (3nat, 'B', '1', 'C', ' ', ' '),
        GnssSignal::Beidou(BeidouSignal::B2I) => (3nat, 'B', '2', 'I', ' ', ' '),
        GnssSignal::Beidou(BeidouSignal::B2Q) => (3nat, 'B', '2', 'Q', ' ', ' '),
        GnssSignal::Beidou(BeidouSignal::B2A) => (3nat, 'B', '2', 'A', ' ', ' '),
        GnssSignal::Beidou(BeidouSignal::B2B) => (3nat, 'B', '2', 'B', ' ', ' '),
        GnssSignal::Beidou(BeidouSignal::B3I) => (3nat, 'B', '3', 'I', ' ', ' '),
        GnssSignal::Beidou(BeidouSignal::B3Q) => (3nat, 'B', '3', 'Q', ' ', ' '),
        GnssSignal::Beidou(BeidouSignal::B3A) => (3nat, 'B', '3', 'A', ' ', ' '),
        GnssSignal::Other => (3nat, 'U', 'N', 'K', ' ', ' '),
    }
}

proof fn lemma_code_shape(s: GnssSignal)
    ensures
        code_shape(signal_code(s)) == code_shape_of(s),
{
    reveal_strlit("L1CA");
    reveal_strlit("L1C");
    reveal_strlit("L1P");
    reveal_strlit("L2C");
    reveal_strlit("L2P");
    reveal_strlit("L5I");
    reveal_strlit("L5Q");
    reveal_strlit("L5IQ");
    reveal_strlit("L1OF");
    reveal_strlit("L1OC");
    reveal_strlit("L2OF");
    reveal_strlit("L2OC");
    reveal_strlit("L3OC");
    reveal_strlit("E1B");
    reveal_strlit("E1C");
    reveal_strlit("E1BC");
    reveal_strlit("E6B");
    reveal_strlit("E6C");
    reveal_strlit("E6BC");
    reveal_strlit("E5BI");
    reveal_strlit("E5BQ");
    reveal_strlit("E5BIQ");
    reveal_strlit("E5AI");
    reveal_strlit("E5AQ");
    reveal_strlit("E5AIQ");
    reveal_strlit("E5Q");
    reveal_strlit("B1I");
    reveal_strlit("B1Q");
    reveal_strlit("B1A");
    reveal_strlit("B1C");
    reveal_strlit("B2I");
    reveal_strlit("B2Q");
    reveal_strlit("B2A");
    reveal_strlit("B2B");
    reveal_strlit("B3I");
    reveal_strlit("B3Q");
    reveal_strlit("B3A");
    reveal_strlit("UNK");
    match s {
        GnssSignal::Gps(GpsSignal::L1CA) => {},
        GnssSignal::Gps(GpsSignal::L1C) => {},
        GnssSignal::Gps(GpsSignal::L1P) => {},
        GnssSignal::Gps(GpsSignal::L2C) => {},
        GnssSignal::Gps(GpsSignal::L2P) => {},
        GnssSignal::Gps(GpsSignal::L5I) => {},
        GnssSignal::Gps(GpsSignal::L5Q) => {},
        GnssSignal::Gps(GpsSignal::L5IQ) => {},
        GnssSignal::Glonass(GlonassSignal::L1OF) => {},
        GnssSignal::Glonass(GlonassSignal::L1OC) => {},
        GnssSignal::Glonass(GlonassSignal::L2OF) => {},
        GnssSignal::Glonass(GlonassSignal::L2OC) => {},
        GnssSignal::Glonass(GlonassSignal::L3OC) => {},
        GnssSignal::Galileo(GalileoSignal::E1B) => {},
        GnssSignal::Galileo(GalileoSignal::E1C) => {},
        GnssSignal::Galileo(GalileoSignal::E1BC) => {},
        GnssSignal::Galileo(GalileoSignal::E6B) => {},
        GnssSignal::Galileo(GalileoSignal::E6C) => {},
        GnssSignal::Galileo(GalileoSignal::E6BC) => {},
        GnssSignal::Galileo(GalileoSignal::E5BI) => {},
        GnssSignal::Galileo(GalileoSignal::E5BQ) => {},
        GnssSignal::Galileo(GalileoSignal::E5BIQ) => {},
        GnssSignal::Galileo(GalileoSignal::E5AI) => {},
        GnssSignal::Galileo(GalileoSignal::E5AQ) => {},
        GnssSignal::Galileo(GalileoSignal::E5AIQ) => {},
        GnssSignal::Galileo(GalileoSignal::E5Q) => {},
        GnssSignal::Beidou(BeidouSignal::B1I) => {},
        GnssSignal::Beidou(BeidouSignal::B1Q) => {},
        GnssSignal::Beidou(BeidouSignal::B1A) => {},
        GnssSignal::Beidou(BeidouSignal::B1C) => {},
        GnssSignal::Beidou(BeidouSignal::B2I) => {},
        GnssSignal::Beidou(BeidouSignal::B2Q) => {},
        GnssSignal::Beidou(BeidouSignal::B2A) => {},
        GnssSignal::Beidou(BeidouSignal::B2B) => {},
        GnssSignal::Beidou(BeidouSignal::B3I) => {},
        GnssSignal::Beidou(BeidouSignal::B3Q) => {},
        GnssSignal::Beidou(BeidouSignal::B3A) => {},
        GnssSignal::Other => {},
    }
}

/// Distinct signals have distinct codes, so a code names one signal: the
/// label of a bar in the chart tells which signal it shows.
pub proof fn lemma_signal_code_names_one_signal(a: GnssSignal, b: GnssSignal)
    ensures
        signal_code(a) == signal_code(b) <==> a == b,
{
    lemma_code_shape(a);
    lemma_code_shape(b);
}

impl GpsSignal {
    pub fn as_static_str(&self) -> (r: &'static str)
        ensures
            r@ == gps_signal_name(*self),
    {
        match self {
            GpsSignal::L1CA => "L1CA",
            GpsSignal::L1C => "L1C",
            GpsSignal::L1P => "L1P",
            GpsSignal::L2C => "L2C",
            GpsSignal::L2P => "L2P",
            GpsSignal::L5I => "L5I",
            GpsSignal::L5Q => "L5Q",
            GpsSignal::L5IQ => "L5IQ",
        }
    }
}

impl GlonassSignal {
    pub fn as_static_str(&self) -> (r: &'static str)
        ensures
            r@ == glonass_signal_name(*self),
    {
        match self {
            GlonassSignal::L1OF => "L1OF",
            GlonassSignal::L1OC => "L1OC",
            GlonassSignal::L2OF => "L2OF",
            GlonassSignal::L2OC => "L2OC",
            GlonassSignal::L3OC => "L3OC",
        }
    }
}

impl GalileoSignal {
    pub fn as_static_str(&self) -> (r: &'static str)
        ensures
            r@ == galileo_signal_name(*self),
    {
        match self {
            GalileoSignal::E1B => "E1B",
            GalileoSignal::E1C => "E1C",
            GalileoSignal::E1BC => "E1BC",
            GalileoSignal::E6B => "E6B",
            GalileoSignal::E6C => "E6C",
            GalileoSignal::E6BC => "E6BC",
            GalileoSignal::E5BI => "E5BI",
            GalileoSignal::E5BQ => "E5BQ",
            GalileoSignal::E5BIQ => "E5BIQ",
            GalileoSignal::E5AI => "E5AI",
            GalileoSignal::E5AQ => "E5AQ",
            GalileoSignal::E5AIQ => "E5AIQ",
            GalileoSignal::E5Q => "E5Q",
        }
    }
}

impl BeidouSignal {
    pub fn as_static_str(&self) -> (r: &'static str)
        ensures
            r@ == beidou_signal_name(*self),
    {
        match self {
            BeidouSignal::B1I => "B1I",
            BeidouSignal::B1Q => "B1Q",
            BeidouSignal::B1A => "B1A",
            BeidouSignal::B1C => "B1C",
            BeidouSignal::B2I => "B2I",
            BeidouSignal::B2Q => "B2Q",
            BeidouSignal::B2A => "B2A",
            BeidouSignal::B2B => "B2B",
            BeidouSignal::B3I => "B3I",
            BeidouSignal::B3Q => "B3Q",
            BeidouSignal::B3A => "B3A",
        }
    }
}

impl GnssSignal {
    pub fn as_signal_code_str(&self) -> (r: &'static str)
        ensures
            r@ == signal_code(*self),
    {
        match self {
            GnssSignal::Gps(signal) => signal.as_static_str(),
            GnssSignal::Glonass(signal) => signal.as_static_str(),
            GnssSignal::Galileo(signal) => signal.as_static_str(),
            GnssSignal::Beidou(signal) => signal.as_static_str(),
            GnssSignal::Other => "UNK",
        }
    }
}

} // verus!
