//! NMEA sentences: classifying each line read from the source, after the
//! `nmea` crate has parsed it.
use vstd::prelude::*;

use nmea::SentenceType;

use crate::gnss::Gnss;
use crate::text::string_of;

verus! {

/// A line of the source as it is logged, with how it was understood.
#[derive(Clone, Debug)]
pub struct RawNmeaLog {
    pub sentence: String,
    pub status: RawNmeaStatus,
}

/// How a logged line was understood.
#[derive(Clone, Copy, Debug, PartialEq, Eq, Structural)]
pub enum RawNmeaStatus {
    /// A GNSS sentence that the client uses.
    Gnss,
    /// A GNSS sentence that the client would use but the parser does not
    /// support yet.
    Unimplemented,
    /// Another valid sentence.
    Other,
    /// A line that is no valid sentence.
    Error,
}

/// Solution type indicator.
#[derive(Clone, Copy, Debug, PartialEq, Eq, Structural)]
pub enum SolutionType {
    Invalid,
    Sps2D,
    Sps3D,
    Pps,
    RtkFixed,
    RtkFloat,
    Differential,
    Extrapolated,
    Manual,
    Simulated,
}

impl Default for SolutionType {
    fn default() -> (r: Self)
        ensures
            r == SolutionType::Invalid,
    {
        SolutionType::Invalid
    }
}

/// The type of a fix as the `nmea` parser reports it
/// (`nmea::sentences::FixType`), as a plain value.
#[derive(Clone, Copy, Debug, PartialEq, Eq, Structural)]
pub enum FixKind {
    Invalid,
    Gps,
    DGps,
    Pps,
    Rtk,
    FloatRtk,
    Estimated,
    Manual,
    Simulation,
}

/// The solution type of a fix.
pub open spec fn solution_of(fix: FixKind) -> SolutionType {
    match fix {
        FixKind::Invalid => SolutionType::Invalid,
        FixKind::Gps => SolutionType::Sps3D,
        FixKind::DGps => SolutionType::Differential,
        FixKind::Pps => SolutionType::Pps,
        FixKind::Rtk => SolutionType::RtkFixed,
        FixKind::FloatRtk => SolutionType::RtkFloat,
        FixKind::Estimated => SolutionType::Extrapolated,
        FixKind::Manual => SolutionType::Manual,
        FixKind::Simulation => SolutionType::Simulated,
    }
}

/// The solution type of a fix: a GPS fix is a 3D SPS solution, an estimated
/// one is extrapolated, and the others keep their names.
pub fn solution_type(fix: FixKind) -> (r: SolutionType)
    ensures
        r == solution_of(fix),
{
    match fix {
        FixKind::Invalid => SolutionType::Invalid,
        FixKind::Gps => SolutionType::Sps3D,
        FixKind::DGps => SolutionType::Differential,
        FixKind::Pps => SolutionType::Pps,
        FixKind::Rtk => SolutionType::RtkFixed,
        FixKind::FloatRtk => SolutionType::RtkFloat,
        FixKind::Estimated => SolutionType::Extrapolated,
        FixKind::Manual => SolutionType::Manual,
        FixKind::Simulation => SolutionType::Simulated,
    }
}

/// A constellation as the `nmea` parser reports it
/// (`nmea::sentences::GnssType`), as a plain value.
#[derive(Clone, Copy, Debug, PartialEq, Eq, Structural)]
pub enum ConstellationKind {
    Beidou,
    Galileo,
    Gps,
    Glonass,
    NavIC,
    Qzss,
}

/// The constellation of the client for one of the parser: NavIC and QZSS
/// are other constellations.
pub open spec fn gnss_of_constellation(c: ConstellationKind) -> Gnss {
    match c {
        ConstellationKind::Gps => Gnss::Gps,
        ConstellationKind::Glonass => Gnss::Glonass,
        ConstellationKind::Galileo => Gnss::Galileo,
        ConstellationKind::Beidou => Gnss::Beidou,
        _ => Gnss::Other,
    }
}

/// The constellation of the client for one of the parser.
pub fn gnss_of(c: ConstellationKind) -> (r: Gnss)
    ensures
        r == gnss_of_constellation(c),
{
    match c {
        ConstellationKind::Gps => Gnss::Gps,
        ConstellationKind::Glonass => Gnss::Glonass,
        ConstellationKind::Galileo => Gnss::Galileo,
        ConstellationKind::Beidou => Gnss::Beidou,
        _ => Gnss::Other,
    }
}

/// The kind of a sentence, as far as the client tells kinds apart.
#[derive(Clone, Copy, Debug, PartialEq, Eq, Structural)]
pub enum SentenceKind {
    Gga,
    Rmc,
    Gns,
    Gsa,
    Gsv,
    Gll,
    Gst,
    Vtg,
    Txt,
    /// Any other kind of sentence.
    Other,
}

/// Why a line was refused.
#[derive(Clone, Copy, Debug, PartialEq, Eq, Structural)]
pub enum ParseFailure {
    /// A sentence of a known kind that is not taken in.
    Unsupported(SentenceKind),
    /// Anything else: a bad checksum, a malformed or unknown sentence.
    Invalid,
}

/// What `nmea::parse_str` gives for a sentence: the kind of the data it
/// parsed (`Ok`), the kind of a sentence it recognised but cannot parse
/// (`Unsupported`), or that the sentence is not valid.
pub uninterp spec fn nmea_sentence_outcome(sentence: Seq<char>) -> Result<SentenceKind, ParseFailure>;

/// `nmea::parse_str`: parses one sentence on its own, with no state. Its
/// result, taken by kind, is given a name here. By the crate's source the
/// call does not panic: its sentence parsers fill fixed-size storage only
/// within their room.
#[verifier::external_body]
fn nmea_parse_str(sentence: &str) -> (r: Result<SentenceKind, ParseFailure>)
    ensures
        r == nmea_sentence_outcome(sentence@),
{
    let kind = |t: SentenceType| match t {
        SentenceType::GGA => SentenceKind::Gga, SentenceType::RMC => SentenceKind::Rmc,
        SentenceType::GNS => SentenceKind::Gns, SentenceType::GSA => SentenceKind::Gsa,
        SentenceType::GSV => SentenceKind::Gsv, SentenceType::GLL => SentenceKind::Gll,
        SentenceType::GST => SentenceKind::Gst, SentenceType::VTG => SentenceKind::Vtg,
        SentenceType::TXT => SentenceKind::Txt, _ => SentenceKind::Other,
    };
    match nmea::parse_str(sentence) {
        Ok(nmea::ParseResult::Unsupported(t)) => Err(ParseFailure::Unsupported(kind(t))),
        Ok(parsed) => Ok(kind(SentenceType::from(&parsed))),
        Err(_) => Err(ParseFailure::Invalid),
    }
}

/// Whether the shared parser (`nmea::Nmea`) takes in sentences of a kind:
/// GGA, RMC, GNS, GSA, GSV, GLL, VTG and TXT.
pub open spec fn is_taken_in(k: SentenceKind) -> bool {
    ||| k == SentenceKind::Gga
    ||| k == SentenceKind::Rmc
    ||| k == SentenceKind::Gns
    ||| k == SentenceKind::Gsa
    ||| k == SentenceKind::Gsv
    ||| k == SentenceKind::Gll
    ||| k == SentenceKind::Vtg
    ||| k == SentenceKind::Txt
}

/// What a sentence comes to once parsed: a parsed sentence of a kind that is
/// taken in keeps its kind; one of another kind is unsupported; a refusal
/// stays.
pub open spec fn sentence_outcome(parsed: Result<SentenceKind, ParseFailure>) -> Result<
    SentenceKind,
    ParseFailure,
> {
    match parsed {
        Ok(k) => if is_taken_in(k) {
            Ok(k)
        } else {
            Err(ParseFailure::Unsupported(k))
        },
        Err(e) => Err(e),
    }
}

/// What a sentence comes to, given what `nmea::parse_str` made of it.
pub fn outcome_of(parsed: Result<SentenceKind, ParseFailure>) -> (r: Result<SentenceKind, ParseFailure>)
    ensures
        r == sentence_outcome(parsed),
{
    match parsed {
        Ok(k) => match k {
            SentenceKind::Gga | SentenceKind::Rmc | SentenceKind::Gns | SentenceKind::Gsa
            | SentenceKind::Gsv | SentenceKind::Gll | SentenceKind::Vtg | SentenceKind::Txt => Ok(k),
            _ => Err(ParseFailure::Unsupported(k)),
        },
        Err(e) => Err(e),
    }
}

/// Whether a sentence kind carries navigation data that the client uses.
pub open spec fn is_gnss_kind(k: SentenceKind) -> bool {
    ||| k == SentenceKind::Gga
    ||| k == SentenceKind::Rmc
    ||| k == SentenceKind::Gns
    ||| k == SentenceKind::Gsa
    ||| k == SentenceKind::Gsv
    ||| k == SentenceKind::Gll
}

/// How a line is logged, given what the parser made of it.
pub open spec fn status_of(outcome: Result<SentenceKind, ParseFailure>) -> RawNmeaStatus {
    match outcome {
        Ok(k) => if is_gnss_kind(k) {
            RawNmeaStatus::Gnss
        } else {
            RawNmeaStatus::Other
        },
        Err(ParseFailure::Unsupported(k)) => if k == SentenceKind::Gst {
            RawNmeaStatus::Unimplemented
        } else {
            RawNmeaStatus::Other
        },
        Err(ParseFailure::Invalid) => RawNmeaStatus::Error,
    }
}

/// How a line is logged, given what the parser made of it: parsed GGA, RMC,
/// GNS, GSA, GSV and GLL sentences are GNSS data, GST sentences (which the
/// parser does not support) are not implemented yet, other parsed or known
/// sentences are other data, and the rest are errors.
pub fn classify(outcome: Result<SentenceKind, ParseFailure>) -> (r: RawNmeaStatus)
    ensures
        r == status_of(outcome),
{
    match outcome {
        Ok(k) => match k {
            SentenceKind::Gga | SentenceKind::Rmc | SentenceKind::Gns | SentenceKind::Gsa
            | SentenceKind::Gsv | SentenceKind::Gll => RawNmeaStatus::Gnss,
            _ => RawNmeaStatus::Other,
        },
        Err(ParseFailure::Unsupported(SentenceKind::Gst)) => RawNmeaStatus::Unimplemented,
        Err(ParseFailure::Unsupported(_)) => RawNmeaStatus::Other,
        Err(ParseFailure::Invalid) => RawNmeaStatus::Error,
    }
}

/// A line without its final carriage return and line feed, if it ends with
/// both.
pub open spec fn strip_crlf(line: Seq<char>) -> Seq<char> {
    if line.len() >= 2 && line[line.len() - 2] == '\r' && line[line.len() - 1] == '\n' {
        line.take(line.len() - 2)
    } else {
        line
    }
}

/// The sentence held by a line read from the source.
pub fn sentence_of_line(line: &str) -> (r: String)
    ensures
        r@ == strip_crlf(line@),
{
    let chars = crate::text::chars_of(line);
    let n = chars.len();
    if n >= 2 && chars[n - 2] == '\r' && chars[n - 1] == '\n' {
        let mut v: Vec<char> = Vec::new();
        let mut i: usize = 0;
        while i < n - 2
            invariant
                n == chars@.len(),
                n >= 2,
                i <= n - 2,
                v@ == chars@.take(i as int),
            decreases n - 2 - i,
        {
            v.push(chars[i]);
            assert(chars@.take(i + 1) == chars@.take(i as int).push(chars@[i as int]));
            i = i + 1;
        }
        crate::text::string_from_chars(v.as_slice())
    } else {
        string_of(line)
    }
}

/// What one line read from the source gives: the kind of the parsed
/// sentence, when it was parsed, and the line to log.
#[derive(Debug)]
pub struct LineEvents {
    pub message: Option<SentenceKind>,
    pub log: RawNmeaLog,
}

/// The kind of a parsed sentence.
pub open spec fn parsed_kind(outcome: Result<SentenceKind, ParseFailure>) -> Option<SentenceKind> {
    match outcome {
        Ok(k) => Some(k),
        Err(_) => None,
    }
}

/// What a sentence gives, given what `nmea::parse_str` made of it: the kind
/// of a sentence that is taken in, to announce, and the sentence to log
/// with its status.
pub fn line_events(sentence: String, parsed: Result<SentenceKind, ParseFailure>) -> (r: LineEvents)
    ensures
        r.log.sentence@ == sentence@,
        r.message == parsed_kind(sentence_outcome(parsed)),
        r.log.status == status_of(sentence_outcome(parsed)),
{
    let outcome = outcome_of(parsed);
    let message = match outcome {
        Ok(k) => Some(k),
        Err(_) => None,
    };
    let status = classify(outcome);
    LineEvents { message, log: RawNmeaLog { sentence, status } }
}

/// Handles one line read from the source: the trailing CR LF is removed, the
/// sentence is parsed, and the result says which message to announce (the
/// kind of a sentence that is taken in) and how to log the line.
pub fn process_line(line: &str) -> (r: LineEvents)
    ensures
        r.log.sentence@ == strip_crlf(line@),
        r.message == parsed_kind(sentence_outcome(nmea_sentence_outcome(strip_crlf(line@)))),
        r.log.status == status_of(sentence_outcome(nmea_sentence_outcome(strip_crlf(line@)))),
{
    let sentence = sentence_of_line(line);
    let parsed = nmea_parse_str(sentence.as_str());
    line_events(sentence, parsed)
}

/// How a line is announced and logged, by what the parser made of its
/// sentence: a parsed GGA, RMC, GNS, GSA, GSV or GLL sentence is announced
/// with its kind and logged as GNSS data; a parsed VTG or TXT sentence is
/// announced and logged as other data; a GST sentence is not announced and
/// is logged as not implemented; any other recognised sentence is not
/// announced and is logged as other data; an invalid line is not announced
/// and is logged as an error.
pub proof fn lemma_line_announcement_and_status(parsed: Result<SentenceKind, ParseFailure>)
    ensures
        forall|k: SentenceKind|
            (k == SentenceKind::Gga || k == SentenceKind::Rmc || k == SentenceKind::Gns || k
                == SentenceKind::Gsa || k == SentenceKind::Gsv || k == SentenceKind::Gll) && parsed
                == Ok::<SentenceKind, ParseFailure>(k) ==> parsed_kind(sentence_outcome(parsed))
                == Some(k) && status_of(sentence_outcome(parsed)) == RawNmeaStatus::Gnss,
        forall|k: SentenceKind|
            (k == SentenceKind::Vtg || k == SentenceKind::Txt) && parsed == Ok::<
                SentenceKind,
                ParseFailure,
            >(k) ==> parsed_kind(sentence_outcome(parsed)) == Some(k) && status_of(
                sentence_outcome(parsed),
            ) == RawNmeaStatus::Other,
        parsed == Ok::<SentenceKind, ParseFailure>(SentenceKind::Gst) || parsed == Err::<
            SentenceKind,
            ParseFailure,
        >(ParseFailure::Unsupported(SentenceKind::Gst)) ==> parsed_kind(sentence_outcome(parsed))
            is None && status_of(sentence_outcome(parsed)) == RawNmeaStatus::Unimplemented,
        forall|k: SentenceKind|
            k != SentenceKind::Gst && parsed == Err::<SentenceKind, ParseFailure>(
                ParseFailure::Unsupported(k),
            ) ==> parsed_kind(sentence_outcome(parsed)) is None && status_of(
                sentence_outcome(parsed),
            ) == RawNmeaStatus::Other,
        parsed == Ok::<SentenceKind, ParseFailure>(SentenceKind::Other) ==> parsed_kind(
            sentence_outcome(parsed),
        ) is None && status_of(sentence_outcome(parsed)) == RawNmeaStatus::Other,
        parsed == Err::<SentenceKind, ParseFailure>(ParseFailure::Invalid) ==> parsed_kind(
            sentence_outcome(parsed),
        ) is None && status_of(sentence_outcome(parsed)) == RawNmeaStatus::Error,
{
}

} // verus!
