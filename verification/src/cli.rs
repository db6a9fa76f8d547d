//! Command line of the client: the source of the NMEA data and its settings.
//!
//! Grammar (after the program name):
//!
//! ```text
//! nmeagc [-i|--interactive] [-H|--help] [-V|--version] <SOURCE>
//! SOURCE := (tcp|-t)    [-h|--host HOST] [-p|--port PORT] [--help]
//!         | (serial|-s) PATH [-b|--baudrate N] [--data-bits five|six|seven|eight]
//!                       [--parity none|odd|even] [--stop-bits one|two]
//!                       [--flow-control none|software|hardware] [--timeout MS] [-h|--help]
//!         | (file|-f)   PATH [-h|--help]
//!         | help ...
//! ```
//!
//! An option's value is given as the next argument (`--port 23000`, `-p 23000`),
//! after `=` (`--port=23000`, `-p=23000`), or glued to a short option
//! (`-p23000`). A value given as the next argument must not start with `-`,
//! except for `-` itself. Every option may be given once.
//!
//! The parser decides what a command line means, or which kind of error it
//! holds; the texts that the user then sees (help, version, error messages)
//! are rendered by clap in the program around the library.
use vstd::prelude::*;

use crate::text::{
    chars_eq, chars_of, parse_unsigned, parse_unsigned_chars, string_from_chars, string_of,
};

verus! {

/// Parsed command line.
#[derive(Debug)]
pub struct Cli {
    /// Execute the client in interactive setup mode.
    pub interactive: bool,
    /// Source and configuration of the NMEA data.
    pub source: DataSource,
}

/// Source of the NMEA data.
#[derive(Debug)]
pub enum DataSource {
    /// A TCP connection to a host.
    Tcp(TcpConfig),
    /// A serial port.
    Serial(SerialConfig),
    /// A file.
    File(FileConfig),
}

/// Settings of a TCP source.
#[derive(Debug)]
pub struct TcpConfig {
    /// Host name.
    pub host: String,
    /// Port number.
    pub port: u16,
}

/// Settings of a serial source.
#[derive(Debug)]
pub struct SerialConfig {
    /// Serial port path.
    pub serial_path: String,
    /// Baud rate.
    pub baudrate: u32,
    /// Number of data bits.
    pub data_bits: CliDataBits,
    /// Parity mode.
    pub parity: CliParity,
    /// Number of stop bits.
    pub stop_bits: CliStopBits,
    /// Flow control.
    pub flow_control: CliFlowControl,
    /// Read timeout in milliseconds.
    pub timeout: Option<u64>,
}

/// Settings of a file source.
#[derive(Debug)]
pub struct FileConfig {
    /// File path.
    pub path: String,
}

/// Number of data bits of a serial line.
#[derive(Clone, Copy, Debug, PartialEq, Eq, Structural)]
pub enum CliDataBits {
    Five,
    Six,
    Seven,
    Eight,
}

/// Parity of a serial line.
#[derive(Clone, Copy, Debug, PartialEq, Eq, Structural)]
pub enum CliParity {
    /// No parity bit (named `none` on the command line).
    NoParity,
    Odd,
    Even,
}

/// Number of stop bits of a serial line.
#[derive(Clone, Copy, Debug, PartialEq, Eq, Structural)]
pub enum CliStopBits {
    One,
    Two,
}

/// Flow control of a serial line.
#[derive(Clone, Copy, Debug, PartialEq, Eq, Structural)]
pub enum CliFlowControl {
    /// No flow control (named `none` on the command line).
    NoFlowControl,
    Software,
    Hardware,
}

/// Why a command line was not turned into a [`Cli`].
#[derive(Clone, Copy, Debug, PartialEq, Eq, Structural)]
pub enum CliErrorKind {
    /// Help was asked for.
    DisplayHelp,
    /// The version was asked for.
    DisplayVersion,
    /// No argument at all was given.
    DisplayHelpOnMissingArgumentOrSubcommand,
    /// Arguments were given but no source.
    MissingSubcommand,
    /// A word that names no source stands where the source is expected.
    InvalidSubcommand,
    /// An argument that the command does not know.
    UnknownArgument,
    /// An option without its value.
    ValueRequired,
    /// A value outside the list of possible values.
    InvalidValue,
    /// A number that does not parse or does not fit.
    ValueValidation,
    /// An option or flag given twice.
    ArgumentConflict,
    /// A required positional argument is missing.
    MissingRequiredArgument,
}

/// Error of [`Cli::try_parse_from`].
#[derive(Clone, Copy, Debug)]
pub struct CliError {
    pub kind: CliErrorKind,
}

impl CliError {
    pub fn kind(&self) -> (r: CliErrorKind)
        ensures
            r == self.kind,
    {
        self.kind
    }
}

// ---------------------------------------------------------------------------
// Model
// ---------------------------------------------------------------------------

/// A [`DataSource`] as plain values.
pub enum SourceView {
    Tcp { host: Seq<char>, port: u16 },
    Serial {
        path: Seq<char>,
        baudrate: u32,
        data_bits: CliDataBits,
        parity: CliParity,
        stop_bits: CliStopBits,
        flow_control: CliFlowControl,
        timeout: Option<u64>,
    },
    File { path: Seq<char> },
}

/// A [`Cli`] as plain values.
pub struct CliView {
    pub interactive: bool,
    pub source: SourceView,
}

impl View for DataSource {
    type V = SourceView;

    open spec fn view(&self) -> SourceView {
        match self {
            DataSource::Tcp(c) => SourceView::Tcp { host: c.host@, port: c.port },
            DataSource::Serial(c) => SourceView::Serial {
                path: c.serial_path@,
                baudrate: c.baudrate,
                data_bits: c.data_bits,
                parity: c.parity,
                stop_bits: c.stop_bits,
                flow_control: c.flow_control,
                timeout: c.timeout,
            },
            DataSource::File(c) => SourceView::File { path: c.path@ },
        }
    }
}

impl View for Cli {
    type V = CliView;

    open spec fn view(&self) -> CliView {
        CliView { interactive: self.interactive, source: self.source@ }
    }
}

/// The texts of the arguments.
pub open spec fn arg_views(args: Seq<&str>) -> Seq<Seq<char>> {
    args.map_values(|a: &str| a@)
}

/// The texts of the tokens.
pub open spec fn token_views(toks: Seq<Vec<char>>) -> Seq<Seq<char>> {
    toks.map_values(|t: Vec<char>| t@)
}

/// `--` followed by `name`.
pub open spec fn dashdash(name: Seq<char>) -> Seq<char> {
    seq!['-', '-'] + name
}

/// Whether a token can be an option's value or a positional argument:
/// it is empty, does not start with `-`, or is `-` itself.
pub open spec fn is_value_token(t: Seq<char>) -> bool {
    t.len() == 0 || t[0] != '-' || t.len() == 1
}

/// `t` as the short option `-c`: `Some(None)` for `-c` alone, `Some(Some(v))`
/// for `-cv` or `-c=v`, `None` for another token.
pub open spec fn short_form(t: Seq<char>, c: char) -> Option<Option<Seq<char>>> {
    if t.len() >= 2 && t[0] == '-' && t[1] == c && c != '-' {
        if t.len() == 2 {
            Some(None)
        } else if t[2] == '=' {
            Some(Some(t.skip(3)))
        } else {
            Some(Some(t.skip(2)))
        }
    } else {
        None
    }
}

/// `t` as the long option `--name`: `Some(None)` for `--name` alone,
/// `Some(Some(v))` for `--name=v`, `None` for another token.
pub open spec fn long_form(t: Seq<char>, name: Seq<char>) -> Option<Option<Seq<char>>> {
    let p = dashdash(name);
    if t == p {
        Some(None)
    } else if t.len() > p.len() && t.take(p.len() as int) == p && t[p.len() as int] == '=' {
        Some(Some(t.skip(p.len() + 1int)))
    } else {
        None
    }
}

/// `t` as an option with a value, named by an optional short letter and a
/// long name.
pub open spec fn option_form(t: Seq<char>, short: Option<char>, long: Seq<char>) -> Option<
    Option<Seq<char>>,
> {
    match short {
        Some(c) => match short_form(t, c) {
            Some(x) => Some(x),
            None => long_form(t, long),
        },
        None => long_form(t, long),
    }
}

/// What the token at `i` gives for an option with a value.
pub enum OptStep {
    /// The token is not this option.
    NotThis,
    /// The option has no value.
    Missing,
    /// The option's value, and whether it was the next token.
    Found(Seq<char>, bool),
}

pub open spec fn option_step(toks: Seq<Seq<char>>, i: int, short: Option<char>, long: Seq<char>) -> OptStep
    recommends
        0 <= i < toks.len(),
{
    match option_form(toks[i], short, long) {
        None => OptStep::NotThis,
        Some(Some(v)) => OptStep::Found(v, false),
        Some(None) => if i + 1 < toks.len() && is_value_token(toks[i + 1]) {
            OptStep::Found(toks[i + 1], true)
        } else {
            OptStep::Missing
        },
    }
}

/// Index of the token after an option whose value was found.
pub open spec fn after(i: int, two: bool) -> int {
    if two {
        i + 2
    } else {
        i + 1
    }
}

/// Default host of a TCP source.
pub open spec fn default_host() -> Seq<char> {
    "127.0.0.1"@
}

/// Default port of a TCP source.
pub open spec fn default_port() -> u16 {
    23000
}

/// Default baud rate of a serial source.
pub open spec fn default_baudrate() -> u32 {
    9600
}

/// Options of a TCP source read so far.
pub struct TcpAcc {
    pub host: Option<Seq<char>>,
    pub port: Option<u16>,
}

/// The TCP source given by the tokens from `i` on, after `acc`.
pub open spec fn parse_tcp(toks: Seq<Seq<char>>, i: int, acc: TcpAcc) -> Result<SourceView, CliErrorKind>
    decreases toks.len() - i,
{
    if i >= toks.len() || i < 0 {
        Ok(
            SourceView::Tcp {
                host: match acc.host {
                    Some(h) => h,
                    None => default_host(),
                },
                port: match acc.port {
                    Some(p) => p,
                    None => default_port(),
                },
            },
        )
    } else if toks[i] == "--help"@ {
        Err(CliErrorKind::DisplayHelp)
    } else {
        match option_step(toks, i, Some('h'), "host"@) {
            OptStep::Found(v, two) => if acc.host is Some {
                Err(CliErrorKind::ArgumentConflict)
            } else {
                parse_tcp(toks, after(i, two), TcpAcc { host: Some(v), ..acc })
            },
            OptStep::Missing => Err(CliErrorKind::ValueRequired),
            OptStep::NotThis => match option_step(toks, i, Some('p'), "port"@) {
                OptStep::Found(v, two) => if acc.port is Some {
                    Err(CliErrorKind::ArgumentConflict)
                } else {
                    match parse_unsigned(v, 65535) {
                        Some(n) => parse_tcp(toks, after(i, two), TcpAcc { port: Some(n as u16), ..acc }),
                        None => Err(CliErrorKind::ValueValidation),
                    }
                },
                OptStep::Missing => Err(CliErrorKind::ValueRequired),
                OptStep::NotThis => Err(CliErrorKind::UnknownArgument),
            },
        }
    }
}

/// The number of data bits named by `v`.
pub open spec fn data_bits_named(v: Seq<char>) -> Option<CliDataBits> {
    if v == "five"@ {
        Some(CliDataBits::Five)
    } else if v == "six"@ {
        Some(CliDataBits::Six)
    } else if v == "seven"@ {
        Some(CliDataBits::Seven)
    } else if v == "eight"@ {
        Some(CliDataBits::Eight)
    } else {
        None
    }
}

/// The parity named by `v`.
pub open spec fn parity_named(v: Seq<char>) -> Option<CliParity> {
    if v == "none"@ {
        Some(CliParity::NoParity)
    } else if v == "odd"@ {
        Some(CliParity::Odd)
    } else if v == "even"@ {
        Some(CliParity::Even)
    } else {
        None
    }
}

/// The number of stop bits named by `v`.
pub open spec fn stop_bits_named(v: Seq<char>) -> Option<CliStopBits> {
    if v == "one"@ {
        Some(CliStopBits::One)
    } else if v == "two"@ {
        Some(CliStopBits::Two)
    } else {
        None
    }
}

/// The flow control named by `v`.
pub open spec fn flow_control_named(v: Seq<char>) -> Option<CliFlowControl> {
    if v == "none"@ {
        Some(CliFlowControl::NoFlowControl)
    } else if v == "software"@ {
        Some(CliFlowControl::Software)
    } else if v == "hardware"@ {
        Some(CliFlowControl::Hardware)
    } else {
        None
    }
}

/// Arguments of a serial source read so far.
pub struct SerialAcc {
    pub path: Option<Seq<char>>,
    pub baudrate: Option<u32>,
    pub data_bits: Option<CliDataBits>,
    pub parity: Option<CliParity>,
    pub stop_bits: Option<CliStopBits>,
    pub flow_control: Option<CliFlowControl>,
    pub timeout: Option<u64>,
}

/// The serial source when every token was read.
pub open spec fn serial_result(acc: SerialAcc) -> Result<SourceView, CliErrorKind> {
    match acc.path {
        None => Err(CliErrorKind::MissingRequiredArgument),
        Some(path) => Ok(
            SourceView::Serial {
                path,
                baudrate: match acc.baudrate {
                    Some(b) => b,
                    None => default_baudrate(),
                },
                data_bits: match acc.data_bits {
                    Some(b) => b,
                    None => CliDataBits::Eight,
                },
                parity: match acc.parity {
                    Some(p) => p,
                    None => CliParity::NoParity,
                },
                stop_bits: match acc.stop_bits {
                    Some(s) => s,
                    None => CliStopBits::One,
                },
                flow_control: match acc.flow_control {
                    Some(f) => f,
                    None => CliFlowControl::NoFlowControl,
                },
                timeout: acc.timeout,
            },
        ),
    }
}

/// The serial source given by the tokens from `i` on, after `acc`.
pub open spec fn parse_serial(toks: Seq<Seq<char>>, i: int, acc: SerialAcc) -> Result<
    SourceView,
    CliErrorKind,
>
    decreases toks.len() - i,
{
    if i >= toks.len() || i < 0 {
        serial_result(acc)
    } else if toks[i] == "-h"@ || toks[i] == "--help"@ {
        Err(CliErrorKind::DisplayHelp)
    } else {
        match option_step(toks, i, Some('b'), "baudrate"@) {
            OptStep::Found(v, two) => if acc.baudrate is Some {
                Err(CliErrorKind::ArgumentConflict)
            } else {
                match parse_unsigned(v, 4294967295) {
                    Some(n) => parse_serial(toks, after(i, two), SerialAcc { baudrate: Some(n as u32), ..acc }),
                    None => Err(CliErrorKind::ValueValidation),
                }
            },
            OptStep::Missing => Err(CliErrorKind::ValueRequired),
            OptStep::NotThis => match option_step(toks, i, None, "data-bits"@) {
                OptStep::Found(v, two) => if acc.data_bits is Some {
                    Err(CliErrorKind::ArgumentConflict)
                } else {
                    match data_bits_named(v) {
                        Some(b) => parse_serial(toks, after(i, two), SerialAcc { data_bits: Some(b), ..acc }),
                        None => Err(CliErrorKind::InvalidValue),
                    }
                },
                OptStep::Missing => Err(CliErrorKind::ValueRequired),
                OptStep::NotThis => match option_step(toks, i, None, "parity"@) {
                    OptStep::Found(v, two) => if acc.parity is Some {
                        Err(CliErrorKind::ArgumentConflict)
                    } else {
                        match parity_named(v) {
                            Some(p) => parse_serial(toks, after(i, two), SerialAcc { parity: Some(p), ..acc }),
                            None => Err(CliErrorKind::InvalidValue),
                        }
                    },
                    OptStep::Missing => Err(CliErrorKind::ValueRequired),
                    OptStep::NotThis => parse_serial_rest(toks, i, acc),
                },
            },
        }
    }
}

/// The serial source when the token at `i` is none of help, `--baudrate`,
/// `--data-bits` or `--parity`.
pub open spec fn parse_serial_rest(toks: Seq<Seq<char>>, i: int, acc: SerialAcc) -> Result<
    SourceView,
    CliErrorKind,
>
    decreases toks.len() - i, 0nat,
{
    if i >= toks.len() || i < 0 {
        serial_result(acc)
    } else {
        match option_step(toks, i, None, "stop-bits"@) {
            OptStep::Found(v, two) => if acc.stop_bits is Some {
                Err(CliErrorKind::ArgumentConflict)
            } else {
                match stop_bits_named(v) {
                    Some(s) => parse_serial(toks, after(i, two), SerialAcc { stop_bits: Some(s), ..acc }),
                    None => Err(CliErrorKind::InvalidValue),
                }
            },
            OptStep::Missing => Err(CliErrorKind::ValueRequired),
            OptStep::NotThis => match option_step(toks, i, None, "flow-control"@) {
                OptStep::Found(v, two) => if acc.flow_control is Some {
                    Err(CliErrorKind::ArgumentConflict)
                } else {
                    match flow_control_named(v) {
                        Some(f) => parse_serial(toks, after(i, two), SerialAcc { flow_control: Some(f), ..acc }),
                        None => Err(CliErrorKind::InvalidValue),
                    }
                },
                OptStep::Missing => Err(CliErrorKind::ValueRequired),
                OptStep::NotThis => match option_step(toks, i, None, "timeout"@) {
                    OptStep::Found(v, two) => if acc.timeout is Some {
                        Err(CliErrorKind::ArgumentConflict)
                    } else {
                        match parse_unsigned(v, 18446744073709551615) {
                            Some(n) => parse_serial(toks, after(i, two), SerialAcc { timeout: Some(n as u64), ..acc }),
                            None => Err(CliErrorKind::ValueValidation),
                        }
                    },
                    OptStep::Missing => Err(CliErrorKind::ValueRequired),
                    OptStep::NotThis => if is_value_token(toks[i]) && acc.path is None {
                        parse_serial(toks, i + 1, SerialAcc { path: Some(toks[i]), ..acc })
                    } else {
                        Err(CliErrorKind::UnknownArgument)
                    },
                },
            },
        }
    }
}

/// The file source given by the tokens from `i` on, after the path read so
/// far.
pub open spec fn parse_file(toks: Seq<Seq<char>>, i: int, path: Option<Seq<char>>) -> Result<
    SourceView,
    CliErrorKind,
>
    decreases toks.len() - i,
{
    if i >= toks.len() || i < 0 {
        match path {
            Some(p) => Ok(SourceView::File { path: p }),
            None => Err(CliErrorKind::MissingRequiredArgument),
        }
    } else if toks[i] == "-h"@ || toks[i] == "--help"@ {
        Err(CliErrorKind::DisplayHelp)
    } else if is_value_token(toks[i]) && path is None {
        parse_file(toks, i + 1, Some(toks[i]))
    } else {
        Err(CliErrorKind::UnknownArgument)
    }
}

/// The source given by the tokens from `i` on, with `interactive` set by
/// what came before.
pub open spec fn parse_top(toks: Seq<Seq<char>>, i: int, interactive: bool) -> Result<
    CliView,
    CliErrorKind,
>
    decreases toks.len() - i,
{
    if i >= toks.len() || i < 0 {
        if toks.len() == 0 {
            Err(CliErrorKind::DisplayHelpOnMissingArgumentOrSubcommand)
        } else {
            Err(CliErrorKind::MissingSubcommand)
        }
    } else {
        let t = toks[i];
        if t == "-i"@ || t == "--interactive"@ {
            if interactive {
                Err(CliErrorKind::ArgumentConflict)
            } else {
                parse_top(toks, i + 1, true)
            }
        } else if t == "-H"@ || t == "--help"@ || t == "help"@ {
            Err(CliErrorKind::DisplayHelp)
        } else if t == "-V"@ || t == "--version"@ {
            Err(CliErrorKind::DisplayVersion)
        } else if t == "tcp"@ || t == "-t"@ {
            with_interactive(interactive, parse_tcp(toks, i + 1, TcpAcc { host: None, port: None }))
        } else if t == "serial"@ || t == "-s"@ {
            with_interactive(interactive, parse_serial(toks, i + 1, empty_serial_acc()))
        } else if t == "file"@ || t == "-f"@ {
            with_interactive(interactive, parse_file(toks, i + 1, None))
        } else if is_value_token(t) {
            Err(CliErrorKind::InvalidSubcommand)
        } else {
            Err(CliErrorKind::UnknownArgument)
        }
    }
}

/// Nothing read yet for a serial source.
pub open spec fn empty_serial_acc() -> SerialAcc {
    SerialAcc {
        path: None,
        baudrate: None,
        data_bits: None,
        parity: None,
        stop_bits: None,
        flow_control: None,
        timeout: None,
    }
}

/// A parsed source with the interactive flag.
pub open spec fn with_interactive(interactive: bool, r: Result<SourceView, CliErrorKind>) -> Result<
    CliView,
    CliErrorKind,
> {
    match r {
        Ok(s) => Ok(CliView { interactive, source: s }),
        Err(e) => Err(e),
    }
}

/// The command line given by `args`, whose first item is the program name.
pub open spec fn parse_cli(args: Seq<Seq<char>>) -> Result<CliView, CliErrorKind> {
    let toks = if args.len() > 0 {
        args.skip(1)
    } else {
        args
    };
    parse_top(toks, 0, false)
}

// ---------------------------------------------------------------------------
// Parser
// ---------------------------------------------------------------------------

/// What the token at `i` gives for an option with a value.
enum OptStepExec {
    NotThis,
    Missing,
    Found(Vec<char>, bool),
}

impl OptStepExec {
    spec fn matches(self, o: OptStep) -> bool {
        match (self, o) {
            (OptStepExec::NotThis, OptStep::NotThis) => true,
            (OptStepExec::Missing, OptStep::Missing) => true,
            (OptStepExec::Found(v, a), OptStep::Found(w, b)) => v@ == w && a == b,
            _ => false,
        }
    }
}

/// Whether `t` holds exactly the characters of `lit`.
fn is_lit(t: &Vec<char>, lit: &str) -> (r: bool)
    ensures
        r == (t@ == lit@),
{
    let l = chars_of(lit);
    chars_eq(t.as_slice(), l.as_slice())
}

/// The characters of `t` from `start` on.
fn skip_chars(t: &Vec<char>, start: usize) -> (r: Vec<char>)
    requires
        start <= t@.len(),
    ensures
        r@ == t@.skip(start as int),
{
    let mut r: Vec<char> = Vec::new();
    let mut i = start;
    while i < t.len()
        invariant
            start <= i <= t@.len(),
            r@ == t@.subrange(start as int, i as int),
        decreases t@.len() - i,
    {
        r.push(t[i]);
        assert(t@.subrange(start as int, i + 1) == t@.subrange(start as int, i as int).push(
            t@[i as int],
        ));
        i = i + 1;
    }
    r
}

fn value_token(t: &Vec<char>) -> (r: bool)
    ensures
        r == is_value_token(t@),
{
    t.len() == 0 || t[0] != '-' || t.len() == 1
}

fn short_form_exec(t: &Vec<char>, c: char) -> (r: Option<Option<Vec<char>>>)
    ensures
        match (r, short_form(t@, c)) {
            (None, None) => true,
            (Some(None), Some(None)) => true,
            (Some(Some(v)), Some(Some(w))) => v@ == w,
            _ => false,
        },
{
    if t.len() >= 2 && t[0] == '-' && t[1] == c && c != '-' {
        if t.len() == 2 {
            Some(None)
        } else if t[2] == '=' {
            Some(Some(skip_chars(t, 3)))
        } else {
            Some(Some(skip_chars(t, 2)))
        }
    } else {
        None
    }
}

fn long_form_exec(t: &Vec<char>, name: &str) -> (r: Option<Option<Vec<char>>>)
    ensures
        match (r, long_form(t@, name@)) {
            (None, None) => true,
            (Some(None), Some(None)) => true,
            (Some(Some(v)), Some(Some(w))) => v@ == w,
            _ => false,
        },
{
    let n = chars_of(name);
    let mut p: Vec<char> = Vec::new();
    p.push('-');
    p.push('-');
    let mut i: usize = 0;
    while i < n.len()
        invariant
            i <= n@.len(),
            p@ == seq!['-', '-'] + n@.take(i as int),
        decreases n@.len() - i,
    {
        p.push(n[i]);
        assert(n@.take(i + 1) == n@.take(i as int).push(n@[i as int]));
        i = i + 1;
    }
    assert(n@.take(n@.len() as int) == n@);
    assert(p@ == dashdash(name@));
    if chars_eq(t.as_slice(), p.as_slice()) {
        return Some(None);
    }
    if t.len() > p.len() && t[p.len()] == '=' {
        let mut j: usize = 0;
        while j < p.len()
            invariant
                j <= p@.len() < t@.len(),
                forall|k: int| 0 <= k < j ==> t@[k] == p@[k],
                t@ != p@,
                p@ == dashdash(name@),
                t@[p@.len() as int] == '=',
            decreases p@.len() - j,
        {
            if t[j] != p[j] {
                assert(t@.take(p@.len() as int)[j as int] != p@[j as int]);
                return None;
            }
            j = j + 1;
        }
        assert(t@.take(p@.len() as int) =~= p@);
        return Some(Some(skip_chars(t, p.len() + 1)));
    }
    None
}

fn option_form_exec(t: &Vec<char>, short: Option<char>, long: &str) -> (r: Option<Option<Vec<char>>>)
    ensures
        match (r, option_form(t@, short, long@)) {
            (None, None) => true,
            (Some(None), Some(None)) => true,
            (Some(Some(v)), Some(Some(w))) => v@ == w,
            _ => false,
        },
{
    match short {
        Some(c) => match short_form_exec(t, c) {
            Some(x) => Some(x),
            None => long_form_exec(t, long),
        },
        None => long_form_exec(t, long),
    }
}

fn option_step_exec(toks: &Vec<Vec<char>>, i: usize, short: Option<char>, long: &str) -> (r: OptStepExec)
    requires
        i < toks@.len(),
    ensures
        r.matches(option_step(token_views(toks@), i as int, short, long@)),
{
    let ghost tv = token_views(toks@);
    assert(tv[i as int] == toks@[i as int]@);
    match option_form_exec(&toks[i], short, long) {
        None => OptStepExec::NotThis,
        Some(Some(v)) => OptStepExec::Found(v, false),
        Some(None) => {
            if i < toks.len() - 1 && value_token(&toks[i + 1]) {
                assert(tv[i + 1] == toks@[i + 1]@);
                OptStepExec::Found(toks[i + 1].clone(), true)
            } else {
                proof {
                    if i + 1 < toks@.len() {
                        assert(tv[i + 1] == toks@[i + 1]@);
                    }
                }
                OptStepExec::Missing
            }
        },
    }
}

fn parse_data_bits(v: &Vec<char>) -> (r: Option<CliDataBits>)
    ensures
        r == data_bits_named(v@),
{
    if is_lit(v, "five") {
        Some(CliDataBits::Five)
    } else if is_lit(v, "six") {
        Some(CliDataBits::Six)
    } else if is_lit(v, "seven") {
        Some(CliDataBits::Seven)
    } else if is_lit(v, "eight") {
        Some(CliDataBits::Eight)
    } else {
        None
    }
}

fn parse_parity(v: &Vec<char>) -> (r: Option<CliParity>)
    ensures
        r == parity_named(v@),
{
    if is_lit(v, "none") {
        Some(CliParity::NoParity)
    } else if is_lit(v, "odd") {
        Some(CliParity::Odd)
    } else if is_lit(v, "even") {
        Some(CliParity::Even)
    } else {
        None
    }
}

fn parse_stop_bits(v: &Vec<char>) -> (r: Option<CliStopBits>)
    ensures
        r == stop_bits_named(v@),
{
    if is_lit(v, "one") {
        Some(CliStopBits::One)
    } else if is_lit(v, "two") {
        Some(CliStopBits::Two)
    } else {
        None
    }
}

fn parse_flow_control(v: &Vec<char>) -> (r: Option<CliFlowControl>)
    ensures
        r == flow_control_named(v@),
{
    if is_lit(v, "none") {
        Some(CliFlowControl::NoFlowControl)
    } else if is_lit(v, "software") {
        Some(CliFlowControl::Software)
    } else if is_lit(v, "hardware") {
        Some(CliFlowControl::Hardware)
    } else {
        None
    }
}

/// Whether the exec result `r` is the model result `m`.
pub open spec fn source_result_is(r: Result<DataSource, CliErrorKind>, m: Result<SourceView, CliErrorKind>) -> bool {
    match (r, m) {
        (Ok(s), Ok(v)) => s@ == v,
        (Err(e), Err(k)) => e == k,
        _ => false,
    }
}

/// The text held by an optional character vector.
pub open spec fn opt_seq(o: Option<Vec<char>>) -> Option<Seq<char>> {
    match o {
        Some(v) => Some(v@),
        None => None,
    }
}

fn parse_tcp_exec(toks: &Vec<Vec<char>>, start: usize) -> (r: Result<DataSource, CliErrorKind>)
    requires
        start <= toks@.len(),
    ensures
        source_result_is(r, parse_tcp(token_views(toks@), start as int, TcpAcc { host: None, port: None })),
{
    let ghost tv = token_views(toks@);
    let mut host: Option<Vec<char>> = None;
    let mut port: Option<u16> = None;
    let mut i = start;
    while i < toks.len()
        invariant
            start <= i <= toks@.len(),
            tv == token_views(toks@),
            parse_tcp(tv, start as int, TcpAcc { host: None, port: None }) == parse_tcp(
                tv,
                i as int,
                TcpAcc { host: opt_seq(host), port },
            ),
        decreases toks@.len() - i,
    {
        assert(tv[i as int] == toks@[i as int]@);
        if is_lit(&toks[i], "--help") {
            return Err(CliErrorKind::DisplayHelp);
        }
        match option_step_exec(toks, i, Some('h'), "host") {
            OptStepExec::Found(v, two) => {
                if host.is_some() {
                    return Err(CliErrorKind::ArgumentConflict);
                }
                host = Some(v);
                i = if two {
                    i + 2
                } else {
                    i + 1
                };
            },
            OptStepExec::Missing => {
                return Err(CliErrorKind::ValueRequired);
            },
            OptStepExec::NotThis => {
                match option_step_exec(toks, i, Some('p'), "port") {
                    OptStepExec::Found(v, two) => {
                        if port.is_some() {
                            return Err(CliErrorKind::ArgumentConflict);
                        }
                        match parse_unsigned_chars(v.as_slice(), 65535) {
                            Some(n) => {
                                port = Some(n as u16);
                            },
                            None => {
                                return Err(CliErrorKind::ValueValidation);
                            },
                        }
                        i = if two {
                            i + 2
                        } else {
                            i + 1
                        };
                    },
                    OptStepExec::Missing => {
                        return Err(CliErrorKind::ValueRequired);
                    },
                    OptStepExec::NotThis => {
                        return Err(CliErrorKind::UnknownArgument);
                    },
                }
            },
        }
    }
    let h = match host {
        Some(h) => string_from_chars(h.as_slice()),
        None => string_of("127.0.0.1"),
    };
    let p = match port {
        Some(p) => p,
        None => 23000,
    };
    Ok(DataSource::Tcp(TcpConfig { host: h, port: p }))
}


/// The serial arguments read so far, as plain values.
pub open spec fn serial_acc_of(
    path: Option<Vec<char>>,
    baudrate: Option<u32>,
    data_bits: Option<CliDataBits>,
    parity: Option<CliParity>,
    stop_bits: Option<CliStopBits>,
    flow_control: Option<CliFlowControl>,
    timeout: Option<u64>,
) -> SerialAcc {
    SerialAcc { path: opt_seq(path), baudrate, data_bits, parity, stop_bits, flow_control, timeout }
}

fn parse_serial_exec(toks: &Vec<Vec<char>>, start: usize) -> (r: Result<DataSource, CliErrorKind>)
    requires
        start <= toks@.len(),
    ensures
        source_result_is(r, parse_serial(token_views(toks@), start as int, empty_serial_acc())),
{
    let ghost tv = token_views(toks@);
    let mut path: Option<Vec<char>> = None;
    let mut baudrate: Option<u32> = None;
    let mut data_bits: Option<CliDataBits> = None;
    let mut parity: Option<CliParity> = None;
    let mut stop_bits: Option<CliStopBits> = None;
    let mut flow_control: Option<CliFlowControl> = None;
    let mut timeout: Option<u64> = None;
    let mut i = start;
    while i < toks.len()
        invariant
            start <= i <= toks@.len(),
            tv == token_views(toks@),
            parse_serial(tv, start as int, empty_serial_acc()) == parse_serial(
                tv,
                i as int,
                serial_acc_of(path, baudrate, data_bits, parity, stop_bits, flow_control, timeout),
            ),
        decreases toks@.len() - i,
    {
        assert(tv[i as int] == toks@[i as int]@);
        let ghost acc = serial_acc_of(path, baudrate, data_bits, parity, stop_bits, flow_control, timeout);
        if is_lit(&toks[i], "-h") || is_lit(&toks[i], "--help") {
            return Err(CliErrorKind::DisplayHelp);
        }
        let next: usize;
        match option_step_exec(toks, i, Some('b'), "baudrate") {
            OptStepExec::Found(v, two) => {
                if baudrate.is_some() {
                    return Err(CliErrorKind::ArgumentConflict);
                }
                match parse_unsigned_chars(v.as_slice(), 4294967295) {
                    Some(n) => baudrate = Some(n as u32),
                    None => return Err(CliErrorKind::ValueValidation),
                }
                next = if two { i + 2 } else { i + 1 };
            },
            OptStepExec::Missing => return Err(CliErrorKind::ValueRequired),
            OptStepExec::NotThis => match option_step_exec(toks, i, None, "data-bits") {
                OptStepExec::Found(v, two) => {
                    if data_bits.is_some() {
                        return Err(CliErrorKind::ArgumentConflict);
                    }
                    match parse_data_bits(&v) {
                        Some(b) => data_bits = Some(b),
                        None => return Err(CliErrorKind::InvalidValue),
                    }
                    next = if two { i + 2 } else { i + 1 };
                },
                OptStepExec::Missing => return Err(CliErrorKind::ValueRequired),
                OptStepExec::NotThis => match option_step_exec(toks, i, None, "parity") {
                    OptStepExec::Found(v, two) => {
                        if parity.is_some() {
                            return Err(CliErrorKind::ArgumentConflict);
                        }
                        match parse_parity(&v) {
                            Some(p) => parity = Some(p),
                            None => return Err(CliErrorKind::InvalidValue),
                        }
                        next = if two { i + 2 } else { i + 1 };
                    },
                    OptStepExec::Missing => return Err(CliErrorKind::ValueRequired),
                    OptStepExec::NotThis => {
                        assert(parse_serial(tv, i as int, acc) == parse_serial_rest(tv, i as int, acc));
                        match option_step_exec(toks, i, None, "stop-bits") {
                        OptStepExec::Found(v, two) => {
                            if stop_bits.is_some() {
                                return Err(CliErrorKind::ArgumentConflict);
                            }
                            match parse_stop_bits(&v) {
                                Some(b) => stop_bits = Some(b),
                                None => return Err(CliErrorKind::InvalidValue),
                            }
                            next = if two { i + 2 } else { i + 1 };
                        },
                        OptStepExec::Missing => return Err(CliErrorKind::ValueRequired),
                        OptStepExec::NotThis => match option_step_exec(toks, i, None, "flow-control") {
                            OptStepExec::Found(v, two) => {
                                if flow_control.is_some() {
                                    return Err(CliErrorKind::ArgumentConflict);
                                }
                                match parse_flow_control(&v) {
                                    Some(f) => flow_control = Some(f),
                                    None => return Err(CliErrorKind::InvalidValue),
                                }
                                next = if two { i + 2 } else { i + 1 };
                            },
                            OptStepExec::Missing => return Err(CliErrorKind::ValueRequired),
                            OptStepExec::NotThis => match option_step_exec(toks, i, None, "timeout") {
                                OptStepExec::Found(v, two) => {
                                    if timeout.is_some() {
                                        return Err(CliErrorKind::ArgumentConflict);
                                    }
                                    match parse_unsigned_chars(v.as_slice(), 18446744073709551615) {
                                        Some(n) => timeout = Some(n),
                                        None => return Err(CliErrorKind::ValueValidation),
                                    }
                                    next = if two { i + 2 } else { i + 1 };
                                },
                                OptStepExec::Missing => return Err(CliErrorKind::ValueRequired),
                                OptStepExec::NotThis => {
                                    if value_token(&toks[i]) && path.is_none() {
                                        path = Some(toks[i].clone());
                                        next = i + 1;
                                    } else {
                                        return Err(CliErrorKind::UnknownArgument);
                                    }
                                },
                            },
                        },
                    }},
                },
            },
        }
        i = next;
    }
    let p = match path {
        Some(p) => string_from_chars(p.as_slice()),
        None => return Err(CliErrorKind::MissingRequiredArgument),
    };
    Ok(
        DataSource::Serial(
            SerialConfig {
                serial_path: p,
                baudrate: match baudrate {
                    Some(b) => b,
                    None => 9600,
                },
                data_bits: match data_bits {
                    Some(b) => b,
                    None => CliDataBits::Eight,
                },
                parity: match parity {
                    Some(x) => x,
                    None => CliParity::NoParity,
                },
                stop_bits: match stop_bits {
                    Some(x) => x,
                    None => CliStopBits::One,
                },
                flow_control: match flow_control {
                    Some(x) => x,
                    None => CliFlowControl::NoFlowControl,
                },
                timeout,
            },
        ),
    )
}

fn parse_file_exec(toks: &Vec<Vec<char>>, start: usize) -> (r: Result<DataSource, CliErrorKind>)
    requires
        start <= toks@.len(),
    ensures
        source_result_is(r, parse_file(token_views(toks@), start as int, None)),
{
    let ghost tv = token_views(toks@);
    let mut path: Option<Vec<char>> = None;
    let mut i = start;
    while i < toks.len()
        invariant
            start <= i <= toks@.len(),
            tv == token_views(toks@),
            parse_file(tv, start as int, None) == parse_file(tv, i as int, opt_seq(path)),
        decreases toks@.len() - i,
    {
        assert(tv[i as int] == toks@[i as int]@);
        if is_lit(&toks[i], "-h") || is_lit(&toks[i], "--help") {
            return Err(CliErrorKind::DisplayHelp);
        }
        if value_token(&toks[i]) && path.is_none() {
            path = Some(toks[i].clone());
        } else {
            return Err(CliErrorKind::UnknownArgument);
        }
        i = i + 1;
    }
    match path {
        Some(p) => Ok(DataSource::File(FileConfig { path: string_from_chars(p.as_slice()) })),
        None => Err(CliErrorKind::MissingRequiredArgument),
    }
}

/// What a token before the source stands for.
enum TopToken {
    Interactive,
    Help,
    Version,
    Tcp,
    Serial,
    File,
    Word,
    Unknown,
}

fn top_token_kind(t: &Vec<char>) -> (r: TopToken)
    ensures
        (r is Interactive) == (t@ == "-i"@ || t@ == "--interactive"@),
        (r is Help) == (!(r is Interactive) && (t@ == "-H"@ || t@ == "--help"@ || t@ == "help"@)),
        (r is Version) == (!(r is Interactive) && !(r is Help) && (t@ == "-V"@ || t@ == "--version"@)),
        (r is Tcp) == (!(r is Interactive) && !(r is Help) && !(r is Version) && (t@ == "tcp"@
            || t@ == "-t"@)),
        (r is Serial) == (!(r is Interactive) && !(r is Help) && !(r is Version) && !(r is Tcp) && (
        t@ == "serial"@ || t@ == "-s"@)),
        (r is File) == (!(r is Interactive) && !(r is Help) && !(r is Version) && !(r is Tcp) && !(
        r is Serial) && (t@ == "file"@ || t@ == "-f"@)),
        (r is Word) == (!(r is Interactive) && !(r is Help) && !(r is Version) && !(r is Tcp) && !(
        r is Serial) && !(r is File) && is_value_token(t@)),
{
    if is_lit(t, "-i") || is_lit(t, "--interactive") {
        TopToken::Interactive
    } else if is_lit(t, "-H") || is_lit(t, "--help") || is_lit(t, "help") {
        TopToken::Help
    } else if is_lit(t, "-V") || is_lit(t, "--version") {
        TopToken::Version
    } else if is_lit(t, "tcp") || is_lit(t, "-t") {
        TopToken::Tcp
    } else if is_lit(t, "serial") || is_lit(t, "-s") {
        TopToken::Serial
    } else if is_lit(t, "file") || is_lit(t, "-f") {
        TopToken::File
    } else if value_token(t) {
        TopToken::Word
    } else {
        TopToken::Unknown
    }
}

fn with_interactive_exec(interactive: bool, source: Result<DataSource, CliErrorKind>) -> (r: Result<Cli, CliError>)
    ensures
        match (source, r) {
            (Ok(s), Ok(c)) => c.interactive == interactive && c.source@ == s@,
            (Err(e), Err(f)) => f.kind == e,
            _ => false,
        },
{
    match source {
        Ok(s) => Ok(Cli { interactive, source: s }),
        Err(e) => Err(CliError { kind: e }),
    }
}

impl Cli {
    /// Parses a command line whose first item is the program name.
    pub fn try_parse_from(args: &[&str]) -> (r: Result<Cli, CliError>)
        ensures
            match (r, parse_cli(arg_views(args@))) {
                (Ok(c), Ok(v)) => c@ == v,
                (Err(e), Err(k)) => e.kind == k,
                _ => false,
            },
    {
        let mut toks: Vec<Vec<char>> = Vec::new();
        let first: usize = if args.len() > 0 { 1 } else { 0 };
        let ghost all = arg_views(args@);
        let ghost tv = if args@.len() > 0 { all.skip(1) } else { all };
        let mut k = first;
        while k < args.len()
            invariant
                first <= k <= args@.len(),
                first == (if args@.len() > 0 { 1usize } else { 0usize }),
                all == arg_views(args@),
                tv == (if args@.len() > 0 { all.skip(1) } else { all }),
                toks@.len() == k - first,
                forall|j: int| 0 <= j < toks@.len() ==> #[trigger] toks@[j]@ == tv[j],
            decreases args@.len() - k,
        {
            toks.push(chars_of(args[k]));
            k = k + 1;
        }
        assert(token_views(toks@) =~= tv);
        let mut interactive = false;
        let mut i: usize = 0;
        while i < toks.len()
            invariant
                i <= toks@.len(),
                token_views(toks@) == tv,
                tv.len() == toks@.len(),
                all == arg_views(args@),
                parse_cli(all) == parse_top(tv, i as int, interactive),
            decreases toks@.len() - i,
        {
            assert(tv[i as int] == toks@[i as int]@);
            let ghost t = tv[i as int];
            let kind = top_token_kind(&toks[i]);
            match kind {
                TopToken::Interactive => {
                    assert(t == "-i"@ || t == "--interactive"@);
                    if interactive {
                        return Err(CliError { kind: CliErrorKind::ArgumentConflict });
                    }
                    interactive = true;
                },
                TopToken::Help => {
                    assert(parse_top(tv, i as int, interactive) == Err::<CliView, CliErrorKind>(CliErrorKind::DisplayHelp));
                    return Err(CliError { kind: CliErrorKind::DisplayHelp });
                },
                TopToken::Version => {
                    return Err(CliError { kind: CliErrorKind::DisplayVersion });
                },
                TopToken::Tcp => {
                    return with_interactive_exec(interactive, parse_tcp_exec(&toks, i + 1));
                },
                TopToken::Serial => {
                    return with_interactive_exec(interactive, parse_serial_exec(&toks, i + 1));
                },
                TopToken::File => {
                    return with_interactive_exec(interactive, parse_file_exec(&toks, i + 1));
                },
                TopToken::Word => {
                    return Err(CliError { kind: CliErrorKind::InvalidSubcommand });
                },
                TopToken::Unknown => {
                    return Err(CliError { kind: CliErrorKind::UnknownArgument });
                },
            }
            i = i + 1;
        }
        if toks.len() == 0 {
            Err(CliError { kind: CliErrorKind::DisplayHelpOnMissingArgumentOrSubcommand })
        } else {
            Err(CliError { kind: CliErrorKind::MissingSubcommand })
        }
    }
}

// ---------------------------------------------------------------------------
// Laws
// ---------------------------------------------------------------------------

/// A token that is not an option is no option of a serial source.
proof fn lemma_value_token_is_no_serial_option(t: Seq<char>)
    requires
        is_value_token(t),
    ensures
        short_form(t, 'b') is None,
        long_form(t, "baudrate"@) is None,
        long_form(t, "data-bits"@) is None,
        long_form(t, "parity"@) is None,
        long_form(t, "stop-bits"@) is None,
        long_form(t, "flow-control"@) is None,
        long_form(t, "timeout"@) is None,
        t != "-h"@,
        t != "--help"@,
{
    reveal_strlit("-h");
    reveal_strlit("--help");
    if t.len() > 0 {
        assert(dashdash("baudrate"@)[0] == '-');
        assert(dashdash("data-bits"@)[0] == '-');
        assert(dashdash("parity"@)[0] == '-');
        assert(dashdash("stop-bits"@)[0] == '-');
        assert(dashdash("flow-control"@)[0] == '-');
        assert(dashdash("timeout"@)[0] == '-');
        if t.len() == 1 {
            assert(t[0] == '-' ==> t.len() == 1);
        }
    }
    assert("-h"@[0] == '-' && "--help"@[0] == '-');
}

/// On a serial source, `--parity` gives the parity that it names, whatever
/// the port's path: `none` no parity, `odd` odd parity, `even` even parity;
/// every other setting keeps its default.
pub proof fn lemma_parity_option_names_parity(
    prog: Seq<char>,
    path: Seq<char>,
    name: Seq<char>,
    parity: CliParity,
)
    requires
        is_value_token(path),
        (name == "none"@ && parity == CliParity::NoParity) || (name == "odd"@ && parity
            == CliParity::Odd) || (name == "even"@ && parity == CliParity::Even),
    ensures
        parse_cli(seq![prog, "serial"@, path, "--parity"@, name]) == Ok::<CliView, CliErrorKind>(
            CliView {
                interactive: false,
                source: SourceView::Serial {
                    path,
                    baudrate: 9600,
                    data_bits: CliDataBits::Eight,
                    parity,
                    stop_bits: CliStopBits::One,
                    flow_control: CliFlowControl::NoFlowControl,
                    timeout: None,
                },
            },
        ),
{
    let args = seq![prog, "serial"@, path, "--parity"@, name];
    let toks = args.skip(1);
    assert(toks =~= seq!["serial"@, path, "--parity"@, name]);
    reveal_strlit("serial");
    reveal_strlit("-i");
    reveal_strlit("--interactive");
    reveal_strlit("-H");
    reveal_strlit("--help");
    reveal_strlit("help");
    reveal_strlit("-V");
    reveal_strlit("--version");
    reveal_strlit("-h");
    reveal_strlit("--parity");
    reveal_strlit("none");
    reveal_strlit("odd");
    reveal_strlit("even");
    let t0 = toks[0];
    assert(t0.len() == 6);
    assert(t0 != "-i"@ && t0 != "-H"@ && t0 != "-V"@) by {
        assert("-i"@.len() == 2);
    }
    assert(t0[0] == 's' && "--help"@[0] == '-');
    assert(t0 != "--interactive"@ && t0 != "--help"@ && t0 != "--version"@ && t0 != "help"@);
    assert(t0 == "serial"@);
    lemma_value_token_is_no_serial_option(path);
    let acc1 = SerialAcc { path: Some(path), ..empty_serial_acc() };
    assert(toks[1] == path);
    assert(option_step(toks, 1, Some('b'), "baudrate"@) is NotThis);
    assert(option_step(toks, 1, None, "data-bits"@) is NotThis);
    assert(option_step(toks, 1, None, "parity"@) is NotThis);
    assert(parse_serial(toks, 1, empty_serial_acc()) == parse_serial_rest(toks, 1, empty_serial_acc()));
    assert(option_step(toks, 1, None, "stop-bits"@) is NotThis);
    assert(option_step(toks, 1, None, "flow-control"@) is NotThis);
    assert(option_step(toks, 1, None, "timeout"@) is NotThis);
    assert(parse_serial_rest(toks, 1, empty_serial_acc()) == parse_serial(toks, 2, acc1));
    let t2 = toks[2];
    assert(t2 == "--parity"@);
    assert(t2[0] == '-' && t2[1] == '-' && t2[2] == 'p');
    assert(short_form(t2, 'b') is None);
    assert(long_form(t2, "baudrate"@) is None) by {
        reveal_strlit("baudrate");
        assert(dashdash("baudrate"@)[2] == 'b');
        if t2.len() > dashdash("baudrate"@).len() {
        }
    }
    assert(long_form(t2, "data-bits"@) is None) by {
        reveal_strlit("data-bits");
        assert(dashdash("data-bits"@)[2] == 'd');
    }
    assert(long_form(t2, "parity"@) == Some::<Option<Seq<char>>>(None)) by {
        reveal_strlit("parity");
        assert(dashdash("parity"@) =~= t2);
    }
    assert(is_value_token(name));
    assert(t2 != "-h"@ && t2 != "--help"@);
    let acc2 = SerialAcc { parity: Some(parity), ..acc1 };
    assert(parse_serial(toks, 2, acc1) == parse_serial(toks, 4, acc2));
    assert(parse_serial(toks, 4, acc2) == serial_result(acc2));
    reveal_strlit("tcp");
    reveal_strlit("-t");
    assert(t0 != "tcp"@ && t0 != "-t"@);
    assert(parse_top(toks, 0, false) == with_interactive(
        false,
        parse_serial(toks, 1, empty_serial_acc()),
    ));
    assert(parse_cli(args) == parse_top(toks, 0, false));
}

} // verus!
