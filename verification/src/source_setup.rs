//! Interactive configuration of the NMEA data source: a small state machine
//! that walks the user through the settings of a TCP, serial or file source
//! and ends with the [`DataSource`] to connect to.
use vstd::prelude::*;

use crate::cli::{
    CliDataBits, CliFlowControl, CliParity, CliStopBits, DataSource, FileConfig, SerialConfig,
    SourceView, TcpConfig,
};
use crate::input::{KeyCode, KeyEvent, KeyEventKind};
use crate::text::{
    decimal_chars, decimal_digits, digit_char, is_blank, parse_unsigned, parse_unsigned_str, str_is,
    string_clear, string_from_chars, string_of, string_pop, string_push, trim, trim_str,
};

verus! {

/// Kind of data source.
#[derive(Clone, Copy, Debug, PartialEq, Eq, Structural)]
pub enum SourceKind {
    Tcp,
    Serial,
    File,
}

/// Short name of a source kind, as listed to the user.
pub open spec fn kind_label(kind: SourceKind) -> Seq<char> {
    match kind {
        SourceKind::Tcp => "TCP"@,
        SourceKind::Serial => "Serial"@,
        SourceKind::File => "File"@,
    }
}

/// The source kinds in the order in which they are listed.
pub open spec fn all_kinds() -> Seq<SourceKind> {
    seq![SourceKind::Tcp, SourceKind::Serial, SourceKind::File]
}

impl SourceKind {
    /// The source kinds in the order in which they are listed.
    pub fn all() -> (r: [SourceKind; 3])
        ensures
            r@ == all_kinds(),
    {
        [SourceKind::Tcp, SourceKind::Serial, SourceKind::File]
    }

    pub fn label(self) -> (r: &'static str)
        ensures
            r@ == kind_label(self),
    {
        match self {
            SourceKind::Tcp => "TCP",
            SourceKind::Serial => "Serial",
            SourceKind::File => "File",
        }
    }
}

/// Step of the configuration.
#[derive(Clone, Copy, Debug)]
pub enum Step {
    /// Choosing the kind of source.
    Source,
    /// Typing the value of a text field, named by its label.
    Text(&'static str),
    /// Choosing one value of a list, named by its label.
    Choice(&'static str),
    /// Confirming the configured source.
    Confirm,
}

/// What the caller is to do after a key.
#[derive(Debug)]
pub enum SetupAction {
    /// Keep configuring.
    Continue,
    /// Leave the configuration without a source.
    Cancel,
    /// Connect to the configured source.
    Complete(DataSource),
}

/// State of the interactive configuration.
#[derive(Debug)]
pub struct SourceSetup {
    pub source_kind: SourceKind,
    pub step: Step,
    pub selection: usize,
    pub input: String,
    pub error: Option<&'static str>,
    pub tcp_host: String,
    pub tcp_port: u16,
    pub serial_path: String,
    pub baudrate: u32,
    pub data_bits: CliDataBits,
    pub parity: CliParity,
    pub stop_bits: CliStopBits,
    pub flow_control: CliFlowControl,
    pub timeout: Option<u64>,
    pub file_path: String,
}

// ---------------------------------------------------------------------------
// Model
// ---------------------------------------------------------------------------

/// A [`Step`] as plain values.
pub enum StepModel {
    Source,
    Text(Seq<char>),
    Choice(Seq<char>),
    Confirm,
}

/// A [`SetupAction`] as plain values.
pub enum ActionModel {
    Continue,
    Cancel,
    Complete(SourceView),
}

/// A [`SourceSetup`] as plain values.
pub struct SetupModel {
    pub source_kind: SourceKind,
    pub step: StepModel,
    pub selection: usize,
    pub input: Seq<char>,
    pub error: Option<Seq<char>>,
    pub tcp_host: Seq<char>,
    pub tcp_port: u16,
    pub serial_path: Seq<char>,
    pub baudrate: u32,
    pub data_bits: CliDataBits,
    pub parity: CliParity,
    pub stop_bits: CliStopBits,
    pub flow_control: CliFlowControl,
    pub timeout: Option<u64>,
    pub file_path: Seq<char>,
}

impl View for Step {
    type V = StepModel;

    open spec fn view(&self) -> StepModel {
        match self {
            Step::Source => StepModel::Source,
            Step::Text(l) => StepModel::Text(l@),
            Step::Choice(l) => StepModel::Choice(l@),
            Step::Confirm => StepModel::Confirm,
        }
    }
}

impl View for SetupAction {
    type V = ActionModel;

    open spec fn view(&self) -> ActionModel {
        match self {
            SetupAction::Continue => ActionModel::Continue,
            SetupAction::Cancel => ActionModel::Cancel,
            SetupAction::Complete(s) => ActionModel::Complete(s@),
        }
    }
}

/// An optional static text as plain values.
pub open spec fn opt_text(o: Option<&'static str>) -> Option<Seq<char>> {
    match o {
        Some(s) => Some(s@),
        None => None,
    }
}

impl View for SourceSetup {
    type V = SetupModel;

    open spec fn view(&self) -> SetupModel {
        SetupModel {
            source_kind: self.source_kind,
            step: self.step@,
            selection: self.selection,
            input: self.input@,
            error: opt_text(self.error),
            tcp_host: self.tcp_host@,
            tcp_port: self.tcp_port,
            serial_path: self.serial_path@,
            baudrate: self.baudrate,
            data_bits: self.data_bits,
            parity: self.parity,
            stop_bits: self.stop_bits,
            flow_control: self.flow_control,
            timeout: self.timeout,
            file_path: self.file_path@,
        }
    }
}

/// The state in which the configuration starts.
pub open spec fn initial_setup() -> SetupModel {
    SetupModel {
        source_kind: SourceKind::Tcp,
        step: StepModel::Source,
        selection: 0,
        input: Seq::empty(),
        error: None,
        tcp_host: "127.0.0.1"@,
        tcp_port: 23000,
        serial_path: Seq::empty(),
        baudrate: 9600,
        data_bits: CliDataBits::Eight,
        parity: CliParity::NoParity,
        stop_bits: CliStopBits::One,
        flow_control: CliFlowControl::NoFlowControl,
        timeout: None,
        file_path: Seq::empty(),
    }
}

/// Label of the optional timeout field.
pub open spec fn timeout_label() -> Seq<char> {
    "Timeout (ms, optional)"@
}

/// Label of the first text field of a source kind.
pub open spec fn first_label(kind: SourceKind) -> Seq<char> {
    match kind {
        SourceKind::Tcp => "TCP host"@,
        SourceKind::Serial => "Serial device path"@,
        SourceKind::File => "File path"@,
    }
}

/// Message for an empty text field.
pub open spec fn empty_message(label: Seq<char>) -> Seq<char> {
    if label == "TCP host"@ {
        "TCP host cannot be empty"@
    } else if label == "Serial device path"@ {
        "Serial path cannot be empty"@
    } else if label == "File path"@ {
        "File path cannot be empty"@
    } else {
        "Value cannot be empty"@
    }
}

/// Accepting the text typed for the field `label`: the new state, and
/// whether the text was accepted or the message that tells why not.
pub open spec fn accept_text_model(m: SetupModel, label: Seq<char>) -> (SetupModel, Result<(), Seq<char>>) {
    let blank = trim(m.input).len() == 0;
    if label == timeout_label() && blank {
        (SetupModel { timeout: None, ..m }, Ok(()))
    } else if blank {
        (m, Err(empty_message(label)))
    } else if m.source_kind == SourceKind::Tcp && label == "TCP host"@ {
        (SetupModel { tcp_host: trim(m.input), ..m }, Ok(()))
    } else if m.source_kind == SourceKind::Tcp && label == "TCP port"@ {
        match parse_unsigned(m.input, 65535) {
            Some(p) => (SetupModel { tcp_port: p as u16, ..m }, Ok(())),
            None => (m, Err("Enter a valid TCP port"@)),
        }
    } else if m.source_kind == SourceKind::Serial && label == "Serial device path"@ {
        (SetupModel { serial_path: trim(m.input), ..m }, Ok(()))
    } else if m.source_kind == SourceKind::Serial && label == "Baudrate"@ {
        match parse_unsigned(m.input, 4294967295) {
            Some(b) => (SetupModel { baudrate: b as u32, ..m }, Ok(())),
            None => (m, Err("Enter a valid baudrate"@)),
        }
    } else if m.source_kind == SourceKind::Serial && label == timeout_label() {
        match parse_unsigned(m.input, 18446744073709551615) {
            Some(t) => (SetupModel { timeout: Some(t as u64), ..m }, Ok(())),
            None => (m, Err("Enter a valid timeout"@)),
        }
    } else if m.source_kind == SourceKind::File && label == "File path"@ {
        (SetupModel { file_path: trim(m.input), ..m }, Ok(()))
    } else {
        (m, Err("Enter a valid value"@))
    }
}

/// `min(i, n)`.
pub open spec fn min_index(i: usize, n: usize) -> int {
    if i < n {
        i as int
    } else {
        n as int
    }
}

/// Applying the selected value of a choice step.
pub open spec fn accept_choice_model(m: SetupModel) -> SetupModel {
    match m.step {
        StepModel::Choice(l) => if l == "Serial data bits"@ {
            SetupModel {
                data_bits: seq![
                    CliDataBits::Five,
                    CliDataBits::Six,
                    CliDataBits::Seven,
                    CliDataBits::Eight,
                ][min_index(m.selection, 3)],
                ..m
            }
        } else if l == "Serial parity"@ {
            SetupModel {
                parity: seq![CliParity::NoParity, CliParity::Odd, CliParity::Even][min_index(m.selection, 2)],
                ..m
            }
        } else if l == "Serial stop bits"@ {
            SetupModel {
                stop_bits: seq![CliStopBits::One, CliStopBits::Two][min_index(m.selection, 1)],
                ..m
            }
        } else if l == "Serial flow control"@ {
            SetupModel {
                flow_control: seq![
                    CliFlowControl::NoFlowControl,
                    CliFlowControl::Software,
                    CliFlowControl::Hardware,
                ][min_index(m.selection, 2)],
                ..m
            }
        } else {
            m
        },
        _ => m,
    }
}

/// The step that follows `step` for a source of kind `kind`.
pub open spec fn next_step(kind: SourceKind, step: StepModel) -> StepModel {
    match step {
        StepModel::Text(l) => if kind == SourceKind::Tcp && l == "TCP host"@ {
            StepModel::Text("TCP port"@)
        } else if kind == SourceKind::Tcp && l == "TCP port"@ {
            StepModel::Confirm
        } else if kind == SourceKind::Serial && l == "Serial device path"@ {
            StepModel::Text("Baudrate"@)
        } else if kind == SourceKind::Serial && l == "Baudrate"@ {
            StepModel::Choice("Serial data bits"@)
        } else if kind == SourceKind::Serial && l == timeout_label() {
            StepModel::Confirm
        } else if kind == SourceKind::File && l == "File path"@ {
            StepModel::Confirm
        } else {
            StepModel::Source
        },
        StepModel::Choice(l) => if kind == SourceKind::Serial && l == "Serial data bits"@ {
            StepModel::Choice("Serial parity"@)
        } else if kind == SourceKind::Serial && l == "Serial parity"@ {
            StepModel::Choice("Serial stop bits"@)
        } else if kind == SourceKind::Serial && l == "Serial stop bits"@ {
            StepModel::Choice("Serial flow control"@)
        } else if kind == SourceKind::Serial && l == "Serial flow control"@ {
            StepModel::Text(timeout_label())
        } else {
            StepModel::Source
        },
        _ => StepModel::Source,
    }
}

/// The text that a step starts with: the current value of a numeric field,
/// nothing for the others.
pub open spec fn prefill(m: SetupModel, step: StepModel) -> Seq<char> {
    match step {
        StepModel::Text(l) => if l == "TCP port"@ {
            decimal_digits(m.tcp_port as nat)
        } else if l == "Baudrate"@ {
            decimal_digits(m.baudrate as nat)
        } else if l == timeout_label() {
            match m.timeout {
                Some(t) => decimal_digits(t as nat),
                None => Seq::empty(),
            }
        } else {
            Seq::empty()
        },
        _ => Seq::empty(),
    }
}

/// Moving on to the step after the current one.
pub open spec fn set_next_step_model(m: SetupModel) -> SetupModel {
    let step = next_step(m.source_kind, m.step);
    SetupModel { selection: 0, input: prefill(m, step), step, ..m }
}

/// Going back to the choice of the source kind.
pub open spec fn reset_model(m: SetupModel) -> SetupModel {
    SetupModel { step: StepModel::Source, selection: 0, input: Seq::empty(), ..m }
}

/// The configured source.
pub open spec fn data_source_model(m: SetupModel) -> SourceView {
    match m.source_kind {
        SourceKind::Tcp => SourceView::Tcp { host: m.tcp_host, port: m.tcp_port },
        SourceKind::Serial => SourceView::Serial {
            path: m.serial_path,
            baudrate: m.baudrate,
            data_bits: m.data_bits,
            parity: m.parity,
            stop_bits: m.stop_bits,
            flow_control: m.flow_control,
            timeout: m.timeout,
        },
        SourceKind::File => SourceView::File { path: m.file_path },
    }
}

/// Confirming the current step with Enter.
pub open spec fn advance_model(m: SetupModel) -> (SetupModel, ActionModel) {
    match m.step {
        StepModel::Source => {
            let kind = all_kinds()[min_index(m.selection, 2)];
            let input = match kind {
                SourceKind::Tcp => m.tcp_host,
                SourceKind::Serial => m.serial_path,
                SourceKind::File => m.file_path,
            };
            (
                SetupModel {
                    source_kind: kind,
                    selection: 0,
                    input,
                    step: StepModel::Text(first_label(kind)),
                    ..m
                },
                ActionModel::Continue,
            )
        },
        StepModel::Text(label) => {
            let (m2, res) = accept_text_model(m, label);
            match res {
                Ok(_) => (set_next_step_model(SetupModel { error: None, ..m2 }), ActionModel::Continue),
                Err(msg) => (SetupModel { error: Some(msg), ..m2 }, ActionModel::Continue),
            }
        },
        StepModel::Choice(_) => (set_next_step_model(accept_choice_model(m)), ActionModel::Continue),
        StepModel::Confirm => if m.selection == 0 {
            (m, ActionModel::Complete(data_source_model(m)))
        } else {
            (reset_model(m), ActionModel::Continue)
        },
    }
}

/// Whether typing edits the text of the step.
pub open spec fn is_text_step(step: StepModel) -> bool {
    !(step is Source || step is Choice)
}

/// Handling one key event.
pub open spec fn handle_key_model(m: SetupModel, key: KeyEvent) -> (SetupModel, ActionModel) {
    if key.kind != KeyEventKind::Press {
        (m, ActionModel::Continue)
    } else {
        match key.code {
            KeyCode::Esc => (m, ActionModel::Cancel),
            KeyCode::Up => (
                SetupModel { selection: if m.selection > 0 { (m.selection - 1) as usize } else { 0 }, ..m },
                ActionModel::Continue,
            ),
            KeyCode::Down => (
                SetupModel {
                    selection: if m.selection < usize::MAX { (m.selection + 1) as usize } else { usize::MAX },
                    ..m
                },
                ActionModel::Continue,
            ),
            KeyCode::Backspace => if is_text_step(m.step) {
                (
                    SetupModel {
                        input: if m.input.len() > 0 { m.input.drop_last() } else { m.input },
                        ..m
                    },
                    ActionModel::Continue,
                )
            } else {
                (m, ActionModel::Continue)
            },
            KeyCode::Char(c) => if is_text_step(m.step) {
                (SetupModel { input: m.input.push(c), ..m }, ActionModel::Continue)
            } else {
                (m, ActionModel::Continue)
            },
            KeyCode::Enter => advance_model(m),
            _ => (m, ActionModel::Continue),
        }
    }
}

/// The text shown on the confirmation step.
pub open spec fn summary_model(m: SetupModel) -> Seq<char> {
    match m.source_kind {
        SourceKind::Tcp => "TCP "@ + m.tcp_host + ":"@ + decimal_digits(m.tcp_port as nat),
        SourceKind::Serial => "Serial "@ + m.serial_path + " at "@ + decimal_digits(m.baudrate as nat)
            + " baud"@,
        SourceKind::File => "File "@ + m.file_path,
    }
}

// ---------------------------------------------------------------------------
// Laws
// ---------------------------------------------------------------------------

/// Pressing Enter on a numeric field that still holds the text it was
/// prefilled with keeps the stored value, clears the error and moves on.
pub proof fn lemma_prefilled_value_is_kept(m: SetupModel)
    requires
        match m.step {
            StepModel::Text(l) => {
                ||| m.source_kind == SourceKind::Tcp && l == "TCP port"@
                ||| m.source_kind == SourceKind::Serial && l == "Baudrate"@
                ||| m.source_kind == SourceKind::Serial && l == timeout_label()
            },
            _ => false,
        },
        m.input == prefill(m, m.step),
    ensures
        advance_model(m).0.tcp_port == m.tcp_port,
        advance_model(m).0.baudrate == m.baudrate,
        advance_model(m).0.timeout == m.timeout,
        advance_model(m).0.error is None,
        advance_model(m).0.step == next_step(m.source_kind, m.step),
        advance_model(m).1 is Continue,
{
    crate::text::lemma_parse_decimal_digits(m.tcp_port as nat, 65535);
    crate::text::lemma_decimal_digits(m.tcp_port as nat);
    crate::text::lemma_parse_decimal_digits(m.baudrate as nat, 4294967295);
    crate::text::lemma_decimal_digits(m.baudrate as nat);
    if let Some(t) = m.timeout {
        crate::text::lemma_parse_decimal_digits(t as nat, 18446744073709551615);
        crate::text::lemma_decimal_digits(t as nat);
    }
    reveal_strlit("TCP host");
    reveal_strlit("TCP port");
    reveal_strlit("Serial device path");
    reveal_strlit("Baudrate");
    reveal_strlit("Timeout (ms, optional)");
    reveal_strlit("File path");
    if let Some(t) = m.timeout {
    } else {
        assert(trim(Seq::<char>::empty()) =~= Seq::<char>::empty());
    }
    lemma_field_labels_distinct();
}

/// The labels of the text fields differ from each other.
proof fn lemma_field_labels_distinct()
    ensures
        "TCP host"@ != "TCP port"@,
        "TCP host"@ != "Baudrate"@,
        "TCP port"@ != "Baudrate"@,
        "TCP host"@ != timeout_label(),
        "TCP port"@ != timeout_label(),
        "Baudrate"@ != timeout_label(),
        "Serial device path"@ != "TCP host"@,
        "Serial device path"@ != "TCP port"@,
        "Serial device path"@ != "Baudrate"@,
        "Serial device path"@ != timeout_label(),
        "File path"@ != "TCP host"@,
        "File path"@ != "TCP port"@,
        "File path"@ != "Baudrate"@,
        "File path"@ != timeout_label(),
        "File path"@ != "Serial device path"@,
{
    reveal_strlit("TCP host");
    reveal_strlit("TCP port");
    reveal_strlit("Serial device path");
    reveal_strlit("Baudrate");
    reveal_strlit("Timeout (ms, optional)");
    reveal_strlit("File path");
    assert("TCP host"@[4] != "TCP port"@[4]);
    assert("TCP host"@[0] != "Baudrate"@[0]);
    assert("TCP port"@[0] != "Baudrate"@[0]);
    assert("TCP host"@.len() != timeout_label().len());
    assert("TCP port"@.len() != timeout_label().len());
    assert("Baudrate"@.len() != timeout_label().len());
    assert("Serial device path"@.len() != "TCP host"@.len());
    assert("Serial device path"@.len() != "TCP port"@.len());
    assert("Serial device path"@.len() != "Baudrate"@.len());
    assert("Serial device path"@.len() != timeout_label().len());
    assert("File path"@.len() != "TCP host"@.len());
    assert("File path"@.len() != "TCP port"@.len());
    assert("File path"@.len() != "Baudrate"@.len());
    assert("File path"@.len() != timeout_label().len());
    assert("File path"@.len() != "Serial device path"@.len());
}

/// Text that is refused leaves the configuration where it was: the step,
/// the typed text and every stored value stay, and the error tells why.
pub proof fn lemma_refused_text_keeps_step(m: SetupModel, msg: Seq<char>)
    requires
        m.step matches StepModel::Text(l) && accept_text_model(m, l).1 == Err::<(), Seq<char>>(msg),
    ensures
        advance_model(m).0 == (SetupModel { error: Some(msg), ..m }),
        advance_model(m).1 is Continue,
{
}

/// The kind of source changes only when it is chosen, on the first step.
pub proof fn lemma_kind_set_only_on_source_step(m: SetupModel, key: KeyEvent)
    requires
        !(m.step is Source),
    ensures
        handle_key_model(m, key).0.source_kind == m.source_kind,
{
}

/// A key that is not pressed (a repeat or a release) changes nothing.
pub proof fn lemma_unpressed_key_is_ignored(m: SetupModel, key: KeyEvent)
    requires
        key.kind != KeyEventKind::Press,
    ensures
        handle_key_model(m, key).0 == m,
        handle_key_model(m, key).1 is Continue,
{
}

/// The configuration completes only from the confirmation step with its
/// first entry selected, and it completes with the values configured.
pub proof fn lemma_complete_gives_configured_source(m: SetupModel, key: KeyEvent)
    requires
        handle_key_model(m, key).1 is Complete,
    ensures
        m.step is Confirm,
        m.selection == 0,
        key.kind == KeyEventKind::Press && key.code == KeyCode::Enter,
        handle_key_model(m, key).1 == ActionModel::Complete(data_source_model(m)),
        handle_key_model(m, key).0 == m,
{
    if key.kind == KeyEventKind::Press {
        match m.step {
            StepModel::Text(l) => {
                let (m2, res) = accept_text_model(m, l);
                assert(advance_model(m).1 is Continue);
            },
            _ => {},
        }
    }
}

// ---------------------------------------------------------------------------
// Implementation
// ---------------------------------------------------------------------------

/// Appends the characters of `s` to `v`.
fn push_str(v: &mut Vec<char>, s: &str)
    ensures
        final(v)@ == old(v)@ + s@,
{
    let c = crate::text::chars_of(s);
    push_chars(v, c.as_slice());
}

/// Appends `c` to `v`.
fn push_chars(v: &mut Vec<char>, c: &[char])
    ensures
        final(v)@ == old(v)@ + c@,
{
    let ghost start = v@;
    let mut i: usize = 0;
    while i < c.len()
        invariant
            i <= c@.len(),
            v@ == start + c@.take(i as int),
        decreases c@.len() - i,
    {
        v.push(c[i]);
        assert(c@.take(i + 1) == c@.take(i as int).push(c@[i as int]));
        i = i + 1;
    }
    assert(c@.take(c@.len() as int) == c@);
}

impl Default for SourceSetup {
    fn default() -> (r: Self)
        ensures
            r@ == initial_setup(),
    {
        SourceSetup {
            source_kind: SourceKind::Tcp,
            step: Step::Source,
            selection: 0,
            input: String::new(),
            error: None,
            tcp_host: string_of("127.0.0.1"),
            tcp_port: 23000,
            serial_path: String::new(),
            baudrate: 9600,
            data_bits: CliDataBits::Eight,
            parity: CliParity::NoParity,
            stop_bits: CliStopBits::One,
            flow_control: CliFlowControl::NoFlowControl,
            timeout: None,
            file_path: String::new(),
        }
    }
}

impl SourceSetup {
    /// Handles one key event: Esc cancels, Up and Down move the selection,
    /// Backspace and characters edit the text of a text step, Enter
    /// confirms the current step; a key that is not pressed changes nothing.
    pub fn handle_key(&mut self, key: KeyEvent) -> (r: SetupAction)
        ensures
            (final(self)@, r@) == handle_key_model(old(self)@, key),
    {
        if key.kind != KeyEventKind::Press {
            return SetupAction::Continue;
        }
        let text_step = match self.step {
            Step::Source => false,
            Step::Choice(_) => false,
            _ => true,
        };
        match key.code {
            KeyCode::Esc => SetupAction::Cancel,
            KeyCode::Up => {
                self.selection = self.selection.saturating_sub(1);
                SetupAction::Continue
            },
            KeyCode::Down => {
                self.selection = self.selection.saturating_add(1);
                SetupAction::Continue
            },
            KeyCode::Backspace => {
                if text_step {
                    string_pop(&mut self.input);
                }
                SetupAction::Continue
            },
            KeyCode::Char(character) => {
                if text_step {
                    string_push(&mut self.input, character);
                }
                SetupAction::Continue
            },
            KeyCode::Enter => self.advance(),
            _ => SetupAction::Continue,
        }
    }

    /// Confirms the current step: picks the source kind, accepts the typed
    /// text or the chosen value and moves on, or, on the confirmation step,
    /// completes with the configured source (first entry) or starts over.
    pub fn advance(&mut self) -> (r: SetupAction)
        ensures
            (final(self)@, r@) == advance_model(old(self)@),
    {
        match self.step {
            Step::Source => {
                let kinds = SourceKind::all();
                let index = if self.selection < 2 {
                    self.selection
                } else {
                    2
                };
                let kind = kinds[index];
                self.source_kind = kind;
                self.selection = 0;
                self.input = match kind {
                    SourceKind::Tcp => self.tcp_host.clone(),
                    SourceKind::Serial => self.serial_path.clone(),
                    SourceKind::File => self.file_path.clone(),
                };
                self.step = Step::Text(
                    match kind {
                        SourceKind::Tcp => "TCP host",
                        SourceKind::Serial => "Serial device path",
                        SourceKind::File => "File path",
                    },
                );
                SetupAction::Continue
            },
            Step::Text(label) => match self.accept_text(label) {
                Ok(()) => {
                    self.error = None;
                    self.set_next_step();
                    SetupAction::Continue
                },
                Err(message) => {
                    self.error = Some(message);
                    SetupAction::Continue
                },
            },
            Step::Choice(_) => {
                self.accept_choice();
                self.set_next_step();
                SetupAction::Continue
            },
            Step::Confirm => {
                if self.selection == 0 {
                    SetupAction::Complete(self.data_source())
                } else {
                    self.reset_for_source();
                    SetupAction::Continue
                }
            },
        }
    }

    /// Stores the typed text in the field named `label`, or tells why it
    /// cannot be stored.
    pub fn accept_text(&mut self, label: &str) -> (r: Result<(), &'static str>)
        ensures
            final(self)@ == accept_text_model(old(self)@, label@).0,
            match (r, accept_text_model(old(self)@, label@).1) {
                (Ok(_), Ok(_)) => true,
                (Err(e), Err(m)) => e@ == m,
                _ => false,
            },
    {
        let blank = is_blank(self.input.as_str());
        if str_is(label, "Timeout (ms, optional)") && blank {
            self.timeout = None;
            return Ok(());
        }
        if blank {
            return Err(
                if str_is(label, "TCP host") {
                    "TCP host cannot be empty"
                } else if str_is(label, "Serial device path") {
                    "Serial path cannot be empty"
                } else if str_is(label, "File path") {
                    "File path cannot be empty"
                } else {
                    "Value cannot be empty"
                },
            );
        }
        let kind = self.source_kind;
        if kind == SourceKind::Tcp && str_is(label, "TCP host") {
            self.tcp_host = trim_str(self.input.as_str());
        } else if kind == SourceKind::Tcp && str_is(label, "TCP port") {
            match parse_unsigned_str(self.input.as_str(), 65535) {
                Some(p) => self.tcp_port = p as u16,
                None => return Err("Enter a valid TCP port"),
            }
        } else if kind == SourceKind::Serial && str_is(label, "Serial device path") {
            self.serial_path = trim_str(self.input.as_str());
        } else if kind == SourceKind::Serial && str_is(label, "Baudrate") {
            match parse_unsigned_str(self.input.as_str(), 4294967295) {
                Some(b) => self.baudrate = b as u32,
                None => return Err("Enter a valid baudrate"),
            }
        } else if kind == SourceKind::Serial && str_is(label, "Timeout (ms, optional)") {
            match parse_unsigned_str(self.input.as_str(), 18446744073709551615) {
                Some(t) => self.timeout = Some(t),
                None => return Err("Enter a valid timeout"),
            }
        } else if kind == SourceKind::File && str_is(label, "File path") {
            self.file_path = trim_str(self.input.as_str());
        } else {
            return Err("Enter a valid value");
        }
        Ok(())
    }

    /// Stores the value selected on a choice step.
    pub fn accept_choice(&mut self)
        ensures
            final(self)@ == accept_choice_model(old(self)@),
    {
        if let Step::Choice(label) = self.step {
            if str_is(label, "Serial data bits") {
                let values = [
                    CliDataBits::Five,
                    CliDataBits::Six,
                    CliDataBits::Seven,
                    CliDataBits::Eight,
                ];
                let i = if self.selection < 3 {
                    self.selection
                } else {
                    3
                };
                self.data_bits = values[i];
            } else if str_is(label, "Serial parity") {
                let values = [CliParity::NoParity, CliParity::Odd, CliParity::Even];
                let i = if self.selection < 2 {
                    self.selection
                } else {
                    2
                };
                self.parity = values[i];
            } else if str_is(label, "Serial stop bits") {
                let values = [CliStopBits::One, CliStopBits::Two];
                let i = if self.selection < 1 {
                    self.selection
                } else {
                    1
                };
                self.stop_bits = values[i];
            } else if str_is(label, "Serial flow control") {
                let values = [
                    CliFlowControl::NoFlowControl,
                    CliFlowControl::Software,
                    CliFlowControl::Hardware,
                ];
                let i = if self.selection < 2 {
                    self.selection
                } else {
                    2
                };
                self.flow_control = values[i];
            }
        }
    }

    /// The step after the current one.
    fn next_step(&self) -> (r: Step)
        ensures
            r@ == next_step(self.source_kind, self.step@),
    {
        let kind = self.source_kind;
        match self.step {
            Step::Text(l) => {
                if kind == SourceKind::Tcp && str_is(l, "TCP host") {
                    Step::Text("TCP port")
                } else if kind == SourceKind::Tcp && str_is(l, "TCP port") {
                    Step::Confirm
                } else if kind == SourceKind::Serial && str_is(l, "Serial device path") {
                    Step::Text("Baudrate")
                } else if kind == SourceKind::Serial && str_is(l, "Baudrate") {
                    Step::Choice("Serial data bits")
                } else if kind == SourceKind::Serial && str_is(l, "Timeout (ms, optional)") {
                    Step::Confirm
                } else if kind == SourceKind::File && str_is(l, "File path") {
                    Step::Confirm
                } else {
                    Step::Source
                }
            },
            Step::Choice(l) => {
                if kind == SourceKind::Serial && str_is(l, "Serial data bits") {
                    Step::Choice("Serial parity")
                } else if kind == SourceKind::Serial && str_is(l, "Serial parity") {
                    Step::Choice("Serial stop bits")
                } else if kind == SourceKind::Serial && str_is(l, "Serial stop bits") {
                    Step::Choice("Serial flow control")
                } else if kind == SourceKind::Serial && str_is(l, "Serial flow control") {
                    Step::Text("Timeout (ms, optional)")
                } else {
                    Step::Source
                }
            },
            _ => Step::Source,
        }
    }

    /// Moves on to the next step, with its text set to the current value of
    /// a numeric field.
    pub fn set_next_step(&mut self)
        ensures
            final(self)@ == set_next_step_model(old(self)@),
    {
        let step = self.next_step();
        self.selection = 0;
        string_clear(&mut self.input);
        self.step = step;
        if let Step::Text(label) = step {
            if str_is(label, "TCP port") {
                let digits = decimal_chars(self.tcp_port as u64);
                self.input = string_from_chars(digits.as_slice());
            } else if str_is(label, "Baudrate") {
                let digits = decimal_chars(self.baudrate as u64);
                self.input = string_from_chars(digits.as_slice());
            } else if str_is(label, "Timeout (ms, optional)") {
                match self.timeout {
                    Some(t) => {
                        let digits = decimal_chars(t);
                        self.input = string_from_chars(digits.as_slice());
                    },
                    None => {},
                }
            }
        }
    }

    /// Goes back to the choice of the source kind.
    pub fn reset_for_source(&mut self)
        ensures
            final(self)@ == reset_model(old(self)@),
    {
        self.step = Step::Source;
        self.selection = 0;
        string_clear(&mut self.input);
    }

    /// The configured source.
    pub fn data_source(&self) -> (r: DataSource)
        ensures
            r@ == data_source_model(self@),
    {
        match self.source_kind {
            SourceKind::Tcp => DataSource::Tcp(
                TcpConfig { host: self.tcp_host.clone(), port: self.tcp_port },
            ),
            SourceKind::Serial => DataSource::Serial(
                SerialConfig {
                    serial_path: self.serial_path.clone(),
                    baudrate: self.baudrate,
                    data_bits: self.data_bits,
                    parity: self.parity,
                    stop_bits: self.stop_bits,
                    flow_control: self.flow_control,
                    timeout: self.timeout,
                },
            ),
            SourceKind::File => DataSource::File(FileConfig { path: self.file_path.clone() }),
        }
    }

    /// One line that describes the configured source.
    pub fn summary(&self) -> (r: String)
        ensures
            r@ == summary_model(self@),
    {
        let mut v: Vec<char> = Vec::new();
        match self.source_kind {
            SourceKind::Tcp => {
                push_str(&mut v, "TCP ");
                push_str(&mut v, self.tcp_host.as_str());
                push_str(&mut v, ":");
                let d = decimal_chars(self.tcp_port as u64);
                push_chars(&mut v, d.as_slice());
            },
            SourceKind::Serial => {
                push_str(&mut v, "Serial ");
                push_str(&mut v, self.serial_path.as_str());
                push_str(&mut v, " at ");
                let d = decimal_chars(self.baudrate as u64);
                push_chars(&mut v, d.as_slice());
                push_str(&mut v, " baud");
            },
            SourceKind::File => {
                push_str(&mut v, "File ");
                push_str(&mut v, self.file_path.as_str());
            },
        }
        string_from_chars(v.as_slice())
    }
}

/// The number of data bits of a setting.
pub open spec fn data_bits_count(b: CliDataBits) -> nat {
    match b {
        CliDataBits::Five => 5,
        CliDataBits::Six => 6,
        CliDataBits::Seven => 7,
        CliDataBits::Eight => 8,
    }
}

/// Confirming the list of data bits stores the number of bits that the
/// selected entry shows: entry `i` reads `5 + i` and gives `5 + i` bits; a
/// selection past the end stands for the last entry, 8 bits. Nothing else
/// changes but the step.
pub proof fn lemma_data_bits_choice_stores_selected_entry(m: SetupModel)
    requires
        m.step == StepModel::Choice("Serial data bits"@),
    ensures
        data_bits_count(advance_model(m).0.data_bits) == if m.selection < 4 {
            5 + m.selection
        } else {
            8
        },
        m.selection < 4 ==> choice_values("Serial data bits"@)[m.selection as int] == decimal_digits(
            (5 + m.selection) as nat,
        ),
        choice_values("Serial data bits"@).len() == 4,
        advance_model(m).0.parity == m.parity,
        advance_model(m).0.stop_bits == m.stop_bits,
        advance_model(m).0.flow_control == m.flow_control,
        advance_model(m).1 is Continue,
{
    reveal_strlit("5");
    reveal_strlit("6");
    reveal_strlit("7");
    reveal_strlit("8");
    if m.selection < 4 {
        let n = (5 + m.selection) as nat;
        assert(decimal_digits(n) == seq![digit_char(n)]);
        assert(choice_values("Serial data bits"@)[m.selection as int] =~= seq![digit_char(n)]);
    }
}

/// Confirming the list of parities, of stop bits or of flow controls stores
/// the value of the selected entry, in the order listed (none, odd, even;
/// one, two; none, software, hardware); a selection past the end stands for
/// the last entry. Nothing else changes but the step.
pub proof fn lemma_serial_choice_stores_selected_entry(m: SetupModel)
    ensures
        m.step == StepModel::Choice("Serial parity"@) ==> {
            &&& advance_model(m).0.parity == if m.selection == 0 {
                CliParity::NoParity
            } else if m.selection == 1 {
                CliParity::Odd
            } else {
                CliParity::Even
            }
            &&& advance_model(m).0.data_bits == m.data_bits
            &&& advance_model(m).0.stop_bits == m.stop_bits
            &&& advance_model(m).0.flow_control == m.flow_control
        },
        m.step == StepModel::Choice("Serial stop bits"@) ==> {
            &&& advance_model(m).0.stop_bits == if m.selection == 0 {
                CliStopBits::One
            } else {
                CliStopBits::Two
            }
            &&& advance_model(m).0.data_bits == m.data_bits
            &&& advance_model(m).0.parity == m.parity
            &&& advance_model(m).0.flow_control == m.flow_control
        },
        m.step == StepModel::Choice("Serial flow control"@) ==> {
            &&& advance_model(m).0.flow_control == if m.selection == 0 {
                CliFlowControl::NoFlowControl
            } else if m.selection == 1 {
                CliFlowControl::Software
            } else {
                CliFlowControl::Hardware
            }
            &&& advance_model(m).0.data_bits == m.data_bits
            &&& advance_model(m).0.parity == m.parity
            &&& advance_model(m).0.stop_bits == m.stop_bits
        },
{
    reveal_strlit("Serial data bits");
    reveal_strlit("Serial parity");
    reveal_strlit("Serial stop bits");
    reveal_strlit("Serial flow control");
    assert("Serial parity"@.len() != "Serial data bits"@.len());
    assert("Serial stop bits"@.len() == "Serial data bits"@.len());
    assert("Serial stop bits"@[7] != "Serial data bits"@[7]);
    assert("Serial flow control"@.len() != "Serial data bits"@.len());
    assert("Serial flow control"@.len() != "Serial parity"@.len());
    assert("Serial flow control"@.len() != "Serial stop bits"@.len());
    assert("Serial stop bits"@.len() != "Serial parity"@.len());
}

// ---------------------------------------------------------------------------
// What the dialog lists
// ---------------------------------------------------------------------------

/// The values listed for the choice step labelled `label`.
pub open spec fn choice_values(label: Seq<char>) -> Seq<Seq<char>> {
    if label == "Serial data bits"@ {
        seq!["5"@, "6"@, "7"@, "8"@]
    } else if label == "Serial parity"@ {
        seq!["None"@, "Odd"@, "Even"@]
    } else if label == "Serial stop bits"@ {
        seq!["1"@, "2"@]
    } else {
        seq!["None"@, "Software"@, "Hardware"@]
    }
}

/// The values listed for the choice step labelled `label`, in the order of
/// the values that [`SourceSetup::accept_choice`] takes.
pub fn choice_list(label: &str) -> (r: Vec<&'static str>)
    ensures
        r@.map_values(|v: &'static str| v@) == choice_values(label@),
{
    let r = if str_is(label, "Serial data bits") {
        vec!["5", "6", "7", "8"]
    } else if str_is(label, "Serial parity") {
        vec!["None", "Odd", "Even"]
    } else if str_is(label, "Serial stop bits") {
        vec!["1", "2"]
    } else {
        vec!["None", "Software", "Hardware"]
    };
    assert(r@.map_values(|v: &'static str| v@) =~= choice_values(label@));
    r
}

/// The entry shown as selected in a list of `len` entries: the selection,
/// or the last entry when the selection is past the end.
pub fn shown_selection(selection: usize, len: usize) -> (r: usize)
    requires
        len > 0,
    ensures
        r == if selection < len {
            selection
        } else {
            (len - 1) as usize
        },
{
    if selection < len {
        selection
    } else {
        len - 1
    }
}

} // verus!
