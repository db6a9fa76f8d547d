//! A first, three-step form of the interactive source configuration: choose
//! the kind of source, configure it, confirm.
use vstd::prelude::*;

use crate::cli::{
    CliDataBits, CliFlowControl, CliParity, CliStopBits, DataSource, SourceView, TcpConfig,
};
use crate::input::{KeyCode, KeyEvent, KeyEventKind};
use crate::text::{string_of, string_pop, string_push};

verus! {

/// Step of the configuration.
#[derive(Clone, Copy, Debug, PartialEq, Eq, Structural)]
pub enum SetupStep {
    Source,
    Config,
    Done,
}

/// The step after `s`; the last step is followed by itself.
pub open spec fn step_after(s: SetupStep) -> SetupStep {
    match s {
        SetupStep::Source => SetupStep::Config,
        SetupStep::Config => SetupStep::Done,
        SetupStep::Done => SetupStep::Done,
    }
}

/// The step before `s`; the first step is preceded by itself.
pub open spec fn step_before(s: SetupStep) -> SetupStep {
    match s {
        SetupStep::Source => SetupStep::Source,
        SetupStep::Config => SetupStep::Source,
        SetupStep::Done => SetupStep::Config,
    }
}

impl SetupStep {
    pub fn next(&self) -> (r: Self)
        ensures
            r == step_after(*self),
    {
        match self {
            SetupStep::Source => SetupStep::Config,
            SetupStep::Config => SetupStep::Done,
            SetupStep::Done => SetupStep::Done,
        }
    }

    pub fn prev(&self) -> (r: Self)
        ensures
            r == step_before(*self),
    {
        match self {
            SetupStep::Source => SetupStep::Source,
            SetupStep::Config => SetupStep::Source,
            SetupStep::Done => SetupStep::Config,
        }
    }
}

/// Going forward one step and back again returns to where one was, except
/// from the last step, which has nothing after it.
pub proof fn lemma_prev_undoes_next(s: SetupStep)
    requires
        s != SetupStep::Done,
    ensures
        step_before(step_after(s)) == s,
{
}

/// Going back one step and forward again returns to where one was, except
/// from the first step, which has nothing before it.
pub proof fn lemma_next_undoes_prev(s: SetupStep)
    requires
        s != SetupStep::Source,
    ensures
        step_after(step_before(s)) == s,
{
}

/// What the caller is to do after a key.
#[derive(Debug)]
pub enum SetupAction {
    Continue,
    Cancel,
    Complete(DataSource),
}

/// Kind of data source.
#[derive(Clone, Copy, Debug, PartialEq, Eq, Structural)]
pub enum SourceKind {
    Tcp,
    Serial,
    File,
}

/// Description of a source kind, as listed to the user.
pub open spec fn kind_name(kind: SourceKind) -> Seq<char> {
    match kind {
        SourceKind::Tcp => "TCP stream"@,
        SourceKind::Serial => "Serial port"@,
        SourceKind::File => "File"@,
    }
}

impl SourceKind {
    /// The source kinds in the order in which they are listed.
    pub fn all() -> (r: [SourceKind; 3])
        ensures
            r@ == seq![SourceKind::Tcp, SourceKind::Serial, SourceKind::File],
    {
        [SourceKind::Tcp, SourceKind::Serial, SourceKind::File]
    }

    pub fn as_str(self) -> (r: &'static str)
        ensures
            r@ == kind_name(self),
    {
        match self {
            SourceKind::Tcp => "TCP stream",
            SourceKind::Serial => "Serial port",
            SourceKind::File => "File",
        }
    }
}

/// `ratatui::widgets::ListState::select_next`, on a list state whose
/// selection is `selected`: selects the item after the selected one
/// (saturating), or the first one when nothing is selected. Returns the new
/// selection.
#[verifier::external_body]
fn list_select_next(selected: Option<usize>) -> (r: Option<usize>)
    ensures
        r == Some(
            match selected {
                Some(i) => if i < usize::MAX {
                    (i + 1) as usize
                } else {
                    usize::MAX
                },
                None => 0usize,
            },
        ),
{
    let mut state = ratatui::widgets::ListState::default().with_selected(selected);
    state.select_next();
    state.selected()
}

/// `ratatui::widgets::ListState::select_previous`, on a list state whose
/// selection is `selected`: selects the item before the selected one
/// (saturating at the first), or the last one (`usize::MAX`, corrected when
/// the list is drawn) when nothing is selected. Returns the new selection.
#[verifier::external_body]
fn list_select_previous(selected: Option<usize>) -> (r: Option<usize>)
    ensures
        r == Some(
            match selected {
                Some(i) => if i > 0 {
                    (i - 1) as usize
                } else {
                    0usize
                },
                None => usize::MAX,
            },
        ),
{
    let mut state = ratatui::widgets::ListState::default().with_selected(selected);
    state.select_previous();
    state.selected()
}

/// State of the configuration.
#[derive(Debug)]
pub struct SourceSetup {
    pub step: SetupStep,
    /// Selected entry of the list of source kinds.
    pub source_selection: Option<usize>,
    pub input: String,
    pub error: Option<&'static str>,
    pub tcp_host: String,
    pub tcp_port: u16,
    pub serial_path: String,
    pub baudrate: u32,
    pub data_bits: CliDataBits,
    pub parity: CliParity,
    pub stop_bits: CliStopBits,
    pub flow_control: CliFlowControl,
    pub timeout: Option<u64>,
    pub file_path: String,
}

/// The part of a [`SourceSetup`] that keys change, as plain values.
pub struct FormModel {
    pub step: SetupStep,
    pub source_selection: Option<usize>,
    pub input: Seq<char>,
}

/// A [`SetupAction`] as plain values.
pub enum FormAction {
    Continue,
    Cancel,
    Complete(SourceView),
}

impl SourceSetup {
    pub open spec fn form(&self) -> FormModel {
        FormModel { step: self.step, source_selection: self.source_selection, input: self.input@ }
    }

    /// Whether only the form of `self` changed from `old`.
    pub open spec fn same_settings(&self, old: &SourceSetup) -> bool {
        &&& self.error == old.error
        &&& self.tcp_host@ == old.tcp_host@
        &&& self.tcp_port == old.tcp_port
        &&& self.serial_path@ == old.serial_path@
        &&& self.baudrate == old.baudrate
        &&& self.data_bits == old.data_bits
        &&& self.parity == old.parity
        &&& self.stop_bits == old.stop_bits
        &&& self.flow_control == old.flow_control
        &&& self.timeout == old.timeout
        &&& self.file_path@ == old.file_path@
    }
}

impl View for SetupAction {
    type V = FormAction;

    open spec fn view(&self) -> FormAction {
        match self {
            SetupAction::Continue => FormAction::Continue,
            SetupAction::Cancel => FormAction::Cancel,
            SetupAction::Complete(s) => FormAction::Complete(s@),
        }
    }
}

/// Confirming the current step with Enter. The last step completes with a
/// TCP source on `127.0.0.1:23000`.
pub open spec fn advance_form(f: FormModel) -> (FormModel, FormAction) {
    match f.step {
        SetupStep::Source => (FormModel { step: step_after(f.step), ..f }, FormAction::Continue),
        SetupStep::Config => (f, FormAction::Continue),
        SetupStep::Done => (
            f,
            FormAction::Complete(SourceView::Tcp { host: "127.0.0.1"@, port: 23000 }),
        ),
    }
}

/// Handling one key event.
pub open spec fn handle_key_form(f: FormModel, key: KeyEvent) -> (FormModel, FormAction) {
    if key.kind != KeyEventKind::Press {
        (f, FormAction::Continue)
    } else {
        match key.code {
            KeyCode::Esc => (f, FormAction::Cancel),
            KeyCode::Up => if f.step == SetupStep::Source {
                (
                    FormModel {
                        source_selection: Some(
                            match f.source_selection {
                                Some(i) => if i > 0 {
                                    (i - 1) as usize
                                } else {
                                    0usize
                                },
                                None => usize::MAX,
                            },
                        ),
                        ..f
                    },
                    FormAction::Continue,
                )
            } else {
                (f, FormAction::Continue)
            },
            KeyCode::Down => if f.step == SetupStep::Source {
                (
                    FormModel {
                        source_selection: Some(
                            match f.source_selection {
                                Some(i) => if i < usize::MAX {
                                    (i + 1) as usize
                                } else {
                                    usize::MAX
                                },
                                None => 0usize,
                            },
                        ),
                        ..f
                    },
                    FormAction::Continue,
                )
            } else {
                (f, FormAction::Continue)
            },
            KeyCode::Backspace => if f.step == SetupStep::Done {
                (
                    FormModel {
                        input: if f.input.len() > 0 {
                            f.input.drop_last()
                        } else {
                            f.input
                        },
                        ..f
                    },
                    FormAction::Continue,
                )
            } else {
                (f, FormAction::Continue)
            },
            KeyCode::Char(c) => if f.step == SetupStep::Done {
                (FormModel { input: f.input.push(c), ..f }, FormAction::Continue)
            } else {
                (f, FormAction::Continue)
            },
            KeyCode::Enter => advance_form(f),
            _ => (f, FormAction::Continue),
        }
    }
}

impl Default for SourceSetup {
    fn default() -> (r: Self)
        ensures
            r.step == SetupStep::Source,
            r.source_selection == Some(0usize),
            r.input@ == Seq::<char>::empty(),
            r.error is None,
            r.tcp_host@ == "127.0.0.1"@,
            r.tcp_port == 23000,
            r.serial_path@ == Seq::<char>::empty(),
            r.baudrate == 9600,
            r.data_bits == CliDataBits::Eight,
            r.parity == CliParity::NoParity,
            r.stop_bits == CliStopBits::One,
            r.flow_control == CliFlowControl::NoFlowControl,
            r.timeout is None,
            r.file_path@ == Seq::<char>::empty(),
    {
        SourceSetup {
            step: SetupStep::Source,
            source_selection: Some(0),
            input: String::new(),
            error: None,
            tcp_host: string_of("127.0.0.1"),
            tcp_port: 23000,
            serial_path: String::new(),
            baudrate: 9600,
            data_bits: CliDataBits::Eight,
            parity: CliParity::NoParity,
            stop_bits: CliStopBits::One,
            flow_control: CliFlowControl::NoFlowControl,
            timeout: None,
            file_path: String::new(),
        }
    }
}

impl SourceSetup {
    /// Handles one key event: Esc cancels, Up and Down move through the list
    /// of source kinds on the first step, Backspace and characters edit the
    /// text on the last step, Enter confirms the step; a key that is not
    /// pressed changes nothing.
    pub fn handle_key(&mut self, key: KeyEvent) -> (r: SetupAction)
        ensures
            (final(self).form(), r@) == handle_key_form(old(self).form(), key),
            final(self).same_settings(old(self)),
    {
        if key.kind != KeyEventKind::Press {
            return SetupAction::Continue;
        }
        match key.code {
            KeyCode::Esc => SetupAction::Cancel,
            KeyCode::Up => {
                if self.step == SetupStep::Source {
                    self.source_selection = list_select_previous(self.source_selection);
                }
                SetupAction::Continue
            },
            KeyCode::Down => {
                if self.step == SetupStep::Source {
                    self.source_selection = list_select_next(self.source_selection);
                }
                SetupAction::Continue
            },
            KeyCode::Backspace => {
                if self.step == SetupStep::Done {
                    string_pop(&mut self.input);
                }
                SetupAction::Continue
            },
            KeyCode::Char(character) => {
                if self.step == SetupStep::Done {
                    string_push(&mut self.input, character);
                }
                SetupAction::Continue
            },
            KeyCode::Enter => self.advance(),
            _ => SetupAction::Continue,
        }
    }

    /// Confirms the current step.
    pub fn advance(&mut self) -> (r: SetupAction)
        ensures
            (final(self).form(), r@) == advance_form(old(self).form()),
            final(self).same_settings(old(self)),
    {
        match self.step {
            SetupStep::Source => {
                self.step = self.step.next();
                SetupAction::Continue
            },
            SetupStep::Config => SetupAction::Continue,
            SetupStep::Done => {
                let source = DataSource::Tcp(TcpConfig { host: string_of("127.0.0.1"), port: 23000 });
                SetupAction::Complete(source)
            },
        }
    }
}

} // verus!
