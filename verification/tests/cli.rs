use std::path::PathBuf;

use nmeagc::cli::{
    Cli, CliDataBits, CliErrorKind, CliFlowControl, CliParity, CliStopBits, DataSource,
    FileConfig, SerialConfig, TcpConfig,
};

#[test]
fn help_is_printed_without_arguments() {
    let result = Cli::try_parse_from(&["nmeagc"]);

    assert!(result.is_err());
    let error = result.unwrap_err();
    assert_eq!(
        error.kind(),
        CliErrorKind::DisplayHelpOnMissingArgumentOrSubcommand
    );
}

#[test]
fn parse_serial_source_with_defaults() {
    let source = Cli::try_parse_from(&["nmeagc", "-s", "/dev/ttyUSB0"])
        .unwrap()
        .source;

    assert!(matches!(
        source,
        DataSource::Serial(SerialConfig {
            serial_path: path,
            baudrate: 9600,
            data_bits: CliDataBits::Eight,
            parity: CliParity::NoParity,
            stop_bits: CliStopBits::One,
            flow_control: CliFlowControl::NoFlowControl,
            timeout: None,
        }) if path == "/dev/ttyUSB0"
    ));
}

#[test]
fn parse_file_source() {
    let source = Cli::try_parse_from(&["nmeagc", "-f", "track.nmea"])
        .unwrap()
        .source;

    assert!(matches!(
        source,
        DataSource::File(FileConfig { path }) if PathBuf::from(path.as_str()) == PathBuf::from("track.nmea")
    ));
}

#[test]
fn error_sources_are_mutually_exclusive() {
    assert!(Cli::try_parse_from(&["nmeagc", "-h", "localhost", "-f", "track.nmea"]).is_err());
    assert!(Cli::try_parse_from(&["nmeagc", "-s", "/dev/ttyUSB0", "-f", "track.nmea"]).is_err());
    assert!(Cli::try_parse_from(&["nmeagc", "-h", "localhost", "-s", "/dev/ttyUSB0"]).is_err());
}

fn kind_of(args: &[&str]) -> CliErrorKind {
    Cli::try_parse_from(args).unwrap_err().kind()
}

#[test]
fn tcp_source_with_defaults() {
    let cli = Cli::try_parse_from(&["nmeagc", "tcp"]).unwrap();
    assert!(!cli.interactive);
    assert!(matches!(
        cli.source,
        DataSource::Tcp(TcpConfig { host, port: 23000 }) if host == "127.0.0.1"
    ));
}

#[test]
fn tcp_source_with_every_value_form() {
    let cli = Cli::try_parse_from(&["nmeagc", "-i", "-t", "--host=gnss.local", "-p", "2947"]).unwrap();
    assert!(cli.interactive);
    assert!(matches!(
        cli.source,
        DataSource::Tcp(TcpConfig { host, port: 2947 }) if host == "gnss.local"
    ));
    let cli = Cli::try_parse_from(&["nmeagc", "tcp", "-hlocalhost", "--port", "+80"]).unwrap();
    assert!(matches!(
        cli.source,
        DataSource::Tcp(TcpConfig { host, port: 80 }) if host == "localhost"
    ));
    let cli = Cli::try_parse_from(&["nmeagc", "tcp", "-p=65535"]).unwrap();
    assert!(matches!(cli.source, DataSource::Tcp(TcpConfig { port: 65535, .. })));
}

#[test]
fn serial_source_with_every_option() {
    let cli = Cli::try_parse_from(&[
        "nmeagc",
        "serial",
        "--baudrate",
        "115200",
        "/dev/ttyACM0",
        "--data-bits",
        "seven",
        "--parity=even",
        "--stop-bits",
        "two",
        "--flow-control",
        "hardware",
        "--timeout",
        "250",
    ])
    .unwrap();
    assert!(matches!(
        cli.source,
        DataSource::Serial(SerialConfig {
            serial_path,
            baudrate: 115200,
            data_bits: CliDataBits::Seven,
            parity: CliParity::Even,
            stop_bits: CliStopBits::Two,
            flow_control: CliFlowControl::Hardware,
            timeout: Some(250),
        }) if serial_path == "/dev/ttyACM0"
    ));
}

#[test]
fn each_error_kind_has_its_input() {
    assert_eq!(kind_of(&[]), CliErrorKind::DisplayHelpOnMissingArgumentOrSubcommand);
    assert_eq!(kind_of(&["nmeagc", "-H"]), CliErrorKind::DisplayHelp);
    assert_eq!(kind_of(&["nmeagc", "help"]), CliErrorKind::DisplayHelp);
    assert_eq!(kind_of(&["nmeagc", "tcp", "--help"]), CliErrorKind::DisplayHelp);
    assert_eq!(kind_of(&["nmeagc", "--version"]), CliErrorKind::DisplayVersion);
    assert_eq!(kind_of(&["nmeagc", "-i"]), CliErrorKind::MissingSubcommand);
    assert_eq!(kind_of(&["nmeagc", "udp"]), CliErrorKind::InvalidSubcommand);
    assert_eq!(kind_of(&["nmeagc", "-x"]), CliErrorKind::UnknownArgument);
    assert_eq!(kind_of(&["nmeagc", "tcp", "extra"]), CliErrorKind::UnknownArgument);
    assert_eq!(kind_of(&["nmeagc", "tcp", "--port"]), CliErrorKind::ValueRequired);
    assert_eq!(kind_of(&["nmeagc", "tcp", "--port", "-1"]), CliErrorKind::ValueRequired);
    assert_eq!(kind_of(&["nmeagc", "tcp", "--port", "65536"]), CliErrorKind::ValueValidation);
    assert_eq!(kind_of(&["nmeagc", "tcp", "--port", " 80"]), CliErrorKind::ValueValidation);
    assert_eq!(kind_of(&["nmeagc", "-s", "/dev/ttyS0", "--parity", "mark"]), CliErrorKind::InvalidValue);
    assert_eq!(kind_of(&["nmeagc", "-i", "-i", "-f", "x"]), CliErrorKind::ArgumentConflict);
    assert_eq!(kind_of(&["nmeagc", "tcp", "-p", "1", "-p", "2"]), CliErrorKind::ArgumentConflict);
    assert_eq!(kind_of(&["nmeagc", "serial"]), CliErrorKind::MissingRequiredArgument);
    assert_eq!(kind_of(&["nmeagc", "file"]), CliErrorKind::MissingRequiredArgument);
}
