use nmeagc::gnss::Gnss;
use nmeagc::nmea::{
    classify, gnss_of, line_events, solution_type, ConstellationKind, FixKind, outcome_of, process_line, sentence_of_line, ParseFailure,
    RawNmeaStatus, SentenceKind, SolutionType,
};

#[test]
fn lines_are_classified() {
    let gga = process_line(
        "$GPGGA,092750.000,5321.6802,N,00630.3372,W,1,8,1.03,61.7,M,55.2,M,,*76\r\n",
    );
    assert_eq!(gga.message, Some(SentenceKind::Gga));
    assert_eq!(gga.log.status, RawNmeaStatus::Gnss);
    assert_eq!(
        gga.log.sentence,
        "$GPGGA,092750.000,5321.6802,N,00630.3372,W,1,8,1.03,61.7,M,55.2,M,,*76"
    );

    let gst = process_line("$GPGST,182141.000,15.5,15.3,7.2,21.8,0.9,0.5,0.8*54\r\n");
    assert_eq!(gst.message, None);
    assert_eq!(gst.log.status, RawNmeaStatus::Unimplemented);

    let bad = process_line("$GPGGA,garbage*00\r\n");
    assert_eq!(bad.message, None);
    assert_eq!(bad.log.status, RawNmeaStatus::Error);
}

#[test]
fn classification_of_outcomes() {
    assert_eq!(classify(Ok(SentenceKind::Gsv)), RawNmeaStatus::Gnss);
    assert_eq!(classify(Ok(SentenceKind::Other)), RawNmeaStatus::Other);
    assert_eq!(classify(Err(ParseFailure::Unsupported(SentenceKind::Gst))), RawNmeaStatus::Unimplemented);
    assert_eq!(classify(Err(ParseFailure::Unsupported(SentenceKind::Other))), RawNmeaStatus::Other);
    assert_eq!(classify(Err(ParseFailure::Invalid)), RawNmeaStatus::Error);
}

#[test]
fn only_a_final_crlf_is_removed() {
    assert_eq!(sentence_of_line("$GPGLL*66\r\n"), "$GPGLL*66");
    assert_eq!(sentence_of_line("$GPGLL*66\n"), "$GPGLL*66\n");
    assert_eq!(sentence_of_line("\r\n"), "");
    assert_eq!(SolutionType::default(), SolutionType::Invalid);
}

#[test]
fn kinds_that_are_not_taken_in_are_unsupported() {
    let vtg = process_line("$GPVTG,054.7,T,034.4,M,005.5,N,010.2,K*48\r\n");
    assert_eq!(vtg.message, Some(SentenceKind::Vtg));
    assert_eq!(vtg.log.status, RawNmeaStatus::Other);

    let zda = process_line("$GPZDA,201530.00,04,07,2002,00,00*60");
    assert_eq!(zda.message, None);
    assert_eq!(zda.log.status, RawNmeaStatus::Other);

    assert_eq!(outcome_of(Ok(SentenceKind::Gst)), Err(ParseFailure::Unsupported(SentenceKind::Gst)));
    assert_eq!(outcome_of(Ok(SentenceKind::Txt)), Ok(SentenceKind::Txt));
    assert_eq!(outcome_of(Err(ParseFailure::Invalid)), Err(ParseFailure::Invalid));
}

#[test]
fn line_events_follow_the_parsed_kind() {
    let events = line_events(String::from("$GPGSV"), Ok(SentenceKind::Gsv));
    assert_eq!(events.message, Some(SentenceKind::Gsv));
    assert_eq!(events.log.status, RawNmeaStatus::Gnss);
    assert_eq!(events.log.sentence, "$GPGSV");
    let events = line_events(String::from("x"), Ok(SentenceKind::Other));
    assert_eq!(events.message, None);
    assert_eq!(events.log.status, RawNmeaStatus::Other);
}

#[test]
fn classification_agrees_with_the_shared_parser() {
    let lines = [
        "$GPGGA,092750.000,5321.6802,N,00630.3372,W,1,8,1.03,61.7,M,55.2,M,,*76",
        "$GPVTG,054.7,T,034.4,M,005.5,N,010.2,K*48",
        "$GPZDA,201530.00,04,07,2002,00,00*60",
        "$GPGST,182141.000,15.5,15.3,7.2,21.8,0.9,0.5,0.8*54",
        "$GPGGA,garbage*00",
    ];
    let mut parser = nmea::Nmea::default();
    for line in lines {
        let events = process_line(line);
        let parsed_ok = parser.parse(line).is_ok();
        assert_eq!(events.message.is_some(), parsed_ok, "{line}");
    }
}

#[test]
fn fix_types_give_solution_types() {
    assert_eq!(solution_type(FixKind::Invalid), SolutionType::Invalid);
    assert_eq!(solution_type(FixKind::Gps), SolutionType::Sps3D);
    assert_eq!(solution_type(FixKind::DGps), SolutionType::Differential);
    assert_eq!(solution_type(FixKind::Rtk), SolutionType::RtkFixed);
    assert_eq!(solution_type(FixKind::FloatRtk), SolutionType::RtkFloat);
    assert_eq!(solution_type(FixKind::Estimated), SolutionType::Extrapolated);
    assert_eq!(solution_type(FixKind::Simulation), SolutionType::Simulated);
}

#[test]
fn parser_constellations_give_client_constellations() {
    assert_eq!(gnss_of(ConstellationKind::Gps), Gnss::Gps);
    assert_eq!(gnss_of(ConstellationKind::Glonass), Gnss::Glonass);
    assert_eq!(gnss_of(ConstellationKind::Galileo), Gnss::Galileo);
    assert_eq!(gnss_of(ConstellationKind::Beidou), Gnss::Beidou);
    assert_eq!(gnss_of(ConstellationKind::NavIC), Gnss::Other);
    assert_eq!(gnss_of(ConstellationKind::Qzss), Gnss::Other);
}
