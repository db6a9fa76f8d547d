use nmeagc::gnss::{BeidouSignal, GalileoSignal, GlonassSignal, Gnss, GnssSignal, GpsSignal};

#[test]
fn constellation_names() {
    assert_eq!(Gnss::Gps.as_str(), "GPS");
    assert_eq!(Gnss::Glonass.as_str(), "GLONASS");
    assert_eq!(Gnss::Galileo.as_str(), "Galileo");
    assert_eq!(Gnss::Beidou.as_str(), "BeiDou");
    assert_eq!(Gnss::Other.as_str(), "Other");
    assert_eq!(Gnss::Glonass.as_char(), 'R');
    assert_eq!(Gnss::Other.as_char(), '-');
    assert_eq!(Gnss::Beidou.as_code_str(), "BDS");
    assert_eq!(Gnss::Glonass.as_code_str(), "GLO");
}

#[test]
fn signal_codes() {
    assert_eq!(GnssSignal::Gps(GpsSignal::L1CA).as_signal_code_str(), "L1CA");
    assert_eq!(GnssSignal::Galileo(GalileoSignal::E5AIQ).as_signal_code_str(), "E5AIQ");
    assert_eq!(GnssSignal::Glonass(GlonassSignal::L2OC).as_signal_code_str(), "L2OC");
    assert_eq!(GnssSignal::Beidou(BeidouSignal::B3A).as_signal_code_str(), "B3A");
    assert_eq!(GnssSignal::Other.as_signal_code_str(), "UNK");
}

#[test]
fn default_signal_round_trip() {
    for gnss in [Gnss::Gps, Gnss::Glonass, Gnss::Galileo, Gnss::Beidou, Gnss::Other] {
        assert_eq!(Gnss::from(GnssSignal::from(gnss)), gnss);
    }
    assert_eq!(GnssSignal::from(Gnss::Galileo), GnssSignal::Galileo(GalileoSignal::E1BC));
    assert_eq!(GnssSignal::from(Gnss::Beidou), GnssSignal::Beidou(BeidouSignal::B1I));
    assert_eq!(Gnss::default(), Gnss::Gps);
}
