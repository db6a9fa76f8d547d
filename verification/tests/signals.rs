use nmeagc::gnss::{Gnss, GnssSignal, GpsSignal};
use nmeagc::signals::{SignalInfo, SignalInfoSet};

#[test]
fn dummy_signals_are_counted() {
    let set = SignalInfoSet(SignalInfo::dummy());
    assert_eq!(set.count_signals(), (13, 8));
    // G01, E05, G03, G28, G24, E03, E36, R22
    assert_eq!(set.count_satellites(), (8, 6));
}

#[test]
fn dummy_signals_are_grouped_by_satellite() {
    let set = SignalInfoSet(SignalInfo::dummy());
    let groups = set.bar_groups();
    let labels: Vec<String> = groups.iter().map(|g| g.label.clone()).collect();
    assert_eq!(labels, vec!["G01", "G03", "G24", "G28", "R22", "E03", "E05", "E36"]);
    let g28 = &groups[3];
    let codes: Vec<&str> = g28.bars.iter().map(|b| b.label).collect();
    assert_eq!(codes, vec!["L1CA", "L2C", "L1C", "L5IQ"]);
    assert_eq!(g28.bars[0].value, 39);
    assert!(g28.bars[1].used);
    assert!(!g28.bars[3].used);
    assert_eq!(groups.iter().map(|g| g.bars.len()).sum::<usize>(), 13);
}

#[test]
fn first_signal_decides_whether_a_satellite_is_used() {
    let set = SignalInfoSet(vec![
        SignalInfo::new(GnssSignal::Gps(GpsSignal::L1CA), 7, 40, false),
        SignalInfo::new(GnssSignal::Gps(GpsSignal::L2C), 7, 40, true),
        SignalInfo::new(GnssSignal::Other, 200, 10, true),
    ]);
    assert_eq!(set.count_satellites(), (2, 1));
    let groups = set.bar_groups();
    assert_eq!(groups.len(), 2);
    assert_eq!(groups[0].gnss, Gnss::Gps);
    assert_eq!(groups[1].label, "-200");
    assert_eq!(SignalInfoSet(vec![]).count_satellites(), (0, 0));
}

#[test]
fn chart_and_counts_agree() {
    let set = SignalInfoSet(vec![
        SignalInfo::new(GnssSignal::Gps(GpsSignal::L1CA), 9, 35, true),
        SignalInfo::new(GnssSignal::Other, 4, 20, false),
        SignalInfo::new(GnssSignal::Gps(GpsSignal::L5IQ), 9, 31, false),
        SignalInfo::new(GnssSignal::Gps(GpsSignal::L2C), 2, 28, true),
    ]);
    let groups = set.bar_groups();
    assert_eq!(groups.len(), set.count_satellites().0);
    let bars: usize = groups.iter().map(|g| g.bars.len()).sum();
    assert_eq!(bars, set.count_signals().0);
    assert_eq!((groups.len(), bars), (3, 4));
}
