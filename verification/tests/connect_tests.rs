use ns_core::access::AccessMode;
use ns_core::bs::BS;
use ns_core::communication::Connect;
use ns_core::connect_default::DefaultConnectImpl;
use ns_core::errors::NsError;
use ns_core::point::Point;
use ns_core::scalar::Real;
use ns_core::ue::UE;

fn p2(x: &str, y: &str) -> Point {
    Point::init_2d(Real::from_repr(x), Real::from_repr(y))
}

fn has_key(bs: &BS, key: &str) -> bool {
    bs.connected_ues().iter().any(|e| e.0 == key)
}

#[test]
fn test_equidistant_stations_take_the_later() {
    // two stations at the same distance: the one scanned later wins
    let c = DefaultConnectImpl {};
    let mut ue: Vec<UE> = vec![UE::new("t".to_string(), p2("0", "0"))];
    let mut bs: Vec<BS> = vec![
        BS::new("left".to_string(), p2("-5", "0"), AccessMode::NOMA),
        BS::new("right".to_string(), p2("5", "0"), AccessMode::NOMA),
    ];
    c.connect(&mut ue, &mut bs);
    assert_eq!(ue[0].target_bs(), Some("right".to_string()));
}

#[test]
fn test_connect() {
    let c = DefaultConnectImpl {};
    let mut ue: Vec<UE> = vec![
        UE::new("11".to_string(), p2("50", "20")),
        UE::new("22".to_string(), p2("-30", "-10")),
        UE::new("33".to_string(), p2("-10", "20")),
    ];
    let mut bs: Vec<BS> = vec![
        BS::new("BS1".to_string(), p2("-10", "10"), AccessMode::NOMA),
        BS::new("BS2".to_string(), p2("50", "10"), AccessMode::NOMA),
    ];
    c.connect(&mut ue, &mut bs);
    assert!(has_key(&bs[0], "22"));
    assert!(has_key(&bs[0], "33"));
    assert!(has_key(&bs[1], "11"));
}

#[test]
fn test_distance_based_assignment() {
    // the terminal at (50, 20) is nearer to the station at (50, 10)
    let c = DefaultConnectImpl {};
    let mut ue: Vec<UE> = vec![UE::new("t".to_string(), p2("50", "20"))];
    let mut bs: Vec<BS> = vec![
        BS::new("far".to_string(), p2("-10", "10"), AccessMode::NOMA),
        BS::new("near".to_string(), p2("50", "10"), AccessMode::NOMA),
    ];
    c.connect(&mut ue, &mut bs);
    assert_eq!(ue[0].target_bs(), Some("near".to_string()));
    assert!(ue[0].channel_gain.is_some());
    assert!(has_key(&bs[1], "t"));
    assert!(!has_key(&bs[0], "t"));
}

#[test]
fn test_connect_skips_uncovered_terminal() {
    // no station lies within the 100-unit service radius of this terminal
    let c = DefaultConnectImpl {};
    let mut ue: Vec<UE> = vec![UE::new("far-away".to_string(), p2("1000", "1000"))];
    let mut bs: Vec<BS> = vec![BS::new("BS1".to_string(), p2("0", "0"), AccessMode::NOMA)];
    c.connect(&mut ue, &mut bs);
    assert_eq!(ue[0].target_bs(), None);
    assert!(ue[0].channel_gain.is_none());
    assert!(!has_key(&bs[0], "far-away"));
}

#[test]
fn test_try_connect_reports_uncovered_terminal() {
    let c = DefaultConnectImpl {};
    let mut ue: Vec<UE> = vec![UE::new("far-away".to_string(), p2("1000", "1000"))];
    let mut bs: Vec<BS> = vec![BS::new("BS1".to_string(), p2("0", "0"), AccessMode::NOMA)];
    let r = c.try_connect(&mut ue, &mut bs);
    assert!(matches!(r, Err(NsError::UncoveredTerminal)));
    assert_eq!(ue[0].target_bs(), None);

    let mut ue2: Vec<UE> = vec![UE::new("close".to_string(), p2("3", "4"))];
    let r2 = c.try_connect(&mut ue2, &mut bs);
    assert!(matches!(r2, Ok(())));
    assert_eq!(ue2[0].target_bs(), Some("BS1".to_string()));
}

#[test]
fn test_service_radius_boundary() {
    // a station at exactly the 100-unit radius still serves; one step
    // beyond does not
    let c = DefaultConnectImpl {};
    let mut ue: Vec<UE> = vec![UE::new("edge".to_string(), p2("100", "0"))];
    let mut bs: Vec<BS> = vec![BS::new("BS1".to_string(), p2("0", "0"), AccessMode::NOMA)];
    c.connect(&mut ue, &mut bs);
    assert_eq!(ue[0].target_bs(), Some("BS1".to_string()));

    let mut ue2: Vec<UE> = vec![UE::new("outside".to_string(), p2("100.0001", "0"))];
    c.connect(&mut ue2, &mut bs);
    assert_eq!(ue2[0].target_bs(), None);
}

#[test]
fn test_reconnect_replaces_mapping_entry() {
    // a second pass rewrites the station's entry for the terminal rather
    // than growing the mapping
    let c = DefaultConnectImpl {};
    let mut ue: Vec<UE> = vec![UE::new("t".to_string(), p2("1", "1"))];
    let mut bs: Vec<BS> = vec![BS::new("BS1".to_string(), p2("0", "0"), AccessMode::NOMA)];
    c.connect(&mut ue, &mut bs);
    c.connect(&mut ue, &mut bs);
    assert_eq!(bs[0].connected_ues().len(), 1);
}

#[test]
fn test_connect_gain_matches_channel_model() {
    // the recorded gain is the line-of-sight gain at the boresight
    // transmit angle and the terminal's angle of arrival
    let c = DefaultConnectImpl {};
    let mut ue: Vec<UE> = vec![UE::new("t".to_string(), p2("50", "20"))];
    let mut bs: Vec<BS> = vec![BS::new("BS2".to_string(), p2("50", "10"), AccessMode::NOMA)];
    c.connect(&mut ue, &mut bs);
    let gain = ue[0].channel_gain.as_ref().unwrap();
    assert_eq!(gain.shape(), (ns_core::settings::ANTENNA_UE, ns_core::settings::ANTENNA_BS));
    let alpha = ns_core::cpx::Cpx::new(
        Real::from_repr("10000000000"),
        Real::from_repr("10000000000"),
    );
    let theta_r = p2("50", "20").aov_2d(&p2("50", "10"));
    let expected = ns_core::mimo::channel_gain_los(
        &alpha,
        ns_core::settings::ANTENNA_BS,
        ns_core::settings::ANTENNA_UE,
        &Real::from_repr("90"),
        &theta_r,
    );
    for i in 0..ns_core::settings::ANTENNA_UE {
        for j in 0..ns_core::settings::ANTENNA_BS {
            let a = gain.entry(i, j);
            let b = expected.entry(i, j);
            let are: f64 = a.re.repr.parse().unwrap();
            let bre: f64 = b.re.repr.parse().unwrap();
            let aim: f64 = a.im.repr.parse().unwrap();
            let bim: f64 = b.im.repr.parse().unwrap();
            assert_eq!(are, bre);
            assert_eq!(aim, bim);
        }
    }
}
