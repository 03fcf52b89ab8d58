use ns_core::connect_default::DefaultConnectImpl;
use ns_core::errors::ThreadError;
use ns_core::movement_default::gen_test_fixed_velocity;
use ns_core::scalar::Real;
use ns_core::scheduler::Scheduler;
use ns_core::transmit_default::TransmitDefault;

#[test]
fn it_works() {
    let result = 2 + 2;
    assert_eq!(result, 4);
}

#[test]
fn test_run_executes_whole_ticks_only() {
    // floor(100 / 1.2) = 83 ticks; the first terminal moves by exactly
    // 10 * 1.2 = 12 units each tick, so a partial 84th tick would show
    let fl = gen_test_fixed_velocity();
    let connect = DefaultConnectImpl {};
    let transmit = TransmitDefault::init();
    let mut schedule = Scheduler::init(fl, connect, transmit, Real::from_repr("100"));
    schedule.run();
    let x: f64 = schedule.get_ues()[0].position.x().repr.parse().unwrap();
    let mut expected = 50.0f64;
    for _ in 0..83 {
        expected += 10.0 * 1.2;
    }
    assert_eq!(x, expected);
    assert_eq!(x, 1046.0);
}

#[test]
fn test_init_synthesises_ids() {
    let fl = gen_test_fixed_velocity();
    let connect = DefaultConnectImpl {};
    let transmit = TransmitDefault::init();
    let schedule = Scheduler::init(fl, connect, transmit, Real::from_repr("100"));
    let ues = schedule.get_ues();
    assert_eq!(ues.len(), 3);
    assert_eq!(ues[0].id, "UE-0");
    assert_eq!(ues[1].id, "UE-1");
    assert_eq!(ues[2].id, "UE-2");
    let bss = schedule.get_bss();
    assert_eq!(bss.len(), 2);
    assert_eq!(bss[0].id, "BS-(0, 0, 0)");
    assert_eq!(bss[1].id, "BS-(100, 100, 0)");
}

#[test]
fn test_single_tick_phases() {
    // one tick by hand: association, transport, advance
    let fl = gen_test_fixed_velocity();
    let connect = DefaultConnectImpl {};
    let transmit = TransmitDefault::init();
    let mut schedule = Scheduler::init(fl, connect, transmit, Real::from_repr("100"));
    // inject the association strategy for this tick explicitly
    schedule.connecting(Some(DefaultConnectImpl {}));
    // the first terminal starts at (50, 0), within range of the station
    // at the origin only
    assert_eq!(schedule.get_ues()[0].target_bs(), Some("BS-(0, 0, 0)".to_string()));
    schedule.communication(None);
    schedule.next_state();
    let x: f64 = schedule.get_ues()[0].position.x().repr.parse().unwrap();
    assert_eq!(x, 62.0);
}

#[test]
fn test_thread_error_messages() {
    let e1 = ThreadError::OSFailToCreateThread("no threads left".to_string());
    assert_eq!(e1.message(), "The thread spawned by os face unexpected situation.");
    let e2 = ThreadError::TaskSendError("channel closed".to_string());
    assert_eq!(
        e2.message(),
        "The task sent by thread pool failure. Flume error: channel closed"
    );
}
