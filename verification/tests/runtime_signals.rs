use sigil::runtime::signals::{
    check_signals, forwarded_signals, init_handlers, record_signal, supervisor_handlers, HandlerSpec,
    SignalEvent, SignalFlags,
};

#[test]
fn forwarded_signals_are_int_term_quit_hup() {
    assert_eq!(forwarded_signals(), vec![2, 15, 3, 1]);
}

#[test]
fn termination_signals_request_termination() {
    for sig in [1, 2, 3, 15] {
        let mut f = SignalFlags::new();
        record_signal(&mut f, sig);
        assert!(f.termination && !f.child_event, "signal {}", sig);
        assert_eq!(check_signals(&mut f), Some(SignalEvent::Terminate));
        assert_eq!(check_signals(&mut f), None);
    }
}

#[test]
fn child_signal_only_wakes() {
    let mut f = SignalFlags::new();
    record_signal(&mut f, 17);
    assert!(!f.termination && f.child_event);
    assert_eq!(check_signals(&mut f), Some(SignalEvent::Reap));
    assert_eq!(check_signals(&mut f), None);
}

#[test]
fn other_and_unknown_signals_are_ignored() {
    for sig in [0, 9, 10, 31, 32, 64, -1, 99] {
        let mut f = SignalFlags::new();
        record_signal(&mut f, sig);
        assert_eq!(f, SignalFlags::new(), "signal {}", sig);
    }
}

#[test]
fn termination_first_then_reap_then_nothing() {
    let mut f = SignalFlags::new();
    record_signal(&mut f, 17);
    record_signal(&mut f, 2);
    assert_eq!(check_signals(&mut f), Some(SignalEvent::Terminate));
    assert_eq!(check_signals(&mut f), Some(SignalEvent::Reap));
    assert_eq!(check_signals(&mut f), None);
}

#[test]
fn handler_dispositions() {
    let h = |signal, restart, no_child_stop| HandlerSpec { signal, restart, no_child_stop };
    assert_eq!(
        supervisor_handlers(),
        vec![h(2, true, false), h(15, true, false), h(3, true, false), h(1, true, false), h(17, true, true)]
    );
    assert_eq!(init_handlers(), vec![h(2, false, false), h(15, false, false), h(3, false, false), h(1, false, false)]);
}

#[test]
fn interleavings_report_exactly_what_was_handled() {
    // A fixed pseudo-random walk over handler runs and checks.
    let mut seed: u32 = 12345;
    let signals = [1, 2, 3, 15, 17, 9, 40];
    let mut f = SignalFlags::new();
    let mut term_since = false;
    let mut child_since = false;
    let mut last_check_was_terminate = false;
    for _ in 0..2000 {
        seed = seed.wrapping_mul(1103515245).wrapping_add(12345);
        if (seed >> 16) % 3 == 0 {
            let sig = signals[((seed >> 8) % signals.len() as u32) as usize];
            record_signal(&mut f, sig);
            if [1, 2, 3, 15].contains(&sig) {
                term_since = true;
            }
            if sig == 17 {
                child_since = true;
            }
            last_check_was_terminate = false;
        } else {
            let child_before = child_since;
            match check_signals(&mut f) {
                Some(SignalEvent::Terminate) => {
                    assert!(term_since);
                    term_since = false;
                    last_check_was_terminate = true;
                }
                Some(SignalEvent::Reap) => {
                    assert!(child_since && !term_since);
                    child_since = false;
                    last_check_was_terminate = false;
                }
                None => {
                    assert!(!term_since && !child_since);
                    assert!(!(last_check_was_terminate && child_before));
                    last_check_was_terminate = false;
                }
            }
        }
    }
}
