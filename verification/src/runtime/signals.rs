//! Signal bookkeeping: which signals the runtime handles, what a handler
//! records, and the events the supervisor takes from those records.
use vstd::prelude::*;
use nix::sys::signal::Signal;

verus! {

/// The signals the runtime handles by name.
#[derive(Debug, Clone, Copy, PartialEq, Eq, Structural)]
pub enum SignalName {
    /// `SIGHUP`
    Hangup,
    /// `SIGINT`
    Interrupt,
    /// `SIGQUIT`
    Quit,
    /// `SIGTERM`
    Terminate,
    /// `SIGCHLD`
    Child,
}

/// The Linux number of a named signal (generic Linux targets).
pub open spec fn signo(name: SignalName) -> i32 {
    match name {
        SignalName::Hangup => 1,
        SignalName::Interrupt => 2,
        SignalName::Quit => 3,
        SignalName::Terminate => 15,
        SignalName::Child => 17,
    }
}

/// The number of a named signal, taken from nix's `Signal` (`Signal::SIGHUP
/// as i32` and so on). The contract claims the values that nix takes from
/// libc's generic Linux constants (x86_64, aarch64, arm, riscv, powerpc);
/// it does not hold on mips or sparc Linux, where `SIGCHLD` is 18 or 20.
#[verifier::external_body]
pub(crate) fn signal_number(name: SignalName) -> (n: i32)
    ensures
        n == signo(name),
{
    match name {
        SignalName::Hangup => Signal::SIGHUP as i32,
        SignalName::Interrupt => Signal::SIGINT as i32,
        SignalName::Quit => Signal::SIGQUIT as i32,
        SignalName::Terminate => Signal::SIGTERM as i32,
        SignalName::Child => Signal::SIGCHLD as i32,
    }
}

/// The signal numbers that nix's `Signal` has a variant for on generic
/// Linux targets.
pub open spec fn is_known_signal(n: i32) -> bool {
    1 <= n <= 31
}

/// `Signal::try_from(n)` from nix, with the signal given back as its number.
/// The contract claims what nix's source shows on generic Linux targets
/// (x86_64, aarch64, arm, riscv, powerpc): the conversion accepts exactly
/// the numbers of its variants, `SIGHUP` (1) to `SIGSYS` (31), and fails with
/// `EINVAL` on every other number. It does not hold on mips or sparc Linux,
/// whose signal numbers differ and leave gaps in 1 to 31.
#[verifier::external_body]
pub(crate) fn known_signal(n: i32) -> (r: Option<i32>)
    ensures
        r == (if is_known_signal(n) {
            Some(n)
        } else {
            None::<i32>
        }),
{
    match Signal::try_from(n) {
        Ok(sig) => Some(sig as i32),
        Err(_) => None,
    }
}

/// The signals that ask the runtime to shut the container down.
pub open spec fn is_termination_signal(n: i32) -> bool {
    ||| n == signo(SignalName::Hangup)
    ||| n == signo(SignalName::Interrupt)
    ||| n == signo(SignalName::Quit)
    ||| n == signo(SignalName::Terminate)
}

/// The signals the runtime forwards to the container: `SIGINT`, `SIGTERM`,
/// `SIGQUIT` and `SIGHUP`, in this order.
pub open spec fn spec_forwarded_signals() -> Seq<i32> {
    seq![
        signo(SignalName::Interrupt),
        signo(SignalName::Terminate),
        signo(SignalName::Quit),
        signo(SignalName::Hangup),
    ]
}

/// The numbers of the signals the runtime forwards, in the order their
/// handlers are installed.
pub fn forwarded_signals() -> (v: Vec<i32>)
    ensures
        v@ == spec_forwarded_signals(),
{
    let mut v = Vec::new();
    v.push(signal_number(SignalName::Interrupt));
    v.push(signal_number(SignalName::Terminate));
    v.push(signal_number(SignalName::Quit));
    v.push(signal_number(SignalName::Hangup));
    v
}

/// How a signal handler is installed.
#[derive(Debug, Clone, Copy, PartialEq, Eq, Structural)]
pub struct HandlerSpec {
    /// The signal's number.
    pub signal: i32,
    /// `SA_RESTART`: restart system calls the signal interrupts.
    pub restart: bool,
    /// `SA_NOCLDSTOP`: no signal when a child merely stops or continues.
    pub no_child_stop: bool,
}

/// The supervisor's handlers: each forwarded signal with `SA_RESTART`, then
/// `SIGCHLD` with `SA_RESTART` and `SA_NOCLDSTOP`.
pub open spec fn spec_supervisor_handlers() -> Seq<HandlerSpec> {
    seq![
        HandlerSpec { signal: signo(SignalName::Interrupt), restart: true, no_child_stop: false },
        HandlerSpec { signal: signo(SignalName::Terminate), restart: true, no_child_stop: false },
        HandlerSpec { signal: signo(SignalName::Quit), restart: true, no_child_stop: false },
        HandlerSpec { signal: signo(SignalName::Hangup), restart: true, no_child_stop: false },
        HandlerSpec { signal: signo(SignalName::Child), restart: true, no_child_stop: true },
    ]
}

/// The handlers the supervisor installs, in order.
pub fn supervisor_handlers() -> (v: Vec<HandlerSpec>)
    ensures
        v@ == spec_supervisor_handlers(),
{
    let forwarded = forwarded_signals();
    let mut v = Vec::new();
    let mut i: usize = 0;
    while i < forwarded.len()
        invariant
            i <= forwarded@.len(),
            forwarded@ == spec_forwarded_signals(),
            v@ == spec_supervisor_handlers().subrange(0, i as int),
        decreases forwarded@.len() - i,
    {
        v.push(HandlerSpec { signal: forwarded[i], restart: true, no_child_stop: false });
        assert(v@ =~= spec_supervisor_handlers().subrange(0, i + 1));
        i = i + 1;
    }
    v.push(
        HandlerSpec { signal: signal_number(SignalName::Child), restart: true, no_child_stop: true },
    );
    assert(v@ =~= spec_supervisor_handlers());
    v
}

/// The init process's handlers: each forwarded signal, with no flags.
pub open spec fn spec_init_handlers() -> Seq<HandlerSpec> {
    spec_forwarded_signals().map_values(
        |n: i32| HandlerSpec { signal: n, restart: false, no_child_stop: false },
    )
}

/// The handlers the init process installs, in order.
pub fn init_handlers() -> (v: Vec<HandlerSpec>)
    ensures
        v@ == spec_init_handlers(),
{
    let forwarded = forwarded_signals();
    let mut v = Vec::new();
    let mut i: usize = 0;
    while i < forwarded.len()
        invariant
            i <= forwarded@.len(),
            forwarded@ == spec_forwarded_signals(),
            v@ == spec_init_handlers().subrange(0, i as int),
        decreases forwarded@.len() - i,
    {
        v.push(HandlerSpec { signal: forwarded[i], restart: false, no_child_stop: false });
        assert(v@ =~= spec_init_handlers().subrange(0, i + 1));
        i = i + 1;
    }
    assert(v@ =~= spec_init_handlers());
    v
}

/// What a signal handler has recorded and the supervisor has not yet taken:
/// a request to terminate, and a change of state of a child.
#[derive(Debug, Clone, Copy, PartialEq, Eq, Structural)]
pub struct SignalFlags {
    pub termination: bool,
    pub child_event: bool,
}

impl SignalFlags {
    /// Nothing recorded.
    pub fn new() -> (f: SignalFlags)
        ensures
            !f.termination && !f.child_event,
    {
        SignalFlags { termination: false, child_event: false }
    }
}

/// An event the supervisor acts on.
#[derive(Debug, Clone, Copy, PartialEq, Eq, Structural)]
pub enum SignalEvent {
    /// Shut the container down.
    Terminate,
    /// A child changed state: look at it.
    Reap,
}

/// What a handler records on receiving signal `n`: a termination request
/// for `SIGHUP`, `SIGINT`, `SIGQUIT` and `SIGTERM`, a child event for
/// `SIGCHLD`, and nothing for any other number.
pub open spec fn spec_record_signal(flags: SignalFlags, n: i32) -> SignalFlags {
    if is_termination_signal(n) {
        SignalFlags { termination: true, ..flags }
    } else if n == signo(SignalName::Child) {
        SignalFlags { child_event: true, ..flags }
    } else {
        flags
    }
}

/// Records the receipt of signal `n` (the work of the signal handler).
pub fn record_signal(flags: &mut SignalFlags, n: i32)
    ensures
        *final(flags) == spec_record_signal(*old(flags), n),
{
    if let Some(sig) = known_signal(n) {
        if sig == signal_number(SignalName::Interrupt) || sig == signal_number(
            SignalName::Terminate,
        ) || sig == signal_number(SignalName::Quit) || sig == signal_number(SignalName::Hangup) {
            flags.termination = true;
        } else if sig == signal_number(SignalName::Child) {
            flags.child_event = true;
        }
    }
}

/// The event taken from the records, and the records left: a termination
/// request comes first; each event is taken once.
pub open spec fn spec_check_signals(flags: SignalFlags) -> (Option<SignalEvent>, SignalFlags) {
    if flags.termination {
        (Some(SignalEvent::Terminate), SignalFlags { termination: false, ..flags })
    } else if flags.child_event {
        (Some(SignalEvent::Reap), SignalFlags { child_event: false, ..flags })
    } else {
        (None, flags)
    }
}

/// Takes the next event from the records.
pub fn check_signals(flags: &mut SignalFlags) -> (e: Option<SignalEvent>)
    ensures
        (e, *final(flags)) == spec_check_signals(*old(flags)),
{
    if flags.termination {
        flags.termination = false;
        return Some(SignalEvent::Terminate);
    }
    if flags.child_event {
        flags.child_event = false;
        return Some(SignalEvent::Reap);
    }
    None
}

/// A child's change of state never asks for termination: after `SIGCHLD`
/// the termination record is what it was, and with no termination pending
/// the event taken is `Reap`.
pub proof fn lemma_child_signal_never_terminates(flags: SignalFlags)
    ensures
        spec_record_signal(flags, signo(SignalName::Child)).termination == flags.termination,
        !flags.termination ==> spec_check_signals(
            spec_record_signal(flags, signo(SignalName::Child)),
        ).0 == Some(SignalEvent::Reap),
{
}

/// Every forwarded signal, once recorded, is taken as a termination request
/// at the next check, whatever else is recorded.
pub proof fn lemma_forwarded_signal_terminates(flags: SignalFlags, i: int)
    requires
        0 <= i < spec_forwarded_signals().len(),
    ensures
        spec_check_signals(spec_record_signal(flags, spec_forwarded_signals()[i])).0 == Some(
            SignalEvent::Terminate,
        ),
{
}

/// No record is lost: with both recorded, checks give `Terminate`, then
/// `Reap`, then nothing.
pub proof fn lemma_no_event_lost(flags: SignalFlags)
    requires
        flags.termination,
        flags.child_event,
    ensures
        spec_check_signals(flags).0 == Some(SignalEvent::Terminate),
        spec_check_signals(spec_check_signals(flags).1).0 == Some(SignalEvent::Reap),
        spec_check_signals(spec_check_signals(spec_check_signals(flags).1).1).0 is None,
{
}

/// Records only accumulate: the order in which two signals arrive does not
/// matter, a signal recorded twice counts once, and no record is cleared
/// by a later signal.
pub proof fn lemma_records_accumulate(flags: SignalFlags, a: i32, b: i32)
    ensures
        spec_record_signal(spec_record_signal(flags, a), b) == spec_record_signal(
            spec_record_signal(flags, b),
            a,
        ),
        spec_record_signal(spec_record_signal(flags, a), a) == spec_record_signal(flags, a),
        flags.termination ==> spec_record_signal(flags, a).termination,
        flags.child_event ==> spec_record_signal(flags, a).child_event,
{
}

/// A number that is no signal nix knows changes nothing.
pub proof fn lemma_unknown_signal_ignored(flags: SignalFlags, n: i32)
    requires
        !is_known_signal(n),
    ensures
        spec_record_signal(flags, n) == flags,
{
}


/// One event of the signal bookkeeping: a handler run for signal number `n`,
/// or a check by the supervisor.
pub enum SignalAction {
    Handled(i32),
    Checked,
}

/// The event reported by an action (checks only) and the records after it.
pub open spec fn apply_action(flags: SignalFlags, a: SignalAction) -> (Option<SignalEvent>, SignalFlags) {
    match a {
        SignalAction::Handled(n) => (None, spec_record_signal(flags, n)),
        SignalAction::Checked => spec_check_signals(flags),
    }
}

/// The records after a run of actions, starting with nothing recorded.
pub open spec fn flags_after(acts: Seq<SignalAction>) -> SignalFlags
    decreases acts.len(),
{
    if acts.len() == 0 {
        SignalFlags { termination: false, child_event: false }
    } else {
        apply_action(flags_after(acts.drop_last()), acts.last()).1
    }
}

/// The event reported by action `k` of a run.
pub open spec fn report_at(acts: Seq<SignalAction>, k: int) -> Option<SignalEvent> {
    apply_action(flags_after(acts.take(k)), acts[k]).0
}

/// Whether action `j` is a handler run for a termination signal.
pub open spec fn handled_termination(acts: Seq<SignalAction>, j: int) -> bool {
    acts[j] matches SignalAction::Handled(n) && is_termination_signal(n)
}

/// Whether action `j` is a handler run for `SIGCHLD`.
pub open spec fn handled_child(acts: Seq<SignalAction>, j: int) -> bool {
    acts[j] matches SignalAction::Handled(n) && n == signo(SignalName::Child)
}

/// Before action `k`: a termination signal was handled since the last
/// reported `Terminate`.
pub open spec fn termination_pending(acts: Seq<SignalAction>, k: int) -> bool {
    exists|j: int|
        #![trigger handled_termination(acts, j)]
        0 <= j < k && handled_termination(acts, j) && forall|i: int|
            j < i < k ==> report_at(acts, i) != Some(SignalEvent::Terminate)
}

/// Before action `k`: `SIGCHLD` was handled since the last reported `Reap`.
pub open spec fn child_pending(acts: Seq<SignalAction>, k: int) -> bool {
    exists|j: int|
        #![trigger handled_child(acts, j)]
        0 <= j < k && handled_child(acts, j) && forall|i: int|
            j < i < k ==> report_at(acts, i) != Some(SignalEvent::Reap)
}

proof fn lemma_flags_step(acts: Seq<SignalAction>, k: int)
    requires
        0 <= k < acts.len(),
    ensures
        flags_after(acts.take(k + 1)) == apply_action(flags_after(acts.take(k)), acts[k]).1,
{
    assert(acts.take(k + 1).drop_last() =~= acts.take(k));
    assert(acts.take(k + 1).last() == acts[k]);
}

/// What is recorded before action `k` is exactly what is pending.
proof fn lemma_records_are_pending(acts: Seq<SignalAction>, k: int)
    requires
        0 <= k <= acts.len(),
    ensures
        flags_after(acts.take(k)).termination == termination_pending(acts, k),
        flags_after(acts.take(k)).child_event == child_pending(acts, k),
    decreases k,
{
    if k == 0 {
        assert(acts.take(0) =~= Seq::<SignalAction>::empty());
    } else {
        let p = k - 1;
        lemma_records_are_pending(acts, p);
        lemma_flags_step(acts, p);
        let f = flags_after(acts.take(p));
        let rep = report_at(acts, p);
        // termination
        if handled_termination(acts, p) {
            assert(termination_pending(acts, k));
        } else {
            if termination_pending(acts, k) {
                let j = choose|j: int|
                    #![trigger handled_termination(acts, j)]
                    0 <= j < k && handled_termination(acts, j) && forall|i: int|
                        j < i < k ==> report_at(acts, i) != Some(SignalEvent::Terminate);
                assert(j < p);
                assert(rep != Some(SignalEvent::Terminate));
                assert(termination_pending(acts, p));
            }
            if termination_pending(acts, p) && !(rep == Some(SignalEvent::Terminate)) {
                let j = choose|j: int|
                    #![trigger handled_termination(acts, j)]
                    0 <= j < p && handled_termination(acts, j) && forall|i: int|
                        j < i < p ==> report_at(acts, i) != Some(SignalEvent::Terminate);
                assert(forall|i: int| j < i < k ==> report_at(acts, i) != Some(SignalEvent::Terminate));
                assert(termination_pending(acts, k));
            }
        }
        // child event
        if handled_child(acts, p) {
            assert(child_pending(acts, k));
        } else {
            if child_pending(acts, k) {
                let j = choose|j: int|
                    #![trigger handled_child(acts, j)]
                    0 <= j < k && handled_child(acts, j) && forall|i: int|
                        j < i < k ==> report_at(acts, i) != Some(SignalEvent::Reap);
                assert(j < p);
                assert(rep != Some(SignalEvent::Reap));
                assert(child_pending(acts, p));
            }
            if child_pending(acts, p) && !(rep == Some(SignalEvent::Reap)) {
                let j = choose|j: int|
                    #![trigger handled_child(acts, j)]
                    0 <= j < p && handled_child(acts, j) && forall|i: int|
                        j < i < p ==> report_at(acts, i) != Some(SignalEvent::Reap);
                assert(forall|i: int| j < i < k ==> report_at(acts, i) != Some(SignalEvent::Reap));
                assert(child_pending(acts, k));
            }
        }
    }
}

/// Over any interleaving of handler runs and checks, starting with nothing
/// recorded, a check reports `Terminate` only if a termination signal was
/// handled since the last `Terminate` it reported, and `Reap` only if
/// `SIGCHLD` was handled since the last `Reap`; repeated signals between two
/// reports thus make one report.
pub proof fn lemma_reports_only_what_was_handled(acts: Seq<SignalAction>, k: int)
    requires
        0 <= k < acts.len(),
    ensures
        report_at(acts, k) == Some(SignalEvent::Terminate) ==> termination_pending(acts, k),
        report_at(acts, k) == Some(SignalEvent::Reap) ==> child_pending(acts, k),
{
    lemma_records_are_pending(acts, k);
}

/// Over any interleaving, a handled termination signal is reported by the
/// next check: if action `j` handles one and action `k` is the first check
/// after it, `k` reports `Terminate`.
pub proof fn lemma_termination_reported_next(acts: Seq<SignalAction>, j: int, k: int)
    requires
        0 <= j < k < acts.len(),
        handled_termination(acts, j),
        acts[k] is Checked,
        forall|i: int| j < i < k ==> (#[trigger] acts[i]) is Handled,
    ensures
        report_at(acts, k) == Some(SignalEvent::Terminate),
{
    assert forall|i: int| j < i < k implies report_at(acts, i) != Some(SignalEvent::Terminate) by {
        assert(acts[i] is Handled);
    }
    assert(termination_pending(acts, k));
    lemma_records_are_pending(acts, k);
}

/// Over any interleaving, a handled `SIGCHLD` is reported by one of the next
/// two checks: if action `j` handles it and action `k` is the first check
/// after it, `k` reports `Reap`, or it reports `Terminate` and a check right
/// after `k` reports `Reap`.
pub proof fn lemma_child_event_reported(acts: Seq<SignalAction>, j: int, k: int)
    requires
        0 <= j < k < acts.len(),
        handled_child(acts, j),
        acts[k] is Checked,
        forall|i: int| j < i < k ==> (#[trigger] acts[i]) is Handled,
    ensures
        report_at(acts, k) == Some(SignalEvent::Reap) || report_at(acts, k) == Some(
            SignalEvent::Terminate,
        ),
        report_at(acts, k) == Some(SignalEvent::Terminate) && k + 1 < acts.len()
            && acts[k + 1] is Checked ==> report_at(acts, k + 1) == Some(SignalEvent::Reap),
{
    assert forall|i: int| j < i < k implies report_at(acts, i) != Some(SignalEvent::Reap) by {
        assert(acts[i] is Handled);
    }
    assert(child_pending(acts, k));
    lemma_records_are_pending(acts, k);
    if k + 1 < acts.len() {
        lemma_flags_step(acts, k);
    }
}

} // verus!
