//! Connectivity probing and monitoring.
//!
//! A probe round asks a fixed list of well-known endpoints, in priority order,
//! whether they answer, and reduces the answers to one boolean: connected as
//! soon as any endpoint answers, disconnected when none does. The monitor keeps
//! the last verdict and reports every change of it as a [`Transition`].
//!
//! Resolving names and sending echo requests is the caller's business. The
//! library decides which endpoint is asked next, when a round is over, what its
//! verdict is and whether the verdict is news.

use vstd::prelude::*;

verus! {

/// Fewest endpoints a monitor accepts, so that one blocked resolver or provider
/// cannot make the host look offline.
pub const MIN_TARGETS: usize = 4;

/// Seconds between two probe rounds of the standing poll.
pub const POLL_INTERVAL_SECS: u64 = 30;

/// Milliseconds to pause between two endpoints of one round.
pub const PROBE_GAP_MS: u64 = 100;

/// Sequence number carried by every echo request.
pub const PING_SEQUENCE: u16 = 0;

/// Number of zero bytes in the payload of an echo request.
pub const PING_PAYLOAD_LEN: usize = 16;

/// Port appended to an endpoint's address when it is resolved.
pub const RESOLVE_PORT: u16 = 80;

/// Whether the host currently has working internet egress.
#[derive(Clone, Copy, Debug, PartialEq, Eq, Structural)]
pub enum ConnectivityState {
    Connected,
    Disconnected,
}

impl ConnectivityState {
    /// The state that a round's verdict stands for.
    pub open spec fn of(reachable: bool) -> ConnectivityState {
        if reachable {
            ConnectivityState::Connected
        } else {
            ConnectivityState::Disconnected
        }
    }

    /// The state that a round's verdict stands for.
    pub fn from_reachable(reachable: bool) -> (state: ConnectivityState)
        ensures
            state == Self::of(reachable),
    {
        if reachable {
            ConnectivityState::Connected
        } else {
            ConnectivityState::Disconnected
        }
    }

    /// True for `Connected`.
    pub fn is_connected(&self) -> (connected: bool)
        ensures
            connected == (*self == ConnectivityState::Connected),
    {
        match self {
            ConnectivityState::Connected => true,
            ConnectivityState::Disconnected => false,
        }
    }

    /// The word shown for this state.
    pub open spec fn label_text(self) -> Seq<char> {
        match self {
            ConnectivityState::Connected => "Connected"@,
            ConnectivityState::Disconnected => "Disconnected"@,
        }
    }

    /// The word shown for this state.
    pub fn label(&self) -> (text: &'static str)
        ensures
            text@ == self.label_text(),
    {
        match self {
            ConnectivityState::Connected => "Connected",
            ConnectivityState::Disconnected => "Disconnected",
        }
    }
}

/// A change of the monitor's state, published once per changing round.
#[derive(Clone, Copy, Debug, PartialEq, Eq, Structural)]
pub struct Transition {
    /// State before the round.
    pub from: ConnectivityState,
    /// State after the round.
    pub to: ConnectivityState,
    /// When the round completed, as the caller's clock gave it.
    pub timestamp: u64,
}

impl Transition {
    /// The edge that starts a re-authentication campaign.
    pub open spec fn is_disconnect(self) -> bool {
        self.from == ConnectivityState::Connected && self.to == ConnectivityState::Disconnected
    }

    /// The edge that ends a re-authentication campaign.
    pub open spec fn is_reconnect(self) -> bool {
        self.from == ConnectivityState::Disconnected && self.to == ConnectivityState::Connected
    }

    /// True when the host went from connected to disconnected.
    pub fn lost_connection(&self) -> (lost: bool)
        ensures
            lost == self.is_disconnect(),
    {
        self.from.is_connected() && !self.to.is_connected()
    }

    /// True when the host went from disconnected to connected.
    pub fn regained_connection(&self) -> (regained: bool)
        ensures
            regained == self.is_reconnect(),
    {
        !self.from.is_connected() && self.to.is_connected()
    }
}

/// How an endpoint is addressed.
#[derive(Clone, Copy, Debug, PartialEq, Eq, Structural)]
pub enum TargetKind {
    /// A host name that has to be resolved first.
    DnsName,
    /// An address written out in digits.
    LiteralIp,
}

/// One endpoint of the probe list.
#[derive(Debug)]
pub struct ProbeTarget {
    pub address: String,
    pub kind: TargetKind,
}

/// What a probe target is in contracts.
pub struct ProbeTargetView {
    pub address: Seq<char>,
    pub kind: TargetKind,
}

impl View for ProbeTarget {
    type V = ProbeTargetView;

    open spec fn view(&self) -> ProbeTargetView {
        ProbeTargetView { address: self.address@, kind: self.kind }
    }
}

impl ProbeTarget {
    /// An endpoint with the given address and kind.
    pub fn new(address: &str, kind: TargetKind) -> (target: ProbeTarget)
        ensures
            target@ == (ProbeTargetView { address: address@, kind }),
    {
        ProbeTarget { address: String::from_str(address), kind }
    }

    /// A copy of this endpoint.
    pub fn duplicate(&self) -> (target: ProbeTarget)
        ensures
            target@ == self@,
    {
        ProbeTarget { address: self.address.clone(), kind: self.kind }
    }
}

/// What one endpoint answered.
#[derive(Clone, Copy, Debug, PartialEq, Eq, Structural)]
pub enum ProbeOutcome {
    /// The endpoint answered the echo request after `latency_ms` milliseconds.
    Reachable { latency_ms: u64 },
    /// The name could not be resolved.
    ResolveFailed,
    /// The name resolved to no address.
    NoAddress,
    /// The echo request timed out or the transport failed.
    Unreachable,
}

impl ProbeOutcome {
    /// Only an answered echo request counts as reachable.
    pub open spec fn reachable(self) -> bool {
        self is Reachable
    }

    /// True when the endpoint answered.
    pub fn is_reachable(&self) -> (reachable: bool)
        ensures
            reachable == self.reachable(),
    {
        match self {
            ProbeOutcome::Reachable { .. } => true,
            _ => false,
        }
    }
}

/// One endpoint's answer as a round records it.
#[derive(Clone, Copy, Debug, PartialEq, Eq, Structural)]
pub struct ProbeResult {
    /// Position of the endpoint in the probe list.
    pub target: usize,
    pub reachable: bool,
    /// Round-trip time in milliseconds, known only for an answer.
    pub latency: Option<u64>,
}

impl ProbeResult {
    /// The record of `outcome` for the endpoint at position `target`.
    pub open spec fn of(target: usize, outcome: ProbeOutcome) -> ProbeResult {
        ProbeResult {
            target,
            reachable: outcome.reachable(),
            latency: match outcome {
                ProbeOutcome::Reachable { latency_ms } => Some(latency_ms),
                _ => None,
            },
        }
    }

    /// Records `outcome` for the endpoint at position `target`.
    pub fn from_outcome(target: usize, outcome: ProbeOutcome) -> (result: ProbeResult)
        ensures
            result == Self::of(target, outcome),
    {
        match outcome {
            ProbeOutcome::Reachable { latency_ms } => ProbeResult {
                target,
                reachable: true,
                latency: Some(latency_ms),
            },
            _ => ProbeResult { target, reachable: false, latency: None },
        }
    }
}


/// True when at least one of `outcomes` is an answer.
pub open spec fn any_reachable(outcomes: Seq<ProbeOutcome>) -> bool {
    exists|i: int| 0 <= i < outcomes.len() && (#[trigger] outcomes[i]).reachable()
}

/// True when `outcomes[i]` is the first answer among `outcomes`.
pub open spec fn first_answer(outcomes: Seq<ProbeOutcome>, i: int) -> bool {
    &&& 0 <= i < outcomes.len()
    &&& outcomes[i].reachable()
    &&& forall|j: int| 0 <= j < i ==> !(#[trigger] outcomes[j]).reachable()
}

/// The records of the first `n` of `outcomes`, each under its position.
pub open spec fn recorded(outcomes: Seq<ProbeOutcome>, n: nat) -> Seq<ProbeResult> {
    Seq::new(n, |i: int| ProbeResult::of(i as usize, outcomes[i]))
}

/// What a probe round is in contracts: the length of the probe list and the
/// answers recorded so far, in the order in which the endpoints were asked.
pub struct ProbeRoundView {
    pub total: nat,
    pub results: Seq<ProbeResult>,
}

impl ProbeRoundView {
    /// Endpoints are asked in list order, and none is asked after an answer.
    pub open spec fn wf(self) -> bool {
        &&& self.results.len() <= self.total <= usize::MAX
        &&& forall|i: int| 0 <= i < self.results.len() ==> (#[trigger] self.results[i]).target == i
        &&& forall|i: int|
            0 <= i < self.results.len() - 1 ==> !(#[trigger] self.results[i]).reachable
    }

    /// `Some(true)` once an endpoint has answered, `Some(false)` once every
    /// endpoint has failed, `None` while the round is still open.
    pub open spec fn verdict(self) -> Option<bool> {
        if self.results.len() > 0 && self.results.last().reachable {
            Some(true)
        } else if self.results.len() >= self.total {
            Some(false)
        } else {
            None
        }
    }

    /// What the round asks for next when `identifier` is drawn for the request.
    pub open spec fn step_for(self, identifier: u16) -> ProbeStep {
        match self.verdict() {
            Some(connected) => ProbeStep::Done { connected },
            None => ProbeStep::Ping {
                target: self.results.len() as usize,
                identifier,
                sequence: PING_SEQUENCE,
            },
        }
    }

    /// The round after `outcome` came back for the endpoint asked last. A
    /// finished round takes no further answers.
    pub open spec fn record(self, outcome: ProbeOutcome) -> ProbeRoundView {
        if self.verdict() is None {
            ProbeRoundView {
                total: self.total,
                results: self.results.push(
                    ProbeResult::of(self.results.len() as usize, outcome),
                ),
            }
        } else {
            self
        }
    }

    /// The round after the endpoints answered with `outcomes`, one after the
    /// other.
    pub open spec fn record_all(self, outcomes: Seq<ProbeOutcome>) -> ProbeRoundView
        decreases outcomes.len(),
    {
        if outcomes.len() == 0 {
            self
        } else {
            self.record(outcomes[0]).record_all(outcomes.drop_first())
        }
    }
}

/// What the caller does next for a probe round.
#[derive(Clone, Copy, Debug, PartialEq, Eq, Structural)]
pub enum ProbeStep {
    /// Send one echo request to the endpoint at position `target` and report
    /// what came of it.
    Ping { target: usize, identifier: u16, sequence: u16 },
    /// The round is over with this verdict; no further endpoint is asked.
    Done { connected: bool },
}

/// Calls `rand::random::<u16>()`, which draws from the thread's generator.
/// Nothing is claimed of the number that comes back.
#[verifier::external_body]
fn random_identifier() -> (identifier: u16) {
    rand::random::<u16>()
}

/// One evaluation of the probe list.
pub struct ProbeRound {
    total: usize,
    results: Vec<ProbeResult>,
}

impl View for ProbeRound {
    type V = ProbeRoundView;

    closed spec fn view(&self) -> ProbeRoundView {
        ProbeRoundView { total: self.total as nat, results: self.results@ }
    }
}

impl ProbeRound {
    #[verifier::type_invariant]
    spec fn inv(self) -> bool {
        self@.wf()
    }

    /// A fresh round over a list of `total` endpoints.
    pub fn new(total: usize) -> (round: ProbeRound)
        ensures
            round@.wf(),
            round@.total == total,
            round@.results == Seq::<ProbeResult>::empty(),
    {
        ProbeRound { total, results: Vec::new() }
    }

    /// Number of endpoints in the probe list.
    pub fn total(&self) -> (total: usize)
        ensures
            total == self@.total,
    {
        self.total
    }

    /// Number of endpoints asked so far.
    pub fn probes_used(&self) -> (used: usize)
        ensures
            used == self@.results.len(),
            self@.wf(),
    {
        proof {
            use_type_invariant(self);
        }
        self.results.len()
    }

    /// The record of the `index`-th endpoint asked, if it was asked.
    pub fn result(&self, index: usize) -> (result: Option<ProbeResult>)
        ensures
            result == if index < self@.results.len() {
                Some(self@.results[index as int])
            } else {
                None
            },
    {
        if index < self.results.len() {
            Some(self.results[index])
        } else {
            None
        }
    }

    /// The round's verdict, once it has one.
    pub fn verdict(&self) -> (verdict: Option<bool>)
        ensures
            verdict == self@.verdict(),
            self@.wf(),
    {
        proof {
            use_type_invariant(self);
        }
        let n = self.results.len();
        if n > 0 && self.results[n - 1].reachable {
            Some(true)
        } else if n >= self.total {
            Some(false)
        } else {
            None
        }
    }

    /// True once the round has a verdict.
    pub fn is_finished(&self) -> (finished: bool)
        ensures
            finished == self@.verdict().is_some(),
    {
        self.verdict().is_some()
    }

    /// What to do next, with `identifier` as the echo request's identifier.
    pub fn next_with(&self, identifier: u16) -> (step: ProbeStep)
        ensures
            step == self@.step_for(identifier),
            self@.wf(),
    {
        match self.verdict() {
            Some(connected) => ProbeStep::Done { connected },
            None => ProbeStep::Ping {
                target: self.results.len(),
                identifier,
                sequence: PING_SEQUENCE,
            },
        }
    }

    /// What to do next. An echo request gets a freshly drawn identifier, so two
    /// calls on the same round may differ in it and in nothing else.
    pub fn next(&self) -> (step: ProbeStep)
        ensures
            exists|identifier: u16| step == self@.step_for(identifier),
            self@.wf(),
    {
        let identifier = random_identifier();
        self.next_with(identifier)
    }

    /// Takes the answer of the endpoint asked last. A finished round ignores it.
    pub fn record(&mut self, outcome: ProbeOutcome)
        ensures
            final(self)@ == old(self)@.record(outcome),
            final(self)@.wf(),
    {
        if self.verdict().is_none() {
            // The list is taken out while it grows: the round left behind is
            // empty, and so in order.
            let mut results: Vec<ProbeResult> = Vec::new();
            core::mem::swap(&mut self.results, &mut results);
            let target = results.len();
            results.push(ProbeResult::from_outcome(target, outcome));
            core::mem::swap(&mut self.results, &mut results);
        }
    }
}

/// Why a probe list was turned down.
#[derive(Clone, Copy, Debug, PartialEq, Eq, Structural)]
pub enum MonitorError {
    /// The list holds fewer than [`MIN_TARGETS`] endpoints.
    TooFewTargets,
}

/// The probe list a monitor starts with unless it is given another.
pub open spec fn default_targets() -> Seq<ProbeTargetView> {
    seq![
        ProbeTargetView { address: "www.baidu.com"@, kind: TargetKind::DnsName },
        ProbeTargetView { address: "www.opendns.com"@, kind: TargetKind::DnsName },
        ProbeTargetView { address: "1.1.1.1"@, kind: TargetKind::LiteralIp },
        ProbeTargetView { address: "114.114.114.114"@, kind: TargetKind::LiteralIp },
        ProbeTargetView { address: "8.8.8.8"@, kind: TargetKind::LiteralIp },
        ProbeTargetView { address: "223.5.5.5"@, kind: TargetKind::LiteralIp },
    ]
}

/// The views of a list of endpoints, in order.
pub open spec fn target_views(targets: Seq<ProbeTarget>) -> Seq<ProbeTargetView> {
    Seq::new(targets.len(), |i: int| targets[i]@)
}

/// What a monitor is in contracts: the verdict of the last completed round, if
/// there was one, and the probe list.
pub struct MonitorView {
    pub state: Option<ConnectivityState>,
    pub targets: Seq<ProbeTargetView>,
}

impl MonitorView {
    /// The snapshot that readers get: connected only after a round said so.
    pub open spec fn is_connected(self) -> bool {
        self.state == Some(ConnectivityState::Connected)
    }

    /// The monitor after a round with this verdict.
    pub open spec fn observe(self, reachable: bool) -> MonitorView {
        MonitorView { state: Some(ConnectivityState::of(reachable)), targets: self.targets }
    }

    /// What a round with this verdict publishes: nothing on the first
    /// observation, nothing while the verdict repeats, and otherwise the change.
    pub open spec fn transition_on(self, reachable: bool, timestamp: u64) -> Option<Transition> {
        match self.state {
            Some(previous) => if previous != ConnectivityState::of(reachable) {
                Some(Transition { from: previous, to: ConnectivityState::of(reachable), timestamp })
            } else {
                None
            },
            None => None,
        }
    }

    /// The monitor after rounds with these verdicts, one after the other.
    pub open spec fn observe_all(self, verdicts: Seq<bool>) -> MonitorView
        decreases verdicts.len(),
    {
        if verdicts.len() == 0 {
            self
        } else {
            self.observe_all(verdicts.drop_last()).observe(verdicts.last())
        }
    }

    /// What the `i`-th of these rounds publishes.
    pub open spec fn published(self, verdicts: Seq<bool>, i: int, timestamp: u64) -> Option<
        Transition,
    > {
        self.observe_all(verdicts.take(i)).transition_on(verdicts[i], timestamp)
    }
}

/// What one round told the monitor.
#[derive(Clone, Copy, Debug, PartialEq, Eq, Structural)]
pub struct RoundReport {
    /// The round's verdict; `None` when the answers ran out before the round
    /// had one.
    pub verdict: Option<bool>,
    /// Number of endpoints that were asked.
    pub probes_used: usize,
    /// The change that the round publishes, if the verdict is news.
    pub transition: Option<Transition>,
}

/// Watches the host's connectivity.
pub struct NetworkMonitor {
    state: Option<ConnectivityState>,
    targets: Vec<ProbeTarget>,
}

impl View for NetworkMonitor {
    type V = MonitorView;

    closed spec fn view(&self) -> MonitorView {
        MonitorView { state: self.state, targets: target_views(self.targets@) }
    }
}

impl NetworkMonitor {
    #[verifier::type_invariant]
    spec fn inv(self) -> bool {
        self.targets@.len() >= MIN_TARGETS
    }

    /// A monitor over the default probe list that has not observed anything
    /// yet, and so reads as not connected.
    pub fn new() -> (monitor: NetworkMonitor)
        ensures
            monitor@.state is None,
            monitor@.targets == default_targets(),
    {
        let mut targets: Vec<ProbeTarget> = Vec::new();
        targets.push(ProbeTarget::new("www.baidu.com", TargetKind::DnsName));
        targets.push(ProbeTarget::new("www.opendns.com", TargetKind::DnsName));
        targets.push(ProbeTarget::new("1.1.1.1", TargetKind::LiteralIp));
        targets.push(ProbeTarget::new("114.114.114.114", TargetKind::LiteralIp));
        targets.push(ProbeTarget::new("8.8.8.8", TargetKind::LiteralIp));
        targets.push(ProbeTarget::new("223.5.5.5", TargetKind::LiteralIp));
        assert(target_views(targets@) =~= default_targets());
        NetworkMonitor { state: None, targets }
    }

    /// Same as [`NetworkMonitor::new`].
    pub fn init() -> (monitor: NetworkMonitor)
        ensures
            monitor@.state is None,
            monitor@.targets == default_targets(),
    {
        NetworkMonitor::new()
    }

    /// A monitor over `targets` that has not observed anything yet. The list is
    /// turned down exactly when it holds fewer than [`MIN_TARGETS`] endpoints.
    pub fn with_targets(targets: Vec<ProbeTarget>) -> (made: Result<NetworkMonitor, MonitorError>)
        ensures
            targets@.len() < MIN_TARGETS ==> made == Err::<NetworkMonitor, MonitorError>(
                MonitorError::TooFewTargets,
            ),
            targets@.len() >= MIN_TARGETS ==> made is Ok && made->Ok_0@.state is None
                && made->Ok_0@.targets == target_views(targets@),
    {
        if targets.len() < MIN_TARGETS {
            Err(MonitorError::TooFewTargets)
        } else {
            Ok(NetworkMonitor { state: None, targets })
        }
    }

    /// The snapshot of the last completed round. Never waits.
    pub fn is_connected(&self) -> (connected: bool)
        ensures
            connected == self@.is_connected(),
    {
        match self.state {
            Some(ConnectivityState::Connected) => true,
            _ => false,
        }
    }

    /// The verdict of the last completed round, if there was one.
    pub fn state(&self) -> (state: Option<ConnectivityState>)
        ensures
            state == self@.state,
    {
        self.state
    }

    /// Number of endpoints in the probe list.
    pub fn target_count(&self) -> (count: usize)
        ensures
            count == self@.targets.len(),
            count >= MIN_TARGETS,
    {
        proof {
            use_type_invariant(self);
        }
        self.targets.len()
    }

    /// The endpoint at position `index` of the probe list, if there is one.
    pub fn target(&self, index: usize) -> (target: Option<&ProbeTarget>)
        ensures
            index < self@.targets.len() ==> target is Some && target->Some_0@
                == self@.targets[index as int],
            index >= self@.targets.len() ==> target is None,
    {
        if index < self.targets.len() {
            Some(&self.targets[index])
        } else {
            None
        }
    }

    /// Overwrites the stored state without publishing anything.
    pub fn set_connected(&mut self, connected: bool)
        ensures
            final(self)@ == old(self)@.observe(connected),
    {
        proof {
            use_type_invariant(&*self);
        }
        self.state = Some(ConnectivityState::from_reachable(connected));
    }

    /// Takes the verdict of a completed round: stores it, and returns the change
    /// to publish. The state is stored before the change is handed out.
    pub fn observe(&mut self, reachable: bool, timestamp: u64) -> (transition: Option<Transition>)
        ensures
            final(self)@ == old(self)@.observe(reachable),
            transition == old(self)@.transition_on(reachable, timestamp),
    {
        proof {
            use_type_invariant(&*self);
        }
        let previous = self.state;
        let current = ConnectivityState::from_reachable(reachable);
        self.state = Some(current);
        match previous {
            Some(before) => if before != current {
                Some(Transition { from: before, to: current, timestamp })
            } else {
                None
            },
            None => None,
        }
    }

    /// Starts a round over the probe list.
    pub fn begin_round(&self) -> (round: ProbeRound)
        ensures
            round@.wf(),
            round@.total == self@.targets.len(),
            round@.results == Seq::<ProbeResult>::empty(),
    {
        ProbeRound::new(self.targets.len())
    }

    /// Takes the verdict of `round` if it has one, as [`NetworkMonitor::observe`]
    /// does. An open round teaches nothing: the monitor stays as it is.
    pub fn finish_round(&mut self, round: &ProbeRound, timestamp: u64) -> (transition: Option<
        Transition,
    >)
        ensures
            round@.verdict() matches Some(connected) ==> final(self)@ == old(self)@.observe(
                connected,
            ) && transition == old(self)@.transition_on(connected, timestamp),
            round@.verdict() is None ==> final(self)@ == old(self)@ && transition is None,
    {
        match round.verdict() {
            Some(connected) => self.observe(connected, timestamp),
            None => None,
        }
    }

    /// The round over `total` endpoints before any of them is asked.
    pub open spec fn fresh_round(total: nat) -> ProbeRoundView {
        ProbeRoundView { total, results: Seq::empty() }
    }

    /// Runs one round against answers that are already known: `outcomes[i]` is
    /// what the `i`-th endpoint of the list would answer. The endpoints are
    /// consulted in order up to the first answer. A round that reaches its
    /// verdict is taken as [`NetworkMonitor::finish_round`] takes it; when the
    /// answers run out before that, the monitor stays as it is. With an answer
    /// for every endpoint the verdict is "some endpoint answered".
    pub fn check_connection(&mut self, outcomes: &Vec<ProbeOutcome>, timestamp: u64) -> (report:
        RoundReport)
        ensures
            ({
                let done = Self::fresh_round(old(self)@.targets.len()).record_all(outcomes@);
                &&& report.verdict == done.verdict()
                &&& report.probes_used == done.results.len()
                &&& done.results == recorded(outcomes@, done.results.len())
                &&& match done.verdict() {
                    Some(connected) => final(self)@ == old(self)@.observe(connected)
                        && report.transition == old(self)@.transition_on(connected, timestamp),
                    None => final(self)@ == old(self)@ && report.transition is None,
                }
            }),
            outcomes@.len() == old(self)@.targets.len() ==> report.verdict == Some(
                any_reachable(outcomes@),
            ),
    {
        let mut round = self.begin_round();
        let ghost fresh = round@;
        let mut i: usize = 0;
        proof {
            assert(outcomes@.skip(0) =~= outcomes@);
            assert(fresh.results =~= recorded(outcomes@, 0));
        }
        while i < outcomes.len() && !round.is_finished()
            invariant
                i <= outcomes@.len(),
                round@.wf(),
                round@.total == fresh.total,
                round@.results.len() == i,
                round@.results == recorded(outcomes@, i as nat),
                round@.record_all(outcomes@.skip(i as int)) == fresh.record_all(outcomes@),
            decreases outcomes@.len() - i,
        {
            proof {
                assert(outcomes@.skip(i as int).drop_first() =~= outcomes@.skip(i + 1));
                assert(outcomes@.skip(i as int)[0] == outcomes@[i as int]);
            }
            round.record(outcomes[i]);
            i = i + 1;
            assert(round@.results =~= recorded(outcomes@, i as nat));
        }
        proof {
            if round@.verdict() is Some {
                lemma_record_all_finished(round@, outcomes@.skip(i as int));
            } else {
                assert(outcomes@.skip(i as int).len() == 0);
            }
            assert(fresh.record_all(outcomes@) == round@);
            if outcomes@.len() == fresh.total {
                law_round_short_circuits(fresh.total, outcomes@);
            }
        }
        let verdict = round.verdict();
        let probes_used = round.probes_used();
        let transition = self.finish_round(&round, timestamp);
        RoundReport { verdict, probes_used, transition }
    }
}

/// A round fed with the answers of all its endpoints ends with the verdict
/// "some endpoint answered", and has asked no endpoint behind the first that
/// did.
pub proof fn law_round_short_circuits(total: nat, outcomes: Seq<ProbeOutcome>)
    requires
        outcomes.len() == total <= usize::MAX,
    ensures
        ({
            let fresh = ProbeRoundView { total, results: Seq::<ProbeResult>::empty() };
            let done = fresh.record_all(outcomes);
            &&& done.wf()
            &&& done.verdict() == Some(any_reachable(outcomes))
            &&& done.results == recorded(outcomes, done.results.len())
            &&& any_reachable(outcomes) ==> first_answer(outcomes, done.results.len() - 1)
            &&& !any_reachable(outcomes) ==> done.results.len() == total
        }),
{
    let fresh = ProbeRoundView { total, results: Seq::<ProbeResult>::empty() };
    assert(fresh.results =~= recorded(outcomes, 0));
    assert(outcomes =~= outcomes.skip(0));
    lemma_record_all(fresh, outcomes, outcomes);
}

/// Feeding `rest`, the answers of the endpoints not yet asked, to a round that
/// has recorded the answers before them.
proof fn lemma_record_all(round: ProbeRoundView, all: Seq<ProbeOutcome>, rest: Seq<ProbeOutcome>)
    requires
        round.wf(),
        all.len() == round.total,
        round.results.len() <= all.len(),
        round.results == recorded(all, round.results.len()),
        round.verdict() is None ==> rest == all.skip(round.results.len() as int),
    ensures
        ({
            let done = round.record_all(rest);
            &&& done.wf()
            &&& done.verdict() == Some(any_reachable(all))
            &&& done.results == recorded(all, done.results.len())
            &&& any_reachable(all) ==> first_answer(all, done.results.len() - 1)
            &&& !any_reachable(all) ==> done.results.len() == round.total
        }),
    decreases rest.len(),
{
    let n = round.results.len() as int;
    if round.verdict() is Some {
        lemma_record_all_finished(round, rest);
        if round.verdict() == Some(true) {
            assert(round.results[n - 1] == ProbeResult::of((n - 1) as usize, all[n - 1]));
            assert(all[n - 1].reachable());
            assert forall|j: int| 0 <= j < n - 1 implies !(#[trigger] all[j]).reachable() by {
                assert(round.results[j] == ProbeResult::of(j as usize, all[j]));
            }
        } else {
            assert(n == round.total);
            assert forall|j: int| 0 <= j < all.len() implies !(#[trigger] all[j]).reachable() by {
                assert(round.results[j] == ProbeResult::of(j as usize, all[j]));
                if j < n - 1 {
                } else {
                    assert(!round.results.last().reachable);
                }
            }
        }
    } else {
        assert(n < round.total);
        assert(rest.len() > 0);
        assert(rest[0] == all[n]);
        let next = round.record(rest[0]);
        assert(next.results =~= recorded(all, (n + 1) as nat));
        assert(rest.drop_first() =~= all.skip(n + 1));
        assert forall|i: int| 0 <= i < next.results.len() - 1 implies !(
        #[trigger] next.results[i]).reachable by {
            if i < n - 1 {
                assert(!round.results[i].reachable);
            } else {
                assert(i == n - 1);
                assert(round.results.last() == round.results[i]);
            }
        }
        lemma_record_all(next, all, rest.drop_first());
    }
}

/// A finished round stays as it is, whatever is fed to it.
proof fn lemma_record_all_finished(round: ProbeRoundView, rest: Seq<ProbeOutcome>)
    requires
        round.verdict() is Some,
    ensures
        round.record_all(rest) == round,
    decreases rest.len(),
{
    if rest.len() > 0 {
        lemma_record_all_finished(round, rest.drop_first());
    }
}

/// A monitor that has not observed anything publishes nothing for the first
/// round, and for every later round exactly the change from the round before:
/// nothing when the verdict repeats.
pub proof fn law_monitor_publishes_changes(
    monitor: MonitorView,
    verdicts: Seq<bool>,
    i: int,
    timestamp: u64,
)
    requires
        monitor.state is None,
        0 <= i < verdicts.len(),
    ensures
        i == 0 ==> monitor.published(verdicts, i, timestamp) is None,
        i > 0 && verdicts[i - 1] == verdicts[i] ==> monitor.published(verdicts, i, timestamp)
            is None,
        i > 0 && verdicts[i - 1] != verdicts[i] ==> monitor.published(verdicts, i, timestamp)
            == Some(
            Transition {
                from: ConnectivityState::of(verdicts[i - 1]),
                to: ConnectivityState::of(verdicts[i]),
                timestamp,
            },
        ),
{
    let before = verdicts.take(i);
    if i > 0 {
        assert(before.last() == verdicts[i - 1]);
    }
}

} // verus!
