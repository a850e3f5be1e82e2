//! Warning rules, the choice of the rule to report, and the watch loop's
//! decisions.
//!
//! The loop itself waits, reads the stop flag and reads the host, which is
//! not done here. Each turn of it hands [`watcher`] what it observed and does
//! what comes back.

use super::sys_observer::{table_of, usage_of, Monitor, ProcessEntry, Snapshot};
use vstd::prelude::*;
use vstd::string::StringExecFns;

verus! {

/// Seconds between two samples.
pub const TICK_SECONDS: u64 = 1;

/// The mathematical content of a warning rule.
pub struct Rule {
    pub threshold: u64,
    pub message: Seq<char>,
}

/// A warning rule: a threshold in thousandths of a percent and the message
/// to show once usage has reached it.
#[derive(Clone, Debug)]
pub struct Warning {
    usage: u64,
    message: String,
}

impl View for Warning {
    type V = Rule;

    closed spec fn view(&self) -> Rule {
        Rule { threshold: self.usage, message: self.message@ }
    }
}

impl Warning {
    /// A rule that reports `message` once usage has reached `usage`
    /// thousandths of a percent. A threshold of zero is always reached; one
    /// above a hundred percent only where more memory is in use than the
    /// total.
    pub fn new(usage: u64, message: &str) -> (w: Self)
        ensures
            w@ == (Rule { threshold: usage, message: message@ }),
    {
        Warning { usage, message: String::from_str(message) }
    }

    /// The threshold, in thousandths of a percent.
    pub fn usage(&self) -> (t: u64)
        ensures
            t == self@.threshold,
    {
        self.usage
    }

    /// The message.
    pub fn message(&self) -> (m: &str)
        ensures
            m@ == self@.message,
    {
        self.message.as_str()
    }

    /// A copy with the same threshold and message.
    fn duplicate(&self) -> (w: Self)
        ensures
            w@ == self@,
    {
        Warning { usage: self.usage, message: self.message.clone() }
    }
}

/// The rules of a sequence of warnings, in the same order.
pub open spec fn rules_of(warnings: Seq<Warning>) -> Seq<Rule> {
    warnings.map_values(|w: Warning| w@)
}

/// The warning rules of one watch. Their order carries no meaning.
pub struct Config {
    warnings: Vec<Warning>,
}

impl View for Config {
    type V = Seq<Rule>;

    closed spec fn view(&self) -> Seq<Rule> {
        rules_of(self.warnings@)
    }
}

impl Config {
    /// A configuration without rules.
    pub fn new() -> (c: Self)
        ensures
            c@ == Seq::<Rule>::empty(),
    {
        Config { warnings: Vec::new() }
    }

    /// Adds a rule. Rules may share a threshold.
    pub fn add_warning(&mut self, warning: Warning)
        ensures
            final(self)@ == old(self)@.push(warning@),
    {
        self.warnings.push(warning);
    }

    /// The rule to report at the given usage, if any.
    pub fn select(&self, current_usage: u128) -> (choice: Option<Warning>)
        ensures
            is_selection(self@, current_usage as nat, choice_view(choice)),
    {
        check_for_warnigs(current_usage, self.warnings.as_slice())
    }
}

/// Whether usage has reached the rule's threshold.
pub open spec fn triggered(rule: Rule, usage: nat) -> bool {
    rule.threshold <= usage
}

/// Whether `choice` is a right answer to "which rule is reported at this
/// usage": nothing where no rule is triggered, else a triggered rule whose
/// threshold no triggered rule exceeds. Where several rules share that
/// threshold, each of them is a right answer.
pub open spec fn is_selection(rules: Seq<Rule>, usage: nat, choice: Option<Rule>) -> bool {
    match choice {
        None => forall|i: int| 0 <= i < rules.len() ==> !triggered(#[trigger] rules[i], usage),
        Some(rule) => {
            &&& rules.contains(rule)
            &&& triggered(rule, usage)
            &&& forall|i: int|
                0 <= i < rules.len() && triggered(#[trigger] rules[i], usage)
                    ==> rules[i].threshold <= rule.threshold
        },
    }
}

/// The view of an optional warning.
pub open spec fn choice_view(choice: Option<Warning>) -> Option<Rule> {
    match choice {
        None => None,
        Some(w) => Some(w@),
    }
}

/// Picks the rule to report at `current_usage`: among the rules whose
/// threshold usage has reached, one with the highest threshold.
pub fn check_for_warnigs(current_usage: u128, threshold: &[Warning]) -> (choice: Option<Warning>)
    ensures
        is_selection(rules_of(threshold@), current_usage as nat, choice_view(choice)),
{
    let ghost rules = rules_of(threshold@);
    let n = threshold.len();
    let mut best: Option<usize> = None;
    let mut i: usize = 0;
    while i < n
        invariant
            n == threshold.len(),
            rules == rules_of(threshold@),
            0 <= i <= n,
            match best {
                None => forall|j: int| 0 <= j < i ==> !triggered(#[trigger] rules[j], current_usage as nat),
                Some(b) => {
                    &&& b < i
                    &&& triggered(rules[b as int], current_usage as nat)
                    &&& forall|j: int|
                        0 <= j < i && triggered(#[trigger] rules[j], current_usage as nat)
                            ==> rules[j].threshold <= rules[b as int].threshold
                },
            },
        decreases n - i,
    {
        let t = threshold[i].usage();
        if (t as u128) <= current_usage {
            match best {
                None => {
                    best = Some(i);
                },
                Some(b) => {
                    let held = threshold[b].usage();
                    if t >= held {
                        best = Some(i);
                    }
                },
            }
        }
        i += 1;
    }
    match best {
        None => None,
        Some(b) => Some(threshold[b].duplicate()),
    }
}

/// Whether the watch goes on.
#[derive(Clone, Copy, Debug, PartialEq, Eq, Structural)]
pub enum WatchState {
    Running,
    Stopped,
}

/// What the loop observed in a turn.
#[derive(Debug)]
pub enum Event {
    /// The stop flag was set at the top of the turn.
    Cancelled,
    /// The stop flag was clear at the top of the turn, and this is the
    /// reading that was then taken. `stop_after` is the stop flag as it was
    /// read again once the reading was in hand.
    Sampled { used: u64, total: u64, processes: Vec<ProcessEntry>, stop_after: bool },
}

/// What the loop does next.
#[derive(Debug)]
pub enum Action {
    /// Leave the loop.
    Return,
    /// Wait, then take the next turn.
    Sleep { seconds: u64 },
    /// Report usage with the warning's message, wait, then take the next turn.
    Warn { usage: u128, warning: Warning, seconds: u64 },
    /// Report usage with the warning's message, then leave the loop without
    /// waiting.
    WarnAndReturn { usage: u128, warning: Warning },
}

/// Whether a turn of the watch is right: from `state`, with the snapshot
/// `before` and the rule set `rules`, on `event`, it leaves the snapshot
/// `after` and answers `next` and `action`.
///
/// A stopped watch stays stopped. A running watch stops when it sees the stop
/// flag set at the top of the turn, and touches nothing. Otherwise it takes
/// the reading as its snapshot, and reports the selected rule, if there is
/// one, with the usage of that reading. Where the stop flag was set by then,
/// the watch stops and returns at once; where it was still clear, the watch
/// goes on after a wait of one tick.
pub open spec fn turn(
    state: WatchState,
    before: Snapshot,
    rules: Seq<Rule>,
    event: Event,
    after: Snapshot,
    next: WatchState,
    action: Action,
) -> bool {
    match (state, event) {
        (WatchState::Stopped, _) | (WatchState::Running, Event::Cancelled) => {
            &&& after == before
            &&& next == WatchState::Stopped
            &&& action is Return
        },
        (WatchState::Running, Event::Sampled { used, total, processes, stop_after }) => {
            &&& after == (Snapshot { used, total, processes: table_of(processes@) })
            &&& next == if stop_after {
                WatchState::Stopped
            } else {
                WatchState::Running
            }
            &&& match action {
                Action::Return => {
                    &&& stop_after
                    &&& is_selection(rules, usage_of(used, total), None)
                },
                Action::Sleep { seconds } => {
                    &&& !stop_after
                    &&& seconds == TICK_SECONDS
                    &&& is_selection(rules, usage_of(used, total), None)
                },
                Action::Warn { usage, warning, seconds } => {
                    &&& !stop_after
                    &&& seconds == TICK_SECONDS
                    &&& usage == usage_of(used, total)
                    &&& is_selection(rules, usage_of(used, total), Some(warning@))
                },
                Action::WarnAndReturn { usage, warning } => {
                    &&& stop_after
                    &&& usage == usage_of(used, total)
                    &&& is_selection(rules, usage_of(used, total), Some(warning@))
                },
            }
        },
    }
}

/// One turn of the watch loop.
pub fn watcher(state: WatchState, monitor: &mut Monitor, config: &Config, event: Event) -> (r: (
    WatchState,
    Action,
))
    ensures
        turn(state, old(monitor)@, config@, event, final(monitor)@, r.0, r.1),
{
    match state {
        WatchState::Stopped => (WatchState::Stopped, Action::Return),
        WatchState::Running => match event {
            Event::Cancelled => (WatchState::Stopped, Action::Return),
            Event::Sampled { used, total, processes, stop_after } => {
                monitor.update(used, total, processes);
                let usage = monitor.ram_consumed();
                match (config.select(usage), stop_after) {
                    (None, true) => (WatchState::Stopped, Action::Return),
                    (None, false) => (WatchState::Running, Action::Sleep { seconds: TICK_SECONDS }),
                    (Some(warning), true) => (
                        WatchState::Stopped,
                        Action::WarnAndReturn { usage, warning },
                    ),
                    (Some(warning), false) => (
                        WatchState::Running,
                        Action::Warn { usage, warning, seconds: TICK_SECONDS },
                    ),
                }
            },
        },
    }
}

/// A watch that sees the stop flag set at the top of a turn, or that has
/// stopped before, takes no reading and reports nothing: it leaves the
/// snapshot alone and returns.
pub proof fn cancelled_watch_returns(
    state: WatchState,
    before: Snapshot,
    rules: Seq<Rule>,
    event: Event,
    after: Snapshot,
    next: WatchState,
    action: Action,
)
    requires
        state == WatchState::Stopped || event is Cancelled,
        turn(state, before, rules, event, after, next, action),
    ensures
        next == WatchState::Stopped,
        action is Return,
        after == before,
{
}

/// A stop request never waits out a tick: whenever the stop flag is seen set,
/// at the top of the turn or after the reading, the watch stops and its
/// action holds no wait.
pub proof fn stop_request_ends_watch_without_wait(
    state: WatchState,
    before: Snapshot,
    rules: Seq<Rule>,
    event: Event,
    after: Snapshot,
    next: WatchState,
    action: Action,
)
    requires
        event is Cancelled || (event is Sampled && event->stop_after),
        turn(state, before, rules, event, after, next, action),
    ensures
        next == WatchState::Stopped,
        action is Return || action is WarnAndReturn,
{
}

/// A running watch waits exactly when it goes on: after a reading with the
/// stop flag still clear, and then for one tick.
pub proof fn watch_waits_iff_it_goes_on(
    state: WatchState,
    before: Snapshot,
    rules: Seq<Rule>,
    event: Event,
    after: Snapshot,
    next: WatchState,
    action: Action,
)
    requires
        turn(state, before, rules, event, after, next, action),
    ensures
        next == WatchState::Running <==> action is Sleep || action is Warn,
        next == WatchState::Running <==> state == WatchState::Running && event is Sampled
            && !event->stop_after,
        action is Sleep ==> action->Sleep_seconds == TICK_SECONDS,
        action is Warn ==> action->Warn_seconds == TICK_SECONDS,
{
}

/// No rule is selected exactly when no rule is triggered.
pub proof fn selection_none_iff(rules: Seq<Rule>, usage: nat, choice: Option<Rule>)
    requires
        is_selection(rules, usage, choice),
    ensures
        choice is None <==> forall|i: int|
            0 <= i < rules.len() ==> !triggered(#[trigger] rules[i], usage),
{
}

/// Two selections from the same rules at the same usage agree: both are
/// nothing, or both are rules of the same threshold. Their messages may
/// differ where several rules share that threshold.
pub proof fn selection_agrees(rules: Seq<Rule>, usage: nat, a: Option<Rule>, b: Option<Rule>)
    requires
        is_selection(rules, usage, a),
        is_selection(rules, usage, b),
    ensures
        a is None <==> b is None,
        a is Some ==> a->0.threshold == b->0.threshold,
{
    selection_none_iff(rules, usage, a);
    selection_none_iff(rules, usage, b);
}

/// From an empty rule set nothing is ever selected.
pub proof fn selection_of_none(usage: nat, choice: Option<Rule>)
    requires
        is_selection(Seq::<Rule>::empty(), usage, choice),
    ensures
        choice is None,
{
    selection_none_iff(Seq::<Rule>::empty(), usage, choice);
}

/// A rule with threshold zero is triggered at every usage, so a rule set that
/// holds one always selects something.
pub proof fn zero_threshold_always_selects(
    rules: Seq<Rule>,
    usage: nat,
    choice: Option<Rule>,
    i: int,
)
    requires
        0 <= i < rules.len(),
        rules[i].threshold == 0,
        is_selection(rules, usage, choice),
    ensures
        choice is Some,
{
}

} // verus!
