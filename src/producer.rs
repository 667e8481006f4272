//! The producer's run: which message to deliver next, when to stop, and what
//! to log. The caller performs each delivery and reports how it went.
use vstd::prelude::*;
use vstd::string::StringExecFns;
use crate::destination::Destination;
use crate::message::TestData;
use crate::payload::{decimal, generate_large_data, payload, push_decimal};

verus! {

/// What the caller does next.
#[derive(Debug, PartialEq, Eq, Structural)]
pub enum ProducerAction {
    /// Deliver the message with this index, then report the outcome.
    Deliver { index: usize },
    /// All messages went out: log the summary and end with success.
    Finish,
    /// A delivery failed: end with failure, sending nothing more.
    Abort,
}

/// Progress of one producer run.
#[derive(Clone, Copy, Debug)]
pub struct ProducerRun {
    /// Messages the run sends in all.
    pub count: usize,
    /// Size of each message, in kilobytes.
    pub size_kb: usize,
    /// Whether messages go to an HTTP endpoint rather than a topic.
    pub to_http: bool,
    /// Messages delivered so far.
    pub sent: usize,
    /// Whether a delivery has failed.
    pub failed: bool,
}

/// The next action of a run in state `s`.
pub open spec fn action_of(s: ProducerRun) -> ProducerAction {
    if s.failed {
        ProducerAction::Abort
    } else if s.sent < s.count {
        ProducerAction::Deliver { index: s.sent }
    } else {
        ProducerAction::Finish
    }
}

/// The state after the pending delivery of `s` succeeded or failed.
pub open spec fn after_delivery(s: ProducerRun, delivered: bool) -> ProducerRun {
    if delivered {
        ProducerRun { sent: (s.sent + 1) as usize, ..s }
    } else {
        ProducerRun { failed: true, ..s }
    }
}

/// The state after reporting `outcomes` in order, one per delivery, as long
/// as the run asks for deliveries.
pub open spec fn run_outcomes(s: ProducerRun, outcomes: Seq<bool>) -> ProducerRun
    decreases outcomes.len(),
{
    if outcomes.len() == 0 || !(action_of(s) is Deliver) {
        s
    } else {
        run_outcomes(after_delivery(s, outcomes[0]), outcomes.drop_first())
    }
}

/// The label of a destination kind in progress lines.
pub open spec fn destination_label(to_http: bool) -> Seq<char> {
    if to_http {
        "HTTP endpoint"@
    } else {
        "Pulsar topic"@
    }
}

/// `Sent message <n> of <count> (size: <size_kb>KB) to <destination>`.
pub open spec fn progress_text(n: nat, count: nat, size_kb: nat, to_http: bool) -> Seq<char> {
    "Sent message "@ + decimal(n) + " of "@ + decimal(count) + " (size: "@ + decimal(size_kb)
        + "KB) to "@ + destination_label(to_http)
}

/// `Finished sending <count> messages`.
pub open spec fn summary_text(count: nat) -> Seq<char> {
    "Finished sending "@ + decimal(count) + " messages"@
}

/// `k` successful deliveries in a row.
pub open spec fn successes(k: nat) -> Seq<bool> {
    Seq::new(k, |i: int| true)
}

/// Reporting `a` and then `b` is reporting `a + b`.
pub proof fn lemma_run_concat(s: ProducerRun, a: Seq<bool>, b: Seq<bool>)
    ensures
        run_outcomes(s, a + b) == run_outcomes(run_outcomes(s, a), b),
    decreases a.len(),
{
    if a.len() == 0 {
        assert(a + b =~= b);
    } else if action_of(s) is Deliver {
        assert((a + b).drop_first() =~= a.drop_first() + b);
        lemma_run_concat(after_delivery(s, a[0]), a.drop_first(), b);
    } else {
        assert((a + b).len() > 0);
    }
}

proof fn lemma_successes_from(s: ProducerRun, k: nat)
    requires
        !s.failed,
        s.sent + k <= s.count,
    ensures
        run_outcomes(s, successes(k)) == (ProducerRun { sent: (s.sent + k) as usize, ..s }),
    decreases k,
{
    if k == 0 {
        assert(ProducerRun { sent: (s.sent + k) as usize, ..s } == s);
    } else {
        assert(successes(k).drop_first() =~= successes((k - 1) as nat));
        lemma_successes_from(after_delivery(s, true), (k - 1) as nat);
    }
}

/// With every delivery succeeding, a fresh run of `count` messages asks for
/// the deliveries of indices 0, 1, ... in that order, one progress line each
/// (see `record_delivery`), and after exactly `count` of them it finishes.
pub proof fn lemma_all_delivered(s: ProducerRun, k: nat)
    requires
        s.wf(),
        s.sent == 0,
        !s.failed,
        k <= s.count,
    ensures
        run_outcomes(s, successes(k)).sent == k,
        !run_outcomes(s, successes(k)).failed,
        k < s.count ==> action_of(run_outcomes(s, successes(k))) == (ProducerAction::Deliver {
            index: k as usize,
        }),
        k == s.count ==> action_of(run_outcomes(s, successes(k))) == ProducerAction::Finish,
{
    lemma_successes_from(s, k);
}

/// A failed delivery after `k` successful ones ends a fresh run: it has
/// logged `k` progress lines, asks for no further delivery, and ignores
/// whatever is reported afterwards.
pub proof fn lemma_failure_aborts(s: ProducerRun, k: nat, rest: Seq<bool>)
    requires
        s.wf(),
        s.sent == 0,
        !s.failed,
        k < s.count,
    ensures
        run_outcomes(s, successes(k) + seq![false] + rest).sent == k,
        run_outcomes(s, successes(k) + seq![false] + rest).failed,
        action_of(run_outcomes(s, successes(k) + seq![false] + rest)) == ProducerAction::Abort,
{
    lemma_successes_from(s, k);
    let mid = run_outcomes(s, successes(k));
    lemma_run_concat(s, successes(k), seq![false]);
    assert(seq![false].drop_first() =~= Seq::<bool>::empty());
    let failed = run_outcomes(mid, seq![false]);
    assert(action_of(mid) is Deliver);
    assert(seq![false][0] == false);
    assert(run_outcomes(after_delivery(mid, false), Seq::<bool>::empty()) == after_delivery(
        mid,
        false,
    ));
    assert(failed == after_delivery(mid, false));
    lemma_run_concat(s, successes(k) + seq![false], rest);
    if rest.len() > 0 {
        assert(!(action_of(failed) is Deliver));
    }
}

impl ProducerRun {
    /// A run is consistent: no more sent than asked for, and sizes whose
    /// byte counts fit a `usize`.
    pub open spec fn wf(self) -> bool {
        self.sent <= self.count && self.size_kb <= usize::MAX / 1024
    }

    /// A fresh run of `count` messages of `size_kb` kilobytes each.
    pub fn new(count: usize, size_kb: usize, destination: &Destination) -> (r: ProducerRun)
        requires
            size_kb <= usize::MAX / 1024,
        ensures
            r.wf(),
            r == (ProducerRun {
                count,
                size_kb,
                to_http: destination is Http,
                sent: 0,
                failed: false,
            }),
    {
        ProducerRun { count, size_kb, to_http: destination.is_http(), sent: 0, failed: false }
    }

    /// What the caller does next.
    pub fn next_action(&self) -> (r: ProducerAction)
        ensures
            r == action_of(*self),
    {
        if self.failed {
            ProducerAction::Abort
        } else if self.sent < self.count {
            ProducerAction::Deliver { index: self.sent }
        } else {
            ProducerAction::Finish
        }
    }

    /// The message with index `index`: its payload is generated for that
    /// index at the run's size.
    pub fn message(&self, index: usize) -> (r: TestData)
        requires
            self.wf(),
        ensures
            r.data@ == payload(index as nat, self.size_kb as nat),
    {
        TestData::new(generate_large_data(index, self.size_kb))
    }

    /// Records how the pending delivery went. A success returns the progress
    /// line to log; a failure returns nothing and ends the run.
    pub fn record_delivery(&mut self, delivered: bool) -> (r: Option<String>)
        requires
            old(self).wf(),
            action_of(*old(self)) is Deliver,
        ensures
            *final(self) == after_delivery(*old(self), delivered),
            final(self).wf(),
            delivered ==> (r matches Some(line) && line@ == progress_text(
                final(self).sent as nat,
                old(self).count as nat,
                old(self).size_kb as nat,
                old(self).to_http,
            )),
            !delivered ==> r is None,
    {
        if delivered {
            self.sent = self.sent + 1;
            Some(self.progress_line())
        } else {
            self.failed = true;
            None
        }
    }

    /// The progress line for the latest delivery.
    pub fn progress_line(&self) -> (r: String)
        ensures
            r@ == progress_text(
                self.sent as nat,
                self.count as nat,
                self.size_kb as nat,
                self.to_http,
            ),
    {
        let mut line = String::from_str("Sent message ");
        push_decimal(&mut line, self.sent);
        line.append(" of ");
        push_decimal(&mut line, self.count);
        line.append(" (size: ");
        push_decimal(&mut line, self.size_kb);
        line.append("KB) to ");
        if self.to_http {
            line.append("HTTP endpoint");
        } else {
            line.append("Pulsar topic");
        }
        proof {
            assert(line@ =~= progress_text(
                self.sent as nat,
                self.count as nat,
                self.size_kb as nat,
                self.to_http,
            ));
        }
        line
    }

    /// The line logged once every message went out.
    pub fn summary_line(&self) -> (r: String)
        ensures
            r@ == summary_text(self.count as nat),
    {
        let mut line = String::from_str("Finished sending ");
        push_decimal(&mut line, self.count);
        line.append(" messages");
        proof {
            assert(line@ =~= summary_text(self.count as nat));
        }
        line
    }
}

} // verus!
