//! The consumer's receive loop: counting decoded messages and stopping at the
//! first message whose body does not decode. The caller acknowledges each
//! message to the broker before it reports the message here.
use vstd::prelude::*;
use vstd::string::StringExecFns;
use crate::message::TestData;
use crate::payload::{decimal, push_decimal};

verus! {

/// What the caller does with a received message.
pub enum ConsumerReaction {
    /// The message decoded: log its data at debug level and `line` at info
    /// level, then receive the next one.
    Counted { data: String, line: String },
    /// The message did not decode: log an error and end the loop.
    Stop,
}

/// Progress of one consumer run.
#[derive(Clone, Copy, Debug)]
pub struct ConsumerRun {
    /// Messages decoded so far.
    pub received: usize,
    /// Whether the loop has ended.
    pub stopped: bool,
}

/// The state after a message arrives that decoded (`decoded`) or did not.
pub open spec fn after_message(s: ConsumerRun, decoded: bool) -> ConsumerRun {
    if decoded {
        ConsumerRun { received: (s.received + 1) as usize, ..s }
    } else {
        ConsumerRun { stopped: true, ..s }
    }
}

/// `got <n> messages`.
pub open spec fn count_text(n: nat) -> Seq<char> {
    "got "@ + decimal(n) + " messages"@
}

/// A message whose body does not decode ends the loop and leaves the count
/// of decoded messages as it was.
pub proof fn lemma_malformed_stops(s: ConsumerRun)
    ensures
        after_message(s, false).stopped,
        after_message(s, false).received == s.received,
{
}

impl ConsumerRun {
    /// A run that has received nothing yet.
    pub fn new() -> (r: ConsumerRun)
        ensures
            r == (ConsumerRun { received: 0, stopped: false }),
    {
        ConsumerRun { received: 0, stopped: false }
    }

    /// Reports a received, already acknowledged message: `Some` with the
    /// decoded record, or `None` where its body was not a valid message.
    pub fn on_message(&mut self, decoded: Option<TestData>) -> (r: ConsumerReaction)
        requires
            !old(self).stopped,
            old(self).received < usize::MAX,
        ensures
            *final(self) == after_message(*old(self), decoded is Some),
            decoded matches Some(m) ==> (r matches ConsumerReaction::Counted { data, line }
                && data@ == m.data@ && line@ == count_text(final(self).received as nat)),
            decoded is None ==> r is Stop,
    {
        match decoded {
            Some(m) => {
                self.received = self.received + 1;
                let line = self.count_line();
                ConsumerReaction::Counted { data: m.data, line }
            },
            None => {
                self.stopped = true;
                ConsumerReaction::Stop
            },
        }
    }

    /// The line that reports how many messages have decoded.
    pub fn count_line(&self) -> (r: String)
        ensures
            r@ == count_text(self.received as nat),
    {
        let mut line = String::from_str("got ");
        push_decimal(&mut line, self.received);
        line.append(" messages");
        proof {
            assert(line@ =~= count_text(self.received as nat));
        }
        line
    }
}

} // verus!
