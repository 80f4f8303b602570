use vstd::prelude::*;

use crate::handshake::{is_key_reply, reply_text, reply_text_spec, GREETING, GREETING_REPLY};

verus! {

/// Where the search for the key's serial port stands.
#[derive(PartialEq, Eq, Structural, Clone, Copy, Debug)]
pub enum ProbeStage {
    /// Waiting to hear whether port `i` opened.
    Opening(usize),
    /// Waiting to hear whether the greeting went out on port `i`.
    Greeting(usize),
    /// Waiting for what port `i` answered.
    Listening(usize),
    /// The search is over.
    Finished,
}

/// What the host does next.
#[derive(PartialEq, Eq, Structural, Clone, Copy, Debug)]
pub enum ProbeAction {
    /// Open port `i` of the listed ports.
    Open(usize),
    /// Write the greeting to port `i`.
    Greet(usize),
    /// Read the answer from port `i`.
    Read(usize),
    /// The key is behind port `i`: keep it.
    Select(usize),
    /// No port answered like the key.
    GiveUp,
}

/// What came of the last action.
pub enum ProbeEvent {
    /// The port opened, or the greeting was written.
    Succeeded,
    /// Opening, writing or reading failed.
    Failed,
    /// These bytes were read back.
    Received(Vec<u8>),
}

/// The stage and action that come after giving up on port `i` of `n`.
pub open spec fn next_port(i: usize, n: usize) -> (ProbeStage, ProbeAction) {
    if i + 1 < n {
        (ProbeStage::Opening((i + 1) as usize), ProbeAction::Open((i + 1) as usize))
    } else {
        (ProbeStage::Finished, ProbeAction::GiveUp)
    }
}

/// One step of the search over `n` ports: from the stage and what came of
/// the last action, the next stage and action.
pub open spec fn probe_next(n: usize, stage: ProbeStage, event: ProbeEvent) -> (
    ProbeStage,
    ProbeAction,
) {
    match stage {
        ProbeStage::Opening(i) => match event {
            ProbeEvent::Succeeded => (ProbeStage::Greeting(i), ProbeAction::Greet(i)),
            _ => next_port(i, n),
        },
        ProbeStage::Greeting(i) => match event {
            ProbeEvent::Succeeded => (ProbeStage::Listening(i), ProbeAction::Read(i)),
            _ => next_port(i, n),
        },
        ProbeStage::Listening(i) => match event {
            ProbeEvent::Received(bytes) => if reply_text_spec(bytes@) == GREETING_REPLY@ {
                (ProbeStage::Finished, ProbeAction::Select(i))
            } else {
                next_port(i, n)
            },
            _ => next_port(i, n),
        },
        ProbeStage::Finished => (ProbeStage::Finished, ProbeAction::GiveUp),
    }
}

/// How many steps the search can still take at most.
pub open spec fn probe_measure(n: usize, stage: ProbeStage) -> int {
    match stage {
        ProbeStage::Opening(i) => 3 * (n - i),
        ProbeStage::Greeting(i) => 3 * (n - i) - 1,
        ProbeStage::Listening(i) => 3 * (n - i) - 2,
        ProbeStage::Finished => 0,
    }
}

/// The port index a stage is about, if any.
pub open spec fn stage_port(stage: ProbeStage) -> Option<usize> {
    match stage {
        ProbeStage::Opening(i) => Some(i),
        ProbeStage::Greeting(i) => Some(i),
        ProbeStage::Listening(i) => Some(i),
        ProbeStage::Finished => None,
    }
}

/// The search for the serial port the key is behind: every listed port in
/// turn is opened, greeted and read; the first that answers like the key is
/// kept.
pub struct PortProbe {
    port_count: usize,
    stage: ProbeStage,
}

impl PortProbe {
    #[verifier::type_invariant]
    closed spec fn inv(self) -> bool {
        stage_port(self.stage) matches Some(i) ==> i < self.port_count
    }

    pub closed spec fn port_count(&self) -> usize {
        self.port_count
    }

    pub closed spec fn stage(&self) -> ProbeStage {
        self.stage
    }

    /// Starts the search over the listed ports; `None` if they could not be
    /// listed.
    pub fn start(port_count: Option<usize>) -> (r: (PortProbe, ProbeAction))
        ensures
            match port_count {
                Some(n) if n > 0 => r.0.port_count() == n && r.0.stage() == ProbeStage::Opening(0)
                    && r.1 == ProbeAction::Open(0),
                _ => r.0.stage() == ProbeStage::Finished && r.1 == ProbeAction::GiveUp,
            },
    {
        match port_count {
            Some(n) => {
                if n > 0 {
                    (PortProbe { port_count: n, stage: ProbeStage::Opening(0) }, ProbeAction::Open(0))
                } else {
                    (PortProbe { port_count: 0, stage: ProbeStage::Finished }, ProbeAction::GiveUp)
                }
            },
            None => (PortProbe { port_count: 0, stage: ProbeStage::Finished }, ProbeAction::GiveUp),
        }
    }

    fn after_port(&mut self, i: usize) -> (a: ProbeAction)
        requires
            i < old(self).port_count(),
        ensures
            final(self).port_count() == old(self).port_count(),
            (final(self).stage(), a) == next_port(i, old(self).port_count()),
    {
        if i + 1 < self.port_count {
            self.stage = ProbeStage::Opening(i + 1);
            ProbeAction::Open(i + 1)
        } else {
            self.stage = ProbeStage::Finished;
            ProbeAction::GiveUp
        }
    }

    /// Takes what came of the last action and says what to do next.
    pub fn step(&mut self, event: ProbeEvent) -> (a: ProbeAction)
        ensures
            final(self).port_count() == old(self).port_count(),
            (final(self).stage(), a) == probe_next(old(self).port_count(), old(self).stage(), event),
    {
        proof {
            use_type_invariant(&*self);
        }
        match self.stage {
            ProbeStage::Opening(i) => match event {
                ProbeEvent::Succeeded => {
                    self.stage = ProbeStage::Greeting(i);
                    ProbeAction::Greet(i)
                },
                _ => self.after_port(i),
            },
            ProbeStage::Greeting(i) => match event {
                ProbeEvent::Succeeded => {
                    self.stage = ProbeStage::Listening(i);
                    ProbeAction::Read(i)
                },
                _ => self.after_port(i),
            },
            ProbeStage::Listening(i) => match event {
                ProbeEvent::Received(bytes) => {
                    let text = reply_text(bytes.as_slice());
                    if is_key_reply(text.as_str()) {
                        self.stage = ProbeStage::Finished;
                        ProbeAction::Select(i)
                    } else {
                        self.after_port(i)
                    }
                },
                _ => self.after_port(i),
            },
            ProbeStage::Finished => ProbeAction::GiveUp,
        }
    }

    /// Whether the search is over.
    pub fn is_finished(&self) -> (b: bool)
        ensures
            b == (self.stage() == ProbeStage::Finished),
    {
        match self.stage {
            ProbeStage::Finished => true,
            _ => false,
        }
    }
}

/// The bytes the host writes when it greets a port.
pub fn greeting_message() -> (m: Vec<u8>)
    ensures
        m@ == vstd::utf8::encode_utf8(GREETING@),
{
    let bytes = GREETING.as_bytes();
    let mut m: Vec<u8> = Vec::new();
    let mut i: usize = 0;
    while i < bytes.len()
        invariant
            i <= bytes@.len(),
            bytes@ == vstd::utf8::encode_utf8(GREETING@),
            m@ == bytes@.take(i as int),
        decreases bytes@.len() - i,
    {
        m.push(bytes[i]);
        assert(m@ =~= bytes@.take(i + 1));
        i = i + 1;
    }
    assert(bytes@.take(i as int) =~= bytes@);
    m
}

/// The search never runs away: each step on an unfinished search lowers a
/// measure that starts at three times the number of ports and ends at zero,
/// and every stage it passes through names a listed port.
pub proof fn lemma_probe_progress(n: usize, stage: ProbeStage, event: ProbeEvent)
    requires
        stage != ProbeStage::Finished,
        stage_port(stage) matches Some(i) && i < n,
    ensures
        0 <= probe_measure(n, probe_next(n, stage, event).0) < probe_measure(n, stage),
        probe_measure(n, stage) <= 3 * n,
        stage_port(probe_next(n, stage, event).0) matches Some(j) ==> j < n,
{
}

/// A port is kept only while its answer is being read and only if that
/// answer decodes to the key's reply; any other outcome moves on to the
/// next port in the list, or ends the search after the last one.
pub proof fn lemma_probe_selects_only_key(n: usize, stage: ProbeStage, event: ProbeEvent)
    ensures
        probe_next(n, stage, event).1 matches ProbeAction::Select(i) ==> {
            &&& stage == ProbeStage::Listening(i)
            &&& event matches ProbeEvent::Received(bytes)
            &&& reply_text_spec(bytes@) == GREETING_REPLY@
        },
        probe_next(n, stage, event).1 matches ProbeAction::Open(j) ==> stage_port(stage)
            == Some((j - 1) as usize) && j >= 1,
{
}

/// After any failure, and after an answer that is not the key's, the search
/// moves on to the next listed port; it gives up only after the last one.
/// Every port is opened, then greeted, then read, in that order.
pub proof fn lemma_probe_moves_on(n: usize, i: usize, event: ProbeEvent)
    requires
        i < n,
    ensures
        !(event matches ProbeEvent::Received(bytes) && reply_text_spec(bytes@) == GREETING_REPLY@)
            ==> probe_next(n, ProbeStage::Listening(i), event) == if i + 1 < n {
            (ProbeStage::Opening((i + 1) as usize), ProbeAction::Open((i + 1) as usize))
        } else {
            (ProbeStage::Finished, ProbeAction::GiveUp)
        },
        (event matches ProbeEvent::Received(bytes) && reply_text_spec(bytes@) == GREETING_REPLY@)
            ==> probe_next(n, ProbeStage::Listening(i), event) == (ProbeStage::Finished, ProbeAction::Select(i)),
        !(event is Succeeded) ==> probe_next(n, ProbeStage::Opening(i), event) == probe_next(
            n,
            ProbeStage::Listening(i),
            ProbeEvent::Failed,
        ),
        !(event is Succeeded) ==> probe_next(n, ProbeStage::Greeting(i), event) == probe_next(
            n,
            ProbeStage::Listening(i),
            ProbeEvent::Failed,
        ),
        probe_next(n, ProbeStage::Opening(i), ProbeEvent::Succeeded) == (ProbeStage::Greeting(i), ProbeAction::Greet(i)),
        probe_next(n, ProbeStage::Greeting(i), ProbeEvent::Succeeded) == (ProbeStage::Listening(i), ProbeAction::Read(i)),
        probe_next(n, ProbeStage::Listening(i), event).1 == ProbeAction::GiveUp ==> i + 1 == n,
{
}

} // verus!
