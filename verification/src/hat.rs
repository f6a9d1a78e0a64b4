//! HAT power and network signal.
//!
//! The board answers a bare `AT` ping with `OK` when it is powered, and
//! `AT+CSQ` with a `+CSQ: n,...` signal report. Power is toggled through a
//! GPIO line, which is outside this crate; the decisions around it — when
//! the board counts as already on or already off — are made here.

use vstd::prelude::*;

use crate::error::{kind_of, Error};
use crate::resolver::{ResolvedValue, ResolverKind};
use crate::serial_port::{
    process_view, CommandRequest, CommandRequestView, TaskPriority, UartOp,
};
use crate::text::{digit_run_len, digits_value_in, first_sub_from};
use crate::text;

verus! {

/// The tag that opens the signal-strength report.
pub open spec fn csq_marker() -> Seq<char> {
    "+CSQ: "@
}

/// What the signal resolver returns: the digit run directly after the
/// first `+CSQ: ` tag, read as a number up to 255; anything else is not
/// yet resolved.
pub open spec fn signal_resolution(text: Seq<char>) -> Result<u8, Error> {
    match first_sub_from(text, csq_marker(), 0) {
        Some(k) => {
            let start = k + csq_marker().len();
            let run = digit_run_len(text, start);
            match digits_value_in(text, start, start + run) {
                Some(v) => if v <= 255 {
                    Ok(v as u8)
                } else {
                    Err(Error::NotResolved)
                },
                None => Err(Error::NotResolved),
            }
        },
        None => Err(Error::NotResolved),
    }
}

/// Reads a `+CSQ` signal report.
pub fn parse_signal(text: &str) -> (r: Result<u8, Error>)
    ensures
        r == signal_resolution(text@),
{
    proof {
        reveal_strlit("+CSQ: ");
    }
    let n = text.unicode_len();
    let k = match text::find_sub_from(text, "+CSQ: ", 0) {
        Some(k) => k,
        None => {
            return Err(Error::NotResolved);
        },
    };
    proof {
        text::lemma_first_sub_from(text@, csq_marker(), 0);
    }
    let start = k + 6;
    let run = text::digit_run(text, start);
    let v = match text::parse_digits_u64(text, start, start + run) {
        Some(v) => v,
        None => {
            return Err(Error::NotResolved);
        },
    };
    proof {
        text::lemma_digits_val_bound(text@.subrange(
            start as int,
            (start + run) as int,
        ));
        text::lemma_pow10_le_18(run as nat);
    }
    if v <= 255 {
        Ok(v as u8)
    } else {
        Err(Error::NotResolved)
    }
}

/// Where a HAT switch-off stands.
#[derive(Clone, Copy, Debug, PartialEq, Eq, Structural)]
pub enum HatOffPhase {
    /// Pinging the board to see whether it is on at all.
    Probe,
    /// Writing the power-down command, fire-and-forget: the board stops
    /// answering.
    PowerDown,
    /// The flow has its outcome.
    Done,
}

/// Switching the HAT off, as a two-step flow run under one high-priority
/// task: a liveness ping first — a board that never answers within the
/// ping's timeout is already off — then the power-down command, written
/// without reading an answer.
pub struct HatOffFlow {
    pub phase: HatOffPhase,
    pub outcome: Option<Result<(), Error>>,
}

impl HatOffFlow {
    /// The flow's structural invariant.
    pub open spec fn wf(self) -> bool {
        (self.phase is Done) == (self.outcome is Some)
    }

    /// The command the flow issues in its current phase.
    pub fn current_request(&self) -> (r: CommandRequest)
        requires
            self.wf(),
            !(self.phase is Done),
        ensures
            self.phase is Probe ==> r@ == (CommandRequestView {
                op: UartOp::Process,
                cmd: "AT\n"@,
                resolver: ResolverKind::HatPing,
                timeout_ms: Some(2000u64),
                priority: TaskPriority::HIGH,
            }),
            self.phase is PowerDown ==> r@ == (CommandRequestView {
                op: UartOp::WriteOnly,
                cmd: "AT+CPOWD=0\n"@,
                resolver: ResolverKind::HatPing,
                timeout_ms: None,
                priority: TaskPriority::HIGH,
            }),
    {
        match self.phase {
            HatOffPhase::Probe => CommandRequest {
                op: UartOp::Process,
                cmd: String::from_str("AT\n"),
                resolver: ResolverKind::HatPing,
                timeout_ms: Some(2000),
                priority: TaskPriority::HIGH,
            },
            _ => CommandRequest {
                op: UartOp::WriteOnly,
                cmd: String::from_str("AT+CPOWD=0\n"),
                resolver: ResolverKind::HatPing,
                timeout_ms: None,
                priority: TaskPriority::HIGH,
            },
        }
    }

    /// Whether the flow has reached its outcome.
    pub fn is_done(&self) -> (b: bool)
        ensures
            b == (self.phase is Done),
    {
        match self.phase {
            HatOffPhase::Done => true,
            _ => false,
        }
    }

    /// Feeds the outcome of the command just run: a board that answered
    /// the ping gets the power-down command; one that never answered is
    /// reported as already off; any other error passes through.
    pub fn advance(&mut self, res: Result<ResolvedValue, Error>)
        requires
            old(self).wf(),
            !(old(self).phase is Done),
        ensures
            final(self).wf(),
            match old(self).phase {
                HatOffPhase::Probe => match res {
                    Ok(_) => final(self).phase is PowerDown && final(self).outcome is None,
                    Err(e) => if kind_of(e) is NotResolved {
                        final(self).phase is Done && final(self).outcome == Some(
                            Err::<(), Error>(Error::HatAlreadyOff),
                        )
                    } else {
                        final(self).phase is Done && final(self).outcome == Some(
                            Err::<(), Error>(e),
                        )
                    },
                },
                HatOffPhase::PowerDown => match res {
                    Ok(_) => final(self).phase is Done && final(self).outcome
                        == Some(Ok::<(), Error>(())),
                    Err(e) => final(self).phase is Done && final(self).outcome
                        == Some(Err::<(), Error>(e)),
                },
                HatOffPhase::Done => false,
            },
    {
        match self.phase {
            HatOffPhase::Probe => match res {
                Ok(_) => {
                    self.phase = HatOffPhase::PowerDown;
                },
                Err(e) => {
                    let already_off = match e {
                        Error::NotResolved => true,
                        _ => false,
                    };
                    if already_off {
                        self.outcome = Some(Err(Error::HatAlreadyOff));
                    } else {
                        self.outcome = Some(Err(e));
                    }
                    self.phase = HatOffPhase::Done;
                },
            },
            _ => match res {
                Ok(_) => {
                    self.outcome = Some(Ok(()));
                    self.phase = HatOffPhase::Done;
                },
                Err(e) => {
                    self.outcome = Some(Err(e));
                    self.phase = HatOffPhase::Done;
                },
            },
        }
    }

    /// Takes the finished flow's outcome.
    pub fn outcome(self) -> (r: Result<(), Error>)
        requires
            self.wf(),
            self.phase is Done,
        ensures
            self.outcome == Some(r),
    {
        match self.outcome {
            Some(r) => r,
            None => {
                proof {
                    assert(false);
                }
                Err(Error::NotResolved)
            },
        }
    }
}

/// What switching the HAT on does with the liveness probe's outcome: a
/// board that answered is already on; one that never answered within the
/// probe's timeout should get the power pulse on the GPIO line (the `Ok`
/// case); any other error passes through.
pub fn turn_on_resolution(probe: Result<ResolvedValue, Error>) -> (r: Result<
    (),
    Error,
>)
    ensures
        match probe {
            Ok(_) => r == Err::<(), Error>(Error::HatAlreadyOn),
            Err(e) => if kind_of(e) is NotResolved {
                r == Ok::<(), Error>(())
            } else {
                r == Err::<(), Error>(e)
            },
        },
{
    match probe {
        Ok(_) => Err(Error::HatAlreadyOn),
        Err(e) => {
            let not_answering = match e {
                Error::NotResolved => true,
                _ => false,
            };
            if not_answering {
                Ok(())
            } else {
                Err(e)
            }
        },
    }
}

/// The HAT feature: board power and network signal.
pub struct Hat {
}

impl Hat {
    /// The HAT feature handle.
    pub fn new() -> (r: Hat) {
        Hat {  }
    }

    /// Plans the liveness probe: a bare `AT` under a two-second timeout,
    /// run under one normal-priority task.
    pub fn is_on(&self) -> (r: CommandRequest)
        ensures
            r@ == process_view("AT\n"@, ResolverKind::HatPing, Some(2000u64)),
    {
        crate::serial_port::process_request(
            "AT\n",
            ResolverKind::HatPing,
            Some(2000),
        )
    }

    /// Plans the signal-strength request: `AT+CSQ`.
    pub fn network_strength(&self) -> (r: CommandRequest)
        ensures
            r@ == process_view("AT+CSQ\n"@, ResolverKind::SignalStrength, None),
    {
        crate::serial_port::process_request(
            "AT+CSQ\n",
            ResolverKind::SignalStrength,
            None,
        )
    }

    /// Plans the probe that switching the HAT on starts with; feed its
    /// outcome to [`turn_on_resolution`], and pulse the power line when it
    /// answers `Ok`.
    pub fn turn_on(&self) -> (r: CommandRequest)
        ensures
            r@ == process_view("AT\n"@, ResolverKind::HatPing, Some(2000u64)),
    {
        self.is_on()
    }

    /// Plans switching the HAT off, as a high-priority two-step flow.
    pub fn turn_off(&self) -> (r: HatOffFlow)
        ensures
            r.wf(),
            r.phase is Probe,
            r.outcome is None,
    {
        HatOffFlow { phase: HatOffPhase::Probe, outcome: None }
    }
}

} // verus!
