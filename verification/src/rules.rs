//! OS traffic-redirection rule lifecycle.
//!
//! The agent steers traffic for its capture port into the tunnel with a
//! destination-NAT rule and a policy route; the gateway steers intercepted
//! traffic to its replay port with a REDIRECT rule.  This module plans those
//! commands as data and enforces the two halves of the lifecycle: applying
//! rules aborts on the first failure, while reverting attempts every removal
//! regardless of earlier failures and surfaces only the last error — cleanup
//! must be maximally effective even under partial failure.  The process that
//! actually renders and runs the commands reports each outcome back.

use vstd::prelude::*;

use crate::error::CleanupError;
use crate::error::SetupError;

verus! {

/// Port on which the tunnel intercepts captured traffic.
pub const INTERCEPT_PORT: u16 = 6978;

/// Private routing table used for captured traffic.
pub const CAPTURE_TABLE: u16 = 8;

/// One OS command of the redirection plan, as structured data.  The driving
/// process renders each into the firewall/routing tool invocation it names.
#[derive(Clone, Copy, Debug, PartialEq, Eq, Structural)]
pub enum RuleCommand {
    /// Add a destination-NAT rule: TCP traffic to `dport` is rewritten to
    /// the interception address on [`INTERCEPT_PORT`].
    AddCaptureNat { dport: u16 },
    /// Delete the rule added by `AddCaptureNat`.
    DelCaptureNat { dport: u16 },
    /// Add a default route via the tunnel's local peer in [`CAPTURE_TABLE`].
    AddCaptureRoute,
    /// Flush every route of [`CAPTURE_TABLE`], removing `AddCaptureRoute`.
    FlushCaptureRoutes,
    /// Add a policy rule sending traffic for `dport` through
    /// [`CAPTURE_TABLE`].
    AddCapturePolicy { dport: u16 },
    /// Flush every policy rule of [`CAPTURE_TABLE`], removing
    /// `AddCapturePolicy`.
    FlushCapturePolicies,
    /// Flush the routing cache so rule changes take effect at once.
    FlushRouteCache,
    /// Add a REDIRECT rule: TCP traffic to [`INTERCEPT_PORT`] is delivered
    /// to the local `replay` port.
    AddReplayRedirect { replay: u16 },
    /// Delete the rule added by `AddReplayRedirect`.
    DelReplayRedirect { replay: u16 },
}

/// Whether a command installs a rule that must later be removed.  Cache
/// flushes install nothing.
pub open spec fn installs_rule(c: RuleCommand) -> bool {
    ||| c is AddCaptureNat
    ||| c is AddCaptureRoute
    ||| c is AddCapturePolicy
    ||| c is AddReplayRedirect
}

/// Whether command `r` removes what command `c` installed.
pub open spec fn removes(r: RuleCommand, c: RuleCommand) -> bool {
    match c {
        RuleCommand::AddCaptureNat { dport } => r == (RuleCommand::DelCaptureNat { dport }),
        RuleCommand::AddCaptureRoute => r is FlushCaptureRoutes,
        RuleCommand::AddCapturePolicy { dport: _ } => r is FlushCapturePolicies,
        RuleCommand::AddReplayRedirect { replay } => r == (RuleCommand::DelReplayRedirect {
            replay,
        }),
        _ => false,
    }
}

/// The commands that steer traffic into and out of the tunnel, in issue
/// order: the capture side first (NAT rule, policy route, policy rule,
/// cache flush), then the replay side.  A side with no port is skipped.
pub open spec fn spec_apply_plan(capture: Option<u16>, replay: Option<u16>) -> Seq<RuleCommand> {
    (match capture {
        Some(dport) => seq![
            RuleCommand::AddCaptureNat { dport },
            RuleCommand::AddCaptureRoute,
            RuleCommand::AddCapturePolicy { dport },
            RuleCommand::FlushRouteCache,
        ],
        None => Seq::empty(),
    }) + (match replay {
        Some(r) => seq![RuleCommand::AddReplayRedirect { replay: r }],
        None => Seq::empty(),
    })
}

/// The commands that undo [`spec_apply_plan`], in issue order.
pub open spec fn spec_revert_plan(capture: Option<u16>, replay: Option<u16>) -> Seq<RuleCommand> {
    (match capture {
        Some(dport) => seq![
            RuleCommand::DelCaptureNat { dport },
            RuleCommand::FlushCaptureRoutes,
            RuleCommand::FlushCapturePolicies,
            RuleCommand::FlushRouteCache,
        ],
        None => Seq::empty(),
    }) + (match replay {
        Some(r) => seq![RuleCommand::DelReplayRedirect { replay: r }],
        None => Seq::empty(),
    })
}

/// Builds the application plan for a process with the given capture and
/// replay ports.
pub fn apply_plan(capture: Option<u16>, replay: Option<u16>) -> (plan: Vec<RuleCommand>)
    ensures
        plan@ == spec_apply_plan(capture, replay),
{
    let mut plan: Vec<RuleCommand> = Vec::new();
    if let Some(dport) = capture {
        plan.push(RuleCommand::AddCaptureNat { dport });
        plan.push(RuleCommand::AddCaptureRoute);
        plan.push(RuleCommand::AddCapturePolicy { dport });
        plan.push(RuleCommand::FlushRouteCache);
    }
    if let Some(r) = replay {
        plan.push(RuleCommand::AddReplayRedirect { replay: r });
    }
    assert(plan@ =~= spec_apply_plan(capture, replay));
    plan
}

/// Builds the reversal plan for the same ports.
pub fn revert_plan(capture: Option<u16>, replay: Option<u16>) -> (plan: Vec<RuleCommand>)
    ensures
        plan@ == spec_revert_plan(capture, replay),
{
    let mut plan: Vec<RuleCommand> = Vec::new();
    if let Some(dport) = capture {
        plan.push(RuleCommand::DelCaptureNat { dport });
        plan.push(RuleCommand::FlushCaptureRoutes);
        plan.push(RuleCommand::FlushCapturePolicies);
        plan.push(RuleCommand::FlushRouteCache);
    }
    if let Some(r) = replay {
        plan.push(RuleCommand::DelReplayRedirect { replay: r });
    }
    assert(plan@ =~= spec_revert_plan(capture, replay));
    plan
}

/// Rule lifecycle: whatever the ports, every rule the application plan
/// installs has a matching removal in the reversal plan — and because the
/// reverter attempts all of its commands unconditionally, that removal is
/// attempted no matter which applications or earlier removals failed.
pub proof fn lemma_rule_lifecycle(capture: Option<u16>, replay: Option<u16>)
    ensures
        forall|i: int|
            0 <= i < spec_apply_plan(capture, replay).len() && installs_rule(
                #[trigger] spec_apply_plan(capture, replay)[i],
            ) ==> exists|j: int|
                0 <= j < spec_revert_plan(capture, replay).len() && removes(
                    #[trigger] spec_revert_plan(capture, replay)[j],
                    spec_apply_plan(capture, replay)[i],
                ),
{
    let a = spec_apply_plan(capture, replay);
    let r = spec_revert_plan(capture, replay);
    assert forall|i: int| 0 <= i < a.len() && installs_rule(#[trigger] a[i]) implies exists|j: int|
        0 <= j < r.len() && removes(#[trigger] r[j], a[i]) by {
        match a[i] {
            RuleCommand::AddCaptureNat { dport } => {
                assert(removes(r[0], a[i]));
            },
            RuleCommand::AddCaptureRoute => {
                assert(removes(r[1], a[i]));
            },
            RuleCommand::AddCapturePolicy { dport } => {
                assert(removes(r[2], a[i]));
            },
            RuleCommand::AddReplayRedirect { replay: rp } => {
                assert(removes(r[r.len() - 1], a[i]));
            },
            _ => {},
        }
    }
}

/// Applies a command plan step by step, aborting on the first failure.
///
/// The driver asks for the next command, runs it, and reports whether it
/// succeeded; the applier guarantees that no command after a failed one is
/// ever issued, and that the outcome names the exact command that failed.
pub struct RuleApplier {
    plan: Vec<RuleCommand>,
    next: usize,
    failed: Option<usize>,
}

impl RuleApplier {
    /// The whole plan.
    pub closed spec fn plan(self) -> Seq<RuleCommand> {
        self.plan@
    }

    /// How many commands have been issued so far.
    pub closed spec fn issued(self) -> int {
        self.next as int
    }

    /// The index of the command that failed, if one has.
    pub closed spec fn failure(self) -> Option<int> {
        match self.failed {
            Some(i) => Some(i as int),
            None => None,
        }
    }

    /// Internal consistency: issuance never runs past the plan, and a
    /// failure can only be the most recently issued command.
    pub closed spec fn wf(self) -> bool {
        &&& self.next <= self.plan@.len()
        &&& (match self.failed {
            Some(i) => i + 1 == self.next,
            None => true,
        })
    }

    /// Starts applying the given plan.
    pub fn new(plan: Vec<RuleCommand>) -> (a: RuleApplier)
        ensures
            a.wf(),
            a.plan() == plan@,
            a.issued() == 0,
            a.failure() is None,
    {
        RuleApplier { plan, next: 0, failed: None }
    }

    /// The next command to run: `None` once the plan is exhausted or a
    /// failure has aborted it.
    pub fn next_command(&self) -> (c: Option<RuleCommand>)
        requires
            self.wf(),
        ensures
            (c matches Some(cmd) && cmd == self.plan()[self.issued()]) <==> (self.failure() is None
                && self.issued() < self.plan().len()),
            c is None <==> (self.failure() is Some || self.issued() == self.plan().len()),
    {
        if self.failed.is_some() || self.next == self.plan.len() {
            None
        } else {
            Some(self.plan[self.next])
        }
    }

    /// Reports the outcome of the command just issued.  A failure aborts
    /// the plan: every later command stays unissued.
    pub fn on_result(&mut self, ok: bool)
        requires
            old(self).wf(),
            old(self).failure() is None,
            old(self).issued() < old(self).plan().len(),
        ensures
            final(self).wf(),
            final(self).plan() == old(self).plan(),
            final(self).issued() == old(self).issued() + 1,
            ok ==> final(self).failure() is None,
            !ok ==> final(self).failure() == Some(old(self).issued()),
    {
        if !ok {
            self.failed = Some(self.next);
        }
        assert(self.next < self.plan.len());
        self.next = self.next + 1;
    }

    /// The overall outcome: success exactly when every command of the plan
    /// was issued and none failed; otherwise the error names the failed
    /// command, and `issued` bounds what may need cleanup.
    pub fn outcome(&self) -> (r: Result<(), SetupError>)
        requires
            self.wf(),
        ensures
            r == Ok::<(), SetupError>(()) <==> (self.failure() is None && self.issued()
                == self.plan().len()),
            (r matches Err(SetupError::CommandFailed { index }) && Some(index as int)
                == self.failure()) <==> self.failure() is Some,
            r is Err ==> (r matches Err(e) && e is CommandFailed),
    {
        match self.failed {
            Some(index) => Err(SetupError::CommandFailed { index }),
            None => {
                if self.next == self.plan.len() {
                    Ok(())
                } else {
                    Err(SetupError::CommandFailed { index: self.next })
                }
            },
        }
    }
}

/// Reverts a command plan step by step, never aborting: every command is
/// issued whatever happened before, and only the last failure is surfaced.
pub struct RuleReverter {
    plan: Vec<RuleCommand>,
    next: usize,
    last_failed: Option<usize>,
}

impl RuleReverter {
    /// The whole plan.
    pub closed spec fn plan(self) -> Seq<RuleCommand> {
        self.plan@
    }

    /// How many commands have been issued so far.
    pub closed spec fn issued(self) -> int {
        self.next as int
    }

    /// The index of the most recent command that failed, if any.
    pub closed spec fn last_failure(self) -> Option<int> {
        match self.last_failed {
            Some(i) => Some(i as int),
            None => None,
        }
    }

    /// Internal consistency.
    pub closed spec fn wf(self) -> bool {
        &&& self.next <= self.plan@.len()
        &&& (match self.last_failed {
            Some(i) => i < self.next,
            None => true,
        })
    }

    /// Starts reverting the given plan.
    pub fn new(plan: Vec<RuleCommand>) -> (v: RuleReverter)
        ensures
            v.wf(),
            v.plan() == plan@,
            v.issued() == 0,
            v.last_failure() is None,
    {
        RuleReverter { plan, next: 0, last_failed: None }
    }

    /// The next command to run: `None` only once the whole plan has been
    /// issued — failures never cut the plan short.
    pub fn next_command(&self) -> (c: Option<RuleCommand>)
        requires
            self.wf(),
        ensures
            self.issued() < self.plan().len() ==> (c matches Some(cmd) && cmd == self.plan()[
                self.issued()
            ]),
            self.issued() == self.plan().len() ==> c is None,
    {
        if self.next == self.plan.len() {
            None
        } else {
            Some(self.plan[self.next])
        }
    }

    /// Reports the outcome of the command just issued.  Failures are
    /// remembered but never stop the reversal.
    pub fn on_result(&mut self, ok: bool)
        requires
            old(self).wf(),
            old(self).issued() < old(self).plan().len(),
        ensures
            final(self).wf(),
            final(self).plan() == old(self).plan(),
            final(self).issued() == old(self).issued() + 1,
            ok ==> final(self).last_failure() == old(self).last_failure(),
            !ok ==> final(self).last_failure() == Some(old(self).issued()),
    {
        if !ok {
            self.last_failed = Some(self.next);
        }
        assert(self.next < self.plan.len());
        self.next = self.next + 1;
    }

    /// The overall outcome once every command was issued: clean if nothing
    /// failed, otherwise the last failure — reported as a warning by the
    /// caller, never escalated, since the process is exiting regardless.
    pub fn outcome(&self) -> (r: Result<(), CleanupError>)
        requires
            self.wf(),
            self.issued() == self.plan().len(),
        ensures
            r == Ok::<(), CleanupError>(()) <==> self.last_failure() is None,
            (r matches Err(CleanupError::CommandFailed { index }) && Some(index as int)
                == self.last_failure()) <==> self.last_failure() is Some,
    {
        match self.last_failed {
            Some(index) => Err(CleanupError::CommandFailed { index }),
            None => Ok(()),
        }
    }
}

} // verus!
