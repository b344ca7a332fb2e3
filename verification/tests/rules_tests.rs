use entunnel::error::CleanupError;
use entunnel::error::SetupError;
use entunnel::rules::RuleApplier;
use entunnel::rules::RuleCommand;
use entunnel::rules::RuleReverter;
use entunnel::rules::apply_plan;
use entunnel::rules::revert_plan;

#[test]
fn capture_plan_shape() {
    let plan = apply_plan(Some(80), None);
    assert_eq!(
        plan,
        vec![
            RuleCommand::AddCaptureNat { dport: 80 },
            RuleCommand::AddCaptureRoute,
            RuleCommand::AddCapturePolicy { dport: 80 },
            RuleCommand::FlushRouteCache,
        ]
    );
}

#[test]
fn replay_plan_shape() {
    let plan = apply_plan(None, Some(8080));
    assert_eq!(plan, vec![RuleCommand::AddReplayRedirect { replay: 8080 }]);
}

#[test]
fn revert_plan_shape() {
    let plan = revert_plan(Some(80), Some(8080));
    assert_eq!(
        plan,
        vec![
            RuleCommand::DelCaptureNat { dport: 80 },
            RuleCommand::FlushCaptureRoutes,
            RuleCommand::FlushCapturePolicies,
            RuleCommand::FlushRouteCache,
            RuleCommand::DelReplayRedirect { replay: 8080 },
        ]
    );
}

#[test]
fn every_installed_rule_has_its_removal() {
    // The agent's NAT rule, route and policy rule each have a matching
    // removal in the reversal plan; so does the gateway's redirect.
    let apply = apply_plan(Some(80), Some(8080));
    let revert = revert_plan(Some(80), Some(8080));
    for cmd in &apply {
        let removal = match cmd {
            RuleCommand::AddCaptureNat { dport } => Some(RuleCommand::DelCaptureNat { dport: *dport }),
            RuleCommand::AddCaptureRoute => Some(RuleCommand::FlushCaptureRoutes),
            RuleCommand::AddCapturePolicy { .. } => Some(RuleCommand::FlushCapturePolicies),
            RuleCommand::AddReplayRedirect { replay } => {
                Some(RuleCommand::DelReplayRedirect { replay: *replay })
            }
            _ => None,
        };
        if let Some(removal) = removal {
            assert!(revert.contains(&removal), "no removal for {:?}", cmd);
        }
    }
}

#[test]
fn apply_aborts_on_second_command_failure() {
    // The DNAT rule goes in, the policy route fails: startup aborts with a
    // setup error naming the failed command, and nothing later is issued.
    let mut applier = RuleApplier::new(apply_plan(Some(80), None));
    let first = applier.next_command().unwrap();
    assert_eq!(first, RuleCommand::AddCaptureNat { dport: 80 });
    applier.on_result(true);
    let second = applier.next_command().unwrap();
    assert_eq!(second, RuleCommand::AddCaptureRoute);
    applier.on_result(false);
    assert!(applier.next_command().is_none());
    assert_eq!(
        applier.outcome(),
        Err(SetupError::CommandFailed { index: 1 })
    );

    // Cleanup still attempts every removal — the first rule's removal in
    // particular is not left unattempted.
    let revert = revert_plan(Some(80), None);
    let mut reverter = RuleReverter::new(revert.clone());
    let mut issued = Vec::new();
    while let Some(cmd) = reverter.next_command() {
        issued.push(cmd);
        reverter.on_result(true);
    }
    assert_eq!(issued, revert);
    assert!(issued.contains(&RuleCommand::DelCaptureNat { dport: 80 }));
    assert!(reverter.outcome().is_ok());
}

#[test]
fn apply_success_needs_every_command() {
    let mut applier = RuleApplier::new(apply_plan(Some(80), None));
    while let Some(_cmd) = applier.next_command() {
        applier.on_result(true);
    }
    assert_eq!(applier.outcome(), Ok(()));
}

#[test]
fn revert_attempts_all_and_surfaces_last_error() {
    let revert = revert_plan(Some(80), Some(8080));
    let mut reverter = RuleReverter::new(revert.clone());
    let mut issued = 0usize;
    while let Some(_cmd) = reverter.next_command() {
        // The first and third removals fail; the reverter carries on.
        let ok = issued != 0 && issued != 2;
        reverter.on_result(ok);
        issued += 1;
    }
    assert_eq!(issued, revert.len());
    assert_eq!(
        reverter.outcome(),
        Err(CleanupError::CommandFailed { index: 2 })
    );
}
