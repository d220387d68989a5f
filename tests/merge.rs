use sonmhub::bot::{is_mergeable, merge_request_for, plan_merges, Action, MergeTarget, MergeTick, Phase, PullRequest, Reply, TickOutcome};
use sonmhub::github::client::{ApiRequest, Error};
use sonmhub::github::status::CombinedStatus;

fn pr(number: u32, mergeable: &str, base: &str, head: &str) -> PullRequest {
    PullRequest {
        title: format!("PR {}", number),
        number,
        mergeable: mergeable.to_string(),
        base_ref_name: base.to_string(),
        head_ref_name: head.to_string(),
    }
}

fn target() -> MergeTarget {
    MergeTarget { owner: "sonm-io".to_string(), repo: "core".to_string(), branch: "master".to_string() }
}

#[test]
fn eligibility_needs_mergeable_state_and_watched_base() {
    assert!(is_mergeable(&pr(1, "MERGEABLE", "master", "feat-a"), "master"));
    assert!(!is_mergeable(&pr(2, "CONFLICTING", "master", "feat-b"), "master"));
    assert!(!is_mergeable(&pr(3, "MERGEABLE", "develop", "feat-c"), "master"));
    assert!(!is_mergeable(&pr(4, "mergeable", "master", "feat-d"), "master"));
}

#[test]
fn merge_request_merges_branch_into_head() {
    let m = merge_request_for(&target(), &pr(1, "MERGEABLE", "master", "feat-a"));
    assert_eq!(m.owner, "sonm-io");
    assert_eq!(m.repo, "core");
    assert_eq!(m.body.base, "feat-a");
    assert_eq!(m.body.head, "master");
    assert_eq!(m.body.commit_message, "Merge branch 'master' into feat-a");
}

#[test]
fn plan_has_one_merge_per_eligible_pull_request() {
    let prs = vec![
        pr(1, "MERGEABLE", "master", "feat-a"),
        pr(2, "CONFLICTING", "master", "feat-b"),
        pr(3, "MERGEABLE", "master", "feat-c"),
    ];
    let plan = plan_merges(&target(), &prs);
    assert_eq!(plan.len(), 2);
    assert_eq!(plan[0].body.base, "feat-a");
    assert_eq!(plan[1].body.base, "feat-c");
    assert!(plan_merges(&target(), &Vec::new()).is_empty());
}

#[test]
fn tick_issues_exactly_one_merge_for_two_pull_requests() {
    let (mut tick, a) = MergeTick::start(target());
    assert!(matches!(a, Action::Call(ApiRequest::PullRequests { .. })));
    let prs = vec![pr(1, "MERGEABLE", "master", "feat-a"), pr(2, "CONFLICTING", "master", "feat-b")];
    let mut merges = Vec::new();
    let mut statuses = Vec::new();
    let mut action = tick.on_reply(Reply::PullRequests(Ok(prs)));
    loop {
        match action {
            Action::Call(ApiRequest::Status { reference, .. }) => {
                statuses.push(reference);
                action = tick.on_reply(Reply::Status(Ok(CombinedStatus::Pending)));
            }
            Action::Call(ApiRequest::Merge(m)) => {
                merges.push(m.body.clone());
                action = tick.on_reply(Reply::Merged(Ok(Some("{\"sha\":\"1\"}".to_string()))));
            }
            Action::Call(_) => panic!("unexpected call"),
            Action::Finish(outcome) => {
                assert_eq!(outcome, TickOutcome::Completed);
                break;
            }
        }
    }
    assert_eq!(statuses, vec!["feat-a".to_string(), "feat-b".to_string()]);
    assert_eq!(merges.len(), 1);
    assert_eq!(merges[0].base, "feat-a");
    assert_eq!(merges[0].head, "master");
    assert_eq!(merges[0].commit_message, "Merge branch 'master' into feat-a");
    assert!(tick.is_done());
    assert_eq!(tick.created, vec!["{\"sha\":\"1\"}".to_string()]);
}

#[test]
fn merge_with_nothing_to_do_records_no_body() {
    let (mut tick, _) = MergeTick::start(target());
    tick.on_reply(Reply::PullRequests(Ok(vec![pr(1, "MERGEABLE", "master", "feat-a")])));
    tick.on_reply(Reply::Status(Ok(CombinedStatus::Success)));
    let a = tick.on_reply(Reply::Merged(Ok(None)));
    assert!(matches!(a, Action::Finish(TickOutcome::Completed)));
    assert!(tick.created.is_empty());
}

#[test]
fn tick_with_no_pull_requests_completes() {
    let (mut tick, _) = MergeTick::start(target());
    let a = tick.on_reply(Reply::PullRequests(Ok(Vec::new())));
    assert!(matches!(a, Action::Finish(TickOutcome::Completed)));
    assert_eq!(tick.phase, Phase::Done(TickOutcome::Completed));
}

#[test]
fn transport_failure_on_listing_ends_tick_and_polling_goes_on() {
    let (mut tick, _) = MergeTick::start(target());
    let a = tick.on_reply(Reply::PullRequests(Err(Error::Transport)));
    assert!(matches!(a, Action::Finish(TickOutcome::Failed(Error::Transport))));
    assert!(tick.is_done());
    // A later reply changes nothing.
    let again = tick.on_reply(Reply::Status(Ok(CombinedStatus::Success)));
    assert!(matches!(again, Action::Finish(TickOutcome::Failed(Error::Transport))));
    // The next tick starts afresh.
    let (next, a) = MergeTick::start(target());
    assert_eq!(next.phase, Phase::Listing);
    assert!(matches!(a, Action::Call(ApiRequest::PullRequests { .. })));
}

#[test]
fn failures_while_checking_or_merging_end_the_tick() {
    let (mut tick, _) = MergeTick::start(target());
    tick.on_reply(Reply::PullRequests(Ok(vec![pr(1, "MERGEABLE", "master", "feat-a")])));
    let a = tick.on_reply(Reply::Status(Err(Error::Decode)));
    assert!(matches!(a, Action::Finish(TickOutcome::Failed(Error::Decode))));

    let (mut tick, _) = MergeTick::start(target());
    tick.on_reply(Reply::PullRequests(Ok(vec![pr(1, "MERGEABLE", "master", "feat-a")])));
    let a = tick.on_reply(Reply::Status(Ok(CombinedStatus::Failure)));
    assert!(matches!(a, Action::Call(ApiRequest::Merge(_))));
    let a = tick.on_reply(Reply::Merged(Err(Error::Transport)));
    assert!(matches!(a, Action::Finish(TickOutcome::Failed(Error::Transport))));
}

#[test]
fn reply_that_does_not_fit_fails_the_tick() {
    let (mut tick, _) = MergeTick::start(target());
    let a = tick.on_reply(Reply::Merged(Ok(None)));
    assert!(matches!(a, Action::Finish(TickOutcome::Failed(Error::Decode))));
}
