use vstd::prelude::*;

use crate::github::client::{ApiRequest, Error, MergeInput, MergeRequest};
use crate::github::status::CombinedStatus;
use crate::text::same_text;

verus! {

/// An open pull request, as the GraphQL query returns it.
#[derive(Clone, Debug, PartialEq)]
pub struct PullRequest {
    pub title: String,
    pub number: u32,
    /// The provider's mergeable state, such as `MERGEABLE` or `CONFLICTING`.
    pub mergeable: String,
    pub base_ref_name: String,
    pub head_ref_name: String,
}

/// The repository that the bot watches, and the branch that it merges into
/// pull requests.
#[derive(Clone, Debug, PartialEq)]
pub struct MergeTarget {
    pub owner: String,
    pub repo: String,
    pub branch: String,
}

/// A merge request as plain text: owner, repository, base, head, message.
pub type MergeView = (Seq<char>, Seq<char>, Seq<char>, Seq<char>, Seq<char>);

pub open spec fn merge_view(m: MergeRequest) -> MergeView {
    (m.owner@, m.repo@, m.body.base@, m.body.head@, m.body.commit_message@)
}

/// A pull request may be merged when the provider finds it mergeable and it
/// targets the watched branch.
pub open spec fn is_eligible(pr: PullRequest, branch: Seq<char>) -> bool {
    pr.mergeable@ == "MERGEABLE"@ && pr.base_ref_name@ == branch
}

/// The message of the merge of `branch` into `head`.
pub open spec fn commit_message_of(branch: Seq<char>, head: Seq<char>) -> Seq<char> {
    "Merge branch '"@ + branch + "' into "@ + head
}

/// The merge issued for an eligible pull request: the watched branch is
/// merged into the pull request's head.
pub open spec fn planned_merge(t: MergeTarget, pr: PullRequest) -> MergeView {
    (
        t.owner@,
        t.repo@,
        pr.head_ref_name@,
        t.branch@,
        commit_message_of(t.branch@, pr.head_ref_name@),
    )
}

/// The merges issued for a list of pull requests, in their order.
pub open spec fn merge_plan(t: MergeTarget, prs: Seq<PullRequest>) -> Seq<MergeView>
    decreases prs.len(),
{
    if prs.len() == 0 {
        Seq::empty()
    } else {
        let rest = merge_plan(t, prs.drop_last());
        if is_eligible(prs.last(), t.branch@) {
            rest.push(planned_merge(t, prs.last()))
        } else {
            rest
        }
    }
}

/// Whether `pr` is eligible for a merge when `branch` is the watched branch.
pub fn is_mergeable(pr: &PullRequest, branch: &str) -> (r: bool)
    ensures
        r == is_eligible(*pr, branch@),
{
    same_text(pr.mergeable.as_str(), "MERGEABLE") && same_text(pr.base_ref_name.as_str(), branch)
}

/// The merge request issued for `pr`.
pub fn merge_request_for(t: &MergeTarget, pr: &PullRequest) -> (r: MergeRequest)
    ensures
        merge_view(r) == planned_merge(*t, *pr),
{
    let message = String::from_str("Merge branch '").concat(t.branch.as_str()).concat(
        "' into ",
    ).concat(pr.head_ref_name.as_str());
    MergeRequest {
        owner: t.owner.clone(),
        repo: t.repo.clone(),
        body: MergeInput {
            base: pr.head_ref_name.clone(),
            head: t.branch.clone(),
            commit_message: message,
        },
    }
}

/// The merge requests for a list of pull requests, in their order.
pub fn plan_merges(t: &MergeTarget, prs: &Vec<PullRequest>) -> (r: Vec<MergeRequest>)
    ensures
        r@.map_values(|m: MergeRequest| merge_view(m)) == merge_plan(*t, prs@),
{
    let mut r: Vec<MergeRequest> = Vec::new();
    let mut i: usize = 0;
    while i < prs.len()
        invariant
            i <= prs@.len(),
            r@.map_values(|m: MergeRequest| merge_view(m)) == merge_plan(*t, prs@.take(i as int)),
        decreases prs@.len() - i,
    {
        assert(prs@.take(i + 1).drop_last() =~= prs@.take(i as int));
        if is_mergeable(&prs[i], t.branch.as_str()) {
            let m = merge_request_for(t, &prs[i]);
            r.push(m);
        }
        assert(r@.map_values(|m: MergeRequest| merge_view(m)) =~= merge_plan(*t, prs@.take(i + 1)));
        i = i + 1;
    }
    assert(prs@.take(prs@.len() as int) =~= prs@);
    r
}

/// How a tick ended. Either way the poller goes on with the next tick: a
/// failed tick stops nothing but itself.
#[derive(Clone, Debug, PartialEq)]
pub enum TickOutcome {
    /// Every pull request was looked at.
    Completed,
    /// A call failed, or a reply did not fit the call; the rest of the tick
    /// was dropped.
    Failed(Error),
}

/// Where a tick stands.
#[derive(Clone, Debug, PartialEq)]
pub enum Phase {
    /// Waiting for the list of open pull requests.
    Listing,
    /// Waiting for the combined status of the pull request at this index.
    Checking(usize),
    /// Waiting for the merge into the pull request at this index.
    Merging(usize),
    /// The tick is over.
    Done(TickOutcome),
}

/// The reply to the last call that a tick asked for.
pub enum Reply {
    PullRequests(Result<Vec<PullRequest>, Error>),
    Status(Result<CombinedStatus, Error>),
    /// The body of the created merge, or `None` when there was nothing to do.
    Merged(Result<Option<String>, Error>),
}

/// What the poller does next for a tick.
pub enum Action {
    /// Make this call and hand its reply back.
    Call(ApiRequest),
    /// The tick is over.
    Finish(TickOutcome),
}

/// One tick of the merge bot: list the open pull requests, then, one at a
/// time, fetch each one's combined status and merge the watched branch into
/// it where it is eligible. The status is fetched but decides nothing.
pub struct MergeTick {
    pub target: MergeTarget,
    pub pulls: Vec<PullRequest>,
    pub phase: Phase,
    /// The merges asked for so far, in order.
    pub issued: Ghost<Seq<MergeView>>,
    /// The bodies of the merges that were created, in order.
    pub created: Vec<String>,
}

/// The action and phase that come next once the pull requests before index
/// `j` are done.
pub open spec fn continues_at(t: MergeTarget, pulls: Seq<PullRequest>, j: int, phase: Phase, a: Action) -> bool {
    if j < pulls.len() {
        &&& phase == Phase::Checking(j as usize)
        &&& a == Action::Call(
            ApiRequest::Status { owner: t.owner, repo: t.repo, reference: pulls[j].head_ref_name },
        )
    } else {
        &&& phase == Phase::Done(TickOutcome::Completed)
        &&& a == Action::Finish(TickOutcome::Completed)
    }
}

/// The tick fails with `e`.
pub open spec fn fails_with(phase: Phase, a: Action, e: Error) -> bool {
    &&& phase == Phase::Done(TickOutcome::Failed(e))
    &&& a == Action::Finish(TickOutcome::Failed(e))
}

/// How a tick in `prev` moves on `reply` to `next`, asking for `a`.
pub open spec fn tick_step(prev: MergeTick, reply: Reply, next: MergeTick, a: Action) -> bool {
    let t = prev.target;
    match (prev.phase, reply) {
        (Phase::Done(o), _) => next.pulls@ == prev.pulls@ && next.phase == prev.phase && a
            == Action::Finish(o),
        (Phase::Listing, Reply::PullRequests(Ok(prs))) => next.pulls@ == prs@ && continues_at(
            t,
            prs@,
            0,
            next.phase,
            a,
        ),
        (Phase::Listing, Reply::PullRequests(Err(e))) => next.pulls@ == prev.pulls@ && fails_with(
            next.phase,
            a,
            e,
        ),
        (Phase::Checking(i), Reply::Status(Ok(_))) => next.pulls@ == prev.pulls@ && if is_eligible(
            prev.pulls@[i as int],
            t.branch@,
        ) {
            &&& next.phase == Phase::Merging(i)
            &&& a matches Action::Call(ApiRequest::Merge(m))
            &&& merge_view(m) == planned_merge(t, prev.pulls@[i as int])
        } else {
            continues_at(t, prev.pulls@, i + 1, next.phase, a)
        },
        (Phase::Checking(_), Reply::Status(Err(e))) => next.pulls@ == prev.pulls@ && fails_with(
            next.phase,
            a,
            e,
        ),
        (Phase::Merging(i), Reply::Merged(Ok(_))) => next.pulls@ == prev.pulls@ && continues_at(
            t,
            prev.pulls@,
            i + 1,
            next.phase,
            a,
        ),
        (Phase::Merging(_), Reply::Merged(Err(e))) => next.pulls@ == prev.pulls@ && fails_with(
            next.phase,
            a,
            e,
        ),
        _ => next.pulls@ == prev.pulls@ && fails_with(next.phase, a, Error::Decode),
    }
}

impl MergeTick {
    /// The tick's bookkeeping holds: the merges asked for are those of the
    /// plan for the pull requests that are done.
    pub open spec fn wf(&self) -> bool {
        match self.phase {
            Phase::Listing => self.issued@ == Seq::<MergeView>::empty(),
            Phase::Checking(i) => i < self.pulls@.len() && self.issued@ == merge_plan(
                self.target,
                self.pulls@.take(i as int),
            ),
            Phase::Merging(i) => i < self.pulls@.len() && is_eligible(
                self.pulls@[i as int],
                self.target.branch@,
            ) && self.issued@ == merge_plan(self.target, self.pulls@.take(i + 1)),
            Phase::Done(TickOutcome::Completed) => self.issued@ == merge_plan(
                self.target,
                self.pulls@,
            ),
            Phase::Done(TickOutcome::Failed(_)) => true,
        }
    }

    /// A new tick, which first asks for the open pull requests.
    pub fn start(target: MergeTarget) -> (r: (MergeTick, Action))
        ensures
            r.0.wf(),
            r.0.target == target,
            r.0.phase == Phase::Listing,
            r.0.pulls@.len() == 0,
            r.0.created@.len() == 0,
            r.1 == Action::Call(ApiRequest::PullRequests { owner: target.owner, repo: target.repo }),
    {
        let a = Action::Call(
            ApiRequest::PullRequests { owner: target.owner.clone(), repo: target.repo.clone() },
        );
        (
            MergeTick {
                target,
                pulls: Vec::new(),
                phase: Phase::Listing,
                issued: Ghost(Seq::empty()),
                created: Vec::new(),
            },
            a,
        )
    }

    /// Whether the tick is over.
    pub fn is_done(&self) -> (r: bool)
        ensures
            r == (self.phase is Done),
    {
        match self.phase {
            Phase::Done(_) => true,
            _ => false,
        }
    }

    fn continue_at(&mut self, j: usize) -> (a: Action)
        requires
            j <= old(self).pulls@.len(),
            old(self).issued@ == merge_plan(old(self).target, old(self).pulls@.take(j as int)),
        ensures
            final(self).wf(),
            final(self).target == old(self).target,
            final(self).pulls@ == old(self).pulls@,
            final(self).issued == old(self).issued,
            final(self).created == old(self).created,
            continues_at(old(self).target, old(self).pulls@, j as int, final(self).phase, a),
    {
        if j < self.pulls.len() {
            self.phase = Phase::Checking(j);
            Action::Call(
                ApiRequest::Status {
                    owner: self.target.owner.clone(),
                    repo: self.target.repo.clone(),
                    reference: self.pulls[j].head_ref_name.clone(),
                },
            )
        } else {
            assert(self.pulls@.take(j as int) =~= self.pulls@);
            self.phase = Phase::Done(TickOutcome::Completed);
            Action::Finish(TickOutcome::Completed)
        }
    }

    fn fail(&mut self, e: Error) -> (a: Action)
        ensures
            final(self).wf(),
            final(self).target == old(self).target,
            final(self).pulls@ == old(self).pulls@,
            final(self).issued == old(self).issued,
            final(self).created == old(self).created,
            fails_with(final(self).phase, a, e),
    {
        self.phase = Phase::Done(TickOutcome::Failed(e.duplicate()));
        Action::Finish(TickOutcome::Failed(e))
    }

    /// Moves the tick on by the reply to its last call, and says what to do
    /// next. A reply that does not fit the call fails the tick.
    pub fn on_reply(&mut self, reply: Reply) -> (a: Action)
        requires
            old(self).wf(),
        ensures
            final(self).wf(),
            final(self).target == old(self).target,
            tick_step(*old(self), reply, *final(self), a),
            match a {
                Action::Call(ApiRequest::Merge(m)) => final(self).issued@ == old(self).issued@.push(
                    merge_view(m),
                ),
                _ => final(self).issued@ == old(self).issued@,
            },
            match (old(self).phase, reply) {
                (Phase::Merging(_), Reply::Merged(Ok(Some(b)))) => final(self).created@ == old(
                    self,
                ).created@.push(b),
                _ => final(self).created@ == old(self).created@,
            },
    {
        let ghost old_self = *self;
        match (&self.phase, reply) {
            (Phase::Done(o), _) => Action::Finish(
                match o {
                    TickOutcome::Completed => TickOutcome::Completed,
                    TickOutcome::Failed(e) => TickOutcome::Failed(e.duplicate()),
                },
            ),
            (Phase::Listing, Reply::PullRequests(Ok(prs))) => {
                self.pulls = prs;
                proof {
                    assert(self.pulls@.take(0) =~= Seq::<PullRequest>::empty());
                }
                self.continue_at(0)
            },
            (Phase::Checking(i), Reply::Status(Ok(_))) => {
                let i = *i;
                let n = self.pulls.len();
                assert(i < n);
                if is_mergeable(&self.pulls[i], self.target.branch.as_str()) {
                    let m = merge_request_for(&self.target, &self.pulls[i]);
                    proof {
                        assert(self.pulls@.take(i + 1).drop_last() =~= self.pulls@.take(i as int));
                        self.issued = Ghost(self.issued@.push(merge_view(m)));
                    }
                    self.phase = Phase::Merging(i);
                    Action::Call(ApiRequest::Merge(m))
                } else {
                    proof {
                        assert(self.pulls@.take(i + 1).drop_last() =~= self.pulls@.take(i as int));
                    }
                    self.continue_at(i + 1)
                }
            },
            (Phase::Merging(i), Reply::Merged(Ok(body))) => {
                let i = *i;
                if let Some(b) = body {
                    self.created.push(b);
                }
                let n = self.pulls.len();
                assert(i < n);
                self.continue_at(i + 1)
            },
            (Phase::Listing, Reply::PullRequests(Err(e))) => self.fail(e),
            (Phase::Checking(_), Reply::Status(Err(e))) => self.fail(e),
            (Phase::Merging(_), Reply::Merged(Err(e))) => self.fail(e),
            _ => self.fail(Error::Decode),
        }
    }
}

/// A tick that completed has asked for exactly the merges of the plan for
/// the pull requests it listed, in their order.
pub proof fn lemma_completed_tick_issues_plan(tick: MergeTick)
    requires
        tick.wf(),
        tick.phase == Phase::Done(TickOutcome::Completed),
    ensures
        tick.issued@ == merge_plan(tick.target, tick.pulls@),
{
}

/// A failure to fetch the list of pull requests ends the tick with that
/// failure as its outcome; it asks for no further call.
pub proof fn lemma_listing_failure_ends_tick(prev: MergeTick, next: MergeTick, a: Action, e: Error)
    requires
        prev.phase == Phase::Listing,
        tick_step(prev, Reply::PullRequests(Err(e)), next, a),
    ensures
        next.phase == Phase::Done(TickOutcome::Failed(e)),
        a == Action::Finish(TickOutcome::Failed(e)),
{
}

/// A pull request that is not eligible gets no merge: the plan for a list
/// grows by one merge for each eligible pull request and by none otherwise.
pub proof fn lemma_plan_skips_ineligible(t: MergeTarget, prs: Seq<PullRequest>, pr: PullRequest)
    ensures
        is_eligible(pr, t.branch@) ==> merge_plan(t, prs.push(pr)) == merge_plan(t, prs).push(
            planned_merge(t, pr),
        ),
        !is_eligible(pr, t.branch@) ==> merge_plan(t, prs.push(pr)) == merge_plan(t, prs),
{
    assert(prs.push(pr).drop_last() =~= prs);
}

} // verus!
