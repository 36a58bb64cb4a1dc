//! A Chord workspace: its top directory, where each repo of the manifest goes, and the git
//! work that the commands do on a repo, step by step.
//!
//! The git work itself (cloning, fetching, running a command) happens outside this library.
//! Each job here decides, from the reply to the last git operation, which operation comes
//! next or how the job ends.
pub mod git;
pub mod lockfile;
pub mod manifest;
pub mod utils;

pub use git::GitBackend;
pub use lockfile::Lockfile;
pub use manifest::Manifest;
pub use manifest::Repo as ManifestRepo;

use vstd::prelude::*;
use crate::workspace::manifest::RepoView;
use crate::workspace::git::libgit2::remote_tracking_ref;
use crate::workspace::utils::{is_absolute_path, join_path, joined_path, path_is_absolute, plainly_relative};

verus! {

/// A git operation that a job asks for, on the repo in `dir`.
pub enum GitOp {
    /// Is there a git repository in `dir`?
    IsRepo { dir: String },
    /// Clone `remote` into `dir`.
    Clone { remote: String, dir: String },
    /// Fetch from the `origin` remote.
    Fetch { dir: String },
    /// Parse `rev` as a revision and give the hash of the commit it names.
    RevParse { dir: String, rev: String },
    /// Peel the reference `reference` to a commit and give its hash.
    PeelReference { dir: String, reference: String },
    /// Check out the commit `hash`, leaving HEAD detached there.
    Checkout { hash: String, dir: String },
    /// The hash of the commit checked out.
    CurrentHash { dir: String },
    /// Does the working tree hold changes?
    IsDirty { dir: String },
    /// Run `command` with `sh -c`, in `dir`.
    Run { dir: String, command: String },
}

/// The reply to a git operation.
pub enum GitReply {
    /// The answer to a yes-or-no question; for `Run`, whether the command exited with success.
    Flag(bool),
    /// The operation succeeded.
    Done,
    /// The text that the operation gives: a commit hash.
    Text(String),
    /// The operation failed (for `Run`: the command could not be started); the text says why.
    Failed(String),
}

/// What a job does next: ask for a git operation, or end with its outcome.
pub enum JobStep<T> {
    Perform(GitOp),
    Finished(Result<T, WorkspaceError>),
}

/// Why the work on a repo failed.
pub enum WorkspaceError {
    /// The repo (by this name) has an absolute location; it must be relative.
    AbsoluteLocation(String),
    /// The repo's directory (repo named so) holds no git repository.
    NotARepo(String),
    /// A git operation failed; the text says why.
    Git(String),
    /// The command exited with a failure.
    CommandFailed,
    /// The command could not be started.
    CommandNotRun,
    /// A reply came that does not answer the operation asked for.
    UnexpectedReply,
}

/// The error that a reply ends a job with where it is not the one awaited.
pub open spec fn reply_error(reply: GitReply) -> WorkspaceError {
    match reply {
        GitReply::Failed(m) => WorkspaceError::Git(m),
        _ => WorkspaceError::UnexpectedReply,
    }
}

fn error_of(reply: GitReply) -> (r: WorkspaceError)
    ensures
        r == reply_error(reply),
{
    match reply {
        GitReply::Failed(m) => WorkspaceError::Git(m),
        _ => WorkspaceError::UnexpectedReply,
    }
}

/// Where the repo `r` goes in the workspace whose top directory is `top`: `top/location/name`,
/// or `top/name` without a location; `None` where the location is absolute.
pub open spec fn repo_dir_of(top: Seq<char>, r: RepoView) -> Option<Seq<char>> {
    match r.location {
        Some(l) => if path_is_absolute(l) {
            None
        } else {
            Some(joined_path(joined_path(top, l), r.name))
        },
        None => Some(joined_path(top, r.name)),
    }
}

/// Where a repo goes depends on its name and location only, not on its remote or revision;
/// it has a place exactly when its location is not absolute; and a repo at location `l` of
/// the workspace goes where a repo of the same name without a location goes in the
/// workspace whose top directory is `top/l`.
pub proof fn law_repo_dir_by_place(top: Seq<char>, r: RepoView, s: RepoView)
    ensures
        r.name == s.name && r.location == s.location ==> repo_dir_of(top, r) == repo_dir_of(top, s),
        repo_dir_of(top, r) is None <==> (r.location matches Some(l) && path_is_absolute(l)),
        r.location matches Some(l) ==> (!path_is_absolute(l)
            ==> repo_dir_of(top, r) == repo_dir_of(joined_path(top, l), RepoView { location: None, ..r })),
{
}

/// Represents the complete Chord workspace, created at the invocation of the `chord` command.
pub struct Workspace {
    /// The root of the Chord workspace.
    top_dir: String,
    /// The Git operation backend used for the subcommands.
    backend: GitBackend,
}

impl View for Workspace {
    type V = Seq<char>;

    closed spec fn view(&self) -> Seq<char> {
        self.top_dir@
    }
}

/// The stages of resolving a repo to a commit.
pub enum ResolveStage {
    /// Waiting to learn whether the repo is cloned.
    Probing,
    /// Waiting for the clone.
    Cloning,
    /// Waiting for the fetch.
    Fetching,
    /// Waiting for the revision to be parsed to a commit.
    Parsing,
    /// Waiting for the remote-tracking branch of the revision to be peeled to a commit.
    PeelingRef,
    /// Waiting for the checkout of this hash.
    CheckingOut(String),
    /// Done, one way or the other.
    Finished,
}

/// Bringing a repo to the commit that its revision names: clone it where missing, fetch,
/// resolve the revision to a hash (as a revision, or else as a branch of `origin`), check
/// that hash out.
pub struct ResolveJob {
    pub dir: String,
    pub remote: String,
    pub revision: String,
    /// The remote-tracking reference of the revision, `refs/remotes/origin/<revision>`.
    pub tracking_ref: String,
    /// The hash the revision resolved to, once it has.
    pub hash: Option<String>,
    pub stage: ResolveStage,
}

/// The job's next state and step on `reply`.
pub open spec fn resolve_next(job: ResolveJob, reply: GitReply) -> (ResolveJob, JobStep<String>) {
    let failed = (ResolveJob { stage: ResolveStage::Finished, ..job }, JobStep::Finished(Err(reply_error(reply))));
    match job.stage {
        ResolveStage::Probing => match reply {
            GitReply::Flag(true) => (
                ResolveJob { stage: ResolveStage::Fetching, ..job },
                JobStep::Perform(GitOp::Fetch { dir: job.dir }),
            ),
            GitReply::Flag(false) => (
                ResolveJob { stage: ResolveStage::Cloning, ..job },
                JobStep::Perform(GitOp::Clone { remote: job.remote, dir: job.dir }),
            ),
            _ => failed,
        },
        ResolveStage::Cloning => match reply {
            GitReply::Done => (
                ResolveJob { stage: ResolveStage::Fetching, ..job },
                JobStep::Perform(GitOp::Fetch { dir: job.dir }),
            ),
            _ => failed,
        },
        ResolveStage::Fetching => match reply {
            GitReply::Done => (
                ResolveJob { stage: ResolveStage::Parsing, ..job },
                JobStep::Perform(GitOp::RevParse { dir: job.dir, rev: job.revision }),
            ),
            _ => failed,
        },
        ResolveStage::Parsing => match reply {
            GitReply::Text(h) => (
                ResolveJob { stage: ResolveStage::CheckingOut(h), hash: Some(h), ..job },
                JobStep::Perform(GitOp::Checkout { hash: h, dir: job.dir }),
            ),
            GitReply::Failed(_) => (
                ResolveJob { stage: ResolveStage::PeelingRef, ..job },
                JobStep::Perform(GitOp::PeelReference { dir: job.dir, reference: job.tracking_ref }),
            ),
            _ => failed,
        },
        ResolveStage::PeelingRef => match reply {
            GitReply::Text(h) => (
                ResolveJob { stage: ResolveStage::CheckingOut(h), hash: Some(h), ..job },
                JobStep::Perform(GitOp::Checkout { hash: h, dir: job.dir }),
            ),
            _ => failed,
        },
        ResolveStage::CheckingOut(h) => match reply {
            GitReply::Done => (
                ResolveJob { stage: ResolveStage::Finished, ..job },
                JobStep::Finished(Ok(h)),
            ),
            _ => failed,
        },
        ResolveStage::Finished => (job, JobStep::Finished(Err(WorkspaceError::UnexpectedReply))),
    }
}

impl ResolveJob {
    /// Takes the reply to the last operation asked for and decides the next step. A
    /// successful resolution ends with the hash that the repo was checked out at.
    pub fn step(&mut self, reply: GitReply) -> (r: JobStep<String>)
        ensures
            (*final(self), r) == resolve_next(*old(self), reply),
    {
        match &self.stage {
            ResolveStage::Probing => match reply {
                GitReply::Flag(true) => {
                    self.stage = ResolveStage::Fetching;
                    JobStep::Perform(GitOp::Fetch { dir: self.dir.clone() })
                },
                GitReply::Flag(false) => {
                    self.stage = ResolveStage::Cloning;
                    JobStep::Perform(GitOp::Clone { remote: self.remote.clone(), dir: self.dir.clone() })
                },
                _ => {
                    self.stage = ResolveStage::Finished;
                    JobStep::Finished(Err(error_of(reply)))
                },
            },
            ResolveStage::Cloning => match reply {
                GitReply::Done => {
                    self.stage = ResolveStage::Fetching;
                    JobStep::Perform(GitOp::Fetch { dir: self.dir.clone() })
                },
                _ => {
                    self.stage = ResolveStage::Finished;
                    JobStep::Finished(Err(error_of(reply)))
                },
            },
            ResolveStage::Fetching => match reply {
                GitReply::Done => {
                    self.stage = ResolveStage::Parsing;
                    JobStep::Perform(GitOp::RevParse { dir: self.dir.clone(), rev: self.revision.clone() })
                },
                _ => {
                    self.stage = ResolveStage::Finished;
                    JobStep::Finished(Err(error_of(reply)))
                },
            },
            ResolveStage::Parsing => match reply {
                GitReply::Text(h) => {
                    let hash = h.clone();
                    let kept = h.clone();
                    self.stage = ResolveStage::CheckingOut(h);
                    self.hash = Some(kept);
                    JobStep::Perform(GitOp::Checkout { hash, dir: self.dir.clone() })
                },
                GitReply::Failed(_) => {
                    self.stage = ResolveStage::PeelingRef;
                    JobStep::Perform(GitOp::PeelReference { dir: self.dir.clone(), reference: self.tracking_ref.clone() })
                },
                _ => {
                    self.stage = ResolveStage::Finished;
                    JobStep::Finished(Err(error_of(reply)))
                },
            },
            ResolveStage::PeelingRef => match reply {
                GitReply::Text(h) => {
                    let hash = h.clone();
                    let kept = h.clone();
                    self.stage = ResolveStage::CheckingOut(h);
                    self.hash = Some(kept);
                    JobStep::Perform(GitOp::Checkout { hash, dir: self.dir.clone() })
                },
                _ => {
                    self.stage = ResolveStage::Finished;
                    JobStep::Finished(Err(error_of(reply)))
                },
            },
            ResolveStage::CheckingOut(h) => match reply {
                GitReply::Done => {
                    let hash = h.clone();
                    self.stage = ResolveStage::Finished;
                    JobStep::Finished(Ok(hash))
                },
                _ => {
                    self.stage = ResolveStage::Finished;
                    JobStep::Finished(Err(error_of(reply)))
                },
            },
            ResolveStage::Finished => JobStep::Finished(Err(WorkspaceError::UnexpectedReply)),
        }
    }

    /// Writes the resolved hash, once the revision has resolved to one, into the repo's
    /// revision; before that, leaves the repo as it is. The hash is kept whatever comes
    /// after its lookup, so a repo whose checkout failed still gets it.
    pub fn record_hash(&self, repo: &mut ManifestRepo)
        ensures
            match self.hash {
                Some(h) => final(repo)@ == RepoView { revision: h@, ..old(repo)@ },
                None => *final(repo) == *old(repo),
            },
    {
        match &self.hash {
            Some(h) => {
                repo.revision = h.clone();
            },
            None => {},
        }
    }
}

/// The state of a resolution once it has taken `replies`, in order.
pub open spec fn resolve_after(job: ResolveJob, replies: Seq<GitReply>) -> ResolveJob
    decreases replies.len(),
{
    if replies.len() == 0 {
        job
    } else {
        resolve_next(resolve_after(job, replies.drop_last()), replies.last()).0
    }
}

/// The step that a resolution takes on the reply at `k`, after the replies before it.
pub open spec fn resolve_step_at(job: ResolveJob, replies: Seq<GitReply>, k: int) -> JobStep<String> {
    resolve_next(resolve_after(job, replies.take(k)), replies[k]).1
}

/// What holds of every resolution started afresh: no hash is known before the revision
/// is looked up, and the hash being checked out is the one known.
pub open spec fn resolve_consistent(job: ResolveJob) -> bool {
    &&& (job.stage is Probing || job.stage is Cloning || job.stage is Fetching || job.stage is Parsing
        || job.stage is PeelingRef) ==> job.hash is None
    &&& job.stage matches ResolveStage::CheckingOut(h) ==> job.hash == Some(h)
}

/// A resolution keeps its directory, remote, revision and remote-tracking reference
/// whatever the replies, and stays consistent.
pub proof fn lemma_resolve_keeps_repo(job: ResolveJob, replies: Seq<GitReply>)
    ensures
        resolve_after(job, replies).dir == job.dir,
        resolve_after(job, replies).remote == job.remote,
        resolve_after(job, replies).revision == job.revision,
        resolve_after(job, replies).tracking_ref == job.tracking_ref,
        resolve_consistent(job) ==> resolve_consistent(resolve_after(job, replies)),
    decreases replies.len(),
{
    if replies.len() > 0 {
        lemma_resolve_keeps_repo(job, replies.drop_last());
    }
}

/// The state after `m` replies is the step from the state after `m - 1` on reply `m - 1`.
pub proof fn lemma_resolve_after_take(job: ResolveJob, replies: Seq<GitReply>, m: int)
    requires
        0 < m <= replies.len(),
    ensures
        resolve_after(job, replies.take(m)) == resolve_next(resolve_after(job, replies.take(m - 1)), replies[m - 1]).0,
{
    assert(replies.take(m).drop_last() =~= replies.take(m - 1));
}

/// No reply brings a resolution back to probing.
pub proof fn lemma_resolve_probes_only_first(job: ResolveJob, replies: Seq<GitReply>, m: int)
    requires
        0 < m <= replies.len(),
    ensures
        !(resolve_after(job, replies.take(m)).stage is Probing),
{
    lemma_resolve_after_take(job, replies, m);
}

/// Once the revision has resolved to a hash, the resolution keeps that hash whatever
/// comes after, a failed checkout included: the repo's revision is that hash from then on.
pub proof fn law_resolved_hash_stays(job: ResolveJob, replies: Seq<GitReply>, m1: int, m2: int, h: String)
    requires
        resolve_consistent(job),
        0 <= m1 <= m2 <= replies.len(),
        resolve_after(job, replies.take(m1)).hash == Some(h),
    ensures
        resolve_after(job, replies.take(m2)).hash == Some(h),
    decreases m2 - m1,
{
    if m2 > m1 {
        law_resolved_hash_stays(job, replies, m1, m2 - 1, h);
        lemma_resolve_after_take(job, replies, m2);
        lemma_resolve_keeps_repo(job, replies.take(m2 - 1));
    }
}

/// A resolution goes on only after the operation asked for succeeded: a clone or a fetch
/// must answer `Done`, a lookup of the hash must give it (where the parse of the revision
/// fails, the one next step is the peel of its `origin` branch), and it ends well only
/// where the checkout answered `Done`. Any failed operation other than the parse ends the
/// resolution with that failure's message.
pub proof fn law_resolve_goes_on_only_after_success(job: ResolveJob, reply: GitReply)
    ensures
        match resolve_next(job, reply).1 {
            JobStep::Perform(op) => match job.stage {
                ResolveStage::Probing => reply is Flag,
                ResolveStage::Cloning => reply == GitReply::Done,
                ResolveStage::Fetching => reply == GitReply::Done,
                ResolveStage::Parsing => reply is Text || reply is Failed,
                ResolveStage::PeelingRef => reply is Text,
                _ => false,
            },
            JobStep::Finished(Ok(h)) => job.stage == ResolveStage::CheckingOut(h) && reply == GitReply::Done,
            JobStep::Finished(Err(_)) => true,
        },
        resolve_next(job, reply).1 matches JobStep::Perform(GitOp::RevParse { .. })
            ==> job.stage is Fetching && reply == GitReply::Done,
        resolve_next(job, reply).1 matches JobStep::Perform(GitOp::Fetch { .. })
            ==> (job.stage is Probing && reply == GitReply::Flag(true)) || (job.stage is Cloning && reply == GitReply::Done),
        reply matches GitReply::Failed(m) ==> (!(job.stage is Parsing) && !(job.stage is Finished)
            ==> resolve_next(job, reply).1 == JobStep::<String>::Finished(Err(WorkspaceError::Git(m)))),
        (job.stage is Cloning || job.stage is Fetching) && reply != GitReply::Done
            ==> resolve_next(job, reply).1 is Finished && !(resolve_next(job, reply).1 matches JobStep::Finished(Ok(_))),
{
}

/// A successful resolution went through exactly these steps, all in the repo's
/// directory: the probe; a clone, only where the probe found no repo; a fetch; the parse of
/// the revision; where that failed, the peel of the revision's `origin` branch; the
/// checkout of the hash so found. It reports that hash, and keeps it as the repo's
/// revision. So a repo is cloned only where it is missing, and it is reported at the
/// commit it was checked out at.
pub proof fn law_successful_resolution(job: ResolveJob, replies: Seq<GitReply>, k: int, h: String)
    requires
        job.stage is Probing,
        job.hash is None,
        0 <= k < replies.len(),
        resolve_step_at(job, replies, k) == JobStep::<String>::Finished(Ok(h)),
    ensures
        replies[0] == GitReply::Flag(true) || replies[0] == GitReply::Flag(false),
        replies[0] == GitReply::Flag(false) <==> resolve_step_at(job, replies, 0)
            == JobStep::<String>::Perform(GitOp::Clone { remote: job.remote, dir: job.dir }),
        ({
            let f = if replies[0] == GitReply::Flag(false) { 1int } else { 0int };
            &&& resolve_step_at(job, replies, f) == JobStep::<String>::Perform(GitOp::Fetch { dir: job.dir })
            &&& resolve_step_at(job, replies, f + 1)
                == JobStep::<String>::Perform(GitOp::RevParse { dir: job.dir, rev: job.revision })
            &&& replies[f + 1] == GitReply::Done
            &&& f == 1 ==> replies[1] == GitReply::Done
            &&& k == f + 3 || k == f + 4
            &&& k == f + 3 ==> replies[f + 2] == GitReply::Text(h)
            &&& k == f + 4 ==> {
                &&& replies[f + 2] is Failed
                &&& resolve_step_at(job, replies, f + 2) == JobStep::<String>::Perform(
                    GitOp::PeelReference { dir: job.dir, reference: job.tracking_ref },
                )
                &&& replies[f + 3] == GitReply::Text(h)
            }
        }),
        resolve_step_at(job, replies, k - 1) == JobStep::<String>::Perform(GitOp::Checkout { hash: h, dir: job.dir }),
        resolve_after(job, replies.take(k + 1)).hash == Some(h),
{
    assert(replies.take(0) =~= Seq::<GitReply>::empty());
    assert(resolve_consistent(job));
    let b0 = resolve_after(job, replies.take(k));
    assert(b0.stage == ResolveStage::CheckingOut(h));
    if k == 0 {
        assert(b0 == job);
    }
    lemma_resolve_after_take(job, replies, k + 1);
    lemma_resolve_keeps_repo(job, replies.take(k));
    lemma_resolve_after_take(job, replies, k);
    let b1 = resolve_after(job, replies.take(k - 1));
    assert(replies[k - 1] == GitReply::Text(h));
    if k - 1 == 0 {
        assert(b1 == job);
    }
    lemma_resolve_keeps_repo(job, replies.take(k - 1));
    lemma_resolve_after_take(job, replies, k - 1);
    let b2 = resolve_after(job, replies.take(k - 2));
    if k - 2 == 0 {
        assert(b2 == job);
    }
    lemma_resolve_keeps_repo(job, replies.take(k - 2));
    if b1.stage is Parsing {
        assert(b2.stage is Fetching);
        lemma_resolve_after_take(job, replies, k - 2);
        let b3 = resolve_after(job, replies.take(k - 3));
        lemma_resolve_keeps_repo(job, replies.take(k - 3));
        if b3.stage is Probing {
            if k - 3 > 0 {
                lemma_resolve_probes_only_first(job, replies, k - 3);
            }
            assert(k == 3);
        } else {
            assert(b3.stage is Cloning);
            if k - 3 == 0 {
                assert(b3 == job);
            }
            lemma_resolve_after_take(job, replies, k - 3);
            let b4 = resolve_after(job, replies.take(k - 4));
            assert(b4.stage is Probing);
            if k - 4 > 0 {
                lemma_resolve_probes_only_first(job, replies, k - 4);
            }
            assert(k == 4);
            lemma_resolve_keeps_repo(job, replies.take(k - 4));
        }
    } else {
        assert(b1.stage is PeelingRef);
        assert(b2.stage is Parsing);
        lemma_resolve_after_take(job, replies, k - 2);
        let b3 = resolve_after(job, replies.take(k - 3));
        if k - 3 == 0 {
            assert(b3 == job);
        }
        lemma_resolve_keeps_repo(job, replies.take(k - 3));
        assert(b3.stage is Fetching);
        lemma_resolve_after_take(job, replies, k - 3);
        let b4 = resolve_after(job, replies.take(k - 4));
        lemma_resolve_keeps_repo(job, replies.take(k - 4));
        if b4.stage is Probing {
            if k - 4 > 0 {
                lemma_resolve_probes_only_first(job, replies, k - 4);
            }
            assert(k == 4);
        } else {
            assert(b4.stage is Cloning);
            if k - 4 == 0 {
                assert(b4 == job);
            }
            lemma_resolve_after_take(job, replies, k - 4);
            let b5 = resolve_after(job, replies.take(k - 5));
            assert(b5.stage is Probing);
            if k - 5 > 0 {
                lemma_resolve_probes_only_first(job, replies, k - 5);
            }
            assert(k == 5);
            lemma_resolve_keeps_repo(job, replies.take(k - 5));
        }
    }
}

/// The stages of reading a repo's status.
pub enum StatusStage {
    /// Waiting to learn whether the repo is cloned.
    Probing,
    /// Waiting for the hash checked out.
    Hashing,
    /// Waiting to learn whether the tree is dirty; whether the hash was the locked one.
    Dirtiness(bool),
    /// Done, one way or the other.
    Finished,
}

/// Reading whether a repo is checked out at its locked revision, and whether its working
/// tree holds changes.
pub struct StatusJob {
    pub dir: String,
    pub name: String,
    pub locked: String,
    pub stage: StatusStage,
}

/// The job's next state and step on `reply`. It ends with whether the repo is at the locked
/// revision and whether it is dirty.
pub open spec fn status_next(job: StatusJob, reply: GitReply) -> (StatusJob, JobStep<(bool, bool)>) {
    let failed = (StatusJob { stage: StatusStage::Finished, ..job }, JobStep::Finished(Err(reply_error(reply))));
    match job.stage {
        StatusStage::Probing => match reply {
            GitReply::Flag(true) => (
                StatusJob { stage: StatusStage::Hashing, ..job },
                JobStep::Perform(GitOp::CurrentHash { dir: job.dir }),
            ),
            GitReply::Flag(false) => (
                StatusJob { stage: StatusStage::Finished, ..job },
                JobStep::Finished(Err(WorkspaceError::NotARepo(job.name))),
            ),
            _ => failed,
        },
        StatusStage::Hashing => match reply {
            GitReply::Text(h) => (
                StatusJob { stage: StatusStage::Dirtiness(h@ == job.locked@), ..job },
                JobStep::Perform(GitOp::IsDirty { dir: job.dir }),
            ),
            _ => failed,
        },
        StatusStage::Dirtiness(at_lock) => match reply {
            GitReply::Flag(dirty) => (
                StatusJob { stage: StatusStage::Finished, ..job },
                JobStep::Finished(Ok((at_lock, dirty))),
            ),
            _ => failed,
        },
        StatusStage::Finished => (job, JobStep::Finished(Err(WorkspaceError::UnexpectedReply))),
    }
}

impl StatusJob {
    /// Takes the reply to the last operation asked for and decides the next step.
    pub fn step(&mut self, reply: GitReply) -> (r: JobStep<(bool, bool)>)
        ensures
            (*final(self), r) == status_next(*old(self), reply),
    {
        match &self.stage {
            StatusStage::Probing => match reply {
                GitReply::Flag(true) => {
                    self.stage = StatusStage::Hashing;
                    JobStep::Perform(GitOp::CurrentHash { dir: self.dir.clone() })
                },
                GitReply::Flag(false) => {
                    self.stage = StatusStage::Finished;
                    JobStep::Finished(Err(WorkspaceError::NotARepo(self.name.clone())))
                },
                _ => {
                    self.stage = StatusStage::Finished;
                    JobStep::Finished(Err(error_of(reply)))
                },
            },
            StatusStage::Hashing => match reply {
                GitReply::Text(h) => {
                    let at_lock = h == self.locked;
                    self.stage = StatusStage::Dirtiness(at_lock);
                    JobStep::Perform(GitOp::IsDirty { dir: self.dir.clone() })
                },
                _ => {
                    self.stage = StatusStage::Finished;
                    JobStep::Finished(Err(error_of(reply)))
                },
            },
            StatusStage::Dirtiness(at_lock) => match reply {
                GitReply::Flag(dirty) => {
                    let at = *at_lock;
                    self.stage = StatusStage::Finished;
                    JobStep::Finished(Ok((at, dirty)))
                },
                _ => {
                    self.stage = StatusStage::Finished;
                    JobStep::Finished(Err(error_of(reply)))
                },
            },
            StatusStage::Finished => JobStep::Finished(Err(WorkspaceError::UnexpectedReply)),
        }
    }
}

/// The state of a status reading once it has taken `replies`, in order.
pub open spec fn status_after(job: StatusJob, replies: Seq<GitReply>) -> StatusJob
    decreases replies.len(),
{
    if replies.len() == 0 {
        job
    } else {
        status_next(status_after(job, replies.drop_last()), replies.last()).0
    }
}

/// The step that a status reading takes on the reply at `k`, after the replies before it.
pub open spec fn status_step_at(job: StatusJob, replies: Seq<GitReply>, k: int) -> JobStep<(bool, bool)> {
    status_next(status_after(job, replies.take(k)), replies[k]).1
}

/// The state after `m` replies is the step from the state after `m - 1` on reply `m - 1`.
pub proof fn lemma_status_after_take(job: StatusJob, replies: Seq<GitReply>, m: int)
    requires
        0 < m <= replies.len(),
    ensures
        status_after(job, replies.take(m)) == status_next(status_after(job, replies.take(m - 1)), replies[m - 1]).0,
{
    assert(replies.take(m).drop_last() =~= replies.take(m - 1));
}

/// A status reading keeps its directory, name and locked revision whatever the replies.
pub proof fn lemma_status_keeps_repo(job: StatusJob, replies: Seq<GitReply>)
    ensures
        status_after(job, replies).dir == job.dir,
        status_after(job, replies).name == job.name,
        status_after(job, replies).locked == job.locked,
    decreases replies.len(),
{
    if replies.len() > 0 {
        lemma_status_keeps_repo(job, replies.drop_last());
    }
}

/// A status reading that succeeds found the repo cloned, read the hash checked out and then
/// whether the tree is dirty, in that order and in the repo's directory; it reports the
/// repo at its locked revision exactly when that hash is the locked one, and dirty exactly
/// when the tree was found dirty.
pub proof fn law_status_reading(job: StatusJob, replies: Seq<GitReply>, k: int, at_lock: bool, dirty: bool)
    requires
        job.stage is Probing,
        0 <= k < replies.len(),
        status_step_at(job, replies, k) == JobStep::<(bool, bool)>::Finished(Ok((at_lock, dirty))),
    ensures
        k == 2,
        replies[0] == GitReply::Flag(true),
        replies[1] matches GitReply::Text(h) && at_lock == (h@ == job.locked@),
        replies[2] == GitReply::Flag(dirty),
        status_step_at(job, replies, 0) == JobStep::<(bool, bool)>::Perform(GitOp::CurrentHash { dir: job.dir }),
        status_step_at(job, replies, 1) == JobStep::<(bool, bool)>::Perform(GitOp::IsDirty { dir: job.dir }),
{
    assert(replies.take(0) =~= Seq::<GitReply>::empty());
    let b0 = status_after(job, replies.take(k));
    assert(b0.stage == StatusStage::Dirtiness(at_lock));
    if k == 0 {
        assert(b0 == job);
    }
    lemma_status_after_take(job, replies, k);
    let b1 = status_after(job, replies.take(k - 1));
    assert(b1.stage is Hashing);
    if k - 1 == 0 {
        assert(b1 == job);
    }
    lemma_status_after_take(job, replies, k - 1);
    let b2 = status_after(job, replies.take(k - 2));
    assert(b2.stage is Probing);
    if k - 2 > 0 {
        lemma_status_after_take(job, replies, k - 2);
    }
    assert(k == 2);
    lemma_status_keeps_repo(job, replies.take(1));
    lemma_status_keeps_repo(job, replies.take(2));
}

/// The stages of running a command in a repo.
pub enum RunStage {
    /// Waiting to learn whether the repo is cloned.
    Probing,
    /// Waiting for the command to end.
    Running,
    /// Done, one way or the other.
    Finished,
}

/// Running a shell command in a repo's directory.
pub struct RunJob {
    pub dir: String,
    pub name: String,
    pub command: String,
    pub stage: RunStage,
}

/// The job's next state and step on `reply`.
pub open spec fn run_next(job: RunJob, reply: GitReply) -> (RunJob, JobStep<()>) {
    let done = RunJob { stage: RunStage::Finished, ..job };
    match job.stage {
        RunStage::Probing => match reply {
            GitReply::Flag(true) => (
                RunJob { stage: RunStage::Running, ..job },
                JobStep::Perform(GitOp::Run { dir: job.dir, command: job.command }),
            ),
            GitReply::Flag(false) => (done, JobStep::Finished(Err(WorkspaceError::NotARepo(job.name)))),
            _ => (done, JobStep::Finished(Err(reply_error(reply)))),
        },
        RunStage::Running => match reply {
            GitReply::Flag(true) => (done, JobStep::Finished(Ok(()))),
            GitReply::Flag(false) => (done, JobStep::Finished(Err(WorkspaceError::CommandFailed))),
            GitReply::Failed(_) => (done, JobStep::Finished(Err(WorkspaceError::CommandNotRun))),
            _ => (done, JobStep::Finished(Err(WorkspaceError::UnexpectedReply))),
        },
        RunStage::Finished => (job, JobStep::Finished(Err(WorkspaceError::UnexpectedReply))),
    }
}

impl RunJob {
    /// Takes the reply to the last operation asked for and decides the next step.
    pub fn step(&mut self, reply: GitReply) -> (r: JobStep<()>)
        ensures
            (*final(self), r) == run_next(*old(self), reply),
    {
        match &self.stage {
            RunStage::Probing => match reply {
                GitReply::Flag(true) => {
                    self.stage = RunStage::Running;
                    JobStep::Perform(GitOp::Run { dir: self.dir.clone(), command: self.command.clone() })
                },
                GitReply::Flag(false) => {
                    self.stage = RunStage::Finished;
                    JobStep::Finished(Err(WorkspaceError::NotARepo(self.name.clone())))
                },
                _ => {
                    self.stage = RunStage::Finished;
                    JobStep::Finished(Err(error_of(reply)))
                },
            },
            RunStage::Running => {
                self.stage = RunStage::Finished;
                match reply {
                    GitReply::Flag(true) => JobStep::Finished(Ok(())),
                    GitReply::Flag(false) => JobStep::Finished(Err(WorkspaceError::CommandFailed)),
                    GitReply::Failed(_) => JobStep::Finished(Err(WorkspaceError::CommandNotRun)),
                    _ => JobStep::Finished(Err(WorkspaceError::UnexpectedReply)),
                }
            },
            RunStage::Finished => JobStep::Finished(Err(WorkspaceError::UnexpectedReply)),
        }
    }
}

/// A status reading goes on only after the operation asked for succeeded, and ends well
/// only with the dirtiness read after the current hash: a missing repo, or a failed
/// operation, ends it with that error.
pub proof fn law_status_goes_on_only_after_success(job: StatusJob, reply: GitReply)
    ensures
        match status_next(job, reply).1 {
            JobStep::Perform(op) => (job.stage is Probing && reply == GitReply::Flag(true) && op == (GitOp::CurrentHash { dir: job.dir }))
                || (job.stage is Hashing && reply is Text && op == (GitOp::IsDirty { dir: job.dir })),
            JobStep::Finished(Ok((at_lock, dirty))) => job.stage == StatusStage::Dirtiness(at_lock)
                && reply == GitReply::Flag(dirty),
            JobStep::Finished(Err(_)) => true,
        },
        job.stage is Probing && reply == GitReply::Flag(false)
            ==> status_next(job, reply).1 == JobStep::<(bool, bool)>::Finished(Err(WorkspaceError::NotARepo(job.name))),
        reply matches GitReply::Failed(m) ==> (!(job.stage is Finished)
            ==> status_next(job, reply).1 == JobStep::<(bool, bool)>::Finished(Err(WorkspaceError::Git(m)))),
{
}

/// A run succeeds only where the repo is there and the command exited with success; a
/// command that ran and failed, or could not be started, fails the run.
pub proof fn law_run_succeeds_only_on_success(job: RunJob, reply: GitReply)
    ensures
        run_next(job, reply).1 matches JobStep::Finished(Ok(_)) <==> job.stage is Running && reply == GitReply::Flag(true),
        run_next(job, reply).1 matches JobStep::Perform(op) ==> job.stage is Probing && reply == GitReply::Flag(true)
            && op == (GitOp::Run { dir: job.dir, command: job.command }),
        job.stage is Running && reply == GitReply::Flag(false)
            ==> run_next(job, reply).1 == JobStep::<()>::Finished(Err(WorkspaceError::CommandFailed)),
        job.stage is Running && reply is Failed
            ==> run_next(job, reply).1 == JobStep::<()>::Finished(Err(WorkspaceError::CommandNotRun)),
        job.stage is Probing && reply == GitReply::Flag(false)
            ==> run_next(job, reply).1 == JobStep::<()>::Finished(Err(WorkspaceError::NotARepo(job.name))),
{
}

/// The state of a run once it has taken `replies`, in order.
pub open spec fn run_after(job: RunJob, replies: Seq<GitReply>) -> RunJob
    decreases replies.len(),
{
    if replies.len() == 0 {
        job
    } else {
        run_next(run_after(job, replies.drop_last()), replies.last()).0
    }
}

/// The step that a run takes on the reply at `k`, after the replies before it.
pub open spec fn run_step_at(job: RunJob, replies: Seq<GitReply>, k: int) -> JobStep<()> {
    run_next(run_after(job, replies.take(k)), replies[k]).1
}

/// A command is run only in a cloned repo, in its directory, and a run succeeds only where
/// the command exited with success.
pub proof fn law_run_in_cloned_repo(job: RunJob, replies: Seq<GitReply>, k: int)
    requires
        job.stage is Probing,
        0 <= k < replies.len(),
        run_step_at(job, replies, k) is Perform || run_step_at(job, replies, k) == JobStep::<()>::Finished(Ok(())),
    ensures
        replies[0] == GitReply::Flag(true),
        run_step_at(job, replies, 0) == JobStep::<()>::Perform(GitOp::Run { dir: job.dir, command: job.command }),
        run_step_at(job, replies, k) is Perform ==> k == 0,
        run_step_at(job, replies, k) is Finished ==> k == 1 && replies[1] == GitReply::Flag(true),
{
    assert(replies.take(0) =~= Seq::<GitReply>::empty());
    if k >= 1 {
        assert(replies.take(1).drop_last() =~= replies.take(0));
        let b1 = run_after(job, replies.take(1));
        assert(b1 == run_next(job, replies[0]).0);
        if k >= 2 {
            assert(replies.take(k).drop_last() =~= replies.take(k - 1));
            let before = run_after(job, replies.take(k));
            assert(before == run_next(run_after(job, replies.take(k - 1)), replies[k - 1]).0);
            assert(before.stage is Finished);
            assert(false);
        }
        assert(k == 1);
        assert(b1.stage is Running);
    }
}

impl Workspace {
    /// A workspace with its top directory at `top_dir`.
    pub fn new(top_dir: String, backend: GitBackend) -> (r: Self)
        ensures
            r@ == top_dir@,
    {
        Workspace { top_dir, backend }
    }

    /// The workspace's top directory.
    pub fn top_dir(&self) -> (r: &str)
        ensures
            r@ == self@,
    {
        self.top_dir.as_str()
    }

    /// Where `repo` goes: `top/location/name`, or `top/name` without a location. Refused
    /// where the location is absolute.
    pub fn repo_dir(&self, repo: &ManifestRepo) -> (r: Result<String, WorkspaceError>)
        ensures
            match repo_dir_of(self@, repo@) {
                Some(d) => r matches Ok(p) && p@ == d,
                None => r matches Err(WorkspaceError::AbsoluteLocation(n)) && n@ == repo.name@,
            },
            match repo.location {
                Some(l) => plainly_relative(l@) ==> r is Ok,
                None => r is Ok,
            },
    {
        match &repo.location {
            Some(location) => {
                if is_absolute_path(location.as_str()) {
                    return Err(WorkspaceError::AbsoluteLocation(repo.name.clone()));
                }
                let base = join_path(self.top_dir.as_str(), location.as_str());
                Ok(join_path(base.as_str(), repo.name.as_str()))
            },
            None => Ok(join_path(self.top_dir.as_str(), repo.name.as_str())),
        }
    }

    /// Starts resolving `repo` to the revision specified in its manifest entry: the job, and
    /// the first operation it asks for (whether the repo is cloned).
    pub fn resolve_repo(&self, repo: &ManifestRepo) -> (r: Result<(ResolveJob, GitOp), WorkspaceError>)
        ensures
            match repo_dir_of(self@, repo@) {
                Some(d) => r matches Ok((job, op)) && {
                    &&& job.dir@ == d
                    &&& job.remote == repo.remote
                    &&& job.revision == repo.revision
                    &&& job.tracking_ref@ == "refs/remotes/origin/"@ + repo.revision@
                    &&& job.hash is None
                    &&& job.stage is Probing
                    &&& op == GitOp::IsRepo { dir: job.dir }
                },
                None => r matches Err(WorkspaceError::AbsoluteLocation(n)) && n@ == repo.name@,
            },
    {
        let dir = match self.repo_dir(repo) {
            Ok(d) => d,
            Err(e) => return Err(e),
        };
        let op = GitOp::IsRepo { dir: dir.clone() };
        let job = ResolveJob {
            dir,
            remote: repo.remote.clone(),
            revision: repo.revision.clone(),
            tracking_ref: remote_tracking_ref(repo.revision.as_str()),
            hash: None,
            stage: ResolveStage::Probing,
        };
        Ok((job, op))
    }

    /// Starts reading the status of `repo` against the revision `locked_rev` that the
    /// lockfile pins it to: the job, and the first operation it asks for.
    pub fn repo_status(&self, repo: &ManifestRepo, locked_rev: &str) -> (r: Result<(StatusJob, GitOp), WorkspaceError>)
        ensures
            match repo_dir_of(self@, repo@) {
                Some(d) => r matches Ok((job, op)) && {
                    &&& job.dir@ == d
                    &&& job.name == repo.name
                    &&& job.locked@ == locked_rev@
                    &&& job.stage is Probing
                    &&& op == GitOp::IsRepo { dir: job.dir }
                },
                None => r matches Err(WorkspaceError::AbsoluteLocation(n)) && n@ == repo.name@,
            },
    {
        let dir = match self.repo_dir(repo) {
            Ok(d) => d,
            Err(e) => return Err(e),
        };
        let op = GitOp::IsRepo { dir: dir.clone() };
        let job = StatusJob {
            dir,
            name: repo.name.clone(),
            locked: locked_rev.to_owned(),
            stage: StatusStage::Probing,
        };
        Ok((job, op))
    }

    /// Starts running `command` in the directory of `repo`: the job, and the first
    /// operation it asks for.
    pub fn repo_run(&self, repo: &ManifestRepo, command: &str) -> (r: Result<(RunJob, GitOp), WorkspaceError>)
        ensures
            match repo_dir_of(self@, repo@) {
                Some(d) => r matches Ok((job, op)) && {
                    &&& job.dir@ == d
                    &&& job.name == repo.name
                    &&& job.command@ == command@
                    &&& job.stage is Probing
                    &&& op == GitOp::IsRepo { dir: job.dir }
                },
                None => r matches Err(WorkspaceError::AbsoluteLocation(n)) && n@ == repo.name@,
            },
    {
        let dir = match self.repo_dir(repo) {
            Ok(d) => d,
            Err(e) => return Err(e),
        };
        let op = GitOp::IsRepo { dir: dir.clone() };
        let job = RunJob {
            dir,
            name: repo.name.clone(),
            command: command.to_owned(),
            stage: RunStage::Probing,
        };
        Ok((job, op))
    }
}

} // verus!
