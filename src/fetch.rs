use crate::error::{Error, ErrorKind};
use crate::listing::GitHubDirEntry;
use vstd::prelude::*;

verus! {

/// The most fetches that are ever in flight at once.
pub const FETCH_LIMIT: usize = 4;

/// The url that serves the raw contents of `path` in `user/repo` at `tree`.
pub open spec fn raw_url_of(user: Seq<char>, repo: Seq<char>, tree: Seq<char>, path: Seq<char>) -> Seq<char> {
    "https://raw.githubusercontent.com/"@ + user + "/"@ + repo + "/"@ + tree + "/"@ + path
}

/// Whether `e` is the entry to fetch for the chosen `path`: a file at that
/// path, with the raw url of that path.
pub open spec fn is_target_for(e: GitHubDirEntry, user: Seq<char>, repo: Seq<char>, tree: Seq<char>, path: Seq<char>) -> bool {
    &&& e.path matches Some(p) && p@ == path
    &&& e.ty@ == "blob"@
    &&& e.size is None
    &&& e.raw_path matches Some(u) && u@ == raw_url_of(user, repo, tree, path)
}

/// What came of one fetch.
pub enum FetchEvent {
    /// The request could not be sent.
    SendFailed,
    /// The response came but its body could not be read.
    ReadFailed,
    /// The body of the response.
    Body(String),
}

/// What to do once one fetch is over.
pub enum FetchAction {
    /// Write `contents` to the local file `path`.
    Write { path: String, contents: String },
    /// Report the failure and go on with the others.
    Report(Box<Error>),
}

/// Whether `a` is what to do for the fetch of `target` that ended in `ev`:
/// a body is written to the entry's path; a failed send is reported as a
/// download failure of its url, a failed read as a read failure of it.
pub open spec fn action_for(target: GitHubDirEntry, ev: FetchEvent, a: FetchAction) -> bool {
    match ev {
        FetchEvent::Body(b) => a matches FetchAction::Write { path, contents }
            && target.path == Some(path) && contents == b,
        FetchEvent::SendFailed => a matches FetchAction::Report(e)
            && e.kind matches ErrorKind::DownloadFailure { path } && target.raw_path == Some(path),
        FetchEvent::ReadFailed => a matches FetchAction::Report(e)
            && e.kind matches ErrorKind::ReadFailure { path } && target.raw_path == Some(path),
    }
}

/// The bookkeeping of a batch of `total` fetches: they start in order, and
/// never more than `FETCH_LIMIT` are in flight.
pub struct FetchQueue {
    total: usize,
    next: usize,
    in_flight: usize,
}

impl FetchQueue {
    /// The number of fetches in the batch.
    pub closed spec fn spec_total(&self) -> nat {
        self.total as nat
    }

    /// The number of fetches started so far; they are the first ones.
    pub closed spec fn spec_started(&self) -> nat {
        self.next as nat
    }

    /// The number of fetches started and not yet over.
    pub closed spec fn spec_in_flight(&self) -> nat {
        self.in_flight as nat
    }

    /// What every state of a queue satisfies.
    pub open spec fn wf(&self) -> bool {
        &&& self.spec_started() <= self.spec_total()
        &&& self.spec_in_flight() <= self.spec_started()
        &&& self.spec_in_flight() <= FETCH_LIMIT
    }

    /// A batch of `total` fetches, none started.
    pub fn new(total: usize) -> (r: FetchQueue)
        ensures
            r.wf(),
            r.spec_total() == total,
            r.spec_started() == 0,
            r.spec_in_flight() == 0,
    {
        FetchQueue { total, next: 0, in_flight: 0 }
    }

    /// Start the next fetch, where there is one and fewer than
    /// `FETCH_LIMIT` are in flight; its index comes back.
    pub fn launch(&mut self) -> (r: Option<usize>)
        requires
            old(self).wf(),
        ensures
            final(self).wf(),
            final(self).spec_total() == old(self).spec_total(),
            r is Some <==> (old(self).spec_started() < old(self).spec_total()
                && old(self).spec_in_flight() < FETCH_LIMIT),
            r is Some ==> r->Some_0 == old(self).spec_started()
                && final(self).spec_started() == old(self).spec_started() + 1
                && final(self).spec_in_flight() == old(self).spec_in_flight() + 1,
            r is None ==> final(self).spec_started() == old(self).spec_started()
                && final(self).spec_in_flight() == old(self).spec_in_flight(),
    {
        if self.next < self.total && self.in_flight < FETCH_LIMIT {
            let i = self.next;
            self.next = self.next + 1;
            self.in_flight = self.in_flight + 1;
            Some(i)
        } else {
            None
        }
    }

    /// Record that one fetch in flight is over, whatever came of it.
    pub fn finish(&mut self)
        requires
            old(self).wf(),
            old(self).spec_in_flight() > 0,
        ensures
            final(self).wf(),
            final(self).spec_total() == old(self).spec_total(),
            final(self).spec_started() == old(self).spec_started(),
            final(self).spec_in_flight() == old(self).spec_in_flight() - 1,
    {
        self.in_flight = self.in_flight - 1;
    }

    /// The number of fetches in flight.
    pub fn in_flight(&self) -> (r: usize)
        ensures
            r == self.spec_in_flight(),
    {
        self.in_flight
    }

    /// Whether every fetch has started and is over.
    pub fn is_done(&self) -> (r: bool)
        ensures
            r == (self.spec_started() == self.spec_total() && self.spec_in_flight() == 0),
    {
        self.next == self.total && self.in_flight == 0
    }
}

/// However a batch goes, at no state of it are more than `FETCH_LIMIT`
/// fetches in flight.
pub proof fn in_flight_bounded(q: FetchQueue)
    requires
        q.wf(),
    ensures
        q.spec_in_flight() <= FETCH_LIMIT,
{
}

/// The url that serves the raw contents of `path` in `user/repo` at `tree`.
pub fn raw_url(user: &str, repo: &str, tree: &str, path: &str) -> (r: String)
    ensures
        r@ == raw_url_of(user@, repo@, tree@, path@),
{
    let mut s = String::from_str("https://raw.githubusercontent.com/");
    proof {
        reveal_strlit("https://raw.githubusercontent.com/");
    }
    s.append(user);
    s.append("/");
    s.append(repo);
    s.append("/");
    s.append(tree);
    s.append("/");
    s.append(path);
    s
}

/// The entries to fetch for the chosen paths, one for each, in order.
pub fn fetch_targets(user: &str, repo: &str, tree: &str, paths: Vec<String>) -> (r: Vec<GitHubDirEntry>)
    ensures
        r@.len() == paths@.len(),
        forall|i: int| 0 <= i < paths@.len() ==> is_target_for(#[trigger] r@[i], user@, repo@, tree@, paths@[i]@),
{
    let mut out: Vec<GitHubDirEntry> = Vec::new();
    let mut i: usize = 0;
    while i < paths.len()
        invariant
            i <= paths@.len(),
            out@.len() == i,
            forall|j: int| 0 <= j < i ==> is_target_for(#[trigger] out@[j], user@, repo@, tree@, paths@[j]@),
        decreases paths@.len() - i,
    {
        let path = paths[i].clone();
        let url = raw_url(user, repo, tree, path.as_str());
        proof {
            reveal_strlit("blob");
        }
        out.push(GitHubDirEntry { path: Some(path), ty: String::from_str("blob"), size: None, raw_path: Some(url) });
        i = i + 1;
    }
    out
}

/// What to do once the fetch of `target` ended in `ev`. The answer depends on
/// that fetch alone: a failure of one fetch changes nothing for the others.
pub fn fetch_action(target: &GitHubDirEntry, ev: FetchEvent) -> (r: FetchAction)
    requires
        target.path is Some,
        target.raw_path is Some,
    ensures
        action_for(*target, ev, r),
{
    match ev {
        FetchEvent::Body(b) => FetchAction::Write { path: copy_of(target.path.as_ref().unwrap()), contents: b },
        FetchEvent::SendFailed => FetchAction::Report(
            Error::new(ErrorKind::DownloadFailure { path: copy_of(target.raw_path.as_ref().unwrap()) }),
        ),
        FetchEvent::ReadFailed => FetchAction::Report(
            Error::new(ErrorKind::ReadFailure { path: copy_of(target.raw_path.as_ref().unwrap()) }),
        ),
    }
}

fn copy_of(s: &String) -> (r: String)
    ensures
        r == *s,
{
    s.clone()
}

/// In a batch, each fetch that brought a body has that body written to its
/// own path, whatever came of the other fetches.
pub proof fn fault_isolation(
    targets: Seq<GitHubDirEntry>,
    events: Seq<FetchEvent>,
    actions: Seq<FetchAction>,
    i: int,
)
    requires
        targets.len() == events.len(),
        actions.len() == events.len(),
        forall|j: int| 0 <= j < events.len() ==> action_for(#[trigger] targets[j], events[j], actions[j]),
        0 <= i < events.len(),
        events[i] is Body,
    ensures
        actions[i] matches FetchAction::Write { path, contents }
            && targets[i].path == Some(path) && contents == events[i]->Body_0,
{
    assert(action_for(targets[i], events[i], actions[i]));
}

} // verus!
