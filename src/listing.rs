use crate::error::{Error, ErrorKind};
use crate::text::same_text;
use vstd::prelude::*;

verus! {

/// One entry of a repository's tree listing.
#[derive(Debug, Clone)]
pub struct GitHubDirEntry {
    /// The path in the repository (not to be confused with the url).
    pub path: Option<String>,
    /// The kind of entry: `blob` for a file, `tree` for a directory.
    pub ty: String,
    /// The size of the entry.
    pub size: Option<usize>,
    /// The url that serves the entry's raw contents.
    pub raw_path: Option<String>,
}

/// Whether an entry is a file, the one kind that can be fetched.
pub open spec fn is_blob(e: GitHubDirEntry) -> bool {
    e.ty@ == "blob"@
}

/// The entries of a listing that are files, in the listing's order.
pub open spec fn blobs(s: Seq<GitHubDirEntry>) -> Seq<GitHubDirEntry> {
    s.filter(|e: GitHubDirEntry| is_blob(e))
}

/// The entries of a listing that are not files.
pub open spec fn non_blobs(s: Seq<GitHubDirEntry>) -> Seq<GitHubDirEntry> {
    s.filter(|e: GitHubDirEntry| !is_blob(e))
}

/// The url of the recursive tree listing of `user/repo` at `tree`.
pub open spec fn tree_url_of(base: Seq<char>, user: Seq<char>, repo: Seq<char>, tree: Seq<char>) -> Seq<char> {
    base + "/"@ + user + "/"@ + repo + "/git/trees/"@ + tree + "?recursive=1"@
}

/// The repository as written in messages: `user/repo`.
pub open spec fn repo_name_of(user: Seq<char>, repo: Seq<char>) -> Seq<char> {
    user + "/"@ + repo
}

/// The media type that the listing request declares.
pub open spec fn api_media_type() -> Seq<char> {
    "application/vnd.github.v3+json"@
}

impl GitHubDirEntry {
    /// An entry as the listing gives it, with no raw url yet.
    pub fn new(path: Option<String>, ty: String, size: Option<usize>) -> (r: GitHubDirEntry)
        ensures
            r.path == path,
            r.ty == ty,
            r.size == size,
            r.raw_path is None,
    {
        GitHubDirEntry { path, ty, size, raw_path: None }
    }

    /// A copy of this entry, field for field.
    pub fn duplicate(&self) -> (r: GitHubDirEntry)
        ensures
            r == *self,
    {
        GitHubDirEntry {
            path: copy_text(&self.path),
            ty: self.ty.clone(),
            size: self.size,
            raw_path: copy_text(&self.raw_path),
        }
    }

    /// Whether this entry is a file.
    pub fn is_blob(&self) -> (r: bool)
        ensures
            r == is_blob(*self),
    {
        proof {
            reveal_strlit("blob");
        }
        same_text(self.ty.as_str(), "blob")
    }
}

fn copy_text(s: &Option<String>) -> (r: Option<String>)
    ensures
        r == *s,
{
    match s {
        Some(t) => Some(t.clone()),
        None => None,
    }
}

/// The header value that declares the API's media type.
pub fn media_type() -> (r: &'static str)
    ensures
        r@ == api_media_type(),
{
    "application/vnd.github.v3+json"
}

/// The url that lists the whole tree of `user/repo` at `tree`, directories
/// included, in one response.
pub fn tree_url(base: &str, user: &str, repo: &str, tree: &str) -> (r: String)
    ensures
        r@ == tree_url_of(base@, user@, repo@, tree@),
{
    let mut s = String::from_str(base);
    s.append("/");
    s.append(user);
    s.append("/");
    s.append(repo);
    s.append("/git/trees/");
    s.append(tree);
    s.append("?recursive=1");
    s
}

/// The answer to the API's status: only `200` is success; any other status
/// fails with the status and the body's text.
pub fn check_status(status: u16, msg: String) -> (r: Result<(), Box<Error>>)
    ensures
        r is Ok <==> status == 200,
        r is Err ==> r->Err_0.kind == (ErrorKind::GitHubStatusFailure { status, msg }),
{
    if status == 200 {
        Ok(())
    } else {
        Error::err(ErrorKind::GitHubStatusFailure { status, msg })
    }
}

/// The answer to the listing request. `status` is `None` where the request
/// could not be sent. Anything but `200` means that the tree is missing.
pub fn check_tree_response(status: Option<u16>, user: &str, repo: &str, tree: &str) -> (r: Result<(), Box<Error>>)
    ensures
        r is Ok <==> status == Some(200u16),
        r is Err ==> (r->Err_0.kind matches ErrorKind::TreeDoesNotExist { tree: t, repo: n }
            && t@ == tree@ && n@ == repo_name_of(user@, repo@)),
{
    match status {
        Some(code) => {
            if code == 200 {
                return Ok(());
            }
        },
        None => {},
    }
    let mut name = String::from_str(user);
    name.append("/");
    name.append(repo);
    Error::err(ErrorKind::TreeDoesNotExist { tree: String::from_str(tree), repo: name })
}

/// The file entries of a listing, in the listing's order.
pub fn keep_blobs(entries: Vec<GitHubDirEntry>) -> (r: Vec<GitHubDirEntry>)
    ensures
        r@ == blobs(entries@),
{
    let mut out: Vec<GitHubDirEntry> = Vec::new();
    let mut i: usize = 0;
    while i < entries.len()
        invariant
            i <= entries@.len(),
            out@ == blobs(entries@.subrange(0, i as int)),
        decreases entries@.len() - i,
    {
        let e = &entries[i];
        assert(entries@.subrange(0, i + 1) =~= entries@.subrange(0, i as int).push(entries@[i as int]));
        proof {
            entries@.subrange(0, i as int).lemma_filter_push(entries@[i as int], |e: GitHubDirEntry| is_blob(e));
        }
        if e.is_blob() {
            out.push(e.duplicate());
        }
        i = i + 1;
    }
    assert(entries@.subrange(0, entries@.len() as int) =~= entries@);
    out
}

/// Of a listing of `n` file entries and `m` other entries, filtering keeps
/// `n` entries, all of them files.
pub proof fn blob_count_law(a: Seq<GitHubDirEntry>)
    ensures
        blobs(a).len() + non_blobs(a).len() == a.len(),
        forall|i: int| 0 <= i < blobs(a).len() ==> is_blob(#[trigger] blobs(a)[i]),
    decreases a.len(),
{
    if a.len() > 0 {
        blob_count_law(a.drop_last());
        assert(a =~= a.drop_last().push(a.last()));
        a.drop_last().lemma_filter_push(a.last(), |e: GitHubDirEntry| is_blob(e));
        a.drop_last().lemma_filter_push(a.last(), |e: GitHubDirEntry| !is_blob(e));
    } else {
        reveal(Seq::filter);
    }
    assert forall|i: int| 0 <= i < blobs(a).len() implies is_blob(#[trigger] blobs(a)[i]) by {
        a.lemma_filter_pred(|e: GitHubDirEntry| is_blob(e), i);
    }
}

/// How many entries of a listing are files does not depend on their order:
/// two listings with the same entries, in any order, keep as many.
pub proof fn blob_count_order_free(a: Seq<GitHubDirEntry>, b: Seq<GitHubDirEntry>)
    requires
        a.to_multiset() == b.to_multiset(),
    ensures
        blobs(a).len() == blobs(b).len(),
    decreases a.len(),
{
    broadcast use vstd::multiset::group_multiset_axioms;

    vstd::seq_lib::to_multiset_len(a);
    vstd::seq_lib::to_multiset_len(b);
    if a.len() == 0 {
        assert(a =~= Seq::<GitHubDirEntry>::empty());
        assert(b =~= Seq::<GitHubDirEntry>::empty());
    } else {
        let x = a.last();
        let a0 = a.drop_last();
        assert(a =~= a0.push(x));
        assert(a.contains(x)) by {
            assert(a[a.len() - 1] == x);
        }
        vstd::seq_lib::to_multiset_contains(a, x);
        vstd::seq_lib::to_multiset_contains(b, x);
        let k = choose|k: int| 0 <= k < b.len() && b[k] == x;
        let b0 = b.remove(k);
        vstd::seq_lib::to_multiset_remove(b, k);
        vstd::seq_lib::to_multiset_build(a0, x);
        assert(a0.to_multiset() =~= b0.to_multiset());
        blob_count_order_free(a0, b0);
        a0.lemma_filter_push(x, |e: GitHubDirEntry| is_blob(e));
        let lo = b.subrange(0, k);
        let hi = b.subrange(k + 1, b.len() as int);
        let one = Seq::<GitHubDirEntry>::empty().push(x);
        assert(b =~= lo + one + hi);
        assert(b0 =~= lo + hi);
        Seq::filter_distributes_over_add(lo + one, hi, |e: GitHubDirEntry| is_blob(e));
        Seq::filter_distributes_over_add(lo, one, |e: GitHubDirEntry| is_blob(e));
        Seq::filter_distributes_over_add(lo, hi, |e: GitHubDirEntry| is_blob(e));
        Seq::<GitHubDirEntry>::empty().lemma_filter_push(x, |e: GitHubDirEntry| is_blob(e));
        reveal(Seq::filter);
        assert(Seq::<GitHubDirEntry>::empty().filter(|e: GitHubDirEntry| is_blob(e)) =~= Seq::<GitHubDirEntry>::empty());
    }
}

/// The file entries of a listing body's `tree` field. A body without that
/// field fails with the missing key.
pub fn dentries_from_tree(tree: Option<Vec<GitHubDirEntry>>) -> (r: Result<Vec<GitHubDirEntry>, Box<Error>>)
    ensures
        tree is Some <==> r is Ok,
        tree is Some ==> r->Ok_0@ == blobs(tree->Some_0@),
        tree is None ==> (r->Err_0.kind matches ErrorKind::ResponseKeyError { key } && key@ == "tree"@),
{
    match tree {
        Some(entries) => Ok(keep_blobs(entries)),
        None => Error::err(ErrorKind::ResponseKeyError { key: String::from_str("tree") }),
    }
}

} // verus!
