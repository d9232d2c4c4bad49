use crate::error::{Error, ErrorKind};
use vstd::prelude::*;

verus! {

/// How many times `/` occurs in the text.
pub open spec fn slash_count(s: Seq<char>) -> nat {
    s.filter(|c: char| c == '/').len()
}

/// The owner and name of a repository written `owner/name`. No text fails as
/// empty; a text with no `/` or more than one is malformed.
pub fn split_repo(arg: Option<&str>) -> (r: Result<(String, String), Box<Error>>)
    ensures
        r is Ok <==> (arg matches Some(t) && slash_count(t@) == 1),
        arg is None ==> r->Err_0.kind is EmptyText,
        arg matches Some(t) ==> (slash_count(t@) != 1 ==> (r->Err_0.kind matches ErrorKind::MalformedRepo { repo }
            && repo@ == t@)),
        r matches Ok((user, name)) ==> (arg matches Some(t) && t@ == user@ + "/"@ + name@
            && !user@.contains('/') && !name@.contains('/')),
{
    let t = match arg {
        Some(t) => t,
        None => return Error::err(ErrorKind::EmptyText),
    };
    let n = t.unicode_len();
    let mut count: usize = 0;
    let mut at: usize = 0;
    let mut i: usize = 0;
    while i < n
        invariant
            n == t@.len(),
            i <= n,
            count == slash_count(t@.subrange(0, i as int)),
            count <= i,
            count == 0 ==> !t@.subrange(0, i as int).contains('/'),
            count >= 1 ==> at < i && t@[at as int] == '/' && !t@.subrange(0, at as int).contains('/'),
            count == 1 ==> !t@.subrange(at + 1, i as int).contains('/'),
        decreases n - i,
    {
        let c = t.get_char(i);
        let ghost pre = t@.subrange(0, i as int);
        assert(t@.subrange(0, i + 1) =~= pre.push(c));
        proof {
            pre.lemma_filter_push(c, |x: char| x == '/');
        }
        if c == '/' {
            if count == 0 {
                at = i;
                assert(t@.subrange(at + 1, i + 1) =~= Seq::<char>::empty());
            }
            count = count + 1;
        } else {
            assert(count == 1 ==> t@.subrange(at + 1, i + 1) =~= t@.subrange(at + 1, i as int).push(c));
        }
        i = i + 1;
    }
    assert(t@.subrange(0, n as int) =~= t@);
    if count != 1 {
        let mut repo = String::new();
        repo.append(t);
        assert(repo@ =~= t@);
        return Error::err(ErrorKind::MalformedRepo { repo });
    }
    let user = t.substring_char(0, at).to_owned();
    let name = t.substring_char(at + 1, n).to_owned();
    proof {
        reveal_strlit("/");
    }
    assert(t@ =~= user@ + "/"@ + name@);
    Ok((user, name))
}

} // verus!
