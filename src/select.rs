use crate::error::{Error, ErrorKind};
use vstd::prelude::*;

verus! {

/// Whether a character has the Unicode `White_Space` property, as
/// `char::is_whitespace` answers.
pub open spec fn white_space(c: char) -> bool {
    let u = c as u32;
    ||| 0x9 <= u <= 0xd
    ||| u == 0x20
    ||| u == 0x85
    ||| u == 0xa0
    ||| u == 0x1680
    ||| 0x2000 <= u <= 0x200a
    ||| u == 0x2028
    ||| u == 0x2029
    ||| u == 0x202f
    ||| u == 0x205f
    ||| u == 0x3000
}

/// Whether a character has the Unicode `White_Space` property.
pub fn is_white(c: char) -> (r: bool)
    ensures
        r == white_space(c),
{
    let u = c as u32;
    (0x9 <= u && u <= 0xd) || u == 0x20 || u == 0x85 || u == 0xa0 || u == 0x1680
        || (0x2000 <= u && u <= 0x200a) || u == 0x2028 || u == 0x2029 || u == 0x202f
        || u == 0x205f || u == 0x3000
}

/// The text without its trailing white space.
pub open spec fn trim_back(s: Seq<char>) -> Seq<char>
    decreases s.len(),
{
    if s.len() > 0 && white_space(s.last()) {
        trim_back(s.drop_last())
    } else {
        s
    }
}

/// The pieces of a text between its line breaks; a text without one is a
/// single piece, and an empty text is one empty piece.
pub open spec fn split_lines(s: Seq<char>) -> Seq<Seq<char>>
    decreases s.len(),
{
    if s.len() == 0 {
        seq![Seq::empty()]
    } else {
        let prev = split_lines(s.drop_last());
        if s.last() == '\n' {
            prev.push(Seq::empty())
        } else {
            prev.update(prev.len() - 1, prev.last().push(s.last()))
        }
    }
}

/// The texts of a list of strings.
pub open spec fn texts(v: Seq<String>) -> Seq<Seq<char>> {
    v.map_values(|s: String| s@)
}

/// The text that an exit with a failure status reports, before the status.
pub open spec fn no_choice_prefix() -> Seq<char> {
    "An error occured; likely, a file was not chosen: "@
}

/// The text without its trailing white space.
pub fn trim_end_text(s: &str) -> (r: &str)
    ensures
        r@ == trim_back(s@),
{
    let n = s.unicode_len();
    let mut hi: usize = n;
    assert(s@.subrange(0, n as int) =~= s@);
    while hi > 0 && is_white(s.get_char(hi - 1))
        invariant
            n == s@.len(),
            hi <= n,
            trim_back(s@.subrange(0, hi as int)) == trim_back(s@),
        decreases hi,
    {
        assert(s@.subrange(0, hi as int).drop_last() =~= s@.subrange(0, hi - 1));
        hi = hi - 1;
    }
    s.substring_char(0, hi)
}

/// The lines of a text, split at each line break.
pub fn split_text(s: &str) -> (r: Vec<String>)
    ensures
        texts(r@) == split_lines(s@),
{
    let n = s.unicode_len();
    let mut out: Vec<String> = Vec::new();
    let mut start: usize = 0;
    let mut i: usize = 0;
    assert(s@.subrange(0, 0) =~= Seq::<char>::empty());
    assert(texts(out@).push(s@.subrange(0, 0)) =~= split_lines(s@.subrange(0, 0)));
    while i < n
        invariant
            n == s@.len(),
            start <= i <= n,
            texts(out@).push(s@.subrange(start as int, i as int)) == split_lines(s@.subrange(0, i as int)),
        decreases n - i,
    {
        let ghost pre = s@.subrange(0, i as int);
        assert(s@.subrange(0, i + 1).drop_last() =~= pre);
        if s.get_char(i) == '\n' {
            let line = s.substring_char(start, i).to_owned();
            let ghost before = out@;
            out.push(line);
            assert(texts(out@) =~= texts(before).push(line@));
            assert(s@.subrange(i + 1, i + 1) =~= Seq::<char>::empty());
            assert(texts(out@).push(s@.subrange(i + 1, i + 1)) =~= split_lines(s@.subrange(0, i + 1)));
            start = i + 1;
        } else {
            assert(s@.subrange(start as int, i + 1) =~= s@.subrange(start as int, i as int).push(s@[i as int]));
            assert(texts(out@).push(s@.subrange(start as int, i + 1)) =~= split_lines(s@.subrange(0, i + 1)));
        }
        i = i + 1;
    }
    let last = s.substring_char(start, n).to_owned();
    let ghost before = out@;
    out.push(last);
    assert(texts(out@) =~= texts(before).push(last@));
    assert(s@.subrange(0, n as int) =~= s@);
    assert(texts(out@) =~= split_lines(s@));
    out
}

/// What the picker's exit means. `code` is its exit code, `None` where a
/// signal ended it; `status` describes the exit; `output` is what it wrote.
/// Exit code `0`: the chosen lines of the output, its trailing white space
/// removed. No code: the picker was interrupted. Any other code: nothing was
/// chosen.
pub fn selection_from_exit(code: Option<i32>, status: &str, output: &str) -> (r: Result<Vec<String>, Box<Error>>)
    ensures
        r is Ok <==> code == Some(0i32),
        r is Ok ==> texts(r->Ok_0@) == split_lines(trim_back(output@)),
        code is None ==> r is Err && r->Err_0.kind is Interrupted,
        (code is Some && code != Some(0i32)) ==> (r->Err_0.kind matches ErrorKind::Other { status: st }
            && st@ == no_choice_prefix() + status@),
{
    match code {
        None => Error::err(ErrorKind::Interrupted),
        Some(c) => {
            if c == 0 {
                Ok(split_text(trim_end_text(output)))
            } else {
                let mut msg = String::from_str("An error occured; likely, a file was not chosen: ");
                proof {
                    reveal_strlit("An error occured; likely, a file was not chosen: ");
                }
                msg.append(status);
                Error::err(ErrorKind::Other { status: msg })
            }
        },
    }
}

} // verus!
