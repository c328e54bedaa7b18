//! Error messages as clients see them.

use vstd::prelude::*;
use crate::text::{chars_of, has_prefix, owned, string_of};

verus! {

/// `s` with every occurrence of `pat`, read from the front, replaced by `rep`.
pub open spec fn replace_all(s: Seq<char>, pat: Seq<char>, rep: Seq<char>) -> Seq<char>
    decreases s.len(),
{
    if s.len() == 0 {
        Seq::empty()
    } else if pat.len() > 0 && has_prefix(s, pat) {
        rep + replace_all(s.skip(pat.len() as int), pat, rep)
    } else {
        seq![s[0]] + replace_all(s.drop_first(), pat, rep)
    }
}

/// The number of characters before the first line feed, or all of them.
pub open spec fn first_line_len(s: Seq<char>) -> nat
    decreases s.len(),
{
    if s.len() == 0 || s[0] == '\n' {
        0
    } else {
        1 + first_line_len(s.drop_first())
    }
}

/// A line without the carriage return that ended it.
pub open spec fn strip_cr(line: Seq<char>) -> Seq<char> {
    if line.len() > 0 && line.last() == '\r' {
        line.drop_last()
    } else {
        line
    }
}

/// The lines of a text as `str::lines` gives them: split at line feeds, a
/// carriage return before a line feed dropped, no empty line after a final
/// line feed.
pub open spec fn lines_of(s: Seq<char>) -> Seq<Seq<char>>
    decreases s.len(),
{
    if s.len() == 0 {
        Seq::empty()
    } else {
        let n = first_line_len(s);
        if n < s.len() {
            seq![strip_cr(s.take(n as int))] + lines_of(s.skip((n + 1) as int))
        } else {
            seq![s]
        }
    }
}

/// The lines joined with `sep` between them.
pub open spec fn join(lines: Seq<Seq<char>>, sep: Seq<char>) -> Seq<char>
    decreases lines.len(),
{
    if lines.len() == 0 {
        Seq::empty()
    } else if lines.len() == 1 {
        lines[0]
    } else {
        join(lines.drop_last(), sep) + sep + lines.last()
    }
}

/// What a client is shown of an error: a fixed text unless details are
/// exposed; with details, token and key wording is generalised and at most
/// the first three lines are kept, joined by spaces.
pub open spec fn sanitized_error(error: Seq<char>, expose_details: bool) -> Seq<char> {
    if !expose_details {
        "Request validation failed"@
    } else {
        let t = replace_all(replace_all(error, "JWT"@, "token"@), "API key"@, "authentication"@);
        let ls = lines_of(t);
        join(ls.take(if ls.len() < 3 { ls.len() as int } else { 3 }), " "@)
    }
}

proof fn lemma_first_line_len(s: Seq<char>)
    ensures
        first_line_len(s) <= s.len(),
        first_line_len(s) < s.len() ==> s[first_line_len(s) as int] == '\n',
        forall|k: int| 0 <= k < first_line_len(s) ==> s[k] != '\n',
    decreases s.len(),
{
    if s.len() > 0 && s[0] != '\n' {
        lemma_first_line_len(s.drop_first());
        assert forall|k: int| 0 <= k < first_line_len(s) implies s[k] != '\n' by {
            if k > 0 {
                assert(s[k] == s.drop_first()[k - 1]);
            }
        }
    }
}

pub(crate) fn replace_text(s: &Vec<char>, pat: &Vec<char>, rep: &Vec<char>) -> (r: Vec<char>)
    requires
        pat@.len() > 0,
    ensures
        r@ == replace_all(s@, pat@, rep@),
{
    let mut out: Vec<char> = Vec::new();
    let mut i: usize = 0;
    proof {
        assert(s@.skip(0) =~= s@);
        assert(out@ + replace_all(s@, pat@, rep@) =~= replace_all(s@, pat@, rep@));
    }
    while i < s.len()
        invariant
            pat@.len() > 0,
            i <= s@.len(),
            replace_all(s@, pat@, rep@) == out@ + replace_all(s@.skip(i as int), pat@, rep@),
        decreases s.len() - i,
    {
        let ghost rest = s@.skip(i as int);
        let ghost out_old = out@;
        let mut matched = pat.len() <= s.len() - i;
        let mut j: usize = 0;
        while matched && j < pat.len()
            invariant
                i < s@.len(),
                j <= pat@.len(),
                matched ==> i + pat@.len() <= s@.len(),
                matched ==> forall|k: int| 0 <= k < j ==> s@[i + k] == pat@[k],
                !matched ==> !has_prefix(rest, pat@),
                rest == s@.skip(i as int),
            decreases pat.len() - j,
        {
            let sl = s.len();
            assert(i + j < sl);
            let at: usize = i + j;
            if s[at] != pat[j] {
                assert(rest.take(pat@.len() as int)[j as int] != pat@[j as int]);
                matched = false;
                j = pat.len();
            } else {
                j = j + 1;
            }
        }
        if matched {
            assert(rest.take(pat@.len() as int) =~= pat@);
            assert(rest.skip(pat@.len() as int) =~= s@.skip(i + pat@.len()));
            assert(replace_all(rest, pat@, rep@) == rep@ + replace_all(s@.skip(i + pat@.len()), pat@, rep@));
            append_chars_vec(&mut out, rep);
            proof {
                assert(out@ + replace_all(s@.skip(i + pat@.len()), pat@, rep@) =~= out_old + (rep@
                    + replace_all(s@.skip(i + pat@.len()), pat@, rep@)));
            }
            i = i + pat.len();
        } else {
            assert(rest.drop_first() =~= s@.skip(i + 1));
            assert(rest[0] == s@[i as int]);
            assert(replace_all(rest, pat@, rep@) == seq![s@[i as int]] + replace_all(s@.skip(i + 1), pat@, rep@));
            out.push(s[i]);
            proof {
                assert(out@ + replace_all(s@.skip(i + 1), pat@, rep@) =~= out_old + (seq![s@[i as int]]
                    + replace_all(s@.skip(i + 1), pat@, rep@)));
            }
            i = i + 1;
        }
    }
    proof {
        assert(s@.skip(i as int) =~= Seq::<char>::empty());
        assert(out@ + Seq::<char>::empty() =~= out@);
    }
    out
}

fn append_chars_vec(out: &mut Vec<char>, more: &Vec<char>)
    ensures
        final(out)@ == old(out)@ + more@,
{
    let mut i: usize = 0;
    while i < more.len()
        invariant
            i <= more@.len(),
            out@ == old(out)@ + more@.take(i as int),
        decreases more.len() - i,
    {
        out.push(more[i]);
        proof {
            assert(more@.take(i as int + 1) =~= more@.take(i as int).push(more@[i as int]));
        }
        i = i + 1;
    }
    proof {
        assert(more@.take(i as int) =~= more@);
    }
}

fn line_length(t: &Vec<char>, start: usize) -> (r: usize)
    requires
        start <= t@.len(),
    ensures
        r == first_line_len(t@.skip(start as int)),
{
    let mut i: usize = start;
    while i < t.len() && t[i] != '\n'
        invariant
            start <= i <= t@.len(),
            first_line_len(t@.skip(start as int)) == (i - start) + first_line_len(t@.skip(i as int)),
        decreases t.len() - i,
    {
        assert(t@.skip(i as int).drop_first() =~= t@.skip(i + 1));
        i = i + 1;
    }
    i - start
}

pub struct RequestSanitizer;

impl RequestSanitizer {
    /// What a client is shown of `error`.
    pub fn sanitize_error_message(error: &str, expose_details: bool) -> (r: String)
        ensures
            r@ == sanitized_error(error@, expose_details),
    {
        if !expose_details {
            return owned("Request validation failed");
        }
        proof {
            reveal_strlit("JWT");
            reveal_strlit("API key");
        }
        let t0 = replace_text(&chars_of(error), &chars_of("JWT"), &chars_of("token"));
        let t = replace_text(&t0, &chars_of("API key"), &chars_of("authentication"));
        let sep = chars_of(" ");
        let ghost all = lines_of(t@);
        let ghost mut taken: Seq<Seq<char>> = Seq::empty();
        let mut out: Vec<char> = Vec::new();
        let mut count: usize = 0;
        let mut start: usize = 0;
        let mut done = start >= t.len();
        proof {
            assert(t@.skip(0) =~= t@);
            assert(taken + lines_of(t@) =~= lines_of(t@));
            if done {
                assert(t@ =~= Seq::<char>::empty());
            }
        }
        while !done && count < 3
            invariant
                start <= t@.len(),
                count <= 3,
                taken.len() == count,
                all == taken + lines_of(t@.skip(start as int)),
                done == (start >= t@.len() && lines_of(t@.skip(start as int)).len() == 0) || (done && lines_of(t@.skip(start as int)).len() == 0),
                out@ == join(taken, sep@),
                sep@ == " "@,
                all == lines_of(t@),
            decreases t@.len() - start + (if done { 0int } else { 1int }),
        {
            let ghost rest = t@.skip(start as int);
            proof {
                lemma_first_line_len(rest);
            }
            let n = line_length(&t, start);
            let mut end = start + n;
            let ends_with_newline = end < t.len();
            if ends_with_newline && n > 0 && t[end - 1] == '\r' {
                end = end - 1;
            }
            let mut line: Vec<char> = Vec::new();
            let mut k: usize = start;
            while k < end
                invariant
                    start <= k <= end <= t@.len(),
                    line@ == t@.subrange(start as int, k as int),
                decreases end - k,
            {
                line.push(t[k]);
                k = k + 1;
            }
            let ghost this_line = if ends_with_newline { strip_cr(rest.take(n as int)) } else { rest };
            proof {
                assert(rest.take(n as int) =~= t@.subrange(start as int, start + n));
                if ends_with_newline {
                    assert(lines_of(rest) == seq![strip_cr(rest.take(n as int))] + lines_of(rest.skip(n + 1)));
                    assert(rest.skip(n + 1) =~= t@.skip(start + n + 1));
                    if n > 0 && t@[start + n - 1] == '\r' {
                        assert(t@.subrange(start as int, start + n - 1) =~= rest.take(n as int).drop_last());
                    }
                } else {
                    assert(rest =~= t@.subrange(start as int, t@.len() as int));
                    assert(lines_of(rest) == seq![rest]);
                }
                assert(line@ == this_line);
            }
            if count > 0 {
                append_chars_vec(&mut out, &sep);
            }
            append_chars_vec(&mut out, &line);
            proof {
                let nt = taken.push(this_line);
                assert(nt.drop_last() =~= taken);
                if count == 0 {
                    assert(out@ =~= join(nt, sep@));
                } else {
                    assert(out@ =~= join(nt, sep@));
                }
                assert(all =~= nt + lines_of(if ends_with_newline { t@.skip(start + n + 1) } else { t@.skip(t@.len() as int) }));
                taken = nt;
            }
            count = count + 1;
            if ends_with_newline {
                start = start + n + 1;
                done = start >= t.len();
                proof {
                    if done {
                        assert(t@.skip(start as int) =~= Seq::<char>::empty());
                    }
                }
            } else {
                start = t.len();
                done = true;
                proof {
                    assert(t@.skip(start as int) =~= Seq::<char>::empty());
                }
            }
        }
        proof {
            let ls = lines_of(t@);
            let m: int = if ls.len() < 3 { ls.len() as int } else { 3 };
            if done {
                assert(ls =~= taken);
            }
            assert(ls.take(m) =~= taken);
        }
        string_of(&out)
    }
}

} // verus!
