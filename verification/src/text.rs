//! Formatting of recognition results into the response body.
//!
//! The engine hands back one optional string per text line, in reading
//! order. The response body is the present strings joined by a single
//! newline: absent entries contribute nothing, not even a separator, and
//! an empty result set yields the empty string.

use vstd::prelude::*;

verus! {

/// The strings of the present entries of `lines`, in order.
pub open spec fn present_lines(lines: Seq<Option<String>>) -> Seq<Seq<char>>
    decreases lines.len(),
{
    if lines.len() == 0 {
        Seq::empty()
    } else {
        match lines.last() {
            Some(s) => present_lines(lines.drop_last()).push(s@),
            None => present_lines(lines.drop_last()),
        }
    }
}

/// `lines` joined by a single newline character: no separator before the
/// first line, after the last one, or anywhere else.
pub open spec fn join_lines(lines: Seq<Seq<char>>) -> Seq<char>
    decreases lines.len(),
{
    if lines.len() == 0 {
        Seq::empty()
    } else if lines.len() == 1 {
        lines[0]
    } else {
        join_lines(lines.drop_last()) + seq!['\n'] + lines.last()
    }
}

/// Join the present line results with newline separators, in the order
/// in which they were handed in. Absent entries are skipped entirely and
/// an empty result set formats to the empty string.
pub fn format_text_output(text_lines: &Vec<Option<String>>) -> (r: String)
    ensures
        r@ == join_lines(present_lines(text_lines@)),
        present_lines(text_lines@).len() == 0 ==> r@ == Seq::<char>::empty(),
{
    let mut out = String::new();
    let mut any: bool = false;
    let mut i: usize = 0;
    while i < text_lines.len()
        invariant
            i <= text_lines@.len(),
            out@ == join_lines(present_lines(text_lines@.take(i as int))),
            any == (present_lines(text_lines@.take(i as int)).len() > 0),
        decreases text_lines@.len() - i,
    {
        let ghost pre = text_lines@.take(i as int);
        let ghost post = text_lines@.take(i as int + 1);
        proof {
            assert(post.drop_last() =~= pre);
            assert(post.last() == text_lines@[i as int]);
        }
        match &text_lines[i] {
            Some(s) => {
                if any {
                    out.append("\n");
                } else {
                    proof {
                        assert(present_lines(pre) =~= Seq::<Seq<char>>::empty());
                    }
                }
                out.append(s.as_str());
                any = true;
                proof {
                    reveal_strlit("\n");
                    let p = present_lines(pre);
                    assert(present_lines(post) == p.push(s@));
                    assert(p.push(s@).drop_last() =~= p);
                    assert(p.push(s@).last() == s@);
                    if p.len() == 0 {
                        assert(join_lines(p.push(s@)) == s@);
                        assert(Seq::<char>::empty() + s@ =~= s@);
                    } else {
                        assert(join_lines(p.push(s@)) == join_lines(p) + seq!['\n'] + s@);
                        assert("\n"@ =~= seq!['\n']);
                    }
                }
            },
            None => {
                proof {
                    assert(present_lines(post) == present_lines(pre));
                }
            },
        }
        i = i + 1;
    }
    proof {
        assert(text_lines@.take(text_lines@.len() as int) =~= text_lines@);
    }
    out
}

/// The formatting step is deterministic: equal sequences of line results
/// format to equal output text, whatever else happened in between.
pub proof fn lemma_format_deterministic(a: Seq<Option<String>>, b: Seq<Option<String>>)
    requires
        a == b,
    ensures
        join_lines(present_lines(a)) == join_lines(present_lines(b)),
{
}

/// Output order follows input order: the present lines of a concatenation
/// are the present lines of the first part followed by those of the
/// second, so no reordering ever takes place.
pub proof fn lemma_present_lines_append(a: Seq<Option<String>>, b: Seq<Option<String>>)
    ensures
        present_lines(a + b) == present_lines(a) + present_lines(b),
    decreases b.len(),
{
    if b.len() == 0 {
        assert(a + b =~= a);
        assert(present_lines(a) + present_lines(b) =~= present_lines(a));
    } else {
        lemma_present_lines_append(a, b.drop_last());
        assert((a + b).drop_last() =~= a + b.drop_last());
        assert((a + b).last() == b.last());
        match b.last() {
            Some(s) => {
                assert(present_lines(a + b) == present_lines(a + b.drop_last()).push(s@));
                assert(present_lines(b) == present_lines(b.drop_last()).push(s@));
                assert((present_lines(a) + present_lines(b.drop_last())).push(s@) =~= present_lines(
                    a,
                ) + present_lines(b.drop_last()).push(s@));
            },
            None => {
                assert(present_lines(a + b) == present_lines(a + b.drop_last()));
                assert(present_lines(b) == present_lines(b.drop_last()));
            },
        }
    }
}

} // verus!
