//! Text as lines: splitting at and joining with `'\n'`.
use vstd::prelude::*;

verus! {

/// `s` holds no line break.
pub open spec fn no_newline(s: Seq<char>) -> bool {
    forall|i: int| 0 <= i < s.len() ==> s[i] != '\n'
}

/// The pieces of `s` between line breaks, as `str::split('\n')` gives them.
pub open spec fn split_lines(s: Seq<char>) -> Seq<Seq<char>>
    decreases s.len(),
{
    if s.len() == 0 {
        seq![seq![]]
    } else {
        let rest = split_lines(s.drop_last());
        if s.last() == '\n' {
            rest.push(seq![])
        } else {
            rest.update(rest.len() - 1, rest.last().push(s.last()))
        }
    }
}

/// The lines joined by line breaks.
pub open spec fn join_lines(lines: Seq<Seq<char>>) -> Seq<char>
    decreases lines.len(),
{
    if lines.len() <= 1 {
        if lines.len() == 0 {
            seq![]
        } else {
            lines[0]
        }
    } else {
        join_lines(lines.drop_last()) + seq!['\n'] + lines.last()
    }
}

pub proof fn lemma_split_nonempty(s: Seq<char>)
    ensures
        split_lines(s).len() >= 1,
    decreases s.len(),
{
    if s.len() > 0 {
        lemma_split_nonempty(s.drop_last());
    }
}

pub proof fn lemma_no_newline_concat(a: Seq<char>, b: Seq<char>)
    requires
        no_newline(a),
        no_newline(b),
    ensures
        no_newline(a + b),
{
    assert forall|i: int| 0 <= i < (a + b).len() implies (a + b)[i] != '\n' by {
        if i < a.len() {
            assert((a + b)[i] == a[i]);
        } else {
            assert((a + b)[i] == b[i - a.len()]);
        }
    }
}

/// Appending text without line breaks extends the last line.
pub proof fn lemma_split_append_plain(a: Seq<char>, y: Seq<char>)
    requires
        no_newline(y),
    ensures
        split_lines(a).len() >= 1,
        split_lines(a + y) == split_lines(a).update(
            split_lines(a).len() - 1,
            split_lines(a).last() + y,
        ),
    decreases y.len(),
{
    lemma_split_nonempty(a);
    let sa = split_lines(a);
    if y.len() == 0 {
        assert(a + y =~= a);
        assert(sa.last() + y =~= sa.last());
        assert(sa.update(sa.len() - 1, sa.last() + y) =~= sa);
    } else {
        let y0 = y.drop_last();
        assert(no_newline(y0));
        lemma_split_append_plain(a, y0);
        assert((a + y).drop_last() =~= a + y0);
        assert((a + y).last() == y.last());
        let s0 = split_lines(a + y0);
        assert(s0.last() == sa.last() + y0);
        assert(s0.last().push(y.last()) =~= sa.last() + y);
        assert(split_lines(a + y) =~= sa.update(sa.len() - 1, sa.last() + y));
    }
}

/// Splitting lines joined from lines without breaks gives them back.
pub proof fn lemma_split_join(lines: Seq<Seq<char>>)
    requires
        lines.len() >= 1,
        forall|i: int| 0 <= i < lines.len() ==> no_newline(#[trigger] lines[i]),
    ensures
        split_lines(join_lines(lines)) == lines,
    decreases lines.len(),
{
    if lines.len() == 1 {
        lemma_split_append_plain(Seq::<char>::empty(), lines[0]);
        assert(Seq::<char>::empty() + lines[0] =~= lines[0]);
        assert(split_lines(Seq::<char>::empty()) =~= seq![Seq::<char>::empty()]);
        assert(Seq::<char>::empty() + lines[0] =~= lines[0]);
        assert(split_lines(lines[0]) =~= lines);
    } else {
        let init = lines.drop_last();
        lemma_split_join(init);
        let a = join_lines(init) + seq!['\n'];
        assert(a.drop_last() =~= join_lines(init));
        assert(split_lines(a) == init.push(seq![]));
        lemma_split_append_plain(a, lines.last());
        assert(join_lines(lines) == a + lines.last());
        assert(Seq::<char>::empty() + lines.last() =~= lines.last());
        assert(init.push(seq![]).update(init.len() as int, Seq::<char>::empty() + lines.last())
            =~= lines);
    }
}

} // verus!
