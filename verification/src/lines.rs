//! Text as a sequence of lines, each ended by a line feed.

use vstd::prelude::*;

verus! {

/// The text made of `lines`, each followed by a line feed.
pub open spec fn join_lines(lines: Seq<Seq<char>>) -> Seq<char>
    decreases lines.len(),
{
    if lines.len() == 0 {
        Seq::empty()
    } else {
        join_lines(lines.drop_last()) + lines.last() + seq!['\n']
    }
}

/// Joining one line more appends that line and a line feed.
pub proof fn lemma_join_lines_push(lines: Seq<Seq<char>>, line: Seq<char>)
    ensures
        join_lines(lines.push(line)) == join_lines(lines) + line + seq!['\n'],
{
    assert(lines.push(line).drop_last() =~= lines);
}

/// The text of a single line.
pub proof fn lemma_join_lines_single(line: Seq<char>)
    ensures
        join_lines(seq![line]) == line + seq!['\n'],
{
    assert(seq![line].drop_last() =~= Seq::<Seq<char>>::empty());
    assert(join_lines(Seq::<Seq<char>>::empty()) =~= Seq::<char>::empty());
    assert(join_lines(seq![line]) =~= line + seq!['\n']);
}

/// Joining distributes over concatenation of line lists.
pub proof fn lemma_join_lines_concat(front: Seq<Seq<char>>, back: Seq<Seq<char>>)
    ensures
        join_lines(front + back) == join_lines(front) + join_lines(back),
    decreases back.len(),
{
    if back.len() == 0 {
        assert(front + back =~= front);
        assert(join_lines(front) + join_lines(back) =~= join_lines(front));
    } else {
        lemma_join_lines_concat(front, back.drop_last());
        assert((front + back).drop_last() =~= front + back.drop_last());
        assert((front + back).last() == back.last());
        assert(join_lines(front + back) =~= join_lines(front) + join_lines(back));
    }
}

/// A joined text is empty or ends with a line feed.
pub proof fn lemma_join_lines_ends_with_break(lines: Seq<Seq<char>>)
    ensures
        lines.len() == 0 ==> join_lines(lines).len() == 0,
        lines.len() > 0 ==> join_lines(lines).len() > 0 && join_lines(lines).last() == '\n',
{
}

} // verus!
