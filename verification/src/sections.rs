//! Reading a text back as lines, and the section headers among them.

use crate::lines::join_lines;
use vstd::prelude::*;

verus! {

/// The lines of `text`, read after the characters `pending` of a line that
/// has begun. A line ends at a line feed; characters after the last line
/// feed form a last line.
pub open spec fn split_after(pending: Seq<char>, text: Seq<char>) -> Seq<Seq<char>>
    decreases text.len(),
{
    if text.len() == 0 {
        if pending.len() == 0 {
            Seq::empty()
        } else {
            seq![pending]
        }
    } else if text[0] == '\n' {
        seq![pending] + split_after(Seq::empty(), text.drop_first())
    } else {
        split_after(pending.push(text[0]), text.drop_first())
    }
}

/// The lines of `text`.
pub open spec fn split_lines(text: Seq<char>) -> Seq<Seq<char>> {
    split_after(Seq::empty(), text)
}

/// Whether `text` holds no line feed.
pub open spec fn is_single_line(text: Seq<char>) -> bool {
    forall|i: int| 0 <= i < text.len() ==> #[trigger] text[i] != '\n'
}

/// Whether `line` has the form of a section header: it opens with `[` and
/// closes with `]`.
pub open spec fn is_section_header(line: Seq<char>) -> bool {
    line.len() >= 2 && line[0] == '[' && line.last() == ']'
}

/// [`is_section_header`] as a predicate on lines.
pub open spec fn header_test() -> spec_fn(Seq<char>) -> bool {
    |line: Seq<char>| is_section_header(line)
}

/// The section headers among `lines`, in order.
pub open spec fn headers_among(lines: Seq<Seq<char>>) -> Seq<Seq<char>> {
    lines.filter(header_test())
}

/// The section headers of `text`, in order.
pub open spec fn section_headers(text: Seq<char>) -> Seq<Seq<char>> {
    headers_among(split_lines(text))
}

/// The lines that `value` begins after its first when it is written out
/// and ended by a line feed.
pub open spec fn continuation_lines(value: Seq<char>) -> Seq<Seq<char>> {
    split_lines(value + seq!['\n']).drop_first()
}

/// Whether `value`, written after a key, begins no section: none of the
/// lines after its first is a section header. A value without line feed
/// has no such line.
pub open spec fn begins_no_section(value: Seq<char>) -> bool {
    headers_among(continuation_lines(value)).len() == 0
}

/// The section headers that `entries` give to their joined text, entry by
/// entry: an entry may hold line feeds and so give several lines.
pub open spec fn entry_headers(entries: Seq<Seq<char>>) -> Seq<Seq<char>>
    decreases entries.len(),
{
    if entries.len() == 0 {
        Seq::empty()
    } else {
        entry_headers(entries.drop_last()) + section_headers(entries.last() + seq!['\n'])
    }
}

/// Reading a text that ends with a line feed, and then more text, gives the
/// lines of the one followed by the lines of the other.
pub proof fn lemma_split_after_concat(pending: Seq<char>, front: Seq<char>, back: Seq<char>)
    requires
        front.len() > 0,
        front.last() == '\n',
    ensures
        split_after(pending, front + back) == split_after(pending, front) + split_lines(back),
    decreases front.len(),
{
    let whole = front + back;
    assert(whole[0] == front[0]);
    if front.len() == 1 {
        assert(whole.drop_first() =~= back);
        assert(front.drop_first() =~= Seq::<char>::empty());
        assert(split_after(Seq::empty(), front.drop_first()) =~= Seq::<Seq<char>>::empty());
        assert(split_after(pending, front) =~= seq![pending]);
    } else {
        assert(whole.drop_first() =~= front.drop_first() + back);
        if front[0] == '\n' {
            lemma_split_after_concat(Seq::empty(), front.drop_first(), back);
            assert(split_after(pending, whole) =~= split_after(pending, front) + split_lines(back));
        } else {
            lemma_split_after_concat(pending.push(front[0]), front.drop_first(), back);
        }
    }
}

/// Characters without line feed that come first belong to the line that
/// has begun.
pub proof fn lemma_split_after_prefix(pending: Seq<char>, prefix: Seq<char>, text: Seq<char>)
    requires
        is_single_line(prefix),
    ensures
        split_after(pending, prefix + text) == split_after(pending + prefix, text),
    decreases prefix.len(),
{
    if prefix.len() == 0 {
        assert(prefix + text =~= text);
        assert(pending + prefix =~= pending);
    } else {
        let whole = prefix + text;
        assert(whole[0] == prefix[0]);
        assert(whole.drop_first() =~= prefix.drop_first() + text);
        assert(is_single_line(prefix.drop_first())) by {
            assert forall|i: int| 0 <= i < prefix.drop_first().len() implies #[trigger] prefix.drop_first()[i]
                != '\n' by {
                assert(prefix.drop_first()[i] == prefix[i + 1]);
            }
        }
        lemma_split_after_prefix(pending.push(prefix[0]), prefix.drop_first(), text);
        assert(pending.push(prefix[0]) + prefix.drop_first() =~= pending + prefix);
    }
}

/// A line without line feed, ended by a line feed, reads back as that line.
pub proof fn lemma_split_single_line(pending: Seq<char>, line: Seq<char>)
    requires
        is_single_line(line),
    ensures
        split_after(pending, line + seq!['\n']) == seq![pending + line],
{
    lemma_split_after_prefix(pending, line, seq!['\n']);
    let rest = seq!['\n'];
    assert(rest.drop_first() =~= Seq::<char>::empty());
    assert(split_after(Seq::empty(), rest.drop_first()) =~= Seq::<Seq<char>>::empty());
    assert(split_after(pending + line, rest) =~= seq![pending + line]);
}

/// What has begun of a line only lengthens the first line read: the lines
/// after it are the same whatever has begun.
pub proof fn lemma_split_after_pending(pending: Seq<char>, text: Seq<char>)
    requires
        text.len() > 0,
        text.last() == '\n',
    ensures
        split_lines(text).len() > 0,
        split_after(pending, text).len() == split_lines(text).len(),
        split_after(pending, text)[0] == pending + split_lines(text)[0],
        split_after(pending, text).drop_first() == split_lines(text).drop_first(),
    decreases text.len(),
{
    let none = Seq::<char>::empty();
    if text[0] == '\n' {
        let rest = split_after(none, text.drop_first());
        assert(split_after(pending, text) == seq![pending] + rest);
        assert(split_lines(text) == seq![none] + rest);
        assert(pending + none =~= pending);
        assert((seq![pending] + rest).drop_first() =~= rest);
        assert((seq![none] + rest).drop_first() =~= rest);
    } else {
        let c = text[0];
        let rest = text.drop_first();
        assert(rest.len() > 0 && rest.last() == '\n') by {
            assert(text.len() > 1);
            assert(rest.last() == text.last());
        }
        lemma_split_after_pending(pending.push(c), rest);
        lemma_split_after_pending(none.push(c), rest);
        assert(split_after(pending, text) == split_after(pending.push(c), rest));
        assert(split_lines(text) == split_after(none.push(c), rest));
        assert(pending.push(c) + split_lines(rest)[0] =~= pending + (none.push(c) + split_lines(
            rest,
        )[0]));
    }
}

/// The lines of a joined text are the lines of its entries, one entry after
/// the other.
pub proof fn lemma_split_join_push(lines: Seq<Seq<char>>, line: Seq<char>)
    ensures
        split_lines(join_lines(lines.push(line))) == split_lines(join_lines(lines)) + split_lines(
            line + seq!['\n'],
        ),
{
    crate::lines::lemma_join_lines_push(lines, line);
    crate::lines::lemma_join_lines_ends_with_break(lines);
    let front = join_lines(lines);
    let back = line + seq!['\n'];
    assert(join_lines(lines.push(line)) =~= front + back);
    if lines.len() == 0 {
        assert(front + back =~= back);
        assert(split_lines(front) =~= Seq::<Seq<char>>::empty());
        assert(split_lines(front + back) =~= split_lines(front) + split_lines(back));
    } else {
        lemma_split_after_concat(Seq::empty(), front, back);
    }
}

/// A text made of lines without line feed reads back as those lines.
pub proof fn lemma_split_join_round_trip(lines: Seq<Seq<char>>)
    requires
        forall|i: int| 0 <= i < lines.len() ==> is_single_line(#[trigger] lines[i]),
    ensures
        split_lines(join_lines(lines)) == lines,
    decreases lines.len(),
{
    if lines.len() == 0 {
        assert(split_lines(join_lines(lines)) =~= lines);
    } else {
        let front = lines.drop_last();
        let line = lines.last();
        assert(front.push(line) =~= lines);
        lemma_split_join_round_trip(front);
        lemma_split_join_push(front, line);
        lemma_split_single_line(Seq::empty(), line);
        assert(Seq::<char>::empty() + line =~= line);
        assert(split_lines(join_lines(lines)) =~= lines);
    }
}

/// The headers among two runs of lines are those of the first run followed
/// by those of the second.
pub proof fn lemma_headers_among_concat(front: Seq<Seq<char>>, back: Seq<Seq<char>>)
    ensures
        headers_among(front + back) == headers_among(front) + headers_among(back),
{
    Seq::filter_distributes_over_add(front, back, header_test());
}

/// The headers among a single line.
pub proof fn lemma_headers_among_single(line: Seq<char>)
    ensures
        headers_among(seq![line]) == if is_section_header(line) {
            seq![line]
        } else {
            Seq::empty()
        },
{
    let none = Seq::<Seq<char>>::empty();
    reveal(Seq::filter);
    assert(none.filter(header_test()) =~= none);
    none.lemma_filter_push(line, header_test());
    assert(none.push(line) =~= seq![line]);
}

/// An entry without line feed gives itself as a header if it has the form
/// of one, and nothing otherwise.
pub proof fn lemma_single_line_entry_headers(entry: Seq<char>)
    requires
        is_single_line(entry),
    ensures
        section_headers(entry + seq!['\n']) == if is_section_header(entry) {
            seq![entry]
        } else {
            Seq::empty()
        },
{
    lemma_split_single_line(Seq::empty(), entry);
    assert(Seq::<char>::empty() + entry =~= entry);
    lemma_headers_among_single(entry);
}

/// A value without line feed begins no section.
pub proof fn lemma_single_line_begins_no_section(value: Seq<char>)
    requires
        is_single_line(value),
    ensures
        begins_no_section(value),
{
    lemma_split_single_line(Seq::empty(), value);
    assert(continuation_lines(value) =~= Seq::<Seq<char>>::empty());
}

/// The section headers of a joined text are those that its entries give,
/// entry by entry.
pub proof fn lemma_section_headers_of_join(entries: Seq<Seq<char>>)
    ensures
        section_headers(join_lines(entries)) == entry_headers(entries),
    decreases entries.len(),
{
    if entries.len() == 0 {
        assert(split_lines(join_lines(entries)) =~= Seq::<Seq<char>>::empty());
    } else {
        let front = entries.drop_last();
        let entry = entries.last();
        assert(front.push(entry) =~= entries);
        lemma_section_headers_of_join(front);
        lemma_split_join_push(front, entry);
        lemma_headers_among_concat(split_lines(join_lines(front)), split_lines(entry + seq!['\n']));
    }
}

/// The headers that two runs of entries give are those of the first run
/// followed by those of the second.
pub proof fn lemma_entry_headers_concat(front: Seq<Seq<char>>, back: Seq<Seq<char>>)
    ensures
        entry_headers(front + back) == entry_headers(front) + entry_headers(back),
    decreases back.len(),
{
    if back.len() == 0 {
        assert(front + back =~= front);
        assert(entry_headers(front) + entry_headers(back) =~= entry_headers(front));
    } else {
        lemma_entry_headers_concat(front, back.drop_last());
        assert((front + back).drop_last() =~= front + back.drop_last());
        assert((front + back).last() == back.last());
        assert(entry_headers(front + back) =~= entry_headers(front) + entry_headers(back));
    }
}

/// The headers that a single entry gives.
pub proof fn lemma_entry_headers_single(entry: Seq<char>)
    ensures
        entry_headers(seq![entry]) == section_headers(entry + seq!['\n']),
{
    let one = seq![entry];
    assert(one.drop_last() =~= Seq::<Seq<char>>::empty());
    assert(entry_headers(one.drop_last()) =~= Seq::<Seq<char>>::empty());
    assert(one.last() == entry);
    assert(entry_headers(one) =~= section_headers(entry + seq!['\n']));
}

} // verus!
