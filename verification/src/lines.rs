//! Framing of an index file: how its bytes fall into lines.
//!
//! A line ends at a line feed, or at the end of the file. A carriage return
//! directly before the line feed belongs to the line ending. Lines that are
//! empty hold no record and are passed over.

use vstd::prelude::*;
use vstd::slice::slice_subrange;

verus! {

/// The byte `\n`.
pub const LINE_FEED: u8 = 10;

/// The byte `\r`.
pub const CARRIAGE_RETURN: u8 = 13;

/// The number of bytes before the first line feed of `content`, or its
/// length where it holds none.
pub open spec fn first_line_end(content: Seq<u8>) -> int
    decreases content.len(),
{
    if content.len() == 0 || content[0] == LINE_FEED {
        0
    } else {
        1 + first_line_end(content.drop_first())
    }
}

/// The first line of `content`, without its line ending.
pub open spec fn first_line(content: Seq<u8>) -> Seq<u8> {
    let end = first_line_end(content);
    if 0 < end < content.len() && content[end - 1] == CARRIAGE_RETURN {
        content.subrange(0, end - 1)
    } else {
        content.subrange(0, end)
    }
}

/// What follows the first line of `content` and its line ending.
pub open spec fn after_first_line(content: Seq<u8>) -> Seq<u8> {
    let end = first_line_end(content);
    if 0 <= end < content.len() {
        content.subrange(end + 1, content.len() as int)
    } else {
        Seq::empty()
    }
}

/// The lines of `content` that are not empty, in file order.
pub open spec fn record_lines(content: Seq<u8>) -> Seq<Seq<u8>>
    decreases content.len(),
{
    if content.len() == 0 {
        Seq::empty()
    } else if first_line(content).len() == 0 {
        record_lines(after_first_line(content))
    } else {
        seq![first_line(content)] + record_lines(after_first_line(content))
    }
}

/// `first_line_end` is the position of the first line feed: every byte
/// before `end` is none, and `end` is one or the end of the content.
pub proof fn lemma_first_line_end(content: Seq<u8>, end: int)
    requires
        0 <= end <= content.len(),
        forall|i: int| 0 <= i < end ==> content[i] != LINE_FEED,
        end == content.len() || content[end] == LINE_FEED,
    ensures
        first_line_end(content) == end,
    decreases end,
{
    if end > 0 {
        lemma_first_line_end(content.drop_first(), end - 1);
    }
}

/// A line feed ends the first line: of `line`, a line feed and `rest`, the
/// first line is `line`, less a carriage return at its end, and `rest` is
/// what follows.
pub proof fn lemma_split_at_line_feed(line: Seq<u8>, rest: Seq<u8>)
    requires
        forall|i: int| 0 <= i < line.len() ==> line[i] != LINE_FEED,
    ensures
        after_first_line(line + seq![LINE_FEED] + rest) == rest,
        first_line(line + seq![LINE_FEED] + rest) == if line.len() > 0 && line.last()
            == CARRIAGE_RETURN {
            line.drop_last()
        } else {
            line
        },
{
    let content = line + seq![LINE_FEED] + rest;
    lemma_first_line_end(content, line.len() as int);
    assert(after_first_line(content) =~= rest);
    if line.len() > 0 && line.last() == CARRIAGE_RETURN {
        assert(first_line(content) =~= line.drop_last());
    } else {
        assert(first_line(content) =~= line);
    }
}

/// Content without a line feed is one line, carriage returns and all.
pub proof fn lemma_unterminated_line(content: Seq<u8>)
    requires
        forall|i: int| 0 <= i < content.len() ==> content[i] != LINE_FEED,
    ensures
        first_line(content) == content,
        after_first_line(content) == Seq::<u8>::empty(),
{
    lemma_first_line_end(content, content.len() as int);
    assert(first_line(content) =~= content);
}

/// Splits `content` into its first line and what follows that line.
pub fn split_first_line(content: &[u8]) -> (parts: (&[u8], &[u8]))
    ensures
        parts.0@ == first_line(content@),
        parts.1@ == after_first_line(content@),
{
    let len: usize = content.len();
    let mut end: usize = 0;
    while end < len && content[end] != LINE_FEED
        invariant
            end <= len,
            len == content@.len(),
            forall|i: int| 0 <= i < end ==> content@[i] != LINE_FEED,
        decreases len - end,
    {
        end += 1;
    }
    proof {
        lemma_first_line_end(content@, end as int);
    }
    if end < len {
        let rest = slice_subrange(content, end + 1, len);
        if end > 0 && content[end - 1] == CARRIAGE_RETURN {
            (slice_subrange(content, 0, end - 1), rest)
        } else {
            (slice_subrange(content, 0, end), rest)
        }
    } else {
        let rest = slice_subrange(content, len, len);
        assert(rest@ =~= Seq::<u8>::empty());
        (slice_subrange(content, 0, end), rest)
    }
}

} // verus!
