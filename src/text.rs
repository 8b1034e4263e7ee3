//! Line counting for the line-number gutter.

use vstd::prelude::*;
use vstd::utf8::encode_utf8;

verus! {

/// Number of line breaks (`'\n'`) in `s`.
pub open spec fn newline_count(s: Seq<char>) -> nat
    decreases s.len(),
{
    if s.len() == 0 {
        0
    } else {
        newline_count(s.drop_last()) + if s.last() == '\n' { 1nat } else { 0nat }
    }
}

/// Number of lines of `s`: each line ends at a line break, and text after
/// the last break, if any, is one more line. Empty text has no lines.
pub open spec fn line_count(s: Seq<char>) -> nat {
    if s.len() == 0 || s.last() == '\n' {
        newline_count(s)
    } else {
        newline_count(s) + 1
    }
}

/// Number of labels in the gutter: one per line, and at least one.
pub open spec fn label_count(s: Seq<char>) -> nat {
    if line_count(s) == 0 {
        1
    } else {
        line_count(s)
    }
}

proof fn lemma_newline_count_bound(s: Seq<char>)
    ensures
        newline_count(s) <= s.len(),
    decreases s.len(),
{
    if s.len() > 0 {
        lemma_newline_count_bound(s.drop_last());
    }
}

proof fn lemma_encoding_not_shorter(s: Seq<char>)
    ensures
        s.len() <= encode_utf8(s).len(),
    decreases s.len(),
{
    if s.len() > 0 {
        lemma_encoding_not_shorter(s.drop_first());
    }
}

/// Counts the labels of the line-number gutter for `content`: one per line,
/// with one label for empty content.
pub fn line_label_count(content: &str) -> (r: usize)
    ensures
        r == label_count(content@),
{
    let bytes = content.as_bytes();
    proof {
        lemma_encoding_not_shorter(content@);
        assert(bytes@.len() == bytes.len());
    }
    let mut breaks: usize = 0;
    let mut last: Option<char> = None;
    for c in it: content.chars()
        invariant
            it.seq() == content@,
            content@.len() <= usize::MAX,
            breaks == newline_count(content@.take(it.index() as int)),
            breaks <= it.index(),
            last == (if it.index() == 0 { None } else { Some(content@[it.index() - 1]) }),
    {
        assert(content@.take(it.index() + 1).drop_last() == content@.take(it.index() as int));
        if c == '\n' {
            breaks = breaks + 1;
        }
        last = Some(c);
    }
    assert(content@.take(content@.len() as int) == content@);
    proof {
        if content@.len() > 0 {
            lemma_newline_count_bound(content@.drop_last());
        }
    }
    match last {
        Some(ch) if ch != '\n' => breaks + 1,
        _ => if breaks == 0 { 1 } else { breaks },
    }
}

/// The labels of the line-number gutter for `content`: 1, 2, ... up to the
/// number of labels.
pub fn line_labels(content: &str) -> (r: Vec<usize>)
    ensures
        r@.len() == label_count(content@),
        forall|i: int| 0 <= i < r@.len() ==> r@[i] == i + 1,
{
    let n = line_label_count(content);
    let mut labels: Vec<usize> = Vec::new();
    let mut k: usize = 0;
    while k < n
        invariant
            k <= n,
            labels@.len() == k,
            forall|i: int| 0 <= i < k ==> labels@[i] == i + 1,
        decreases n - k,
    {
        k = k + 1;
        labels.push(k);
    }
    labels
}

} // verus!
