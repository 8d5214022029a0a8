//! Texts and lists of texts, and their mathematical values.

use vstd::prelude::*;

verus! {

/// The characters of an optional string.
pub open spec fn opt_text(text: Option<String>) -> Option<Seq<char>> {
    match text {
        Some(t) => Some(t@),
        None => None,
    }
}

/// The texts of an optional list of strings.
pub open spec fn opt_texts(list: Option<Vec<String>>) -> Option<Seq<Seq<char>>> {
    match list {
        Some(l) => Some(l.deep_view()),
        None => None,
    }
}

/// An optional text, with nothing standing for the empty text.
pub open spec fn or_empty(text: Option<Seq<char>>) -> Seq<char> {
    match text {
        Some(t) => t,
        None => Seq::empty(),
    }
}

/// A text is one line when it holds no line feed.
pub open spec fn one_line(text: Seq<char>) -> bool {
    !text.contains('\n')
}

/// Two texts put together are one line exactly when each of them is.
pub proof fn lemma_one_line_joined(left: Seq<char>, right: Seq<char>)
    ensures
        one_line(left + right) <==> one_line(left) && one_line(right),
{
    let both = left + right;
    if left.contains('\n') {
        let at = choose|at: int| 0 <= at < left.len() && left[at] == '\n';
        assert(both[at] == '\n');
    }
    if right.contains('\n') {
        let at = choose|at: int| 0 <= at < right.len() && right[at] == '\n';
        assert(both[left.len() + at] == '\n');
    }
    if both.contains('\n') {
        let at = choose|at: int| 0 <= at < both.len() && both[at] == '\n';
        assert(at < left.len() ==> left[at] == '\n');
        assert(at >= left.len() ==> right[at - left.len()] == '\n');
    }
}

/// A copy of `texts`, string by string.
pub fn copy_strings(texts: &Vec<String>) -> (copy: Vec<String>)
    ensures
        copy.deep_view() == texts.deep_view(),
{
    let mut copy: Vec<String> = Vec::new();
    let mut i: usize = 0;
    while i < texts.len()
        invariant
            i <= texts.len(),
            copy.len() == i,
            forall|j: int| 0 <= j < i ==> copy@[j]@ == texts@[j]@,
        decreases texts.len() - i,
    {
        copy.push(texts[i].clone());
        i = i + 1;
    }
    copy
}

} // verus!
