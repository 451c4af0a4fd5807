//! Text as sequences of characters: joining, substitution and search.

use vstd::prelude::*;
use vstd::string::*;

verus! {

/// The characters of `s`, in order.
pub fn to_chars(s: &str) -> (v: Vec<char>)
    ensures
        v@ == s@,
{
    let mut v: Vec<char> = Vec::new();
    for c in it: s.chars()
        invariant
            it.seq() == s@,
            v@ == s@.take(it.index() as int),
    {
        v.push(c);
    }
    v
}

/// Whether `a` and `b` hold the same characters.
pub fn same_text(a: &str, b: &str) -> (r: bool)
    ensures
        r == (a@ == b@),
{
    let x = a.to_owned();
    let y = b.to_owned();
    x == y
}

/// Text appended in two steps is the two pieces appended as one.
pub proof fn lemma_appended(start: Seq<char>, first: Seq<char>, second: Seq<char>)
    ensures
        (start + first) + second == start + (first + second),
{
    assert((start + first) + second =~= start + (first + second));
}

/// Pushing an element onto a vector pushes its view onto the vector's view.
pub proof fn lemma_deep_view_push<T: DeepView>(before: Vec<T>, after: Vec<T>, x: T)
    requires
        after@ == before@.push(x),
    ensures
        after.deep_view() == before.deep_view().push(x.deep_view()),
{
    assert(after.deep_view() =~= before.deep_view().push(x.deep_view()));
}

/// `parts` written one after another with `sep` between neighbours.
pub open spec fn joined(parts: Seq<Seq<char>>, sep: Seq<char>) -> Seq<char>
    decreases parts.len(),
{
    if parts.len() == 0 {
        Seq::empty()
    } else if parts.len() == 1 {
        parts[0]
    } else {
        joined(parts.drop_last(), sep) + sep + parts.last()
    }
}

/// Joins `parts` with `sep` between neighbours.
pub fn join(parts: &Vec<String>, sep: &str) -> (r: String)
    ensures
        r@ == joined(parts.deep_view(), sep@),
{
    let mut r = String::new();
    let mut i: usize = 0;
    while i < parts.len()
        invariant
            i <= parts.len(),
            r@ == joined(parts.deep_view().take(i as int), sep@),
        decreases parts.len() - i,
    {
        proof {
            let before = parts.deep_view().take(i as int);
            let after = parts.deep_view().take(i + 1);
            assert(after.drop_last() =~= before);
            assert(after.last() == parts[i as int]@);
        }
        if i > 0 {
            r.append(sep);
        }
        r.append(parts[i].as_str());
        i += 1;
    }
    proof {
        assert(parts.deep_view().take(parts.len() as int) =~= parts.deep_view());
    }
    r
}

/// `text` with every occurrence of `from`, found from left to right and not
/// overlapping, replaced by `to`.  An empty `from` occurs nowhere.
pub open spec fn replaced(text: Seq<char>, from: Seq<char>, to: Seq<char>) -> Seq<char>
    decreases text.len(),
{
    if from.len() == 0 || text.len() == 0 {
        text
    } else if from.is_prefix_of(text) {
        to + replaced(text.skip(from.len() as int), from, to)
    } else {
        seq![text[0]] + replaced(text.skip(1), from, to)
    }
}

/// Whether `pat` stands in `text` at position `i`.
fn starts_at(text: &Vec<char>, pat: &Vec<char>, i: usize) -> (r: bool)
    requires
        i <= text.len(),
    ensures
        r == pat@.is_prefix_of(text@.skip(i as int)),
{
    if pat.len() > text.len() - i {
        return false;
    }
    let mut j: usize = 0;
    while j < pat.len()
        invariant
            i + pat.len() <= text.len(),
            j <= pat.len(),
            forall|k: int| 0 <= k < j ==> pat@[k] == text@[i + k],
        decreases pat.len() - j,
    {
        if pat[j] != text[i + j] {
            proof {
                let rest = text@.skip(i as int);
                assert(rest.subrange(0, pat@.len() as int)[j as int] == text@[i + j]);
            }
            return false;
        }
        j += 1;
    }
    proof {
        let rest = text@.skip(i as int);
        assert(pat@ =~= rest.subrange(0, pat@.len() as int));
    }
    true
}

/// Replaces every occurrence of `from` in `text` by `to`.
pub fn replace_all(text: &str, from: &str, to: &str) -> (r: String)
    ensures
        r@ == replaced(text@, from@, to@),
{
    let t = to_chars(text);
    let f = to_chars(from);
    if f.len() == 0 {
        return text.to_owned();
    }
    let mut r = String::new();
    let mut seg: usize = 0;
    let mut i: usize = 0;
    proof {
        assert(text@.skip(0) =~= text@);
        assert(r@ + text@.subrange(0, 0) =~= Seq::<char>::empty());
    }
    while i < t.len()
        invariant
            t@ == text@,
            f@ == from@,
            f.len() > 0,
            seg <= i <= t.len(),
            replaced(text@, from@, to@) == r@ + text@.subrange(seg as int, i as int) + replaced(
                text@.skip(i as int),
                from@,
                to@,
            ),
        decreases t.len() - i,
    {
        let ghost rest = text@.skip(i as int);
        if starts_at(&t, &f, i) {
            r.append(text.substring_char(seg, i));
            r.append(to);
            proof {
                assert(rest.skip(f.len() as int) =~= text@.skip(i + f.len()));
                assert(text@.subrange(i + f.len(), i + f.len()) =~= Seq::<char>::empty());
            }
            i += f.len();
            seg = i;
        } else {
            proof {
                assert(rest.skip(1) =~= text@.skip(i + 1));
                assert(text@.subrange(seg as int, i as int) + seq![rest[0]] =~= text@.subrange(
                    seg as int,
                    i + 1,
                ));
            }
            i += 1;
        }
    }
    r.append(text.substring_char(seg, i));
    r
}

/// The code of `c`, with the capital letters A to Z taken as their small
/// counterparts.
pub open spec fn folded(c: char) -> int {
    if 65 <= c as u32 <= 90 {
        (c as u32) + 32
    } else {
        (c as u32) as int
    }
}

fn fold(c: char) -> (r: u32)
    ensures
        r == folded(c),
{
    let x: u32 = c as u32;
    if x >= 65 && x <= 90 {
        x + 32
    } else {
        x
    }
}

/// Whether `word` stands in `text` at position `i`, letter case aside.
pub open spec fn occurs_ignoring_case(text: Seq<char>, word: Seq<char>, i: int) -> bool {
    &&& 0 <= i
    &&& i + word.len() <= text.len()
    &&& forall|j: int| 0 <= j < word.len() ==> folded(text[i + j]) == folded(#[trigger] word[j])
}

/// Whether `word` stands somewhere in `text`, letter case aside.
pub open spec fn mentions(text: Seq<char>, word: Seq<char>) -> bool {
    exists|i: int| occurs_ignoring_case(text, word, i)
}

fn occurs_here(text: &Vec<char>, word: &Vec<char>, i: usize) -> (r: bool)
    requires
        i <= text.len(),
    ensures
        r == occurs_ignoring_case(text@, word@, i as int),
{
    if word.len() > text.len() - i {
        return false;
    }
    let mut j: usize = 0;
    while j < word.len()
        invariant
            i + word.len() <= text.len(),
            j <= word.len(),
            forall|k: int| 0 <= k < j ==> folded(text@[i + k]) == folded(#[trigger] word@[k]),
        decreases word.len() - j,
    {
        if fold(text[i + j]) != fold(word[j]) {
            return false;
        }
        j += 1;
    }
    true
}

/// Whether `word` stands somewhere in `text`, letter case aside.
pub fn mentions_word(text: &str, word: &str) -> (r: bool)
    ensures
        r == mentions(text@, word@),
{
    let t = to_chars(text);
    let w = to_chars(word);
    let mut i: usize = 0;
    while i < t.len()
        invariant
            t@ == text@,
            w@ == word@,
            i <= t.len(),
            forall|k: int| 0 <= k < i ==> !occurs_ignoring_case(text@, word@, k),
        decreases t.len() - i,
    {
        if occurs_here(&t, &w, i) {
            return true;
        }
        i += 1;
    }
    let at_end = occurs_here(&t, &w, i);
    proof {
        if !at_end {
            assert forall|k: int| !occurs_ignoring_case(text@, word@, k) by {
                if 0 <= k <= t.len() {
                    assert(!occurs_ignoring_case(text@, word@, k));
                }
            }
        }
    }
    at_end
}

/// Whether no two of `keys` hold the same characters.
pub fn all_distinct(keys: &Vec<String>) -> (r: bool)
    ensures
        r == keys.deep_view().no_duplicates(),
{
    let ghost ks = keys.deep_view();
    let mut j: usize = 0;
    while j < keys.len()
        invariant
            j <= keys.len(),
            ks == keys.deep_view(),
            forall|a: int, b: int| 0 <= a < b < j ==> ks[a] != ks[b],
        decreases keys.len() - j,
    {
        let mut i: usize = 0;
        while i < j
            invariant
                i <= j < keys.len(),
                ks == keys.deep_view(),
                forall|a: int| 0 <= a < i ==> ks[a] != ks[j as int],
            decreases j - i,
        {
            if same_text(keys[i].as_str(), keys[j].as_str()) {
                proof {
                    assert(ks[i as int] == ks[j as int]);
                }
                return false;
            }
            i += 1;
        }
        j += 1;
    }
    proof {
        assert forall|a: int, b: int| 0 <= a < ks.len() && 0 <= b < ks.len() && a != b implies ks[a]
            != ks[b] by {
            if a < b {
                assert(ks[a] != ks[b]);
            } else {
                assert(ks[b] != ks[a]);
            }
        }
    }
    true
}

} // verus!
