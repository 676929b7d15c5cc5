//! Searching and cutting text, the way the portal's pages and the unpacker's
//! entry names need it.

use vstd::prelude::*;

verus! {

/// The characters of `text`, one by one.
pub fn chars_of(text: &str) -> (chars: Vec<char>)
    ensures
        chars@ == text@,
{
    let mut chars: Vec<char> = Vec::new();
    for c in it: text.chars()
        invariant
            chars@ == it.seq().take(it.index() as int),
            it.seq() == text@,
    {
        chars.push(c);
        assert(chars@ =~= it.seq().take(it.index() + 1));
    }
    assert(text@.take(text@.len() as int) =~= text@);
    chars
}

/// True when `pattern` stands in `text` at position `at`.
pub open spec fn occurs_at(text: Seq<char>, pattern: Seq<char>, at: int) -> bool {
    &&& 0 <= at
    &&& at + pattern.len() <= text.len()
    &&& text.subrange(at, at + pattern.len()) == pattern
}

/// True when `pattern` stands somewhere in `text`.
pub open spec fn contains(text: Seq<char>, pattern: Seq<char>) -> bool {
    exists|at: int| occurs_at(text, pattern, at)
}

/// True when `at` is the first position at or after `from` where `pattern`
/// stands in `text`.
pub open spec fn first_at(text: Seq<char>, pattern: Seq<char>, from: int, at: int) -> bool {
    &&& from <= at
    &&& occurs_at(text, pattern, at)
    &&& forall|earlier: int| from <= earlier < at ==> !occurs_at(text, pattern, earlier)
}

/// True when `text` ends in `pattern`.
pub open spec fn ends_with(text: Seq<char>, pattern: Seq<char>) -> bool {
    occurs_at(text, pattern, text.len() - pattern.len())
}

/// Whether `pattern` stands in `text` at position `at`.
pub fn matches_at(text: &Vec<char>, pattern: &Vec<char>, at: usize) -> (found: bool)
    ensures
        found == occurs_at(text@, pattern@, at as int),
{
    let n = text.len();
    let m = pattern.len();
    if at > n || m > n - at {
        return false;
    }
    let mut k: usize = 0;
    while k < m
        invariant
            k <= m,
            m == pattern@.len(),
            n == text@.len(),
            at + m <= n,
            forall|j: int| 0 <= j < k ==> text@[at + j] == pattern@[j],
        decreases m - k,
    {
        if text[at + k] != pattern[k] {
            assert(text@.subrange(at as int, at + m)[k as int] != pattern@[k as int]);
            return false;
        }
        k = k + 1;
    }
    assert(text@.subrange(at as int, at + m) =~= pattern@);
    true
}

/// The first position at or after `from` where `pattern` stands in `text`.
pub fn find_from(text: &Vec<char>, pattern: &Vec<char>, from: usize) -> (found: Option<usize>)
    ensures
        match found {
            Some(at) => first_at(text@, pattern@, from as int, at as int),
            None => forall|at: int| from <= at ==> !occurs_at(text@, pattern@, at),
        },
{
    let n = text.len();
    let mut at = from;
    while at <= n
        invariant
            from <= at,
            n == text@.len(),
            forall|earlier: int| from <= earlier < at ==> !occurs_at(text@, pattern@, earlier),
        decreases n + 1 - at,
    {
        if matches_at(text, pattern, at) {
            return Some(at);
        }
        if at == n {
            return None;
        }
        at = at + 1;
    }
    None
}

/// Whether `pattern` stands somewhere in `text`.
pub fn has(text: &str, pattern: &str) -> (found: bool)
    ensures
        found == contains(text@, pattern@),
{
    let text = chars_of(text);
    let pattern = chars_of(pattern);
    match find_from(&text, &pattern, 0) {
        Some(at) => true,
        None => false,
    }
}

/// Whether `text` ends in `pattern`.
pub fn has_suffix(text: &str, pattern: &str) -> (found: bool)
    ensures
        found == ends_with(text@, pattern@),
{
    let text = chars_of(text);
    let pattern = chars_of(pattern);
    if pattern.len() > text.len() {
        false
    } else {
        matches_at(&text, &pattern, text.len() - pattern.len())
    }
}

/// The characters of `text` from position `from` up to position `to`, as a
/// string.
pub fn cut(text: &str, from: usize, to: usize) -> (piece: String)
    requires
        from <= to <= text@.len(),
    ensures
        piece@ == text@.subrange(from as int, to as int),
{
    String::from_str(text.substring_char(from, to))
}

/// `text` without every `pattern` that it starts with, one after the other.
pub open spec fn strip_front(text: Seq<char>, pattern: Seq<char>) -> Seq<char>
    decreases text.len(),
{
    if pattern.len() > 0 && occurs_at(text, pattern, 0) {
        strip_front(text.skip(pattern.len() as int), pattern)
    } else {
        text
    }
}

/// `text` without every `pattern` that it ends in, one after the other.
pub open spec fn strip_back(text: Seq<char>, pattern: Seq<char>) -> Seq<char>
    decreases text.len(),
{
    if pattern.len() > 0 && ends_with(text, pattern) {
        strip_back(text.take(text.len() - pattern.len()), pattern)
    } else {
        text
    }
}

/// `text` without the `front`s that it starts with and, of what is left,
/// without the `back`s that it ends in.
pub fn trimmed(text: &str, front: &str, back: &str) -> (piece: String)
    ensures
        piece@ == strip_back(strip_front(text@, front@), back@),
{
    let chars = chars_of(text);
    let head = chars_of(front);
    let tail = chars_of(back);
    let n = chars.len();
    let mut start: usize = 0;
    proof {
        assert(text@.skip(0) =~= text@);
    }
    while head.len() > 0 && matches_at(&chars, &head, start)
        invariant
            start <= n,
            n == chars@.len(),
            chars@ == text@,
            head@ == front@,
            strip_front(text@, front@) == strip_front(text@.skip(start as int), front@),
        decreases n - start,
    {
        proof {
            let rest = text@.skip(start as int);
            assert(rest.subrange(0, head@.len() as int) =~= text@.subrange(
                start as int,
                start + head@.len(),
            ));
            assert(rest.skip(head@.len() as int) =~= text@.skip(start + head@.len()));
        }
        start = start + head.len();
    }
    proof {
        let rest = text@.skip(start as int);
        if head@.len() > 0 && start + head@.len() <= n {
            assert(rest.subrange(0, head@.len() as int) =~= text@.subrange(
                start as int,
                start + head@.len(),
            ));
        }
        assert(strip_front(text@, front@) == rest);
    }
    let ghost kept = text@.skip(start as int);
    let mut end: usize = n;
    proof {
        assert(text@.subrange(start as int, n as int) =~= kept);
    }
    while tail.len() > 0 && end - start >= tail.len() && matches_at(&chars, &tail, end - tail.len())
        invariant
            start <= end <= n,
            n == chars@.len(),
            chars@ == text@,
            tail@ == back@,
            kept == text@.skip(start as int),
            strip_back(kept, back@) == strip_back(text@.subrange(start as int, end as int), back@),
        decreases end - start,
    {
        proof {
            let piece = text@.subrange(start as int, end as int);
            assert(piece.subrange(piece.len() - tail@.len(), piece.len() as int) =~= text@.subrange(
                end - tail@.len(),
                end as int,
            ));
            assert(piece.take(piece.len() - tail@.len()) =~= text@.subrange(
                start as int,
                end - tail@.len(),
            ));
        }
        end = end - tail.len();
    }
    proof {
        let piece = text@.subrange(start as int, end as int);
        if tail@.len() > 0 && piece.len() >= tail@.len() {
            assert(piece.subrange(piece.len() - tail@.len(), piece.len() as int) =~= text@.subrange(
                end - tail@.len(),
                end as int,
            ));
        }
        assert(strip_back(kept, back@) == piece);
    }
    cut(text, start, end)
}

/// `first` followed by `second`.
pub fn joined(first: &str, second: &str) -> (both: String)
    ensures
        both@ == first@ + second@,
{
    let mut both = String::from_str(first);
    both.append(second);
    both
}

} // verus!
