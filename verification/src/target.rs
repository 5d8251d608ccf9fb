//! The request target: a path, then, after the first `?`, a query string.

use vstd::prelude::*;
use crate::text::push_char;

verus! {

/// The character that ends the path and starts the query string.
pub const QUERY_MARK: char = '?';

/// The path of `target` is its first `at` characters: none of them is the query mark, and
/// what follows them, if anything does, is the query mark.
pub open spec fn path_ends_at(target: Seq<char>, at: int) -> bool {
    &&& 0 <= at <= target.len()
    &&& forall|i: int| 0 <= i < at ==> target[i] != QUERY_MARK
    &&& at < target.len() ==> target[at] == QUERY_MARK
}

/// The length of the path of `target`.
pub open spec fn path_len(target: Seq<char>) -> int {
    choose|at: int| path_ends_at(target, at)
}

/// The path of `target`: what stands before the first query mark, or all of it.
pub open spec fn path_of(target: Seq<char>) -> Seq<char> {
    target.take(path_len(target))
}

/// The query string of `target`: what stands behind the first query mark, if there is one.
pub open spec fn query_of(target: Seq<char>) -> Option<Seq<char>> {
    if path_len(target) < target.len() {
        Some(target.skip(path_len(target) + 1))
    } else {
        None
    }
}

/// A target's path ends at one place only.
pub proof fn lemma_path_len_is(target: Seq<char>, at: int)
    requires
        path_ends_at(target, at),
    ensures
        path_len(target) == at,
{
    let other = path_len(target);
    assert(path_ends_at(target, other));
    if other < at {
        assert(target[other] == QUERY_MARK);
    } else if at < other {
        assert(target[at] == QUERY_MARK);
    }
}

/// Every target has a path.
pub proof fn lemma_path_exists(target: Seq<char>)
    ensures
        path_ends_at(target, path_len(target)),
    decreases target.len(),
{
    if target.len() == 0 {
        assert(path_ends_at(target, 0));
    } else if target[0] == QUERY_MARK {
        assert(path_ends_at(target, 0));
    } else {
        let rest = target.drop_first();
        lemma_path_exists(rest);
        let at = path_len(rest);
        assert forall|i: int| 0 <= i < at + 1 implies target[i] != QUERY_MARK by {
            if i > 0 {
                assert(target[i] == rest[i - 1]);
            }
        }
        if at + 1 < target.len() {
            assert(target[at + 1] == rest[at]);
        }
        assert(path_ends_at(target, at + 1));
    }
}

/// Splits a request target into its path and its query string.
pub fn split_target(target: &str) -> (r: (String, Option<String>))
    ensures
        r.0@ == path_of(target@),
        match r.1 {
            Some(query) => query_of(target@) == Some(query@),
            None => query_of(target@) is None,
        },
{
    let mut path = String::new();
    let mut query = String::new();
    let mut seen = false;
    let ghost mut at: int = 0;
    for c in it: target.chars()
        invariant
            it.seq() == target@,
            !seen ==> path@ == target@.take(it.index()) && query@.len() == 0 && (forall|i: int|
                0 <= i < it.index() ==> target@[i] != QUERY_MARK),
            seen ==> path_ends_at(target@, at) && at < it.index() && path@ == target@.take(at)
                && query@ == target@.subrange(at + 1, it.index()),
    {
        if seen {
            push_char(&mut query, c);
            assert(target@.subrange(at + 1, it.index() + 1) == target@.subrange(
                at + 1,
                it.index(),
            ).push(c));
        } else if c == QUERY_MARK {
            seen = true;
            proof {
                at = it.index();
                assert(target@.subrange(at + 1, at + 1) == Seq::<char>::empty());
            }
        } else {
            push_char(&mut path, c);
            assert(target@.take(it.index() + 1) == target@.take(it.index()).push(c));
        }
    }
    proof {
        if seen {
            lemma_path_len_is(target@, at);
            assert(target@.subrange(at + 1, target@.len() as int) == target@.skip(at + 1));
        } else {
            lemma_path_len_is(target@, target@.len() as int);
        }
    }
    if seen {
        (path, Some(query))
    } else {
        (path, None)
    }
}

} // verus!
