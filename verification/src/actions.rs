//! The pure compute steps behind the individual demonstrations: comparing a
//! read line against a reference value with and without trimming, the
//! in-place increment behind the mutability demonstration, and sorting a
//! list of integers. The demonstrations' terminal work stays outside the
//! library; it hands these functions plain values.

use vstd::prelude::*;

verus! {

broadcast use vstd::seq_lib::group_to_multiset_ensures, vstd::seq_lib::to_multiset_insert;

/// The ASCII whitespace characters the trimming comparison strips from both
/// ends of a line: blank, newline, tab and carriage return.
pub open spec fn is_ascii_space(c: char) -> bool {
    c == ' ' || c == '\n' || c == '\t' || c == '\r'
}

/// The sequence with its leading whitespace stripped.
pub open spec fn trim_front(s: Seq<char>) -> Seq<char>
    decreases s.len(),
{
    if s.len() > 0 && is_ascii_space(s[0]) {
        trim_front(s.drop_first())
    } else {
        s
    }
}

/// The sequence with its trailing whitespace stripped.
pub open spec fn trim_back(s: Seq<char>) -> Seq<char>
    decreases s.len(),
{
    if s.len() > 0 && is_ascii_space(s.last()) {
        trim_back(s.drop_last())
    } else {
        s
    }
}

/// The sequence with whitespace stripped from both ends: what the trimming
/// variant of the comparison actually compares.
pub open spec fn trimmed(s: Seq<char>) -> Seq<char> {
    trim_back(trim_front(s))
}

fn is_space_char(c: char) -> (r: bool)
    ensures
        r == is_ascii_space(c),
{
    c == ' ' || c == '\n' || c == '\t' || c == '\r'
}

/// Compares two strings character for character.
pub fn str_eq(a: &str, b: &str) -> (r: bool)
    ensures
        r == (a@ == b@),
{
    let an = a.unicode_len();
    let bn = b.unicode_len();
    if an != bn {
        return false;
    }
    let mut i: usize = 0;
    while i < an
        invariant
            an == a@.len(),
            an == b@.len(),
            i <= an,
            forall|j: int| 0 <= j < i ==> a@[j] == b@[j],
        decreases an - i,
    {
        if a.get_char(i) != b.get_char(i) {
            return false;
        }
        i += 1;
    }
    proof {
        assert(a@ =~= b@);
    }
    true
}

/// The untrimmed comparison of the end-of-line demonstration: whether the
/// line as read, terminator and all, equals the reference value. A line read
/// from the terminal still carries its newline, so this variant reports
/// inequality even when the visible text matches.
pub fn eq_untrimmed(input: &str, reference: &str) -> (r: bool)
    ensures
        r == (input@ == reference@),
{
    str_eq(input, reference)
}

/// The trimmed comparison of the end-of-line demonstration: whether the line
/// with whitespace stripped from both ends equals the reference value.
pub fn eq_trimmed(input: &str, reference: &str) -> (r: bool)
    ensures
        r == (trimmed(input@) == reference@),
{
    let n = input.unicode_len();
    let mut a: usize = 0;
    proof {
        assert(input@.skip(0) =~= input@);
    }
    while a < n && is_space_char(input.get_char(a))
        invariant
            n == input@.len(),
            a <= n,
            trim_front(input@) == trim_front(input@.skip(a as int)),
        decreases n - a,
    {
        proof {
            assert(input@.skip(a as int)[0] == input@[a as int]);
            assert(input@.skip(a as int).drop_first() =~= input@.skip(a + 1));
        }
        a += 1;
    }
    proof {
        if a < n {
            assert(input@.skip(a as int)[0] == input@[a as int]);
        }
        assert(trim_front(input@) == input@.skip(a as int));
        assert(input@.skip(a as int) =~= input@.subrange(a as int, n as int));
    }
    let mut b: usize = n;
    while b > a && is_space_char(input.get_char(b - 1))
        invariant
            n == input@.len(),
            a <= b <= n,
            trim_back(input@.skip(a as int)) == trim_back(input@.subrange(a as int, b as int)),
        decreases b,
    {
        proof {
            let cur = input@.subrange(a as int, b as int);
            assert(cur.last() == input@[b - 1]);
            assert(cur.drop_last() =~= input@.subrange(a as int, b - 1));
        }
        b -= 1;
    }
    proof {
        let cur = input@.subrange(a as int, b as int);
        if b > a {
            assert(cur.last() == input@[b - 1]);
        }
        assert(trimmed(input@) == input@.subrange(a as int, b as int));
    }
    let sub = input.substring_char(a, b);
    str_eq(sub, reference)
}

/// The mutability demonstration's computation: a mutable borrow of a fresh
/// binding can bump the value in place, and one more than forty-one is the
/// answer.
pub fn answer_to_the_great_question() -> (r: u64)
    ensures
        r == 42,
{
    let mut answer: u64 = 41;
    let a = &mut answer;
    *a = *a + 1;
    answer
}

/// Ascending order over a sequence of integers.
pub open spec fn sorted(s: Seq<i64>) -> bool {
    forall|x: int, y: int| 0 <= x < y < s.len() ==> s[x] <= s[y]
}

/// The integer-sort demonstration's computation: sorts the vector ascending
/// in place. The result holds exactly the elements it started with, order
/// aside; on integers a total order exists, so sorting needs no tie-breaking
/// caveats.
pub fn sort_ints(v: &mut Vec<i64>)
    ensures
        sorted(final(v)@),
        final(v)@.to_multiset() == old(v)@.to_multiset(),
{
    if v.len() <= 1 {
        return;
    }
    let mut i: usize = 1;
    while i < v.len()
        invariant
            1 <= i <= v@.len(),
            v@.len() == old(v)@.len(),
            sorted(v@.take(i as int)),
            v@.to_multiset() == old(v)@.to_multiset(),
        decreases v@.len() - i,
    {
        let x = v[i];
        let mut j: usize = 0;
        while j < i && v[j] <= x
            invariant
                j <= i < v@.len(),
                x == v@[i as int],
                forall|k: int| 0 <= k < j ==> v@[k] <= x,
            decreases i - j,
        {
            j += 1;
        }
        let ghost s = v@;
        let removed = v.remove(i);
        let ghost s1 = v@;
        v.insert(j, removed);
        proof {
            lemma_multiset_put_back(s, i as int, removed, j as int);
            s.remove_ensures(i as int);
            s1.insert_ensures(j as int, removed);
            assert(forall|k: int| 0 <= k < i ==> s.take(i as int)[k] == s[k]);
            assert(forall|ak: int, bk: int| 0 <= ak < bk < i ==> s[ak] <= s[bk]);
            assert(forall|k: int| 0 <= k < j ==> v@[k] == s[k]);
            assert(forall|k: int| j < k <= i ==> v@[k] == s[k - 1]);
            assert(v@[j as int] == x);
            assert forall|xk: int, yk: int| 0 <= xk < yk < i + 1 implies v@[xk] <= v@[yk] by {
                if (j as int) < i {
                    assert(s[j as int] > x);
                }
                if yk > j && xk == j {
                    assert(v@[yk] == s[yk - 1]);
                    assert(s[j as int] <= s[yk - 1]);
                }
            }
            assert(sorted(v@.take(i + 1))) by {
                assert(forall|k: int| 0 <= k < i + 1 ==> v@.take(i + 1)[k] == v@[k]);
            }
        }
        i += 1;
    }
    proof {
        assert(v@.take(v@.len() as int) =~= v@);
    }
}

/// Removing the element at `i` and inserting it back anywhere leaves the
/// sequence's contents unchanged as a multiset.
proof fn lemma_multiset_put_back(s: Seq<i64>, i: int, x: i64, j: int)
    requires
        0 <= i < s.len(),
        s[i] == x,
        0 <= j <= s.len() - 1,
    ensures
        s.remove(i).insert(j, x).to_multiset() == s.to_multiset(),
{
    assert(s.contains(x));
    assert(s.to_multiset().count(x) > 0);
    assert(s.to_multiset().remove(x).insert(x) =~= s.to_multiset());
    assert(s.remove(i).insert(j, x).to_multiset() =~= s.to_multiset());
}

} // verus!
