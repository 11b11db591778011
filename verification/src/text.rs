//! Small text tools: numbers in decimal, and the parts of an underscore-separated tag.

use vstd::prelude::*;
use vstd::string::*;

verus! {

/// The text of one decimal digit.
pub open spec fn digit_text(d: nat) -> Seq<char> {
    if d == 0 {
        "0"@
    } else if d == 1 {
        "1"@
    } else if d == 2 {
        "2"@
    } else if d == 3 {
        "3"@
    } else if d == 4 {
        "4"@
    } else if d == 5 {
        "5"@
    } else if d == 6 {
        "6"@
    } else if d == 7 {
        "7"@
    } else if d == 8 {
        "8"@
    } else {
        "9"@
    }
}

/// A number written in decimal, without leading zeros.
pub open spec fn decimal_digits(n: nat) -> Seq<char>
    decreases n,
{
    if n < 10 {
        digit_text(n)
    } else {
        decimal_digits(n / 10) + digit_text(n % 10)
    }
}

fn digit_str(d: u64) -> (text: &'static str)
    requires
        d < 10,
    ensures
        text@ == digit_text(d as nat),
{
    if d == 0 {
        "0"
    } else if d == 1 {
        "1"
    } else if d == 2 {
        "2"
    } else if d == 3 {
        "3"
    } else if d == 4 {
        "4"
    } else if d == 5 {
        "5"
    } else if d == 6 {
        "6"
    } else if d == 7 {
        "7"
    } else if d == 8 {
        "8"
    } else {
        "9"
    }
}

/// Writes `n` in decimal.
pub fn decimal_text(n: u64) -> (text: String)
    ensures
        text@ == decimal_digits(n as nat),
    decreases n,
{
    if n < 10 {
        String::from_str(digit_str(n))
    } else {
        decimal_text(n / 10).concat(digit_str(n % 10))
    }
}

/// Whether `i` is where the first underscore of `s` stands, or the length
/// of `s` where it has none.
pub open spec fn is_first_break(s: Seq<char>, i: int) -> bool {
    &&& 0 <= i <= s.len()
    &&& forall|j: int| 0 <= j < i ==> s[j] != '_'
    &&& i < s.len() ==> s[i] == '_'
}

/// Where the first underscore of `s` stands, or the length of `s` where it has none.
pub open spec fn first_break(s: Seq<char>) -> int {
    choose|i: int| is_first_break(s, i)
}

/// There is one such place only.
pub proof fn lemma_first_break(s: Seq<char>, i: int)
    requires
        is_first_break(s, i),
    ensures
        first_break(s) == i,
{
    let j = first_break(s);
    assert(is_first_break(s, j));
    if j < i {
        assert(s[j] == '_');
    }
    if i < j {
        assert(s[i] == '_');
    }
}

/// The first part of an underscore-separated tag: all of it up to the first underscore.
pub open spec fn first_part(s: Seq<char>) -> Seq<char> {
    s.take(first_break(s))
}

/// What follows the first underscore of a tag, if it has one.
pub open spec fn after_first_part(s: Seq<char>) -> Option<Seq<char>> {
    if first_break(s) < s.len() {
        Some(s.skip(first_break(s) + 1))
    } else {
        None
    }
}

/// The second part of an underscore-separated tag, if it has one.
pub open spec fn second_part(s: Seq<char>) -> Option<Seq<char>> {
    match after_first_part(s) {
        Some(tail) => Some(first_part(tail)),
        None => None,
    }
}

/// Finds the first underscore of `s` at or after `from`, or the end of `s`.
fn find_break(s: &str, from: usize, len: usize) -> (at: usize)
    requires
        len == s@.len(),
        from <= len,
    ensures
        from <= at <= len,
        is_first_break(s@.skip(from as int), at - from),
{
    let mut at: usize = from;
    while at < len
        invariant
            from <= at <= len,
            len == s@.len(),
            forall|j: int| from <= j < at ==> s@[j] != '_',
        decreases len - at,
    {
        if s.get_char(at) == '_' {
            assert(s@.skip(from as int)[at - from] == '_');
            return at;
        }
        at += 1;
    }
    at
}

/// Splits a tag into its first part and, where an underscore follows it,
/// its second part.
pub fn split_tag(msg: &str) -> (parts: (&str, Option<&str>))
    ensures
        parts.0@ == first_part(msg@),
        match parts.1 {
            Some(second) => second_part(msg@) == Some(second@),
            None => second_part(msg@).is_none(),
        },
{
    let len = msg.unicode_len();
    let first_end = find_break(msg, 0, len);
    proof {
        assert(msg@.skip(0) =~= msg@);
        lemma_first_break(msg@, first_end as int);
        assert(msg@.take(first_end as int) =~= msg@.subrange(0, first_end as int));
    }
    let first = msg.substring_char(0, first_end);
    if first_end < len {
        let second_end = find_break(msg, first_end + 1, len);
        proof {
            let tail = msg@.skip(first_end + 1);
            lemma_first_break(tail, second_end - (first_end + 1));
            assert(tail.take(second_end - (first_end + 1)) =~= msg@.subrange(
                first_end + 1,
                second_end as int,
            ));
        }
        let second = msg.substring_char(first_end + 1, second_end);
        (first, Some(second))
    } else {
        (first, None)
    }
}

} // verus!
