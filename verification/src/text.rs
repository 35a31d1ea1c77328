//! Small verified text helpers shared by the path and timestamp logic.
use vstd::prelude::*;
use vstd::string::StrSliceExecFns;

verus! {

/// True exactly when `c` is an ASCII decimal digit.
pub open spec fn is_digit(c: char) -> bool {
    48 <= c as u32 && c as u32 <= 57
}

/// Numeric value of an ASCII decimal digit.
pub open spec fn digit_val(c: char) -> int {
    c as u32 - 48
}

/// True exactly when `c` occurs somewhere in `s`.
pub open spec fn seq_contains_char(s: Seq<char>, c: char) -> bool {
    exists|i: int| 0 <= i < s.len() && s[i] == c
}

/// `s` with every leading NUL character removed.
pub open spec fn trim_start_nuls(s: Seq<char>) -> Seq<char>
    decreases s.len(),
{
    if s.len() > 0 && s[0] == '\0' {
        trim_start_nuls(s.drop_first())
    } else {
        s
    }
}

/// `s` with every trailing NUL character removed.
pub open spec fn trim_end_nuls(s: Seq<char>) -> Seq<char>
    decreases s.len(),
{
    if s.len() > 0 && s[s.len() - 1] == '\0' {
        trim_end_nuls(s.drop_last())
    } else {
        s
    }
}

/// `s` with every leading and trailing NUL character removed.
pub open spec fn trim_nuls_spec(s: Seq<char>) -> Seq<char> {
    trim_end_nuls(trim_start_nuls(s))
}

proof fn lemma_trim_start_at(s: Seq<char>, a: int)
    requires
        0 <= a <= s.len(),
        forall|j: int| 0 <= j < a ==> s[j] == '\0',
        a < s.len() ==> s[a] != '\0',
    ensures
        trim_start_nuls(s) == s.subrange(a, s.len() as int),
    decreases a,
{
    if a == 0 {
        assert(s.subrange(0, s.len() as int) =~= s);
    } else {
        lemma_trim_start_at(s.drop_first(), a - 1);
        assert(s.drop_first().subrange(a - 1, s.drop_first().len() as int) =~= s.subrange(
            a,
            s.len() as int,
        ));
    }
}

proof fn lemma_trim_end_at(s: Seq<char>, b: int)
    requires
        0 <= b <= s.len(),
        forall|j: int| b <= j < s.len() ==> s[j] == '\0',
        b > 0 ==> s[b - 1] != '\0',
    ensures
        trim_end_nuls(s) == s.subrange(0, b),
    decreases s.len() - b,
{
    if b == s.len() {
        assert(s.subrange(0, b) =~= s);
    } else {
        assert(s[s.len() - 1] == '\0');
        lemma_trim_end_at(s.drop_last(), b);
        assert(s.drop_last().subrange(0, b) =~= s.subrange(0, b));
    }
}

/// Compares two strings character by character.
pub fn str_eq(a: &str, b: &str) -> (r: bool)
    ensures
        r == (a@ == b@),
{
    let a_len = a.unicode_len();
    let b_len = b.unicode_len();
    if a_len != b_len {
        return false;
    }
    let mut i: usize = 0;
    while i < a_len
        invariant
            a_len == a@.len(),
            b_len == b@.len(),
            a_len == b_len,
            i <= a_len,
            forall|j: int| 0 <= j < i ==> a@[j] == b@[j],
        decreases a_len - i,
    {
        if a.get_char(i) != b.get_char(i) {
            assert(a@[i as int] != b@[i as int]);
            return false;
        }
        i += 1;
    }
    proof {
        assert(a@ =~= b@);
    }
    true
}

/// True exactly when `c` occurs in `s`.
pub fn contains_char(s: &str, c: char) -> (r: bool)
    ensures
        r == seq_contains_char(s@, c),
{
    let len = s.unicode_len();
    let mut i: usize = 0;
    while i < len
        invariant
            len == s@.len(),
            i <= len,
            forall|j: int| 0 <= j < i ==> s@[j] != c,
        decreases len - i,
    {
        if s.get_char(i) == c {
            return true;
        }
        i += 1;
    }
    false
}

/// Removes every leading and trailing NUL character, as EXIF string values
/// are commonly padded with them.
pub fn trim_nuls(s: &str) -> (r: &str)
    ensures
        r@ == trim_nuls_spec(s@),
{
    let len = s.unicode_len();
    let mut start: usize = 0;
    while start < len && s.get_char(start) == '\0'
        invariant
            len == s@.len(),
            start <= len,
            forall|j: int| 0 <= j < start ==> s@[j] == '\0',
        decreases len - start,
    {
        start += 1;
    }
    let mut end: usize = len;
    while end > start && s.get_char(end - 1) == '\0'
        invariant
            len == s@.len(),
            start <= end <= len,
            forall|j: int| end <= j < len ==> s@[j] == '\0',
        decreases end,
    {
        end -= 1;
    }
    let r = s.substring_char(start, end);
    proof {
        lemma_trim_start_at(s@, start as int);
        let t = s@.subrange(start as int, s@.len() as int);
        lemma_trim_end_at(t, end - start);
        assert(t.subrange(0, end - start) =~= s@.subrange(start as int, end as int));
    }
    r
}

} // verus!
