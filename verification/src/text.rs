use vstd::prelude::*;

verus! {

/// The Unicode `White_Space` property, as `char::is_whitespace` tests it.
pub open spec fn is_white(c: char) -> bool {
    let v = c as u32;
    ||| 0x09 <= v <= 0x0d
    ||| v == 0x20
    ||| v == 0x85
    ||| v == 0xa0
    ||| v == 0x1680
    ||| 0x2000 <= v <= 0x200a
    ||| v == 0x2028
    ||| v == 0x2029
    ||| v == 0x202f
    ||| v == 0x205f
    ||| v == 0x3000
}

/// A text is blank when trimming its white space leaves nothing.
pub open spec fn is_blank_text(s: Seq<char>) -> bool {
    forall|i: int| 0 <= i < s.len() ==> is_white(#[trigger] s[i])
}

pub fn is_white_char(c: char) -> (r: bool)
    ensures
        r == is_white(c),
{
    let v = c as u32;
    (0x09 <= v && v <= 0x0d) || v == 0x20 || v == 0x85 || v == 0xa0 || v == 0x1680
        || (0x2000 <= v && v <= 0x200a) || v == 0x2028 || v == 0x2029 || v == 0x202f
        || v == 0x205f || v == 0x3000
}

/// Whether `s.trim().is_empty()`.
pub fn is_blank(s: &str) -> (r: bool)
    ensures
        r == is_blank_text(s@),
{
    let n = s.unicode_len();
    let mut i: usize = 0;
    while i < n
        invariant
            n == s@.len(),
            i <= n,
            forall|j: int| 0 <= j < i ==> is_white(#[trigger] s@[j]),
        decreases n - i,
    {
        let c = s.get_char(i);
        if !is_white_char(c) {
            return false;
        }
        i = i + 1;
    }
    true
}

/// The text without its leading white space.
pub open spec fn trim_start_text(s: Seq<char>) -> Seq<char>
    decreases s.len(),
{
    if s.len() > 0 && is_white(s[0]) {
        trim_start_text(s.drop_first())
    } else {
        s
    }
}

/// The text without its trailing white space.
pub open spec fn trim_end_text(s: Seq<char>) -> Seq<char>
    decreases s.len(),
{
    if s.len() > 0 && is_white(s.last()) {
        trim_end_text(s.drop_last())
    } else {
        s
    }
}

/// The text without white space at either end, as `str::trim` leaves it.
pub open spec fn trim_text(s: Seq<char>) -> Seq<char> {
    trim_end_text(trim_start_text(s))
}

/// A text is blank exactly when trimming leaves nothing.
pub proof fn blank_iff_trims_to_nothing(s: Seq<char>)
    ensures
        is_blank_text(s) <==> trim_text(s).len() == 0,
    decreases s.len(),
{
    if s.len() > 0 {
        if is_white(s[0]) {
            blank_iff_trims_to_nothing(s.drop_first());
            if is_blank_text(s.drop_first()) {
                assert forall|i: int| 0 <= i < s.len() implies is_white(#[trigger] s[i]) by {
                    if i > 0 {
                        assert(s[i] == s.drop_first()[i - 1]);
                    }
                }
            }
            if is_blank_text(s) {
                assert forall|i: int| 0 <= i < s.drop_first().len() implies is_white(
                    #[trigger] s.drop_first()[i],
                ) by {
                    assert(s.drop_first()[i] == s[i + 1]);
                }
            }
        } else {
            trim_end_keeps_first(s);
        }
    }
}

/// Trimming the end of a text that starts with a non-white character keeps
/// that character.
proof fn trim_end_keeps_first(s: Seq<char>)
    requires
        s.len() > 0,
        !is_white(s[0]),
    ensures
        trim_end_text(s).len() > 0,
        trim_end_text(s)[0] == s[0],
    decreases s.len(),
{
    if is_white(s.last()) {
        assert(s.len() > 1);
        let d = s.drop_last();
        assert(d[0] == s[0]);
        trim_end_keeps_first(d);
    }
}

proof fn trim_start_step(s: Seq<char>, a: int)
    requires
        0 <= a < s.len(),
        is_white(s[a]),
    ensures
        trim_start_text(s.subrange(a, s.len() as int)) == trim_start_text(
            s.subrange(a + 1, s.len() as int),
        ),
{
    let t = s.subrange(a, s.len() as int);
    assert(t[0] == s[a]);
    assert(t.drop_first() =~= s.subrange(a + 1, s.len() as int));
}

proof fn trim_end_step(s: Seq<char>, a: int, b: int)
    requires
        0 <= a < b <= s.len(),
        is_white(s[b - 1]),
    ensures
        trim_end_text(s.subrange(a, b)) == trim_end_text(s.subrange(a, b - 1)),
{
    let t = s.subrange(a, b);
    assert(t.last() == s[b - 1]);
    assert(t.drop_last() =~= s.subrange(a, b - 1));
}

/// `s.trim()` as an owned string.
pub fn trimmed(s: &str) -> (r: String)
    ensures
        r@ == trim_text(s@),
{
    let n = s.unicode_len();
    let mut a: usize = 0;
    assert(s@.subrange(0, n as int) =~= s@);
    while a < n && is_white_char(s.get_char(a))
        invariant
            n == s@.len(),
            a <= n,
            trim_start_text(s@) == trim_start_text(s@.subrange(a as int, n as int)),
        decreases n - a,
    {
        proof {
            trim_start_step(s@, a as int);
        }
        a = a + 1;
    }
    let ghost start = s@.subrange(a as int, n as int);
    assert(trim_start_text(s@) == start) by {
        if a < n {
            assert(start[0] == s@[a as int]);
        }
    }
    let mut b: usize = n;
    while b > a && is_white_char(s.get_char(b - 1))
        invariant
            n == s@.len(),
            a <= b <= n,
            start == s@.subrange(a as int, n as int),
            trim_end_text(start) == trim_end_text(s@.subrange(a as int, b as int)),
        decreases b - a,
    {
        proof {
            trim_end_step(s@, a as int, b as int);
        }
        b = b - 1;
    }
    let ghost kept = s@.subrange(a as int, b as int);
    assert(trim_end_text(kept) == kept) by {
        if b > a {
            assert(kept.last() == s@[b - 1]);
        }
    }
    String::from_str(s.substring_char(a, b))
}

} // verus!
