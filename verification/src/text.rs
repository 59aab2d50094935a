use vstd::prelude::*;

verus! {

// ---------------------------------------------------------------------------
// Finding a separator character
// ---------------------------------------------------------------------------

/// Index of the first occurrence of `sep` in `s`, if any.
pub open spec fn find_char(s: Seq<char>, sep: char) -> Option<nat>
    decreases s.len(),
{
    if s.len() == 0 {
        None
    } else if s[0] == sep {
        Some(0)
    } else {
        match find_char(s.subrange(1, s.len() as int), sep) {
            None => None,
            Some(i) => Some((i + 1) as nat),
        }
    }
}

/// `find_char` returns the least index holding `sep`, or nothing when `sep`
/// does not occur at all.
pub proof fn lemma_find_char(s: Seq<char>, sep: char)
    ensures
        match find_char(s, sep) {
            Some(i) => i < s.len() && s[i as int] == sep && forall|j: int|
                0 <= j < i ==> s[j] != sep,
            None => forall|j: int| 0 <= j < s.len() ==> s[j] != sep,
        },
    decreases s.len(),
{
    if s.len() > 0 && s[0] != sep {
        let s1 = s.subrange(1, s.len() as int);
        lemma_find_char(s1, sep);
        match find_char(s1, sep) {
            None => {
                assert forall|j: int| 0 <= j < s.len() implies s[j] != sep by {
                    if j > 0 {
                        assert(s1[j - 1] != sep);
                    }
                }
            },
            Some(i) => {
                assert(s[i as int + 1] == s1[i as int]);
                assert forall|j: int| 0 <= j < i + 1 implies s[j] != sep by {
                    if j > 0 {
                        assert(s1[j - 1] != sep);
                    }
                }
            },
        }
    }
}

/// The characterization above pins the result down: knowing where the first
/// occurrence sits decides `find_char`.
pub proof fn lemma_find_char_is(s: Seq<char>, sep: char, k: int)
    requires
        0 <= k < s.len(),
        s[k] == sep,
        forall|j: int| 0 <= j < k ==> s[j] != sep,
    ensures
        find_char(s, sep) == Some(k as nat),
{
    lemma_find_char(s, sep);
    match find_char(s, sep) {
        None => {
            assert(false);
        },
        Some(i) => {
            if i < k {
                assert(s[i as int] == sep);
                assert(false);
            } else if k < i {
                assert(s[k] != sep);
                assert(false);
            }
        },
    }
}

/// And so does knowing that the separator is absent.
pub proof fn lemma_find_char_none(s: Seq<char>, sep: char)
    requires
        forall|j: int| 0 <= j < s.len() ==> s[j] != sep,
    ensures
        find_char(s, sep) == None::<nat>,
{
    lemma_find_char(s, sep);
    if let Some(i) = find_char(s, sep) {
        assert(s[i as int] == sep);
        assert(false);
    }
}

/// First index `i >= from` with `v[i] == sep`, scanning left to right.
pub fn vec_find_char(v: &Vec<char>, from: usize, sep: char) -> (r: Option<usize>)
    requires
        from <= v@.len(),
    ensures
        match r {
            Some(i) => from <= i < v@.len() && v@[i as int] == sep && forall|j: int|
                from <= j < i ==> v@[j] != sep,
            None => forall|j: int| from <= j < v@.len() ==> v@[j] != sep,
        },
{
    let mut i: usize = from;
    while i < v.len()
        invariant
            from <= i <= v@.len(),
            forall|j: int| from <= j < i ==> v@[j] != sep,
        decreases v@.len() - i,
    {
        if v[i] == sep {
            return Some(i);
        }
        i = i + 1;
    }
    None
}

// ---------------------------------------------------------------------------
// Splitting on a separator character
// ---------------------------------------------------------------------------

/// The segments of `s` between occurrences of `sep`. Splitting never yields
/// an empty sequence: a string without the separator is one segment.
pub open spec fn split_char(s: Seq<char>, sep: char) -> Seq<Seq<char>>
    decreases s.len(),
{
    match find_char(s, sep) {
        None => seq![s],
        Some(i) => if i < s.len() {
            seq![s.subrange(0, i as int)] + split_char(s.subrange(i as int + 1, s.len() as int), sep)
        } else {
            seq![s]
        },
    }
}

/// Split `v` on `sep`, yielding the segments in order.
pub fn vec_split_char(v: &Vec<char>, sep: char) -> (r: Vec<Vec<char>>)
    ensures
        r@.len() == split_char(v@, sep).len(),
        forall|i: int| 0 <= i < r@.len() ==> r@[i]@ == split_char(v@, sep)[i],
{
    let n = v.len();
    let mut out: Vec<Vec<char>> = Vec::new();
    let mut start: usize = 0;
    proof {
        assert(v@.subrange(0, v@.len() as int) =~= v@);
    }
    loop
        invariant
            n == v@.len(),
            start <= n,
            split_char(v@, sep).len() == out@.len() + split_char(
                v@.subrange(start as int, v@.len() as int),
                sep,
            ).len(),
            forall|i: int| 0 <= i < out@.len() ==> out@[i]@ == split_char(v@, sep)[i],
            forall|i: int|
                0 <= i < split_char(v@.subrange(start as int, v@.len() as int), sep).len()
                    ==> split_char(v@.subrange(start as int, v@.len() as int), sep)[i]
                    == split_char(v@, sep)[i + out@.len()],
        decreases v@.len() - start,
    {
        let ghost rest = v@.subrange(start as int, v@.len() as int);
        match vec_find_char(v, start, sep) {
            Some(i) => {
                let ghost rest2 = v@.subrange(i as int + 1, v@.len() as int);
                proof {
                    assert forall|j: int| 0 <= j < i - start implies rest[j] != sep by {
                        assert(rest[j] == v@[start + j]);
                    }
                    assert(rest[i - start] == v@[i as int]);
                    lemma_find_char_is(rest, sep, i - start);
                    assert(rest.subrange(0, i - start) =~= v@.subrange(start as int, i as int));
                    assert(rest.subrange(i - start + 1, rest.len() as int) =~= rest2);
                    assert(split_char(rest, sep) == seq![rest.subrange(0, i - start)] + split_char(
                        rest2,
                        sep,
                    ));
                }
                let mut seg: Vec<char> = Vec::new();
                let mut j: usize = start;
                while j < i
                    invariant
                        start <= j <= i < v@.len(),
                        seg@ == v@.subrange(start as int, j as int),
                    decreases i - j,
                {
                    seg.push(v[j]);
                    proof {
                        assert(seg@ =~= v@.subrange(start as int, j as int + 1));
                    }
                    j = j + 1;
                }
                proof {
                    let ghost old_len = out@.len() as int;
                    assert(seg@ == split_char(rest, sep)[0]);
                    assert(split_char(rest, sep)[0] == split_char(v@, sep)[old_len]);
                    assert forall|k: int| 0 <= k < split_char(rest2, sep).len() implies split_char(
                        rest2,
                        sep,
                    )[k] == split_char(v@, sep)[k + old_len + 1] by {
                        assert(split_char(rest, sep)[k + 1] == split_char(rest2, sep)[k]);
                        assert(split_char(rest, sep)[k + 1] == split_char(v@, sep)[k + 1
                            + old_len]);
                    }
                }
                out.push(seg);
                start = i + 1;
            },
            None => {
                proof {
                    assert forall|j: int| 0 <= j < rest.len() implies rest[j] != sep by {
                        assert(rest[j] == v@[start + j]);
                    }
                    lemma_find_char_none(rest, sep);
                    assert(split_char(rest, sep) == seq![rest]);
                }
                let mut seg: Vec<char> = Vec::new();
                let mut j: usize = start;
                while j < v.len()
                    invariant
                        start <= j <= v@.len(),
                        seg@ == v@.subrange(start as int, j as int),
                    decreases v@.len() - j,
                {
                    seg.push(v[j]);
                    proof {
                        assert(seg@ =~= v@.subrange(start as int, j as int + 1));
                    }
                    j = j + 1;
                }
                proof {
                    assert(seg@ =~= rest);
                    assert(split_char(rest, sep).len() == 1);
                    assert(split_char(rest, sep)[0] == split_char(v@, sep)[0 + out@.len() as int]);
                    assert(seg@ == split_char(v@, sep)[out@.len() as int]);
                }
                out.push(seg);
                return out;
            },
        }
    }
}

/// Copy of the characters of `v` from `a` (inclusive) to `b` (exclusive).
pub fn vec_subrange(v: &Vec<char>, a: usize, b: usize) -> (r: Vec<char>)
    requires
        a <= b <= v@.len(),
    ensures
        r@ == v@.subrange(a as int, b as int),
{
    let mut out: Vec<char> = Vec::new();
    let mut j: usize = a;
    while j < b
        invariant
            a <= j <= b <= v@.len(),
            out@ == v@.subrange(a as int, j as int),
        decreases b - j,
    {
        out.push(v[j]);
        proof {
            assert(out@ =~= v@.subrange(a as int, j as int + 1));
        }
        j = j + 1;
    }
    out
}

// ---------------------------------------------------------------------------
// Characters of a string
// ---------------------------------------------------------------------------

/// The characters of `s`, collected into a vector.
pub fn chars_of(s: &str) -> (r: Vec<char>)
    ensures
        r@ == s@,
{
    let n = s.unicode_len();
    let mut out: Vec<char> = Vec::new();
    let mut i: usize = 0;
    while i < n
        invariant
            i <= n,
            n == s@.len(),
            out@ == s@.subrange(0, i as int),
        decreases n - i,
    {
        let c = s.get_char(i);
        out.push(c);
        proof {
            assert(out@ =~= s@.subrange(0, i as int + 1));
        }
        i = i + 1;
    }
    proof {
        assert(s@.subrange(0, n as int) =~= s@);
    }
    out
}

// ---------------------------------------------------------------------------
// Decimal digit strings
// ---------------------------------------------------------------------------

pub open spec fn is_digit(c: char) -> bool {
    48 <= c as u32 <= 57
}

pub open spec fn digit_val(c: char) -> nat {
    (c as u32 - 48) as nat
}

/// Whether `s` is a non-empty string of decimal digits.
pub open spec fn all_digits(s: Seq<char>) -> bool {
    s.len() > 0 && forall|i: int| 0 <= i < s.len() ==> is_digit(#[trigger] s[i])
}

/// The numeric value of a digit string, most significant digit first.
pub open spec fn digits_val(s: Seq<char>) -> nat
    decreases s.len(),
{
    if s.len() == 0 {
        0
    } else {
        digits_val(s.drop_last()) * 10 + digit_val(s.last())
    }
}

/// The numeric code a token stands for: its digit value when the token is a
/// non-empty digit string, nothing otherwise.
pub open spec fn code_of(t: Seq<char>) -> Option<nat> {
    if all_digits(t) {
        Some(digits_val(t))
    } else {
        None
    }
}

/// Values are capped here: every recognized style code is far below the cap,
/// so a capped value below the cap is exact.
pub open spec fn capped(n: nat) -> nat {
    if n > 100000 {
        100000
    } else {
        n
    }
}

/// Parse a token as a decimal number, capping the value so that overlong
/// tokens cannot overflow. Returns nothing when the token is empty or holds a
/// non-digit.
pub fn parse_code(t: &Vec<char>) -> (r: Option<u32>)
    ensures
        match r {
            Some(v) => all_digits(t@) && v == capped(digits_val(t@)),
            None => !all_digits(t@),
        },
{
    if t.len() == 0 {
        proof {
            assert(!all_digits(t@));
        }
        return None;
    }
    let mut v: u32 = 0;
    let mut i: usize = 0;
    while i < t.len()
        invariant
            i <= t@.len(),
            t@.len() > 0,
            forall|j: int| 0 <= j < i ==> is_digit(#[trigger] t@[j]),
            v == capped(digits_val(t@.subrange(0, i as int))),
            v <= 100000,
        decreases t@.len() - i,
    {
        let c = t[i];
        let cu = c as u32;
        if cu < 48 || cu > 57 {
            proof {
                assert(!is_digit(t@[i as int]));
                assert(!all_digits(t@));
            }
            return None;
        }
        let d: u32 = cu - 48;
        proof {
            let pre = t@.subrange(0, i as int);
            let post = t@.subrange(0, i as int + 1);
            assert(post.drop_last() =~= pre);
            assert(post.last() == t@[i as int]);
            assert(digits_val(post) == digits_val(pre) * 10 + digit_val(t@[i as int]));
        }
        if v >= 10000 {
            v = 100000;
        } else {
            v = v * 10 + d;
        }
        i = i + 1;
    }
    proof {
        assert(t@.subrange(0, t@.len() as int) =~= t@);
    }
    Some(v)
}

/// A capped value below the cap is the value itself.
pub proof fn lemma_capped_small(n: nat, c: nat)
    requires
        capped(n) == c,
        c < 100000,
    ensures
        n == c,
{
}

} // verus!
