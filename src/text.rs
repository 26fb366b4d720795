use vstd::prelude::*;

verus! {

/// The characters of `s`, in order.
pub fn chars_of(s: &str) -> (r: Vec<char>)
    ensures
        r@ == s@,
{
    let mut out: Vec<char> = Vec::new();
    for c in it: s.chars()
        invariant
            out@ == it.seq().take(it.index() as int),
    {
        out.push(c);
    }
    out
}

/// Whether two string slices hold the same characters.
pub fn same_text(a: &str, b: &str) -> (r: bool)
    ensures
        r == (a@ == b@),
{
    let x = chars_of(a);
    let y = chars_of(b);
    if x.len() != y.len() {
        return false;
    }
    let mut i: usize = 0;
    while i < x.len()
        invariant
            x@ == a@,
            y@ == b@,
            x@.len() == y@.len(),
            i <= x@.len(),
            forall|k: int| 0 <= k < i ==> x@[k] == y@[k],
        decreases x@.len() - i,
    {
        if x[i] != y[i] {
            assert(x@[i as int] != y@[i as int]);
            return false;
        }
        i = i + 1;
    }
    assert(x@ =~= y@);
    true
}

/// Unicode white space, as `char::is_whitespace` defines it.
pub open spec fn is_space(c: char) -> bool {
    let u = c as u32;
    (0x9 <= u && u <= 0xd) || u == 0x20 || u == 0x85 || u == 0xa0 || u == 0x1680 || (0x2000
        <= u && u <= 0x200a) || u == 0x2028 || u == 0x2029 || u == 0x202f || u == 0x205f || u
        == 0x3000
}

pub fn char_is_space(c: char) -> (r: bool)
    ensures
        r == is_space(c),
{
    let u = c as u32;
    (0x9 <= u && u <= 0xd) || u == 0x20 || u == 0x85 || u == 0xa0 || u == 0x1680 || (0x2000
        <= u && u <= 0x200a) || u == 0x2028 || u == 0x2029 || u == 0x202f || u == 0x205f || u
        == 0x3000
}

pub open spec fn all_space(s: Seq<char>) -> bool {
    forall|i: int| 0 <= i < s.len() ==> is_space(#[trigger] s[i])
}

/// `s` without its leading white space.
pub open spec fn trim_start(s: Seq<char>) -> Seq<char>
    decreases s.len(),
{
    if s.len() > 0 && is_space(s[0]) {
        trim_start(s.drop_first())
    } else {
        s
    }
}

/// `s` without its trailing white space.
pub open spec fn trim_end(s: Seq<char>) -> Seq<char>
    decreases s.len(),
{
    if s.len() > 0 && is_space(s.last()) {
        trim_end(s.drop_last())
    } else {
        s
    }
}

/// `s` without white space at either end, as `str::trim` gives it.
pub open spec fn trimmed(s: Seq<char>) -> Seq<char> {
    trim_end(trim_start(s))
}

/// A text with no white space at either end.
pub open spec fn is_canonical(s: Seq<char>) -> bool {
    trimmed(s) == s
}

/// The verdict rule: the program's output, trimmed, equals the expected output exactly.
pub open spec fn output_matches(actual: Seq<char>, expected: Seq<char>) -> bool {
    trimmed(actual) == expected
}

proof fn lemma_trim_start_from(s: Seq<char>, i: int)
    requires
        0 <= i < s.len(),
        is_space(s[i]),
    ensures
        trim_start(s.subrange(i, s.len() as int)) == trim_start(s.subrange(i + 1, s.len() as int)),
{
    let t = s.subrange(i, s.len() as int);
    assert(t.drop_first() =~= s.subrange(i + 1, s.len() as int));
}

proof fn lemma_trim_end_upto(s: Seq<char>, j: int)
    requires
        0 < j <= s.len(),
        is_space(s[j - 1]),
    ensures
        trim_end(s.subrange(0, j)) == trim_end(s.subrange(0, j - 1)),
{
    let t = s.subrange(0, j);
    assert(t.drop_last() =~= s.subrange(0, j - 1));
}

/// The character positions `(b, e)` such that `s[b..e]` is `s` trimmed.
pub fn trim_bounds(s: &Vec<char>) -> (r: (usize, usize))
    ensures
        r.0 <= r.1 <= s@.len(),
        s@.subrange(r.0 as int, r.1 as int) == trimmed(s@),
{
    let n = s.len();
    let mut b: usize = 0;
    assert(s@.subrange(0, n as int) =~= s@);
    while b < n && char_is_space(s[b])
        invariant
            b <= n == s@.len(),
            trim_start(s@) == trim_start(s@.subrange(b as int, n as int)),
        decreases n - b,
    {
        proof {
            lemma_trim_start_from(s@, b as int);
        }
        b = b + 1;
    }
    let ghost front = s@.subrange(b as int, n as int);
    assert(trim_start(s@) == front);
    let mut e: usize = n;
    while e > b && char_is_space(s[e - 1])
        invariant
            b <= e <= n == s@.len(),
            front == s@.subrange(b as int, n as int),
            trim_end(front) == trim_end(s@.subrange(b as int, e as int)),
        decreases e - b,
    {
        proof {
            let u = s@.subrange(b as int, e as int);
            lemma_trim_end_upto(u, (e - b) as int);
            assert(u.subrange(0, (e - b) as int) =~= u);
            assert(u.subrange(0, (e - b - 1) as int) =~= s@.subrange(b as int, e - 1));
        }
        e = e - 1;
    }
    (b, e)
}

/// Whether the program's output, with white space at both ends removed, is exactly the
/// expected output.
pub fn outputs_match(actual: &str, expected: &str) -> (r: bool)
    ensures
        r == output_matches(actual@, expected@),
{
    let a = chars_of(actual);
    let x = chars_of(expected);
    let (b, e) = trim_bounds(&a);
    if e - b != x.len() {
        return false;
    }
    let mut i: usize = 0;
    while i < x.len()
        invariant
            b <= e <= a@.len(),
            e - b == x@.len(),
            a@.subrange(b as int, e as int) == trimmed(a@),
            a@ == actual@,
            x@ == expected@,
            i <= x@.len(),
            forall|k: int| 0 <= k < i ==> a@[b + k] == x@[k],
        decreases x@.len() - i,
    {
        if a[b + i] != x[i] {
            assert(trimmed(a@)[i as int] != x@[i as int]);
            assert(trimmed(a@) != x@);
            return false;
        }
        i = i + 1;
    }
    assert(a@.subrange(b as int, e as int) =~= x@);
    true
}

/// What `trim_start` removes is a run of white space at the front.
proof fn lemma_trim_start_shape(s: Seq<char>) -> (k: int)
    ensures
        0 <= k <= s.len(),
        trim_start(s) == s.subrange(k, s.len() as int),
        all_space(s.subrange(0, k)),
        k < s.len() ==> !is_space(s[k]),
    decreases s.len(),
{
    if s.len() > 0 && is_space(s[0]) {
        let k1 = lemma_trim_start_shape(s.drop_first());
        let k = k1 + 1;
        assert(s.drop_first().subrange(k1, s.drop_first().len() as int) =~= s.subrange(
            k,
            s.len() as int,
        ));
        assert forall|i: int| 0 <= i < k implies is_space(#[trigger] s.subrange(0, k)[i]) by {
            if i > 0 {
                assert(s.subrange(0, k)[i] == s.drop_first().subrange(0, k1)[i - 1]);
            }
        }
        k
    } else {
        assert(s.subrange(0, s.len() as int) =~= s);
        0
    }
}

/// What `trim_end` removes is a run of white space at the back.
proof fn lemma_trim_end_shape(s: Seq<char>) -> (j: int)
    ensures
        0 <= j <= s.len(),
        trim_end(s) == s.subrange(0, j),
        all_space(s.subrange(j, s.len() as int)),
        j > 0 ==> !is_space(s[j - 1]),
    decreases s.len(),
{
    if s.len() > 0 && is_space(s.last()) {
        let j = lemma_trim_end_shape(s.drop_last());
        assert(s.drop_last().subrange(0, j) =~= s.subrange(0, j));
        assert forall|i: int|
            0 <= i < s.len() - j implies is_space(#[trigger] s.subrange(j, s.len() as int)[i]) by {
            if i < s.len() - 1 - j {
                assert(s.subrange(j, s.len() as int)[i] == s.drop_last().subrange(
                    j,
                    s.drop_last().len() as int,
                )[i]);
            }
        }
        j
    } else {
        assert(s.subrange(0, s.len() as int) =~= s);
        s.len() as int
    }
}

proof fn lemma_trim_start_skips_space(l: Seq<char>, x: Seq<char>)
    requires
        all_space(l),
    ensures
        trim_start(l + x) == trim_start(x),
    decreases l.len(),
{
    if l.len() > 0 {
        assert((l + x).drop_first() =~= l.drop_first() + x);
        lemma_trim_start_skips_space(l.drop_first(), x);
    } else {
        assert(l + x =~= x);
    }
}

proof fn lemma_trim_end_skips_space(x: Seq<char>, t: Seq<char>)
    requires
        all_space(t),
    ensures
        trim_end(x + t) == trim_end(x),
    decreases t.len(),
{
    if t.len() > 0 {
        assert((x + t).drop_last() =~= x + t.drop_last());
        lemma_trim_end_skips_space(x, t.drop_last());
    } else {
        assert(x + t =~= x);
    }
}

/// A canonical text that is not empty starts and ends with a character that is not white space.
proof fn lemma_canonical_ends(e: Seq<char>)
    requires
        is_canonical(e),
        e.len() > 0,
    ensures
        !is_space(e[0]),
        !is_space(e.last()),
{
    let k = lemma_trim_start_shape(e);
    let ts = e.subrange(k, e.len() as int);
    let j = lemma_trim_end_shape(ts);
    assert(trimmed(e) == ts.subrange(0, j));
    assert(k == 0 && j == e.len());
    assert(ts[j - 1] == e.last());
}

/// Output that is the expected text with white space around it is accepted: blank lines and
/// spaces before or after the answer never turn it into a wrong answer.
pub proof fn lemma_surrounding_space_ignored(lead: Seq<char>, expected: Seq<char>, trail: Seq<char>)
    requires
        is_canonical(expected),
        all_space(lead),
        all_space(trail),
    ensures
        output_matches(lead + expected + trail, expected),
{
    let x = expected + trail;
    assert(lead + expected + trail =~= lead + x);
    lemma_trim_start_skips_space(lead, x);
    if expected.len() == 0 {
        assert(x =~= trail + Seq::<char>::empty());
        lemma_trim_start_skips_space(trail, Seq::<char>::empty());
        assert(trim_start(Seq::<char>::empty()) == Seq::<char>::empty());
        assert(trim_end(Seq::<char>::empty()) == Seq::<char>::empty());
        assert(expected =~= Seq::<char>::empty());
    } else {
        lemma_canonical_ends(expected);
        assert(x[0] == expected[0]);
        assert(trim_start(x) == x);
        lemma_trim_end_skips_space(expected, trail);
        assert(trim_end(expected) == expected);
    }
}

/// Comparing a well-formed output with itself accepts it.
pub proof fn lemma_compare_reflexive(a: Seq<char>)
    requires
        is_canonical(a),
    ensures
        output_matches(a, a),
{
}

/// Against a canonical expected text, an output is accepted exactly when it is that text with
/// white space before and after it; any other difference is a wrong answer.
pub proof fn lemma_accepted_iff_padded(actual: Seq<char>, expected: Seq<char>)
    requires
        is_canonical(expected),
    ensures
        output_matches(actual, expected) <==> exists|lead: Seq<char>, trail: Seq<char>|
            all_space(lead) && all_space(trail) && actual == lead + expected + trail,
{
    if output_matches(actual, expected) {
        let k = lemma_trim_start_shape(actual);
        let ts = actual.subrange(k, actual.len() as int);
        let j = lemma_trim_end_shape(ts);
        let lead = actual.subrange(0, k);
        let trail = ts.subrange(j, ts.len() as int);
        assert(actual =~= lead + ts.subrange(0, j) + trail);
        assert(all_space(lead) && all_space(trail) && actual == lead + expected + trail);
    }
    if exists|lead: Seq<char>, trail: Seq<char>|
        all_space(lead) && all_space(trail) && actual == lead + expected + trail {
        let (lead, trail) = choose|lead: Seq<char>, trail: Seq<char>|
            all_space(lead) && all_space(trail) && actual == lead + expected + trail;
        lemma_surrounding_space_ignored(lead, expected, trail);
    }
}

} // verus!
