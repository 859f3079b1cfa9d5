//! Small verified helpers on strings, shared by the other modules.

use vstd::prelude::*;

verus! {

/// `String::push` appends one character.
pub assume_specification[ String::push ](s: &mut String, c: char)
    ensures
        final(s)@ == old(s)@.push(c),
;

/// `str`'s `==` compares the two strings character by character.
pub assume_specification[ <str as PartialEq>::eq ](a: &str, b: &str) -> (r: bool)
    ensures
        r == (a@ == b@),
;

/// Whether two strings hold the same characters.
pub fn str_eq(a: &str, b: &str) -> (r: bool)
    ensures
        r == (a@ == b@),
{
    *a == *b
}

/// The characters of `s`, in order.
pub fn chars_of(s: &str) -> (v: Vec<char>)
    ensures
        v@ == s@,
{
    let mut v: Vec<char> = Vec::new();
    for c in it: s.chars()
        invariant
            it.seq() == s@,
            v@ == s@.take(it.index() as int),
    {
        v.push(c);
        assert(s@.take(it.index() + 1) =~= s@.take(it.index() as int).push(c));
    }
    assert(s@.take(s@.len() as int) =~= s@);
    v
}

/// Appends `v[from..]` to `out`.
fn push_chars(out: &mut String, v: &Vec<char>, from: usize)
    requires
        from <= v.len(),
    ensures
        final(out)@ == old(out)@ + v@.skip(from as int),
{
    let mut i: usize = from;
    while i < v.len()
        invariant
            from <= i <= v.len(),
            out@ == old(out)@ + v@.subrange(from as int, i as int),
        decreases v.len() - i,
    {
        out.push(v[i]);
        assert(v@.subrange(from as int, i + 1) =~= v@.subrange(from as int, i as int).push(
            v@[i as int],
        ));
        i += 1;
    }
    assert(v@.subrange(from as int, v@.len() as int) =~= v@.skip(from as int));
}

/// `a` followed by `b`.
pub fn followed_by(a: &str, b: &str) -> (s: String)
    ensures
        s@ == a@ + b@,
{
    let mut s = a.to_string();
    s.append(b);
    s
}

/// The character for one decimal digit.
pub open spec fn digit_char(d: int) -> char {
    (d + 48) as u8 as char
}

/// The decimal numeral of `n`, without sign or leading zeros.
pub open spec fn decimal(n: nat) -> Seq<char>
    decreases n,
{
    if n < 10 {
        seq![digit_char(n as int)]
    } else {
        decimal(n / 10).push(digit_char((n % 10) as int))
    }
}

/// Renders `n` in decimal.
pub fn decimal_string(n: u64) -> (s: String)
    ensures
        s@ == decimal(n as nat),
{
    // Digits come out least significant first; `rev` holds them in that order.
    let mut rev: Vec<char> = Vec::new();
    let mut rest: u64 = n;
    let ghost mut tail: Seq<char> = Seq::empty();
    while rest >= 10
        invariant
            decimal(n as nat) == decimal(rest as nat) + tail,
            rev@ == tail.reverse(),
        decreases rest,
    {
        let d: u8 = (rest % 10) as u8;
        let c: char = (d + 48) as char;
        proof {
            let ghost new_tail = seq![c] + tail;
            assert(decimal(rest as nat) == decimal((rest / 10) as nat).push(c));
            assert(decimal((rest / 10) as nat).push(c) + tail =~= decimal((rest / 10) as nat)
                + new_tail);
            assert(new_tail.reverse() =~= tail.reverse().push(c));
            tail = new_tail;
        }
        rev.push(c);
        rest = rest / 10;
    }
    let d: u8 = rest as u8;
    let c: char = (d + 48) as char;
    let mut s = String::new();
    s.push(c);
    let mut i: usize = rev.len();
    while i > 0
        invariant
            i <= rev.len(),
            rev@ == tail.reverse(),
            s@ == seq![c] + tail.take(rev.len() - i),
        decreases i,
    {
        i -= 1;
        s.push(rev[i]);
        assert(tail.take(rev.len() - i) =~= tail.take(rev.len() - i - 1).push(
            tail[rev.len() - i - 1],
        ));
    }
    assert(tail.take(tail.len() as int) =~= tail);
    s
}

/// The parts written one after another with `sep` between neighbours.
pub open spec fn join_with(parts: Seq<Seq<char>>, sep: Seq<char>) -> Seq<char>
    decreases parts.len(),
{
    if parts.len() == 0 {
        Seq::empty()
    } else if parts.len() == 1 {
        parts[0]
    } else {
        join_with(parts.drop_last(), sep) + sep + parts.last()
    }
}

/// The views of a vector of strings.
pub open spec fn views(v: Seq<String>) -> Seq<Seq<char>> {
    v.map_values(|s: String| s@)
}

/// Joins `parts` with `sep` between neighbours.
pub fn join(parts: &Vec<String>, sep: &str) -> (s: String)
    ensures
        s@ == join_with(views(parts@), sep@),
{
    let mut s = String::new();
    let mut i: usize = 0;
    while i < parts.len()
        invariant
            i <= parts.len(),
            s@ == join_with(views(parts@).take(i as int), sep@),
        decreases parts.len() - i,
    {
        let ghost before = views(parts@).take(i as int);
        let ghost after = views(parts@).take(i + 1);
        proof {
            assert(after.drop_last() =~= before);
            assert(after.last() == parts@[i as int]@);
        }
        if i > 0 {
            s.append(sep);
        } else {
            assert(s@ + parts@[0]@ =~= parts@[0]@);
        }
        s.append(parts[i].as_str());
        i += 1;
    }
    assert(views(parts@).take(parts@.len() as int) =~= views(parts@));
    s
}

/// How many copies of `c` open `s`.
pub open spec fn leading_run(s: Seq<char>, c: char) -> nat
    decreases s.len(),
{
    if s.len() > 0 && s[0] == c {
        1 + leading_run(s.drop_first(), c)
    } else {
        0
    }
}

/// `s` without the copies of `c` that open it.
pub open spec fn strip_leading(s: Seq<char>, c: char) -> Seq<char> {
    s.skip(leading_run(s, c) as int)
}

/// The run is the one prefix that is made of `c` alone and that is not
/// followed by another `c`.
pub proof fn lemma_leading_run_unique(s: Seq<char>, c: char, k: nat)
    requires
        k <= s.len(),
        forall|i: int| 0 <= i < k ==> s[i] == c,
        k < s.len() ==> s[k as int] != c,
    ensures
        leading_run(s, c) == k,
    decreases s.len(),
{
    if k > 0 {
        assert(s[0] == c);
        assert forall|i: int| 0 <= i < k - 1 implies s.drop_first()[i] == c by {
            assert(s.drop_first()[i] == s[i + 1]);
        }
        lemma_leading_run_unique(s.drop_first(), c, (k - 1) as nat);
    }
}

/// `s` without its leading slashes.
pub fn trim_leading_slashes(s: &str) -> (r: String)
    ensures
        r@ == strip_leading(s@, '/'),
{
    let v = chars_of(s);
    let mut k: usize = 0;
    while k < v.len() && v[k] == '/'
        invariant
            k <= v.len(),
            forall|i: int| 0 <= i < k ==> v@[i] == '/',
        decreases v.len() - k,
    {
        k += 1;
    }
    proof {
        lemma_leading_run_unique(v@, '/', k as nat);
    }
    let mut r = String::new();
    push_chars(&mut r, &v, k);
    r
}

/// Whether `s` holds a NUL character.
pub open spec fn has_nul(s: Seq<char>) -> bool {
    exists|i: int| 0 <= i < s.len() && s[i] == '\0'
}

/// Whether `s` holds a NUL character.
pub fn contains_nul(s: &str) -> (r: bool)
    ensures
        r == has_nul(s@),
{
    let mut found = false;
    for c in it: s.chars()
        invariant
            it.seq() == s@,
            found == has_nul(s@.take(it.index() as int)),
    {
        let ghost k = it.index() as int;
        proof {
            let ghost before = s@.take(k);
            let ghost after = s@.take(k + 1);
            if has_nul(before) {
                let j = choose|j: int| 0 <= j < before.len() && before[j] == '\0';
                assert(after[j] == '\0');
            }
            if c == '\0' {
                assert(after[k] == '\0');
            }
            if has_nul(after) {
                let j = choose|j: int| 0 <= j < after.len() && after[j] == '\0';
                if j < k {
                    assert(before[j] == '\0');
                }
            }
        }
        if c == '\0' {
            found = true;
        }
    }
    assert(s@.take(s@.len() as int) =~= s@);
    found
}

} // verus!
