//! Text helpers: joining argument lists and writing integers in decimal.
use vstd::prelude::*;
use vstd::string::StringExecFns;

verus! {

/// The character views of a sequence of strings.
pub open spec fn views(v: Seq<String>) -> Seq<Seq<char>> {
    v.map_values(|s: String| s@)
}

/// `parts` written one after the other with `sep` between each two.
pub open spec fn join(parts: Seq<Seq<char>>, sep: Seq<char>) -> Seq<char>
    decreases parts.len(),
{
    if parts.len() == 0 {
        Seq::empty()
    } else if parts.len() == 1 {
        parts[0]
    } else {
        join(parts.drop_last(), sep) + sep + parts.last()
    }
}

/// The decimal digit for `d < 10`.
pub open spec fn digit_char(d: nat) -> char {
    seq!['0', '1', '2', '3', '4', '5', '6', '7', '8', '9'][d as int]
}

/// `n` written in decimal, without leading zeros.
pub open spec fn decimal(n: nat) -> Seq<char>
    decreases n,
{
    if n < 10 {
        seq![digit_char(n)]
    } else {
        decimal(n / 10).push(digit_char(n % 10))
    }
}

/// An owned copy of `s`.
pub fn owned(s: &str) -> (r: String)
    ensures
        r@ == s@,
{
    String::from_str(s)
}

fn digit_str(d: u64) -> (r: &'static str)
    requires
        d < 10,
    ensures
        r@ == seq![digit_char(d as nat)],
{
    proof {
        reveal_strlit("0");
        reveal_strlit("1");
        reveal_strlit("2");
        reveal_strlit("3");
        reveal_strlit("4");
        reveal_strlit("5");
        reveal_strlit("6");
        reveal_strlit("7");
        reveal_strlit("8");
        reveal_strlit("9");
    }
    let r = if d == 0 {
        "0"
    } else if d == 1 {
        "1"
    } else if d == 2 {
        "2"
    } else if d == 3 {
        "3"
    } else if d == 4 {
        "4"
    } else if d == 5 {
        "5"
    } else if d == 6 {
        "6"
    } else if d == 7 {
        "7"
    } else if d == 8 {
        "8"
    } else {
        "9"
    };
    assert(r@ =~= seq![digit_char(d as nat)]);
    r
}

/// `n` in decimal.
pub fn decimal_string(n: u64) -> (r: String)
    ensures
        r@ == decimal(n as nat),
    decreases n,
{
    if n < 10 {
        owned(digit_str(n))
    } else {
        let mut s = decimal_string(n / 10);
        s.append(digit_str(n % 10));
        s
    }
}

/// `parts[start..]` joined with `sep`.
pub fn join_strings(parts: &Vec<String>, start: usize, sep: &str) -> (r: String)
    ensures
        start >= parts@.len() ==> r@.len() == 0,
        start < parts@.len() ==> r@ == join(views(parts@.subrange(start as int, parts@.len() as int)), sep@),
{
    let mut result = String::new();
    let mut i: usize = start;
    while i < parts.len()
        invariant
            start <= i,
            start < parts@.len() ==> i <= parts@.len(),
            start < parts@.len() ==> result@ == join(views(parts@.subrange(start as int, i as int)), sep@),
            start >= parts@.len() ==> result@.len() == 0,
        decreases parts@.len() - i,
    {
        let ghost prev = views(parts@.subrange(start as int, i as int));
        let ghost next = views(parts@.subrange(start as int, i + 1));
        assert(next.drop_last() =~= prev);
        assert(next.last() == parts@[i as int]@);
        if i > start {
            result.append(sep);
        } else {
            assert(prev.len() == 0);
            assert(result@ =~= Seq::<char>::empty());
        }
        result.append(parts[i].as_str());
        if i == start {
            assert(result@ =~= parts@[i as int]@);
        }
        i = i + 1;
    }
    result
}

/// Copies of `parts[start..]`.
pub fn copy_from(parts: &Vec<String>, start: usize) -> (r: Vec<String>)
    requires
        start <= parts@.len(),
    ensures
        views(r@) == views(parts@).subrange(start as int, parts@.len() as int),
{
    let mut r: Vec<String> = Vec::new();
    let mut i: usize = start;
    while i < parts.len()
        invariant
            start <= i <= parts@.len(),
            views(r@) == views(parts@).subrange(start as int, i as int),
        decreases parts@.len() - i,
    {
        let ghost before = r@;
        r.push(parts[i].clone());
        assert(r@ == before.push(parts@[i as int]));
        assert(views(r@) =~= views(before).push(parts@[i as int]@));
        assert(views(parts@)[i as int] == parts@[i as int]@);
        assert(views(r@) =~= views(parts@).subrange(start as int, i + 1));
        i = i + 1;
    }
    r
}

} // verus!
