use vstd::prelude::*;
use vstd::string::*;

verus! {

/// The decimal digit for `d`, which is below ten.
pub open spec fn digit(d: nat) -> char {
    if d == 0 { '0' }
    else if d == 1 { '1' }
    else if d == 2 { '2' }
    else if d == 3 { '3' }
    else if d == 4 { '4' }
    else if d == 5 { '5' }
    else if d == 6 { '6' }
    else if d == 7 { '7' }
    else if d == 8 { '8' }
    else { '9' }
}

/// The decimal notation of `n`, without sign or leading zeros.
pub open spec fn decimal(n: nat) -> Seq<char>
    decreases n,
{
    if n < 10 {
        seq![digit(n)]
    } else {
        decimal(n / 10) + seq![digit(n % 10)]
    }
}

/// The empty literal holds no character.
pub proof fn reveal_empty()
    ensures
        ""@ == Seq::<char>::empty(),
{
    reveal_strlit("");
}

/// Fresh string holding the text of `s`.
pub fn owned(s: &str) -> (r: String)
    ensures
        r@ == s@,
{
    String::from_str(s)
}

/// `a` and `b` written one after the other.
pub fn join2(a: &str, b: &str) -> (r: String)
    ensures
        r@ == a@ + b@,
{
    let mut r = String::from_str(a);
    r.append(b);
    r
}

/// `a`, `b` and `c` written one after the other.
pub fn join3(a: &str, b: &str, c: &str) -> (r: String)
    ensures
        r@ == a@ + b@ + c@,
{
    let mut r = String::from_str(a);
    r.append(b);
    r.append(c);
    r
}

fn digit_text(d: usize) -> (r: &'static str)
    requires
        d < 10,
    ensures
        r@ == seq![digit(d as nat)],
{
    if d == 0 {
        proof { reveal_strlit("0"); }
        "0"
    } else if d == 1 {
        proof { reveal_strlit("1"); }
        "1"
    } else if d == 2 {
        proof { reveal_strlit("2"); }
        "2"
    } else if d == 3 {
        proof { reveal_strlit("3"); }
        "3"
    } else if d == 4 {
        proof { reveal_strlit("4"); }
        "4"
    } else if d == 5 {
        proof { reveal_strlit("5"); }
        "5"
    } else if d == 6 {
        proof { reveal_strlit("6"); }
        "6"
    } else if d == 7 {
        proof { reveal_strlit("7"); }
        "7"
    } else if d == 8 {
        proof { reveal_strlit("8"); }
        "8"
    } else {
        proof { reveal_strlit("9"); }
        "9"
    }
}

/// The decimal notation of `n`, as `n.to_string()` writes it.
pub fn decimal_text(n: usize) -> (r: String)
    ensures
        r@ == decimal(n as nat),
    decreases n,
{
    if n < 10 {
        String::from_str(digit_text(n))
    } else {
        let mut r = decimal_text(n / 10);
        r.append(digit_text(n % 10));
        r
    }
}

/// Splits `s` at its first colon: the text before it and the text after it,
/// or `None` where `s` holds no colon.
pub open spec fn split_at_colon(s: Seq<char>) -> Option<(Seq<char>, Seq<char>)> {
    match s.index_of_first(':') {
        Some(i) => Some((s.take(i), s.skip(i + 1))),
        None => None,
    }
}

/// The text before and after the first colon of `s` (`str::split_once(':')`).
pub fn split_once_colon(s: &str) -> (r: Option<(String, String)>)
    ensures
        match r {
            Some((name, value)) => split_at_colon(s@) == Some((name@, value@)),
            None => split_at_colon(s@) is None,
        },
{
    let len = s.unicode_len();
    let mut i: usize = 0;
    while i < len
        invariant
            len == s@.len(),
            i <= len,
            forall|j: int| 0 <= j < i ==> s@[j] != ':',
        decreases len - i,
    {
        if s.get_char(i) == ':' {
            proof {
                s@.index_of_first_ensures(':');
                assert(s@.contains(':'));
            }
            let name = String::from_str(s.substring_char(0, i));
            let value = String::from_str(s.substring_char(i + 1, len));
            proof {
                assert(s@.take(i as int) =~= s@.subrange(0, i as int));
                assert(s@.skip(i + 1) =~= s@.subrange(i + 1, len as int));
            }
            return Some((name, value));
        }
        i = i + 1;
    }
    proof {
        s@.index_of_first_ensures(':');
    }
    None
}

/// The colon split gives back its input: the name, a colon and the value.
pub proof fn lemma_split_rejoins(s: Seq<char>)
    requires
        split_at_colon(s) is Some,
    ensures
        ({
            let (name, value) = split_at_colon(s).unwrap();
            &&& s == name + seq![':'] + value
            &&& !name.contains(':')
        }),
{
    s.index_of_first_ensures(':');
    let i = s.index_of_first(':').unwrap();
    assert(s =~= s.take(i) + seq![':'] + s.skip(i + 1));
}

/// A name that holds no colon, joined to any value by a colon, splits back
/// into that name and that value.
pub proof fn lemma_split_of_join(name: Seq<char>, value: Seq<char>)
    requires
        !name.contains(':'),
    ensures
        split_at_colon(name + seq![':'] + value) == Some((name, value)),
{
    let s = name + seq![':'] + value;
    s.index_of_first_ensures(':');
    assert(s[name.len() as int] == ':');
    assert(s.contains(':'));
    let i = s.index_of_first(':').unwrap();
    if i < name.len() {
        assert(name[i] == ':');
    }
    assert(i == name.len());
    assert(s.take(i) =~= name);
    assert(s.skip(i + 1) =~= value);
}

} // verus!
