use vstd::prelude::*;
use vstd::string::StrSliceExecFns;

verus! {

/// The character of a decimal digit.
pub open spec fn digit_char(d: nat) -> char {
    if d == 0 { '0' }
    else if d == 1 { '1' }
    else if d == 2 { '2' }
    else if d == 3 { '3' }
    else if d == 4 { '4' }
    else if d == 5 { '5' }
    else if d == 6 { '6' }
    else if d == 7 { '7' }
    else if d == 8 { '8' }
    else { '9' }
}

/// The decimal representation of a natural number, without leading zeros.
pub open spec fn decimal(n: nat) -> Seq<char>
    decreases n,
{
    if n < 10 {
        seq![digit_char(n)]
    } else {
        decimal(n / 10).push(digit_char(n % 10))
    }
}

fn digit_str(d: u64) -> (s: &'static str)
    requires
        d < 10,
    ensures
        s@ == seq![digit_char(d as nat)],
{
    proof {
        reveal_strlit("0");
        reveal_strlit("1");
        reveal_strlit("2");
        reveal_strlit("3");
        reveal_strlit("4");
        reveal_strlit("5");
        reveal_strlit("6");
        reveal_strlit("7");
        reveal_strlit("8");
        reveal_strlit("9");
    }
    let s = if d == 0 { "0" }
    else if d == 1 { "1" }
    else if d == 2 { "2" }
    else if d == 3 { "3" }
    else if d == 4 { "4" }
    else if d == 5 { "5" }
    else if d == 6 { "6" }
    else if d == 7 { "7" }
    else if d == 8 { "8" }
    else { "9" };
    assert(s@ =~= seq![digit_char(d as nat)]);
    s
}

/// Writes `n` in decimal, as `to_string` does for an unsigned integer.
pub fn u64_to_decimal(n: u64) -> (s: String)
    ensures
        s@ == decimal(n as nat),
    decreases n,
{
    if n < 10 {
        String::from_str(digit_str(n))
    } else {
        let mut s = u64_to_decimal(n / 10);
        s.append(digit_str(n % 10));
        s
    }
}


/// The decimal numbers of a list, separated by a comma and a space.
pub open spec fn join_decimals(ids: Seq<u32>) -> Seq<char>
    decreases ids.len(),
{
    if ids.len() == 0 {
        Seq::empty()
    } else if ids.len() == 1 {
        decimal(ids[0] as nat)
    } else {
        join_decimals(ids.drop_last()) + ", "@ + decimal(ids.last() as nat)
    }
}

/// A list of numbers written as Rust's `{:?}` writes a `Vec<u32>`: `[1, 2, 3]`.
pub open spec fn debug_list(ids: Seq<u32>) -> Seq<char> {
    "["@ + join_decimals(ids) + "]"@
}

/// Writes a list of numbers as `[1, 2, 3]`.
pub fn u32_list_debug(ids: &Vec<u32>) -> (s: String)
    ensures
        s@ == debug_list(ids@),
{
    let mut s = String::from_str("[");
    let mut i: usize = 0;
    while i < ids.len()
        invariant
            i <= ids@.len(),
            s@ == "["@ + join_decimals(ids@.take(i as int)),
        decreases ids@.len() - i,
    {
        let ghost before = s@;
        if i > 0 {
            s.append(", ");
        }
        let d = u64_to_decimal(ids[i] as u64);
        s.append(d.as_str());
        proof {
            let t = ids@.take(i + 1);
            assert(t.drop_last() =~= ids@.take(i as int));
            assert(t.last() == ids@[i as int]);
            if i == 0 {
                assert(t.len() == 1);
                assert(s@ =~= "["@ + join_decimals(t));
            } else {
                assert(s@ =~= "["@ + join_decimals(t));
            }
        }
        i += 1;
    }
    assert(ids@.take(ids@.len() as int) =~= ids@);
    s.append("]");
    s
}

/// A letter of the ASCII alphabet.
pub open spec fn is_ascii_alpha(c: char) -> bool {
    ('a' <= c && c <= 'z') || ('A' <= c && c <= 'Z')
}

/// A character that may follow the first letter of a URI scheme.
pub open spec fn is_scheme_char(c: char) -> bool {
    is_ascii_alpha(c) || ('0' <= c && c <= '9') || c == '+' || c == '-' || c == '.'
}

/// The text starts with a URI scheme: a letter, then letters, digits, `+`,
/// `-` or `.`, then a colon (as in `ipfs:` or `https:`).
pub open spec fn has_uri_scheme(s: Seq<char>) -> bool {
    exists|k: int|
        #![trigger s[k]]
        1 <= k < s.len() && s[k] == ':' && is_ascii_alpha(s[0]) && (forall|j: int|
            1 <= j < k ==> is_scheme_char(#[trigger] s[j]))
}

/// Whether the text starts with a URI scheme.
pub fn starts_with_uri_scheme(text: &String) -> (b: bool)
    ensures
        b == has_uri_scheme(text@),
{
    let s = text.as_str();
    let len: usize = s.unicode_len();
    if len == 0 {
        return false;
    }
    let c0 = s.get_char(0);
    if !(('a' <= c0 && c0 <= 'z') || ('A' <= c0 && c0 <= 'Z')) {
        return false;
    }
    let mut i: usize = 1;
    while i < len
        invariant
            1 <= i <= len,
            len == text@.len(),
            s@ == text@,
            forall|j: int| 1 <= j < i ==> is_scheme_char(#[trigger] text@[j]),
        ensures
            1 <= i <= len,
            forall|j: int| 1 <= j < i ==> is_scheme_char(#[trigger] text@[j]),
            i < len ==> !is_scheme_char(text@[i as int]),
        decreases len - i,
    {
        let c = s.get_char(i);
        if !(('a' <= c && c <= 'z') || ('A' <= c && c <= 'Z') || ('0' <= c && c <= '9') || c == '+'
            || c == '-' || c == '.') {
            break;
        }
        i += 1;
    }
    if i < len && s.get_char(i) == ':' {
        assert(is_ascii_alpha(text@[0]));
        return true;
    }
    proof {
        if has_uri_scheme(text@) {
            let k = choose|k: int|
                #![trigger text@[k]]
                1 <= k < text@.len() && text@[k] == ':' && is_ascii_alpha(text@[0]) && (forall|j: int|
                    1 <= j < k ==> is_scheme_char(#[trigger] text@[j]));
            if k < i {
                assert(is_scheme_char(text@[k]));
            } else if k > i {
                assert(is_scheme_char(text@[i as int]));
            }
        }
    }
    false
}

} // verus!
