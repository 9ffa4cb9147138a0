//! Character-level text utilities: case normalization for option keys and
//! format names, and a lexicographic order used to keep marshalled metadata
//! in a stable shape.

use vstd::prelude::*;

verus! {

/// The uppercase form of one character: ASCII lowercase letters map to their
/// uppercase counterparts, every other character is unchanged.
///
/// Case normalization here is deliberately ASCII-only: every recognized
/// option key and every catalog name is ASCII, so only ASCII case variants
/// of them are meaningful, and an exact, fully stated rule is preferred over
/// Unicode case mapping, which could not be pinned down in a contract.
pub open spec fn upper_char(c: char) -> char {
    if 'a' <= c && c <= 'z' {
        ((c as int) - 32) as char
    } else {
        c
    }
}

/// Case normalization of a whole string: every character uppercased.
pub open spec fn upper(s: Seq<char>) -> Seq<char> {
    s.map_values(|c: char| upper_char(c))
}

/// Uppercases one character.
pub fn upper_char_exec(c: char) -> (r: char)
    ensures
        r == upper_char(c),
{
    if 'a' <= c && c <= 'z' {
        let b: u8 = c as u8;
        (b - 32) as char
    } else {
        c
    }
}

/// The decimal digit character for one value below ten.
pub open spec fn dec_digit(d: nat) -> char {
    (48 + d) as char
}

/// The decimal rendering of a number, most significant digit first.
pub open spec fn dec_of(n: nat) -> Seq<char>
    decreases n,
{
    if n < 10 {
        seq![dec_digit(n)]
    } else {
        dec_of(n / 10).push(dec_digit(n % 10))
    }
}

/// One decimal digit as a string.
fn dec_digit_str(d: usize) -> (r: &'static str)
    requires
        d < 10,
    ensures
        r@ == seq![dec_digit(d as nat)],
{
    if d == 0 {
        proof {
            reveal_strlit("0");
            assert("0"@ =~= seq![dec_digit(0)]);
        }
        "0"
    } else if d == 1 {
        proof {
            reveal_strlit("1");
            assert("1"@ =~= seq![dec_digit(1)]);
        }
        "1"
    } else if d == 2 {
        proof {
            reveal_strlit("2");
            assert("2"@ =~= seq![dec_digit(2)]);
        }
        "2"
    } else if d == 3 {
        proof {
            reveal_strlit("3");
            assert("3"@ =~= seq![dec_digit(3)]);
        }
        "3"
    } else if d == 4 {
        proof {
            reveal_strlit("4");
            assert("4"@ =~= seq![dec_digit(4)]);
        }
        "4"
    } else if d == 5 {
        proof {
            reveal_strlit("5");
            assert("5"@ =~= seq![dec_digit(5)]);
        }
        "5"
    } else if d == 6 {
        proof {
            reveal_strlit("6");
            assert("6"@ =~= seq![dec_digit(6)]);
        }
        "6"
    } else if d == 7 {
        proof {
            reveal_strlit("7");
            assert("7"@ =~= seq![dec_digit(7)]);
        }
        "7"
    } else if d == 8 {
        proof {
            reveal_strlit("8");
            assert("8"@ =~= seq![dec_digit(8)]);
        }
        "8"
    } else {
        proof {
            reveal_strlit("9");
            assert("9"@ =~= seq![dec_digit(9)]);
        }
        "9"
    }
}

/// Renders a number in decimal.
pub fn usize_to_string(n: usize) -> (r: String)
    ensures
        r@ == dec_of(n as nat),
{
    let mut acc = String::new();
    let mut m = n;
    loop
        invariant_except_break
            (acc@ == Seq::<char>::empty() && m == n) || (m > 0 && dec_of(n as nat) == dec_of(
                m as nat,
            ) + acc@),
        ensures
            dec_of(n as nat) == acc@,
        decreases m,
    {
        let ghost pre_m = m as nat;
        let ghost pre_acc = acc@;
        let d = m % 10;
        let digit = dec_digit_str(d);
        acc = String::from_str(digit).concat(acc.as_str());
        proof {
            assert(acc@ =~= seq![dec_digit(pre_m % 10)] + pre_acc);
            if pre_m < 10 {
                assert(dec_of(pre_m) =~= seq![dec_digit(pre_m)]);
                assert(dec_of(n as nat) =~= dec_of(pre_m) + pre_acc || (pre_acc
                    =~= Seq::<char>::empty() && pre_m == n));
            } else {
                assert(dec_of(pre_m) =~= dec_of(pre_m / 10).push(dec_digit(pre_m % 10)));
                assert(dec_of(pre_m / 10).push(dec_digit(pre_m % 10)) =~= dec_of(pre_m / 10)
                    + seq![dec_digit(pre_m % 10)]);
            }
        }
        m = m / 10;
        proof {
            if pre_m < 10 {
                assert(m == 0);
                assert(dec_of(n as nat) =~= acc@);
            } else {
                assert(m as nat == pre_m / 10);
                assert(dec_of(n as nat) =~= dec_of(m as nat) + acc@);
            }
        }
        if m == 0 {
            break;
        }
    }
    acc
}

/// Whether two strings hold the same characters.
pub fn str_eq(s: &str, t: &str) -> (r: bool)
    ensures
        r == (s@ == t@),
{
    let n = s.unicode_len();
    let m = t.unicode_len();
    if n != m {
        return false;
    }
    let mut i: usize = 0;
    while i < n
        invariant
            n == s@.len(),
            n == t@.len(),
            i <= n,
            forall|j: int| 0 <= j < i ==> s@[j] == t@[j],
        decreases n - i,
    {
        let c = s.get_char(i);
        let d = t.get_char(i);
        if c != d {
            return false;
        }
        i = i + 1;
    }
    proof {
        assert(s@ =~= t@);
    }
    true
}

/// Whether `s`, uppercased, equals the already-canonical string `t`.
pub fn eq_upper(s: &str, t: &str) -> (r: bool)
    ensures
        r == (upper(s@) == t@),
{
    proof {
        assert(upper(s@).len() == s@.len());
    }
    let n = s.unicode_len();
    let m = t.unicode_len();
    if n != m {
        return false;
    }
    let mut i: usize = 0;
    while i < n
        invariant
            n == s@.len(),
            n == t@.len(),
            i <= n,
            forall|j: int| 0 <= j < i ==> upper(s@)[j] == t@[j],
        decreases n - i,
    {
        let c = s.get_char(i);
        let d = t.get_char(i);
        if upper_char_exec(c) != d {
            proof {
                assert(upper(s@)[i as int] != t@[i as int]);
            }
            return false;
        }
        i = i + 1;
    }
    proof {
        assert(upper(s@) =~= t@);
    }
    true
}

} // verus!
