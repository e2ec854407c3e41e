//! Verified plain-text building blocks: decimal rendering of unsigned
//! integers, left-padding to a fixed width, and comma-joined number lists.

use vstd::prelude::*;
use vstd::string::StrSliceExecFns;
use vstd::string::StringExecFns;

verus! {

/// The character for a single decimal digit.
pub open spec fn digit_char(d: int) -> char {
    if d == 0 {
        '0'
    } else if d == 1 {
        '1'
    } else if d == 2 {
        '2'
    } else if d == 3 {
        '3'
    } else if d == 4 {
        '4'
    } else if d == 5 {
        '5'
    } else if d == 6 {
        '6'
    } else if d == 7 {
        '7'
    } else if d == 8 {
        '8'
    } else {
        '9'
    }
}

/// The decimal representation of `n`, most significant digit first.
pub open spec fn dec_rep(n: nat) -> Seq<char>
    decreases n,
{
    if n < 10 {
        seq![digit_char(n as int)]
    } else {
        dec_rep(n / 10).push(digit_char((n % 10) as int))
    }
}

/// A run of `n` spaces (empty when `n <= 0`).
pub open spec fn spaces(n: int) -> Seq<char>
    decreases n,
{
    if n <= 0 {
        Seq::empty()
    } else {
        spaces(n - 1).push(' ')
    }
}

/// `s` preceded by as many spaces as it takes to reach width `w`.
pub open spec fn padded_left(s: Seq<char>, w: int) -> Seq<char> {
    spaces(w - s.len()) + s
}

/// The order of the base field the machine computes over.
pub const FIELD_ORDER: u64 = 0xffff_ffff_0000_0001;

/// A run of `n` zero digits (empty when `n <= 0`).
pub open spec fn zeros(n: int) -> Seq<char>
    decreases n,
{
    if n <= 0 {
        Seq::empty()
    } else {
        zeros(n - 1).push('0')
    }
}

/// How a base-field element prints: a canonical value within 256 of the
/// field order prints as the negative it represents, a value of at most
/// 256 prints plainly, and everything else is zero-padded to twenty
/// digits.
pub open spec fn element_rep(v: u64) -> Seq<char> {
    if FIELD_ORDER - 256 <= v && v < FIELD_ORDER {
        "-"@ + dec_rep((FIELD_ORDER - v) as nat)
    } else if v <= 256 {
        dec_rep(v as nat)
    } else {
        zeros(20 - dec_rep(v as nat).len()) + dec_rep(v as nat)
    }
}

/// The elements of `s`, each printed as a base-field element, separated
/// by a comma and a space.
pub open spec fn joined_elements(s: Seq<u64>) -> Seq<char>
    decreases s.len(),
{
    if s.len() == 0 {
        Seq::empty()
    } else if s.len() == 1 {
        element_rep(s[0])
    } else {
        joined_elements(s.drop_last()) + ", "@ + element_rep(s.last())
    }
}

/// The one-character string for a decimal digit.
fn digit_str(d: u64) -> (r: &'static str)
    requires
        d < 10,
    ensures
        r@ == seq![digit_char(d as int)],
{
    proof {
        reveal_strlit("0");
        reveal_strlit("1");
        reveal_strlit("2");
        reveal_strlit("3");
        reveal_strlit("4");
        reveal_strlit("5");
        reveal_strlit("6");
        reveal_strlit("7");
        reveal_strlit("8");
        reveal_strlit("9");
    }
    match d {
        0 => "0",
        1 => "1",
        2 => "2",
        3 => "3",
        4 => "4",
        5 => "5",
        6 => "6",
        7 => "7",
        8 => "8",
        _ => "9",
    }
}

/// Appends the decimal representation of `n` to `s`.
pub fn push_decimal(s: &mut String, n: u64)
    ensures
        final(s)@ == old(s)@ + dec_rep(n as nat),
    decreases n,
{
    if n >= 10 {
        push_decimal(s, n / 10);
    }
    let d = digit_str(n % 10);
    s.append(d);
    proof {
        if n >= 10 {
            assert(dec_rep(n as nat) == dec_rep(n as nat / 10).push(digit_char((n % 10) as int)));
            assert(old(s)@ + dec_rep(n as nat) =~= (old(s)@ + dec_rep(n as nat / 10)) + d@);
        } else {
            assert(dec_rep(n as nat) == seq![digit_char(n as int)]);
            assert(old(s)@ + dec_rep(n as nat) =~= old(s)@ + d@);
        }
    }
}

/// The decimal representation of `n` as an owned string.
pub fn u64_to_string(n: u64) -> (s: String)
    ensures
        s@ == dec_rep(n as nat),
{
    let mut s = String::new();
    push_decimal(&mut s, n);
    proof {
        assert(Seq::<char>::empty() + dec_rep(n as nat) =~= dec_rep(n as nat));
    }
    s
}

/// `s` right-aligned in a field of `width` characters; `s` itself when it
/// is already as wide.
pub fn pad_left(s: &str, width: usize) -> (r: String)
    ensures
        r@ == padded_left(s@, width as int),
{
    let len = s.unicode_len();
    let mut r = String::new();
    let mut i: usize = 0;
    proof {
        reveal_strlit(" ");
    }
    let pad = if width >= len {
        width - len
    } else {
        0
    };
    while i < pad
        invariant
            r@ == spaces(i as int),
            i <= pad,
            pad == if width >= s@.len() {
                width - s@.len()
            } else {
                0
            },
        decreases pad - i,
    {
        r.append(" ");
        proof {
            reveal_strlit(" ");
            assert(spaces(i as int).push(' ') =~= spaces(i as int) + " "@);
        }
        i += 1;
    }
    r.append(s);
    proof {
        assert(r@ =~= padded_left(s@, width as int));
    }
    r
}

/// One base-field element, printed as its canonical `Display` form.
pub fn element_to_string(v: u64) -> (s: String)
    ensures
        s@ == element_rep(v),
{
    if FIELD_ORDER - 256 <= v && v < FIELD_ORDER {
        let mut s = "-".to_owned();
        push_decimal(&mut s, FIELD_ORDER - v);
        s
    } else if v <= 256 {
        u64_to_string(v)
    } else {
        let digits = u64_to_string(v);
        let len = digits.as_str().unicode_len();
        let mut s = String::new();
        let pad = if len <= 20 {
            20 - len
        } else {
            0
        };
        let mut i: usize = 0;
        while i < pad
            invariant
                i <= pad,
                s@ == zeros(i as int),
            decreases pad - i,
        {
            s.append("0");
            proof {
                reveal_strlit("0");
                assert(zeros(i as int).push('0') =~= zeros(i as int) + "0"@);
            }
            i += 1;
        }
        s.append(digits.as_str());
        proof {
            assert(s@ =~= zeros(20 - dec_rep(v as nat).len()) + dec_rep(v as nat));
        }
        s
    }
}

/// The elements of `v`, each printed as a base-field element, separated
/// by a comma and a space, as one owned string.
pub fn join_elements(v: &Vec<u64>) -> (r: String)
    ensures
        r@ == joined_elements(v@),
{
    let mut r = String::new();
    let mut i: usize = 0;
    while i < v.len()
        invariant
            i <= v.len(),
            r@ == joined_elements(v@.take(i as int)),
        decreases v.len() - i,
    {
        if i > 0 {
            r.append(", ");
        }
        let d = element_to_string(v[i]);
        r.append(d.as_str());
        proof {
            let t = v@.take(i as int + 1);
            assert(t.drop_last() =~= v@.take(i as int));
            assert(t.last() == v@[i as int]);
            assert(joined_elements(t) =~= r@);
        }
        i += 1;
    }
    proof {
        assert(v@.take(v@.len() as int) =~= v@);
    }
    r
}

} // verus!
