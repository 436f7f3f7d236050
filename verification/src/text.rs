//! Small verified text helpers: decimal formatting, the `major.minor.rev`
//! version string, stripping a `/port` suffix from an address, and the
//! path-safe check for identifiers that become file names.

use vstd::prelude::*;

verus! {

/// The decimal digit character for `d` in `0..10`.
pub open spec fn spec_digit_char(d: int) -> char {
    if d == 0 {
        '0'
    } else if d == 1 {
        '1'
    } else if d == 2 {
        '2'
    } else if d == 3 {
        '3'
    } else if d == 4 {
        '4'
    } else if d == 5 {
        '5'
    } else if d == 6 {
        '6'
    } else if d == 7 {
        '7'
    } else if d == 8 {
        '8'
    } else {
        '9'
    }
}

/// The decimal representation of `n`, most significant digit first,
/// with no leading zeros (a single `'0'` for zero).
pub open spec fn spec_decimal(n: nat) -> Seq<char>
    decreases n,
{
    if n < 10 {
        seq![spec_digit_char(n as int)]
    } else {
        spec_decimal(n / 10) + seq![spec_digit_char((n % 10) as int)]
    }
}

fn digit_str(d: u64) -> (r: &'static str)
    requires
        d < 10,
    ensures
        r@ == seq![spec_digit_char(d as int)],
{
    proof {
        reveal_strlit("0");
        reveal_strlit("1");
        reveal_strlit("2");
        reveal_strlit("3");
        reveal_strlit("4");
        reveal_strlit("5");
        reveal_strlit("6");
        reveal_strlit("7");
        reveal_strlit("8");
        reveal_strlit("9");
        assert("0"@ =~= seq![spec_digit_char(0)]);
        assert("1"@ =~= seq![spec_digit_char(1)]);
        assert("2"@ =~= seq![spec_digit_char(2)]);
        assert("3"@ =~= seq![spec_digit_char(3)]);
        assert("4"@ =~= seq![spec_digit_char(4)]);
        assert("5"@ =~= seq![spec_digit_char(5)]);
        assert("6"@ =~= seq![spec_digit_char(6)]);
        assert("7"@ =~= seq![spec_digit_char(7)]);
        assert("8"@ =~= seq![spec_digit_char(8)]);
        assert("9"@ =~= seq![spec_digit_char(9)]);
    }
    match d {
        0 => "0",
        1 => "1",
        2 => "2",
        3 => "3",
        4 => "4",
        5 => "5",
        6 => "6",
        7 => "7",
        8 => "8",
        _ => "9",
    }
}

/// Formats `n` in decimal.
pub fn u64_to_string(n: u64) -> (r: String)
    ensures
        r@ == spec_decimal(n as nat),
    decreases n,
{
    if n < 10 {
        String::from_str(digit_str(n))
    } else {
        proof {
            assert(n / 10 < n) by (nonlinear_arith)
                requires
                    n >= 10,
            ;
        }
        let prefix = u64_to_string(n / 10);
        prefix.concat(digit_str(n % 10))
    }
}

/// The `major.minor.rev` client-version string.
pub open spec fn spec_version_string(major: nat, minor: nat, rev: nat) -> Seq<char> {
    spec_decimal(major) + seq!['.'] + spec_decimal(minor) + seq!['.'] + spec_decimal(rev)
}

/// Formats the three version components as `major.minor.rev`.
pub fn version_string(major: u64, minor: u64, rev: u64) -> (r: String)
    ensures
        r@ == spec_version_string(major as nat, minor as nat, rev as nat),
{
    proof {
        reveal_strlit(".");
        assert("."@ =~= seq!['.']);
    }
    let mut s = u64_to_string(major);
    s.append(".");
    let minor_s = u64_to_string(minor);
    s.append(minor_s.as_str());
    s.append(".");
    let rev_s = u64_to_string(rev);
    s.append(rev_s.as_str());
    proof {
        assert(s@ =~= spec_version_string(major as nat, minor as nat, rev as nat));
    }
    s
}

/// Everything before the first `'/'`; the whole sequence when none occurs.
pub open spec fn spec_before_slash(s: Seq<char>) -> Seq<char>
    decreases s.len(),
{
    if s.len() == 0 {
        s
    } else if s[0] == '/' {
        Seq::empty()
    } else {
        seq![s[0]] + spec_before_slash(s.drop_first())
    }
}

proof fn lemma_before_slash_split(s: Seq<char>, i: int)
    requires
        0 <= i <= s.len(),
        forall|j: int| 0 <= j < i ==> s[j] != '/',
    ensures
        spec_before_slash(s) == s.subrange(0, i) + spec_before_slash(
            s.subrange(i, s.len() as int),
        ),
    decreases i,
{
    if i == 0 {
        assert(s.subrange(0, s.len() as int) =~= s);
        assert(s.subrange(0, 0) + spec_before_slash(s) =~= spec_before_slash(s));
    } else {
        let t = s.drop_first();
        lemma_before_slash_split(t, i - 1);
        assert(t.subrange(0, i - 1) =~= s.subrange(1, i));
        assert(t.subrange(i - 1, t.len() as int) =~= s.subrange(i, s.len() as int));
        assert(seq![s[0]] + (s.subrange(1, i) + spec_before_slash(s.subrange(i, s.len() as int)))
            =~= s.subrange(0, i) + spec_before_slash(s.subrange(i, s.len() as int)));
    }
}

/// Strips a trailing `/port` suffix from a physical address: the result is
/// everything before the first `'/'`, or the whole string when there is none.
pub fn strip_port_suffix(s: &str) -> (r: String)
    ensures
        r@ == spec_before_slash(s@),
{
    let n = s.unicode_len();
    let mut i: usize = 0;
    while i < n && s.get_char(i) != '/'
        invariant
            i <= n,
            n == s@.len(),
            forall|j: int| 0 <= j < i ==> s@[j] != '/',
        decreases n - i,
    {
        i += 1;
    }
    let prefix = s.substring_char(0, i);
    proof {
        lemma_before_slash_split(s@, i as int);
        if i < n {
            assert(s@.subrange(i as int, n as int)[0] == '/');
        }
        assert(prefix@ + spec_before_slash(s@.subrange(i as int, n as int)) =~= prefix@);
    }
    String::from_str(prefix)
}

/// A character allowed in an identifier that becomes part of a file name:
/// ASCII letters, digits, `'-'` and `'_'`.  In particular `'/'`, `'\'`
/// and `'.'` are excluded, so a safe token can neither name a parent
/// directory nor contain a path separator.
pub open spec fn spec_path_safe_char(c: char) -> bool {
    let u = c as u32;
    (48 <= u <= 57) || (65 <= u <= 90) || (97 <= u <= 122) || u == 45 || u == 95
}

/// A non-empty identifier made only of path-safe characters.
pub open spec fn spec_path_safe(s: Seq<char>) -> bool {
    s.len() > 0 && (forall|i: int| 0 <= i < s.len() ==> spec_path_safe_char(#[trigger] s[i]))
}

/// Decides whether an identifier may be used as a file-name component.
pub fn is_path_safe(s: &str) -> (r: bool)
    ensures
        r == spec_path_safe(s@),
{
    let n = s.unicode_len();
    if n == 0 {
        return false;
    }
    let mut i: usize = 0;
    while i < n
        invariant
            i <= n,
            n == s@.len(),
            forall|j: int| 0 <= j < i ==> spec_path_safe_char(#[trigger] s@[j]),
        decreases n - i,
    {
        let c = s.get_char(i);
        let u = c as u32;
        if !((48 <= u && u <= 57) || (65 <= u && u <= 90) || (97 <= u && u <= 122) || u == 45
            || u == 95) {
            return false;
        }
        i += 1;
    }
    true
}

} // verus!
