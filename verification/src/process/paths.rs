//! Decimal rendering of integers and the `/proc/<pid>/...` paths built from them.

use vstd::prelude::*;

verus! {

/// The ASCII digit for `d`, where `d < 10`.
pub open spec fn digit_char(d: nat) -> char {
    if d == 0 {
        '0'
    } else if d == 1 {
        '1'
    } else if d == 2 {
        '2'
    } else if d == 3 {
        '3'
    } else if d == 4 {
        '4'
    } else if d == 5 {
        '5'
    } else if d == 6 {
        '6'
    } else if d == 7 {
        '7'
    } else if d == 8 {
        '8'
    } else {
        '9'
    }
}

/// Whether `c` is one of the ten ASCII digits.
pub open spec fn is_digit(c: char) -> bool {
    c == '0' || c == '1' || c == '2' || c == '3' || c == '4' || c == '5' || c == '6' || c == '7'
        || c == '8' || c == '9'
}

/// The decimal text of `n`, most significant digit first, without leading zeros.
pub open spec fn decimal(n: nat) -> Seq<char>
    decreases n,
{
    if n < 10 {
        seq![digit_char(n)]
    } else {
        decimal(n / 10).push(digit_char(n % 10))
    }
}

/// The decimal text of `i`, with a leading `-` when `i` is negative
/// (what Rust's `Display` gives for an integer).
pub open spec fn int_text(i: int) -> Seq<char> {
    if i < 0 {
        seq!['-'] + decimal((-i) as nat)
    } else {
        decimal(i as nat)
    }
}

/// The path of entry `entry` under the procfs directory of process `pid`.
pub open spec fn proc_path_spec(pid: int, entry: Seq<char>) -> Seq<char> {
    "/proc/"@ + int_text(pid) + "/"@ + entry
}

proof fn lemma_digit_char(d: nat)
    requires
        d < 10,
    ensures
        is_digit(digit_char(d)),
        digit_char(d) != '-',
{
}

proof fn lemma_digit_char_injective(a: nat, b: nat)
    requires
        a < 10,
        b < 10,
        digit_char(a) == digit_char(b),
    ensures
        a == b,
{
}

proof fn lemma_decimal_shape(n: nat)
    ensures
        decimal(n).len() >= 1,
        decimal(n).len() == 1 <==> n < 10,
        is_digit(decimal(n)[0]),
        decimal(n).last() == digit_char(n % 10),
    decreases n,
{
    lemma_digit_char(n % 10);
    if n >= 10 {
        lemma_decimal_shape(n / 10);
        lemma_digit_char(n / 10 % 10);
    }
}

proof fn lemma_decimal_injective(a: nat, b: nat)
    requires
        decimal(a) == decimal(b),
    ensures
        a == b,
    decreases a,
{
    lemma_decimal_shape(a);
    lemma_decimal_shape(b);
    if a < 10 {
        lemma_digit_char_injective(a, b);
    } else {
        assert(decimal(a / 10) =~= decimal(a).drop_last());
        assert(decimal(b / 10) =~= decimal(b).drop_last());
        lemma_decimal_injective(a / 10, b / 10);
        lemma_digit_char_injective(a % 10, b % 10);
    }
}

proof fn lemma_int_text_injective(a: int, b: int)
    requires
        int_text(a) == int_text(b),
    ensures
        a == b,
{
    if a < 0 && b < 0 {
        assert(decimal((-a) as nat) =~= int_text(a).drop_first());
        assert(decimal((-b) as nat) =~= int_text(b).drop_first());
        lemma_decimal_injective((-a) as nat, (-b) as nat);
    } else if a >= 0 && b >= 0 {
        lemma_decimal_injective(a as nat, b as nat);
    } else if a < 0 {
        lemma_decimal_shape(b as nat);
        assert(int_text(a)[0] == '-');
    } else {
        lemma_decimal_shape(a as nat);
        assert(int_text(b)[0] == '-');
    }
}

/// Distinct processes have distinct procfs paths: two paths to the same entry
/// are equal only when they name the same pid.
pub proof fn lemma_proc_path_injective(a: int, b: int, entry: Seq<char>)
    requires
        proc_path_spec(a, entry) == proc_path_spec(b, entry),
    ensures
        a == b,
{
    reveal_strlit("/proc/");
    reveal_strlit("/");
    let ta = int_text(a);
    let tb = int_text(b);
    let pa = proc_path_spec(a, entry);
    let pb = proc_path_spec(b, entry);
    assert(pa.len() == 6 + ta.len() + 1 + entry.len());
    assert(pb.len() == 6 + tb.len() + 1 + entry.len());
    assert(ta =~= pa.subrange(6, 6 + ta.len() as int));
    assert(tb =~= pb.subrange(6, 6 + tb.len() as int));
    lemma_int_text_injective(a, b);
}

/// The number an ASCII digit stands for (0 for any other character).
pub open spec fn digit_value(c: char) -> nat {
    if c == '1' {
        1
    } else if c == '2' {
        2
    } else if c == '3' {
        3
    } else if c == '4' {
        4
    } else if c == '5' {
        5
    } else if c == '6' {
        6
    } else if c == '7' {
        7
    } else if c == '8' {
        8
    } else if c == '9' {
        9
    } else {
        0
    }
}

/// Whether every character of `s` is an ASCII digit.
pub open spec fn all_digits(s: Seq<char>) -> bool {
    forall|i: int| 0 <= i < s.len() ==> #[trigger] is_digit(s[i])
}

/// The number that the digit string `s` reads as in base ten.
pub open spec fn decimal_value(s: Seq<char>) -> nat
    decreases s.len(),
{
    if s.len() == 0 {
        0
    } else {
        decimal_value(s.drop_last()) * 10 + digit_value(s.last())
    }
}

proof fn lemma_digit_value_of_char(d: nat)
    requires
        d < 10,
    ensures
        digit_value(digit_char(d)) == d,
{
}

/// The decimal text of `n` is a nonempty string of digits, with no leading
/// zero unless it is `0` itself, that reads back as `n`.
pub proof fn lemma_decimal_reads_back(n: nat)
    ensures
        decimal(n).len() >= 1,
        all_digits(decimal(n)),
        decimal_value(decimal(n)) == n,
        decimal(n)[0] == '0' ==> n == 0,
    decreases n,
{
    let s = decimal(n);
    lemma_digit_char(n % 10);
    lemma_digit_value_of_char(n % 10);
    if n < 10 {
        assert(s.drop_last() =~= Seq::<char>::empty());
        assert(decimal_value(s.drop_last()) == 0);
    } else {
        lemma_decimal_reads_back(n / 10);
        let t = decimal(n / 10);
        assert(s.drop_last() =~= t);
        assert(s.last() == digit_char(n % 10));
        assert(decimal_value(s) == (n / 10) * 10 + n % 10);
        assert forall|i: int| 0 <= i < s.len() implies #[trigger] is_digit(s[i]) by {
            if i < t.len() {
                assert(s[i] == t[i]);
            }
        }
        assert(s[0] == t[0]);
    }
}

/// Whether `t` is the text of `pid`: its digits, after a `-` when it is
/// negative, reading back as the pid.
pub open spec fn reads_as_pid(t: Seq<char>, pid: int) -> bool {
    &&& pid >= 0 ==> all_digits(t) && decimal_value(t) == pid
    &&& pid < 0 ==> t.len() >= 2 && t[0] == '-' && all_digits(t.drop_first()) && decimal_value(
        t.drop_first(),
    ) == -pid
}

/// A procfs path is `/proc/`, the pid's text, `/` and the entry, where the
/// pid's text reads back as the pid.
pub proof fn lemma_proc_path_fields(pid: int, entry: Seq<char>)
    ensures
        exists|t: Seq<char>|
            #[trigger] reads_as_pid(t, pid) && proc_path_spec(pid, entry) == "/proc/"@ + t + "/"@
                + entry,
{
    let t = int_text(pid);
    if pid >= 0 {
        lemma_decimal_reads_back(pid as nat);
    } else {
        lemma_decimal_reads_back((-pid) as nat);
        assert(t.drop_first() =~= decimal((-pid) as nat));
    }
    assert(reads_as_pid(t, pid));
    assert(proc_path_spec(pid, entry) == "/proc/"@ + t + "/"@ + entry);
}

fn digit_str(d: u64) -> (s: &'static str)
    requires
        d < 10,
    ensures
        s@ == seq![digit_char(d as nat)],
{
    if d == 0 {
        proof { reveal_strlit("0"); }
        "0"
    } else if d == 1 {
        proof { reveal_strlit("1"); }
        "1"
    } else if d == 2 {
        proof { reveal_strlit("2"); }
        "2"
    } else if d == 3 {
        proof { reveal_strlit("3"); }
        "3"
    } else if d == 4 {
        proof { reveal_strlit("4"); }
        "4"
    } else if d == 5 {
        proof { reveal_strlit("5"); }
        "5"
    } else if d == 6 {
        proof { reveal_strlit("6"); }
        "6"
    } else if d == 7 {
        proof { reveal_strlit("7"); }
        "7"
    } else if d == 8 {
        proof { reveal_strlit("8"); }
        "8"
    } else {
        proof { reveal_strlit("9"); }
        "9"
    }
}

/// Appends the decimal text of `n` to `s`.
pub fn push_decimal(s: &mut String, n: u64)
    ensures
        final(s)@ == old(s)@ + decimal(n as nat),
    decreases n,
{
    let ghost start = s@;
    if n >= 10 {
        push_decimal(s, n / 10);
    }
    s.append(digit_str(n % 10));
    proof {
        if n >= 10 {
            assert(decimal(n as nat) == decimal((n / 10) as nat).push(digit_char((n % 10) as nat)));
            assert(s@ =~= start + decimal(n as nat));
        } else {
            assert(s@ =~= start + decimal(n as nat));
        }
    }
}

/// Appends the text of `i` (with `-` when negative) to `s`.
pub fn push_int(s: &mut String, i: i64)
    ensures
        final(s)@ == old(s)@ + int_text(i as int),
{
    let ghost start = s@;
    if i < 0 {
        s.append("-");
        proof { reveal_strlit("-"); }
        let magnitude: u64 = if i == i64::MIN {
            9223372036854775808u64
        } else {
            (-i) as u64
        };
        push_decimal(s, magnitude);
        assert(s@ =~= start + int_text(i as int));
    } else {
        push_decimal(s, i as u64);
        assert(s@ =~= start + int_text(i as int));
    }
}

/// The path `/proc/<pid>/<entry>`, as the original builds it with `format!`.
pub fn proc_path(pid: i32, entry: &str) -> (p: String)
    ensures
        p@ == proc_path_spec(pid as int, entry@),
{
    let mut p = String::from_str("/proc/");
    push_int(&mut p, pid as i64);
    p.append("/");
    p.append(entry);
    assert(p@ =~= proc_path_spec(pid as int, entry@));
    p
}

} // verus!
