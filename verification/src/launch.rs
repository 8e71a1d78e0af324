//! Choosing the world seed at launch from the command line.
use vstd::prelude::*;
use crate::random::fresh_random_u64;
use crate::text::{spec_decimal, digit_char};

verus! {

broadcast use vstd::string::axiom_spec_iter;

/// The characters of `s`, in order.
pub fn chars_of(s: &str) -> (out: Vec<char>)
    ensures
        out@ == s@,
{
    let mut out: Vec<char> = Vec::new();
    for c in it: s.chars()
        invariant
            it.seq() == s@,
            out@ == it.seq().take(it.index() as int),
    {
        out.push(c);
    }
    out
}

pub open spec fn is_digit(c: char) -> bool {
    '0' <= c && c <= '9'
}

/// The number written by a sequence of decimal digits.
pub open spec fn digits_value(s: Seq<char>) -> int
    decreases s.len(),
{
    if s.len() == 0 {
        0
    } else {
        digits_value(s.drop_last()) * 10 + (s.last() as int - '0' as int)
    }
}

/// The text with one leading `+` removed, if it has one.
pub open spec fn unsigned_body(s: Seq<char>) -> Seq<char> {
    if s.len() > 0 && s[0] == '+' { s.skip(1) } else { s }
}

/// What parsing a `u64` in base 10 gives: an optional `+` followed by at least one
/// digit and nothing else, whose value fits in 64 bits.
pub open spec fn spec_parse_u64(s: Seq<char>) -> Option<u64> {
    let body = unsigned_body(s);
    if body.len() > 0 && (forall|i: int| 0 <= i < body.len() ==> is_digit(#[trigger] body[i]))
        && digits_value(body) <= u64::MAX {
        Some(digits_value(body) as u64)
    } else {
        None
    }
}

proof fn lemma_digits_value_nonneg(s: Seq<char>)
    requires
        forall|i: int| 0 <= i < s.len() ==> is_digit(#[trigger] s[i]),
    ensures
        digits_value(s) >= 0,
    decreases s.len(),
{
    if s.len() > 0 {
        assert(is_digit(s[s.len() - 1]));
        lemma_digits_value_nonneg(s.drop_last());
    }
}

proof fn lemma_digits_value_grows(s: Seq<char>, n: int)
    requires
        0 <= n <= s.len(),
        forall|i: int| 0 <= i < s.len() ==> is_digit(#[trigger] s[i]),
    ensures
        digits_value(s.take(n)) <= digits_value(s),
    decreases s.len() - n,
{
    if n < s.len() {
        lemma_digits_value_grows(s, n + 1);
        assert(s.take(n + 1).drop_last() =~= s.take(n));
        assert(is_digit(s[n]));
        lemma_digits_value_nonneg(s.take(n));
    } else {
        assert(s.take(n) =~= s);
    }
}

/// Parse a `u64` written in base 10, as the standard library's `str::parse::<u64>` does.
pub fn parse_u64(s: &Vec<char>) -> (r: Option<u64>)
    ensures
        r == spec_parse_u64(s@),
{
    let start: usize = if s.len() > 0 && s[0] == '+' { 1 } else { 0 };
    let ghost body = unsigned_body(s@);
    proof {
        assert(body =~= s@.skip(start as int));
    }
    if start >= s.len() {
        return None;
    }
    let mut acc: u64 = 0;
    let mut i: usize = start;
    while i < s.len()
        invariant
            start <= i <= s@.len(),
            body == s@.skip(start as int),
            body == unsigned_body(s@),
            forall|k: int| start <= k < i ==> is_digit(#[trigger] s@[k]),
            acc == digits_value(body.take(i - start)),
        decreases s@.len() - i,
    {
        let c = s[i];
        proof {
            assert(body.take(i - start + 1).drop_last() =~= body.take(i - start));
            assert(body[i - start] == c);
        }
        if !('0' <= c && c <= '9') {
            proof {
                assert(!is_digit(body[i - start]));
            }
            return None;
        }
        let d: u64 = (c as u32 - '0' as u32) as u64;
        proof {
            assert(digits_value(body.take(i - start + 1)) == acc * 10 + d);
            if forall|k: int| 0 <= k < body.len() ==> is_digit(#[trigger] body[k]) {
                lemma_digits_value_grows(body, i - start + 1);
            }
        }
        match acc.checked_mul(10) {
            None => {
                return None;
            }
            Some(m) => match m.checked_add(d) {
                None => {
                    return None;
                }
                Some(v) => {
                    acc = v;
                }
            },
        }
        i = i + 1;
    }
    proof {
        assert(body.take(body.len() as int) =~= body);
    }
    Some(acc)
}


/// The flag that takes the seed as the next argument.
pub open spec fn seed_flag() -> Seq<char> {
    seq!['-', '-', 's', 'e', 'e', 'd']
}

/// The prefix of the flag that carries the seed in the same argument.
pub open spec fn seed_assign_prefix() -> Seq<char> {
    seq!['-', '-', 's', 'e', 'e', 'd', '=']
}

/// The seed chosen by the remaining arguments, scanning left to right: the first
/// `--seed=N`, or `--seed` followed by `N`, whose `N` parses; an argument that follows
/// `--seed` without parsing is skipped.
pub open spec fn spec_scan_seed(args: Seq<Seq<char>>, pending: bool) -> Option<u64>
    decreases args.len(),
{
    if args.len() == 0 {
        None
    } else {
        let a = args[0];
        let rest = args.skip(1);
        if pending {
            if spec_parse_u64(a) is Some { spec_parse_u64(a) } else { spec_scan_seed(rest, false) }
        } else if a.len() >= 7 && a.take(7) == seed_assign_prefix() {
            if spec_parse_u64(a.skip(7)) is Some {
                spec_parse_u64(a.skip(7))
            } else {
                spec_scan_seed(rest, false)
            }
        } else if a == seed_flag() {
            spec_scan_seed(rest, true)
        } else {
            spec_scan_seed(rest, false)
        }
    }
}

/// The arguments as character sequences.
pub open spec fn args_view(args: Seq<String>) -> Seq<Seq<char>> {
    args.map_values(|a: String| a@)
}

fn has_seed_assign_prefix(a: &Vec<char>) -> (b: bool)
    ensures
        b == (a@.len() >= 7 && a@.take(7) == seed_assign_prefix()),
{
    if a.len() < 7 {
        return false;
    }
    let b = a[0] == '-' && a[1] == '-' && a[2] == 's' && a[3] == 'e' && a[4] == 'e' && a[5] == 'd'
        && a[6] == '=';
    proof {
        if b {
            assert(a@.take(7) =~= seed_assign_prefix());
        } else {
            if a@.take(7) == seed_assign_prefix() {
                assert(a@.take(7)[0] == '-' && a@.take(7)[1] == '-' && a@.take(7)[2] == 's');
                assert(a@.take(7)[3] == 'e' && a@.take(7)[4] == 'e' && a@.take(7)[5] == 'd');
                assert(a@.take(7)[6] == '=');
            }
        }
    }
    b
}

fn is_seed_flag(a: &Vec<char>) -> (b: bool)
    ensures
        b == (a@ == seed_flag()),
{
    if a.len() != 6 {
        return false;
    }
    let b = a[0] == '-' && a[1] == '-' && a[2] == 's' && a[3] == 'e' && a[4] == 'e' && a[5] == 'd';
    proof {
        if b {
            assert(a@ =~= seed_flag());
        } else if a@ == seed_flag() {
            assert(a@[0] == '-' && a@[1] == '-' && a@[2] == 's');
            assert(a@[3] == 'e' && a@[4] == 'e' && a@[5] == 'd');
        }
    }
    b
}

fn skip_chars(a: &Vec<char>, n: usize) -> (out: Vec<char>)
    requires
        n <= a@.len(),
    ensures
        out@ == a@.skip(n as int),
{
    let mut out: Vec<char> = Vec::new();
    let mut i: usize = n;
    while i < a.len()
        invariant
            n <= i <= a@.len(),
            out@ == a@.subrange(n as int, i as int),
        decreases a@.len() - i,
    {
        out.push(a[i]);
        proof {
            assert(a@.subrange(n as int, i as int + 1) =~= a@.subrange(n as int, i as int).push(a@[i as int]));
        }
        i = i + 1;
    }
    proof {
        assert(a@.subrange(n as int, a@.len() as int) =~= a@.skip(n as int));
    }
    out
}

/// Parse the command-line arguments (program name excluded) for an explicit seed,
/// given as `--seed=NUMBER` or `--seed NUMBER`.
pub fn parse_seed_args(args: &Vec<String>) -> (r: Option<u64>)
    ensures
        r == spec_scan_seed(args_view(args@), false),
{
    let ghost all = args_view(args@);
    let mut pending = false;
    let mut i: usize = 0;
    proof {
        assert(all.skip(0) =~= all);
    }
    while i < args.len()
        invariant
            0 <= i <= args@.len(),
            all == args_view(args@),
            all.len() == args@.len(),
            spec_scan_seed(all, false) == spec_scan_seed(all.skip(i as int), pending),
        decreases args@.len() - i,
    {
        let a = chars_of(args[i].as_str());
        proof {
            assert(all.skip(i as int).len() > 0);
            assert(all.skip(i as int)[0] == a@);
            assert(all.skip(i as int).skip(1) =~= all.skip(i as int + 1));
        }
        if pending {
            let v = parse_u64(&a);
            if v.is_some() {
                return v;
            }
            pending = false;
        } else if has_seed_assign_prefix(&a) {
            let rest = skip_chars(&a, 7);
            let v = parse_u64(&rest);
            if v.is_some() {
                return v;
            }
        } else if is_seed_flag(&a) {
            pending = true;
        }
        i = i + 1;
    }
    None
}

/// The world seed for this run given a fresh random value: the seed written on the
/// command line if any, otherwise `fresh`.
pub fn launch_seed_from(args: &Vec<String>, fresh: u64) -> (seed: u64)
    ensures
        spec_scan_seed(args_view(args@), false) matches Some(v) ==> seed == v,
        spec_scan_seed(args_view(args@), false) is None ==> seed == fresh,
{
    match parse_seed_args(args) {
        Some(v) => v,
        None => fresh,
    }
}

/// The world seed for this run: the seed given on the command line if any,
/// otherwise a fresh random one.
pub fn determine_launch_seed(args: &Vec<String>) -> (seed: u64)
    ensures
        spec_scan_seed(args_view(args@), false) matches Some(v) ==> seed == v,
{
    if parse_seed_args(args).is_some() {
        launch_seed_from(args, 0)
    } else {
        launch_seed_from(args, fresh_random_u64())
    }
}


/// The decimal writing of `n` is a non-empty string of digits that reads back as `n`.
pub proof fn lemma_decimal_digits(n: nat)
    ensures
        spec_decimal(n).len() > 0,
        forall|i: int| 0 <= i < spec_decimal(n).len() ==> is_digit(#[trigger] spec_decimal(n)[i]),
        digits_value(spec_decimal(n)) == n,
    decreases n,
{
    let last = (n % 10) as int;
    assert(digit_char(last) as int == '0' as int + last);
    if n < 10 {
        let s = spec_decimal(n);
        assert(s.drop_last() =~= Seq::<char>::empty());
        assert(s.last() == digit_char(n as int));
        assert(digits_value(s) == digits_value(s.drop_last()) * 10 + (s.last() as int - '0' as int));
        assert(digits_value(s) == n);
    }
    if n >= 10 {
        lemma_decimal_digits(n / 10);
        let s = spec_decimal(n);
        assert(s.drop_last() =~= spec_decimal(n / 10));
        assert(s.last() == digit_char((n % 10) as int));
        assert(digits_value(s) == digits_value(s.drop_last()) * 10 + (s.last() as int - '0' as int));
        vstd::arithmetic::div_mod::lemma_fundamental_div_mod(n as int, 10);
        assert(digits_value(s.drop_last()) == n / 10);
        assert(s.last() as int - '0' as int == n % 10);
        assert(digits_value(s) == n);
        assert forall|i: int| 0 <= i < s.len() implies is_digit(#[trigger] s[i]) by {
            if i < s.len() - 1 {
                assert(s[i] == spec_decimal(n / 10)[i]);
            }
        }
    }
}

/// A seed written in decimal reads back as the same seed, whether it is passed as
/// `--seed=N` or as `--seed N`.
pub proof fn law_seed_text_round_trip(n: u64)
    ensures
        spec_parse_u64(spec_decimal(n as nat)) == Some(n),
        spec_scan_seed(seq![seed_assign_prefix() + spec_decimal(n as nat)], false) == Some(n),
        spec_scan_seed(seq![seed_flag(), spec_decimal(n as nat)], false) == Some(n),
{
    let d = spec_decimal(n as nat);
    lemma_decimal_digits(n as nat);
    assert(unsigned_body(d) == d);
    let a = seed_assign_prefix() + d;
    assert(a.take(7) =~= seed_assign_prefix());
    assert(a.skip(7) =~= d);
    let two = seq![seed_flag(), d];
    assert(two[0] == seed_flag());
    assert(two.skip(1) =~= seq![d]);
    let rest = seq![d];
    assert(rest[0] == d);
    reveal_with_fuel(spec_scan_seed, 3);
}

} // verus!
