//! Synthetic payloads: a templated line repeated up to a target size.
use vstd::prelude::*;
use vstd::string::StringExecFns;
use vstd::string::StrSliceExecFns;
use vstd::utf8::is_ascii_chars;

verus! {

/// The character of a decimal digit `d < 10`.
pub open spec fn digit_char(d: nat) -> char {
    if d == 0 { '0' }
    else if d == 1 { '1' }
    else if d == 2 { '2' }
    else if d == 3 { '3' }
    else if d == 4 { '4' }
    else if d == 5 { '5' }
    else if d == 6 { '6' }
    else if d == 7 { '7' }
    else if d == 8 { '8' }
    else { '9' }
}

/// The decimal notation of `n`, without leading zeros.
pub open spec fn decimal(n: nat) -> Seq<char>
    decreases n,
{
    if n < 10 {
        seq![digit_char(n)]
    } else {
        decimal(n / 10) + seq![digit_char(n % 10)]
    }
}

/// The line that a payload for message `num` repeats.
pub open spec fn template(num: nat) -> Seq<char> {
    "This is a test message "@ + decimal(num) + " "@
}

/// `k` copies of `s`, one after another.
pub open spec fn repeat(s: Seq<char>, k: nat) -> Seq<char>
    decreases k,
{
    if k == 0 {
        Seq::empty()
    } else {
        repeat(s, (k - 1) as nat) + s
    }
}

/// The payload of message `num` at `size_kb` kilobytes: as many whole copies
/// of the template as fit in `size_kb * 1024` characters.
pub open spec fn payload(num: nat, size_kb: nat) -> Seq<char> {
    repeat(template(num), (size_kb * 1024) / template(num).len())
}

proof fn lemma_decimal_ascii(n: nat)
    ensures
        decimal(n).len() >= 1,
        is_ascii_chars(decimal(n)),
    decreases n,
{
    if n >= 10 {
        lemma_decimal_ascii(n / 10);
        vstd::utf8::is_ascii_chars_concat(
            decimal(n),
            decimal(n / 10),
            seq![digit_char(n % 10)],
        );
    }
}

proof fn lemma_template_ascii(num: nat)
    ensures
        template(num).len() >= 25,
        is_ascii_chars(template(num)),
{
    reveal_strlit("This is a test message ");
    reveal_strlit(" ");
    lemma_decimal_ascii(num);
    let head = "This is a test message "@ + decimal(num);
    vstd::utf8::is_ascii_chars_concat(head, "This is a test message "@, decimal(num));
    vstd::utf8::is_ascii_chars_concat(template(num), head, " "@);
}

/// Copies of a line have the line's length times their number of characters.
pub proof fn lemma_repeat_len(s: Seq<char>, k: nat)
    ensures
        repeat(s, k).len() == k * s.len(),
    decreases k,
{
    if k > 0 {
        let m = (k - 1) as nat;
        lemma_repeat_len(s, m);
        assert(repeat(s, k) == repeat(s, m) + s);
        assert(k * s.len() == m * s.len() + s.len()) by (nonlinear_arith)
            requires
                k == m + 1,
        ;
    } else {
        assert(k * s.len() == 0) by (nonlinear_arith)
            requires
                k == 0,
        ;
    }
}

fn digit_str(d: usize) -> (r: &'static str)
    requires
        d < 10,
    ensures
        r@ == seq![digit_char(d as nat)],
{
    if d == 0 {
        proof { reveal_strlit("0"); }
        "0"
    } else if d == 1 {
        proof { reveal_strlit("1"); }
        "1"
    } else if d == 2 {
        proof { reveal_strlit("2"); }
        "2"
    } else if d == 3 {
        proof { reveal_strlit("3"); }
        "3"
    } else if d == 4 {
        proof { reveal_strlit("4"); }
        "4"
    } else if d == 5 {
        proof { reveal_strlit("5"); }
        "5"
    } else if d == 6 {
        proof { reveal_strlit("6"); }
        "6"
    } else if d == 7 {
        proof { reveal_strlit("7"); }
        "7"
    } else if d == 8 {
        proof { reveal_strlit("8"); }
        "8"
    } else {
        proof { reveal_strlit("9"); }
        "9"
    }
}

/// Appends the decimal notation of `n` to `out`.
pub fn push_decimal(out: &mut String, n: usize)
    ensures
        final(out)@ == old(out)@ + decimal(n as nat),
    decreases n,
{
    if n >= 10 {
        push_decimal(out, n / 10);
    }
    out.append(digit_str(n % 10));
    proof {
        if n >= 10 {
            assert(final(out)@ =~= old(out)@ + decimal(n as nat));
        }
    }
}

/// The line `This is a test message <num> ` that a payload repeats.
pub fn payload_template(num: usize) -> (r: String)
    ensures
        r@ == template(num as nat),
        is_ascii_chars(r@),
{
    let mut s = String::from_str("This is a test message ");
    push_decimal(&mut s, num);
    s.append(" ");
    proof {
        assert(s@ =~= template(num as nat));
        lemma_template_ascii(num as nat);
    }
    s
}

/// For a target of at least one kilobyte, the payload never exceeds the
/// target, falls short of it by less than one template, and is a whole number
/// of copies of the template.
pub proof fn lemma_payload_fills_target(num: nat, size_kb: nat)
    requires
        size_kb >= 1,
    ensures
        payload(num, size_kb).len() <= size_kb * 1024,
        payload(num, size_kb).len() + template(num).len() > size_kb * 1024,
        payload(num, size_kb).len() % template(num).len() == 0,
        payload(num, size_kb) == repeat(
            template(num),
            payload(num, size_kb).len() / template(num).len(),
        ),
{
    let t = template(num);
    let target = size_kb * 1024;
    let k = target / t.len();
    lemma_template_ascii(num);
    lemma_repeat_len(t, k);
    vstd::arithmetic::div_mod::lemma_fundamental_div_mod(target as int, t.len() as int);
    vstd::arithmetic::div_mod::lemma_mod_pos_bound(target as int, t.len() as int);
    vstd::arithmetic::div_mod::lemma_mod_multiples_basic(k as int, t.len() as int);
    vstd::arithmetic::div_mod::lemma_div_multiples_vanish(k as int, t.len() as int);
    assert(t.len() * k == k * t.len()) by (nonlinear_arith);
}

/// A target shorter than one template, a zero size among them, gives the
/// empty payload.
pub proof fn lemma_small_target_is_empty(num: nat, size_kb: nat)
    requires
        size_kb * 1024 < template(num).len(),
    ensures
        payload(num, size_kb) == Seq::<char>::empty(),
{
    lemma_template_ascii(num);
    vstd::arithmetic::div_mod::lemma_basic_div(
        (size_kb * 1024) as int,
        template(num).len() as int,
    );
}

/// `10` to the power `k`.
pub open spec fn pow10(k: nat) -> nat
    decreases k,
{
    if k == 0 {
        1
    } else {
        10 * pow10((k - 1) as nat)
    }
}

proof fn lemma_decimal_len_bound(n: nat, k: nat)
    requires
        k >= 1,
        n < pow10(k),
    ensures
        decimal(n).len() <= k,
    decreases n,
{
    if n >= 10 {
        let p = pow10((k - 1) as nat);
        assert(n < 10 * p);
        assert(n / 10 < p);
        assert(pow10(0) == 1);
        lemma_decimal_len_bound(n / 10, (k - 1) as nat);
    }
}

proof fn lemma_decimal_digits(n: nat)
    ensures
        forall|t: int| 0 <= t < decimal(n).len() ==> '0' <= #[trigger] decimal(n)[t] <= '9',
    decreases n,
{
    if n >= 10 {
        lemma_decimal_digits(n / 10);
        assert forall|t: int| 0 <= t < decimal(n).len() implies '0' <= #[trigger] decimal(n)[t]
            <= '9' by {
            if t < decimal(n / 10).len() {
                assert(decimal(n)[t] == decimal(n / 10)[t]);
            }
        }
    }
}

proof fn lemma_decimal_injective(a: nat, b: nat)
    requires
        decimal(a) == decimal(b),
    ensures
        a == b,
    decreases a,
{
    lemma_decimal_ascii(a);
    lemma_decimal_ascii(b);
    if a >= 10 {
        lemma_decimal_ascii(a / 10);
    }
    if b >= 10 {
        lemma_decimal_ascii(b / 10);
    }
    if a < 10 && b < 10 {
        assert(decimal(a)[0] == digit_char(a));
        assert(decimal(b)[0] == digit_char(b));
    } else if a >= 10 && b >= 10 {
        let da = decimal(a);
        assert(da.last() == digit_char(a % 10));
        assert(decimal(b).last() == digit_char(b % 10));
        assert(decimal(a / 10) =~= da.drop_last());
        assert(decimal(b / 10) =~= decimal(b).drop_last());
        lemma_decimal_injective(a / 10, b / 10);
    }
}

proof fn lemma_repeat_starts_with(s: Seq<char>, k: nat, m: int)
    requires
        k >= 1,
        0 <= m < s.len(),
    ensures
        repeat(s, k)[m] == s[m],
    decreases k,
{
    lemma_repeat_len(s, (k - 1) as nat);
    if k > 1 {
        lemma_repeat_len(s, (k - 2) as nat);
        lemma_repeat_starts_with(s, (k - 1) as nat, m);
        assert(repeat(s, (k - 1) as nat).len() >= s.len()) by (nonlinear_arith)
            requires
                repeat(s, (k - 1) as nat).len() == (k - 1) * s.len(),
                k > 1,
        ;
    } else {
        assert(repeat(s, k) =~= s);
    }
}

/// Messages with different indices get different payloads, once the size is
/// at least one kilobyte.
pub proof fn lemma_payloads_distinct(i: nat, j: nat, size_kb: nat)
    requires
        i != j,
        i <= usize::MAX,
        j <= usize::MAX,
        size_kb >= 1,
    ensures
        payload(i, size_kb) != payload(j, size_kb),
{
    reveal_strlit("This is a test message ");
    reveal_strlit(" ");
    reveal_with_fuel(pow10, 21);
    assert(usize::MAX < pow10(20));
    lemma_decimal_len_bound(i, 20);
    lemma_decimal_len_bound(j, 20);
    lemma_template_ascii(i);
    lemma_template_ascii(j);
    lemma_decimal_digits(i);
    lemma_decimal_digits(j);
    let ti = template(i);
    let tj = template(j);
    let target = size_kb * 1024;
    vstd::arithmetic::div_mod::lemma_fundamental_div_mod(target as int, ti.len() as int);
    vstd::arithmetic::div_mod::lemma_mod_pos_bound(target as int, ti.len() as int);
    vstd::arithmetic::div_mod::lemma_fundamental_div_mod(target as int, tj.len() as int);
    vstd::arithmetic::div_mod::lemma_mod_pos_bound(target as int, tj.len() as int);
    let ki = target / ti.len();
    let kj = target / tj.len();
    if ki == 0 {
        assert(ti.len() * ki == 0) by (nonlinear_arith)
            requires
                ki == 0,
        ;
    }
    if kj == 0 {
        assert(tj.len() * kj == 0) by (nonlinear_arith)
            requires
                kj == 0,
        ;
    }
    let di = decimal(i);
    let dj = decimal(j);
    if payload(i, size_kb) == payload(j, size_kb) {
        let p = payload(i, size_kb);
        assert forall|m: int| 0 <= m < ti.len() implies p[m] == ti[m] by {
            lemma_repeat_starts_with(ti, ki, m);
        }
        assert forall|m: int| 0 <= m < tj.len() implies p[m] == tj[m] by {
            lemma_repeat_starts_with(tj, kj, m);
        }
        if di.len() < dj.len() {
            assert(ti[23 + di.len() as int] == ' ');
            assert(tj[23 + di.len() as int] == dj[di.len() as int]);
        } else if dj.len() < di.len() {
            assert(tj[23 + dj.len() as int] == ' ');
            assert(ti[23 + dj.len() as int] == di[dj.len() as int]);
        } else {
            assert forall|t: int| 0 <= t < di.len() implies di[t] == dj[t] by {
                assert(ti[23 + t] == di[t]);
                assert(tj[23 + t] == dj[t]);
            }
            assert(di =~= dj);
            lemma_decimal_injective(i, j);
        }
    }
}

/// Builds the payload of message `num`: the template repeated as many whole
/// times as fit in `size_kb * 1024` bytes. All of it is ASCII, so its length in
/// characters is its length in bytes. A target shorter than one template gives
/// the empty string.
pub fn generate_large_data(num: usize, size_kb: usize) -> (r: String)
    requires
        size_kb <= usize::MAX / 1024,
    ensures
        r@ == payload(num as nat, size_kb as nat),
        is_ascii_chars(r@),
{
    let base = payload_template(num);
    let base_len = base.as_str().unicode_len();
    proof { lemma_template_ascii(num as nat); }
    let target_size = size_kb * 1024;
    let repetitions = target_size / base_len;
    let mut out = String::new();
    let mut i: usize = 0;
    while i < repetitions
        invariant
            i <= repetitions,
            base@ == template(num as nat),
            is_ascii_chars(base@),
            out@ == repeat(base@, i as nat),
            is_ascii_chars(out@),
        decreases repetitions - i,
    {
        let ghost before = out@;
        out.append(base.as_str());
        i = i + 1;
        proof {
            vstd::utf8::is_ascii_chars_concat(out@, before, base@);
        }
    }
    out
}

} // verus!
