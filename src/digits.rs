use vstd::prelude::*;

verus! {

/// The character of a decimal digit.
pub open spec fn digit_char(d: int) -> char {
    if d == 0 { '0' }
    else if d == 1 { '1' }
    else if d == 2 { '2' }
    else if d == 3 { '3' }
    else if d == 4 { '4' }
    else if d == 5 { '5' }
    else if d == 6 { '6' }
    else if d == 7 { '7' }
    else if d == 8 { '8' }
    else { '9' }
}

/// The decimal numeral of `n`, without leading zeros.
pub open spec fn decimal(n: nat) -> Seq<char>
    decreases n,
{
    if n < 10 {
        seq![digit_char(n as int)]
    } else {
        decimal(n / 10).push(digit_char((n % 10) as int))
    }
}

/// The last `width` decimal digits of `n`, zero-padded on the left.
pub open spec fn padded(n: nat, width: nat) -> Seq<char>
    decreases width,
{
    if width == 0 {
        Seq::empty()
    } else {
        padded(n / 10, (width - 1) as nat).push(digit_char((n % 10) as int))
    }
}

/// The decimal numeral of `n` with `sep` between each group of three
/// digits, counted from the right.
pub open spec fn grouped(n: nat, sep: char) -> Seq<char>
    decreases n,
{
    if n < 1000 {
        decimal(n)
    } else {
        grouped(n / 1000, sep).push(sep) + padded(n % 1000, 3)
    }
}

fn digit_str(d: u64) -> (r: &'static str)
    requires
        d < 10,
    ensures
        r@ == seq![digit_char(d as int)],
{
    proof {
        reveal_strlit("0");
        reveal_strlit("1");
        reveal_strlit("2");
        reveal_strlit("3");
        reveal_strlit("4");
        reveal_strlit("5");
        reveal_strlit("6");
        reveal_strlit("7");
        reveal_strlit("8");
        reveal_strlit("9");
    }
    if d == 0 { "0" }
    else if d == 1 { "1" }
    else if d == 2 { "2" }
    else if d == 3 { "3" }
    else if d == 4 { "4" }
    else if d == 5 { "5" }
    else if d == 6 { "6" }
    else if d == 7 { "7" }
    else if d == 8 { "8" }
    else { "9" }
}

/// Appends the decimal numeral of `n`.
pub fn push_decimal(s: &mut String, n: u64)
    ensures
        final(s)@ == old(s)@ + decimal(n as nat),
    decreases n,
{
    if n >= 10 {
        push_decimal(s, n / 10);
    }
    s.append(digit_str(n % 10));
}

/// Appends the last `width` digits of `n`, zero-padded.
pub fn push_padded(s: &mut String, n: u64, width: u64)
    ensures
        final(s)@ == old(s)@ + padded(n as nat, width as nat),
    decreases width,
{
    if width > 0 {
        push_padded(s, n / 10, width - 1);
        s.append(digit_str(n % 10));
    }
}

/// Appends the numeral of `n` grouped by threes, `sep` standing between
/// the groups.
pub fn push_grouped(s: &mut String, n: u64, sep: &str)
    requires
        sep@.len() == 1,
    ensures
        final(s)@ == old(s)@ + grouped(n as nat, sep@[0]),
    decreases n,
{
    if n < 1000 {
        push_decimal(s, n);
    } else {
        push_grouped(s, n / 1000, sep);
        s.append(sep);
        push_padded(s, n % 1000, 3);
    }
}

/// Whether `c` is a decimal digit.
pub open spec fn is_digit(c: char) -> bool {
    c == '0' || c == '1' || c == '2' || c == '3' || c == '4' || c == '5' || c == '6' || c == '7'
        || c == '8' || c == '9'
}

/// Keeps every character but `sep`.
pub open spec fn other_than(sep: char) -> spec_fn(char) -> bool {
    |c: char| c != sep
}

proof fn lemma_decimal_is_digits(n: nat)
    ensures
        forall|i: int| 0 <= i < decimal(n).len() ==> is_digit(#[trigger] decimal(n)[i]),
    decreases n,
{
    let s = decimal(n);
    if n >= 10 {
        lemma_decimal_is_digits(n / 10);
        assert forall|i: int| 0 <= i < s.len() implies is_digit(#[trigger] s[i]) by {
            if i < s.len() - 1 {
                assert(s[i] == decimal(n / 10)[i]);
            }
        }
    } else {
        assert(is_digit(s[0]));
    }
}

proof fn lemma_padded_is_digits(n: nat, width: nat)
    ensures
        forall|i: int| 0 <= i < padded(n, width).len() ==> is_digit(#[trigger] padded(n, width)[i]),
    decreases width,
{
    let s = padded(n, width);
    if width > 0 {
        lemma_padded_is_digits(n / 10, (width - 1) as nat);
        assert forall|i: int| 0 <= i < s.len() implies is_digit(#[trigger] s[i]) by {
            if i < s.len() - 1 {
                assert(s[i] == padded(n / 10, (width - 1) as nat)[i]);
            }
        }
    }
}

proof fn lemma_filter_keeps_digits(s: Seq<char>, sep: char)
    requires
        !is_digit(sep),
        forall|i: int| 0 <= i < s.len() ==> is_digit(#[trigger] s[i]),
    ensures
        s.filter(other_than(sep)) == s,
    decreases s.len(),
{
    reveal(Seq::filter);
    if s.len() > 0 {
        let init = s.drop_last();
        assert forall|i: int| 0 <= i < init.len() implies is_digit(#[trigger] init[i]) by {
            assert(init[i] == s[i]);
        }
        lemma_filter_keeps_digits(init, sep);
        assert(is_digit(s[s.len() - 1]));
        assert(init.push(s.last()) =~= s);
    }
}

proof fn lemma_decimal_split(n: nat)
    requires
        n >= 1000,
    ensures
        decimal(n) == decimal(n / 1000) + padded(n % 1000, 3),
{
    let m = n % 1000;
    assert(n / 10 / 10 == n / 100 && n / 100 / 10 == n / 1000) by (nonlinear_arith)
        requires
            n >= 1000,
    ;
    assert(m % 10 == n % 10 && (m / 10) % 10 == (n / 10) % 10 && (m / 100) % 10 == (n / 100) % 10
        && m / 1000 == 0 && m / 10 / 10 == m / 100 && m / 100 / 10 == 0) by (nonlinear_arith)
        requires
            m == n % 1000,
            n >= 1000,
    ;
    assert(n / 100 >= 10) by (nonlinear_arith)
        requires
            n >= 1000,
    ;
    assert(n / 10 >= 10) by (nonlinear_arith)
        requires
            n >= 1000,
    ;
    assert(decimal(n) == decimal(n / 10).push(digit_char((n % 10) as int)));
    assert(decimal(n / 10) == decimal(n / 100).push(digit_char(((n / 10) % 10) as int)));
    assert(decimal(n / 100) == decimal(n / 1000).push(digit_char(((n / 100) % 10) as int)));
    assert(padded(m, 3) == padded(m / 10, 2).push(digit_char((m % 10) as int)));
    assert(padded(m / 10, 2) == padded(m / 100, 1).push(digit_char(((m / 10) % 10) as int)));
    assert(padded(m / 100, 1) == padded(0, 0).push(digit_char(((m / 100) % 10) as int)));
    assert(padded(0, 0) =~= Seq::<char>::empty());
    assert(decimal(n) =~= decimal(n / 1000) + padded(m, 3));
}

/// Dropping the separators from a grouped numeral gives back the plain
/// numeral: grouping only inserts separators.
pub proof fn lemma_grouping_keeps_digits(n: nat, sep: char)
    requires
        !is_digit(sep),
    ensures
        grouped(n, sep).filter(other_than(sep)) == decimal(n),
    decreases n,
{
    if n < 1000 {
        lemma_decimal_is_digits(n);
        lemma_filter_keeps_digits(decimal(n), sep);
    } else {
        let head = grouped(n / 1000, sep);
        let tail = padded(n % 1000, 3);
        lemma_grouping_keeps_digits(n / 1000, sep);
        Seq::filter_distributes_over_add(head.push(sep), tail, other_than(sep));
        head.lemma_filter_push(sep, other_than(sep));
        lemma_padded_is_digits(n % 1000, 3);
        lemma_filter_keeps_digits(tail, sep);
        lemma_decimal_split(n);
    }
}

} // verus!
