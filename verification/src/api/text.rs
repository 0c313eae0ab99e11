//! Text building blocks: decimal rendering of numbers and joining of lists.
use vstd::prelude::*;
use vstd::string::StringExecFns;

verus! {

/// The text of a single decimal digit.
pub open spec fn digit_text(d: nat) -> Seq<char> {
    if d == 0 {
        "0"@
    } else if d == 1 {
        "1"@
    } else if d == 2 {
        "2"@
    } else if d == 3 {
        "3"@
    } else if d == 4 {
        "4"@
    } else if d == 5 {
        "5"@
    } else if d == 6 {
        "6"@
    } else if d == 7 {
        "7"@
    } else if d == 8 {
        "8"@
    } else {
        "9"@
    }
}

/// The decimal representation of a natural number, without leading zeros.
pub open spec fn decimal(n: nat) -> Seq<char>
    decreases n,
{
    if n < 10 {
        digit_text(n)
    } else {
        decimal(n / 10) + digit_text(n % 10)
    }
}

/// The concatenation of `parts`, with `sep` between each two neighbours.
pub open spec fn join(parts: Seq<Seq<char>>, sep: Seq<char>) -> Seq<char>
    decreases parts.len(),
{
    if parts.len() == 0 {
        Seq::empty()
    } else if parts.len() == 1 {
        parts[0]
    } else {
        join(parts.drop_last(), sep) + sep + parts.last()
    }
}

/// The decimal texts of a list of numbers.
pub open spec fn decimals(ids: Seq<u64>) -> Seq<Seq<char>> {
    ids.map_values(|e: u64| decimal(e as nat))
}

/// The decimal texts of a list of numbers, each preceded by `!`.
pub open spec fn negated_decimals(ids: Seq<u64>) -> Seq<Seq<char>> {
    ids.map_values(|e: u64| "!"@ + decimal(e as nat))
}

/// The comma separated decimal texts of a list of numbers, each preceded by
/// `!` when `negate` is set.
pub open spec fn id_list_text(ids: Seq<u64>, negate: bool) -> Seq<char> {
    if negate {
        join(negated_decimals(ids), ","@)
    } else {
        join(decimals(ids), ","@)
    }
}

fn digit_str(d: u64) -> (r: &'static str)
    requires
        d < 10,
    ensures
        r@ == digit_text(d as nat),
{
    if d == 0 {
        "0"
    } else if d == 1 {
        "1"
    } else if d == 2 {
        "2"
    } else if d == 3 {
        "3"
    } else if d == 4 {
        "4"
    } else if d == 5 {
        "5"
    } else if d == 6 {
        "6"
    } else if d == 7 {
        "7"
    } else if d == 8 {
        "8"
    } else {
        "9"
    }
}

/// Appends the decimal representation of `n` to `out`.
pub fn push_decimal(out: &mut String, n: u64)
    ensures
        final(out)@ == old(out)@ + decimal(n as nat),
    decreases n,
{
    if n >= 10 {
        push_decimal(out, n / 10);
    }
    out.append(digit_str(n % 10));
}

/// The decimal representation of `n`.
pub fn u64_to_string(n: u64) -> (r: String)
    ensures
        r@ == decimal(n as nat),
{
    let mut s = String::new();
    push_decimal(&mut s, n);
    assert(s@ =~= decimal(n as nat));
    s
}

/// Appends `parts`, separated by `sep`, to `out`.
pub fn push_joined(out: &mut String, parts: &Vec<String>, sep: &str)
    ensures
        final(out)@ == old(out)@ + join(parts@.map_values(|p: String| p@), sep@),
{
    let ghost texts = parts@.map_values(|p: String| p@);
    let ghost start = out@;
    let mut i: usize = 0;
    while i < parts.len()
        invariant
            i <= parts.len(),
            texts == parts@.map_values(|p: String| p@),
            out@ == start + join(texts.take(i as int), sep@),
        decreases parts.len() - i,
    {
        assert(texts.take((i + 1) as int).drop_last() =~= texts.take(i as int));
        if i > 0 {
            out.append(sep);
        } else {
            assert(texts.take(1) =~= seq![texts[0]]);
            assert(join(texts.take(0), sep@) =~= Seq::<char>::empty());
        }
        out.append(parts[i].as_str());
        i = i + 1;
    }
    assert(texts.take(parts.len() as int) =~= texts);
}

/// The comma separated decimal texts of `ids`, each preceded by `!` when
/// `negate` is set.
pub fn id_list_string(ids: &Vec<u64>, negate: bool) -> (r: String)
    ensures
        r@ == id_list_text(ids@, negate),
{
    let mut parts: Vec<String> = Vec::new();
    let mut i: usize = 0;
    while i < ids.len()
        invariant
            i <= ids.len(),
            parts@.len() == i,
            forall|j: int|
                0 <= j < i ==> (#[trigger] parts@[j])@ == (if negate {
                    "!"@ + decimal(ids@[j] as nat)
                } else {
                    decimal(ids@[j] as nat)
                }),
        decreases ids.len() - i,
    {
        let mut p = String::new();
        if negate {
            p.append("!");
        }
        push_decimal(&mut p, ids[i]);
        parts.push(p);
        i = i + 1;
    }
    let mut r = String::new();
    push_joined(&mut r, &parts, ",");
    proof {
        if negate {
            assert(parts@.map_values(|p: String| p@) =~= negated_decimals(ids@));
        } else {
            assert(parts@.map_values(|p: String| p@) =~= decimals(ids@));
        }
    }
    r
}

/// `10` to the power `w`.
pub open spec fn pow10(w: nat) -> nat
    decreases w,
{
    if w == 0 {
        1
    } else {
        10 * pow10((w - 1) as nat)
    }
}

/// Whether a character is one of the decimal digits.
pub open spec fn is_digit(c: char) -> bool {
    '0' <= c && c <= '9'
}

/// A digit is written as one decimal digit character.
pub proof fn lemma_digit_text_is_digit(d: nat)
    ensures
        digit_text(d).len() == 1,
        is_digit(digit_text(d)[0]),
{
    reveal_strlit("0");
    reveal_strlit("1");
    reveal_strlit("2");
    reveal_strlit("3");
    reveal_strlit("4");
    reveal_strlit("5");
    reveal_strlit("6");
    reveal_strlit("7");
    reveal_strlit("8");
    reveal_strlit("9");
}

/// A number is written with at least one character, every one a digit.
pub proof fn lemma_decimal_digits(n: nat)
    ensures
        decimal(n).len() >= 1,
        forall|i: int| 0 <= i < decimal(n).len() ==> is_digit(#[trigger] decimal(n)[i]),
    decreases n,
{
    if n < 10 {
        lemma_digit_text_is_digit(n);
    } else {
        lemma_decimal_digits(n / 10);
        lemma_digit_text_is_digit(n % 10);
        let a = decimal(n / 10);
        let b = digit_text(n % 10);
        assert forall|i: int| 0 <= i < decimal(n).len() implies is_digit(#[trigger] decimal(n)[i]) by {
            if i < a.len() {
                assert(decimal(n)[i] == a[i]);
            } else {
                assert(decimal(n)[i] == b[i - a.len()]);
            }
        }
    }
}

/// The value of a digit character.
pub open spec fn digit_value(c: char) -> int {
    c as int - 48
}

/// The number that a text of digits reads as in decimal.
pub open spec fn digits_value(s: Seq<char>) -> int
    decreases s.len(),
{
    if s.len() == 0 {
        0
    } else {
        10 * digits_value(s.drop_last()) + digit_value(s.last())
    }
}

/// A digit is written as the character of its value.
pub proof fn lemma_digit_text_value(d: nat)
    requires
        d < 10,
    ensures
        digit_text(d).len() == 1,
        digit_value(digit_text(d)[0]) == d,
{
    reveal_strlit("0");
    reveal_strlit("1");
    reveal_strlit("2");
    reveal_strlit("3");
    reveal_strlit("4");
    reveal_strlit("5");
    reveal_strlit("6");
    reveal_strlit("7");
    reveal_strlit("8");
    reveal_strlit("9");
}

/// The decimal text of a number reads back as the number.
pub proof fn lemma_decimal_value(n: nat)
    ensures
        digits_value(decimal(n)) == n,
    decreases n,
{
    if n < 10 {
        lemma_digit_text_value(n);
        let t = decimal(n);
        assert(t.drop_last().len() == 0);
        assert(digits_value(t) == 10 * digits_value(t.drop_last()) + digit_value(t.last()));
    } else {
        lemma_decimal_value(n / 10);
        lemma_digit_text_value(n % 10);
        let a = decimal(n / 10);
        let b = digit_text(n % 10);
        let t = a + b;
        assert(decimal(n) == t);
        assert(t.drop_last() =~= a);
        assert(t.last() == b[0]);
        assert(digits_value(t) == 10 * digits_value(t.drop_last()) + digit_value(t.last()));
        assert(10 * (n / 10) + n % 10 == n);
    }
}

/// Different digits are written differently.
pub proof fn lemma_digit_text_injective(c: nat, d: nat)
    requires
        c < 10,
        d < 10,
        digit_text(c) == digit_text(d),
    ensures
        c == d,
{
    reveal_strlit("0");
    reveal_strlit("1");
    reveal_strlit("2");
    reveal_strlit("3");
    reveal_strlit("4");
    reveal_strlit("5");
    reveal_strlit("6");
    reveal_strlit("7");
    reveal_strlit("8");
    reveal_strlit("9");
    assert(digit_text(c)[0] == digit_text(d)[0]);
    assert(digit_text(c)[0] as int == 48 + c);
    assert(digit_text(d)[0] as int == 48 + d);
}

/// Different numbers are written differently.
pub proof fn lemma_decimal_injective(a: nat, b: nat)
    requires
        decimal(a) == decimal(b),
    ensures
        a == b,
    decreases a,
{
    lemma_decimal_digits(a);
    lemma_decimal_digits(b);
    if a < 10 && b < 10 {
        lemma_digit_text_injective(a, b);
    } else if a < 10 {
        lemma_digit_text_is_digit(a);
        lemma_decimal_digits(b / 10);
        lemma_digit_text_is_digit(b % 10);
    } else if b < 10 {
        lemma_digit_text_is_digit(b);
        lemma_decimal_digits(a / 10);
        lemma_digit_text_is_digit(a % 10);
    } else {
        let pa = decimal(a / 10);
        let pb = decimal(b / 10);
        lemma_digit_text_is_digit(a % 10);
        lemma_digit_text_is_digit(b % 10);
        let t = decimal(a);
        assert(pa.len() == pb.len());
        assert(pa =~= t.subrange(0, pa.len() as int));
        assert(pb =~= decimal(b).subrange(0, pb.len() as int));
        assert(digit_text(a % 10) =~= t.subrange(pa.len() as int, t.len() as int));
        assert(digit_text(b % 10) =~= decimal(b).subrange(pb.len() as int, t.len() as int));
        lemma_decimal_injective(a / 10, b / 10);
        lemma_digit_text_injective(a % 10, b % 10);
    }
}

/// Two paths that put the decimals of two numbers between the same prefix
/// and suffix are the same only for the same number.
pub proof fn lemma_id_path_injective(prefix: Seq<char>, suffix: Seq<char>, a: nat, b: nat)
    ensures
        prefix + decimal(a) + suffix == prefix + decimal(b) + suffix <==> a == b,
{
    if prefix + decimal(a) + suffix == prefix + decimal(b) + suffix {
        let t = prefix + decimal(a) + suffix;
        let u = prefix + decimal(b) + suffix;
        assert(t.len() == u.len());
        assert(decimal(a).len() == decimal(b).len());
        assert(t.subrange(prefix.len() as int, prefix.len() + decimal(a).len() as int) == u.subrange(
            prefix.len() as int,
            prefix.len() + decimal(b).len() as int,
        ));
        assert(decimal(a) =~= t.subrange(prefix.len() as int, prefix.len() + decimal(a).len() as int));
        assert(decimal(b) =~= u.subrange(prefix.len() as int, prefix.len() + decimal(b).len() as int));
        lemma_decimal_injective(a, b);
    }
}

/// Two paths that put two texts between the same prefix and suffix are the
/// same only for the same text.
pub proof fn lemma_text_path_injective(prefix: Seq<char>, suffix: Seq<char>, a: Seq<char>, b: Seq<char>)
    ensures
        prefix + a + suffix == prefix + b + suffix <==> a == b,
{
    if prefix + a + suffix == prefix + b + suffix {
        let t = prefix + a + suffix;
        let u = prefix + b + suffix;
        assert(t.len() == u.len());
        assert(a =~= t.subrange(prefix.len() as int, prefix.len() + a.len() as int));
        assert(b =~= u.subrange(prefix.len() as int, prefix.len() + b.len() as int));
    }
}

/// Two texts whose beginnings differ at a position inside both differ,
/// whatever follows the beginnings.
pub proof fn lemma_differ_at(p: Seq<char>, q: Seq<char>, x: Seq<char>, y: Seq<char>, i: int)
    requires
        0 <= i < p.len(),
        i < q.len(),
        p[i] != q[i],
    ensures
        p + x != q + y,
{
    assert((p + x)[i] == p[i]);
    assert((q + y)[i] == q[i]);
}

/// The text of a list whose first part is not empty starts with the first
/// character of that part.
pub proof fn lemma_join_first(parts: Seq<Seq<char>>, sep: Seq<char>)
    requires
        parts.len() >= 1,
        parts[0].len() >= 1,
    ensures
        join(parts, sep).len() >= 1,
        join(parts, sep)[0] == parts[0][0],
    decreases parts.len(),
{
    if parts.len() >= 2 {
        let d = parts.drop_last();
        assert(d[0] == parts[0]);
        lemma_join_first(d, sep);
        assert((join(d, sep) + sep + parts.last())[0] == join(d, sep)[0]);
    }
}

/// Whether a text holds no comma.
pub open spec fn no_comma(s: Seq<char>) -> bool {
    forall|j: int| 0 <= j < s.len() ==> s[j] != ','
}

/// Whether every part of a list is a non-empty text without commas.
pub open spec fn comma_free_parts(p: Seq<Seq<char>>) -> bool {
    forall|i: int| 0 <= i < p.len() ==> (#[trigger] p[i]).len() >= 1 && no_comma(p[i])
}

/// Joining non-empty parts gives a non-empty text, and one with a comma
/// (right after the parts but the last) exactly when there are two parts
/// or more.
proof fn lemma_join_shape(p: Seq<Seq<char>>)
    requires
        comma_free_parts(p),
    ensures
        p.len() >= 1 ==> join(p, ","@).len() >= p.last().len(),
        p.len() >= 1 ==> join(p, ","@).len() >= 1,
        p.len() == 1 ==> no_comma(join(p, ","@)),
        p.len() >= 2 ==> join(p, ","@)[join(p.drop_last(), ","@).len() as int] == ',',
    decreases p.len(),
{
    reveal_strlit(",");
    if p.len() >= 2 {
        assert(p.last() == p[p.len() - 1]);
        assert(comma_free_parts(p.drop_last())) by {
            assert forall|i: int| 0 <= i < p.drop_last().len() implies (#[trigger] p.drop_last()[i]).len()
                >= 1 && no_comma(p.drop_last()[i]) by {
                assert(p.drop_last()[i] == p[i]);
            }
        }
        lemma_join_shape(p.drop_last());
    } else if p.len() == 1 {
        assert(p[0] == p.last());
    }
}

/// Joining with commas parts that are non-empty and hold no comma can be
/// undone: two such lists with the same text are the same list.
pub proof fn lemma_join_injective(p: Seq<Seq<char>>, q: Seq<Seq<char>>)
    requires
        comma_free_parts(p),
        comma_free_parts(q),
        join(p, ","@) == join(q, ","@),
    ensures
        p == q,
    decreases p.len() + q.len(),
{
    reveal_strlit(",");
    lemma_join_shape(p);
    lemma_join_shape(q);
    let t = join(p, ","@);
    if p.len() == 0 || q.len() == 0 {
        assert(p.len() == 0 && q.len() == 0);
        assert(p =~= q);
    } else if p.len() == 1 && q.len() == 1 {
        assert(p =~= q);
    } else if p.len() == 1 {
        let k = join(q.drop_last(), ","@).len() as int;
        assert(t[k] == ',');
    } else if q.len() == 1 {
        let k = join(p.drop_last(), ","@).len() as int;
        assert(t[k] == ',');
    } else {
        let a = p.last();
        let b = q.last();
        let pa = join(p.drop_last(), ","@);
        let qb = join(q.drop_last(), ","@);
        assert(p[p.len() - 1] == a && q[q.len() - 1] == b);
        assert(t == pa + ","@ + a);
        assert(t == qb + ","@ + b);
        if a.len() < b.len() {
            let k = pa.len() as int;
            assert(t[k] == ',');
            assert(t[k] == b[k - qb.len() - 1]);
        } else if b.len() < a.len() {
            let k = qb.len() as int;
            assert(t[k] == ',');
            assert(t[k] == a[k - pa.len() - 1]);
        }
        assert(a =~= t.subrange(t.len() - a.len(), t.len() as int));
        assert(b =~= t.subrange(t.len() - b.len(), t.len() as int));
        assert(pa =~= t.subrange(0, pa.len() as int));
        assert(qb =~= t.subrange(0, qb.len() as int));
        assert(comma_free_parts(p.drop_last())) by {
            assert forall|i: int| 0 <= i < p.drop_last().len() implies (#[trigger] p.drop_last()[i]).len()
                >= 1 && no_comma(p.drop_last()[i]) by {
                assert(p.drop_last()[i] == p[i]);
            }
        }
        assert(comma_free_parts(q.drop_last())) by {
            assert forall|i: int| 0 <= i < q.drop_last().len() implies (#[trigger] q.drop_last()[i]).len()
                >= 1 && no_comma(q.drop_last()[i]) by {
                assert(q.drop_last()[i] == q[i]);
            }
        }
        lemma_join_injective(p.drop_last(), q.drop_last());
        assert(p =~= p.drop_last().push(a));
        assert(q =~= q.drop_last().push(b));
    }
}

/// A list of ids is sent as a text that names exactly those ids, in order:
/// two lists with the same text, both negated or both not, are the same.
pub proof fn lemma_id_list_injective(a: Seq<u64>, b: Seq<u64>, negate: bool)
    requires
        id_list_text(a, negate) == id_list_text(b, negate),
    ensures
        a == b,
{
    reveal_strlit("!");
    let pa = if negate { negated_decimals(a) } else { decimals(a) };
    let pb = if negate { negated_decimals(b) } else { decimals(b) };
    assert forall|i: int| 0 <= i < a.len() implies (#[trigger] pa[i]).len() >= 1 && no_comma(pa[i]) by {
        lemma_decimal_digits(a[i] as nat);
        if negate {
            assert(pa[i] == "!"@ + decimal(a[i] as nat));
            assert forall|j: int| 0 <= j < pa[i].len() implies pa[i][j] != ',' by {
                if j >= 1 {
                    assert(pa[i][j] == decimal(a[i] as nat)[j - 1]);
                }
            }
        }
    }
    assert forall|i: int| 0 <= i < b.len() implies (#[trigger] pb[i]).len() >= 1 && no_comma(pb[i]) by {
        lemma_decimal_digits(b[i] as nat);
        if negate {
            assert(pb[i] == "!"@ + decimal(b[i] as nat));
            assert forall|j: int| 0 <= j < pb[i].len() implies pb[i][j] != ',' by {
                if j >= 1 {
                    assert(pb[i][j] == decimal(b[i] as nat)[j - 1]);
                }
            }
        }
    }
    lemma_join_injective(pa, pb);
    assert forall|i: int| 0 <= i < a.len() implies a[i] == b[i] by {
        assert(pa[i] == pb[i]);
        if negate {
            assert(decimal(a[i] as nat) =~= pa[i].subrange(1, pa[i].len() as int));
            assert(decimal(b[i] as nat) =~= pb[i].subrange(1, pb[i].len() as int));
        }
        lemma_decimal_injective(a[i] as nat, b[i] as nat);
    }
    assert(a =~= b);
}

/// A non-empty list of ids sent negated starts with `!`, and sent as is
/// starts with a digit, so the two texts differ.
pub proof fn lemma_id_list_negation(ids: Seq<u64>)
    requires
        ids.len() >= 1,
    ensures
        id_list_text(ids, true).len() >= 1,
        id_list_text(ids, true)[0] == '!',
        id_list_text(ids, false).len() >= 1,
        is_digit(id_list_text(ids, false)[0]),
        id_list_text(ids, true) != id_list_text(ids, false),
{
    reveal_strlit("!");
    lemma_decimal_digits(ids[0] as nat);
    let neg = negated_decimals(ids);
    let pos = decimals(ids);
    assert(neg[0] == "!"@ + decimal(ids[0] as nat));
    assert(neg[0][0] == '!');
    lemma_join_first(neg, ","@);
    lemma_join_first(pos, ","@);
    assert(is_digit(pos[0][0]));
}

/// Every digit is written with one character.
pub proof fn lemma_digit_text_len(d: nat)
    ensures
        digit_text(d).len() == 1,
{
    reveal_strlit("0");
    reveal_strlit("1");
    reveal_strlit("2");
    reveal_strlit("3");
    reveal_strlit("4");
    reveal_strlit("5");
    reveal_strlit("6");
    reveal_strlit("7");
    reveal_strlit("8");
    reveal_strlit("9");
}

/// A number below `10` to the power `w` is written with at most `w` digits
/// (and with at least one).
pub proof fn lemma_decimal_fits(n: nat, w: nat)
    requires
        1 <= w,
        n < pow10(w),
    ensures
        1 <= decimal(n).len() <= w,
    decreases w,
{
    if n < 10 {
        lemma_digit_text_len(n);
    } else {
        if w == 1 {
            assert(pow10(1) == 10 * pow10(0));
        }
        let q = n / 10;
        assert(q < pow10((w - 1) as nat)) by (nonlinear_arith)
            requires
                n < 10 * pow10((w - 1) as nat),
                q == n / 10,
        ;
        lemma_decimal_fits(q, (w - 1) as nat);
        lemma_digit_text_len(n % 10);
    }
}

} // verus!
