//! Text shown on the dashboard: Brazilian currency, quantities and asset
//! symbols.
//!
//! Rendering a binary64 value with a fixed number of decimals happens
//! outside the library; what is decided here works on that text.
use vstd::prelude::*;
use crate::text::{chars_of, push_char, string_from_chars};

verus! {

/// The characters of `s` before its first `.` (all of `s` without one),
/// the first piece that `str::split('.')` yields.
pub open spec fn before_dot(s: Seq<char>) -> Seq<char>
    decreases s.len(),
{
    if s.len() == 0 {
        s
    } else if s[0] == '.' {
        Seq::empty()
    } else {
        seq![s[0]] + before_dot(s.drop_first())
    }
}

/// The second piece that `str::split('.')` yields, if there is one.
pub open spec fn second_piece(s: Seq<char>) -> Option<Seq<char>> {
    if s.contains('.') {
        Some(before_dot(s.skip(before_dot(s).len() as int + 1)))
    } else {
        None
    }
}

/// `digits` with a `.` between groups of three, counted from the right.
pub open spec fn group_thousands(digits: Seq<char>) -> Seq<char>
    decreases digits.len(),
{
    if digits.len() <= 3 {
        digits
    } else {
        group_thousands(digits.take(digits.len() - 3)) + seq!['.'] + digits.skip(
            digits.len() - 3,
        )
    }
}

/// The currency text for a value whose absolute value was rendered with two
/// decimals as `fixed`: an optional minus sign, `R$ `, the integer digits
/// grouped by thousands with `.`, a `,` and the decimals.
pub open spec fn brl_text(fixed: Seq<char>, negative: bool) -> Seq<char> {
    let sign = if negative {
        seq!['-']
    } else {
        Seq::empty()
    };
    let decimals = match second_piece(fixed) {
        Some(d) => d,
        None => seq!['0', '0'],
    };
    sign + seq!['R', '$', ' '] + group_thousands(before_dot(fixed)) + seq![','] + decimals
}

/// Characterises `before_dot` by the position of the first `.`.
pub proof fn lemma_before_dot_at(s: Seq<char>, k: int)
    requires
        0 <= k <= s.len(),
        forall|i: int| 0 <= i < k ==> #[trigger] s[i] != '.',
        k < s.len() ==> s[k] == '.',
    ensures
        before_dot(s) =~= s.take(k),
    decreases k,
{
    if k > 0 {
        let t = s.drop_first();
        assert forall|i: int| 0 <= i < k - 1 implies #[trigger] t[i] != '.' by {
            assert(t[i] == s[i + 1]);
        }
        if k - 1 < t.len() {
            assert(t[k - 1] == s[k]);
        }
        lemma_before_dot_at(t, k - 1);
        assert(seq![s[0]] + t.take(k - 1) =~= s.take(k));
    }
}

/// Adding one full group of three to the right extends the grouped text by
/// a separator and that group.
proof fn lemma_group_thousands_step(d: Seq<char>, i: int)
    requires
        1 <= i,
        i + 3 <= d.len(),
    ensures
        group_thousands(d.take(i + 3)) == group_thousands(d.take(i)) + seq!['.'] + d.subrange(
            i,
            i + 3,
        ),
{
    let t = d.take(i + 3);
    assert(t.take(t.len() - 3) =~= d.take(i));
    assert(t.skip(t.len() - 3) =~= d.subrange(i, i + 3));
}

/// Groups `v[from..to]` by thousands.
fn group_digits(v: &Vec<char>, from: usize, to: usize) -> (r: String)
    requires
        from <= to <= v.len(),
    ensures
        r@ == group_thousands(v@.subrange(from as int, to as int)),
{
    let ghost d = v@.subrange(from as int, to as int);
    let n: usize = to - from;
    let first: usize = if n % 3 == 0 && n > 0 {
        3
    } else {
        n % 3
    };
    let mut r = string_from_chars(v, from, from + first);
    proof {
        assert(d.take(first as int) =~= v@.subrange(from as int, from + first));
    }
    let mut i: usize = first;
    while i < n
        invariant
            from <= to <= v.len(),
            n == to - from,
            d == v@.subrange(from as int, to as int),
            first <= i <= n,
            n > 0 ==> i >= 1,
            (n - i) % 3 == 0,
            r@ == group_thousands(d.take(i as int)),
        decreases n - i,
    {
        proof {
            lemma_group_thousands_step(d, i as int);
        }
        push_char(&mut r, '.');
        push_char(&mut r, v[from + i]);
        push_char(&mut r, v[from + i + 1]);
        push_char(&mut r, v[from + i + 2]);
        assert(d.subrange(i as int, i + 3) =~= seq![v@[from + i], v@[from + i + 1], v@[from + i + 2]]);
        i = i + 3;
    }
    assert(d.take(n as int) =~= d);
    r
}

/// The first position at or after `from` that holds `.`, or `v.len()`.
fn find_dot(v: &Vec<char>, from: usize) -> (k: usize)
    requires
        from <= v.len(),
    ensures
        from <= k <= v.len(),
        forall|i: int| from <= i < k ==> #[trigger] v@[i] != '.',
        k < v.len() ==> v@[k as int] == '.',
{
    let mut k: usize = from;
    while k < v.len() && v[k] != '.'
        invariant
            from <= k <= v.len(),
            forall|i: int| from <= i < k ==> #[trigger] v@[i] != '.',
        decreases v.len() - k,
    {
        k = k + 1;
    }
    k
}

/// Formats a value as Brazilian currency from its absolute value rendered
/// with two decimals (`fixed`) and its sign.
pub fn format_brl_text(fixed: &str, negative: bool) -> (r: String)
    ensures
        r@ == brl_text(fixed@, negative),
{
    let v = chars_of(fixed);
    let n: usize = v.len();
    let dot: usize = find_dot(&v, 0);
    proof {
        lemma_before_dot_at(fixed@, dot as int);
    }
    let grouped = group_digits(&v, 0, dot);
    proof {
        assert(v@.subrange(0, dot as int) =~= fixed@.take(dot as int));
    }
    let mut r = String::new();
    if negative {
        push_char(&mut r, '-');
    }
    push_char(&mut r, 'R');
    push_char(&mut r, '$');
    push_char(&mut r, ' ');
    let ghost head = r@;
    r.append(grouped.as_str());
    push_char(&mut r, ',');
    if dot < n {
        let end: usize = find_dot(&v, dot + 1);
        let decimals = string_from_chars(&v, dot + 1, end);
        proof {
            assert(fixed@.contains('.')) by {
                assert(fixed@[dot as int] == '.');
            }
            let rest = fixed@.skip(dot + 1);
            assert forall|i: int| 0 <= i < end - (dot + 1) implies #[trigger] rest[i] != '.' by {
                assert(rest[i] == v@[dot + 1 + i]);
            }
            if end < n {
                assert(rest[end - (dot + 1)] == v@[end as int]);
            }
            lemma_before_dot_at(rest, end - (dot + 1));
            assert(rest.take(end - (dot + 1)) =~= v@.subrange(dot + 1, end as int));
        }
        r.append(decimals.as_str());
    } else {
        proof {
            assert(!fixed@.contains('.')) by {
                if fixed@.contains('.') {
                    let j: int = choose|j: int| 0 <= j < fixed@.len() && fixed@[j] == '.';
                    assert(v@[j] != '.');
                }
            }
        }
        push_char(&mut r, '0');
        push_char(&mut r, '0');
    }
    assert(r@ =~= brl_text(fixed@, negative));
    r
}

/// `s` without the trailing run of `c` (`str::trim_end_matches(c)`).
pub open spec fn trim_end_char(s: Seq<char>, c: char) -> Seq<char>
    decreases s.len(),
{
    if s.len() > 0 && s.last() == c {
        trim_end_char(s.drop_last(), c)
    } else {
        s
    }
}

/// `s` with every `.` replaced by `,`.
pub open spec fn decimal_comma(s: Seq<char>) -> Seq<char> {
    s.map_values(|x: char| if x == '.' { ',' } else { x })
}

/// The quantity text for a value with a fractional part rendered with four
/// decimals as `fixed`: trailing zeros and then a trailing `.` removed, and
/// the decimal point written as a comma.
pub open spec fn quantity_text(fixed: Seq<char>) -> Seq<char> {
    decimal_comma(trim_end_char(trim_end_char(fixed, '0'), '.'))
}

/// Characterises `trim_end_char` by the start of the trailing run.
pub proof fn lemma_trim_end_char_at(s: Seq<char>, c: char, k: int)
    requires
        0 <= k <= s.len(),
        forall|i: int| k <= i < s.len() ==> #[trigger] s[i] == c,
        k > 0 ==> s[k - 1] != c,
    ensures
        trim_end_char(s, c) =~= s.take(k),
    decreases s.len() - k,
{
    if k < s.len() {
        let t = s.drop_last();
        assert forall|i: int| k <= i < t.len() implies #[trigger] t[i] == c by {
            assert(t[i] == s[i]);
        }
        if k > 0 {
            assert(t[k - 1] == s[k - 1]);
        }
        lemma_trim_end_char_at(t, c, k);
        assert(t.take(k) =~= s.take(k));
    }
}

/// The start of the trailing run of `c` in `v[..to]`.
fn trailing_run_start(v: &Vec<char>, to: usize, c: char) -> (k: usize)
    requires
        to <= v.len(),
    ensures
        k <= to,
        forall|i: int| k <= i < to ==> #[trigger] v@[i] == c,
        k > 0 ==> v@[k - 1] != c,
{
    let mut k: usize = to;
    while k > 0 && v[k - 1] == c
        invariant
            k <= to <= v.len(),
            forall|i: int| k <= i < to ==> #[trigger] v@[i] == c,
        decreases k,
    {
        k = k - 1;
    }
    k
}

/// Formats a quantity with a fractional part from its rendering with four
/// decimals: `"3.5000"` becomes `"3,5"`.
pub fn format_quantity_text(fixed: &str) -> (r: String)
    ensures
        r@ == quantity_text(fixed@),
{
    let v = chars_of(fixed);
    let n: usize = v.len();
    let without_zeros: usize = trailing_run_start(&v, n, '0');
    let end: usize = trailing_run_start(&v, without_zeros, '.');
    proof {
        lemma_trim_end_char_at(fixed@, '0', without_zeros as int);
        let t = fixed@.take(without_zeros as int);
        assert forall|i: int| end <= i < t.len() implies #[trigger] t[i] == '.' by {
            assert(t[i] == v@[i]);
        }
        if end > 0 {
            assert(t[end - 1] == v@[end - 1]);
        }
        lemma_trim_end_char_at(t, '.', end as int);
        assert(t.take(end as int) =~= fixed@.take(end as int));
    }
    let mut r = String::new();
    let mut i: usize = 0;
    while i < end
        invariant
            i <= end <= n == v@.len(),
            v@ == fixed@,
            r@ == decimal_comma(fixed@.take(i as int)),
        decreases end - i,
    {
        let c = if v[i] == '.' {
            ','
        } else {
            v[i]
        };
        push_char(&mut r, c);
        assert(decimal_comma(fixed@.take(i + 1)) =~= decimal_comma(fixed@.take(i as int)).push(c));
        i = i + 1;
    }
    r
}

/// What `str::to_uppercase` gives for a string: its Unicode upper-case
/// mapping, a function of the string alone.
pub uninterp spec fn uppercase(s: Seq<char>) -> Seq<char>;

/// Upper-cases `s` with `str::to_uppercase`.
///
/// Claimed: the result is `uppercase(s)`; the Unicode case tables behind it
/// are left unsaid.
#[verifier::external_body]
fn to_uppercase(s: &str) -> (r: String)
    ensures
        r@ == uppercase(s@),
{
    s.to_uppercase()
}

/// The symbol shown for an asset: its first two characters, upper-cased.
pub open spec fn asset_symbol_text(name: Seq<char>) -> Seq<char> {
    uppercase(name.take(if name.len() < 2 { name.len() as int } else { 2 }))
}

/// The symbol shown for an asset named `name`.
pub fn asset_symbol(name: &str) -> (r: String)
    ensures
        r@ == asset_symbol_text(name@),
{
    let v = chars_of(name);
    let k: usize = if v.len() < 2 {
        v.len()
    } else {
        2
    };
    let prefix = string_from_chars(&v, 0, k);
    assert(prefix@ =~= name@.take(k as int));
    to_uppercase(prefix.as_str())
}

/// `s` with every `.` removed.
pub open spec fn without_dots(s: Seq<char>) -> Seq<char>
    decreases s.len(),
{
    if s.len() == 0 {
        s
    } else if s[0] == '.' {
        without_dots(s.drop_first())
    } else {
        seq![s[0]] + without_dots(s.drop_first())
    }
}

proof fn lemma_without_dots_append(a: Seq<char>, b: Seq<char>)
    ensures
        without_dots(a + b) == without_dots(a) + without_dots(b),
    decreases a.len(),
{
    if a.len() == 0 {
        assert(a + b =~= b);
    } else {
        assert((a + b).drop_first() =~= a.drop_first() + b);
        lemma_without_dots_append(a.drop_first(), b);
    }
}

proof fn lemma_without_dots_no_dot(s: Seq<char>)
    requires
        !s.contains('.'),
    ensures
        without_dots(s) == s,
    decreases s.len(),
{
    if s.len() > 0 {
        assert(s[0] != '.');
        assert(!s.drop_first().contains('.')) by {
            if s.drop_first().contains('.') {
                let j: int = choose|j: int| 0 <= j < s.drop_first().len() && s.drop_first()[j] == '.';
                assert(s[j + 1] == '.');
            }
        }
        lemma_without_dots_no_dot(s.drop_first());
        assert(seq![s[0]] + s.drop_first() =~= s);
    }
}

/// Grouping by thousands only inserts separators: taking the separators out
/// of the grouped digits gives back the digits.
pub proof fn lemma_group_thousands_keeps_digits(digits: Seq<char>)
    requires
        !digits.contains('.'),
    ensures
        without_dots(group_thousands(digits)) == digits,
    decreases digits.len(),
{
    if digits.len() <= 3 {
        lemma_without_dots_no_dot(digits);
    } else {
        let head = digits.take(digits.len() - 3);
        let tail = digits.skip(digits.len() - 3);
        assert(!head.contains('.')) by {
            if head.contains('.') {
                let j: int = choose|j: int| 0 <= j < head.len() && head[j] == '.';
                assert(digits[j] == '.');
            }
        }
        assert(!tail.contains('.')) by {
            if tail.contains('.') {
                let j: int = choose|j: int| 0 <= j < tail.len() && tail[j] == '.';
                assert(digits[digits.len() - 3 + j] == '.');
            }
        }
        lemma_group_thousands_keeps_digits(head);
        lemma_without_dots_append(group_thousands(head) + seq!['.'], tail);
        lemma_without_dots_append(group_thousands(head), seq!['.']);
        lemma_without_dots_no_dot(tail);
        assert(without_dots(seq!['.']) =~= Seq::<char>::empty()) by {
            let d = seq!['.'];
            assert(d[0] == '.');
            assert(d.drop_first() =~= Seq::<char>::empty());
            assert(without_dots(d.drop_first()) =~= Seq::<char>::empty());
        }
        assert(head + tail =~= digits);
    }
}

/// Quantities are shown with a decimal comma: the text never holds a `.`.
pub proof fn lemma_quantity_text_has_no_point(fixed: Seq<char>)
    ensures
        !quantity_text(fixed).contains('.'),
{
    let q = quantity_text(fixed);
    if q.contains('.') {
        let j: int = choose|j: int| 0 <= j < q.len() && q[j] == '.';
        assert(q[j] != '.');
    }
}

/// The currency text of a two-decimal rendering `integer + "." + cents`
/// starts with the sign (when negative) and `R$ `, ends with `,` followed by
/// exactly the two cent characters, unchanged, and between the two holds
/// the integer digits with only `.` separators added.
pub proof fn lemma_brl_text_parts(integer: Seq<char>, cents: Seq<char>, negative: bool)
    requires
        !integer.contains('.'),
        cents.len() == 2,
        cents[0] != '.',
        cents[1] != '.',
    ensures
        ({
            let t = brl_text(integer + seq!['.'] + cents, negative);
            let lead: int = if negative { 4 } else { 3 };
            &&& t.len() >= lead + 3
            &&& t.skip(t.len() - 3) == seq![','] + cents
            &&& t.take(lead) == (if negative { seq!['-', 'R', '$', ' '] } else { seq!['R', '$', ' '] })
            &&& without_dots(t.subrange(lead, t.len() - 3)) == integer
        }),
{
    let fixed = integer + seq!['.'] + cents;
    let k = integer.len() as int;
    assert forall|i: int| 0 <= i < k implies #[trigger] fixed[i] != '.' by {
        assert(fixed[i] == integer[i]);
        if integer[i] == '.' {
            assert(integer.contains('.'));
        }
    }
    assert(fixed[k] == '.');
    lemma_before_dot_at(fixed, k);
    assert(fixed.take(k) =~= integer);
    assert(fixed.contains('.'));
    let rest = fixed.skip(k + 1);
    assert(rest =~= cents);
    assert forall|i: int| 0 <= i < 2 implies #[trigger] rest[i] != '.' by {}
    lemma_before_dot_at(rest, 2);
    assert(rest.take(2) =~= cents);
    assert(second_piece(fixed) == Some(cents));
    lemma_group_thousands_keeps_digits(integer);
    let g = group_thousands(integer);
    let sign: Seq<char> = if negative { seq!['-'] } else { Seq::empty() };
    let t = brl_text(fixed, negative);
    assert(t == sign + seq!['R', '$', ' '] + g + seq![','] + cents);
    let lead: int = if negative { 4 } else { 3 };
    assert(t.skip(t.len() - 3) =~= seq![','] + cents);
    assert(t.subrange(lead, t.len() - 3) =~= g);
    assert(t.take(lead) =~= (if negative { seq!['-', 'R', '$', ' '] } else { seq!['R', '$', ' '] }));
}

} // verus!
