//! What the text helpers give, said of every call of them.
//!
//! `call_ensures(f, args, r)` is a call of `f` on `args` that returned `r`.
use crate::text::{
    all_digits, bool_str, digits_value, ends_with, is_digit, is_white_space, join_path,
    parse_u32, split_once, strip_part, to_decimal, trim, trim_end, trim_path, trim_start,
    trimmed_end, trimmed_path_end, trimmed_path_start, trimmed_start, white_space, without_plus,
};
use vstd::prelude::*;

verus! {

/// A number below ten is written as its one digit; any other as its tens, followed by the
/// digit that is left.
pub proof fn law_number_is_written_digit_by_digit(n: u64, text: String, tens: String)
    requires
        call_ensures(to_decimal, (n,), text),
        call_ensures(to_decimal, (n / 10,), tens),
    ensures
        n < 10 ==> text@ == seq![(48 + n) as char],
        n >= 10 ==> text@ == tens@.push((48 + n % 10) as char),
{
}

/// The two truth values are written as the two words.
pub proof fn law_truth_values_are_written_as_words(b: bool, text: &'static str)
    requires
        call_ensures(bool_str, (b,), text),
    ensures
        b ==> text@ == "true"@,
        !b ==> text@ == "false"@,
{
}

/// What holds of one digit more at the end of a text.
proof fn lemma_one_more(s: Seq<char>, c: char)
    requires
        s.len() > 0,
        s != seq!['+'],
    ensures
        without_plus(s.push(c)) == without_plus(s).push(c),
        without_plus(s).len() > 0,
        all_digits(without_plus(s).push(c)) <==> all_digits(without_plus(s)) && is_digit(c),
        digits_value(without_plus(s).push(c)) == digits_value(without_plus(s)) * 10 + (c as nat
            - 48) as nat,
{
    let d = without_plus(s);
    assert(without_plus(s.push(c)) =~= d.push(c));
    if s[0] == '+' && s.len() == 1 {
        assert(s =~= seq!['+']);
    }
    assert(d.push(c).drop_last() =~= d);
    if all_digits(d.push(c)) {
        assert(is_digit(d.push(c)[d.len() as int]));
        assert forall|i: int| 0 <= i < d.len() implies is_digit(#[trigger] d[i]) by {
            assert(is_digit(d.push(c)[i]));
        }
    }
}

/// No text at all, a lone plus sign, and a text that ends in anything but a digit are no
/// numbers.
pub proof fn law_number_ends_in_a_digit(s: &str, r: Option<u32>)
    requires
        call_ensures(parse_u32, (s,), r),
        s@.len() == 0 || !('0' <= s@.last() <= '9'),
    ensures
        r is None,
{
    if s@.len() > 0 {
        let d = without_plus(s@);
        if d.len() > 0 {
            assert(d.last() == s@.last());
            if all_digits(d) {
                assert(is_digit(d[d.len() - 1]));
            }
        }
    }
}

/// One digit is its own value, with or without a plus sign before it.
pub proof fn law_one_digit_is_its_value(s: &str, c: char, r: Option<u32>)
    requires
        call_ensures(parse_u32, (s,), r),
        '0' <= c <= '9',
        s@ == seq![c] || s@ == seq!['+', c],
    ensures
        r == Some((c as int - 48) as u32),
{
    reveal_with_fuel(digits_value, 2);
    let d = without_plus(s@);
    assert(d =~= seq![c]);
    assert(d.drop_last() =~= Seq::empty());
    assert(d.last() == c);
}

/// A digit more at the end of a number makes it ten times the number and the digit, as long
/// as that fits in 32 bits; what was no number, or did not fit, does not become one.
pub proof fn law_one_digit_more(s: &str, t: &str, c: char, r: Option<u32>, q: Option<u32>)
    requires
        call_ensures(parse_u32, (s,), r),
        call_ensures(parse_u32, (t,), q),
        s@.len() > 0,
        s@ != seq!['+'],
        '0' <= c <= '9',
        t@ == s@.push(c),
    ensures
        r is None ==> q is None,
        r matches Some(v) ==> {
            let next = v * 10 + (c as int - 48);
            &&& next <= u32::MAX ==> q == Some(next as u32)
            &&& next > u32::MAX ==> q is None
        },
{
    lemma_one_more(s@, c);
}

/// White space is what Unicode's `White_Space` property lists.
pub proof fn law_white_space_is_as_in_unicode(c: char, r: bool)
    requires
        call_ensures(white_space, (c,), r),
    ensures
        r <==> {
            let n = c as int;
            ||| 0x9 <= n <= 0xd
            ||| n == 0x20
            ||| n == 0x85
            ||| n == 0xa0
            ||| n == 0x1680
            ||| 0x2000 <= n <= 0x200a
            ||| 0x2028 <= n <= 0x2029
            ||| n == 0x202f
            ||| n == 0x205f
            ||| n == 0x3000
        },
{
}

/// What trimming the end leaves off.
proof fn lemma_trimmed_end(s: Seq<char>)
    ensures
        trimmed_end(s).len() <= s.len(),
        trimmed_end(s) == s.take(trimmed_end(s).len() as int),
        forall|i: int| trimmed_end(s).len() <= i < s.len() ==> is_white_space(#[trigger] s[i]),
        trimmed_end(s).len() > 0 ==> !is_white_space(trimmed_end(s).last()),
    decreases s.len(),
{
    if s.len() > 0 && is_white_space(s.last()) {
        let init = s.drop_last();
        lemma_trimmed_end(init);
        assert(trimmed_end(s) =~= s.take(trimmed_end(s).len() as int));
        assert forall|i: int| trimmed_end(s).len() <= i < s.len() implies is_white_space(
            #[trigger] s[i],
        ) by {
            if i < init.len() {
                assert(init[i] == s[i]);
            }
        }
    } else {
        assert(s.take(s.len() as int) =~= s);
    }
}

/// What trimming the start leaves off.
proof fn lemma_trimmed_start(s: Seq<char>)
    ensures
        trimmed_start(s).len() <= s.len(),
        trimmed_start(s) == s.skip(s.len() - trimmed_start(s).len()),
        forall|i: int|
            0 <= i < s.len() - trimmed_start(s).len() ==> is_white_space(#[trigger] s[i]),
        trimmed_start(s).len() > 0 ==> !is_white_space(trimmed_start(s)[0]),
    decreases s.len(),
{
    if s.len() > 0 && is_white_space(s[0]) {
        let tail = s.skip(1);
        lemma_trimmed_start(tail);
        assert(trimmed_start(s) =~= s.skip(s.len() - trimmed_start(s).len()));
        assert forall|i: int| 0 <= i < s.len() - trimmed_start(s).len() implies is_white_space(
            #[trigger] s[i],
        ) by {
            if i > 0 {
                assert(tail[i - 1] == s[i]);
            }
        }
    } else {
        assert(s.skip(0) =~= s);
    }
}

/// Trimming leaves off white space at the end and nothing else, and leaves none there.
pub proof fn law_trimming_the_end_leaves_off_white_space_only(
    s: &str,
    r: &str,
    c: char,
    white: bool,
)
    requires
        call_ensures(trim_end, (s,), r),
        call_ensures(white_space, (c,), white),
    ensures
        r@.is_prefix_of(s@),
        r@.len() <= s@.len(),
        s@.skip(r@.len() as int).contains(c) ==> white,
        r@.len() > 0 && r@.last() == c ==> !white,
{
    lemma_trimmed_end(s@);
    let off = s@.skip(r@.len() as int);
    if off.contains(c) {
        let i = choose|i: int| 0 <= i < off.len() && off[i] == c;
        assert(is_white_space(s@[r@.len() + i]));
    }
}

/// Trimming leaves off white space at the start and nothing else, and leaves none there.
pub proof fn law_trimming_the_start_leaves_off_white_space_only(
    s: &str,
    r: &str,
    c: char,
    white: bool,
)
    requires
        call_ensures(trim_start, (s,), r),
        call_ensures(white_space, (c,), white),
    ensures
        r@.len() <= s@.len(),
        r@ == s@.skip(s@.len() - r@.len()),
        s@.take(s@.len() - r@.len()).contains(c) ==> white,
        r@.len() > 0 && r@[0] == c ==> !white,
{
    lemma_trimmed_start(s@);
    let off = s@.take(s@.len() - r@.len());
    if off.contains(c) {
        let i = choose|i: int| 0 <= i < off.len() && off[i] == c;
        assert(is_white_space(s@[i]));
    }
}

/// Trimming both sides is trimming one side, then the other.
pub proof fn law_trimming_is_trimming_both_sides(s: &str, end: &str, both: &str, r: &str)
    requires
        call_ensures(trim, (s,), r),
        call_ensures(trim_end, (s,), end),
        call_ensures(trim_start, (end,), both),
    ensures
        r@ == both@,
{
}

/// A text ends with another exactly where it is something followed by the other.
pub proof fn law_suffix_closes_the_text(s: &str, suffix: &str, r: bool)
    requires
        call_ensures(ends_with, (s, suffix), r),
    ensures
        r <==> exists|before: Seq<char>| #[trigger] (before + suffix@) == s@,
{
    if r {
        let before = s@.take(s@.len() - suffix@.len());
        assert(before + suffix@ =~= s@);
    }
    if exists|before: Seq<char>| #[trigger] (before + suffix@) == s@ {
        let before = choose|before: Seq<char>| #[trigger] (before + suffix@) == s@;
        assert(s@.len() == before.len() + suffix@.len());
        assert(s@.skip(s@.len() - suffix@.len()) =~= suffix@);
    }
}

/// A text is cut at the first occurrence of a character, where there is one: the two parts
/// and the character between them make up the text, and the first part is free of it.
pub proof fn law_text_is_cut_at_the_first_occurrence(
    s: &str,
    c: char,
    r: Option<(String, String)>,
)
    requires
        call_ensures(split_once, (s, c), r),
    ensures
        r is None <==> !s@.contains(c),
        r matches Some((before, after)) ==> {
            &&& s@ == before@ + seq![c] + after@
            &&& !before@.contains(c)
        },
{
    s@.index_of_first_ensures(c);
    if s@.contains(c) {
        let i = s@.index_of_first(c)->0;
        assert(s@.take(i) + seq![c] + s@.skip(i + 1) =~= s@);
        if s@.take(i).contains(c) {
            let j = choose|j: int| 0 <= j < s@.take(i).len() && s@.take(i)[j] == c;
            assert(s@[j] == c);
        }
    }
}

/// A path below another is written after it with one slash between them, unless there is
/// one already or nothing to put one after; an absolute path stays as it is.
pub proof fn law_path_is_put_below_another(base: &str, part: &str, r: String)
    requires
        call_ensures(join_path, (base, part), r),
    ensures
        part@.len() > 0 && part@[0] == '/' ==> r@ == part@,
        (part@.len() == 0 || part@[0] != '/') && (base@.len() == 0 || base@.last() == '/') ==> r@
            == base@ + part@,
        (part@.len() == 0 || part@[0] != '/') && base@.len() > 0 && base@.last() != '/' ==> r@
            == base@ + seq!['/'] + part@,
{
    reveal_strlit("/");
    assert("/"@ =~= seq!['/']);
}

/// The character at this place of a path belongs to no part that names anything: it is a
/// slash, or a dot that is a part by itself.
pub open spec fn names_nothing(path: Seq<char>, i: int) -> bool {
    ||| path[i] == '/'
    ||| {
        &&& path[i] == '.'
        &&& i == 0 || path[i - 1] == '/'
        &&& i == path.len() - 1 || path[i + 1] == '/'
    }
}

/// What trimming the start of a path leaves off.
proof fn lemma_trimmed_path_start(p: Seq<char>)
    ensures
        trimmed_path_start(p).len() <= p.len(),
        trimmed_path_start(p) == p.skip(p.len() - trimmed_path_start(p).len()),
        forall|i: int|
            0 <= i < p.len() - trimmed_path_start(p).len() ==> {
                ||| #[trigger] p[i] == '/'
                ||| p[i] == '.' && (i == p.len() - 1 || p[i + 1] == '/')
            },
        trimmed_path_start(p).len() > 0 ==> {
            let r = trimmed_path_start(p);
            &&& r[0] != '/'
            &&& r[0] == '.' ==> r.len() > 1 && r[1] != '/'
        },
    decreases p.len(),
{
    if p.len() > 0 && (p[0] == '/' || (p[0] == '.' && (p.len() == 1 || p[1] == '/'))) {
        let tail = p.skip(1);
        lemma_trimmed_path_start(tail);
        assert(trimmed_path_start(p) =~= p.skip(p.len() - trimmed_path_start(p).len()));
        assert forall|i: int| 0 <= i < p.len() - trimmed_path_start(p).len() implies {
            ||| #[trigger] p[i] == '/'
            ||| p[i] == '.' && (i == p.len() - 1 || p[i + 1] == '/')
        } by {
            if i > 0 {
                assert(tail[i - 1] == p[i]);
                if i < p.len() - 1 {
                    assert(tail[i] == p[i + 1]);
                }
            }
        }
    } else {
        assert(p.skip(0) =~= p);
    }
}

/// What trimming the end of a path leaves off.
proof fn lemma_trimmed_path_end(p: Seq<char>)
    ensures
        trimmed_path_end(p).len() <= p.len(),
        trimmed_path_end(p) == p.take(trimmed_path_end(p).len() as int),
        forall|i: int|
            trimmed_path_end(p).len() <= i < p.len() ==> {
                ||| #[trigger] p[i] == '/'
                ||| p[i] == '.' && (i == 0 || p[i - 1] == '/')
            },
        trimmed_path_end(p).len() > 0 ==> {
            let r = trimmed_path_end(p);
            &&& r.last() != '/'
            &&& r.last() == '.' ==> r.len() > 1 && r[r.len() - 2] != '/'
        },
    decreases p.len(),
{
    if p.len() > 0 && (p.last() == '/' || (p.last() == '.' && (p.len() == 1 || p[p.len() - 2]
        == '/'))) {
        let init = p.drop_last();
        lemma_trimmed_path_end(init);
        assert(trimmed_path_end(p) =~= p.take(trimmed_path_end(p).len() as int));
        assert forall|i: int| trimmed_path_end(p).len() <= i < p.len() implies {
            ||| #[trigger] p[i] == '/'
            ||| p[i] == '.' && (i == 0 || p[i - 1] == '/')
        } by {
            if i < init.len() {
                assert(init[i] == p[i]);
                if i > 0 {
                    assert(init[i - 1] == p[i - 1]);
                }
            }
        }
    } else {
        assert(p.take(p.len() as int) =~= p);
    }
}

/// A part is taken off a path only where the path is that part after nothing but slashes and
/// dots, and goes on with a slash or not at all.
pub proof fn law_part_is_taken_off_the_start(path: &str, name: &str, rest: &str)
    requires
        call_ensures(strip_part, (path, name), Some(rest)),
    ensures
        rest@.len() > 0 ==> rest@[0] == '/',
        exists|before: Seq<char>|
            #![trigger before + name@]
            path@ == before + name@ + rest@ && forall|i: int|
                0 <= i < before.len() ==> #[trigger] before[i] == '/' || before[i] == '.',
{
    lemma_trimmed_path_start(path@);
    let p = trimmed_path_start(path@);
    let at = path@.len() - p.len();
    let before = path@.take(at);
    let n = name@.len() as int;
    assert(p.take(n) == name@);
    assert(p =~= p.take(n) + p.skip(n));
    assert(path@ =~= before + p);
    assert(before + name@ + rest@ =~= before + p);
    assert(forall|i: int| 0 <= i < before.len() ==> #[trigger] before[i] == path@[i]);
}

/// Blank parts before a part that names something are skipped.
proof fn lemma_blank_start_is_skipped(p: Seq<char>, n: int)
    requires
        0 <= n < p.len(),
        p[n] != '/' && p[n] != '.',
        forall|i: int|
            0 <= i < n ==> #[trigger] p[i] == '/' || (p[i] == '.' && i + 1 < p.len() && p[i + 1]
                == '/'),
    ensures
        trimmed_path_start(p) == p.skip(n),
    decreases n,
{
    if n == 0 {
        assert(p.skip(0) =~= p);
    } else {
        let tail = p.skip(1);
        assert(p[0] == '/' || p[0] == '.');
        assert forall|i: int| 0 <= i < n - 1 implies #[trigger] tail[i] == '/' || (tail[i] == '.'
            && i + 1 < tail.len() && tail[i + 1] == '/') by {
            assert(tail[i] == p[i + 1]);
            assert(tail[i + 1] == p[i + 2]);
        }
        lemma_blank_start_is_skipped(tail, n - 1);
        assert(tail.skip(n - 1) =~= p.skip(n));
    }
}

/// A part is taken off wherever the path begins with it, or with parts that name nothing and
/// then it, and goes on with a slash or not at all; the part itself is to begin with neither
/// a slash nor a dot.
pub proof fn law_first_part_is_found(
    path: &str,
    before: Seq<char>,
    name: &str,
    rest: Seq<char>,
    r: Option<&str>,
)
    requires
        call_ensures(strip_part, (path, name), r),
        path@ == before + name@ + rest,
        forall|i: int| 0 <= i < before.len() ==> #[trigger] names_nothing(path@, i),
        name@.len() > 0,
        name@[0] != '/' && name@[0] != '.',
        rest.len() > 0 ==> rest[0] == '/',
    ensures
        r matches Some(below) && below@ == rest,
{
    let n = before.len() as int;
    let p = path@;
    assert(p[n] == name@[0]);
    assert forall|i: int| 0 <= i < n implies #[trigger] p[i] == '/' || (p[i] == '.' && i + 1
        < p.len() && p[i + 1] == '/') by {
        assert(names_nothing(p, i));
    }
    lemma_blank_start_is_skipped(p, n);
    let q = p.skip(n);
    assert(q =~= name@ + rest);
    assert(q.take(name@.len() as int) =~= name@);
    assert(q.skip(name@.len() as int) =~= rest);
}

/// Trimming a path leaves off parts that name nothing at its ends, and nothing else, and
/// leaves no such part there.
pub proof fn law_trimmed_path_has_no_blank_ends(path: &str, r: &str)
    requires
        call_ensures(trim_path, (path,), r),
    ensures
        exists|i: int, j: int|
            #![trigger path@.subrange(i, j)]
            0 <= i <= j <= path@.len() && r@ == path@.subrange(i, j) && (forall|k: int|
                0 <= k < path@.len() && !(i <= k < j) ==> #[trigger] names_nothing(path@, k)),
        r@.len() > 0 ==> !names_nothing(r@, 0) && !names_nothing(r@, r@.len() - 1),
{
    let p = path@;
    lemma_trimmed_path_start(p);
    let a = trimmed_path_start(p);
    lemma_trimmed_path_end(a);
    let i = p.len() - a.len();
    let j = i + r@.len();
    assert(r@ =~= p.subrange(i, j));
    assert forall|k: int| 0 <= k < p.len() && !(i <= k < j) implies #[trigger] names_nothing(
        p,
        k,
    ) by {
        if k < i {
            assert(p[k] == '/' || p[k] == '.');
            if k > 0 {
                assert(p[k - 1] == '/' || p[k - 1] == '.');
            }
        } else {
            assert(a[k - i] == p[k]);
            if k > i {
                assert(a[k - i - 1] == p[k - 1]);
            } else if k > 0 {
                assert(p[k - 1] == '/' || p[k - 1] == '.');
            }
            if k < p.len() - 1 {
                assert(a[k - i + 1] == p[k + 1]);
            }
        }
    }
    if r@.len() > 0 {
        assert(r@[0] == a[0]);
        if r@.len() > 1 {
            assert(r@[1] == a[1]);
            assert(r@[r@.len() - 2] == a[r@.len() - 2]);
        }
    }
}

} // verus!
