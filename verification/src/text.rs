use vstd::prelude::*;
use vstd::string::*;

verus! {

broadcast use vstd::string::group_string_axioms;

// ---------------------------------------------------------------------------
// Specifications of the text operations the library relies on.
// ---------------------------------------------------------------------------

/// Unicode `White_Space` characters (those for which `char::is_whitespace` holds).
pub open spec fn is_white_space(c: char) -> bool {
    let x = c as u32;
    ||| 0x9 <= x <= 0xD
    ||| x == 0x20
    ||| x == 0x85
    ||| x == 0xA0
    ||| x == 0x1680
    ||| 0x2000 <= x <= 0x200A
    ||| x == 0x2028
    ||| x == 0x2029
    ||| x == 0x202F
    ||| x == 0x205F
    ||| x == 0x3000
}

/// `s` without its leading white space.
pub open spec fn trim_start_ws(s: Seq<char>) -> Seq<char>
    decreases s.len(),
{
    if s.len() > 0 && is_white_space(s[0]) {
        trim_start_ws(s.drop_first())
    } else {
        s
    }
}

/// `s` without its trailing white space.
pub open spec fn trim_end_ws(s: Seq<char>) -> Seq<char>
    decreases s.len(),
{
    if s.len() > 0 && is_white_space(s.last()) {
        trim_end_ws(s.drop_last())
    } else {
        s
    }
}

/// `s` without leading and trailing white space, as `str::trim` gives it.
pub open spec fn trim_ws(s: Seq<char>) -> Seq<char> {
    trim_end_ws(trim_start_ws(s))
}

/// `s` without any leading occurrence of `c`, as `str::trim_start_matches(c)` gives it.
pub open spec fn trim_start_char(s: Seq<char>, c: char) -> Seq<char>
    decreases s.len(),
{
    if s.len() > 0 && s[0] == c {
        trim_start_char(s.drop_first(), c)
    } else {
        s
    }
}

/// `p` is a prefix of `s`.
pub open spec fn starts_with(s: Seq<char>, p: Seq<char>) -> bool {
    p.len() <= s.len() && s.take(p.len() as int) == p
}

/// Number of characters before the first line feed (all of `s` when there is none).
pub open spec fn line_len(s: Seq<char>) -> nat
    decreases s.len(),
{
    if s.len() == 0 || s[0] == '\n' {
        0
    } else {
        1 + line_len(s.drop_first())
    }
}

/// A line without the carriage return that ended it.
pub open spec fn strip_cr(l: Seq<char>) -> Seq<char> {
    if l.len() > 0 && l.last() == '\r' {
        l.drop_last()
    } else {
        l
    }
}

/// The lines of `s`, as `str::lines` yields them: split at `\n`, a `\r` right before
/// the `\n` dropped, and no empty line after a final line feed.
pub open spec fn lines_of(s: Seq<char>) -> Seq<Seq<char>>
    decreases s.len(),
{
    if s.len() == 0 {
        seq![]
    } else {
        let k = line_len(s);
        proof {
            lemma_line_len_bound(s);
        }
        if k == s.len() {
            seq![s]
        } else {
            seq![strip_cr(s.take(k as int))] + lines_of(s.skip(k + 1 as int))
        }
    }
}

/// The lines joined with `sep` between each two, as `[T]::join` gives it.
pub open spec fn join_with(ls: Seq<Seq<char>>, sep: char) -> Seq<char>
    decreases ls.len(),
{
    if ls.len() == 0 {
        seq![]
    } else if ls.len() == 1 {
        ls[0]
    } else {
        join_with(ls.drop_last(), sep) + seq![sep] + ls.last()
    }
}

/// Every non-overlapping occurrence of `pat` in `s`, taken from the left, replaced by `rep`,
/// as `str::replace` gives it for a non-empty pattern.
pub open spec fn replace_all(s: Seq<char>, pat: Seq<char>, rep: Seq<char>) -> Seq<char>
    decreases s.len(),
{
    if s.len() == 0 {
        seq![]
    } else if pat.len() > 0 && starts_with(s, pat) {
        rep + replace_all(s.skip(pat.len() as int), pat, rep)
    } else {
        seq![s[0]] + replace_all(s.drop_first(), pat, rep)
    }
}

/// The character sequences held by a vector of character vectors.
pub open spec fn views(v: Seq<Vec<char>>) -> Seq<Seq<char>> {
    v.map_values(|x: Vec<char>| x@)
}

/// `s` without any trailing occurrence of `c`.
pub open spec fn trim_end_char(s: Seq<char>, c: char) -> Seq<char>
    decreases s.len(),
{
    if s.len() > 0 && s.last() == c {
        trim_end_char(s.drop_last(), c)
    } else {
        s
    }
}

/// `s` without leading or trailing occurrences of `c`, as `str::trim_matches(c)` gives it.
pub open spec fn trim_char(s: Seq<char>, c: char) -> Seq<char> {
    trim_end_char(trim_start_char(s, c), c)
}

/// The first position at or after `i` where `p` occurs in `s`.
pub open spec fn find_from(s: Seq<char>, p: Seq<char>, i: int) -> Option<int>
    decreases s.len() - i,
{
    if i < 0 || i + p.len() > s.len() {
        None
    } else if p.len() == 0 || starts_with(s.skip(i), p) {
        Some(i)
    } else {
        find_from(s, p, i + 1)
    }
}

/// `p` occurs in `s`, as `str::contains` tells it.
pub open spec fn contains(s: Seq<char>, p: Seq<char>) -> bool {
    find_from(s, p, 0) is Some
}

/// The first line, at or after `i`, in which `p` occurs.
pub open spec fn first_line_with(lines: Seq<Seq<char>>, p: Seq<char>, i: int) -> Option<int>
    decreases lines.len() - i,
{
    if i < 0 || i >= lines.len() {
        None
    } else if contains(lines[i], p) {
        Some(i)
    } else {
        first_line_with(lines, p, i + 1)
    }
}

/// Number of leading characters that are not white space.
pub open spec fn word_len(s: Seq<char>) -> nat
    decreases s.len(),
{
    if s.len() == 0 || is_white_space(s[0]) {
        0
    } else {
        1 + word_len(s.drop_first())
    }
}

/// The first position at or after `i` where a white-space-separated word of `s`
/// begins with `p`.
pub open spec fn first_word_with_prefix(s: Seq<char>, p: Seq<char>, i: int) -> Option<int>
    decreases s.len() - i,
{
    if i < 0 || i >= s.len() {
        None
    } else if (i == 0 || is_white_space(s[i - 1])) && starts_with(s.skip(i), p) {
        Some(i)
    } else {
        first_word_with_prefix(s, p, i + 1)
    }
}

/// No line feed in `s`.
pub open spec fn no_newline(s: Seq<char>) -> bool {
    forall|i: int| 0 <= i < s.len() ==> s[i] != '\n'
}

proof fn lemma_line_len_whole(a: Seq<char>)
    requires
        no_newline(a),
    ensures
        line_len(a) == a.len(),
    decreases a.len(),
{
    if a.len() > 0 {
        assert(no_newline(a.drop_first())) by {
            assert forall|i: int| 0 <= i < a.drop_first().len() implies a.drop_first()[i] != '\n' by {
                assert(a.drop_first()[i] == a[i + 1]);
            }
        }
        lemma_line_len_whole(a.drop_first());
    }
}

proof fn lemma_line_len_of_prefix(a: Seq<char>, b: Seq<char>)
    requires
        no_newline(a),
    ensures
        line_len(a + seq!['\n'] + b) == a.len(),
    decreases a.len(),
{
    let x = a + seq!['\n'] + b;
    if a.len() > 0 {
        assert(no_newline(a.drop_first())) by {
            assert forall|i: int| 0 <= i < a.drop_first().len() implies a.drop_first()[i] != '\n' by {
                assert(a.drop_first()[i] == a[i + 1]);
            }
        }
        lemma_line_len_of_prefix(a.drop_first(), b);
        assert(x.drop_first() =~= a.drop_first() + seq!['\n'] + b);
        assert(x[0] == a[0]);
    } else {
        assert(x[0] == '\n');
    }
}

/// Every line that `lines_of` yields is free of line feeds.
pub proof fn lemma_lines_no_newline(s: Seq<char>)
    ensures
        forall|i: int| 0 <= i < lines_of(s).len() ==> no_newline(#[trigger] lines_of(s)[i]),
    decreases s.len(),
{
    if s.len() > 0 {
        let k = line_len(s);
        lemma_line_len_bound(s);
        if k == s.len() {
            assert(lines_of(s) == seq![s]);
        } else {
            lemma_lines_no_newline(s.skip((k + 1) as int));
            let first = strip_cr(s.take(k as int));
            assert(no_newline(first)) by {
                assert forall|i: int| 0 <= i < first.len() implies first[i] != '\n' by {
                    assert(first[i] == s[i]);
                }
            }
            let rest = lines_of(s.skip((k + 1) as int));
            assert(lines_of(s) == seq![first] + rest);
            assert forall|i: int| 0 <= i < lines_of(s).len() implies no_newline(
                #[trigger] lines_of(s)[i],
            ) by {
                if i > 0 {
                    assert(lines_of(s)[i] == rest[i - 1]);
                }
            }
        }
    }
}

/// No carriage return in `s`.
pub open spec fn no_cr(s: Seq<char>) -> bool {
    forall|i: int| 0 <= i < s.len() ==> s[i] != '\r'
}

/// Without carriage returns in the text, its lines hold none either.
pub proof fn lemma_lines_no_cr(s: Seq<char>)
    requires
        no_cr(s),
    ensures
        forall|i: int| 0 <= i < lines_of(s).len() ==> no_cr(#[trigger] lines_of(s)[i]),
    decreases s.len(),
{
    if s.len() > 0 {
        let k = line_len(s);
        lemma_line_len_bound(s);
        if k == s.len() {
            assert(lines_of(s) == seq![s]);
        } else {
            let t = s.skip((k + 1) as int);
            assert(no_cr(t)) by {
                assert forall|i: int| 0 <= i < t.len() implies t[i] != '\r' by {
                    assert(t[i] == s[i + k + 1]);
                }
            }
            lemma_lines_no_cr(t);
            let first = strip_cr(s.take(k as int));
            assert(no_cr(first)) by {
                assert forall|i: int| 0 <= i < first.len() implies first[i] != '\r' by {
                    assert(first[i] == s[i]);
                }
            }
            let rest = lines_of(t);
            assert(lines_of(s) == seq![first] + rest);
            assert forall|i: int| 0 <= i < lines_of(s).len() implies no_cr(#[trigger] lines_of(s)[i]) by {
                if i > 0 {
                    assert(lines_of(s)[i] == rest[i - 1]);
                }
            }
        }
    }
}

/// Without carriage returns, the last line is empty only when the text ends with a line
/// feed that follows another line feed or stands alone.
pub proof fn lemma_last_line_empty(s: Seq<char>)
    requires
        no_cr(s),
        lines_of(s).len() > 0,
        lines_of(s).last().len() == 0,
    ensures
        s.len() > 0,
        s.last() == '\n',
        s.len() == 1 || s[s.len() - 2] == '\n',
    decreases s.len(),
{
    let k = line_len(s);
    lemma_line_len_bound(s);
    if k == s.len() {
        assert(lines_of(s) == seq![s]);
    } else {
        let t = s.skip((k + 1) as int);
        let first = strip_cr(s.take(k as int));
        let rest = lines_of(t);
        assert(lines_of(s) == seq![first] + rest);
        assert(s[k as int] == '\n') by {
            lemma_line_len_stops(s);
        }
        if rest.len() == 0 {
            assert(first == lines_of(s).last());
            if k > 0 {
                assert(s.take(k as int).last() == s[k - 1]);
                assert(s[k - 1] != '\r');
            }
            assert(s.take(k as int).len() == 0);
            if t.len() > 0 {
                lemma_lines_nonempty(t);
            }
            assert(s.len() == 1);
        } else {
            assert(rest.last() == lines_of(s).last());
            assert(no_cr(t)) by {
                assert forall|i: int| 0 <= i < t.len() implies t[i] != '\r' by {
                    assert(t[i] == s[i + k + 1]);
                }
            }
            lemma_last_line_empty(t);
            assert(s.last() == t.last());
            if t.len() == 1 {
                assert(s[s.len() - 2] == s[k as int]);
            } else {
                assert(s[s.len() - 2] == t[t.len() - 2]);
            }
        }
    }
}

/// A text with any character has at least one line.
proof fn lemma_lines_nonempty(s: Seq<char>)
    requires
        s.len() > 0,
    ensures
        lines_of(s).len() > 0,
{
    lemma_line_len_bound(s);
}

/// When `line_len` stops short of the end, it stops at a line feed.
proof fn lemma_line_len_stops(s: Seq<char>)
    requires
        line_len(s) < s.len(),
    ensures
        s[line_len(s) as int] == '\n',
    decreases s.len(),
{
    if s.len() > 0 && s[0] != '\n' {
        lemma_line_len_stops(s.drop_first());
        assert(s.drop_first()[line_len(s.drop_first()) as int] == s[line_len(s) as int]);
    }
}

/// The last character of joined lines is that of the last line, when it is not empty.
pub proof fn lemma_join_last(ls: Seq<Seq<char>>, sep: char)
    requires
        ls.len() >= 1,
        ls.last().len() > 0,
    ensures
        join_with(ls, sep).len() > 0,
        join_with(ls, sep).last() == ls.last().last(),
{
    if ls.len() >= 2 {
        let j = join_with(ls, sep);
        assert(j == join_with(ls.drop_last(), sep) + seq![sep] + ls.last());
        assert(j.last() == ls.last().last());
    }
}

/// Without carriage returns and without a final line feed, joining the lines of a text
/// with `\n` gives the text back.
pub proof fn lemma_join_lines_of(s: Seq<char>)
    requires
        no_cr(s),
        s.len() == 0 || s.last() != '\n',
    ensures
        join_with(lines_of(s), '\n') == s,
    decreases s.len(),
{
    if s.len() > 0 {
        let k = line_len(s);
        lemma_line_len_bound(s);
        if k == s.len() {
            assert(lines_of(s) == seq![s]);
        } else {
            let t = s.skip((k + 1) as int);
            lemma_line_len_stops(s);
            assert(t.len() > 0) by {
                if t.len() == 0 {
                    assert(s.last() == s[k as int]);
                }
            }
            assert(no_cr(t)) by {
                assert forall|i: int| 0 <= i < t.len() implies t[i] != '\r' by {
                    assert(t[i] == s[i + k + 1]);
                }
            }
            assert(t.last() == s.last());
            lemma_join_lines_of(t);
            let first = s.take(k as int);
            assert(strip_cr(first) == first) by {
                if first.len() > 0 {
                    assert(first.last() == s[k - 1]);
                }
            }
            let ls = lines_of(s);
            assert(ls == seq![first] + lines_of(t));
            lemma_lines_nonempty(t);
            assert(ls.len() >= 2);
            lemma_join_front(ls, '\n');
            assert(ls.drop_first() =~= lines_of(t));
            assert(s =~= first + seq!['\n'] + t);
        }
    }
}

/// Joining puts the first line, the separator, then the rest joined.
pub proof fn lemma_join_front(ls: Seq<Seq<char>>, sep: char)
    requires
        ls.len() >= 2,
    ensures
        join_with(ls, sep) == ls[0] + seq![sep] + join_with(ls.drop_first(), sep),
    decreases ls.len(),
{
    if ls.len() == 2 {
        assert(ls.drop_last().len() == 1);
        assert(join_with(ls.drop_last(), sep) == ls[0]);
        assert(ls.drop_first().len() == 1);
        assert(join_with(ls.drop_first(), sep) == ls[1]);
    } else {
        lemma_join_front(ls.drop_last(), sep);
        assert(ls.drop_last().drop_first() =~= ls.drop_first().drop_last());
        assert(ls.drop_first().last() == ls.last());
        assert(join_with(ls.drop_first(), sep) == join_with(ls.drop_first().drop_last(), sep)
            + seq![sep] + ls.drop_first().last());
        assert(join_with(ls, sep) =~= ls[0] + seq![sep] + join_with(ls.drop_first(), sep));
    }
}

/// Splitting joined lines gives them back, each but the last without a final `\r`,
/// and without the last one when it is empty.
pub proof fn lemma_lines_of_join(ls: Seq<Seq<char>>)
    requires
        ls.len() >= 1,
        forall|i: int| 0 <= i < ls.len() ==> no_newline(#[trigger] ls[i]),
    ensures
        lines_of(join_with(ls, '\n')).len() == if ls.last().len() == 0 {
            ls.len() - 1
        } else {
            ls.len() as int
        },
        forall|i: int|
            0 <= i < ls.len() - 1 ==> #[trigger] lines_of(join_with(ls, '\n'))[i] == strip_cr(ls[i]),
        ls.last().len() > 0 ==> lines_of(join_with(ls, '\n'))[ls.len() - 1] == ls.last(),
    decreases ls.len(),
{
    let j = join_with(ls, '\n');
    if ls.len() == 1 {
        assert(j == ls[0]);
        if ls[0].len() > 0 {
            lemma_line_len_whole(ls[0]);
            assert(lines_of(j) == seq![j]);
        }
    } else {
        let tail = ls.drop_first();
        assert forall|i: int| 0 <= i < tail.len() implies no_newline(#[trigger] tail[i]) by {
            assert(tail[i] == ls[i + 1]);
        }
        lemma_lines_of_join(tail);
        lemma_join_front(ls, '\n');
        let rest = join_with(tail, '\n');
        lemma_line_len_of_prefix(ls[0], rest);
        assert(j.take(ls[0].len() as int) =~= ls[0]);
        assert(j.skip((ls[0].len() + 1) as int) =~= rest);
        let m = lines_of(j);
        assert(m == seq![strip_cr(ls[0])] + lines_of(rest));
        assert forall|i: int| 0 <= i < ls.len() - 1 implies #[trigger] m[i] == strip_cr(ls[i]) by {
            if i > 0 {
                assert(m[i] == lines_of(rest)[i - 1]);
                assert(tail[i - 1] == ls[i]);
            }
        }
        assert(tail.last() == ls.last());
    }
}

/// A trailing white-space character does not change the trimmed text.
proof fn lemma_trim_start_drop_last(x: Seq<char>)
    requires
        x.len() > 0,
        is_white_space(x.last()),
    ensures
        trim_start_ws(x.drop_last()) == if trim_start_ws(x).len() == 0 {
            Seq::<char>::empty()
        } else {
            trim_start_ws(x).drop_last()
        },
        trim_start_ws(x).len() > 0 ==> trim_start_ws(x).last() == x.last(),
    decreases x.len(),
{
    if is_white_space(x[0]) {
        assert(trim_start_ws(x) == trim_start_ws(x.drop_first()));
        if x.len() == 1 {
            assert(x.drop_first() =~= Seq::<char>::empty());
            assert(x.drop_last() =~= Seq::<char>::empty());
            assert(trim_start_ws(x.drop_first()) == x.drop_first());
            assert(trim_start_ws(x.drop_last()) == x.drop_last());
        } else {
            assert(x.drop_first().last() == x.last());
            lemma_trim_start_drop_last(x.drop_first());
            assert(x.drop_last().drop_first() =~= x.drop_first().drop_last());
            assert(x.drop_last()[0] == x[0]);
            assert(trim_start_ws(x.drop_last()) == trim_start_ws(x.drop_last().drop_first()));
        }
    } else {
        assert(x.len() >= 2);
        assert(x.drop_last()[0] == x[0]);
        assert(trim_start_ws(x) == x);
        assert(trim_start_ws(x.drop_last()) == x.drop_last());
    }
}

/// Dropping a final carriage return leaves the trimmed text as it was.
pub proof fn lemma_trim_strip_cr(l: Seq<char>)
    ensures
        trim_ws(strip_cr(l)) == trim_ws(l),
{
    if l.len() > 0 && l.last() == '\r' {
        lemma_trim_start_drop_last(l);
        let y = trim_start_ws(l);
        if y.len() > 0 {
            assert(is_white_space(y.last()));
        }
    }
}

/// A text that neither starts nor ends with white space is its own trimmed form.
pub proof fn lemma_trim_unchanged(x: Seq<char>)
    requires
        x.len() > 0,
        !is_white_space(x[0]),
        !is_white_space(x.last()),
    ensures
        trim_ws(x) == x,
{
}

/// Trimming the end keeps a first character that is not white space.
pub proof fn lemma_trim_end_keeps_first(s: Seq<char>)
    requires
        s.len() > 0,
        !is_white_space(s[0]),
    ensures
        trim_end_ws(s).len() > 0,
        trim_end_ws(s)[0] == s[0],
    decreases s.len(),
{
    if is_white_space(s.last()) {
        assert(s.len() >= 2);
        assert(s.drop_last()[0] == s[0]);
        lemma_trim_end_keeps_first(s.drop_last());
    }
}

/// A text that does not start with white space keeps its first character when trimmed.
pub proof fn lemma_trim_keeps_first(s: Seq<char>)
    requires
        s.len() > 0,
        !is_white_space(s[0]),
    ensures
        trim_ws(s).len() > 0,
        trim_ws(s)[0] == s[0],
{
    assert(trim_start_ws(s) == s);
    lemma_trim_end_keeps_first(s);
}

/// Trimming the start of two joined texts trims the first, or, when it is all white
/// space, the second.
pub proof fn lemma_trim_start_concat(a: Seq<char>, b: Seq<char>)
    ensures
        trim_start_ws(a + b) == if trim_start_ws(a).len() > 0 {
            trim_start_ws(a) + b
        } else {
            trim_start_ws(b)
        },
    decreases a.len(),
{
    if a.len() == 0 {
        assert(a + b =~= b);
    } else if is_white_space(a[0]) {
        assert((a + b)[0] == a[0]);
        assert((a + b).drop_first() =~= a.drop_first() + b);
        lemma_trim_start_concat(a.drop_first(), b);
    } else {
        assert((a + b)[0] == a[0]);
    }
}

/// What trimming the start leaves begins with no white space.
pub proof fn lemma_trim_start_first(s: Seq<char>)
    ensures
        trim_start_ws(s).len() > 0 ==> !is_white_space(trim_start_ws(s)[0]),
    decreases s.len(),
{
    if s.len() > 0 && is_white_space(s[0]) {
        lemma_trim_start_first(s.drop_first());
    }
}

/// Dropping a final carriage return keeps a prefix that does not end with one.
pub proof fn lemma_starts_with_strip_cr(l: Seq<char>, p: Seq<char>)
    requires
        p.len() > 0,
        p.last() != '\r',
    ensures
        starts_with(strip_cr(l), p) == starts_with(l, p),
{
    if l.len() > 0 && l.last() == '\r' {
        let s = l.drop_last();
        if p.len() <= s.len() {
            assert(s.take(p.len() as int) =~= l.take(p.len() as int));
        } else if p.len() == l.len() {
            if starts_with(l, p) {
                assert(l.take(p.len() as int) =~= l);
                assert(p.last() == l.last());
            }
        }
    }
}

/// Replacing a pattern that occurs nowhere leaves the text as it was.
pub proof fn lemma_replace_absent(s: Seq<char>, pat: Seq<char>, rep: Seq<char>)
    requires
        pat.len() > 0,
        forall|i: int| 0 <= i < s.len() ==> !#[trigger] starts_with(s.skip(i), pat),
    ensures
        replace_all(s, pat, rep) == s,
    decreases s.len(),
{
    if s.len() > 0 {
        assert(s.skip(0) =~= s);
        assert(!starts_with(s.skip(0), pat));
        let t = s.drop_first();
        assert forall|i: int| 0 <= i < t.len() implies !#[trigger] starts_with(t.skip(i), pat) by {
            assert(t.skip(i) =~= s.skip(i + 1));
            assert(!starts_with(s.skip(i + 1), pat));
        }
        lemma_replace_absent(t, pat, rep);
        assert(seq![s[0]] + t =~= s);
    }
}

/// A text that starts with `p` starts with every prefix of `p`.
pub proof fn lemma_starts_with_prefix(s: Seq<char>, p: Seq<char>, q: Seq<char>)
    requires
        starts_with(s, p),
        starts_with(p, q),
    ensures
        starts_with(s, q),
{
    assert(s.take(q.len() as int) =~= p.take(q.len() as int));
}

pub proof fn lemma_line_len_bound(s: Seq<char>)
    ensures
        line_len(s) <= s.len(),
        line_len(s) < s.len() ==> s[line_len(s) as int] == '\n',
        forall|i: int| 0 <= i < line_len(s) ==> s[i] != '\n',
    decreases s.len(),
{
    if s.len() > 0 && s[0] != '\n' {
        lemma_line_len_bound(s.drop_first());
        assert forall|i: int| 0 <= i < line_len(s) implies s[i] != '\n' by {
            if i > 0 {
                assert(s[i] == s.drop_first()[i - 1]);
            }
        }
    }
}

// ---------------------------------------------------------------------------
// Executable text operations over character vectors.
// ---------------------------------------------------------------------------

/// `String::push`: believed to append `c` at the end of `s` and to change nothing else,
/// as the standard library documents.
#[verifier::external_body]
fn push_char(s: &mut String, c: char)
    ensures
        final(s)@ == old(s)@.push(c),
{
    s.push(c);
}

/// The characters of a string slice, in order.
pub fn to_chars(s: &str) -> (v: Vec<char>)
    ensures
        v@ == s@,
{
    let mut v: Vec<char> = Vec::new();
    for c in it: s.chars()
        invariant
            v@ == it.seq().take(it.index() as int),
    {
        v.push(c);
    }
    v
}

/// The string made of the given characters.
pub fn from_chars(v: &Vec<char>) -> (s: String)
    ensures
        s@ == v@,
{
    let mut s = String::new();
    for i in 0..v.len()
        invariant
            s@ == v@.take(i as int),
    {
        push_char(&mut s, v[i]);
        assert(v@.take(i + 1) =~= v@.take(i as int).push(v@[i as int]));
    }
    assert(v@.take(v@.len() as int) =~= v@);
    s
}

/// Whether `c` is Unicode white space.
pub fn white_space(c: char) -> (r: bool)
    ensures
        r == is_white_space(c),
{
    let x = c as u32;
    (0x9 <= x && x <= 0xD) || x == 0x20 || x == 0x85 || x == 0xA0 || x == 0x1680 || (0x2000 <= x
        && x <= 0x200A) || x == 0x2028 || x == 0x2029 || x == 0x202F || x == 0x205F || x == 0x3000
}

/// The characters `v[from..to]`.
pub fn sub_chars(v: &Vec<char>, from: usize, to: usize) -> (r: Vec<char>)
    requires
        from <= to <= v@.len(),
    ensures
        r@ == v@.subrange(from as int, to as int),
{
    let mut r: Vec<char> = Vec::new();
    let mut i = from;
    while i < to
        invariant
            from <= i <= to <= v@.len(),
            r@ == v@.subrange(from as int, i as int),
        decreases to - i,
    {
        r.push(v[i]);
        assert(v@.subrange(from as int, i + 1) =~= v@.subrange(from as int, i as int).push(
            v@[i as int],
        ));
        i = i + 1;
    }
    r
}

/// Appends all of `src` to `dst`.
pub fn append_chars(dst: &mut Vec<char>, src: &Vec<char>)
    ensures
        final(dst)@ == old(dst)@ + src@,
{
    let ghost start = dst@;
    for i in 0..src.len()
        invariant
            dst@ == start + src@.take(i as int),
    {
        dst.push(src[i]);
        assert(src@.take(i + 1) =~= src@.take(i as int).push(src@[i as int]));
    }
    assert(src@.take(src@.len() as int) =~= src@);
}

/// Whether the two character sequences are equal.
pub fn chars_eq(a: &Vec<char>, b: &Vec<char>) -> (r: bool)
    ensures
        r == (a@ == b@),
{
    if a.len() != b.len() {
        return false;
    }
    for i in 0..a.len()
        invariant
            a@.len() == b@.len(),
            forall|j: int| 0 <= j < i ==> a@[j] == b@[j],
    {
        if a[i] != b[i] {
            return false;
        }
    }
    assert(a@ =~= b@);
    true
}

/// Whether `p` occurs in `s` at position `at`.
pub fn matches_at(s: &Vec<char>, at: usize, p: &Vec<char>) -> (r: bool)
    requires
        at <= s@.len(),
    ensures
        r == starts_with(s@.skip(at as int), p@),
{
    if p.len() > s.len() - at {
        return false;
    }
    let n = s.len();
    let mut i: usize = 0;
    while i < p.len()
        invariant
            n == s@.len(),
            at + p@.len() <= s@.len(),
            i <= p@.len(),
            forall|j: int| 0 <= j < i ==> s@[at + j] == p@[j],
        decreases p@.len() - i,
    {
        if s[at + i] != p[i] {
            assert(s@.skip(at as int).take(p@.len() as int)[i as int] != p@[i as int]);
            return false;
        }
        i = i + 1;
    }
    assert(s@.skip(at as int).take(p@.len() as int) =~= p@);
    true
}

/// `s` without leading and trailing white space (`str::trim`).
pub fn trim(s: &Vec<char>) -> (r: Vec<char>)
    ensures
        r@ == trim_ws(s@),
{
    let mut i: usize = 0;
    assert(s@.skip(0) =~= s@);
    while i < s.len() && white_space(s[i])
        invariant
            i <= s@.len(),
            trim_start_ws(s@) == trim_start_ws(s@.skip(i as int)),
        decreases s@.len() - i,
    {
        assert(s@.skip(i as int).drop_first() =~= s@.skip(i + 1));
        i = i + 1;
    }
    let ghost t = s@.skip(i as int);
    assert(trim_start_ws(t) == t);
    let mut j: usize = s.len();
    assert(s@.subrange(i as int, j as int) =~= t);
    while j > i && white_space(s[j - 1])
        invariant
            i <= j <= s@.len(),
            trim_end_ws(t) == trim_end_ws(s@.subrange(i as int, j as int)),
        decreases j,
    {
        assert(s@.subrange(i as int, j as int).drop_last() =~= s@.subrange(i as int, j - 1));
        j = j - 1;
    }
    sub_chars(s, i, j)
}

/// `s` without leading occurrences of `c` (`str::trim_start_matches(c)`).
pub fn trim_start_matching(s: &Vec<char>, c: char) -> (r: Vec<char>)
    ensures
        r@ == trim_start_char(s@, c),
{
    let mut i: usize = 0;
    assert(s@.skip(0) =~= s@);
    while i < s.len() && s[i] == c
        invariant
            i <= s@.len(),
            trim_start_char(s@, c) == trim_start_char(s@.skip(i as int), c),
        decreases s@.len() - i,
    {
        assert(s@.skip(i as int).drop_first() =~= s@.skip(i + 1));
        i = i + 1;
    }
    assert(s@.subrange(i as int, s@.len() as int) =~= s@.skip(i as int));
    sub_chars(s, i, s.len())
}

/// Index of the first line feed at or after `start`, or the length when there is none.
fn line_end(s: &Vec<char>, start: usize) -> (k: usize)
    requires
        start <= s@.len(),
    ensures
        k == start + line_len(s@.skip(start as int)),
{
    let mut j = start;
    assert(s@.skip(start as int).skip(0) =~= s@.skip(start as int));
    while j < s.len() && s[j] != '\n'
        invariant
            start <= j <= s@.len(),
            line_len(s@.skip(start as int)) == (j - start) + line_len(s@.skip(j as int)),
        decreases s@.len() - j,
    {
        assert(s@.skip(j as int).drop_first() =~= s@.skip(j + 1));
        j = j + 1;
    }
    j
}

/// The lines of `s` (`str::lines`).
pub fn split_lines(s: &Vec<char>) -> (r: Vec<Vec<char>>)
    ensures
        views(r@) == lines_of(s@),
{
    let mut out: Vec<Vec<char>> = Vec::new();
    let mut start: usize = 0;
    assert(s@.skip(0) =~= s@);
    while start < s.len()
        invariant
            start <= s@.len(),
            lines_of(s@) == views(out@) + lines_of(s@.skip(start as int)),
        decreases s@.len() - start,
    {
        let ghost rest = s@.skip(start as int);
        let k = line_end(s, start);
        proof {
            lemma_line_len_bound(rest);
        }
        if k == s.len() {
            let line = sub_chars(s, start, k);
            assert(line@ =~= rest);
            let ghost before = views(out@);
            out.push(line);
            assert(views(out@) =~= before.push(rest));
            assert(s@.skip(k as int) =~= seq![]);
            assert(lines_of(s@.skip(k as int)) =~= seq![]);
            assert(lines_of(rest) == seq![rest]);
            start = k;
            assert(lines_of(s@) =~= views(out@) + lines_of(s@.skip(start as int)));
        } else {
            let mut line = sub_chars(s, start, k);
            if line.len() > 0 && line[line.len() - 1] == '\r' {
                line.pop();
            }
            assert(rest.take(k - start) =~= s@.subrange(start as int, k as int));
            assert(line@ =~= strip_cr(rest.take(k - start)));
            assert(rest.skip(k - start + 1) =~= s@.skip(k + 1));
            let ghost before = views(out@);
            out.push(line);
            assert(views(out@) =~= before.push(line@));
            start = k + 1;
            assert(lines_of(s@) =~= views(out@) + lines_of(s@.skip(start as int)));
        }
    }
    assert(s@.skip(start as int) =~= seq![]);
    assert(lines_of(s@) =~= views(out@));
    out
}

/// The lines joined with `sep` between each two (`[T]::join`).
pub fn join_lines(ls: &Vec<Vec<char>>, sep: char) -> (r: Vec<char>)
    ensures
        r@ == join_with(views(ls@), sep),
{
    let mut r: Vec<char> = Vec::new();
    let ghost dv = views(ls@);
    for i in 0..ls.len()
        invariant
            dv == views(ls@),
            r@ == join_with(dv.take(i as int), sep),
    {
        assert(dv.take(i + 1).drop_last() =~= dv.take(i as int));
        assert(dv[i as int] == ls[i as int]@);
        if i > 0 {
            r.push(sep);
        }
        append_chars(&mut r, &ls[i]);
        if i == 0 {
            assert(r@ =~= join_with(dv.take(i + 1), sep));
        } else {
            assert(r@ =~= join_with(dv.take(i + 1), sep));
        }
    }
    assert(dv.take(ls.len() as int) =~= dv);
    r
}

/// Every non-overlapping occurrence of `pat` in `s`, from the left, replaced by `rep`
/// (`str::replace` with a non-empty pattern).
pub fn replace_chars(s: &Vec<char>, pat: &Vec<char>, rep: &Vec<char>) -> (r: Vec<char>)
    requires
        pat@.len() > 0,
    ensures
        r@ == replace_all(s@, pat@, rep@),
{
    let mut r: Vec<char> = Vec::new();
    let mut i: usize = 0;
    assert(s@.skip(0) =~= s@);
    while i < s.len()
        invariant
            i <= s@.len(),
            pat@.len() > 0,
            replace_all(s@, pat@, rep@) == r@ + replace_all(s@.skip(i as int), pat@, rep@),
        decreases s@.len() - i,
    {
        let ghost rest = s@.skip(i as int);
        if matches_at(s, i, pat) {
            append_chars(&mut r, rep);
            assert(rest.skip(pat@.len() as int) =~= s@.skip(i + pat@.len()));
            i = i + pat.len();
        } else {
            r.push(s[i]);
            assert(rest.drop_first() =~= s@.skip(i + 1));
            assert(rest[0] == s@[i as int]);
            i = i + 1;
        }
        assert(replace_all(s@, pat@, rep@) =~= r@ + replace_all(s@.skip(i as int), pat@, rep@));
    }
    assert(s@.skip(i as int) =~= seq![]);
    assert(replace_all(s@, pat@, rep@) =~= r@);
    r
}

/// `s` without trailing occurrences of `c`.
pub fn trim_end_matching(s: &Vec<char>, c: char) -> (r: Vec<char>)
    ensures
        r@ == trim_end_char(s@, c),
{
    let mut j: usize = s.len();
    assert(s@.subrange(0, j as int) =~= s@);
    while j > 0 && s[j - 1] == c
        invariant
            j <= s@.len(),
            trim_end_char(s@, c) == trim_end_char(s@.subrange(0, j as int), c),
        decreases j,
    {
        assert(s@.subrange(0, j as int).drop_last() =~= s@.subrange(0, j - 1));
        j = j - 1;
    }
    sub_chars(s, 0, j)
}

/// `s` without leading or trailing occurrences of `c` (`str::trim_matches(c)`).
pub fn trim_matching(s: &Vec<char>, c: char) -> (r: Vec<char>)
    ensures
        r@ == trim_char(s@, c),
{
    trim_end_matching(&trim_start_matching(s, c), c)
}

/// The first position at or after `from` where `p` occurs in `s`.
pub fn find(s: &Vec<char>, p: &Vec<char>, from: usize) -> (r: Option<usize>)
    requires
        from <= s@.len(),
    ensures
        match r {
            Some(i) => find_from(s@, p@, from as int) == Some(i as int) && i + p@.len() <= s@.len(),
            None => find_from(s@, p@, from as int) is None,
        },
{
    let mut i = from;
    while i < s.len() || (i == s.len() && p.len() == 0)
        invariant
            from <= i <= s@.len(),
            find_from(s@, p@, from as int) == find_from(s@, p@, i as int),
        decreases s@.len() - i,
    {
        if p.len() > s.len() - i {
            return None;
        }
        if p.len() == 0 || matches_at(s, i, p) {
            return Some(i);
        }
        if i == s.len() {
            return None;
        }
        i = i + 1;
    }
    None
}

/// Whether `p` occurs in `s` (`str::contains`).
pub fn contains_chars(s: &Vec<char>, p: &Vec<char>) -> (r: bool)
    ensures
        r == contains(s@, p@),
{
    find(s, p, 0).is_some()
}

/// The first line in which `p` occurs.
pub fn find_line_with(lines: &Vec<Vec<char>>, p: &Vec<char>) -> (r: Option<usize>)
    ensures
        match r {
            Some(i) => first_line_with(views(lines@), p@, 0) == Some(i as int) && i < lines@.len(),
            None => first_line_with(views(lines@), p@, 0) is None,
        },
{
    let ghost ls = views(lines@);
    let mut i: usize = 0;
    while i < lines.len()
        invariant
            i <= lines@.len(),
            ls == views(lines@),
            first_line_with(ls, p@, 0) == first_line_with(ls, p@, i as int),
        decreases lines@.len() - i,
    {
        assert(ls[i as int] == lines@[i as int]@);
        if contains_chars(&lines[i], p) {
            return Some(i);
        }
        i = i + 1;
    }
    None
}

/// Number of characters from `from` up to the next white space or the end.
pub fn word_end(s: &Vec<char>, from: usize) -> (k: usize)
    requires
        from <= s@.len(),
    ensures
        k == from + word_len(s@.skip(from as int)),
        k <= s@.len(),
{
    let mut j = from;
    assert(s@.skip(from as int).skip(0) =~= s@.skip(from as int));
    while j < s.len() && !white_space(s[j])
        invariant
            from <= j <= s@.len(),
            word_len(s@.skip(from as int)) == (j - from) + word_len(s@.skip(j as int)),
        decreases s@.len() - j,
    {
        assert(s@.skip(j as int).drop_first() =~= s@.skip(j + 1));
        j = j + 1;
    }
    j
}

/// The first position where a white-space-separated word of `s` begins with `p`.
pub fn find_word_with_prefix(s: &Vec<char>, p: &Vec<char>) -> (r: Option<usize>)
    ensures
        match r {
            Some(i) => first_word_with_prefix(s@, p@, 0) == Some(i as int) && i < s@.len(),
            None => first_word_with_prefix(s@, p@, 0) is None,
        },
{
    let mut i: usize = 0;
    while i < s.len()
        invariant
            i <= s@.len(),
            first_word_with_prefix(s@, p@, 0) == first_word_with_prefix(s@, p@, i as int),
        decreases s@.len() - i,
    {
        if (i == 0 || white_space(s[i - 1])) && matches_at(s, i, p) {
            return Some(i);
        }
        i = i + 1;
    }
    None
}

} // verus!
