use vstd::prelude::*;

use crate::text::{
    lemma_lines_no_newline, lemma_lines_of_join, lemma_starts_with_strip_cr, lemma_trim_strip_cr,
    lemma_trim_unchanged, lemma_trim_keeps_first, lemma_trim_start_concat, lemma_trim_start_first, lemma_trim_end_keeps_first, trim_start_ws, no_newline, no_cr, line_len, lemma_lines_no_cr, lemma_last_line_empty, lemma_join_last, lemma_join_lines_of, strip_cr, is_white_space,
    append_chars, chars_eq, join_lines, join_with, lines_of, matches_at, split_lines, starts_with,
    to_chars, from_chars, trim, trim_ws, views,
};

verus! {

/// `[section]`.
pub open spec fn section_header(section: Seq<char>) -> Seq<char> {
    seq!['['] + section + seq![']']
}

/// `key=`.
pub open spec fn key_prefix(key: Seq<char>) -> Seq<char> {
    key + seq!['=']
}

/// `key=value`.
pub open spec fn key_line(key: Seq<char>, value: Seq<char>) -> Seq<char> {
    key + seq!['='] + value
}

/// The line, trimmed, is the header.
pub open spec fn is_header_line(line: Seq<char>, header: Seq<char>) -> bool {
    trim_ws(line) == header
}

/// The line begins with `[`.
pub open spec fn opens_bracket(line: Seq<char>) -> bool {
    line.len() > 0 && line[0] == '['
}

/// The line is the header or begins some section: either way it ends the lines
/// that belong to the section above it.
pub open spec fn is_marker(line: Seq<char>, header: Seq<char>) -> bool {
    is_header_line(line, header) || opens_bracket(line)
}

/// Line `j` lies inside the section: the last marker line above it is the header.
pub open spec fn in_section(lines: Seq<Seq<char>>, header: Seq<char>, j: int) -> bool {
    exists|h: int|
        0 <= h < j && #[trigger] is_header_line(lines[h], header) && forall|m: int|
            h < m < j ==> !#[trigger] is_marker(lines[m], header)
}

/// Line `j` holds the key inside the section.
pub open spec fn is_key_slot(lines: Seq<Seq<char>>, header: Seq<char>, prefix: Seq<char>, j: int) -> bool {
    &&& 0 <= j < lines.len()
    &&& in_section(lines, header, j)
    &&& !is_marker(lines[j], header)
    &&& starts_with(lines[j], prefix)
}

/// Line `j` is the first line that holds the key inside the section.
pub open spec fn is_first_key_slot(lines: Seq<Seq<char>>, header: Seq<char>, prefix: Seq<char>, j: int) -> bool {
    &&& is_key_slot(lines, header, prefix, j)
    &&& forall|k: int| 0 <= k < j ==> !#[trigger] is_key_slot(lines, header, prefix, k)
}

/// Line `h` is the last header line.
pub open spec fn is_last_header(lines: Seq<Seq<char>>, header: Seq<char>, h: int) -> bool {
    &&& 0 <= h < lines.len()
    &&& is_header_line(lines[h], header)
    &&& forall|k: int| h < k < lines.len() ==> !#[trigger] is_header_line(lines[k], header)
}

/// The lines after `key=value` is set in `[section]`: the first line of the section
/// that starts with `key=` is replaced; failing that, the line goes right after the
/// last `[section]` header; failing that, an empty line, the header and the line are
/// appended.
pub open spec fn set_in_lines(lines: Seq<Seq<char>>, section: Seq<char>, key: Seq<char>, value: Seq<char>) -> Seq<Seq<char>> {
    let header = section_header(section);
    let prefix = key_prefix(key);
    let kl = key_line(key, value);
    if exists|j: int| is_first_key_slot(lines, header, prefix, j) {
        lines.update(choose|j: int| is_first_key_slot(lines, header, prefix, j), kl)
    } else if exists|h: int| is_last_header(lines, header, h) {
        lines.insert((choose|h: int| is_last_header(lines, header, h)) + 1, kl)
    } else {
        lines + seq![Seq::<char>::empty(), header, kl]
    }
}

/// The text after `key=value` is set in `[section]` of the INI text `content`.
pub open spec fn ini_with_value(content: Seq<char>, section: Seq<char>, key: Seq<char>, value: Seq<char>) -> Seq<char> {
    join_with(set_in_lines(lines_of(content), section, key, value), '\n')
}

/// Inside-the-section after one more line: a header opens it, another bracketed line
/// closes it, any other line leaves it as it was.
pub proof fn lemma_in_section_step(lines: Seq<Seq<char>>, header: Seq<char>, i: int)
    requires
        0 <= i < lines.len(),
    ensures
        in_section(lines, header, i + 1) == if is_header_line(lines[i], header) {
            true
        } else if opens_bracket(lines[i]) {
            false
        } else {
            in_section(lines, header, i)
        },
{
    if is_header_line(lines[i], header) {
        assert(is_header_line(lines[i], header));
        assert(forall|m: int| i < m < i + 1 ==> !#[trigger] is_marker(lines[m], header));
    } else if opens_bracket(lines[i]) {
        assert(is_marker(lines[i], header));
        if in_section(lines, header, i + 1) {
            let h = choose|h: int|
                0 <= h < i + 1 && #[trigger] is_header_line(lines[h], header) && forall|m: int|
                    h < m < i + 1 ==> !#[trigger] is_marker(lines[m], header);
            assert(h < i);
            assert(!is_marker(lines[i], header));
        }
    } else {
        if in_section(lines, header, i) {
            let h = choose|h: int|
                0 <= h < i && #[trigger] is_header_line(lines[h], header) && forall|m: int|
                    h < m < i ==> !#[trigger] is_marker(lines[m], header);
            assert(forall|m: int| h < m < i + 1 ==> !#[trigger] is_marker(lines[m], header));
        }
        if in_section(lines, header, i + 1) {
            let h = choose|h: int|
                0 <= h < i + 1 && #[trigger] is_header_line(lines[h], header) && forall|m: int|
                    h < m < i + 1 ==> !#[trigger] is_marker(lines[m], header);
            assert(h < i);
            assert(forall|m: int| h < m < i ==> !#[trigger] is_marker(lines[m], header));
        }
    }
}

/// Updates (or inserts) `key=value` inside `[section]` of a simple INI text.
/// The text is split into lines as `str::lines` does; the first line of the section
/// that starts with `key=` is replaced; without one, `key=value` goes right after the
/// last `[section]` header; without a header, an empty line, `[section]` and
/// `key=value` are appended. The lines are joined again with `\n`.
pub fn set_ini_value(content: String, section: &str, key: &str, value: &str) -> (r: String)
    ensures
        r@ == ini_with_value(content@, section@, key@, value@),
{
    let content_chars = to_chars(content.as_str());
    let section_chars = to_chars(section);
    let key_chars = to_chars(key);
    let value_chars = to_chars(value);

    let mut header: Vec<char> = Vec::new();
    header.push('[');
    append_chars(&mut header, &section_chars);
    header.push(']');
    let mut prefix: Vec<char> = Vec::new();
    append_chars(&mut prefix, &key_chars);
    prefix.push('=');
    let mut kl: Vec<char> = Vec::new();
    append_chars(&mut kl, &prefix);
    append_chars(&mut kl, &value_chars);

    let ghost h = section_header(section@);
    let ghost p = key_prefix(key@);
    let ghost k = key_line(key@, value@);
    assert(header@ =~= h);
    assert(prefix@ =~= p);
    assert(kl@ =~= k);

    let mut lines = split_lines(&content_chars);
    let ghost ls = views(lines@);
    assert(ls == lines_of(content@));

    let mut in_sec = false;
    let mut key_updated = false;
    let mut section_idx: Option<usize> = None;
    let n = lines.len();
    let mut i: usize = 0;
    while i < n
        invariant_except_break
            !key_updated,
        invariant
            n == lines@.len(),
            ls.len() == n,
            views(lines@) == ls,
            header@ == h,
            prefix@ == p,
            i <= n,
            in_sec == in_section(ls, h, i as int),
            forall|j: int| 0 <= j < i ==> !#[trigger] is_key_slot(ls, h, p, j),
            match section_idx {
                Some(s) => {
                    &&& s < i
                    &&& is_header_line(ls[s as int], h)
                    &&& forall|m: int| s < m < i ==> !#[trigger] is_header_line(ls[m], h)
                },
                None => forall|m: int| 0 <= m < i ==> !#[trigger] is_header_line(ls[m], h),
            },
        ensures
            views(lines@) == ls,
            !key_updated ==> i == n && forall|j: int| 0 <= j < n ==> !#[trigger] is_key_slot(ls, h, p, j),
            key_updated ==> i < n && is_first_key_slot(ls, h, p, i as int),
            !key_updated ==> match section_idx {
                Some(s) => is_last_header(ls, h, s as int),
                None => forall|m: int| 0 <= m < n ==> !#[trigger] is_header_line(ls[m], h),
            },
        decreases n - i,
    {
        assert(ls[i as int] == lines@[i as int]@);
        proof {
            lemma_in_section_step(ls, h, i as int);
        }
        let trimmed = trim(&lines[i]);
        if chars_eq(&trimmed, &header) {
            in_sec = true;
            section_idx = Some(i);
            assert(!is_key_slot(ls, h, p, i as int));
            i = i + 1;
            continue;
        }
        if in_sec {
            if lines[i].len() > 0 && lines[i][0] == '[' {
                in_sec = false;
                assert(!is_key_slot(ls, h, p, i as int));
                i = i + 1;
                continue;
            }
            assert(lines[i as int]@.skip(0) =~= lines[i as int]@);
            if matches_at(&lines[i], 0, &prefix) {
                key_updated = true;
                assert(is_key_slot(ls, h, p, i as int));
                break;
            }
        }
        assert(!is_key_slot(ls, h, p, i as int));
        i = i + 1;
    }

    if key_updated {
        proof {
            assert(exists|j: int| is_first_key_slot(ls, h, p, j));
            let c = choose|j: int| is_first_key_slot(ls, h, p, j);
            if c < i {
                assert(is_key_slot(ls, h, p, c));
            } else if c > i {
                assert(is_key_slot(ls, h, p, i as int));
            }
            assert(c == i);
        }
        lines.set(i, kl);
        assert(views(lines@) =~= ls.update(i as int, k));
    } else {
        assert(!exists|j: int| is_first_key_slot(ls, h, p, j));
        match section_idx {
            Some(s) => {
                proof {
                    assert(exists|hh: int| is_last_header(ls, h, hh));
                    let c = choose|hh: int| is_last_header(ls, h, hh);
                    if c < s {
                        assert(is_header_line(ls[s as int], h));
                    } else if c > s {
                        assert(is_header_line(ls[c], h));
                    }
                    assert(c == s);
                }
                lines.insert(s + 1, kl);
                assert(views(lines@) =~= ls.insert(s + 1, k));
            },
            None => {
                assert(!exists|hh: int| is_last_header(ls, h, hh));
                lines.push(Vec::new());
                lines.push(header);
                lines.push(kl);
                assert(views(lines@) =~= ls + seq![Seq::<char>::empty(), h, k]);
            },
        }
    }
    assert(views(lines@) == set_in_lines(ls, section@, key@, value@));
    let joined = join_lines(&lines, '\n');
    from_chars(&joined)
}

/// What a reader finds for `key` in `[section]` of the lines: the text after `key=`
/// on the first line of the section that starts with it.
pub open spec fn value_in_lines(lines: Seq<Seq<char>>, section: Seq<char>, key: Seq<char>) -> Option<Seq<char>> {
    let header = section_header(section);
    let prefix = key_prefix(key);
    if exists|j: int| is_first_key_slot(lines, header, prefix, j) {
        Some(lines[choose|j: int| is_first_key_slot(lines, header, prefix, j)].skip(prefix.len() as int))
    } else {
        None
    }
}

/// What a reader finds for `key` in `[section]` of the INI text `content`.
pub open spec fn ini_value(content: Seq<char>, section: Seq<char>, key: Seq<char>) -> Option<Seq<char>> {
    value_in_lines(lines_of(content), section, key)
}

/// The two line sequences agree, on their first `n` lines, in everything the
/// section scan looks at.
pub open spec fn agree_on(a: Seq<Seq<char>>, b: Seq<Seq<char>>, header: Seq<char>, prefix: Seq<char>, n: int) -> bool {
    forall|m: int|
        0 <= m < n ==> {
            &&& #[trigger] is_header_line(a[m], header) == is_header_line(b[m], header)
            &&& opens_bracket(a[m]) == opens_bracket(b[m])
            &&& starts_with(a[m], prefix) == starts_with(b[m], prefix)
        }
}

proof fn lemma_agree_in_section(a: Seq<Seq<char>>, b: Seq<Seq<char>>, header: Seq<char>, prefix: Seq<char>, n: int)
    requires
        agree_on(a, b, header, prefix, n),
    ensures
        forall|j: int| 0 <= j <= n ==> #[trigger] in_section(a, header, j) == in_section(b, header, j),
{
    assert forall|j: int| 0 <= j <= n implies #[trigger] in_section(a, header, j) == in_section(b, header, j) by {
        if in_section(a, header, j) {
            let hh = choose|hh: int|
                0 <= hh < j && #[trigger] is_header_line(a[hh], header) && forall|m: int|
                    hh < m < j ==> !#[trigger] is_marker(a[m], header);
            assert(is_header_line(b[hh], header));
            assert forall|m: int| hh < m < j implies !#[trigger] is_marker(b[m], header) by {
                assert(!is_marker(a[m], header));
                assert(is_header_line(a[m], header) == is_header_line(b[m], header));
            }
        }
        if in_section(b, header, j) {
            let hh = choose|hh: int|
                0 <= hh < j && #[trigger] is_header_line(b[hh], header) && forall|m: int|
                    hh < m < j ==> !#[trigger] is_marker(b[m], header);
            assert(is_header_line(a[hh], header));
            assert forall|m: int| hh < m < j implies !#[trigger] is_marker(a[m], header) by {
                assert(!is_marker(b[m], header));
                assert(is_header_line(a[m], header) == is_header_line(b[m], header));
            }
        }
    }
}

proof fn lemma_agree_slots(a: Seq<Seq<char>>, b: Seq<Seq<char>>, header: Seq<char>, prefix: Seq<char>, n: int)
    requires
        agree_on(a, b, header, prefix, n),
        n <= a.len(),
        n <= b.len(),
    ensures
        forall|j: int| 0 <= j < n ==> #[trigger] is_key_slot(a, header, prefix, j) == is_key_slot(b, header, prefix, j),
{
    lemma_agree_in_section(a, b, header, prefix, n);
    assert forall|j: int| 0 <= j < n implies #[trigger] is_key_slot(a, header, prefix, j) == is_key_slot(b, header, prefix, j) by {
        assert(in_section(a, header, j) == in_section(b, header, j));
        assert(is_header_line(a[j], header) == is_header_line(b[j], header));
    }
}

proof fn lemma_first_slot_exists(lines: Seq<Seq<char>>, header: Seq<char>, prefix: Seq<char>, j: int)
    requires
        is_key_slot(lines, header, prefix, j),
    ensures
        exists|u: int| is_first_key_slot(lines, header, prefix, u),
    decreases j,
{
    if exists|k: int| 0 <= k < j && #[trigger] is_key_slot(lines, header, prefix, k) {
        let k = choose|k: int| 0 <= k < j && #[trigger] is_key_slot(lines, header, prefix, k);
        lemma_first_slot_exists(lines, header, prefix, k);
    } else {
        assert(is_first_key_slot(lines, header, prefix, j));
    }
}

proof fn lemma_last_header_exists(lines: Seq<Seq<char>>, header: Seq<char>, h: int)
    requires
        0 <= h < lines.len(),
        is_header_line(lines[h], header),
    ensures
        exists|l: int| is_last_header(lines, header, l),
    decreases lines.len() - h,
{
    if exists|k: int| h < k < lines.len() && #[trigger] is_header_line(lines[k], header) {
        let k = choose|k: int| h < k < lines.len() && #[trigger] is_header_line(lines[k], header);
        lemma_last_header_exists(lines, header, k);
    } else {
        assert(is_last_header(lines, header, h));
    }
}

/// The first key slot is unique.
proof fn lemma_first_slot_unique(lines: Seq<Seq<char>>, header: Seq<char>, prefix: Seq<char>, u: int, w: int)
    requires
        is_first_key_slot(lines, header, prefix, u),
        is_first_key_slot(lines, header, prefix, w),
    ensures
        u == w,
{
    if u < w {
        assert(is_key_slot(lines, header, prefix, u));
    } else if w < u {
        assert(is_key_slot(lines, header, prefix, w));
    }
}

/// After `set_in_lines`, the key line is the first line of the section holding the key.
proof fn lemma_set_in_lines_slot(lines: Seq<Seq<char>>, section: Seq<char>, key: Seq<char>, value: Seq<char>) -> (u: int)
    requires
        !is_marker(key_line(key, value), section_header(section)),
        forall|i: int| 0 <= i < lines.len() ==> no_newline(#[trigger] lines[i]),
        no_newline(key_line(key, value)),
        no_newline(section_header(section)),
    ensures
        is_first_key_slot(
            set_in_lines(lines, section, key, value),
            section_header(section),
            key_prefix(key),
            u,
        ),
        set_in_lines(lines, section, key, value)[u] == key_line(key, value),
        set_in_lines(lines, section, key, value).len() >= 1,
        forall|i: int|
            0 <= i < set_in_lines(lines, section, key, value).len() ==> no_newline(
                #[trigger] set_in_lines(lines, section, key, value)[i],
            ),
{
    let h = section_header(section);
    let p = key_prefix(key);
    let kl = key_line(key, value);
    let r = set_in_lines(lines, section, key, value);
    assert(kl.take(p.len() as int) =~= p);
    assert(starts_with(kl, p));
    if exists|j: int| is_first_key_slot(lines, h, p, j) {
        let u0 = choose|j: int| is_first_key_slot(lines, h, p, j);
        assert(r == lines.update(u0, kl));
        assert(agree_on(r, lines, h, p, u0));
        lemma_agree_slots(r, lines, h, p, u0);
        lemma_agree_in_section(r, lines, h, p, u0);
        assert(in_section(r, h, u0));
        assert(is_key_slot(r, h, p, u0));
        assert forall|k: int| 0 <= k < u0 implies !#[trigger] is_key_slot(r, h, p, k) by {
            assert(is_key_slot(r, h, p, k) == is_key_slot(lines, h, p, k));
        }
        assert forall|i: int| 0 <= i < r.len() implies no_newline(#[trigger] r[i]) by {
            if i != u0 {
                assert(r[i] == lines[i]);
            }
        }
        u0
    } else {
        assert forall|j: int| 0 <= j < lines.len() implies !#[trigger] is_key_slot(lines, h, p, j) by {
            if is_key_slot(lines, h, p, j) {
                lemma_first_slot_exists(lines, h, p, j);
            }
        }
        if exists|hh: int| is_last_header(lines, h, hh) {
            let hh = choose|hh: int| is_last_header(lines, h, hh);
            assert(r == lines.insert(hh + 1, kl));
            assert(agree_on(r, lines, h, p, hh + 1));
            lemma_agree_slots(r, lines, h, p, hh + 1);
            assert(is_header_line(r[hh], h));
            assert(forall|m: int| hh < m < hh + 1 ==> !#[trigger] is_marker(r[m], h));
            assert(in_section(r, h, hh + 1));
            assert(is_key_slot(r, h, p, hh + 1));
            assert forall|k: int| 0 <= k < hh + 1 implies !#[trigger] is_key_slot(r, h, p, k) by {
                assert(is_key_slot(r, h, p, k) == is_key_slot(lines, h, p, k));
            }
            assert forall|i: int| 0 <= i < r.len() implies no_newline(#[trigger] r[i]) by {
                if i < hh + 1 {
                    assert(r[i] == lines[i]);
                } else if i > hh + 1 {
                    assert(r[i] == lines[i - 1]);
                }
            }
            hh + 1
        } else {
            let n = lines.len() as int;
            assert forall|m: int| 0 <= m < n implies !#[trigger] is_header_line(lines[m], h) by {
                if is_header_line(lines[m], h) {
                    lemma_last_header_exists(lines, h, m);
                }
            }
            assert(r == lines + seq![Seq::<char>::empty(), h, kl]);
            assert(agree_on(r, lines, h, p, n));
            lemma_agree_slots(r, lines, h, p, n);
            assert(r[n + 1] == h);
            lemma_trim_unchanged(h);
            assert(is_header_line(r[n + 1], h));
            assert(!is_key_slot(r, h, p, n + 1));
            assert(!starts_with(r[n], p));
            assert(!is_key_slot(r, h, p, n));
            assert(forall|m: int| n + 1 < m < n + 2 ==> !#[trigger] is_marker(r[m], h));
            assert(in_section(r, h, n + 2));
            assert(is_key_slot(r, h, p, n + 2));
            assert forall|k: int| 0 <= k < n + 2 implies !#[trigger] is_key_slot(r, h, p, k) by {
                if k < n {
                    assert(is_key_slot(r, h, p, k) == is_key_slot(lines, h, p, k));
                }
            }
            assert(no_newline(Seq::<char>::empty()));
            assert forall|i: int| 0 <= i < r.len() implies no_newline(#[trigger] r[i]) by {
                if i < n {
                    assert(r[i] == lines[i]);
                }
            }
            n + 2
        }
    }
}

/// No `=` in `s`.
pub open spec fn no_equals(s: Seq<char>) -> bool {
    forall|i: int| 0 <= i < s.len() ==> s[i] != '='
}

/// A line that starts with `key=` does not start with `other=` for another key, when
/// neither key holds a `=`.
proof fn lemma_distinct_prefixes(x: Seq<char>, key: Seq<char>, other: Seq<char>)
    requires
        no_equals(key),
        no_equals(other),
        key != other,
        starts_with(x, key_prefix(key)),
    ensures
        !starts_with(x, key_prefix(other)),
{
    let kp = key_prefix(key);
    let op = key_prefix(other);
    if starts_with(x, op) {
        if key.len() < other.len() {
            assert(x[key.len() as int] == kp[key.len() as int]);
            assert(x[key.len() as int] == op[key.len() as int]);
            assert(op[key.len() as int] == other[key.len() as int]);
        } else if other.len() < key.len() {
            assert(x[other.len() as int] == op[other.len() as int]);
            assert(x[other.len() as int] == kp[other.len() as int]);
            assert(kp[other.len() as int] == key[other.len() as int]);
        } else {
            assert forall|i: int| 0 <= i < key.len() implies key[i] == other[i] by {
                assert(x[i] == kp[i]);
                assert(x[i] == op[i]);
            }
            assert(key =~= other);
        }
    }
}

/// Inserting a line that is no marker keeps the section membership of every other line.
proof fn lemma_insert_in_section(lines: Seq<Seq<char>>, header: Seq<char>, pos: int, x: Seq<char>)
    requires
        0 <= pos <= lines.len(),
        !is_marker(x, header),
    ensures
        forall|j: int| 0 <= j <= pos ==> #[trigger] in_section(lines.insert(pos, x), header, j) == in_section(lines, header, j),
        forall|j: int| pos <= j <= lines.len() ==> #[trigger] in_section(lines.insert(pos, x), header, j + 1) == in_section(lines, header, j),
{
    let r = lines.insert(pos, x);
    assert forall|j: int| 0 <= j <= pos implies #[trigger] in_section(r, header, j) == in_section(lines, header, j) by {
        if in_section(r, header, j) {
            let hh = choose|hh: int|
                0 <= hh < j && #[trigger] is_header_line(r[hh], header) && forall|m: int|
                    hh < m < j ==> !#[trigger] is_marker(r[m], header);
            assert(r[hh] == lines[hh]);
            assert forall|m: int| hh < m < j implies !#[trigger] is_marker(lines[m], header) by {
                assert(r[m] == lines[m]);
                assert(!is_marker(r[m], header));
            }
        }
        if in_section(lines, header, j) {
            let hh = choose|hh: int|
                0 <= hh < j && #[trigger] is_header_line(lines[hh], header) && forall|m: int|
                    hh < m < j ==> !#[trigger] is_marker(lines[m], header);
            assert(r[hh] == lines[hh]);
            assert forall|m: int| hh < m < j implies !#[trigger] is_marker(r[m], header) by {
                assert(r[m] == lines[m]);
                assert(!is_marker(lines[m], header));
            }
        }
    }
    assert forall|j: int| pos <= j <= lines.len() implies #[trigger] in_section(r, header, j + 1) == in_section(lines, header, j) by {
        if in_section(r, header, j + 1) {
            let hh = choose|hh: int|
                0 <= hh < j + 1 && #[trigger] is_header_line(r[hh], header) && forall|m: int|
                    hh < m < j + 1 ==> !#[trigger] is_marker(r[m], header);
            assert(hh != pos);
            if hh < pos {
                assert(r[hh] == lines[hh]);
                assert forall|m: int| hh < m < j implies !#[trigger] is_marker(lines[m], header) by {
                    if m < pos {
                        assert(r[m] == lines[m]);
                        assert(!is_marker(r[m], header));
                    } else {
                        assert(r[m + 1] == lines[m]);
                        assert(!is_marker(r[m + 1], header));
                    }
                }
                assert(is_header_line(lines[hh], header));
            } else {
                assert(r[hh] == lines[hh - 1]);
                assert forall|m: int| hh - 1 < m < j implies !#[trigger] is_marker(lines[m], header) by {
                    assert(r[m + 1] == lines[m]);
                    assert(!is_marker(r[m + 1], header));
                }
                assert(is_header_line(lines[hh - 1], header));
            }
        }
        if in_section(lines, header, j) {
            let hh = choose|hh: int|
                0 <= hh < j && #[trigger] is_header_line(lines[hh], header) && forall|m: int|
                    hh < m < j ==> !#[trigger] is_marker(lines[m], header);
            if hh < pos {
                assert(r[hh] == lines[hh]);
                assert forall|m: int| hh < m < j + 1 implies !#[trigger] is_marker(r[m], header) by {
                    if m < pos {
                        assert(r[m] == lines[m]);
                        assert(!is_marker(lines[m], header));
                    } else if m > pos {
                        assert(r[m] == lines[m - 1]);
                        assert(!is_marker(lines[m - 1], header));
                    }
                }
                assert(is_header_line(r[hh], header));
            } else {
                assert(r[hh + 1] == lines[hh]);
                assert forall|m: int| hh + 1 < m < j + 1 implies !#[trigger] is_marker(r[m], header) by {
                    assert(r[m] == lines[m - 1]);
                    assert(!is_marker(lines[m - 1], header));
                }
                assert(is_header_line(r[hh + 1], header));
            }
        }
    }
}

/// Setting `key` leaves what a reader finds for another key of the same section, line
/// by line, when neither key holds a `=`.
proof fn lemma_set_in_lines_keeps_other(
    lines: Seq<Seq<char>>,
    section: Seq<char>,
    key: Seq<char>,
    value: Seq<char>,
    other: Seq<char>,
)
    requires
        !is_marker(key_line(key, value), section_header(section)),
        no_equals(key),
        no_equals(other),
        key != other,
    ensures
        value_in_lines(set_in_lines(lines, section, key, value), section, other) == value_in_lines(
            lines,
            section,
            other,
        ),
{
    let h = section_header(section);
    let p = key_prefix(key);
    let op = key_prefix(other);
    let kl = key_line(key, value);
    let r = set_in_lines(lines, section, key, value);
    assert(kl.take(p.len() as int) =~= p);
    lemma_distinct_prefixes(kl, key, other);
    assert(!starts_with(kl, op));
    if exists|j: int| is_first_key_slot(lines, h, p, j) {
        let u0 = choose|j: int| is_first_key_slot(lines, h, p, j);
        assert(r == lines.update(u0, kl));
        lemma_distinct_prefixes(lines[u0], key, other);
        assert(agree_on(r, lines, h, op, lines.len() as int)) by {
            assert forall|m: int| 0 <= m < lines.len() implies {
                &&& #[trigger] is_header_line(r[m], h) == is_header_line(lines[m], h)
                &&& opens_bracket(r[m]) == opens_bracket(lines[m])
                &&& starts_with(r[m], op) == starts_with(lines[m], op)
            } by {
                if m == u0 {
                    assert(!is_marker(lines[u0], h));
                }
            }
        }
        lemma_agree_slots(r, lines, h, op, lines.len() as int);
        if exists|w: int| is_first_key_slot(lines, h, op, w) {
            let w = choose|w: int| is_first_key_slot(lines, h, op, w);
            assert(is_first_key_slot(r, h, op, w)) by {
                assert(is_key_slot(r, h, op, w) == is_key_slot(lines, h, op, w));
                assert forall|k: int| 0 <= k < w implies !#[trigger] is_key_slot(r, h, op, k) by {
                    assert(is_key_slot(r, h, op, k) == is_key_slot(lines, h, op, k));
                }
            }
            let c = choose|w: int| is_first_key_slot(r, h, op, w);
            lemma_first_slot_unique(r, h, op, c, w);
            assert(w != u0);
        } else {
            if exists|w: int| is_first_key_slot(r, h, op, w) {
                let w = choose|w: int| is_first_key_slot(r, h, op, w);
                assert(is_key_slot(lines, h, op, w) == is_key_slot(r, h, op, w));
                lemma_first_slot_exists(lines, h, op, w);
            }
        }
    } else if exists|hh: int| is_last_header(lines, h, hh) {
        let hh = choose|hh: int| is_last_header(lines, h, hh);
        let pos = hh + 1;
        assert(r == lines.insert(pos, kl));
        lemma_insert_in_section(lines, h, pos, kl);
        // Slots before the insertion point are unchanged, the inserted line is none,
        // and later slots move down by one.
        assert forall|j: int| 0 <= j < pos implies #[trigger] is_key_slot(r, h, op, j) == is_key_slot(lines, h, op, j) by {
            assert(r[j] == lines[j]);
        }
        assert(!is_key_slot(r, h, op, pos));
        assert forall|j: int| pos <= j < lines.len() implies #[trigger] is_key_slot(r, h, op, j + 1) == is_key_slot(lines, h, op, j) by {
            assert(r[j + 1] == lines[j]);
        }
        if exists|w: int| is_first_key_slot(lines, h, op, w) {
            let w = choose|w: int| is_first_key_slot(lines, h, op, w);
            let w2 = if w < pos { w } else { w + 1 };
            assert(r[w2] == lines[w]);
            assert(is_first_key_slot(r, h, op, w2)) by {
                if w < pos {
                    assert(is_key_slot(r, h, op, w) == is_key_slot(lines, h, op, w));
                } else {
                    assert(is_key_slot(r, h, op, w + 1) == is_key_slot(lines, h, op, w));
                }
                assert forall|k: int| 0 <= k < w2 implies !#[trigger] is_key_slot(r, h, op, k) by {
                    if k < pos {
                        assert(is_key_slot(r, h, op, k) == is_key_slot(lines, h, op, k));
                    } else if k > pos {
                        assert(is_key_slot(r, h, op, (k - 1) + 1) == is_key_slot(lines, h, op, k - 1));
                    }
                }
            }
            let c = choose|w: int| is_first_key_slot(r, h, op, w);
            lemma_first_slot_unique(r, h, op, c, w2);
        } else {
            if exists|w: int| is_first_key_slot(r, h, op, w) {
                let w = choose|w: int| is_first_key_slot(r, h, op, w);
                if w < pos {
                    assert(is_key_slot(lines, h, op, w));
                    lemma_first_slot_exists(lines, h, op, w);
                } else if w > pos {
                    assert(is_key_slot(r, h, op, (w - 1) + 1) == is_key_slot(lines, h, op, w - 1));
                    lemma_first_slot_exists(lines, h, op, w - 1);
                }
            }
        }
    } else {
        let n = lines.len() as int;
        assert(r == lines + seq![Seq::<char>::empty(), h, kl]);
        assert(agree_on(r, lines, h, op, n));
        lemma_agree_slots(r, lines, h, op, n);
        assert(!starts_with(r[n], op));
        assert(!is_key_slot(r, h, op, n));
        lemma_trim_unchanged(h);
        assert(is_header_line(r[n + 1], h));
        assert(!is_key_slot(r, h, op, n + 1));
        assert(!is_key_slot(r, h, op, n + 2));
        if exists|w: int| is_first_key_slot(lines, h, op, w) {
            let w = choose|w: int| is_first_key_slot(lines, h, op, w);
            assert(r[w] == lines[w]);
            assert(is_first_key_slot(r, h, op, w)) by {
                assert(is_key_slot(r, h, op, w) == is_key_slot(lines, h, op, w));
                assert forall|k: int| 0 <= k < w implies !#[trigger] is_key_slot(r, h, op, k) by {
                    assert(is_key_slot(r, h, op, k) == is_key_slot(lines, h, op, k));
                }
            }
            let c = choose|w: int| is_first_key_slot(r, h, op, w);
            lemma_first_slot_unique(r, h, op, c, w);
        } else {
            if exists|w: int| is_first_key_slot(r, h, op, w) {
                let w = choose|w: int| is_first_key_slot(r, h, op, w);
                assert(w < n);
                assert(is_key_slot(lines, h, op, w) == is_key_slot(r, h, op, w));
                lemma_first_slot_exists(lines, h, op, w);
            }
        }
    }
}

/// Setting a value and then reading the key back in the same section gives the value:
/// once `set_ini_value(content, section, key, value)` has run, the first line of
/// `[section]` that starts with `key=` is `key=value`. This holds when section, key
/// and value hold no line feed, the value does not end with a carriage return, and
/// the line `key=value` neither begins with `[` nor reads, trimmed, as `[section]`.
pub proof fn law_set_value_reads_back(content: Seq<char>, section: Seq<char>, key: Seq<char>, value: Seq<char>)
    requires
        no_newline(section),
        no_newline(key),
        no_newline(value),
        !(value.len() > 0 && value.last() == '\r'),
        !opens_bracket(key_line(key, value)),
        !is_header_line(key_line(key, value), section_header(section)),
    ensures
        ini_value(ini_with_value(content, section, key, value), section, key) == Some(value),
{
    let h = section_header(section);
    let p = key_prefix(key);
    let kl = key_line(key, value);
    let ls = lines_of(content);
    lemma_lines_no_newline(content);
    let r = set_in_lines(ls, section, key, value);
    assert(no_newline(kl));
    assert(no_newline(h));
    let u = lemma_set_in_lines_slot(ls, section, key, value);
    lemma_lines_of_join(r);
    let m = lines_of(join_with(r, '\n'));
    assert(m == lines_of(ini_with_value(content, section, key, value)));
    // The split lines agree with `r` wherever the scan looks.
    assert(p.last() == '=');
    assert forall|i: int| 0 <= i < m.len() implies {
        &&& #[trigger] is_header_line(m[i], h) == is_header_line(r[i], h)
        &&& opens_bracket(m[i]) == opens_bracket(r[i])
        &&& starts_with(m[i], p) == starts_with(r[i], p)
    } by {
        if i == r.len() - 1 {
            assert(r.last().len() > 0);
            assert(m[i] == r[i]);
        } else {
            lemma_trim_strip_cr(r[i]);
            lemma_starts_with_strip_cr(r[i], p);
            let l = r[i];
            if l.len() > 0 && l.last() == '\r' {
                if l.len() == 1 {
                    assert(l[0] == '\r');
                } else {
                    assert(strip_cr(l)[0] == l[0]);
                }
            }
        }
    }
    assert(agree_on(m, r, h, p, m.len() as int));
    lemma_agree_slots(m, r, h, p, m.len() as int);
    assert(kl.len() > 0);
    assert(u < m.len()) by {
        if u == r.len() - 1 {
            assert(r.last() == kl);
        }
    }
    assert(m[u] == kl) by {
        if u < r.len() - 1 {
            assert(m[u] == strip_cr(kl));
            assert(kl.last() != '\r') by {
                if value.len() == 0 {
                    assert(kl.last() == '=');
                } else {
                    assert(kl.last() == value.last());
                }
            }
        }
    }
    assert(is_first_key_slot(m, h, p, u)) by {
        assert(is_key_slot(m, h, p, u) == is_key_slot(r, h, p, u));
        assert forall|k: int| 0 <= k < u implies !#[trigger] is_key_slot(m, h, p, k) by {
            assert(is_key_slot(m, h, p, k) == is_key_slot(r, h, p, k));
        }
    }
    let c = choose|j: int| is_first_key_slot(m, h, p, j);
    lemma_first_slot_unique(m, h, p, c, u);
    assert(kl.skip(p.len() as int) =~= value);
}

/// Joining lines and splitting them again leaves what a reader finds for a key, unless
/// that value ends with a carriage return.
proof fn lemma_roundtrip_value(r: Seq<Seq<char>>, section: Seq<char>, key: Seq<char>)
    requires
        r.len() >= 1,
        forall|i: int| 0 <= i < r.len() ==> no_newline(#[trigger] r[i]),
        value_in_lines(r, section, key) matches Some(w) ==> !(w.len() > 0 && w.last() == '\r'),
    ensures
        value_in_lines(lines_of(join_with(r, '\n')), section, key) == value_in_lines(r, section, key),
{
    let h = section_header(section);
    let p = key_prefix(key);
    lemma_lines_of_join(r);
    let m = lines_of(join_with(r, '\n'));
    assert(p.last() == '=');
    assert forall|i: int| 0 <= i < m.len() implies {
        &&& #[trigger] is_header_line(m[i], h) == is_header_line(r[i], h)
        &&& opens_bracket(m[i]) == opens_bracket(r[i])
        &&& starts_with(m[i], p) == starts_with(r[i], p)
    } by {
        if i == r.len() - 1 {
            assert(m[i] == r[i]);
        } else {
            lemma_trim_strip_cr(r[i]);
            lemma_starts_with_strip_cr(r[i], p);
            let l = r[i];
            if l.len() > 0 && l.last() == '\r' {
                if l.len() == 1 {
                    assert(l[0] == '\r');
                } else {
                    assert(strip_cr(l)[0] == l[0]);
                }
            }
        }
    }
    assert(agree_on(m, r, h, p, m.len() as int));
    lemma_agree_slots(m, r, h, p, m.len() as int);
    if exists|u: int| is_first_key_slot(r, h, p, u) {
        let u = choose|u: int| is_first_key_slot(r, h, p, u);
        let w = r[u].skip(p.len() as int);
        assert(r[u] =~= p + w);
        assert(u < m.len()) by {
            if u == r.len() - 1 {
                assert(r.last().len() > 0);
            }
        }
        assert(m[u] == r[u]) by {
            if u < r.len() - 1 {
                assert(m[u] == strip_cr(r[u]));
                if w.len() == 0 {
                    assert(r[u].last() == '=');
                } else {
                    assert(r[u].last() == w.last());
                }
            }
        }
        assert(is_first_key_slot(m, h, p, u)) by {
            assert(is_key_slot(m, h, p, u) == is_key_slot(r, h, p, u));
            assert forall|k: int| 0 <= k < u implies !#[trigger] is_key_slot(m, h, p, k) by {
                assert(is_key_slot(m, h, p, k) == is_key_slot(r, h, p, k));
            }
        }
        let c = choose|u: int| is_first_key_slot(m, h, p, u);
        lemma_first_slot_unique(m, h, p, c, u);
    } else {
        if exists|u: int| is_first_key_slot(m, h, p, u) {
            let u = choose|u: int| is_first_key_slot(m, h, p, u);
            assert(is_key_slot(r, h, p, u) == is_key_slot(m, h, p, u));
            lemma_first_slot_exists(r, h, p, u);
        }
    }
}

/// Setting one key leaves every other key of the same section as it was: once
/// `set_ini_value(content, section, key, value)` has run, a reader finds for `other`
/// in `[section]` what it found before. This holds when section, key and value hold no
/// line feed, neither key holds a `=`, the two keys differ, the line `key=value`
/// neither begins with `[` nor reads, trimmed, as `[section]`, and the value that
/// `other` had does not end with a carriage return.
pub proof fn law_set_value_keeps_other_keys(
    content: Seq<char>,
    section: Seq<char>,
    key: Seq<char>,
    value: Seq<char>,
    other: Seq<char>,
)
    requires
        no_newline(section),
        no_newline(key),
        no_newline(value),
        no_equals(key),
        no_equals(other),
        key != other,
        !opens_bracket(key_line(key, value)),
        !is_header_line(key_line(key, value), section_header(section)),
        ini_value(content, section, other) matches Some(w) ==> !(w.len() > 0 && w.last() == '\r'),
    ensures
        ini_value(ini_with_value(content, section, key, value), section, other) == ini_value(
            content,
            section,
            other,
        ),
{
    let h = section_header(section);
    let kl = key_line(key, value);
    let ls = lines_of(content);
    lemma_lines_no_newline(content);
    assert(no_newline(kl));
    assert(no_newline(h));
    let r = set_in_lines(ls, section, key, value);
    let _ = lemma_set_in_lines_slot(ls, section, key, value);
    lemma_set_in_lines_keeps_other(ls, section, key, value, other);
    lemma_roundtrip_value(r, section, other);
}


/// The key may begin a line without that line reading as a section header: it is empty
/// or begins with neither white space nor `[`.
pub open spec fn key_starts_plainly(key: Seq<char>) -> bool {
    key.len() == 0 || (!is_white_space(key[0]) && key[0] != '[')
}

/// The key's first character that is not white space, if any, is not `[`: a line
/// `key=value` then never reads as a section header.
pub open spec fn key_opens_no_section(key: Seq<char>) -> bool {
    trim_start_ws(key).len() == 0 || trim_start_ws(key)[0] != '['
}

/// A key that begins with neither white space nor `[` opens no section.
pub proof fn lemma_plain_key_opens_no_section(key: Seq<char>)
    requires
        key_starts_plainly(key),
    ensures
        key_opens_no_section(key),
{
    if key.len() > 0 {
        assert(trim_start_ws(key) == key);
    }
}

/// A line that starts with `key=` for a key whose first non-blank character is not `[`
/// is no marker of any section.
proof fn lemma_key_line_no_marker_blank(x: Seq<char>, key: Seq<char>, section: Seq<char>)
    requires
        starts_with(x, key_prefix(key)),
        key_opens_no_section(key),
    ensures
        !is_marker(x, section_header(section)),
{
    let h = section_header(section);
    let p = key_prefix(key);
    let rest = x.skip(key.len() as int);
    assert forall|i: int| 0 <= i < key.len() implies x[i] == key[i] by {
        assert(x.take(p.len() as int)[i] == p[i]);
    }
    assert(x =~= key + rest);
    assert(rest[0] == '=') by {
        assert(rest[0] == x[key.len() as int]);
        assert(x[key.len() as int] == p[key.len() as int]);
    }
    assert(x[0] != '[') by {
        if key.len() == 0 {
            assert(x[0] == rest[0]);
        } else {
            assert(x[0] == key[0]);
            if !is_white_space(key[0]) {
                assert(trim_start_ws(key) == key);
            }
        }
    }
    lemma_trim_start_concat(key, rest);
    assert(trim_start_ws(rest) == rest);
    let t = trim_start_ws(x);
    assert(t.len() > 0 && t[0] != '[') by {
        if trim_start_ws(key).len() > 0 {
            assert(t[0] == trim_start_ws(key)[0]);
        } else {
            assert(t[0] == rest[0]);
        }
    }
    lemma_trim_start_first(x);
    lemma_trim_end_keeps_first(t);
    assert(h[0] == '[');
    assert(trim_ws(x)[0] != h[0]);
}

/// The line is empty or does not begin with white space.
pub open spec fn unindented(line: Seq<char>) -> bool {
    line.len() == 0 || !is_white_space(line[0])
}

/// No line of the text begins with white space.
pub open spec fn no_indented_lines(content: Seq<char>) -> bool {
    forall|i: int| 0 <= i < lines_of(content).len() ==> unindented(#[trigger] lines_of(content)[i])
}

/// A line that starts with `key=` for a plainly starting key is no marker of any section.
proof fn lemma_key_line_no_marker(x: Seq<char>, key: Seq<char>, section: Seq<char>)
    requires
        starts_with(x, key_prefix(key)),
        key_starts_plainly(key),
    ensures
        !is_marker(x, section_header(section)),
        unindented(x),
{
    let h = section_header(section);
    let p = key_prefix(key);
    assert(x[0] == p[0]);
    assert(!is_white_space(x[0]) && x[0] != '[') by {
        if key.len() == 0 {
            assert(p[0] == '=');
        } else {
            assert(p[0] == key[0]);
        }
    }
    lemma_trim_keeps_first(x);
    assert(h[0] == '[');
}

/// An unindented line that reads as a section header begins with `[`.
proof fn lemma_header_opens(x: Seq<char>, section: Seq<char>)
    requires
        unindented(x),
        is_header_line(x, section_header(section)),
    ensures
        opens_bracket(x),
{
    let h = section_header(section);
    if x.len() == 0 {
        assert(trim_ws(x) =~= x);
        assert(h.len() > 0);
    } else {
        lemma_trim_keeps_first(x);
        assert(h[0] == '[');
    }
}

/// Two sections with different names have different headers.
proof fn lemma_headers_differ(a: Seq<char>, b: Seq<char>)
    requires
        a != b,
    ensures
        section_header(a) != section_header(b),
{
    if section_header(a) == section_header(b) {
        assert(section_header(a).len() == a.len() + 2);
        assert(a.len() == b.len());
        assert(section_header(a).subrange(1, a.len() as int + 1) =~= a);
        assert(section_header(b).subrange(1, b.len() as int + 1) =~= b);
        assert(a =~= b);
    }
}

/// Among unindented lines no line lies inside two different sections.
proof fn lemma_sections_disjoint(lines: Seq<Seq<char>>, s1: Seq<char>, s2: Seq<char>, j: int)
    requires
        forall|i: int| 0 <= i < lines.len() ==> unindented(#[trigger] lines[i]),
        s1 != s2,
        j <= lines.len(),
    ensures
        !(in_section(lines, section_header(s1), j) && in_section(lines, section_header(s2), j)),
{
    let h1 = section_header(s1);
    let h2 = section_header(s2);
    lemma_headers_differ(s1, s2);
    if in_section(lines, h1, j) && in_section(lines, h2, j) {
        let a = choose|a: int|
            0 <= a < j && #[trigger] is_header_line(lines[a], h1) && forall|m: int|
                a < m < j ==> !#[trigger] is_marker(lines[m], h1);
        let b = choose|b: int|
            0 <= b < j && #[trigger] is_header_line(lines[b], h2) && forall|m: int|
                b < m < j ==> !#[trigger] is_marker(lines[m], h2);
        if a < b {
            lemma_header_opens(lines[b], s2);
            assert(is_marker(lines[b], h1));
        } else if b < a {
            lemma_header_opens(lines[a], s1);
            assert(is_marker(lines[a], h2));
        }
    }
}

/// Setting a key of one section leaves, line by line, what a reader finds in any other
/// section, when no line begins with white space.
#[verifier::spinoff_prover]
#[verifier::rlimit(50)]
proof fn lemma_set_in_lines_keeps_other_section(
    lines: Seq<Seq<char>>,
    section: Seq<char>,
    key: Seq<char>,
    value: Seq<char>,
    s2: Seq<char>,
    k2: Seq<char>,
)
    requires
        forall|i: int| 0 <= i < lines.len() ==> unindented(#[trigger] lines[i]),
        section != s2,
        key_opens_no_section(key),
        no_equals(key),
        no_equals(k2),
    ensures
        value_in_lines(set_in_lines(lines, section, key, value), s2, k2) == value_in_lines(
            lines,
            s2,
            k2,
        ),
{
    let h = section_header(section);
    let h2 = section_header(s2);
    let p = key_prefix(key);
    let op = key_prefix(k2);
    let kl = key_line(key, value);
    let r = set_in_lines(lines, section, key, value);
    assert(kl.take(p.len() as int) =~= p);
    assert(starts_with(kl, p));
    lemma_key_line_no_marker_blank(kl, key, s2);
    if exists|j: int| is_first_key_slot(lines, h, p, j) {
        let u0 = choose|j: int| is_first_key_slot(lines, h, p, j);
        assert(r == lines.update(u0, kl));
        lemma_key_line_no_marker_blank(lines[u0], key, s2);
        assert(starts_with(kl, op) == starts_with(lines[u0], op)) by {
            if key == k2 {
            } else {
                lemma_distinct_prefixes(kl, key, k2);
                lemma_distinct_prefixes(lines[u0], key, k2);
            }
        }
        assert(agree_on(r, lines, h2, op, lines.len() as int)) by {
            assert forall|m: int| 0 <= m < lines.len() implies {
                &&& #[trigger] is_header_line(r[m], h2) == is_header_line(lines[m], h2)
                &&& opens_bracket(r[m]) == opens_bracket(lines[m])
                &&& starts_with(r[m], op) == starts_with(lines[m], op)
            } by {
                if m != u0 {
                    assert(r[m] == lines[m]);
                }
            }
        }
        lemma_agree_slots(r, lines, h2, op, lines.len() as int);
        // The updated line lies in `section`, so it is no slot of the other section.
        lemma_sections_disjoint(lines, section, s2, u0);
        assert(!is_key_slot(lines, h2, op, u0));
        if exists|w: int| is_first_key_slot(lines, h2, op, w) {
            let w = choose|w: int| is_first_key_slot(lines, h2, op, w);
            assert(w != u0);
            assert(r[w] == lines[w]);
            assert(is_first_key_slot(r, h2, op, w)) by {
                assert(is_key_slot(r, h2, op, w) == is_key_slot(lines, h2, op, w));
                assert forall|k: int| 0 <= k < w implies !#[trigger] is_key_slot(r, h2, op, k) by {
                    assert(is_key_slot(r, h2, op, k) == is_key_slot(lines, h2, op, k));
                }
            }
            let c = choose|w: int| is_first_key_slot(r, h2, op, w);
            lemma_first_slot_unique(r, h2, op, c, w);
        } else {
            if exists|w: int| is_first_key_slot(r, h2, op, w) {
                let w = choose|w: int| is_first_key_slot(r, h2, op, w);
                assert(is_key_slot(lines, h2, op, w) == is_key_slot(r, h2, op, w));
                lemma_first_slot_exists(lines, h2, op, w);
            }
        }
    } else if exists|hh: int| is_last_header(lines, h, hh) {
        let hh = choose|hh: int| is_last_header(lines, h, hh);
        let pos = hh + 1;
        assert(r == lines.insert(pos, kl));
        lemma_insert_in_section(lines, h2, pos, kl);
        // The header above the inserted line closes the other section.
        lemma_headers_differ(section, s2);
        lemma_header_opens(lines[hh], section);
        assert(!is_header_line(lines[hh], h2));
        lemma_in_section_step(lines, h2, hh);
        assert(!in_section(lines, h2, pos));
        assert(!is_key_slot(r, h2, op, pos));
        assert forall|j: int| 0 <= j < pos implies #[trigger] is_key_slot(r, h2, op, j) == is_key_slot(lines, h2, op, j) by {
            assert(r[j] == lines[j]);
        }
        assert forall|j: int| pos <= j < lines.len() implies #[trigger] is_key_slot(r, h2, op, j + 1) == is_key_slot(lines, h2, op, j) by {
            assert(r[j + 1] == lines[j]);
        }
        if exists|w: int| is_first_key_slot(lines, h2, op, w) {
            let w = choose|w: int| is_first_key_slot(lines, h2, op, w);
            let w2 = if w < pos { w } else { w + 1 };
            assert(r[w2] == lines[w]);
            assert(is_first_key_slot(r, h2, op, w2)) by {
                if w < pos {
                    assert(is_key_slot(r, h2, op, w) == is_key_slot(lines, h2, op, w));
                } else {
                    assert(is_key_slot(r, h2, op, w + 1) == is_key_slot(lines, h2, op, w));
                }
                assert forall|k: int| 0 <= k < w2 implies !#[trigger] is_key_slot(r, h2, op, k) by {
                    if k < pos {
                        assert(is_key_slot(r, h2, op, k) == is_key_slot(lines, h2, op, k));
                    } else if k > pos {
                        assert(is_key_slot(r, h2, op, (k - 1) + 1) == is_key_slot(lines, h2, op, k - 1));
                    }
                }
            }
            let c = choose|w: int| is_first_key_slot(r, h2, op, w);
            lemma_first_slot_unique(r, h2, op, c, w2);
        } else {
            if exists|w: int| is_first_key_slot(r, h2, op, w) {
                let w = choose|w: int| is_first_key_slot(r, h2, op, w);
                if w < pos {
                    assert(is_key_slot(lines, h2, op, w));
                    lemma_first_slot_exists(lines, h2, op, w);
                } else if w > pos {
                    assert(is_key_slot(r, h2, op, (w - 1) + 1) == is_key_slot(lines, h2, op, w - 1));
                    lemma_first_slot_exists(lines, h2, op, w - 1);
                }
            }
        }
    } else {
        let n = lines.len() as int;
        assert(r == lines + seq![Seq::<char>::empty(), h, kl]);
        assert(agree_on(r, lines, h2, op, n));
        lemma_agree_slots(r, lines, h2, op, n);
        assert(op.len() > 0);
        assert(!starts_with(r[n], op));
        assert(!is_key_slot(r, h2, op, n));
        assert(opens_bracket(r[n + 1]));
        assert(!is_key_slot(r, h2, op, n + 1));
        lemma_headers_differ(section, s2);
        lemma_trim_unchanged(h);
        assert(!is_header_line(r[n + 1], h2));
        lemma_in_section_step(r, h2, n + 1);
        assert(!is_key_slot(r, h2, op, n + 2));
        if exists|w: int| is_first_key_slot(lines, h2, op, w) {
            let w = choose|w: int| is_first_key_slot(lines, h2, op, w);
            assert(r[w] == lines[w]);
            assert(is_first_key_slot(r, h2, op, w)) by {
                assert(is_key_slot(r, h2, op, w) == is_key_slot(lines, h2, op, w));
                assert forall|k: int| 0 <= k < w implies !#[trigger] is_key_slot(r, h2, op, k) by {
                    assert(is_key_slot(r, h2, op, k) == is_key_slot(lines, h2, op, k));
                }
            }
            let c = choose|w: int| is_first_key_slot(r, h2, op, w);
            lemma_first_slot_unique(r, h2, op, c, w);
        } else {
            if exists|w: int| is_first_key_slot(r, h2, op, w) {
                let w = choose|w: int| is_first_key_slot(r, h2, op, w);
                assert(w < n);
                assert(is_key_slot(lines, h2, op, w) == is_key_slot(r, h2, op, w));
                lemma_first_slot_exists(lines, h2, op, w);
            }
        }
    }
}


/// Setting one key leaves every other key, of that section or of any other, as it was:
/// once `set_ini_value(content, section, key, value)` has run, a reader finds for
/// `other_key` in `[other_section]` what it found before. This holds when no line of
/// the text begins with white space, section, key and value hold no line feed, neither
/// key holds a `=`, the first character of `key` that is not white space is not `[`, and
/// the value that the other key had does not end with a carriage return.
pub proof fn law_set_value_keeps_other_entries(
    content: Seq<char>,
    section: Seq<char>,
    key: Seq<char>,
    value: Seq<char>,
    other_section: Seq<char>,
    other_key: Seq<char>,
)
    requires
        no_indented_lines(content),
        no_newline(section),
        no_newline(key),
        no_newline(value),
        no_equals(key),
        no_equals(other_key),
        key_opens_no_section(key),
        !(other_section == section && other_key == key),
        ini_value(content, other_section, other_key) matches Some(w) ==> !(w.len() > 0 && w.last()
            == '\r'),
    ensures
        ini_value(ini_with_value(content, section, key, value), other_section, other_key) == ini_value(
            content,
            other_section,
            other_key,
        ),
{
    let h = section_header(section);
    let p = key_prefix(key);
    let kl = key_line(key, value);
    assert(kl.take(p.len() as int) =~= p);
    lemma_key_line_no_marker_blank(kl, key, section);
    if other_section == section {
        law_set_value_keeps_other_keys(content, section, key, value, other_key);
    } else {
        let ls = lines_of(content);
        lemma_lines_no_newline(content);
        assert(no_newline(kl));
        assert(no_newline(h));
        let r = set_in_lines(ls, section, key, value);
        let _ = lemma_set_in_lines_slot(ls, section, key, value);
        lemma_set_in_lines_keeps_other_section(ls, section, key, value, other_section, other_key);
        lemma_roundtrip_value(r, other_section, other_key);
    }
}

/// The text ends with an empty line: two line feeds in a row.
pub open spec fn ends_in_blank_line(s: Seq<char>) -> bool {
    s.len() >= 2 && s[s.len() - 1] == '\n' && s[s.len() - 2] == '\n'
}

/// The lines after a set, for a text without carriage returns that does not end with an
/// empty line: the last is not empty, and each is the new `key=value` line, the header,
/// or free of carriage returns.
proof fn lemma_set_lines_shape(content: Seq<char>, section: Seq<char>, key: Seq<char>, value: Seq<char>) -> (u: int)
    requires
        no_cr(content),
        !ends_in_blank_line(content),
        no_newline(section),
        no_newline(key),
        no_newline(value),
        !opens_bracket(key_line(key, value)),
        !is_header_line(key_line(key, value), section_header(section)),
    ensures
        is_first_key_slot(
            set_in_lines(lines_of(content), section, key, value),
            section_header(section),
            key_prefix(key),
            u,
        ),
        set_in_lines(lines_of(content), section, key, value)[u] == key_line(key, value),
        set_in_lines(lines_of(content), section, key, value).len() >= 1,
        set_in_lines(lines_of(content), section, key, value).last().len() > 0,
        forall|i: int|
            0 <= i < set_in_lines(lines_of(content), section, key, value).len() ==> no_newline(
                #[trigger] set_in_lines(lines_of(content), section, key, value)[i],
            ),
        forall|i: int|
            0 <= i < set_in_lines(lines_of(content), section, key, value).len() ==> {
                let l = #[trigger] set_in_lines(lines_of(content), section, key, value)[i];
                l == key_line(key, value) || l == section_header(section) || no_cr(l)
            },
{
    let h = section_header(section);
    let p = key_prefix(key);
    let kl = key_line(key, value);
    let ls = lines_of(content);
    lemma_lines_no_newline(content);
    lemma_lines_no_cr(content);
    assert(no_newline(kl));
    assert(no_newline(h));
    let r = set_in_lines(ls, section, key, value);
    let u = lemma_set_in_lines_slot(ls, section, key, value);
    let n = ls.len() as int;
    if n > 0 && ls.last().len() == 0 {
        lemma_last_line_empty(content);
        assert(content.last() == content[content.len() - 1]);
        assert(content.len() == 1);
        assert(ls =~= seq![Seq::<char>::empty()]) by {
            assert(content[0] == '\n');
            assert(line_len(content) == 0);
            assert(content.skip(1).len() == 0);
            assert(lines_of(content.skip(1)) == Seq::<Seq<char>>::empty());
            assert(content.take(0) =~= Seq::<char>::empty());
            assert(strip_cr(content.take(0)) =~= Seq::<char>::empty());
        }
        assert(!exists|j: int| is_first_key_slot(ls, h, p, j));
        assert(!is_header_line(ls[0], h)) by {
            assert(trim_ws(ls[0]) =~= ls[0]);
        }
        assert(!exists|hh: int| is_last_header(ls, h, hh));
    }
    if exists|j: int| is_first_key_slot(ls, h, p, j) {
        let u0 = choose|j: int| is_first_key_slot(ls, h, p, j);
        assert(r == ls.update(u0, kl));
        assert forall|i: int| 0 <= i < r.len() implies {
            let l = #[trigger] r[i];
            l == kl || l == h || no_cr(l)
        } by {
            if i != u0 {
                assert(r[i] == ls[i]);
            }
        }
        if u0 != n - 1 {
            assert(r.last() == ls.last());
        }
    } else if exists|hh: int| is_last_header(ls, h, hh) {
        let hh = choose|hh: int| is_last_header(ls, h, hh);
        assert(r == ls.insert(hh + 1, kl));
        assert forall|i: int| 0 <= i < r.len() implies {
            let l = #[trigger] r[i];
            l == kl || l == h || no_cr(l)
        } by {
            if i < hh + 1 {
                assert(r[i] == ls[i]);
            } else if i > hh + 1 {
                assert(r[i] == ls[i - 1]);
            }
        }
        if hh + 1 != n {
            assert(r.last() == ls.last());
        }
    } else {
        assert(r == ls + seq![Seq::<char>::empty(), h, kl]);
        assert forall|i: int| 0 <= i < r.len() implies {
            let l = #[trigger] r[i];
            l == kl || l == h || no_cr(l)
        } by {
            if i < n {
                assert(r[i] == ls[i]);
            } else if i == n {
                assert(no_cr(r[i]));
            }
        }
    }
    u
}

/// Splitting joined lines gives them back when no line ends with a carriage return and
/// the last one is not empty.
proof fn lemma_split_join(r: Seq<Seq<char>>)
    requires
        r.len() >= 1,
        r.last().len() > 0,
        forall|i: int| 0 <= i < r.len() ==> no_newline(#[trigger] r[i]),
        forall|i: int| 0 <= i < r.len() ==> (#[trigger] r[i]).len() == 0 || r[i].last() != '\r',
    ensures
        lines_of(join_with(r, '\n')) == r,
{
    lemma_lines_of_join(r);
    let m = lines_of(join_with(r, '\n'));
    assert forall|i: int| 0 <= i < r.len() implies m[i] == r[i] by {
        if i < r.len() - 1 {
            assert(m[i] == strip_cr(r[i]));
        }
    }
    assert(m =~= r);
}

/// The value does not end with a carriage return, so neither does `key=value`.
proof fn lemma_key_line_end(key: Seq<char>, value: Seq<char>)
    requires
        !(value.len() > 0 && value.last() == '\r'),
    ensures
        key_line(key, value).len() > 0,
        key_line(key, value).last() != '\r',
{
    let kl = key_line(key, value);
    if value.len() == 0 {
        assert(kl.last() == '=');
    } else {
        assert(kl.last() == value.last());
    }
}

/// Setting the same key of the same section to the same value a second time changes
/// nothing: `set_ini_value` applied to its own result gives that result back. This holds
/// when the text holds no carriage return and does not end with an empty line, section,
/// key and value hold no line feed, the value does not end with a carriage return, and
/// the line `key=value` neither begins with `[` nor reads, trimmed, as `[section]`.
pub proof fn law_set_value_twice(content: Seq<char>, section: Seq<char>, key: Seq<char>, value: Seq<char>)
    requires
        no_cr(content),
        !ends_in_blank_line(content),
        no_newline(section),
        no_newline(key),
        no_newline(value),
        !(value.len() > 0 && value.last() == '\r'),
        !opens_bracket(key_line(key, value)),
        !is_header_line(key_line(key, value), section_header(section)),
    ensures
        ini_with_value(ini_with_value(content, section, key, value), section, key, value)
            == ini_with_value(content, section, key, value),
{
    let h = section_header(section);
    let p = key_prefix(key);
    let kl = key_line(key, value);
    let r = set_in_lines(lines_of(content), section, key, value);
    let u = lemma_set_lines_shape(content, section, key, value);
    lemma_key_line_end(key, value);
    assert forall|i: int| 0 <= i < r.len() implies (#[trigger] r[i]).len() == 0 || r[i].last() != '\r' by {
        if r[i] == h {
            assert(h.last() == ']');
        } else if r[i] != kl && r[i].len() > 0 {
            assert(no_cr(r[i]));
            assert(r[i].last() == r[i][r[i].len() - 1]);
        }
    }
    lemma_split_join(r);
    // In `r` the key's first line already holds the value, so setting it again keeps `r`.
    let c = choose|j: int| is_first_key_slot(r, h, p, j);
    lemma_first_slot_unique(r, h, p, c, u);
    assert(set_in_lines(r, section, key, value) =~= r);
}

/// When the key already reads as the value, setting it leaves a text that holds no
/// carriage return and does not end with a line feed exactly as it was.
pub proof fn lemma_set_unchanged(content: Seq<char>, section: Seq<char>, key: Seq<char>, value: Seq<char>)
    requires
        ini_value(content, section, key) == Some(value),
        no_cr(content),
        content.len() == 0 || content.last() != '\n',
    ensures
        ini_with_value(content, section, key, value) == content,
{
    let h = section_header(section);
    let p = key_prefix(key);
    let ls = lines_of(content);
    let u = choose|j: int| is_first_key_slot(ls, h, p, j);
    assert(ls[u] =~= key_line(key, value)) by {
        assert(ls[u].take(p.len() as int) == p);
        assert(ls[u].skip(p.len() as int) == value);
        assert(ls[u] =~= ls[u].take(p.len() as int) + ls[u].skip(p.len() as int));
    }
    assert(set_in_lines(ls, section, key, value) =~= ls);
    lemma_join_lines_of(content);
}

/// After a set, a text without carriage returns that does not end with an empty line
/// still holds none and ends neither with a line feed nor an empty line, when section,
/// key and value hold no carriage return either.
pub proof fn lemma_set_output_shape(content: Seq<char>, section: Seq<char>, key: Seq<char>, value: Seq<char>)
    requires
        no_cr(content),
        !ends_in_blank_line(content),
        no_newline(section),
        no_newline(key),
        no_newline(value),
        no_cr(section),
        no_cr(key),
        no_cr(value),
        !opens_bracket(key_line(key, value)),
        !is_header_line(key_line(key, value), section_header(section)),
    ensures
        no_cr(ini_with_value(content, section, key, value)),
        ini_with_value(content, section, key, value).len() > 0,
        ini_with_value(content, section, key, value).last() != '\n',
        !ends_in_blank_line(ini_with_value(content, section, key, value)),
{
    let h = section_header(section);
    let kl = key_line(key, value);
    let r = set_in_lines(lines_of(content), section, key, value);
    let _ = lemma_set_lines_shape(content, section, key, value);
    assert(no_cr(kl)) by {
        assert forall|i: int| 0 <= i < kl.len() implies kl[i] != '\r' by {
            if i < key.len() {
                assert(kl[i] == key[i]);
            } else if i > key.len() {
                assert(kl[i] == value[i - key.len() - 1]);
            }
        }
    }
    assert(no_cr(h)) by {
        assert forall|i: int| 0 <= i < h.len() implies h[i] != '\r' by {
            if 0 < i < h.len() - 1 {
                assert(h[i] == section[i - 1]);
            }
        }
    }
    assert forall|i: int| 0 <= i < r.len() implies no_cr(#[trigger] r[i]) by {
        assert(r[i] == kl || r[i] == h || no_cr(r[i]));
    }
    let out = join_with(r, '\n');
    lemma_join_no_cr(r);
    lemma_join_last(r, '\n');
    assert(r.last().last() != '\n') by {
        assert(no_newline(r[r.len() - 1]));
        assert(r.last()[r.last().len() - 1] == r.last().last());
    }
    assert(out.last() == out[out.len() - 1]);
}

/// Lines free of carriage returns join into a text free of them.
proof fn lemma_join_no_cr(r: Seq<Seq<char>>)
    requires
        forall|i: int| 0 <= i < r.len() ==> no_cr(#[trigger] r[i]),
    ensures
        no_cr(join_with(r, '\n')),
    decreases r.len(),
{
    if r.len() >= 2 {
        let a = r.drop_last();
        assert forall|i: int| 0 <= i < a.len() implies no_cr(#[trigger] a[i]) by {
            assert(a[i] == r[i]);
        }
        lemma_join_no_cr(a);
        let j = join_with(r, '\n');
        let ja = join_with(a, '\n');
        assert(j == ja + seq!['\n'] + r.last());
        assert(no_cr(r[r.len() - 1]));
        assert forall|i: int| 0 <= i < j.len() implies j[i] != '\r' by {
            if i < ja.len() {
                assert(j[i] == ja[i]);
            } else if i > ja.len() {
                assert(j[i] == r.last()[i - ja.len() - 1]);
            }
        }
    } else if r.len() == 1 {
        assert(join_with(r, '\n') == r[0]);
    }
}

/// A set keeps every line unindented when the text had none indented and the key begins
/// with neither white space nor `[`.
pub proof fn lemma_set_keeps_unindented(content: Seq<char>, section: Seq<char>, key: Seq<char>, value: Seq<char>)
    requires
        no_indented_lines(content),
        no_newline(section),
        no_newline(key),
        no_newline(value),
        key_starts_plainly(key),
    ensures
        no_indented_lines(ini_with_value(content, section, key, value)),
{
    let h = section_header(section);
    let p = key_prefix(key);
    let kl = key_line(key, value);
    let ls = lines_of(content);
    assert(kl.take(p.len() as int) =~= p);
    lemma_key_line_no_marker(kl, key, section);
    lemma_lines_no_newline(content);
    assert(no_newline(kl));
    assert(no_newline(h));
    let r = set_in_lines(ls, section, key, value);
    let _ = lemma_set_in_lines_slot(ls, section, key, value);
    let n = ls.len() as int;
    assert(unindented(h)) by {
        assert(h[0] == '[');
    }
    assert forall|i: int| 0 <= i < r.len() implies unindented(#[trigger] r[i]) by {
        if exists|j: int| is_first_key_slot(ls, h, p, j) {
            let u0 = choose|j: int| is_first_key_slot(ls, h, p, j);
            assert(r == ls.update(u0, kl));
            if i != u0 {
                assert(r[i] == ls[i]);
            }
        } else if exists|hh: int| is_last_header(ls, h, hh) {
            let hh = choose|hh: int| is_last_header(ls, h, hh);
            assert(r == ls.insert(hh + 1, kl));
            if i < hh + 1 {
                assert(r[i] == ls[i]);
            } else if i > hh + 1 {
                assert(r[i] == ls[i - 1]);
            }
        } else {
            assert(r == ls + seq![Seq::<char>::empty(), h, kl]);
            if i < n {
                assert(r[i] == ls[i]);
            }
        }
    }
    lemma_lines_of_join(r);
    let m = lines_of(join_with(r, '\n'));
    assert forall|i: int| 0 <= i < m.len() implies unindented(#[trigger] m[i]) by {
        if i < r.len() - 1 {
            assert(m[i] == strip_cr(r[i]));
            assert(unindented(r[i]));
            if r[i].len() > 1 {
                assert(strip_cr(r[i])[0] == r[i][0]);
            }
        } else {
            assert(m[i] == r.last());
            assert(unindented(r[r.len() - 1]));
        }
    }
}

} // verus!
