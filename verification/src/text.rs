//! Verified text helpers: substring search, prefix/suffix tests, line
//! splitting with a bounded tail, ASCII case folding, and decimal rendering.
//! These carry the readiness scan, the log-excerpt extraction and the
//! command-line assembly of the lifecycle manager.

use vstd::prelude::*;
use vstd::string::*;

verus! {

/// The pattern `p` occurs in `s` at position `i`.
pub open spec fn spec_has_sub_at(s: Seq<char>, p: Seq<char>, i: int) -> bool {
    0 <= i && i + p.len() <= s.len() && s.subrange(i, i + p.len() as int) == p
}

/// The pattern `p` occurs somewhere in `s` (case-sensitive).
pub open spec fn spec_contains(s: Seq<char>, p: Seq<char>) -> bool {
    exists|i: int| spec_has_sub_at(s, p, i)
}

/// `s` ends with the suffix `p`.
pub open spec fn spec_ends_with(s: Seq<char>, p: Seq<char>) -> bool {
    p.len() <= s.len() && s.subrange(s.len() - p.len(), s.len() as int) == p
}

/// `s` starts with the prefix `p`.
pub open spec fn spec_starts_with(s: Seq<char>, p: Seq<char>) -> bool {
    p.len() <= s.len() && s.subrange(0, p.len() as int) == p
}

/// Relies on std's `String::push`: appends exactly the one character.
#[verifier::external_body]
pub(crate) fn string_push(s: &mut String, c: char)
    ensures
        final(s)@ == old(s)@.push(c),
{
    s.push(c);
}

/// Whether `p` occurs in `s` at exactly position `i`.
fn match_at(s: &str, p: &str, i: usize) -> (r: bool)
    requires
        i + p@.len() <= s@.len(),
    ensures
        r == spec_has_sub_at(s@, p@, i as int),
{
    let n = s.unicode_len();
    let m = p.unicode_len();
    let mut j: usize = 0;
    while j < m
        invariant
            n == s@.len(),
            m == p@.len(),
            0 <= j <= m,
            i + m <= n,
            forall|k: int| 0 <= k < j ==> s@[i + k] == p@[k],
        decreases m - j,
    {
        if s.get_char(i + j) != p.get_char(j) {
            proof {
                if spec_has_sub_at(s@, p@, i as int) {
                    assert(s@.subrange(i as int, i + p@.len())[j as int] == s@[i + j]);
                }
            }
            return false;
        }
        j += 1;
    }
    proof {
        assert(s@.subrange(i as int, i + p@.len()) =~= p@);
    }
    true
}

/// Case-sensitive substring search, as the readiness scan performs it.
pub fn str_contains(s: &str, p: &str) -> (r: bool)
    ensures
        r == spec_contains(s@, p@),
{
    let n = s.unicode_len();
    let m = p.unicode_len();
    if m > n {
        return false;
    }
    if m == 0 {
        proof {
            assert(s@.subrange(0, 0) =~= p@);
            assert(spec_has_sub_at(s@, p@, 0));
        }
        return true;
    }
    let mut i: usize = 0;
    while i <= n - m
        invariant
            n == s@.len(),
            m == p@.len(),
            0 < m <= n,
            0 <= i <= n - m + 1,
            forall|k: int| 0 <= k < i ==> !spec_has_sub_at(s@, p@, k),
        decreases n - i,
    {
        if match_at(s, p, i) {
            return true;
        }
        i += 1;
    }
    proof {
        assert(forall|k: int| spec_has_sub_at(s@, p@, k) ==> 0 <= k < i);
    }
    false
}

/// Suffix test over exact characters.
pub fn str_ends_with(s: &str, p: &str) -> (r: bool)
    ensures
        r == spec_ends_with(s@, p@),
{
    let n = s.unicode_len();
    let m = p.unicode_len();
    if m > n {
        return false;
    }
    match_at(s, p, n - m)
}

/// Views of a sequence of owned strings.
pub open spec fn spec_views(lines: Seq<String>) -> Seq<Seq<char>> {
    lines.map_values(|l: String| l@)
}

/// Accumulator pass over `s`: the newline-terminated lines seen so far, and
/// the still-unterminated tail after the last newline.
pub open spec fn spec_lines_fold(s: Seq<char>) -> (Seq<Seq<char>>, Seq<char>)
    decreases s.len(),
{
    if s.len() == 0 {
        (Seq::empty(), Seq::empty())
    } else {
        let prev = spec_lines_fold(s.drop_last());
        if s.last() == '\n' {
            (prev.0.push(prev.1), Seq::empty())
        } else {
            (prev.0, prev.1.push(s.last()))
        }
    }
}

/// The lines of `s`, split on newline characters. A trailing fragment with
/// no final newline still counts as a line; a trailing newline does not add
/// an empty line.
pub open spec fn spec_split_lines(s: Seq<char>) -> Seq<Seq<char>> {
    let f = spec_lines_fold(s);
    if f.1.len() == 0 {
        f.0
    } else {
        f.0.push(f.1)
    }
}

/// Split `s` into its lines.
pub fn split_lines(s: &str) -> (r: Vec<String>)
    ensures
        spec_views(r@) == spec_split_lines(s@),
{
    let n = s.unicode_len();
    let mut lines: Vec<String> = Vec::new();
    let mut start: usize = 0;
    let mut i: usize = 0;
    while i < n
        invariant
            n == s@.len(),
            0 <= start <= i <= n,
            spec_lines_fold(s@.subrange(0, i as int)).0 =~= spec_views(lines@),
            spec_lines_fold(s@.subrange(0, i as int)).1 =~= s@.subrange(start as int, i as int),
        decreases n - i,
    {
        let c = s.get_char(i);
        proof {
            assert(s@.subrange(0, i + 1).drop_last() =~= s@.subrange(0, i as int));
        }
        if c == '\n' {
            let line: String = s.substring_char(start, i).to_owned();
            let ghost lines0 = lines@;
            lines.push(line);
            proof {
                assert(spec_views(lines@) =~= spec_views(lines0).push(line@));
            }
            start = i + 1;
            proof {
                assert(s@.subrange(start as int, i + 1) =~= Seq::<char>::empty());
            }
        } else {
            proof {
                assert(s@.subrange(start as int, i + 1) =~= s@.subrange(
                    start as int,
                    i as int,
                ).push(s@[i as int]));
            }
        }
        i += 1;
    }
    proof {
        assert(s@.subrange(0, n as int) =~= s@);
    }
    if start < n {
        let line: String = s.substring_char(start, n).to_owned();
        let ghost lines0 = lines@;
        lines.push(line);
        proof {
            assert(spec_views(lines@) =~= spec_views(lines0).push(line@));
        }
    }
    lines
}

/// The last `max` elements of `s` (all of them, if there are fewer), in
/// original order.
pub open spec fn spec_tail(s: Seq<Seq<char>>, max: int) -> Seq<Seq<char>> {
    if s.len() <= max {
        s
    } else {
        s.subrange(s.len() - max, s.len() as int)
    }
}

/// Copy the trailing `max` lines, oldest first.
pub fn tail_lines(lines: &Vec<String>, max: usize) -> (r: Vec<String>)
    ensures
        spec_views(r@) == spec_tail(spec_views(lines@), max as int),
{
    let len = lines.len();
    let start: usize = if len > max {
        len - max
    } else {
        0
    };
    let mut r: Vec<String> = Vec::new();
    let mut i: usize = start;
    while i < len
        invariant
            start <= i <= len,
            len == lines@.len(),
            spec_views(r@) =~= spec_views(lines@).subrange(start as int, i as int),
        decreases len - i,
    {
        let ghost r0 = r@;
        let line: String = lines[i].clone();
        r.push(line);
        proof {
            assert(spec_views(r@) =~= spec_views(r0).push(lines@[i as int]@));
            assert(spec_views(lines@).subrange(start as int, i + 1) =~= spec_views(
                lines@,
            ).subrange(start as int, i as int).push(lines@[i as int]@));
        }
        i += 1;
    }
    proof {
        if lines@.len() <= max {
            assert(spec_views(lines@).subrange(0, len as int) =~= spec_views(lines@));
        }
    }
    r
}

/// Prefix test over exact characters.
pub fn str_starts_with(s: &str, p: &str) -> (r: bool)
    ensures
        r == spec_starts_with(s@, p@),
{
    let n = s.unicode_len();
    let m = p.unicode_len();
    if m > n {
        return false;
    }
    match_at(s, p, 0)
}

/// One log record: the line followed by its newline terminator.
pub open spec fn spec_record(line: Seq<char>) -> Seq<char> {
    line + seq!['\n']
}

/// A run of whole records appended in order.
pub open spec fn spec_join_records(lines: Seq<Seq<char>>) -> Seq<char>
    decreases lines.len(),
{
    if lines.len() == 0 {
        Seq::empty()
    } else {
        spec_join_records(lines.drop_last()) + spec_record(lines.last())
    }
}

/// A line free of newline characters.
pub open spec fn spec_line_clean(line: Seq<char>) -> bool {
    forall|i: int| 0 <= i < line.len() ==> line[i] != '\n'
}

/// Append one line as a whole newline-terminated record.
pub fn log_record(line: &str) -> (r: String)
    ensures
        r@ == spec_record(line@),
{
    let mut s = String::from_str(line);
    s.append("\n");
    proof {
        reveal_strlit("\n");
        assert(line@ + "\n"@ =~= spec_record(line@));
    }
    s
}

proof fn lemma_fold_append_clean(s: Seq<char>, l: Seq<char>)
    requires
        spec_line_clean(l),
    ensures
        spec_lines_fold(s + l).0 == spec_lines_fold(s).0,
        spec_lines_fold(s + l).1 == spec_lines_fold(s).1 + l,
    decreases l.len(),
{
    if l.len() == 0 {
        assert(s + l =~= s);
        assert(spec_lines_fold(s).1 + l =~= spec_lines_fold(s).1);
    } else {
        assert(spec_line_clean(l.drop_last()));
        lemma_fold_append_clean(s, l.drop_last());
        assert((s + l).drop_last() =~= s + l.drop_last());
        assert((s + l).last() == l.last());
        assert(l.last() != '\n');
        assert(spec_lines_fold(s).1 + l =~= (spec_lines_fold(s).1 + l.drop_last()).push(l.last()));
    }
}

proof fn lemma_fold_append_record(s: Seq<char>, l: Seq<char>)
    requires
        spec_line_clean(l),
    ensures
        spec_lines_fold(s + spec_record(l)).0 == spec_lines_fold(s).0.push(
            spec_lines_fold(s).1 + l,
        ),
        spec_lines_fold(s + spec_record(l)).1 == Seq::<char>::empty(),
{
    lemma_fold_append_clean(s, l);
    assert((s + spec_record(l)).drop_last() =~= s + l);
    assert((s + spec_record(l)).last() == '\n');
}

/// Law: writing whole newline-terminated records and splitting the file
/// back into lines are inverse operations — every record comes back fully,
/// in order, with nothing in between.
pub proof fn lemma_split_join_records(lines: Seq<Seq<char>>)
    requires
        forall|i: int| 0 <= i < lines.len() ==> spec_line_clean(#[trigger] lines[i]),
    ensures
        spec_lines_fold(spec_join_records(lines)).0 == lines,
        spec_lines_fold(spec_join_records(lines)).1 == Seq::<char>::empty(),
        spec_split_lines(spec_join_records(lines)) == lines,
    decreases lines.len(),
{
    if lines.len() == 0 {
        assert(spec_lines_fold(spec_join_records(lines)).0 =~= lines);
    } else {
        assert(forall|i: int|
            0 <= i < lines.drop_last().len() ==> spec_line_clean(#[trigger] lines.drop_last()[i]));
        lemma_split_join_records(lines.drop_last());
        lemma_fold_append_record(spec_join_records(lines.drop_last()), lines.last());
        assert(Seq::<char>::empty() + lines.last() =~= lines.last());
        assert(lines.drop_last().push(lines.last()) =~= lines);
    }
}

/// The character for one decimal digit.
pub open spec fn spec_digit_char(d: int) -> char
    recommends
        0 <= d < 10,
{
    if d == 0 {
        '0'
    } else if d == 1 {
        '1'
    } else if d == 2 {
        '2'
    } else if d == 3 {
        '3'
    } else if d == 4 {
        '4'
    } else if d == 5 {
        '5'
    } else if d == 6 {
        '6'
    } else if d == 7 {
        '7'
    } else if d == 8 {
        '8'
    } else {
        '9'
    }
}

/// Decimal digits of `n`, most significant first, with no leading zero
/// except for `n == 0` itself.
pub open spec fn spec_dec_digits(n: nat) -> Seq<char>
    decreases n,
{
    if n < 10 {
        seq![spec_digit_char(n as int)]
    } else {
        spec_dec_digits(n / 10).push(spec_digit_char((n % 10) as int))
    }
}

fn digit_char(d: u64) -> (c: char)
    requires
        d < 10,
    ensures
        c == spec_digit_char(d as int),
{
    if d == 0 {
        '0'
    } else if d == 1 {
        '1'
    } else if d == 2 {
        '2'
    } else if d == 3 {
        '3'
    } else if d == 4 {
        '4'
    } else if d == 5 {
        '5'
    } else if d == 6 {
        '6'
    } else if d == 7 {
        '7'
    } else if d == 8 {
        '8'
    } else {
        '9'
    }
}

fn push_decimal(out: &mut String, n: u64)
    ensures
        final(out)@ == old(out)@ + spec_dec_digits(n as nat),
    decreases n,
{
    if n >= 10 {
        push_decimal(out, n / 10);
    }
    let d = digit_char(n % 10);
    string_push(out, d);
    proof {
        if n >= 10 {
            assert(old(out)@ + spec_dec_digits((n / 10) as nat).push(spec_digit_char((n % 10) as int))
                =~= (old(out)@ + spec_dec_digits((n / 10) as nat)).push(
                spec_digit_char((n % 10) as int),
            ));
        } else {
            assert(old(out)@ + seq![spec_digit_char(n as int)] =~= old(out)@.push(
                spec_digit_char(n as int),
            ));
        }
    }
}

/// Render `n` in decimal, as the port argument of the launch command needs.
pub fn decimal_string(n: u64) -> (r: String)
    ensures
        r@ == spec_dec_digits(n as nat),
{
    let mut s = String::new();
    push_decimal(&mut s, n);
    proof {
        assert(Seq::<char>::empty() + spec_dec_digits(n as nat) =~= spec_dec_digits(n as nat));
    }
    s
}

/// Decimal rendering of a signed number: a leading minus for negatives.
pub open spec fn spec_signed_dec(n: int) -> Seq<char> {
    if n < 0 {
        "-"@ + spec_dec_digits((-n) as nat)
    } else {
        spec_dec_digits(n as nat)
    }
}

/// Render a signed number in decimal, as an exit status is reported.
pub fn signed_decimal_string(n: i32) -> (r: String)
    ensures
        r@ == spec_signed_dec(n as int),
{
    if n >= 0 {
        decimal_string(n as u64)
    } else {
        let mag: i64 = -(n as i64);
        let mut s = String::from_str("-");
        s.append(decimal_string(mag as u64).as_str());
        s
    }
}

/// The lines joined with single newline separators, no trailing newline.
pub open spec fn spec_join_lines(lines: Seq<Seq<char>>) -> Seq<char>
    decreases lines.len(),
{
    if lines.len() == 0 {
        Seq::empty()
    } else if lines.len() == 1 {
        lines[0]
    } else {
        spec_join_lines(lines.drop_last()) + seq!['\n'] + lines.last()
    }
}

/// Join lines with newlines, as the log excerpt is rendered.
pub fn join_lines(lines: &Vec<String>) -> (r: String)
    ensures
        r@ == spec_join_lines(spec_views(lines@)),
{
    let ghost views = spec_views(lines@);
    let mut s = String::new();
    proof {
        assert(views.subrange(0, 0) =~= Seq::<Seq<char>>::empty());
    }
    let mut i: usize = 0;
    while i < lines.len()
        invariant
            views == spec_views(lines@),
            views.len() == lines@.len(),
            0 <= i <= lines@.len(),
            s@ == spec_join_lines(views.subrange(0, i as int)),
        decreases lines@.len() - i,
    {
        proof {
            reveal_strlit("\n");
            assert("\n"@ =~= seq!['\n']);
            assert(views[i as int] == lines@[i as int]@);
            assert(views.subrange(0, i + 1).drop_last() =~= views.subrange(0, i as int));
        }
        if i > 0 {
            s.append("\n");
        } else {
            proof {
                assert(s@ + views[0] =~= views[0]);
            }
        }
        s.append(lines[i].as_str());
        i += 1;
    }
    proof {
        assert(views.subrange(0, lines@.len() as int) =~= views);
    }
    s
}

/// ASCII lower-casing of one character; other characters are untouched.
pub open spec fn spec_lower_char(c: char) -> char {
    if 'A' <= c && c <= 'Z' {
        ((c as u8) + 32) as char
    } else {
        c
    }
}

/// ASCII lower-casing of a character sequence.
pub open spec fn spec_lower(s: Seq<char>) -> Seq<char> {
    s.map_values(|c: char| spec_lower_char(c))
}

fn lower_char(c: char) -> (r: char)
    ensures
        r == spec_lower_char(c),
{
    if 'A' <= c && c <= 'Z' {
        ((c as u8) + 32) as char
    } else {
        c
    }
}

/// Character-wise comparison under ASCII case folding.
pub fn eq_ignore_ascii_case(a: &str, b: &str) -> (r: bool)
    ensures
        r == (spec_lower(a@) == spec_lower(b@)),
{
    let n = a.unicode_len();
    let m = b.unicode_len();
    if n != m {
        proof {
            assert(spec_lower(a@).len() == a@.len());
            assert(spec_lower(b@).len() == b@.len());
        }
        return false;
    }
    let mut i: usize = 0;
    while i < n
        invariant
            n == a@.len(),
            n == b@.len(),
            0 <= i <= n,
            forall|k: int| 0 <= k < i ==> spec_lower_char(a@[k]) == spec_lower_char(b@[k]),
        decreases n - i,
    {
        let ca = lower_char(a.get_char(i));
        let cb = lower_char(b.get_char(i));
        if ca != cb {
            proof {
                assert(spec_lower(a@)[i as int] == spec_lower_char(a@[i as int]));
                assert(spec_lower(b@)[i as int] == spec_lower_char(b@[i as int]));
            }
            return false;
        }
        i += 1;
    }
    proof {
        assert forall|k: int| 0 <= k < a@.len() implies spec_lower(a@)[k] == spec_lower(b@)[k] by {
            assert(spec_lower(a@)[k] == spec_lower_char(a@[k]));
            assert(spec_lower(b@)[k] == spec_lower_char(b@[k]));
        }
        assert(spec_lower(a@) =~= spec_lower(b@));
    }
    true
}

/// `i` is the position of the last dot in `s`.
pub open spec fn spec_last_dot_at(s: Seq<char>, i: int) -> bool {
    0 <= i < s.len() && s[i] == '.' && (forall|j: int| i < j < s.len() ==> s[j] != '.')
}

/// Position of the last dot in `s`, if any.
pub fn rfind_dot(s: &str) -> (r: Option<usize>)
    ensures
        match r {
            Some(i) => spec_last_dot_at(s@, i as int),
            None => forall|j: int| 0 <= j < s@.len() ==> s@[j] != '.',
        },
{
    let n = s.unicode_len();
    let mut i: usize = n;
    while i > 0
        invariant
            n == s@.len(),
            0 <= i <= n,
            forall|j: int| i <= j < n ==> s@[j] != '.',
        decreases i,
    {
        i -= 1;
        if s.get_char(i) == '.' {
            return Some(i);
        }
    }
    None
}

} // verus!
