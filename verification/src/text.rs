//! Small text routines that the rest of the crate is written over: writing
//! and reading decimal numbers, the search for the word "error", and the two
//! path operations the service needs.
//!
//! Paths are plain text with `/` as the only separator. Empty components and
//! `.` lead nowhere and are passed over; `..` is no file name.

use vstd::prelude::*;

verus! {

/// The characters of `s`, in order.
pub fn chars_of(s: &str) -> (v: Vec<char>)
    ensures
        v@ == s@,
{
    let mut v: Vec<char> = Vec::new();
    for c in it: s.chars()
        invariant
            v@ == it.seq().take(it.index() as int),
            it.seq() == s@,
    {
        v.push(c);
    }
    v
}

/// The decimal digit for `d`, where `d < 10`.
pub open spec fn digit_char(d: nat) -> char {
    if d == 0 {
        '0'
    } else if d == 1 {
        '1'
    } else if d == 2 {
        '2'
    } else if d == 3 {
        '3'
    } else if d == 4 {
        '4'
    } else if d == 5 {
        '5'
    } else if d == 6 {
        '6'
    } else if d == 7 {
        '7'
    } else if d == 8 {
        '8'
    } else {
        '9'
    }
}

/// `n` written in base ten without sign, padding or leading zeros.
pub open spec fn decimal_text(n: nat) -> Seq<char>
    decreases n,
{
    if n < 10 {
        seq![digit_char(n)]
    } else {
        decimal_text(n / 10).push(digit_char(n % 10))
    }
}

fn digit_text(d: u64) -> (r: &'static str)
    requires
        d < 10,
    ensures
        r@ == seq![digit_char(d as nat)],
{
    proof {
        reveal_strlit("0");
        reveal_strlit("1");
        reveal_strlit("2");
        reveal_strlit("3");
        reveal_strlit("4");
        reveal_strlit("5");
        reveal_strlit("6");
        reveal_strlit("7");
        reveal_strlit("8");
        reveal_strlit("9");
    }
    let r = if d == 0 {
        "0"
    } else if d == 1 {
        "1"
    } else if d == 2 {
        "2"
    } else if d == 3 {
        "3"
    } else if d == 4 {
        "4"
    } else if d == 5 {
        "5"
    } else if d == 6 {
        "6"
    } else if d == 7 {
        "7"
    } else if d == 8 {
        "8"
    } else {
        "9"
    };
    assert(r@ =~= seq![digit_char(d as nat)]);
    r
}

/// Renders `n` in base ten.
pub fn decimal(n: u64) -> (r: String)
    ensures
        r@ == decimal_text(n as nat),
    decreases n,
{
    if n < 10 {
        String::from_str(digit_text(n))
    } else {
        let mut s = decimal(n / 10);
        s.append(digit_text(n % 10));
        assert(s@ =~= decimal_text((n / 10) as nat).push(digit_char((n % 10) as nat)));
        s
    }
}

/// `n` written in base ten, with `-` in front where it is negative.
pub open spec fn signed_decimal_text(n: int) -> Seq<char> {
    if n < 0 {
        seq!['-'] + decimal_text((-n) as nat)
    } else {
        decimal_text(n as nat)
    }
}

/// Renders `n` in base ten.
pub fn signed_decimal(n: i64) -> (r: String)
    ensures
        r@ == signed_decimal_text(n as int),
{
    if n < 0 {
        let magnitude: u64 = (-(n + 1)) as u64 + 1;
        proof {
            reveal_strlit("-");
        }
        let mut r = String::from_str("-");
        r.append(decimal(magnitude).as_str());
        assert(r@ =~= seq!['-'] + decimal_text((-n) as nat));
        r
    } else {
        decimal(n as u64)
    }
}

/// The value of the decimal digit `c`, if it is one.
pub open spec fn digit_of(c: char) -> Option<nat> {
    if c == '0' {
        Some(0)
    } else if c == '1' {
        Some(1)
    } else if c == '2' {
        Some(2)
    } else if c == '3' {
        Some(3)
    } else if c == '4' {
        Some(4)
    } else if c == '5' {
        Some(5)
    } else if c == '6' {
        Some(6)
    } else if c == '7' {
        Some(7)
    } else if c == '8' {
        Some(8)
    } else if c == '9' {
        Some(9)
    } else {
        None
    }
}

/// The number that the digits `s` write in base ten. `None` where `s` is
/// empty or holds anything but decimal digits.
pub open spec fn digits_value(s: Seq<char>) -> Option<nat>
    decreases s.len(),
{
    if s.len() == 0 {
        None
    } else if s.len() == 1 {
        digit_of(s[0])
    } else {
        match (digits_value(s.drop_last()), digit_of(s.last())) {
            (Some(v), Some(d)) => Some(v * 10 + d),
            _ => None,
        }
    }
}

/// The unsigned number that `s` writes: one `+` or none, then one or more
/// decimal digits and nothing else, with a value of no more than `max`.
pub open spec fn parsed_unsigned(s: Seq<char>, max: nat) -> Option<nat> {
    let digits = if s.len() > 0 && s[0] == '+' {
        s.skip(1)
    } else {
        s
    };
    match digits_value(digits) {
        Some(v) => if v <= max {
            Some(v)
        } else {
            None
        },
        None => None,
    }
}

/// Where digits write a number, each of their prefixes writes one too, and
/// no greater one.
pub proof fn lemma_digits_prefix(s: Seq<char>, k: int)
    requires
        0 < k <= s.len(),
        digits_value(s) is Some,
    ensures
        digits_value(s.take(k)) is Some,
        digits_value(s.take(k))->0 <= digits_value(s)->0,
    decreases s.len(),
{
    if k == s.len() {
        assert(s.take(k) =~= s);
    } else {
        assert(s.drop_last().take(k) =~= s.take(k));
        lemma_digits_prefix(s.drop_last(), k);
    }
}

fn digit_value(c: char) -> (d: Option<u64>)
    ensures
        match d {
            Some(v) => digit_of(c) == Some(v as nat) && v < 10,
            None => digit_of(c) is None,
        },
{
    if c == '0' {
        Some(0)
    } else if c == '1' {
        Some(1)
    } else if c == '2' {
        Some(2)
    } else if c == '3' {
        Some(3)
    } else if c == '4' {
        Some(4)
    } else if c == '5' {
        Some(5)
    } else if c == '6' {
        Some(6)
    } else if c == '7' {
        Some(7)
    } else if c == '8' {
        Some(8)
    } else if c == '9' {
        Some(9)
    } else {
        None
    }
}

/// Reads an unsigned number of no more than `max`.
pub fn parse_unsigned(s: &str, max: u64) -> (value: Option<u64>)
    ensures
        match value {
            Some(v) => parsed_unsigned(s@, max as nat) == Some(v as nat),
            None => parsed_unsigned(s@, max as nat) is None,
        },
{
    let chars = chars_of(s);
    let n = chars.len();
    let start: usize = if n > 0 && chars[0] == '+' {
        1
    } else {
        0
    };
    let ghost digits = if start == 1 {
        chars@.skip(1)
    } else {
        chars@
    };
    if start == n {
        return None;
    }
    let mut acc: u64 = 0;
    let mut i: usize = start;
    while i < n
        invariant
            n == chars@.len(),
            start <= i <= n,
            start <= 1,
            digits.len() == n - start,
            forall|j: int| 0 <= j < digits.len() ==> digits[j] == chars@[j + start],
            i > start ==> digits_value(digits.take(i - start)) == Some(acc as nat),
            i == start ==> acc == 0,
            acc <= max,
            parsed_unsigned(s@, max as nat) == (match digits_value(digits) {
                Some(v) => if v <= max {
                    Some(v)
                } else {
                    None
                },
                None => None,
            }),
        decreases n - i,
    {
        let ghost k = i - start + 1;
        let ghost prefix = digits.take(k);
        proof {
            assert(prefix.last() == chars@[i as int]);
            assert(prefix.drop_last() =~= digits.take(k - 1));
            if digits_value(digits) is Some {
                lemma_digits_prefix(digits, k);
            }
        }
        let d = match digit_value(chars[i]) {
            Some(d) => d,
            None => {
                return None;
            },
        };
        assert(digits_value(prefix) == Some((acc * 10 + d) as nat));
        let grown = match acc.checked_mul(10) {
            Some(tens) => tens.checked_add(d),
            None => None,
        };
        match grown {
            Some(next) => {
                if next > max {
                    return None;
                }
                acc = next;
            },
            None => {
                return None;
            },
        }
        i += 1;
    }
    assert(digits.take(n - start) =~= digits);
    Some(acc)
}

/// Whether the five characters of `s` from `i` on spell "error", in either
/// case of each letter.
pub open spec fn error_word_at(s: Seq<char>, i: int) -> bool {
    &&& 0 <= i
    &&& i + 5 <= s.len()
    &&& (s[i] == 'e' || s[i] == 'E')
    &&& (s[i + 1] == 'r' || s[i + 1] == 'R')
    &&& (s[i + 2] == 'r' || s[i + 2] == 'R')
    &&& (s[i + 3] == 'o' || s[i + 3] == 'O')
    &&& (s[i + 4] == 'r' || s[i + 4] == 'R')
}

/// Whether `s` holds the word "error" somewhere, case-insensitively.
pub open spec fn mentions_error(s: Seq<char>) -> bool {
    exists|i: int| error_word_at(s, i)
}

/// Decides `mentions_error` for a line of text.
pub fn line_mentions_error(line: &str) -> (found: bool)
    ensures
        found == mentions_error(line@),
{
    let chars = chars_of(line);
    let n = chars.len();
    if n < 5 {
        return false;
    }
    let mut i: usize = 0;
    while i <= n - 5
        invariant
            n == chars@.len(),
            chars@ == line@,
            5 <= n,
            i <= n - 4,
            forall|j: int| 0 <= j < i ==> !error_word_at(chars@, j),
        decreases n - i,
    {
        if (chars[i] == 'e' || chars[i] == 'E') && (chars[i + 1] == 'r' || chars[i + 1] == 'R') && (
        chars[i + 2] == 'r' || chars[i + 2] == 'R') && (chars[i + 3] == 'o' || chars[i + 3] == 'O')
            && (chars[i + 4] == 'r' || chars[i + 4] == 'R') {
            assert(error_word_at(chars@, i as int));
            return true;
        }
        i += 1;
    }
    false
}

/// Position of the last `/` in `s`, or `-1` where `s` holds none.
pub open spec fn last_slash(s: Seq<char>) -> int
    decreases s.len(),
{
    if s.len() == 0 {
        -1
    } else if s.last() == '/' {
        s.len() - 1
    } else {
        last_slash(s.drop_last())
    }
}

/// What follows the last `/` of `path`; all of `path` where it holds no `/`.
pub open spec fn base_name(path: Seq<char>) -> Seq<char> {
    path.skip(last_slash(path) + 1)
}

/// Whether `s` holds no `/`.
pub open spec fn slash_free(s: Seq<char>) -> bool {
    forall|i: int| 0 <= i < s.len() ==> s[i] != '/'
}

/// `name` placed under the directory `dir`: a `name` that starts with `/`
/// stands for itself, an empty `dir` adds nothing, and one `/` separates the
/// two unless `dir` already ends with it.
pub open spec fn joined(dir: Seq<char>, name: Seq<char>) -> Seq<char> {
    if name.len() > 0 && name[0] == '/' {
        name
    } else if dir.len() == 0 {
        name
    } else if dir.last() == '/' {
        dir + name
    } else {
        dir + seq!['/'] + name
    }
}

/// `last_slash` is within bounds, points at a `/`, and nothing after it is one.
pub proof fn lemma_last_slash(s: Seq<char>)
    ensures
        -1 <= last_slash(s) < s.len(),
        last_slash(s) >= 0 ==> s[last_slash(s)] == '/',
        forall|i: int| last_slash(s) < i < s.len() ==> s[i] != '/',
    decreases s.len(),
{
    if s.len() > 0 && s.last() != '/' {
        let t = s.drop_last();
        lemma_last_slash(t);
        assert forall|i: int| last_slash(s) < i < s.len() implies s[i] != '/' by {
            if i < t.len() {
                assert(s[i] == t[i]);
            }
        }
    }
}

/// The base name is the longest suffix without a `/`.
pub proof fn lemma_base_name(path: Seq<char>)
    ensures
        slash_free(base_name(path)),
        base_name(path).len() <= path.len(),
        path == path.take(last_slash(path) + 1) + base_name(path),
        slash_free(path) ==> base_name(path) == path,
{
    lemma_last_slash(path);
    let k = last_slash(path) + 1;
    assert(path =~= path.take(k) + path.skip(k));
    if slash_free(path) {
        assert(k == 0);
        assert(path.skip(0) =~= path);
    }
}

/// The last `/` of a concatenation whose second part has none is that of the
/// first part.
pub proof fn lemma_last_slash_append(a: Seq<char>, b: Seq<char>)
    requires
        slash_free(b),
    ensures
        last_slash(a + b) == last_slash(a),
    decreases b.len(),
{
    if b.len() == 0 {
        assert(a + b =~= a);
    } else {
        assert((a + b).last() == b.last());
        assert((a + b).drop_last() =~= a + b.drop_last());
        lemma_last_slash_append(a, b.drop_last());
    }
}

/// What is placed under a directory by a name without `/` has that name as
/// its base name.
pub proof fn lemma_base_name_of_joined(dir: Seq<char>, name: Seq<char>)
    requires
        slash_free(name),
    ensures
        base_name(joined(dir, name)) == name,
{
    lemma_base_name(name);
    if dir.len() == 0 {
    } else if dir.last() == '/' {
        lemma_last_slash_append(dir, name);
        assert(last_slash(dir) == dir.len() - 1);
        assert((dir + name).skip(dir.len() as int) =~= name);
    } else {
        let d = dir + seq!['/'];
        assert(d.last() == '/');
        lemma_last_slash_append(d, name);
        assert(last_slash(d) == d.len() - 1);
        assert((d + name).skip(d.len() as int) =~= name);
    }
}

/// Whether `name` is a component that leads nowhere: empty, as between two
/// `/`, or `.`.
pub open spec fn is_idle(name: Seq<char>) -> bool {
    name.len() == 0 || (name.len() == 1 && name[0] == '.')
}

/// Whether `name` is `..`, the way up.
pub open spec fn is_parent(name: Seq<char>) -> bool {
    name.len() == 2 && name[0] == '.' && name[1] == '.'
}

/// The last component of `path` that leads somewhere: going from the end,
/// the first run between `/` that is neither empty nor `.`. Empty where
/// `path` has no such run.
pub open spec fn final_component(path: Seq<char>) -> Seq<char>
    decreases path.len(),
{
    if !is_idle(base_name(path)) {
        base_name(path)
    } else if 0 <= last_slash(path) < path.len() {
        final_component(path.take(last_slash(path)))
    } else {
        Seq::empty()
    }
}

/// The name of the file that `path` ends in: its final component, unless
/// there is none or it is `..`.
pub open spec fn file_name_of(path: Seq<char>) -> Option<Seq<char>> {
    if final_component(path).len() == 0 || is_parent(final_component(path)) {
        None
    } else {
        Some(final_component(path))
    }
}

/// Whether `name` can name a file in a directory: it is not empty, holds no
/// `/`, and is neither `.` nor `..`.
pub open spec fn is_plain_name(name: Seq<char>) -> bool {
    slash_free(name) && !is_idle(name) && !is_parent(name)
}

/// A final component holds no `/` and is not `.`.
pub proof fn lemma_final_component(path: Seq<char>)
    ensures
        slash_free(final_component(path)),
        final_component(path).len() == 0 || !is_idle(final_component(path)),
        file_name_of(path) matches Some(name) ==> is_plain_name(name),
    decreases path.len(),
{
    lemma_base_name(path);
    lemma_last_slash(path);
    if is_idle(base_name(path)) && 0 <= last_slash(path) < path.len() {
        lemma_final_component(path.take(last_slash(path)));
    }
}

/// A file placed under a directory by a plain name is found again by that
/// name.
pub proof fn lemma_file_name_of_joined(dir: Seq<char>, name: Seq<char>)
    requires
        is_plain_name(name),
    ensures
        file_name_of(joined(dir, name)) == Some(name),
{
    lemma_base_name_of_joined(dir, name);
}

/// Where the component of `chars` that ends before `end` starts.
fn component_start(chars: &Vec<char>, end: usize) -> (start: usize)
    requires
        end <= chars@.len(),
    ensures
        start <= end,
        start == last_slash(chars@.take(end as int)) + 1,
{
    let mut start: usize = end;
    while start > 0 && chars[start - 1] != '/'
        invariant
            start <= end <= chars@.len(),
            forall|i: int| start <= i < end ==> chars@[i] != '/',
        decreases start,
    {
        start -= 1;
    }
    proof {
        let prefix = chars@.take(end as int);
        let k = last_slash(prefix);
        lemma_last_slash(prefix);
        if k >= start {
            assert(prefix[k] == chars@[k]);
        }
        if k < start - 1 {
            assert(prefix[start - 1] == chars@[start - 1]);
        }
    }
    start
}

/// The name of the file that `path` ends in.
pub fn file_name(path: &str) -> (name: Option<String>)
    ensures
        name.deep_view() == file_name_of(path@),
{
    let chars = chars_of(path);
    let mut end: usize = chars.len();
    assert(chars@.take(end as int) =~= path@);
    loop
        invariant
            chars@ == path@,
            end <= chars@.len(),
            final_component(path@) == final_component(chars@.take(end as int)),
        decreases end,
    {
        let start = component_start(&chars, end);
        let ghost prefix = chars@.take(end as int);
        assert(base_name(prefix) =~= chars@.subrange(start as int, end as int));
        let idle = start == end || (end - start == 1 && chars[start] == '.');
        if !idle {
            if end - start == 2 && chars[start] == '.' && chars[start + 1] == '.' {
                return None;
            }
            let name = path.substring_char(start, end);
            return Some(String::from_str(name));
        }
        if start == 0 {
            return None;
        }
        assert(prefix.take(start - 1) =~= chars@.take(start - 1));
        end = start - 1;
    }
}

/// `name` placed under `dir`.
pub fn join_path(dir: &str, name: &str) -> (path: String)
    ensures
        path@ == joined(dir@, name@),
{
    let d = chars_of(dir);
    let m = chars_of(name);
    if m.len() > 0 && m[0] == '/' {
        return String::from_str(name);
    }
    if d.len() == 0 {
        return String::from_str(name);
    }
    let mut path = String::from_str(dir);
    if d[d.len() - 1] != '/' {
        proof {
            reveal_strlit("/");
        }
        path.append("/");
        assert(path@ =~= dir@ + seq!['/']);
    }
    path.append(name);
    path
}

} // verus!
