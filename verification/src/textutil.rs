//! Small verified text helpers: decimal rendering of counters, joining
//! and parsing of line-separated name lists.

use vstd::prelude::*;
use vstd::string::StrSliceExecFns;
use vstd::string::StringExecFns;

use crate::config::spec_excludes;

verus! {

/// Relies on std's `String::push`: appends the given character to the
/// end of the string.
pub assume_specification[ String::push ](s: &mut String, ch: char)
    ensures
        final(s)@ == old(s)@ + seq![ch],
;

/// The character of one decimal digit.
pub open spec fn digit_char(d: nat) -> char {
    if d == 0 {
        '0'
    } else if d == 1 {
        '1'
    } else if d == 2 {
        '2'
    } else if d == 3 {
        '3'
    } else if d == 4 {
        '4'
    } else if d == 5 {
        '5'
    } else if d == 6 {
        '6'
    } else if d == 7 {
        '7'
    } else if d == 8 {
        '8'
    } else {
        '9'
    }
}

/// The decimal digits of a natural number, most significant first.
pub open spec fn spec_digits(n: nat) -> Seq<char>
    decreases n,
{
    if n < 10 {
        seq![digit_char(n)]
    } else {
        spec_digits(n / 10) + seq![digit_char(n % 10)]
    }
}

/// The displayed form of a counter: at a million and above, tenths of
/// millions with an `M`; at a thousand and above, tenths of thousands
/// with a `K`; otherwise the plain decimal.  The displayed tenth is
/// rounded half-up on the exact integer value; floating-point
/// formatting of the quotient can differ at exact ties (half-to-even
/// on the nearest representable value), which no integer rule
/// reproduces.
pub open spec fn spec_format_count(n: int) -> Seq<char> {
    if n >= 1_000_000 {
        spec_digits((((n + 50_000) / 100_000) / 10) as nat) + seq!['.', digit_char(
            (((n + 50_000) / 100_000) % 10) as nat,
        ), 'M']
    } else if n >= 1_000 {
        spec_digits((((n + 50) / 100) / 10) as nat) + seq!['.', digit_char(
            (((n + 50) / 100) % 10) as nat,
        ), 'K']
    } else if n >= 0 {
        spec_digits(n as nat)
    } else {
        seq!['-'] + spec_digits((-n) as nat)
    }
}

fn digit_to_char(d: u64) -> (c: char)
    requires
        d < 10,
    ensures
        c == digit_char(d as nat),
{
    if d == 0 {
        '0'
    } else if d == 1 {
        '1'
    } else if d == 2 {
        '2'
    } else if d == 3 {
        '3'
    } else if d == 4 {
        '4'
    } else if d == 5 {
        '5'
    } else if d == 6 {
        '6'
    } else if d == 7 {
        '7'
    } else if d == 8 {
        '8'
    } else {
        '9'
    }
}

/// Append the decimal digits of `n` to the string.
pub fn push_digits(s: &mut String, n: u64)
    ensures
        final(s)@ == old(s)@ + spec_digits(n as nat),
    decreases n,
{
    if n < 10 {
        s.push(digit_to_char(n));
    } else {
        push_digits(s, n / 10);
        s.push(digit_to_char(n % 10));
        proof {
            assert(s@ =~= old(s)@ + spec_digits(n as nat));
        }
    }
}

/// The decimal rendering of an unsigned number.
pub fn u64_to_string(n: u64) -> (s: String)
    ensures
        s@ == spec_digits(n as nat),
{
    let mut s = String::new();
    push_digits(&mut s, n);
    proof {
        assert(s@ =~= spec_digits(n as nat));
    }
    s
}

/// Render a counter for display, as `spec_format_count` describes.
pub fn format_count(n: i64) -> (s: String)
    ensures
        s@ == spec_format_count(n as int),
{
    if n >= 1_000_000 {
        let tenths: u64 = ((n as u64) + 50_000) / 100_000;
        let mut s = u64_to_string(tenths / 10);
        s.push('.');
        s.push(digit_to_char(tenths % 10));
        s.push('M');
        proof {
            assert(s@ =~= spec_format_count(n as int));
        }
        s
    } else if n >= 1_000 {
        let tenths: u64 = ((n as u64) + 50) / 100;
        let mut s = u64_to_string(tenths / 10);
        s.push('.');
        s.push(digit_to_char(tenths % 10));
        s.push('K');
        proof {
            assert(s@ =~= spec_format_count(n as int));
        }
        s
    } else if n >= 0 {
        u64_to_string(n as u64)
    } else {
        let mag: u64 = (-(n as i128)) as u64;
        let mut s = String::new();
        s.push('-');
        push_digits(&mut s, mag);
        proof {
            assert(s@ =~= spec_format_count(n as int));
        }
        s
    }
}

/// The names joined with single newlines, in order.
pub open spec fn spec_join_lines(items: Seq<Seq<char>>) -> Seq<char>
    decreases items.len(),
{
    if items.len() == 0 {
        Seq::empty()
    } else if items.len() == 1 {
        items[0]
    } else {
        spec_join_lines(items.drop_last()) + seq!['\n'] + items.last()
    }
}

/// Join the names with single newlines, in order.
pub fn join_lines(items: &Vec<String>) -> (r: String)
    ensures
        r@ == spec_join_lines(spec_excludes(items@)),
{
    let n = items.len();
    let mut r = String::new();
    let mut i: usize = 0;
    while i < n
        invariant
            n == items@.len(),
            i <= n,
            r@ == spec_join_lines(spec_excludes(items@).take(i as int)),
        decreases n - i,
    {
        if i > 0 {
            r.push('\n');
        }
        r.append(items[i].as_str());
        proof {
            assert(spec_excludes(items@).take(i + 1).drop_last() =~= spec_excludes(
                items@,
            ).take(i as int));
            assert(spec_excludes(items@).take(i + 1).last() == items@[i as int]@);
        }
        i += 1;
    }
    proof {
        assert(spec_excludes(items@).take(n as int) =~= spec_excludes(items@));
    }
    r
}

/// The whitespace that is trimmed from a name: the Unicode White_Space
/// characters, as `char::is_whitespace` defines them.
pub open spec fn spec_is_space(c: char) -> bool {
    ||| c == ' '
    ||| (0x09 <= c as u32 && c as u32 <= 0x0d)
    ||| c as u32 == 0x85
    ||| c as u32 == 0xa0
    ||| c as u32 == 0x1680
    ||| (0x2000 <= c as u32 && c as u32 <= 0x200a)
    ||| c as u32 == 0x2028
    ||| c as u32 == 0x2029
    ||| c as u32 == 0x202f
    ||| c as u32 == 0x205f
    ||| c as u32 == 0x3000
}

/// The sequence without its leading whitespace.
pub open spec fn spec_trim_front(s: Seq<char>) -> Seq<char>
    decreases s.len(),
{
    if s.len() > 0 && spec_is_space(s[0]) {
        spec_trim_front(s.drop_first())
    } else {
        s
    }
}

/// The sequence without its trailing whitespace.
pub open spec fn spec_trim_back(s: Seq<char>) -> Seq<char>
    decreases s.len(),
{
    if s.len() > 0 && spec_is_space(s.last()) {
        spec_trim_back(s.drop_last())
    } else {
        s
    }
}

/// The sequence without leading and trailing whitespace.
pub open spec fn spec_trim(s: Seq<char>) -> Seq<char> {
    spec_trim_back(spec_trim_front(s))
}

/// Position of the first newline, or the length where there is none.
pub open spec fn spec_first_newline(s: Seq<char>) -> int
    decreases s.len(),
{
    if s.len() == 0 {
        0
    } else if s[0] == '\n' {
        0
    } else {
        1 + spec_first_newline(s.drop_first())
    }
}

/// The name list a line-separated text denotes: each line trimmed,
/// empty lines dropped.
pub open spec fn spec_parse_names(s: Seq<char>) -> Seq<Seq<char>>
    decreases s.len(),
{
    let k = spec_first_newline(s);
    if 0 <= k <= s.len() {
        let head = spec_trim(s.take(k));
        let head_part: Seq<Seq<char>> = if head.len() == 0 {
            seq![]
        } else {
            seq![head]
        };
        if k >= s.len() {
            head_part
        } else {
            head_part + spec_parse_names(s.skip(k + 1))
        }
    } else {
        seq![]
    }
}

/// Where a scan finds the first newline, `spec_first_newline` agrees.
proof fn lemma_first_newline_at(s: Seq<char>, k: int)
    requires
        0 <= k <= s.len(),
        forall|j: int| 0 <= j < k ==> s[j] != '\n',
        k < s.len() ==> s[k] == '\n',
    ensures
        spec_first_newline(s) == k,
    decreases k,
{
    if k > 0 {
        lemma_first_newline_at(s.drop_first(), k - 1);
    }
}

/// Dropping exactly the leading whitespace is what `spec_trim_front`
/// does.
proof fn lemma_trim_front_skip(s: Seq<char>, a: int)
    requires
        0 <= a <= s.len(),
        forall|j: int| 0 <= j < a ==> spec_is_space(s[j]),
        a < s.len() ==> !spec_is_space(s[a]),
    ensures
        spec_trim_front(s) == s.skip(a),
    decreases a,
{
    if a == 0 {
        assert(s.skip(0) =~= s);
    } else {
        lemma_trim_front_skip(s.drop_first(), a - 1);
        assert(s.drop_first().skip(a - 1) =~= s.skip(a));
    }
}

/// Dropping exactly the trailing whitespace is what `spec_trim_back`
/// does.
proof fn lemma_trim_back_take(s: Seq<char>, b: int)
    requires
        0 <= b <= s.len(),
        forall|j: int| b <= j < s.len() ==> spec_is_space(s[j]),
        b > 0 ==> !spec_is_space(s[b - 1]),
    ensures
        spec_trim_back(s) == s.take(b),
    decreases s.len(),
{
    if s.len() == 0 {
        assert(s.take(0) =~= s);
    } else if b == s.len() {
        assert(s.take(b) =~= s);
    } else {
        lemma_trim_back_take(s.drop_last(), b);
        assert(s.drop_last().take(b) =~= s.take(b));
    }
}

/// A scan that finds the first and last non-whitespace positions has
/// found the trimmed subrange.
proof fn lemma_trim_is_subrange(s: Seq<char>, a: int, b: int)
    requires
        0 <= a <= b <= s.len(),
        forall|j: int| 0 <= j < a ==> spec_is_space(s[j]),
        forall|j: int| b <= j < s.len() ==> spec_is_space(s[j]),
        a < b ==> !spec_is_space(s[a]) && !spec_is_space(s[b - 1]),
        a == b ==> a == s.len(),
    ensures
        spec_trim(s) == s.subrange(a, b),
    decreases 0int,
{
    lemma_trim_front_skip(s, a);
    lemma_trim_back_take(s.skip(a), b - a);
    assert(s.skip(a).take(b - a) =~= s.subrange(a, b));
}

/// The characters of a string, by view index.
fn str_chars(s: &str) -> (r: Vec<char>)
    ensures
        r@ == s@,
{
    let n = s.unicode_len();
    let mut r: Vec<char> = Vec::new();
    let mut i: usize = 0;
    while i < n
        invariant
            n == s@.len(),
            i <= n,
            r@ == s@.take(i as int),
        decreases n - i,
    {
        r.push(s.get_char(i));
        proof {
            assert(s@.take(i + 1).drop_last() =~= s@.take(i as int));
        }
        i += 1;
    }
    proof {
        assert(s@.take(n as int) =~= s@);
    }
    r
}

fn is_space_char(c: char) -> (r: bool)
    ensures
        r == spec_is_space(c),
{
    let u = c as u32;
    u == 0x20 || (0x09 <= u && u <= 0x0d) || u == 0x85 || u == 0xa0 || u == 0x1680 || (0x2000
        <= u && u <= 0x200a) || u == 0x2028 || u == 0x2029 || u == 0x202f || u == 0x205f
        || u == 0x3000
}

/// Parse a line-separated name list: each line trimmed of leading and
/// trailing whitespace, empty lines dropped.
pub fn parse_names(text: &str) -> (r: Vec<String>)
    ensures
        spec_excludes(r@) == spec_parse_names(text@),
{
    let chars = str_chars(text);
    let n = chars.len();
    let mut out: Vec<String> = Vec::new();
    let mut pos: usize = 0;
    proof {
        assert(text@.skip(0) =~= text@);
        assert(spec_excludes(out@) =~= Seq::<Seq<char>>::empty());
        assert(Seq::<Seq<char>>::empty() + spec_parse_names(text@) =~= spec_parse_names(text@));
    }
    loop
        invariant_except_break
            n == text@.len(),
            chars@ == text@,
            pos <= n,
            spec_parse_names(text@) =~= spec_excludes(out@) + spec_parse_names(
                text@.skip(pos as int),
            ),
        ensures
            spec_parse_names(text@) =~= spec_excludes(out@),
        decreases n - pos,
    {
        let ghost rem = text@.skip(pos as int);
        let mut k: usize = pos;
        while k < n && chars[k] != '\n'
            invariant
                n == text@.len(),
                chars@ == text@,
                pos <= k <= n,
                forall|j: int| pos <= j < k ==> text@[j] != '\n',
            decreases n - k,
        {
            k += 1;
        }
        proof {
            lemma_first_newline_at(rem, k - pos);
        }
        let mut a: usize = pos;
        while a < k && is_space_char(chars[a])
            invariant
                n == text@.len(),
                chars@ == text@,
                pos <= a <= k <= n,
                forall|j: int| pos <= j < a ==> spec_is_space(text@[j]),
            decreases k - a,
        {
            a += 1;
        }
        let mut b: usize = k;
        while b > a && is_space_char(chars[b - 1])
            invariant
                n == text@.len(),
                chars@ == text@,
                pos <= a <= b <= k <= n,
                forall|j: int| b <= j < k ==> spec_is_space(text@[j]),
            decreases b - a,
        {
            b -= 1;
        }
        proof {
            let line = text@.subrange(pos as int, k as int);
            lemma_trim_is_subrange(line, a - pos, b - pos);
            assert(line.subrange(a - pos, b - pos) =~= text@.subrange(a as int, b as int));
            assert(rem.take(k - pos) =~= line);
        }
        let ghost out0 = out@;
        if a < b {
            let mut seg = String::new();
            let mut j: usize = a;
            while j < b
                invariant
                    n == text@.len(),
                    chars@ == text@,
                    a <= j <= b <= n,
                    seg@ == text@.subrange(a as int, j as int),
                decreases b - j,
            {
                seg.push(chars[j]);
                proof {
                    assert(text@.subrange(a as int, j + 1).drop_last() =~= text@.subrange(
                        a as int,
                        j as int,
                    ));
                    assert(seg@ =~= text@.subrange(a as int, j + 1));
                }
                j += 1;
            }
            out.push(seg);
        }
        proof {
            assert(spec_excludes(out@) =~= spec_excludes(out0) + (if a < b {
                seq![text@.subrange(a as int, b as int)]
            } else {
                Seq::<Seq<char>>::empty()
            }));
        }
        if k == n {
            break ;
        }
        proof {
            assert(rem.skip(k - pos + 1) =~= text@.skip(k + 1));
        }
        pos = k + 1;
    }
    out
}

} // verus!
