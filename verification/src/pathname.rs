//! Paths as text.
//!
//! A path is a string whose components are separated by `/`. Nothing is
//! normalised: `a//b` has the parent `a/`, and a trailing separator leaves an
//! empty file name. The functions here take a path apart, put one together,
//! and read or write the decimal number that ends a frame's file name.

use vstd::prelude::*;
use vstd::string::*;

verus! {

/// The character that separates the components of a path.
pub const SEPARATOR: char = '/';

/// The character that starts a file name's extension.
pub const DOT: char = '.';

/// The index of the last occurrence of `c` in `s`, or -1 where there is none.
pub open spec fn last_index_of(s: Seq<char>, c: char) -> int
    decreases s.len(),
{
    if s.len() == 0 {
        -1
    } else if s.last() == c {
        s.len() - 1
    } else {
        last_index_of(s.drop_last(), c)
    }
}

/// The path without its last component; `None` where it has no separator.
pub open spec fn parent_of(path: Seq<char>) -> Option<Seq<char>> {
    let i = last_index_of(path, SEPARATOR);
    if i < 0 {
        None
    } else {
        Some(path.subrange(0, i))
    }
}

/// The last component of the path: what follows its last separator.
pub open spec fn file_name_of(path: Seq<char>) -> Seq<char> {
    path.subrange(last_index_of(path, SEPARATOR) + 1, path.len() as int)
}

/// The file name without its extension. A name without a dot, or whose only
/// dot is its first character, is its own stem.
pub open spec fn file_stem_of(name: Seq<char>) -> Seq<char> {
    let d = last_index_of(name, DOT);
    if d <= 0 {
        name
    } else {
        name.subrange(0, d)
    }
}

/// The path of the entry `name` inside the directory `dir`.
pub open spec fn child_of(dir: Seq<char>, name: Seq<char>) -> Seq<char> {
    dir + seq![SEPARATOR] + name
}

/// Hidden entries are those whose name starts with a dot.
pub open spec fn is_hidden_name(name: Seq<char>) -> bool {
    name.len() > 0 && name[0] == DOT
}

pub open spec fn is_digit(c: char) -> bool {
    '0' <= c && c <= '9'
}

pub open spec fn digit_value(c: char) -> nat {
    (c as int - '0' as int) as nat
}

pub open spec fn digit_char(d: nat) -> char {
    if d == 0 {
        '0'
    } else if d == 1 {
        '1'
    } else if d == 2 {
        '2'
    } else if d == 3 {
        '3'
    } else if d == 4 {
        '4'
    } else if d == 5 {
        '5'
    } else if d == 6 {
        '6'
    } else if d == 7 {
        '7'
    } else if d == 8 {
        '8'
    } else {
        '9'
    }
}

/// Where the longest run of ASCII digits that ends `s` begins; `s.len()`
/// where `s` does not end in a digit.
pub open spec fn digit_suffix_start(s: Seq<char>) -> int
    decreases s.len(),
{
    if s.len() == 0 || !is_digit(s.last()) {
        s.len() as int
    } else {
        digit_suffix_start(s.drop_last())
    }
}

/// The longest run of ASCII digits that ends `s`.
pub open spec fn trailing_digits(s: Seq<char>) -> Seq<char> {
    s.subrange(digit_suffix_start(s), s.len() as int)
}

/// The number that a sequence of digits writes in base ten; 0 for none.
pub open spec fn decimal_value(digits: Seq<char>) -> nat
    decreases digits.len(),
{
    if digits.len() == 0 {
        0
    } else {
        decimal_value(digits.drop_last()) * 10 + digit_value(digits.last())
    }
}

/// The digits of `n` in base ten, without leading zeros.
pub open spec fn decimal_digits(n: nat) -> Seq<char>
    decreases n,
{
    if n < 10 {
        seq![digit_char(n)]
    } else {
        decimal_digits(n / 10).push(digit_char(n % 10))
    }
}

/// The number that ends `stem`, where it ends in digits that fit `u32`.
pub open spec fn trailing_number(stem: Seq<char>) -> Option<u32> {
    let digits = trailing_digits(stem);
    if digits.len() == 0 || decimal_value(digits) > u32::MAX {
        None
    } else {
        Some(decimal_value(digits) as u32)
    }
}

/// The frame number that a path's file name carries: the number that ends
/// its stem.
pub open spec fn frame_number_of(path: Seq<char>) -> Option<u32> {
    trailing_number(file_stem_of(file_name_of(path)))
}

/// The extension that every frame file has.
pub open spec fn frame_extension() -> Seq<char> {
    seq![DOT, 'p', 'n', 'g']
}

/// The file name of frame `index` of the sequence `name`.
pub open spec fn frame_file_name(name: Seq<char>, index: nat) -> Seq<char> {
    name + decimal_digits(index) + frame_extension()
}

/// The path of frame `index` of the sequence `name` below `root`.
pub open spec fn frame_path_of(root: Seq<char>, name: Seq<char>, index: nat) -> Seq<char> {
    child_of(child_of(root, name), frame_file_name(name, index))
}

/// What `last_index_of` finds is the last occurrence.
pub proof fn lemma_last_index_of(s: Seq<char>, c: char)
    ensures
        -1 <= last_index_of(s, c) < s.len(),
        last_index_of(s, c) >= 0 ==> s[last_index_of(s, c)] == c,
        forall|j: int| last_index_of(s, c) < j < s.len() ==> s[j] != c,
    decreases s.len(),
{
    if s.len() > 0 && s.last() != c {
        lemma_last_index_of(s.drop_last(), c);
        assert forall|j: int| last_index_of(s, c) < j < s.len() implies s[j] != c by {
            if j < s.len() - 1 {
                assert(s.drop_last()[j] == s[j]);
            }
        }
    }
}

/// An index with `c` at it and none behind it is the one `last_index_of` gives.
pub proof fn lemma_last_index_of_is(s: Seq<char>, c: char, i: int)
    requires
        -1 <= i < s.len(),
        i >= 0 ==> s[i] == c,
        forall|j: int| i < j < s.len() ==> s[j] != c,
    ensures
        last_index_of(s, c) == i,
{
    lemma_last_index_of(s, c);
}

/// A path's file name is one component: it holds no separator.
pub proof fn lemma_file_name_is_one_component(path: Seq<char>)
    ensures
        !file_name_of(path).contains(SEPARATOR),
{
    lemma_last_index_of(path, SEPARATOR);
    let i = last_index_of(path, SEPARATOR);
    let name = file_name_of(path);
    assert forall|j: int| 0 <= j < name.len() implies name[j] != SEPARATOR by {
        assert(name[j] == path[i + 1 + j]);
    }
}

/// A path's parent is shorter than the path, so no path is its own parent
/// or grandparent.
pub proof fn lemma_parent_is_shorter(path: Seq<char>)
    ensures
        parent_of(path) matches Some(dir) ==> dir.len() < path.len(),
{
    lemma_last_index_of(path, SEPARATOR);
}

/// The parent of a child is the directory it was put in, and its file name
/// the name it was given, as long as the name holds no separator.
pub proof fn lemma_child_parts(dir: Seq<char>, name: Seq<char>)
    requires
        !name.contains(SEPARATOR),
    ensures
        parent_of(child_of(dir, name)) == Some(dir),
        file_name_of(child_of(dir, name)) == name,
{
    let path = child_of(dir, name);
    let i = dir.len() as int;
    assert(path[i] == SEPARATOR);
    assert forall|j: int| i < j < path.len() implies path[j] != SEPARATOR by {
        assert(path[j] == name[j - i - 1]);
        assert(name.contains(name[j - i - 1]));
    }
    lemma_last_index_of_is(path, SEPARATOR, i);
    assert(path.subrange(0, i) =~= dir);
    assert(path.subrange(i + 1, path.len() as int) =~= name);
}

/// Every character of a number's decimal form is a digit.
pub proof fn lemma_decimal_digits_are_digits(n: nat)
    ensures
        decimal_digits(n).len() > 0,
        forall|i: int| 0 <= i < decimal_digits(n).len() ==> is_digit(#[trigger] decimal_digits(n)[i]),
    decreases n,
{
    if n >= 10 {
        lemma_decimal_digits_are_digits(n / 10);
    }
}

/// Reading back what was written gives the number.
pub proof fn lemma_decimal_round_trip(n: nat)
    ensures
        decimal_value(decimal_digits(n)) == n,
    decreases n,
{
    if n >= 10 {
        lemma_decimal_round_trip(n / 10);
        let d = decimal_digits(n);
        assert(d.drop_last() =~= decimal_digits(n / 10));
        assert(d.last() == digit_char(n % 10));
    } else {
        let d = decimal_digits(n);
        assert(d.drop_last() =~= Seq::<char>::empty());
        assert(decimal_value(d.drop_last()) == 0);
    }
}

/// Digits put behind text that does not itself end in a digit are the
/// trailing digits of the whole.
pub proof fn lemma_trailing_digits_of_concat(prefix: Seq<char>, digits: Seq<char>)
    requires
        prefix.len() == 0 || !is_digit(prefix.last()),
        forall|i: int| 0 <= i < digits.len() ==> is_digit(#[trigger] digits[i]),
    ensures
        digit_suffix_start(prefix + digits) == prefix.len(),
        trailing_digits(prefix + digits) == digits,
    decreases digits.len(),
{
    let s = prefix + digits;
    if digits.len() == 0 {
        assert(s =~= prefix);
    } else {
        assert(s.last() == digits.last());
        assert(s.drop_last() =~= prefix + digits.drop_last());
        lemma_trailing_digits_of_concat(prefix, digits.drop_last());
    }
    assert(s.subrange(prefix.len() as int, s.len() as int) =~= digits);
}

/// A frame's file name has the sequence's name and the index's digits as
/// its stem.
pub proof fn lemma_frame_file_stem(name: Seq<char>, index: nat)
    ensures
        file_stem_of(frame_file_name(name, index)) == name + decimal_digits(index),
{
    let body = name + decimal_digits(index);
    let file = frame_file_name(name, index);
    let d = body.len() as int;
    lemma_decimal_digits_are_digits(index);
    assert(file[d] == DOT);
    assert forall|j: int| d < j < file.len() implies file[j] != DOT by {
        assert(file[j] == frame_extension()[j - d]);
    }
    lemma_last_index_of_is(file, DOT, d);
    assert(file.subrange(0, d) =~= body);
}

/// A frame's file name holds no separator, as long as the sequence's name
/// holds none.
pub proof fn lemma_frame_file_name_is_one_component(name: Seq<char>, index: nat)
    requires
        !name.contains(SEPARATOR),
    ensures
        !frame_file_name(name, index).contains(SEPARATOR),
{
    let file = frame_file_name(name, index);
    lemma_decimal_digits_are_digits(index);
    assert forall|j: int| 0 <= j < file.len() implies file[j] != SEPARATOR by {
        if j < name.len() {
            assert(name.contains(name[j]));
        } else if j < name.len() + decimal_digits(index).len() {
            assert(is_digit(decimal_digits(index)[j - name.len()]));
        } else {
            assert(file[j] == frame_extension()[j - name.len() - decimal_digits(index).len()]);
        }
    }
}

/// The path built for a frame lies in the directory named after the
/// sequence, which lies in the root.
pub proof fn lemma_frame_path_depth(root: Seq<char>, name: Seq<char>, index: nat)
    requires
        !name.contains(SEPARATOR),
    ensures
        parent_of(frame_path_of(root, name, index)) == Some(child_of(root, name)),
        file_name_of(frame_path_of(root, name, index)) == frame_file_name(name, index),
        parent_of(child_of(root, name)) == Some(root),
        file_name_of(child_of(root, name)) == name,
{
    lemma_frame_file_name_is_one_component(name, index);
    lemma_child_parts(child_of(root, name), frame_file_name(name, index));
    lemma_child_parts(root, name);
}

/// The path built for a frame carries the frame's index, as long as the
/// sequence's name does not itself end in a digit.
pub proof fn lemma_frame_path_parts(root: Seq<char>, name: Seq<char>, index: nat)
    requires
        !name.contains(SEPARATOR),
        name.len() == 0 || !is_digit(name.last()),
        index <= u32::MAX,
    ensures
        parent_of(frame_path_of(root, name, index)) == Some(child_of(root, name)),
        parent_of(child_of(root, name)) == Some(root),
        file_name_of(child_of(root, name)) == name,
        frame_number_of(frame_path_of(root, name, index)) == Some(index as u32),
{
    lemma_decimal_digits_are_digits(index);
    lemma_frame_path_depth(root, name, index);
    lemma_frame_file_stem(name, index);
    lemma_trailing_digits_of_concat(name, decimal_digits(index));
    lemma_decimal_round_trip(index);
}

/// Two frames with the same path are the same frame of the same sequence.
pub proof fn lemma_frame_path_is_injective(
    root: Seq<char>,
    first: Seq<char>,
    i: nat,
    second: Seq<char>,
    j: nat,
)
    requires
        !first.contains(SEPARATOR),
        !second.contains(SEPARATOR),
        frame_path_of(root, first, i) == frame_path_of(root, second, j),
    ensures
        first == second,
        i == j,
{
    lemma_frame_path_depth(root, first, i);
    lemma_frame_path_depth(root, second, j);
    assert(first == second);
    let a = frame_file_name(first, i);
    let b = frame_file_name(second, j);
    assert(a == b);
    let di = decimal_digits(i);
    let dj = decimal_digits(j);
    assert(a.len() == first.len() + di.len() + 4);
    assert(b.len() == first.len() + dj.len() + 4);
    assert forall|k: int| 0 <= k < di.len() implies di[k] == dj[k] by {
        assert(a[first.len() + k] == di[k]);
        assert(b[first.len() + k] == dj[k]);
    }
    assert(di =~= dj);
    lemma_decimal_round_trip(i);
    lemma_decimal_round_trip(j);
}

/// Whether two strings hold the same text.
pub fn same_text(a: &str, b: &str) -> (r: bool)
    ensures
        r == (a@ == b@),
{
    let x: String = a.to_owned();
    let y: String = b.to_owned();
    x == y
}

/// The characters of a string, in order.
pub fn chars_of(s: &str) -> (v: Vec<char>)
    ensures
        v@ == s@,
{
    let mut v: Vec<char> = Vec::new();
    for c in it: s.chars()
        invariant
            v@ == it.seq().take(it.index() as int),
    {
        v.push(c);
    }
    v
}

/// The index of the last `c` among `v`, if there is one.
pub fn find_last(v: &Vec<char>, c: char) -> (r: Option<usize>)
    ensures
        match r {
            Some(i) => last_index_of(v@, c) == i && i < v.len() && v@[i as int] == c,
            None => last_index_of(v@, c) == -1 && !v@.contains(c),
        },
{
    let mut i: usize = v.len();
    while i > 0
        invariant
            i <= v.len(),
            forall|j: int| i <= j < v.len() ==> v@[j] != c,
        decreases i,
    {
        i = i - 1;
        if v[i] == c {
            proof {
                lemma_last_index_of_is(v@, c, i as int);
            }
            return Some(i);
        }
    }
    proof {
        lemma_last_index_of_is(v@, c, -1);
    }
    None
}

/// The path without its last component.
pub fn parent(path: &str) -> (r: Option<String>)
    ensures
        match r {
            Some(p) => parent_of(path@) == Some(p@),
            None => parent_of(path@) is None,
        },
{
    let v: Vec<char> = chars_of(path);
    match find_last(&v, SEPARATOR) {
        Some(i) => Some(path.substring_char(0, i).to_owned()),
        None => None,
    }
}

/// The last component of the path.
pub fn file_name(path: &str) -> (r: String)
    ensures
        r@ == file_name_of(path@),
{
    let v: Vec<char> = chars_of(path);
    let start: usize = match find_last(&v, SEPARATOR) {
        Some(i) => i + 1,
        None => 0,
    };
    path.substring_char(start, v.len()).to_owned()
}

/// The file name without its extension.
pub fn file_stem(name: &str) -> (r: String)
    ensures
        r@ == file_stem_of(name@),
{
    let v: Vec<char> = chars_of(name);
    match find_last(&v, DOT) {
        Some(i) => {
            if i == 0 {
                name.to_owned()
            } else {
                name.substring_char(0, i).to_owned()
            }
        },
        None => name.to_owned(),
    }
}

/// Whether the name is that of a hidden entry.
pub fn is_hidden(name: &str) -> (r: bool)
    ensures
        r == is_hidden_name(name@),
{
    let v: Vec<char> = chars_of(name);
    v.len() > 0 && v[0] == DOT
}

/// Whether the text holds a separator.
pub fn has_separator(name: &str) -> (r: bool)
    ensures
        r == name@.contains(SEPARATOR),
{
    let v: Vec<char> = chars_of(name);
    match find_last(&v, SEPARATOR) {
        Some(_) => true,
        None => false,
    }
}

/// The path of the entry `name` inside the directory `dir`.
pub fn child(dir: &str, name: &str) -> (r: String)
    ensures
        r@ == child_of(dir@, name@),
{
    proof {
        reveal_strlit("/");
    }
    let mut s: String = dir.to_owned();
    s.append("/");
    assert("/"@ =~= seq![SEPARATOR]);
    s.append(name);
    s
}

/// The value of a run of digits grows with each digit read.
proof fn lemma_decimal_value_push(digits: Seq<char>, c: char)
    ensures
        decimal_value(digits.push(c)) == decimal_value(digits) * 10 + digit_value(c),
{
    assert(digits.push(c).drop_last() =~= digits);
}

/// A longer run of digits is worth at least as much as its beginning.
proof fn lemma_decimal_value_prefix(digits: Seq<char>, k: int)
    requires
        0 <= k <= digits.len(),
    ensures
        decimal_value(digits.take(k)) <= decimal_value(digits),
    decreases digits.len() - k,
{
    if k < digits.len() {
        lemma_decimal_value_prefix(digits, k + 1);
        assert(digits.take(k + 1).drop_last() =~= digits.take(k));
        assert(decimal_value(digits.take(k + 1)) >= decimal_value(digits.take(k)) * 10);
    } else {
        assert(digits.take(k) =~= digits);
    }
}

/// Where the trailing digits of the text begin.
pub fn find_digit_suffix(v: &Vec<char>) -> (start: usize)
    ensures
        start == digit_suffix_start(v@),
        start <= v.len(),
        forall|j: int| start <= j < v.len() ==> is_digit(#[trigger] v@[j]),
{
    let mut i: usize = v.len();
    assert(v@.take(i as int) =~= v@);
    while i > 0 && v[i - 1] >= '0' && v[i - 1] <= '9'
        invariant
            i <= v.len(),
            digit_suffix_start(v@) == digit_suffix_start(v@.take(i as int)),
            forall|j: int| i <= j < v.len() ==> is_digit(#[trigger] v@[j]),
        decreases i,
    {
        proof {
            assert(v@.take(i as int).last() == v@[i - 1]);
            assert(v@.take(i as int).drop_last() =~= v@.take(i - 1));
        }
        i = i - 1;
    }
    proof {
        assert(v@.take(v.len() as int) =~= v@);
        if i > 0 {
            assert(v@.take(i as int).last() == v@[i - 1]);
        }
    }
    i
}

/// The number that ends `stem`: its trailing ASCII digits read in base ten.
/// `None` where `stem` does not end in a digit, or the number does not fit.
pub fn parse_trailing_number(stem: &str) -> (r: Option<u32>)
    ensures
        r == trailing_number(stem@),
{
    let v: Vec<char> = chars_of(stem);
    let start: usize = find_digit_suffix(&v);
    if start == v.len() {
        assert(trailing_digits(stem@).len() == 0);
        return None;
    }
    let ghost digits = trailing_digits(stem@);
    let mut value: u32 = 0;
    let mut i: usize = start;
    while i < v.len()
        invariant
            start <= i <= v.len(),
            v@ == stem@,
            start == digit_suffix_start(v@),
            digits == v@.subrange(start as int, v.len() as int),
            forall|j: int| start <= j < v.len() ==> is_digit(#[trigger] v@[j]),
            value == decimal_value(digits.take(i - start)),
        decreases v.len() - i,
    {
        let c: char = v[i];
        assert(is_digit(v@[i as int]));
        let d: u32 = (c as u32) - ('0' as u32);
        proof {
            assert(digits.take(i + 1 - start) =~= digits.take(i - start).push(c));
            lemma_decimal_value_push(digits.take(i - start), c);
            lemma_decimal_value_prefix(digits, i + 1 - start);
        }
        if value > (u32::MAX - d) / 10 {
            return None;
        }
        value = value * 10 + d;
        i = i + 1;
    }
    proof {
        assert(digits.take(v.len() - start) =~= digits);
    }
    Some(value)
}

/// The string of one decimal digit.
fn digit_text(d: u32) -> (r: &'static str)
    requires
        d < 10,
    ensures
        r@ == seq![digit_char(d as nat)],
{
    proof {
        reveal_strlit("0");
        reveal_strlit("1");
        reveal_strlit("2");
        reveal_strlit("3");
        reveal_strlit("4");
        reveal_strlit("5");
        reveal_strlit("6");
        reveal_strlit("7");
        reveal_strlit("8");
        reveal_strlit("9");
    }
    let r: &'static str = if d == 0 {
        "0"
    } else if d == 1 {
        "1"
    } else if d == 2 {
        "2"
    } else if d == 3 {
        "3"
    } else if d == 4 {
        "4"
    } else if d == 5 {
        "5"
    } else if d == 6 {
        "6"
    } else if d == 7 {
        "7"
    } else if d == 8 {
        "8"
    } else {
        "9"
    };
    assert(r@ =~= seq![digit_char(d as nat)]);
    r
}

/// Appends the decimal form of `n` to `out`.
pub fn push_decimal(out: &mut String, n: u32)
    ensures
        final(out)@ == old(out)@ + decimal_digits(n as nat),
    decreases n,
{
    if n >= 10 {
        push_decimal(out, n / 10);
    }
    out.append(digit_text(n % 10));
    assert(out@ =~= old(out)@ + decimal_digits(n as nat));
}

/// The path of frame `index` of the sequence `name` below `root`:
/// `root/name/name<index>.png`.
pub fn frame_path(root: &str, name: &str, index: u32) -> (r: String)
    ensures
        r@ == frame_path_of(root@, name@, index as nat),
{
    proof {
        reveal_strlit("/");
        reveal_strlit(".png");
    }
    let mut s: String = root.to_owned();
    s.append("/");
    s.append(name);
    s.append("/");
    s.append(name);
    push_decimal(&mut s, index);
    s.append(".png");
    assert(s@ =~= frame_path_of(root@, name@, index as nat));
    s
}

} // verus!
