//! Character-level building blocks: scanning for a separator, trimming
//! whitespace, and moving between strings and character vectors.
//!
//! Positions are character positions, never byte offsets.

use vstd::prelude::*;
use vstd::slice::slice_subrange;

verus! {

/// Whether `c` is whitespace: the code points with the Unicode `White_Space`
/// property.
pub open spec fn is_space(c: char) -> bool {
    let n = c as u32;
    ||| 0x09 <= n <= 0x0D
    ||| n == 0x20
    ||| n == 0x85
    ||| n == 0xA0
    ||| n == 0x1680
    ||| 0x2000 <= n <= 0x200A
    ||| n == 0x2028
    ||| n == 0x2029
    ||| n == 0x202F
    ||| n == 0x205F
    ||| n == 0x3000
}

/// The position of the first `c` in `s` at or after `from`, or `s.len()` when
/// there is none.
pub open spec fn find_from(s: Seq<char>, c: char, from: int) -> int
    decreases s.len() - from,
{
    if from >= s.len() {
        s.len() as int
    } else if s[from] == c {
        from
    } else {
        find_from(s, c, from + 1)
    }
}

/// The position of the first character at or after `from` that is not
/// whitespace, or `s.len()` when only whitespace follows.
pub open spec fn skip_spaces(s: Seq<char>, from: int) -> int
    decreases s.len() - from,
{
    if from >= s.len() {
        s.len() as int
    } else if !is_space(s[from]) {
        from
    } else {
        skip_spaces(s, from + 1)
    }
}

/// The end of `s.take(to)` once the whitespace at its end is cut off.
pub open spec fn drop_spaces(s: Seq<char>, to: int) -> int
    decreases to,
{
    if to <= 0 {
        0
    } else if to > s.len() || !is_space(s[to - 1]) {
        to
    } else {
        drop_spaces(s, to - 1)
    }
}

/// The end of `s.take(to)` once every `c` at its end is cut off.
pub open spec fn drop_trailing(s: Seq<char>, c: char, to: int) -> int
    decreases to,
{
    if to <= 0 {
        0
    } else if to > s.len() || s[to - 1] != c {
        to
    } else {
        drop_trailing(s, c, to - 1)
    }
}

/// `s` without the whitespace at either end.
pub open spec fn trimmed(s: Seq<char>) -> Seq<char> {
    let start = skip_spaces(s, 0);
    let end = drop_spaces(s, s.len() as int);
    if start < end {
        s.subrange(start, end)
    } else {
        Seq::empty()
    }
}

/// The pieces of `s` between occurrences of `c`, starting at `from`. A
/// separator at the very end yields a last, empty piece.
pub open spec fn split_from(s: Seq<char>, c: char, from: int) -> Seq<Seq<char>>
    decreases s.len() - from,
{
    let end = find_from(s, c, from);
    if from < 0 || from > s.len() {
        Seq::empty()
    } else if end >= s.len() {
        seq![s.subrange(from, s.len() as int)]
    } else {
        proof {
            lemma_find_from(s, c, from);
        }
        seq![s.subrange(from, end)] + split_from(s, c, end + 1)
    }
}

/// The pieces of `s` between occurrences of `c`.
pub open spec fn split(s: Seq<char>, c: char) -> Seq<Seq<char>> {
    split_from(s, c, 0)
}

/// `s` cut at its first `c`: what stands before it and what stands after.
pub open spec fn split_once(s: Seq<char>, c: char) -> Option<(Seq<char>, Seq<char>)> {
    let at = find_from(s, c, 0);
    if at < s.len() {
        Some((s.take(at), s.skip(at + 1)))
    } else {
        None
    }
}

/// The character contents of a list of strings.
pub open spec fn views(strings: Seq<String>) -> Seq<Seq<char>> {
    strings.map_values(|s: String| s@)
}

/// The character for a digit below ten.
pub open spec fn digit(d: nat) -> char {
    seq!['0', '1', '2', '3', '4', '5', '6', '7', '8', '9'][d as int]
}

/// A number written in decimal, without sign or leading zeros.
pub open spec fn decimal(n: nat) -> Seq<char>
    decreases n,
{
    if n < 10 {
        seq![digit(n)]
    } else {
        decimal(n / 10).push(digit(n % 10))
    }
}

/// `line` without the carriage return at its end, if it has one.
pub open spec fn without_cr(line: Seq<char>) -> Seq<char> {
    if line.len() > 0 && line.last() == '\r' {
        line.drop_last()
    } else {
        line
    }
}

/// The lines of `s` from position `from` on. A line ends at a line feed, or
/// at a carriage return directly before one; neither belongs to the line.
/// What follows the last line feed is a line only if it is not empty, and it
/// keeps a carriage return at its end.
pub open spec fn lines_from(s: Seq<char>, from: int) -> Seq<Seq<char>>
    decreases s.len() - from,
{
    let end = find_from(s, '\n', from);
    if from < 0 || from >= s.len() {
        Seq::empty()
    } else if end >= s.len() {
        seq![s.subrange(from, s.len() as int)]
    } else {
        proof {
            lemma_find_from(s, '\n', from);
        }
        seq![without_cr(s.subrange(from, end))] + lines_from(s, end + 1)
    }
}

/// The lines of `s`.
pub open spec fn lines(s: Seq<char>) -> Seq<Seq<char>> {
    lines_from(s, 0)
}

/// `find_from` lands between `from` and the end, on a `c` if it stops early,
/// and passes over no `c`.
pub proof fn lemma_find_from(s: Seq<char>, c: char, from: int)
    requires
        0 <= from <= s.len(),
    ensures
        from <= find_from(s, c, from) <= s.len(),
        find_from(s, c, from) < s.len() ==> s[find_from(s, c, from)] == c,
        forall|j: int| from <= j < find_from(s, c, from) ==> s[j] != c,
    decreases s.len() - from,
{
    if from < s.len() && s[from] != c {
        lemma_find_from(s, c, from + 1);
    }
}

/// A position that holds `c`, or is the end, and has no `c` between `from`
/// and itself is where `find_from` lands.
pub proof fn lemma_find_from_is(s: Seq<char>, c: char, from: int, at: int)
    requires
        0 <= from <= at <= s.len(),
        at < s.len() ==> s[at] == c,
        forall|j: int| from <= j < at ==> s[j] != c,
    ensures
        find_from(s, c, from) == at,
    decreases at - from,
{
    if from < at {
        lemma_find_from_is(s, c, from + 1, at);
    }
}

/// `skip_spaces` lands between `from` and the end, on a character that is
/// not whitespace if it stops early, and passes over whitespace only.
pub proof fn lemma_skip_spaces(s: Seq<char>, from: int)
    requires
        0 <= from <= s.len(),
    ensures
        from <= skip_spaces(s, from) <= s.len(),
        skip_spaces(s, from) < s.len() ==> !is_space(s[skip_spaces(s, from)]),
        forall|j: int| from <= j < skip_spaces(s, from) ==> is_space(s[j]),
    decreases s.len() - from,
{
    if from < s.len() && is_space(s[from]) {
        lemma_skip_spaces(s, from + 1);
    }
}

/// `drop_spaces` lands between the start and `to`, after a character that is
/// not whitespace unless it reaches the start, and cuts whitespace only.
pub proof fn lemma_drop_spaces(s: Seq<char>, to: int)
    requires
        0 <= to <= s.len(),
    ensures
        0 <= drop_spaces(s, to) <= to,
        drop_spaces(s, to) > 0 ==> !is_space(s[drop_spaces(s, to) - 1]),
        forall|j: int| drop_spaces(s, to) <= j < to ==> is_space(s[j]),
    decreases to,
{
    if to > 0 && is_space(s[to - 1]) {
        lemma_drop_spaces(s, to - 1);
    }
}

/// `drop_trailing` lands between the start and `to`, after a character other
/// than `c` unless it reaches the start, and cuts only `c`.
pub proof fn lemma_drop_trailing(s: Seq<char>, c: char, to: int)
    requires
        0 <= to <= s.len(),
    ensures
        0 <= drop_trailing(s, c, to) <= to,
        drop_trailing(s, c, to) > 0 ==> s[drop_trailing(s, c, to) - 1] != c,
        forall|j: int| drop_trailing(s, c, to) <= j < to ==> s[j] == c,
    decreases to,
{
    if to > 0 && s[to - 1] == c {
        lemma_drop_trailing(s, c, to - 1);
    }
}

/// Whether everything of `s` outside the positions from `start` up to `end`
/// is whitespace.
pub open spec fn spaces_outside(s: Seq<char>, start: int, end: int) -> bool {
    &&& 0 <= start <= end <= s.len()
    &&& forall|j: int| 0 <= j < s.len() && !(start <= j < end) ==> is_space(s[j])
}

/// Trimming cuts whitespace and nothing else: what is left is a piece of the
/// text with only whitespace before and behind it, and it neither begins nor
/// ends with whitespace.
pub proof fn lemma_trimmed(s: Seq<char>)
    ensures
        exists|start: int, end: int| #[trigger]
            spaces_outside(s, start, end) && trimmed(s) == s.subrange(start, end),
        trimmed(s).len() > 0 ==> !is_space(trimmed(s).first()) && !is_space(trimmed(s).last()),
{
    lemma_skip_spaces(s, 0);
    lemma_drop_spaces(s, s.len() as int);
    let start = skip_spaces(s, 0);
    let end = drop_spaces(s, s.len() as int);
    if start < end {
        assert(spaces_outside(s, start, end));
    } else {
        assert(spaces_outside(s, 0, 0));
        assert(trimmed(s) =~= s.subrange(0, 0));
    }
}

/// Cutting every `c` off the end leaves a text that does not end with `c`,
/// and what was cut is nothing but `c`.
pub proof fn lemma_cut_trailing(s: Seq<char>, c: char)
    ensures
        ({
            let kept = s.take(drop_trailing(s, c, s.len() as int));
            &&& kept.is_prefix_of(s)
            &&& kept.len() > 0 ==> kept.last() != c
            &&& forall|j: int| kept.len() <= j < s.len() ==> s[j] == c
        }),
{
    lemma_drop_trailing(s, c, s.len() as int);
}

/// The pieces put together again, with `c` between neighbours.
pub open spec fn joined(pieces: Seq<Seq<char>>, c: char) -> Seq<char>
    decreases pieces.len(),
{
    if pieces.len() == 0 {
        Seq::empty()
    } else if pieces.len() == 1 {
        pieces[0]
    } else {
        pieces[0] + seq![c] + joined(pieces.drop_first(), c)
    }
}

/// Joining one more piece appends the separator and the piece, or the piece
/// alone if it is the first.
pub proof fn lemma_joined_push(pieces: Seq<Seq<char>>, piece: Seq<char>, c: char)
    ensures
        joined(pieces.push(piece), c) == (if pieces.len() == 0 {
            piece
        } else {
            joined(pieces, c) + seq![c] + piece
        }),
    decreases pieces.len(),
{
    let all = pieces.push(piece);
    if pieces.len() == 0 {
    } else {
        assert(all.drop_first() =~= pieces.drop_first().push(piece));
        lemma_joined_push(pieces.drop_first(), piece, c);
        if pieces.len() == 1 {
            assert(pieces.drop_first().len() == 0);
        } else {
            assert(pieces[0] + seq![c] + (joined(pieces.drop_first(), c) + seq![c] + piece)
                =~= pieces[0] + seq![c] + joined(pieces.drop_first(), c) + seq![c] + piece);
        }
    }
}

/// Splitting loses nothing: no piece holds the separator, and the pieces
/// joined by the separator are the text again.
pub proof fn lemma_split_from(s: Seq<char>, c: char, from: int)
    requires
        0 <= from <= s.len(),
    ensures
        split_from(s, c, from).len() > 0,
        forall|k: int|
            0 <= k < split_from(s, c, from).len() ==> !(#[trigger] split_from(s, c, from)[k])
                .contains(c),
        joined(split_from(s, c, from), c) == s.skip(from),
    decreases s.len() - from,
{
    lemma_find_from(s, c, from);
    let end = find_from(s, c, from);
    let pieces = split_from(s, c, from);
    if end >= s.len() {
        assert(pieces[0] =~= s.skip(from));
    } else {
        lemma_split_from(s, c, end + 1);
        let rest = split_from(s, c, end + 1);
        assert(pieces.drop_first() =~= rest);
        assert forall|k: int| 0 <= k < pieces.len() implies !(#[trigger] pieces[k]).contains(
            c,
        ) by {
            if k > 0 {
                assert(pieces[k] == rest[k - 1]);
            }
        }
        assert(s.subrange(from, end) + seq![c] + s.skip(end + 1) =~= s.skip(from));
    }
}

/// Tells whether a character is whitespace.
pub fn char_is_space(c: char) -> (space: bool)
    ensures
        space == is_space(c),
{
    let n: u32 = c as u32;
    (0x09 <= n && n <= 0x0D) || n == 0x20 || n == 0x85 || n == 0xA0 || n == 0x1680 || (0x2000 <= n
        && n <= 0x200A) || n == 0x2028 || n == 0x2029 || n == 0x202F || n == 0x205F || n == 0x3000
}

/// The characters of a string, in order.
pub fn chars_of(s: &str) -> (chars: Vec<char>)
    ensures
        chars@ == s@,
{
    let mut chars: Vec<char> = Vec::new();
    for c in it: s.chars()
        invariant
            chars@ == it.seq().take(it.index() as int),
            it.seq() == s@,
    {
        chars.push(c);
    }
    chars
}

/// The standard library's `String::push` appends the given character to the
/// end of the string and leaves the rest as it was.
pub assume_specification[ String::push ](s: &mut String, c: char)
    ensures
        final(s)@ == old(s)@.push(c),
;

/// Collects characters into a string.
pub fn string_of(chars: &[char]) -> (s: String)
    ensures
        s@ == chars@,
{
    let mut s = String::new();
    let mut i: usize = 0;
    while i < chars.len()
        invariant
            i <= chars.len(),
            s@ == chars@.take(i as int),
        decreases chars.len() - i,
    {
        s.push(chars[i]);
        assert(chars@.take(i + 1) =~= chars@.take(i as int).push(chars@[i as int]));
        i = i + 1;
    }
    assert(chars@.take(chars.len() as int) =~= chars@);
    s
}

/// Finds the first `c` at or after `from`.
pub fn find_char(s: &[char], c: char, from: usize) -> (at: usize)
    requires
        from <= s.len(),
    ensures
        at == find_from(s@, c, from as int),
        from <= at <= s.len(),
{
    let mut at: usize = from;
    while at < s.len() && s[at] != c
        invariant
            from <= at <= s.len(),
            find_from(s@, c, from as int) == find_from(s@, c, at as int),
        decreases s.len() - at,
    {
        at = at + 1;
    }
    at
}

/// Cuts the whitespace off both ends.
pub fn trim(s: &[char]) -> (inner: &[char])
    ensures
        inner@ == trimmed(s@),
{
    let mut start: usize = 0;
    while start < s.len() && char_is_space(s[start])
        invariant
            start <= s.len(),
            skip_spaces(s@, 0) == skip_spaces(s@, start as int),
        decreases s.len() - start,
    {
        start = start + 1;
    }
    let mut end: usize = s.len();
    while end > 0 && char_is_space(s[end - 1])
        invariant
            end <= s.len(),
            drop_spaces(s@, s.len() as int) == drop_spaces(s@, end as int),
        decreases end,
    {
        end = end - 1;
    }
    if start < end {
        slice_subrange(s, start, end)
    } else {
        let inner = slice_subrange(s, 0, 0);
        assert(inner@ =~= Seq::<char>::empty());
        inner
    }
}

/// Cuts every `c` off the end.
pub fn cut_trailing(s: &[char], c: char) -> (head: &[char])
    ensures
        head@ == s@.take(drop_trailing(s@, c, s.len() as int)),
{
    let mut end: usize = s.len();
    while end > 0 && s[end - 1] == c
        invariant
            end <= s.len(),
            drop_trailing(s@, c, s.len() as int) == drop_trailing(s@, c, end as int),
        decreases end,
    {
        end = end - 1;
    }
    slice_subrange(s, 0, end)
}

/// Tells whether two runs of characters are the same.
pub fn same_chars(a: &[char], b: &[char]) -> (same: bool)
    ensures
        same == (a@ == b@),
{
    if a.len() != b.len() {
        return false;
    }
    let mut i: usize = 0;
    while i < a.len()
        invariant
            i <= a.len(),
            a.len() == b.len(),
            forall|j: int| 0 <= j < i ==> a@[j] == b@[j],
        decreases a.len() - i,
    {
        if a[i] != b[i] {
            return false;
        }
        i = i + 1;
    }
    assert(a@ =~= b@);
    true
}

/// Tells whether `s` begins with `prefix`.
pub fn starts_with(s: &[char], prefix: &[char]) -> (found: bool)
    ensures
        found == prefix@.is_prefix_of(s@),
{
    if prefix.len() > s.len() {
        return false;
    }
    let head = slice_subrange(s, 0, prefix.len());
    same_chars(prefix, head)
}

/// Writes a number in decimal behind what `out` already holds.
pub fn push_decimal(n: u16, out: &mut Vec<char>)
    ensures
        final(out)@ == old(out)@ + decimal(n as nat),
    decreases n,
{
    if n >= 10 {
        push_decimal(n / 10, out);
    }
    let d: u16 = n % 10;
    let c = if d == 0 {
        '0'
    } else if d == 1 {
        '1'
    } else if d == 2 {
        '2'
    } else if d == 3 {
        '3'
    } else if d == 4 {
        '4'
    } else if d == 5 {
        '5'
    } else if d == 6 {
        '6'
    } else if d == 7 {
        '7'
    } else if d == 8 {
        '8'
    } else {
        '9'
    };
    assert(c == digit(d as nat));
    out.push(c);
    assert(out@ =~= old(out)@ + decimal(n as nat));
}

/// A number written in decimal.
pub fn decimal_string(n: u16) -> (text: String)
    ensures
        text@ == decimal(n as nat),
{
    let mut digits: Vec<char> = Vec::new();
    push_decimal(n, &mut digits);
    assert(digits@ =~= decimal(n as nat));
    string_of(digits.as_slice())
}

/// Splits a text into its lines.
pub fn lines_of(text: &str) -> (out: Vec<String>)
    ensures
        views(out@) == lines(text@),
{
    let chars = chars_of(text);
    let all = chars.as_slice();
    let mut out: Vec<String> = Vec::new();
    let mut from: usize = 0;
    while from < all.len()
        invariant
            all@ == text@,
            from <= all.len(),
            lines(text@) == views(out@) + lines_from(text@, from as int),
        decreases all.len() - from,
    {
        let end = find_char(all, '\n', from);
        let ghost before = out@;
        if end >= all.len() {
            out.push(string_of(slice_subrange(all, from, all.len())));
            assert(views(out@) =~= views(before) + seq![text@.subrange(from as int, all.len() as int)]);
            from = all.len();
        } else {
            let piece = slice_subrange(all, from, end);
            let line = if piece.len() > 0 && piece[piece.len() - 1] == '\r' {
                slice_subrange(piece, 0, piece.len() - 1)
            } else {
                piece
            };
            assert(line@ =~= without_cr(text@.subrange(from as int, end as int)));
            out.push(string_of(line));
            assert(views(out@) =~= views(before) + seq![line@]);
            from = end + 1;
        }
    }
    assert(lines_from(text@, from as int) =~= Seq::<Seq<char>>::empty());
    assert(views(out@) + Seq::<Seq<char>>::empty() =~= views(out@));
    out
}

/// Puts strings together, with `c` between neighbours.
pub fn join(pieces: &Vec<String>, c: char) -> (text: String)
    ensures
        text@ == joined(views(pieces@), c),
{
    let mut text = String::new();
    let mut i: usize = 0;
    while i < pieces.len()
        invariant
            i <= pieces.len(),
            text@ == joined(views(pieces@).take(i as int), c),
        decreases pieces.len() - i,
    {
        proof {
            let done = views(pieces@).take(i as int);
            lemma_joined_push(done, pieces@[i as int]@, c);
            assert(views(pieces@).take(i + 1) =~= done.push(pieces@[i as int]@));
        }
        if i > 0 {
            text.push(c);
        }
        text.append(pieces[i].as_str());
        assert(text@ =~= joined(views(pieces@).take(i + 1), c));
        i = i + 1;
    }
    assert(views(pieces@).take(pieces.len() as int) =~= views(pieces@));
    text
}

} // verus!
