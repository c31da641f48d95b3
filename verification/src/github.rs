//! Reading the user's git configuration, as `git config list` prints it: one
//! `key=value` entry per line.

use crate::text::{
    chars_of, find_char, find_from, lemma_find_from, same_chars, split, split_from, split_once,
    string_of, trim, trimmed,
};
use vstd::prelude::*;
use vstd::slice::slice_subrange;

verus! {

/// What a single line gives for `key`: the line is trimmed and cut at its
/// first `=`; it answers when the part before the `=` is exactly `key`.
pub open spec fn entry_value(line: Seq<char>, key: Seq<char>) -> Option<Seq<char>> {
    match split_once(trimmed(line), '=') {
        Some((name, value)) => if name == key {
            Some(value)
        } else {
            None
        },
        None => None,
    }
}

/// The answer of the first line that has one.
pub open spec fn first_value(lines: Seq<Seq<char>>, key: Seq<char>) -> Option<Seq<char>>
    decreases lines.len(),
{
    if lines.len() == 0 {
        None
    } else {
        match entry_value(lines[0], key) {
            Some(value) => Some(value),
            None => first_value(lines.drop_first(), key),
        }
    }
}

/// The value that a configuration listing holds for `key`.
pub open spec fn config_value(conf: Seq<char>, key: Seq<char>) -> Option<Seq<char>> {
    first_value(split(conf, '\n'), key)
}

/// Looking a key up from position `from` on means asking the line that
/// starts there and, if it has no answer, going on behind its line break.
proof fn lemma_first_value_unfold(conf: Seq<char>, key: Seq<char>, from: int)
    requires
        0 <= from <= conf.len(),
    ensures
        first_value(split_from(conf, '\n', from), key) == ({
            let end = find_from(conf, '\n', from);
            match entry_value(conf.subrange(from, end), key) {
                Some(value) => Some(value),
                None => if end >= conf.len() {
                    None
                } else {
                    first_value(split_from(conf, '\n', end + 1), key)
                },
            }
        }),
{
    lemma_find_from(conf, '\n', from);
    let end = find_from(conf, '\n', from);
    let lines = split_from(conf, '\n', from);
    if end >= conf.len() {
        assert(lines.drop_first() =~= Seq::<Seq<char>>::empty());
    } else {
        assert(lines.drop_first() =~= split_from(conf, '\n', end + 1));
    }
}

/// The lookup answers with the value of the first line that names the key:
/// no line before it does, and if no line does, there is no answer.
pub proof fn lemma_first_value(lines: Seq<Seq<char>>, key: Seq<char>)
    ensures
        match first_value(lines, key) {
            Some(value) => exists|k: int|
                0 <= k < lines.len() && #[trigger] entry_value(lines[k], key) == Some(value)
                    && forall|j: int| 0 <= j < k ==> entry_value(lines[j], key) is None,
            None => forall|j: int| 0 <= j < lines.len() ==> entry_value(lines[j], key) is None,
        },
    decreases lines.len(),
{
    if lines.len() > 0 && entry_value(lines[0], key) is None {
        let rest = lines.drop_first();
        lemma_first_value(rest, key);
        assert forall|j: int| 0 <= j < rest.len() implies rest[j] == lines[j + 1] by {}
        match first_value(rest, key) {
            Some(value) => {
                let k = choose|k: int|
                    0 <= k < rest.len() && #[trigger] entry_value(rest[k], key) == Some(value)
                        && forall|j: int| 0 <= j < k ==> entry_value(rest[j], key) is None;
                assert(entry_value(lines[k + 1], key) == Some(value));
                assert forall|j: int| 0 <= j < k + 1 implies entry_value(lines[j], key) is None by {
                    if j > 0 {
                        assert(rest[j - 1] == lines[j]);
                    }
                }
            },
            None => {
                assert forall|j: int| 0 <= j < lines.len() implies entry_value(
                    lines[j],
                    key,
                ) is None by {
                    if j > 0 {
                        assert(rest[j - 1] == lines[j]);
                    }
                }
            },
        }
    }
}

/// Looks `key` up in a configuration listing.
///
/// Every line is trimmed first, so indentation does not matter. The value is
/// everything behind the first `=` of the first line whose name is `key`.
pub fn get_key_from_conf(key: &str, conf: &String) -> (value: Option<String>)
    ensures
        match value {
            Some(found) => config_value(conf@, key@) == Some(found@),
            None => config_value(conf@, key@) is None,
        },
{
    let chars = chars_of(conf.as_str());
    let key_chars = chars_of(key);
    let all = chars.as_slice();
    let mut from: usize = 0;
    loop
        invariant
            all@ == conf@,
            key_chars@ == key@,
            from <= all.len(),
            config_value(conf@, key@) == first_value(split_from(conf@, '\n', from as int), key@),
        decreases all.len() - from,
    {
        proof {
            lemma_first_value_unfold(conf@, key@, from as int);
        }
        let end = find_char(all, '\n', from);
        let line = trim(slice_subrange(all, from, end));
        let at = find_char(line, '=', 0);
        if at < line.len() {
            let name = slice_subrange(line, 0, at);
            if same_chars(name, key_chars.as_slice()) {
                let found = string_of(slice_subrange(line, at + 1, line.len()));
                return Some(found);
            }
        }
        if end >= all.len() {
            return None;
        }
        from = end + 1;
    }
}

} // verus!
