//! Text helpers shared by the handshake and the command grammar: comparing,
//! splitting into words, joining and concatenating.

use vstd::prelude::*;
use vstd::string::StringExecFns;
use vstd::string::StringSliceAdditionalSpecFns;
use vstd::string::StrSliceExecFns;

verus! {

/// Whether two string slices hold the same characters.
pub fn str_eq(a: &str, b: &str) -> (same: bool)
    ensures
        same == (a@ == b@),
{
    let x = a.as_bytes();
    let y = b.as_bytes();
    proof {
        vstd::utf8::encode_utf8_decode_utf8(a@);
        vstd::utf8::encode_utf8_decode_utf8(b@);
    }
    if x.len() != y.len() {
        return false;
    }
    let mut i: usize = 0;
    while i < x.len()
        invariant
            i <= x.len(),
            x.len() == y.len(),
            forall|k: int| 0 <= k < i ==> x@[k] == y@[k],
            x@ == a.spec_bytes(),
            y@ == b.spec_bytes(),
            vstd::utf8::decode_utf8(a.spec_bytes()) == a@,
            vstd::utf8::decode_utf8(b.spec_bytes()) == b@,
        decreases x.len() - i,
    {
        if x[i] != y[i] {
            return false;
        }
        i += 1;
    }
    assert(x@ =~= y@);
    true
}

/// The characters that separate words: those that Unicode marks as
/// White_Space.
pub open spec fn is_space(c: char) -> bool {
    let u = c as u32;
    ||| 0x09 <= u <= 0x0D
    ||| u == 0x20
    ||| u == 0x85
    ||| u == 0xA0
    ||| u == 0x1680
    ||| 0x2000 <= u <= 0x200A
    ||| u == 0x2028
    ||| u == 0x2029
    ||| u == 0x202F
    ||| u == 0x205F
    ||| u == 0x3000
}

/// Whether a character separates words.
pub fn is_whitespace(c: char) -> (space: bool)
    ensures
        space == is_space(c),
{
    let u: u32 = c as u32;
    (0x09 <= u && u <= 0x0D) || u == 0x20 || u == 0x85 || u == 0xA0 || u == 0x1680 || (0x2000 <= u
        && u <= 0x200A) || u == 0x2028 || u == 0x2029 || u == 0x202F || u == 0x205F || u == 0x3000
}

/// The words of a text: its maximal runs of characters that are not
/// separators, from left to right. Read one character at a time, a separator
/// adds nothing, a character behind another word character lengthens the last
/// word, and any other character starts a new word.
pub open spec fn words(s: Seq<char>) -> Seq<Seq<char>>
    decreases s.len(),
{
    if s.len() == 0 {
        Seq::empty()
    } else {
        let before = words(s.drop_last());
        let c = s.last();
        if is_space(c) {
            before
        } else if s.len() >= 2 && !is_space(s[s.len() - 2]) {
            before.drop_last().push(before.last().push(c))
        } else {
            before.push(seq![c])
        }
    }
}

/// The characters of a string slice, in order.
pub fn chars_of(s: &str) -> (chars: Vec<char>)
    ensures
        chars@ == s@,
{
    let mut chars: Vec<char> = Vec::new();
    for c in it: s.chars()
        invariant
            it.seq() == s@,
            chars@ == s@.take(it.index()),
    {
        chars.push(c);
    }
    chars
}

/// Splits a text into its words.
pub fn split_whitespace(s: &str) -> (parts: Vec<String>)
    ensures
        parts.deep_view() == words(s@),
{
    let chars = chars_of(s);
    let n = chars.len();
    let mut parts: Vec<String> = Vec::new();
    let mut start: usize = 0;
    let mut inside = false;
    let mut i: usize = 0;
    assert(s@.take(0) =~= Seq::<char>::empty());
    assert(parts.deep_view() =~= Seq::<Seq<char>>::empty());
    while i < n
        invariant
            i <= n,
            n == s@.len(),
            chars@ == s@,
            inside ==> start < i && !is_space(s@[i - 1]),
            !inside ==> i == 0 || is_space(s@[i - 1]),
            words(s@.take(i as int)) == if inside {
                parts.deep_view().push(s@.subrange(start as int, i as int))
            } else {
                parts.deep_view()
            },
        decreases n - i,
    {
        let c = chars[i];
        let ghost prefix = s@.take(i as int + 1);
        let ghost done = parts.deep_view();
        proof {
            assert(prefix.drop_last() =~= s@.take(i as int));
            assert(prefix.last() == c);
            assert(i >= 1 ==> prefix[prefix.len() - 2] == s@[i - 1]);
        }
        if is_whitespace(c) {
            if inside {
                let word = s.substring_char(start, i).to_owned();
                parts.push(word);
                assert(parts.deep_view() =~= done.push(s@.subrange(start as int, i as int)));
                inside = false;
            }
        } else if !inside {
            start = i;
            inside = true;
            assert(s@.subrange(i as int, i + 1) =~= seq![c]);
        } else {
            let ghost open = s@.subrange(start as int, i as int);
            assert(done.push(open).drop_last() =~= done);
            assert(open.push(c) =~= s@.subrange(start as int, i + 1));
        }
        i += 1;
    }
    assert(s@.take(n as int) =~= s@);
    if inside {
        let ghost done = parts.deep_view();
        let word = s.substring_char(start, n).to_owned();
        parts.push(word);
        assert(parts.deep_view() =~= done.push(s@.subrange(start as int, n as int)));
    }
    parts
}

/// Every word holds at least one character and no separator.
pub proof fn words_hold_no_space(s: Seq<char>)
    ensures
        forall|k: int|
            0 <= k < words(s).len() ==> (#[trigger] words(s)[k]).len() > 0 && forall|j: int|
                0 <= j < words(s)[k].len() ==> !is_space(#[trigger] words(s)[k][j]),
        s.len() > 0 && !is_space(s.last()) ==> words(s).len() > 0,
    decreases s.len(),
{
    if s.len() > 0 {
        let before = words(s.drop_last());
        let c = s.last();
        words_hold_no_space(s.drop_last());
        if is_space(c) {
        } else if s.len() >= 2 && !is_space(s[s.len() - 2]) {
            assert(s.drop_last().last() == s[s.len() - 2]);
            let grown = before.last().push(c);
            assert forall|k: int| 0 <= k < words(s).len() implies (#[trigger] words(s)[k]).len() > 0
                && forall|j: int|
                0 <= j < words(s)[k].len() ==> !is_space(#[trigger] words(s)[k][j]) by {
                if k < before.len() - 1 {
                    assert(words(s)[k] == before[k]);
                } else {
                    assert(words(s)[k] == grown);
                    assert forall|j: int| 0 <= j < grown.len() implies !is_space(
                        #[trigger] grown[j],
                    ) by {
                        if j < before.last().len() {
                            assert(grown[j] == before.last()[j]);
                        }
                    }
                }
            }
        } else {
            assert forall|k: int| 0 <= k < words(s).len() implies (#[trigger] words(s)[k]).len() > 0
                && forall|j: int|
                0 <= j < words(s)[k].len() ==> !is_space(#[trigger] words(s)[k][j]) by {
                if k < before.len() {
                    assert(words(s)[k] == before[k]);
                } else {
                    assert(words(s)[k] == seq![c]);
                }
            }
        }
    }
}

/// A text without separators is one word, or none if it is empty.
pub proof fn text_without_space_is_one_word(s: Seq<char>)
    requires
        forall|j: int| 0 <= j < s.len() ==> !is_space(#[trigger] s[j]),
    ensures
        words(s) == if s.len() == 0 {
            Seq::<Seq<char>>::empty()
        } else {
            seq![s]
        },
    decreases s.len(),
{
    if s.len() > 0 {
        let before = s.drop_last();
        text_without_space_is_one_word(before);
        if s.len() >= 2 {
            assert(words(before) == seq![before]);
            assert(before.push(s.last()) =~= s);
            assert(seq![before].drop_last().push(s) =~= seq![s]);
        } else {
            assert(seq![s.last()] =~= s);
            assert(Seq::<Seq<char>>::empty().push(s) =~= seq![s]);
        }
    }
}

/// A separator parts a text: the words of the whole are the words before
/// the separator, then the words behind it.
pub proof fn separator_parts_words(left: Seq<char>, sep: char, right: Seq<char>)
    requires
        is_space(sep),
    ensures
        words(left.push(sep) + right) == words(left) + words(right),
    decreases right.len(),
{
    let s = left.push(sep) + right;
    if right.len() == 0 {
        assert(s =~= left.push(sep));
        assert(s.drop_last() =~= left);
        assert(words(left) + words(right) =~= words(left));
    } else {
        let shorter = right.drop_last();
        let c = right.last();
        separator_parts_words(left, sep, shorter);
        words_hold_no_space(shorter);
        assert(s.drop_last() =~= left.push(sep) + shorter);
        assert(s.last() == c);
        let before = words(left) + words(shorter);
        if is_space(c) {
        } else if right.len() >= 2 && !is_space(right[right.len() - 2]) {
            assert(s[s.len() - 2] == right[right.len() - 2]);
            assert(shorter.last() == right[right.len() - 2]);
            assert(before.drop_last() =~= words(left) + words(shorter).drop_last());
            assert(before.last() == words(shorter).last());
            assert(before.drop_last().push(before.last().push(c)) =~= words(left) + words(
                shorter,
            ).drop_last().push(words(shorter).last().push(c)));
        } else {
            if right.len() >= 2 {
                assert(s[s.len() - 2] == right[right.len() - 2]);
            } else {
                assert(s[s.len() - 2] == sep);
            }
            assert(before.push(seq![c]) =~= words(left) + words(shorter).push(seq![c]));
        }
    }
}

/// The words put back into one text, with one blank between neighbours.
pub open spec fn joined(parts: Seq<Seq<char>>) -> Seq<char>
    decreases parts.len(),
{
    if parts.len() == 0 {
        Seq::empty()
    } else if parts.len() == 1 {
        parts[0]
    } else {
        joined(parts.drop_last()) + seq![' '] + parts.last()
    }
}

/// Joins the words from position `from` on, with one blank between
/// neighbours.
pub fn join_from(parts: &Vec<String>, from: usize) -> (line: String)
    requires
        from <= parts.len(),
    ensures
        line@ == joined(parts.deep_view().skip(from as int)),
{
    let mut line = String::new();
    let mut i: usize = from;
    let ghost all = parts.deep_view();
    assert(all.skip(from as int).take(0) =~= Seq::<Seq<char>>::empty());
    while i < parts.len()
        invariant
            from <= i <= parts.len(),
            all == parts.deep_view(),
            line@ == joined(all.skip(from as int).take(i - from)),
        decreases parts.len() - i,
    {
        let ghost tail = all.skip(from as int);
        proof {
            assert(tail.take(i + 1 - from).drop_last() =~= tail.take(i - from));
            assert(tail.take(i + 1 - from).last() == parts[i as int]@);
            reveal_strlit(" ");
            assert(" "@ =~= seq![' ']);
        }
        if i > from {
            line.append(" ");
        }
        line.append(parts[i].as_str());
        i += 1;
    }
    assert(all.skip(from as int).take(parts.len() - from) =~= all.skip(from as int));
    line
}

/// The position of the first `sep` in `s`, or the length of `s` where it
/// holds none.
pub open spec fn first_index(s: Seq<char>, sep: char) -> int
    decreases s.len(),
{
    if s.len() == 0 || s[0] == sep {
        0
    } else {
        1 + first_index(s.drop_first(), sep)
    }
}

/// `first_index` is where `sep` first stands: nothing before it is `sep`,
/// and it is in range exactly when `s` holds `sep`.
pub proof fn first_index_is_first(s: Seq<char>, sep: char)
    ensures
        0 <= first_index(s, sep) <= s.len(),
        forall|j: int| 0 <= j < first_index(s, sep) ==> s[j] != sep,
        first_index(s, sep) < s.len() ==> s[first_index(s, sep)] == sep,
        first_index(s, sep) < s.len() <==> s.contains(sep),
    decreases s.len(),
{
    if s.len() == 0 {
    } else if s[0] == sep {
        assert(s.contains(sep));
    } else {
        let rest = s.drop_first();
        first_index_is_first(rest, sep);
        let i = first_index(rest, sep);
        assert forall|j: int| 0 <= j < 1 + i implies s[j] != sep by {
            if j > 0 {
                assert(s[j] == rest[j - 1]);
            }
        }
        if i < rest.len() {
            assert(s[1 + i] == rest[i]);
        } else if s.contains(sep) {
            let k = choose|k: int| 0 <= k < s.len() && s[k] == sep;
            assert(rest[k - 1] == sep);
        }
    }
}

/// The text before the first `sep` and the text behind it, where `s` holds
/// `sep`.
pub open spec fn split_once_spec(s: Seq<char>, sep: char) -> Option<(Seq<char>, Seq<char>)> {
    let i = first_index(s, sep);
    if i < s.len() {
        Some((s.take(i), s.skip(i + 1)))
    } else {
        None
    }
}

/// Splits a text at its first `sep`.
pub fn split_once(s: &str, sep: char) -> (halves: Option<(String, String)>)
    ensures
        match halves {
            Some((head, tail)) => split_once_spec(s@, sep) == Some((head@, tail@)),
            None => split_once_spec(s@, sep) is None,
        },
{
    let chars = chars_of(s);
    let n = chars.len();
    let mut i: usize = 0;
    assert(s@.skip(0) =~= s@);
    while i < n
        invariant
            i <= n,
            n == s@.len(),
            chars@ == s@,
            first_index(s@, sep) == i + first_index(s@.skip(i as int), sep),
        decreases n - i,
    {
        if chars[i] == sep {
            let head = s.substring_char(0, i).to_owned();
            let tail = s.substring_char(i + 1, n).to_owned();
            assert(s@.subrange(0, i as int) =~= s@.take(i as int));
            assert(s@.subrange(i + 1, n as int) =~= s@.skip(i + 1));
            return Some((head, tail));
        }
        assert(s@.skip(i as int).drop_first() =~= s@.skip(i + 1));
        i += 1;
    }
    None
}

/// The text without the separators at its start.
pub open spec fn trimmed_start(s: Seq<char>) -> Seq<char>
    decreases s.len(),
{
    if s.len() > 0 && is_space(s[0]) {
        trimmed_start(s.drop_first())
    } else {
        s
    }
}

/// The text without the separators at its end.
pub open spec fn trimmed_end(s: Seq<char>) -> Seq<char>
    decreases s.len(),
{
    if s.len() > 0 && is_space(s.last()) {
        trimmed_end(s.drop_last())
    } else {
        s
    }
}

/// The text without the separators at its start and at its end.
pub open spec fn trimmed(s: Seq<char>) -> Seq<char> {
    trimmed_end(trimmed_start(s))
}

/// Takes the separators off the start and the end of a text.
pub fn trim(s: &str) -> (kept: String)
    ensures
        kept@ == trimmed(s@),
{
    let chars = chars_of(s);
    let n = chars.len();
    let mut i: usize = 0;
    assert(s@.skip(0) =~= s@);
    while i < n && is_whitespace(chars[i])
        invariant
            i <= n,
            n == s@.len(),
            chars@ == s@,
            trimmed_start(s@) == trimmed_start(s@.skip(i as int)),
        decreases n - i,
    {
        assert(s@.skip(i as int)[0] == s@[i as int]);
        assert(s@.skip(i as int).drop_first() =~= s@.skip(i + 1));
        i += 1;
    }
    assert(i < n ==> s@.skip(i as int)[0] == s@[i as int]);
    assert(trimmed_start(s@) == s@.skip(i as int));
    let mut j: usize = n;
    assert(s@.subrange(i as int, n as int) =~= s@.skip(i as int));
    while j > i && is_whitespace(chars[j - 1])
        invariant
            i <= j <= n,
            n == s@.len(),
            chars@ == s@,
            trimmed(s@) == trimmed_end(s@.subrange(i as int, j as int)),
        decreases j,
    {
        assert(s@.subrange(i as int, j as int).last() == s@[j - 1]);
        assert(s@.subrange(i as int, j as int).drop_last() =~= s@.subrange(i as int, j - 1));
        j -= 1;
    }
    assert(j > i ==> s@.subrange(i as int, j as int).last() == s@[j - 1]);
    s.substring_char(i, j).to_owned()
}

/// A text that neither starts nor ends with a separator is kept whole.
pub proof fn text_between_words_is_kept(s: Seq<char>)
    requires
        s.len() > 0 ==> !is_space(s[0]) && !is_space(s.last()),
    ensures
        trimmed(s) == s,
{
}

} // verus!
