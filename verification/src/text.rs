//! Text operations on Unicode scalar values.

use vstd::prelude::*;
use vstd::utf8::is_ascii_chars;

verus! {

/// The characters with the Unicode `White_Space` property.
pub open spec fn is_white_space(c: char) -> bool {
    ||| '\u{9}' <= c <= '\u{d}'
    ||| c == ' '
    ||| c == '\u{85}'
    ||| c == '\u{a0}'
    ||| c == '\u{1680}'
    ||| '\u{2000}' <= c <= '\u{200a}'
    ||| c == '\u{2028}'
    ||| c == '\u{2029}'
    ||| c == '\u{202f}'
    ||| c == '\u{205f}'
    ||| c == '\u{3000}'
}

/// `text` without the white space it starts with.
pub open spec fn trim_start(text: Seq<char>) -> Seq<char>
    decreases text.len(),
{
    if text.len() > 0 && is_white_space(text.first()) {
        trim_start(text.drop_first())
    } else {
        text
    }
}

/// `text` without the white space it ends with.
pub open spec fn trim_end(text: Seq<char>) -> Seq<char>
    decreases text.len(),
{
    if text.len() > 0 && is_white_space(text.last()) {
        trim_end(text.drop_last())
    } else {
        text
    }
}

/// `text` without white space at either end.
pub open spec fn trimmed(text: Seq<char>) -> Seq<char> {
    trim_end(trim_start(text))
}

/// `text` with every leading occurrence of `prefix` taken away.
pub open spec fn without_leading(text: Seq<char>, prefix: Seq<char>) -> Seq<char>
    decreases text.len(),
{
    if prefix.len() > 0 && prefix.is_prefix_of(text) {
        without_leading(text.skip(prefix.len() as int), prefix)
    } else {
        text
    }
}

/// The pieces of `text` between the occurrences of `separator`: one more piece than there are
/// occurrences.
pub open spec fn pieces(text: Seq<char>, separator: char) -> Seq<Seq<char>>
    decreases text.len(),
{
    if text.len() == 0 {
        seq![Seq::empty()]
    } else {
        let before = pieces(text.drop_last(), separator);
        if text.last() == separator {
            before.push(Seq::empty())
        } else {
            before.drop_last().push(before.last().push(text.last()))
        }
    }
}

/// The texts of `parts` in order, with `separator` between neighbours.
pub open spec fn joined(parts: Seq<Seq<char>>, separator: char) -> Seq<char>
    decreases parts.len(),
{
    if parts.len() == 0 {
        Seq::empty()
    } else if parts.len() == 1 {
        parts[0]
    } else {
        joined(parts.drop_last(), separator).push(separator) + parts.last()
    }
}

/// `c`, or its small counterpart where `c` is one of `A` to `Z`.
pub open spec fn ascii_small(c: char) -> char {
    if 'A' <= c <= 'Z' {
        (c as int + 32) as char
    } else {
        c
    }
}

/// An ASCII text in lower case.
pub open spec fn ascii_lowercase(text: Seq<char>) -> Seq<char> {
    text.map_values(|c: char| ascii_small(c))
}

/// The Unicode lower-case form of a text.
pub uninterp spec fn lowercase(text: Seq<char>) -> Seq<char>;

/// `str::to_lowercase` maps every character to its Unicode lower-case form, by tables that are
/// part of std; the result depends on the text alone. On ASCII text only the letters `A` to `Z`
/// change, each to its small counterpart.
pub assume_specification[ str::to_lowercase ](text: &str) -> (small: String)
    ensures
        small@ == lowercase(text@),
        is_ascii_chars(text@) ==> small@ == ascii_lowercase(text@),
;

/// `char::is_whitespace` tells whether a character has the Unicode `White_Space` property, which
/// the Unicode Character Database gives to exactly the characters listed above.
pub assume_specification[ char::is_whitespace ](c: char) -> (white: bool)
    ensures
        white == is_white_space(c),
;

/// `String::push` appends one character.
pub assume_specification[ String::push ](text: &mut String, c: char)
    ensures
        final(text)@ == old(text)@.push(c),
;

/// The views of a list of strings.
pub open spec fn views(texts: Seq<String>) -> Seq<Seq<char>> {
    texts.map_values(|t: String| t@)
}

/// The characters of `text`, in order.
pub fn characters(text: &str) -> (chars: Vec<char>)
    ensures
        chars@ == text@,
{
    let mut chars: Vec<char> = Vec::new();
    for c in it: text.chars()
        invariant
            it.seq() == text@,
            chars@ == text@.take(it.index() as int),
    {
        chars.push(c);
        assert(text@.take(it.index() as int).push(c) =~= text@.take(it.index() + 1));
    }
    assert(text@.take(text@.len() as int) =~= text@);
    chars
}

/// Whether `text` begins with `prefix`.
pub fn starts_with(text: &str, prefix: &str) -> (found: bool)
    ensures
        found == prefix@.is_prefix_of(text@),
{
    let whole = characters(text);
    let start = characters(prefix);
    if start.len() > whole.len() {
        return false;
    }
    let mut i: usize = 0;
    while i < start.len()
        invariant
            i <= start@.len() <= whole@.len(),
            start@ == prefix@,
            whole@ == text@,
            forall|k: int| 0 <= k < i ==> start@[k] == whole@[k],
        decreases start@.len() - i,
    {
        if start[i] != whole[i] {
            assert(prefix@[i as int] != text@[i as int]);
            return false;
        }
        i = i + 1;
    }
    assert(prefix@ =~= text@.subrange(0, prefix@.len() as int));
    true
}

/// What follows `prefix` in `text`, where `text` begins with it.
pub fn strip_prefix(text: &str, prefix: &str) -> (rest: Option<String>)
    ensures
        rest is Some <==> prefix@.is_prefix_of(text@),
        rest matches Some(tail) ==> tail@ == text@.skip(prefix@.len() as int),
{
    if starts_with(text, prefix) {
        let from = prefix.unicode_len();
        let to = text.unicode_len();
        Some(text.substring_char(from, to).to_owned())
    } else {
        None
    }
}

/// `text` with every leading occurrence of `prefix` taken away.
pub fn trim_start_matches(text: &str, prefix: &str) -> (rest: String)
    ensures
        rest@ == without_leading(text@, prefix@),
{
    let mut rest = text.to_owned();
    if prefix.is_empty() {
        return rest;
    }
    loop
        invariant
            prefix@.len() > 0,
            without_leading(rest@, prefix@) == without_leading(text@, prefix@),
        ensures
            rest@ == without_leading(text@, prefix@),
        decreases rest@.len(),
    {
        match strip_prefix(rest.as_str(), prefix) {
            Some(tail) => {
                rest = tail;
            },
            None => {
                break;
            },
        }
    }
    rest
}

proof fn lemma_trim_start_step(text: Seq<char>, i: int)
    requires
        0 <= i < text.len(),
        is_white_space(text[i]),
    ensures
        trim_start(text.skip(i)) == trim_start(text.skip(i + 1)),
{
    assert(text.skip(i).drop_first() =~= text.skip(i + 1));
}

/// `text` without white space at either end.
pub fn trim(text: &str) -> (core: String)
    ensures
        core@ == trimmed(text@),
{
    let chars = characters(text);
    let n = chars.len();
    let mut from: usize = 0;
    assert(text@.skip(0) =~= text@);
    while from < n && chars[from].is_whitespace()
        invariant
            from <= n == chars@.len(),
            chars@ == text@,
            trim_start(text@) == trim_start(text@.skip(from as int)),
        decreases n - from,
    {
        proof {
            lemma_trim_start_step(text@, from as int);
        }
        from = from + 1;
    }
    assert(trim_start(text@) =~= text@.skip(from as int));
    let mut to: usize = n;
    assert(text@.subrange(from as int, to as int) =~= text@.skip(from as int));
    while from < to && chars[to - 1].is_whitespace()
        invariant
            from <= to <= n == chars@.len(),
            chars@ == text@,
            trim_end(trim_start(text@)) == trim_end(text@.subrange(from as int, to as int)),
        decreases to,
    {
        assert(text@.subrange(from as int, to as int).drop_last() =~= text@.subrange(
            from as int,
            to - 1,
        ));
        to = to - 1;
    }
    text.substring_char(from, to).to_owned()
}

/// Whether `c` occurs in `text`.
pub fn contains_char(text: &str, c: char) -> (found: bool)
    ensures
        found == text@.contains(c),
{
    let chars = characters(text);
    let mut i: usize = 0;
    while i < chars.len()
        invariant
            i <= chars@.len(),
            chars@ == text@,
            forall|k: int| 0 <= k < i ==> text@[k] != c,
        decreases chars@.len() - i,
    {
        if chars[i] == c {
            assert(text@[i as int] == c);
            return true;
        }
        i = i + 1;
    }
    false
}

/// The pieces of `text` between the occurrences of `separator`.
pub fn split(text: &str, separator: char) -> (parts: Vec<String>)
    ensures
        views(parts@) == pieces(text@, separator),
{
    let chars = characters(text);
    let mut parts: Vec<String> = Vec::new();
    let mut current = String::new();
    let mut i: usize = 0;
    assert(text@.take(0) =~= Seq::<char>::empty());
    assert(views(parts@).push(current@) =~= pieces(text@.take(0), separator));
    while i < chars.len()
        invariant
            i <= chars@.len(),
            chars@ == text@,
            views(parts@).push(current@) == pieces(text@.take(i as int), separator),
        decreases chars@.len() - i,
    {
        let c = chars[i];
        let ghost before = pieces(text@.take(i as int), separator);
        let ghost done = views(parts@);
        let ghost open = current@;
        proof {
            assert(text@.take(i + 1).drop_last() =~= text@.take(i as int));
            assert(text@.take(i + 1).last() == c);
            assert(before.drop_last() =~= done);
            assert(before.last() == open);
        }
        if c == separator {
            parts.push(current);
            current = String::new();
            assert(views(parts@) =~= done.push(open));
        } else {
            current.push(c);
        }
        i = i + 1;
    }
    assert(text@.take(text@.len() as int) =~= text@);
    let ghost done = views(parts@);
    let ghost open = current@;
    parts.push(current);
    assert(views(parts@) =~= done.push(open));
    parts
}

/// Splitting yields at least one piece, and no piece holds the separator.
pub proof fn lemma_pieces_are_separated(text: Seq<char>, separator: char)
    ensures
        pieces(text, separator).len() > 0,
        forall|i: int|
            0 <= i < pieces(text, separator).len() ==> !(#[trigger] pieces(
                text,
                separator,
            )[i]).contains(separator),
    decreases text.len(),
{
    if text.len() > 0 {
        let before = pieces(text.drop_last(), separator);
        lemma_pieces_are_separated(text.drop_last(), separator);
        if text.last() != separator {
            assert(!before.last().contains(separator));
            assert(!before.last().push(text.last()).contains(separator));
        }
    }
}

/// Joining the pieces of a text with the separator gives the text back.
pub proof fn law_join_undoes_split(text: Seq<char>, separator: char)
    ensures
        joined(pieces(text, separator), separator) == text,
    decreases text.len(),
{
    if text.len() > 0 {
        let before = pieces(text.drop_last(), separator);
        lemma_pieces_are_separated(text.drop_last(), separator);
        law_join_undoes_split(text.drop_last(), separator);
        if text.last() == separator {
            assert(before.push(Seq::empty()).drop_last() =~= before);
            assert(joined(before.push(Seq::empty()), separator) =~= text);
        } else {
            let after = before.drop_last().push(before.last().push(text.last()));
            assert(after.drop_last() =~= before.drop_last());
            assert(joined(after, separator) =~= joined(before, separator).push(text.last()));
        }
        assert(text.drop_last().push(text.last()) =~= text);
    }
}

proof fn lemma_pieces_of_extension(text: Seq<char>, tail: Seq<char>, separator: char)
    requires
        !tail.contains(separator),
    ensures
        pieces(text + tail, separator) == pieces(text, separator).drop_last().push(
            pieces(text, separator).last() + tail,
        ),
    decreases tail.len(),
{
    lemma_pieces_are_separated(text, separator);
    let before = pieces(text, separator);
    if tail.len() == 0 {
        assert(text + tail =~= text);
        assert(before.last() + tail =~= before.last());
        assert(before.drop_last().push(before.last()) =~= before);
    } else {
        let shorter = tail.drop_last();
        assert(!shorter.contains(separator)) by {
            if shorter.contains(separator) {
                let k = choose|k: int| 0 <= k < shorter.len() && shorter[k] == separator;
                assert(tail[k] == separator);
            }
        }
        assert(tail[tail.len() - 1] == tail.last());
        lemma_pieces_of_extension(text, shorter, separator);
        assert((text + tail).drop_last() =~= text + shorter);
        let middle = pieces(text + shorter, separator);
        assert(middle.drop_last() =~= before.drop_last());
        assert(middle.last().push(tail.last()) =~= before.last() + tail);
    }
}

/// A separator parts the pieces before it from those behind it.
pub proof fn lemma_pieces_around_separator(front: Seq<char>, back: Seq<char>, separator: char)
    ensures
        pieces(front.push(separator) + back, separator) == pieces(front, separator) + pieces(
            back,
            separator,
        ),
    decreases back.len(),
{
    let text = front.push(separator) + back;
    if back.len() == 0 {
        assert(text =~= front.push(separator));
        assert(text.drop_last() =~= front);
        assert(pieces(front, separator).push(Seq::empty()) =~= pieces(front, separator) + pieces(
            back,
            separator,
        ));
    } else {
        let shorter = back.drop_last();
        lemma_pieces_around_separator(front, shorter, separator);
        lemma_pieces_are_separated(shorter, separator);
        assert(text.drop_last() =~= front.push(separator) + shorter);
        let first = pieces(front, separator);
        let before = first + pieces(shorter, separator);
        if back.last() == separator {
            assert(before.push(Seq::empty()) =~= first + pieces(back, separator));
        } else {
            assert(before.drop_last().push(before.last().push(back.last())) =~= first + pieces(
                back,
                separator,
            ));
        }
    }
}

/// Whether `piece` is a piece of one of the texts.
pub open spec fn is_piece_of_any(texts: Seq<Seq<char>>, separator: char, piece: Seq<char>) -> bool {
    exists|i: int|
        0 <= i < texts.len() && #[trigger] pieces(texts[i], separator).contains(piece)
}

/// The pieces of a joined list are the pieces of its texts.
pub proof fn lemma_pieces_of_joined(parts: Seq<Seq<char>>, separator: char, piece: Seq<char>)
    requires
        parts.len() > 0,
    ensures
        pieces(joined(parts, separator), separator).contains(piece) == is_piece_of_any(
            parts,
            separator,
            piece,
        ),
    decreases parts.len(),
{
    if parts.len() == 1 {
        assert(pieces(parts[0], separator).contains(piece) ==> is_piece_of_any(
            parts,
            separator,
            piece,
        ));
    } else {
        let front = parts.drop_last();
        let all = pieces(joined(parts, separator), separator);
        let head = pieces(joined(front, separator), separator);
        let tail = pieces(parts.last(), separator);
        lemma_pieces_of_joined(front, separator, piece);
        lemma_pieces_around_separator(joined(front, separator), parts.last(), separator);
        assert(all == head + tail);
        if head.contains(piece) {
            let k = choose|k: int| 0 <= k < head.len() && head[k] == piece;
            assert(all[k] == piece);
            let i = choose|i: int|
                0 <= i < front.len() && #[trigger] pieces(front[i], separator).contains(piece);
            assert(pieces(parts[i], separator).contains(piece));
        }
        if tail.contains(piece) {
            let k = choose|k: int| 0 <= k < tail.len() && tail[k] == piece;
            assert(all[head.len() + k] == piece);
            assert(pieces(parts[parts.len() - 1], separator).contains(piece));
        }
        if all.contains(piece) {
            let k = choose|k: int| 0 <= k < all.len() && all[k] == piece;
            if k < head.len() {
                assert(head[k] == piece);
            } else {
                assert(tail[k - head.len()] == piece);
            }
        }
        if is_piece_of_any(parts, separator, piece) {
            let i = choose|i: int|
                0 <= i < parts.len() && #[trigger] pieces(parts[i], separator).contains(piece);
            if i < front.len() {
                assert(pieces(front[i], separator).contains(piece));
            }
        }
    }
}

/// Splitting a joined list gives the list back, provided it is not empty and none of its texts
/// holds the separator.
pub proof fn law_split_undoes_join(parts: Seq<Seq<char>>, separator: char)
    requires
        parts.len() > 0,
        forall|i: int| 0 <= i < parts.len() ==> !(#[trigger] parts[i]).contains(separator),
    ensures
        pieces(joined(parts, separator), separator) == parts,
    decreases parts.len(),
{
    if parts.len() == 1 {
        lemma_pieces_of_extension(Seq::empty(), parts[0], separator);
        assert(Seq::<char>::empty() + parts[0] =~= parts[0]);
        assert(pieces(parts[0], separator) =~= parts);
    } else {
        let front = parts.drop_last();
        assert forall|i: int| 0 <= i < front.len() implies !(#[trigger] front[i]).contains(
            separator,
        ) by {
            assert(front[i] == parts[i]);
        }
        law_split_undoes_join(front, separator);
        let stem = joined(front, separator).push(separator);
        assert(stem.drop_last() =~= joined(front, separator));
        assert(pieces(stem, separator) == front.push(Seq::empty()));
        assert(!parts[parts.len() - 1].contains(separator));
        lemma_pieces_of_extension(stem, parts.last(), separator);
        assert(front.push(Seq::<char>::empty()).drop_last() =~= front);
        assert(Seq::<char>::empty() + parts.last() =~= parts.last());
        assert(pieces(stem + parts.last(), separator) =~= parts);
    }
}

/// The views of a list of strings are the views of its strings, one by one.
pub proof fn law_views_are_one_by_one(texts: Seq<String>, i: int)
    requires
        0 <= i < texts.len(),
    ensures
        views(texts).len() == texts.len(),
        views(texts)[i] == texts[i]@,
{
}

/// A joined list grows by the separator and the text that is added to it; one text is joined to
/// itself, and nothing to nothing.
pub proof fn law_joined_list_grows(parts: Seq<Seq<char>>, part: Seq<char>, separator: char)
    ensures
        joined(Seq::empty(), separator).len() == 0,
        joined(seq![part], separator) == part,
        parts.len() > 0 ==> joined(parts.push(part), separator) == joined(parts, separator)
            + seq![separator] + part,
{
    if parts.len() > 0 {
        assert(parts.push(part).drop_last() =~= parts);
        assert(joined(parts, separator).push(separator) =~= joined(parts, separator)
            + seq![separator]);
    }
}

proof fn lemma_trim_start_skips(front: Seq<char>, rest: Seq<char>)
    requires
        forall|i: int| 0 <= i < front.len() ==> is_white_space(#[trigger] front[i]),
    ensures
        trim_start(front + rest) == trim_start(rest),
    decreases front.len(),
{
    if front.len() == 0 {
        assert(front + rest =~= rest);
    } else {
        assert((front + rest).first() == front[0]);
        assert((front + rest).drop_first() =~= front.drop_first() + rest);
        lemma_trim_start_skips(front.drop_first(), rest);
    }
}

proof fn lemma_trim_end_skips(rest: Seq<char>, back: Seq<char>)
    requires
        forall|i: int| 0 <= i < back.len() ==> is_white_space(#[trigger] back[i]),
    ensures
        trim_end(rest + back) == trim_end(rest),
    decreases back.len(),
{
    if back.len() == 0 {
        assert(rest + back =~= rest);
    } else {
        assert((rest + back).last() == back[back.len() - 1]);
        assert((rest + back).drop_last() =~= rest + back.drop_last());
        lemma_trim_end_skips(rest, back.drop_last());
    }
}

/// Trimming takes away the white space around a text and nothing of the text itself, whatever
/// stands inside it.
pub proof fn law_trimming_leaves_the_core(front: Seq<char>, core: Seq<char>, back: Seq<char>)
    requires
        forall|i: int| 0 <= i < front.len() ==> is_white_space(#[trigger] front[i]),
        forall|i: int| 0 <= i < back.len() ==> is_white_space(#[trigger] back[i]),
        core.len() > 0 ==> !is_white_space(core[0]) && !is_white_space(core[core.len() - 1]),
    ensures
        trimmed(front + core + back) == core,
{
    assert(front + core + back =~= front + (core + back));
    lemma_trim_start_skips(front, core + back);
    if core.len() > 0 {
        assert((core + back).first() == core[0]);
        lemma_trim_end_skips(core, back);
    } else {
        assert(core + back =~= back + core);
        lemma_trim_start_skips(back, core);
    }
    assert(trimmed(front + core + back) =~= core);
}

/// Each leading occurrence of the prefix is taken away, and a text that does not begin with it is
/// left as it is.
pub proof fn law_leading_prefixes_are_taken_away(prefix: Seq<char>, rest: Seq<char>)
    requires
        prefix.len() > 0,
    ensures
        without_leading(prefix + rest, prefix) == without_leading(rest, prefix),
        rest.len() < prefix.len() || rest.take(prefix.len() as int) != prefix ==> without_leading(
            rest,
            prefix,
        ) == rest,
{
    assert(prefix =~= (prefix + rest).subrange(0, prefix.len() as int));
    assert((prefix + rest).skip(prefix.len() as int) =~= rest);
    if rest.len() >= prefix.len() {
        assert(rest.take(prefix.len() as int) =~= rest.subrange(0, prefix.len() as int));
    }
}

} // verus!
