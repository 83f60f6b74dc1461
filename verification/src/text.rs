//! Text as a sequence of characters: scanning, splitting, joining and quoting.
//!
//! Every function here works on the characters of a string, so its contract is
//! about `Seq<char>`, the view that `vstd` gives to `str` and `String`.

use vstd::prelude::*;
use vstd::utf8::{decode_utf8, valid_utf8};

verus! {

/// `String::push` appends one character.
pub assume_specification[ std::string::String::push ](s: &mut std::string::String, c: char)
    ensures
        final(s)@ == old(s)@.push(c),
;

/// What `str::to_lowercase` returns for a text.
pub uninterp spec fn lowercase(text: Seq<char>) -> Seq<char>;

/// `str::to_lowercase`: the lower-case equivalent of a text by the Unicode
/// property, under the name [`lowercase`]. Of a text that is all ASCII the
/// contract says which one it is: each letter from `A` to `Z` becomes the
/// letter from `a` to `z`, every other character stays.
#[verifier::external_body]
pub(crate) fn to_lowercase(text: &str) -> (lower: String)
    ensures
        lower@ == lowercase(text@),
        is_ascii_text(text@) ==> lower@ == ascii_lowercase(text@),
{
    text.to_lowercase()
}

/// What `{:?}` prints for a string.
pub uninterp spec fn debug_text(text: Seq<char>) -> Seq<char>;

/// The `Debug` form of a string, as `format!("{:?}", ..)` prints it: the text
/// between double quotes, with escapes. The contract names it [`debug_text`].
#[verifier::external_body]
pub(crate) fn debug_string(text: &str) -> (quoted: String)
    ensures
        quoted@ == debug_text(text@),
{
    format!("{:?}", text)
}

/// `std::str::from_utf8`: the text that bytes encode, exactly if they are valid
/// UTF-8.
#[verifier::external_body]
pub(crate) fn utf8_text(bytes: &[u8]) -> (text: Option<String>)
    ensures
        match text {
            Some(t) => valid_utf8(bytes@) && t@ == decode_utf8(bytes@),
            None => !valid_utf8(bytes@),
        },
{
    std::str::from_utf8(bytes).ok().map(|text| text.to_string())
}

/// The characters with the Unicode property `White_Space`.
pub open spec fn white_space(c: char) -> bool {
    let code = c as u32;
    ||| 0x9 <= code <= 0xd
    ||| code == 0x20
    ||| code == 0x85
    ||| code == 0xa0
    ||| code == 0x1680
    ||| 0x2000 <= code <= 0x200a
    ||| code == 0x2028
    ||| code == 0x2029
    ||| code == 0x202f
    ||| code == 0x205f
    ||| code == 0x3000
}

/// A text in which nothing is left once the white space at both ends is gone.
pub open spec fn blank(text: Seq<char>) -> bool {
    forall|i: int| 0 <= i < text.len() ==> white_space(#[trigger] text[i])
}

/// A text whose characters are all below U+0080.
pub open spec fn is_ascii_text(text: Seq<char>) -> bool {
    forall|i: int| 0 <= i < text.len() ==> (#[trigger] text[i] as u32) < 0x80
}

/// The lower-case form of one ASCII character.
pub open spec fn ascii_lower(c: char) -> char {
    if 'A' <= c && c <= 'Z' {
        (c as u32 + 32) as char
    } else {
        c
    }
}

/// The lower-case form of an ASCII text.
pub open spec fn ascii_lowercase(text: Seq<char>) -> Seq<char> {
    text.map_values(|c: char| ascii_lower(c))
}

/// Letters, digits and the underscore.
pub open spec fn identifier_char(c: char) -> bool {
    ||| 'a' <= c && c <= 'z'
    ||| 'A' <= c && c <= 'Z'
    ||| '0' <= c && c <= '9'
    ||| c == '_'
}

/// A text made of identifier characters alone.
pub open spec fn identifier_text(text: Seq<char>) -> bool {
    forall|i: int| 0 <= i < text.len() ==> identifier_char(#[trigger] text[i])
}

/// The pieces of `text` between the occurrences of `separator`.
pub open spec fn split(text: Seq<char>, separator: char) -> Seq<Seq<char>>
    decreases text.len(),
{
    if text.len() == 0 {
        seq![Seq::<char>::empty()]
    } else {
        let before = split(text.drop_last(), separator);
        if text.last() == separator {
            before.push(Seq::<char>::empty())
        } else {
            before.drop_last().push(before.last().push(text.last()))
        }
    }
}

/// The pieces one after the other, with `separator` between two of them.
pub open spec fn join(pieces: Seq<Seq<char>>, separator: Seq<char>) -> Seq<char>
    decreases pieces.len(),
{
    if pieces.len() == 0 {
        Seq::empty()
    } else if pieces.len() == 1 {
        pieces[0]
    } else {
        join(pieces.drop_last(), separator) + separator + pieces.last()
    }
}

/// The texts that a vector of strings holds.
pub open spec fn texts(strings: Seq<String>) -> Seq<Seq<char>> {
    strings.map_values(|s: String| s@)
}

/// The texts that a vector of character vectors holds.
pub open spec fn char_texts(pieces: Seq<Vec<char>>) -> Seq<Seq<char>> {
    pieces.map_values(|p: Vec<char>| p@)
}

/// The decimal digits of a number, without leading zeros.
pub open spec fn decimal(n: nat) -> Seq<char>
    decreases n,
{
    if n < 10 {
        seq![decimal_digit(n)]
    } else {
        decimal(n / 10).push(decimal_digit(n % 10))
    }
}

/// The character for one decimal digit.
pub open spec fn decimal_digit(d: nat) -> char {
    (0x30 + d) as char
}

/// The characters of a string, in order.
pub fn chars_of(text: &str) -> (chars: Vec<char>)
    ensures
        chars@ == text@,
{
    let mut chars: Vec<char> = Vec::new();
    for c in it: text.chars()
        invariant
            chars@ == it.seq().take(it.index()),
            it.seq() == text@,
    {
        chars.push(c);
        assert(it.seq().take(it.index() + 1) == it.seq().take(it.index()).push(c));
    }
    assert(text@.take(text@.len() as int) == text@);
    chars
}

/// The string with the given characters.
pub fn string_of(chars: &Vec<char>) -> (text: String)
    ensures
        text@ == chars@,
{
    let mut text = String::new();
    for i in 0..chars.len()
        invariant
            text@ == chars@.take(i as int),
    {
        text.push(chars[i]);
        assert(chars@.take(i + 1) == chars@.take(i as int).push(chars@[i as int]));
    }
    assert(chars@.take(chars@.len() as int) == chars@);
    text
}

/// Whether two vectors hold the same characters.
fn same_chars(a: &Vec<char>, b: &Vec<char>) -> (same: bool)
    ensures
        same == (a@ == b@),
{
    if a.len() != b.len() {
        return false;
    }
    for i in 0..a.len()
        invariant
            a.len() == b.len(),
            forall|k: int| 0 <= k < i ==> a@[k] == b@[k],
    {
        if a[i] != b[i] {
            return false;
        }
    }
    assert(a@ =~= b@);
    true
}

/// Whether two strings hold the same text.
pub fn text_eq(a: &str, b: &str) -> (same: bool)
    ensures
        same == (a@ == b@),
{
    let left = chars_of(a);
    let right = chars_of(b);
    same_chars(&left, &right)
}

/// Whether `text` begins with `prefix`.
pub fn chars_start_with(text: &Vec<char>, prefix: &Vec<char>) -> (starts: bool)
    ensures
        starts == prefix@.is_prefix_of(text@),
{
    if prefix.len() > text.len() {
        return false;
    }
    for i in 0..prefix.len()
        invariant
            prefix.len() <= text.len(),
            forall|k: int| 0 <= k < i ==> prefix@[k] == text@[k],
    {
        if prefix[i] != text[i] {
            assert(prefix@[i as int] != text@.subrange(0, prefix@.len() as int)[i as int]);
            return false;
        }
    }
    true
}

/// Whether `text` begins with `prefix`.
pub fn starts_with(text: &str, prefix: &str) -> (starts: bool)
    ensures
        starts == prefix@.is_prefix_of(text@),
{
    let text_chars = chars_of(text);
    let prefix_chars = chars_of(prefix);
    chars_start_with(&text_chars, &prefix_chars)
}

/// Whether a character is white space.
pub fn is_white_space(c: char) -> (white: bool)
    ensures
        white == white_space(c),
{
    let code: u32 = c as u32;
    (0x9 <= code && code <= 0xd) || code == 0x20 || code == 0x85 || code == 0xa0 || code == 0x1680
        || (0x2000 <= code && code <= 0x200a) || code == 0x2028 || code == 0x2029 || code == 0x202f
        || code == 0x205f || code == 0x3000
}

/// Whether nothing but white space is in a string.
pub fn is_blank(text: &str) -> (b: bool)
    ensures
        b == blank(text@),
{
    let chars = chars_of(text);
    for i in 0..chars.len()
        invariant
            chars@ == text@,
            forall|k: int| 0 <= k < i ==> white_space(#[trigger] text@[k]),
    {
        if !is_white_space(chars[i]) {
            assert(!white_space(text@[i as int]));
            return false;
        }
    }
    true
}

/// Whether a string is made of letters, digits and underscores alone.
pub fn is_identifier_text(text: &str) -> (b: bool)
    ensures
        b == identifier_text(text@),
{
    let chars = chars_of(text);
    for i in 0..chars.len()
        invariant
            chars@ == text@,
            forall|k: int| 0 <= k < i ==> identifier_char(#[trigger] text@[k]),
    {
        let c = chars[i];
        if !(('a' <= c && c <= 'z') || ('A' <= c && c <= 'Z') || ('0' <= c && c <= '9') || c == '_') {
            assert(!identifier_char(text@[i as int]));
            return false;
        }
    }
    true
}

/// The decimal digits of a number.
pub fn decimal_text(n: u32) -> (text: String)
    ensures
        text@ == decimal(n as nat),
    decreases n,
{
    let digit: u32 = n % 10;
    let c: char = (0x30u8 + digit as u8) as char;
    if n < 10 {
        let mut text = String::new();
        text.push(c);
        assert(text@ =~= seq![decimal_digit(n as nat)]);
        text
    } else {
        let mut text = decimal_text(n / 10);
        text.push(c);
        text
    }
}

/// The pieces of a text between the occurrences of a separator.
pub fn split_chars(text: &Vec<char>, separator: char) -> (pieces: Vec<Vec<char>>)
    ensures
        char_texts(pieces@) == split(text@, separator),
{
    let mut pieces: Vec<Vec<char>> = Vec::new();
    let mut current: Vec<char> = Vec::new();
    proof {
        assert(text@.take(0) == Seq::<char>::empty());
        assert(char_texts(pieces@).push(current@) == split(text@.take(0), separator));
    }
    for i in 0..text.len()
        invariant
            char_texts(pieces@).push(current@) == split(text@.take(i as int), separator),
    {
        let c = text[i];
        let ghost before = char_texts(pieces@);
        let ghost last = current@;
        assert(text@.take(i + 1).drop_last() == text@.take(i as int));
        if c == separator {
            let ghost old_pieces = pieces@;
            pieces.push(current);
            current = Vec::new();
            assert(char_texts(pieces@) == before.push(last));
        } else {
            current.push(c);
            assert(before.push(last).drop_last() == before);
        }
    }
    assert(text@.take(text@.len() as int) == text@);
    let ghost before = char_texts(pieces@);
    let ghost last = current@;
    pieces.push(current);
    assert(char_texts(pieces@) == before.push(last));
    pieces
}

/// Appends every character of `more` to `text`.
pub fn append_chars(text: &mut Vec<char>, more: &Vec<char>)
    ensures
        final(text)@ == old(text)@ + more@,
{
    let ghost start = text@;
    for i in 0..more.len()
        invariant
            text@ == start + more@.take(i as int),
    {
        text.push(more[i]);
        assert(more@.take(i + 1) == more@.take(i as int).push(more@[i as int]));
    }
    assert(more@.take(more@.len() as int) == more@);
}

/// The pieces one after the other, with a separator between two of them.
pub fn join_chars(pieces: &Vec<Vec<char>>, separator: char) -> (text: Vec<char>)
    ensures
        text@ == join(char_texts(pieces@), seq![separator]),
{
    let mut text: Vec<char> = Vec::new();
    let ghost all = char_texts(pieces@);
    for i in 0..pieces.len()
        invariant
            all == char_texts(pieces@),
            text@ == join(all.take(i as int), seq![separator]),
    {
        let ghost done = text@;
        if i > 0 {
            text.push(separator);
        }
        append_chars(&mut text, &pieces[i]);
        proof {
            let upto = all.take(i + 1);
            assert(upto.drop_last() == all.take(i as int));
            assert(upto.last() == pieces@[i as int]@);
            if i > 0 {
                assert(done.push(separator) == done + seq![separator]);
            } else {
                assert(text@ == upto[0]);
            }
        }
    }
    assert(all.take(all.len() as int) == all);
    text
}

/// The strings one after the other, with a separator between two of them.
pub fn join_strings(pieces: &Vec<String>, separator: &str) -> (text: String)
    ensures
        text@ == join(texts(pieces@), separator@),
{
    let mut text = String::new();
    let ghost all = texts(pieces@);
    for i in 0..pieces.len()
        invariant
            all == texts(pieces@),
            text@ == join(all.take(i as int), separator@),
    {
        if i > 0 {
            text.append(separator);
        }
        text.append(pieces[i].as_str());
        proof {
            let upto = all.take(i + 1);
            assert(upto.drop_last() == all.take(i as int));
            assert(upto.last() == pieces@[i as int]@);
            if i == 0 {
                assert(text@ == upto[0]);
            }
        }
    }
    assert(all.take(all.len() as int) == all);
    text
}

/// The position of the first `c` in a text, if there is one.
pub fn find_char(text: &Vec<char>, c: char) -> (position: Option<usize>)
    ensures
        match position {
            Some(i) => i < text@.len() && text@[i as int] == c && !text@.take(i as int).contains(c),
            None => !text@.contains(c),
        },
{
    for i in 0..text.len()
        invariant
            forall|k: int| 0 <= k < i ==> text@[k] != c,
    {
        if text[i] == c {
            return Some(i);
        }
    }
    None
}

/// The characters from `from` up to, and without, `to`.
pub fn chars_range(text: &Vec<char>, from: usize, to: usize) -> (part: Vec<char>)
    requires
        from <= to <= text@.len(),
    ensures
        part@ == text@.subrange(from as int, to as int),
{
    let mut part: Vec<char> = Vec::new();
    for i in from..to
        invariant
            from <= to <= text@.len(),
            part@ == text@.subrange(from as int, i as int),
    {
        part.push(text[i]);
        assert(text@.subrange(from as int, i + 1) == text@.subrange(from as int, i as int).push(
            text@[i as int],
        ));
    }
    part
}

/// A split text has at least one piece.
pub proof fn lemma_split_nonempty(text: Seq<char>, separator: char)
    ensures
        split(text, separator).len() >= 1,
    decreases text.len(),
{
    if text.len() > 0 {
        lemma_split_nonempty(text.drop_last(), separator);
    }
}

/// No piece of a split text holds the separator.
pub proof fn lemma_split_pieces(text: Seq<char>, separator: char)
    ensures
        forall|i: int|
            0 <= i < split(text, separator).len() ==> !(#[trigger] split(
                text,
                separator,
            )[i]).contains(separator),
    decreases text.len(),
{
    if text.len() > 0 {
        let before = split(text.drop_last(), separator);
        lemma_split_nonempty(text.drop_last(), separator);
        lemma_split_pieces(text.drop_last(), separator);
        let pieces = split(text, separator);
        assert forall|i: int| 0 <= i < pieces.len() implies !(#[trigger] pieces[i]).contains(
            separator,
        ) by {
            if i < before.len() {
                assert(!before[i].contains(separator));
            }
        }
    }
}

/// Joining the pieces of a split text gives the text back.
pub proof fn lemma_join_split(text: Seq<char>, separator: char)
    ensures
        join(split(text, separator), seq![separator]) == text,
    decreases text.len(),
{
    if text.len() > 0 {
        let before = split(text.drop_last(), separator);
        let sep = seq![separator];
        lemma_split_nonempty(text.drop_last(), separator);
        lemma_join_split(text.drop_last(), separator);
        let pieces = split(text, separator);
        if text.last() == separator {
            assert(pieces.drop_last() == before);
            assert(join(pieces, sep) == text);
        } else {
            assert(pieces.drop_last() == before.drop_last());
            if before.len() == 1 {
                assert(join(before, sep) == before[0]);
                assert(join(pieces, sep) == pieces[0]);
            }
            assert(join(pieces, sep) == join(before, sep).push(text.last()));
            assert(text.drop_last().push(text.last()) == text);
        }
    }
}

/// Splitting a text that has no separator gives the text alone.
pub proof fn lemma_split_single(text: Seq<char>, separator: char)
    requires
        !text.contains(separator),
    ensures
        split(text, separator) == seq![text],
    decreases text.len(),
{
    if text.len() > 0 {
        assert(text.last() != separator);
        assert(!text.drop_last().contains(separator)) by {
            if text.drop_last().contains(separator) {
                let i = choose|i: int| 0 <= i < text.len() - 1 && text.drop_last()[i] == separator;
                assert(text[i] == separator);
            }
        }
        lemma_split_single(text.drop_last(), separator);
        assert(text.drop_last().push(text.last()) == text);
        assert(split(text, separator) == seq![text]);
    } else {
        assert(text == Seq::<char>::empty());
    }
}

/// Splitting a text followed by the separator and a piece without one.
pub proof fn lemma_split_append(text: Seq<char>, piece: Seq<char>, separator: char)
    requires
        !piece.contains(separator),
    ensures
        split(text + seq![separator] + piece, separator) == split(text, separator).push(piece),
    decreases piece.len(),
{
    let whole = text + seq![separator] + piece;
    if piece.len() == 0 {
        assert(whole.drop_last() == text);
        assert(piece == Seq::<char>::empty());
        assert(split(whole, separator) == split(text, separator).push(piece));
    } else {
        let shorter = piece.drop_last();
        assert(piece.last() != separator);
        assert(!shorter.contains(separator)) by {
            if shorter.contains(separator) {
                let i = choose|i: int| 0 <= i < shorter.len() && shorter[i] == separator;
                assert(piece[i] == separator);
            }
        }
        lemma_split_append(text, shorter, separator);
        assert(whole.drop_last() == text + seq![separator] + shorter);
        let before = split(whole.drop_last(), separator);
        assert(before.drop_last() == split(text, separator));
        assert(before.last().push(piece.last()) == piece);
    }
}

/// Splitting joined pieces gives the pieces back, if none holds the separator.
pub proof fn lemma_split_join(pieces: Seq<Seq<char>>, separator: char)
    requires
        pieces.len() >= 1,
        forall|i: int| 0 <= i < pieces.len() ==> !(#[trigger] pieces[i]).contains(separator),
    ensures
        split(join(pieces, seq![separator]), separator) == pieces,
    decreases pieces.len(),
{
    if pieces.len() == 1 {
        lemma_split_single(pieces[0], separator);
        assert(pieces == seq![pieces[0]]);
    } else {
        let shorter = pieces.drop_last();
        assert forall|i: int| 0 <= i < shorter.len() implies !(#[trigger] shorter[i]).contains(
            separator,
        ) by {
            assert(!pieces[i].contains(separator));
        }
        lemma_split_join(shorter, separator);
        lemma_split_append(join(shorter, seq![separator]), pieces.last(), separator);
        assert(shorter.push(pieces.last()) == pieces);
    }
}

/// A text is blank, or an identifier, if each of its characters is: with a character
/// more it is exactly if it was, and the character is white space, or a letter, a digit
/// or an underscore of ASCII.
pub proof fn law_every_character_counts(text: Seq<char>, c: char)
    ensures
        blank(Seq::<char>::empty()),
        blank(text.push(c)) <==> blank(text) && white_space(c),
        identifier_text(Seq::<char>::empty()),
        identifier_text(text.push(c)) <==> identifier_text(text) && ('a' <= c <= 'z' || 'A' <= c
            <= 'Z' || '0' <= c <= '9' || c == '_'),
        is_ascii_text(Seq::<char>::empty()),
        is_ascii_text(text.push(c)) <==> is_ascii_text(text) && (c as u32) < 0x80,
{
    let more = text.push(c);
    assert(more[text.len() as int] == c);
    assert(forall|i: int| 0 <= i < text.len() ==> #[trigger] more[i] == text[i]);
    assert(blank(more) ==> blank(text)) by {
        assert(forall|i: int| 0 <= i < text.len() ==> #[trigger] text[i] == more[i]);
    }
    assert(identifier_text(more) ==> identifier_text(text)) by {
        assert(forall|i: int| 0 <= i < text.len() ==> #[trigger] text[i] == more[i]);
    }
    assert(is_ascii_text(more) ==> is_ascii_text(text)) by {
        assert(forall|i: int| 0 <= i < text.len() ==> #[trigger] text[i] == more[i]);
    }
}

/// The lower-case form of an ASCII text has the same length. A capital letter becomes
/// the small one 32 places behind it, and every other character stays.
pub proof fn law_letters_become_small(text: Seq<char>)
    ensures
        ascii_lowercase(text).len() == text.len(),
        forall|i: int|
            0 <= i < text.len() ==> (#[trigger] ascii_lowercase(text)[i]) as int == (if 'A'
                <= text[i] <= 'Z' {
                text[i] as int + 32
            } else {
                text[i] as int
            }),
{
}

/// Joined pieces with a piece more are the joined pieces, the separator unless there was
/// no piece, and the piece.
pub proof fn law_pieces_are_joined_one_by_one(
    pieces: Seq<Seq<char>>,
    piece: Seq<char>,
    separator: Seq<char>,
)
    ensures
        join(Seq::<Seq<char>>::empty(), separator) == Seq::<char>::empty(),
        join(pieces.push(piece), separator) == (if pieces.len() == 0 {
            piece
        } else {
            join(pieces, separator) + separator + piece
        }),
{
    assert(pieces.push(piece).drop_last() == pieces);
}

/// A number is written with the digits of its tenth part, and then its last digit.
pub proof fn law_digits_are_written_one_by_one(n: nat, digit: nat)
    requires
        digit < 10,
    ensures
        decimal(digit) == seq![('0' as u32 + digit) as char],
        n > 0 ==> decimal(10 * n + digit) == decimal(n).push(('0' as u32 + digit) as char),
{
    assert((10 * n + digit) / 10 == n);
    assert((10 * n + digit) % 10 == digit);
}

/// The texts of strings leave nothing out.
pub proof fn law_texts_are_seen_whole(strings: Seq<String>, pieces: Seq<Vec<char>>)
    ensures
        texts(strings).len() == strings.len(),
        forall|i: int| 0 <= i < strings.len() ==> #[trigger] texts(strings)[i] == strings[i]@,
        char_texts(pieces).len() == pieces.len(),
        forall|i: int| 0 <= i < pieces.len() ==> #[trigger] char_texts(pieces)[i] == pieces[i]@,
{
}

/// White space is what Unicode calls so: the tabulator and the line breaks, the space,
/// and the spaces and separators beyond ASCII.
pub proof fn law_which_characters_are_white_space(c: char)
    ensures
        white_space(c) <==> {
            ||| c == '\t' || c == '\n' || c == '\u{b}' || c == '\u{c}' || c == '\r'
            ||| c == ' ' || c == '\u{85}' || c == '\u{a0}' || c == '\u{1680}'
            ||| '\u{2000}' <= c <= '\u{200a}'
            ||| c == '\u{2028}' || c == '\u{2029}' || c == '\u{202f}' || c == '\u{205f}'
            ||| c == '\u{3000}'
        },
{
}

} // verus!
