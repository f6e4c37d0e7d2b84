//! Small verified helpers on strings and lists of strings.

use vstd::prelude::*;

verus! {

/// The texts that a list of strings holds.
pub open spec fn strings_view(strings: Seq<String>) -> Seq<Seq<char>> {
    Seq::new(strings.len(), |i: int| strings[i]@)
}

/// `index` is the first place in `text` where `wanted` stands.
pub open spec fn first_char_at(text: Seq<char>, wanted: char, index: int) -> bool {
    &&& 0 <= index < text.len()
    &&& text[index] == wanted
    &&& forall|j: int| 0 <= j < index ==> text[j] != wanted
}

/// The first place in `text` where `wanted` stands, if it stands anywhere.
pub open spec fn first_index(text: Seq<char>, wanted: char) -> Option<int> {
    if exists|i: int| first_char_at(text, wanted, i) {
        Some(choose|i: int| first_char_at(text, wanted, i))
    } else {
        None
    }
}

/// A character that has a first place has exactly that one.
pub proof fn lemma_first_index_found(text: Seq<char>, wanted: char, index: int)
    requires
        first_char_at(text, wanted, index),
    ensures
        first_index(text, wanted) == Some(index),
{
    let chosen = choose|i: int| first_char_at(text, wanted, i);
    assert(first_char_at(text, wanted, chosen));
    if chosen < index {
        assert(text[chosen] != wanted);
    }
    if index < chosen {
        assert(text[index] != wanted);
    }
}

/// The pieces of `text` between the occurrences of `separator`: one more
/// piece than there are separators, empty pieces included.
pub open spec fn split(text: Seq<char>, separator: char) -> Seq<Seq<char>>
    decreases text.len(),
{
    match first_index(text, separator) {
        Some(i) => if 0 <= i < text.len() {
            seq![text.subrange(0, i)] + split(text.subrange(i + 1, text.len() as int), separator)
        } else {
            seq![text]
        },
        None => seq![text],
    }
}

/// The first place at or after `start` where `wanted` stands in `text`.
pub fn find_char(text: &str, start: usize, wanted: char) -> (place: Option<usize>)
    requires
        start <= text@.len(),
    ensures
        match place {
            Some(i) => start <= i < text@.len() && first_index(
                text@.subrange(start as int, text@.len() as int),
                wanted,
            ) == Some(i - start),
            None => first_index(text@.subrange(start as int, text@.len() as int), wanted) is None,
        },
{
    let len = text.unicode_len();
    let ghost rest = text@.subrange(start as int, len as int);
    let mut i: usize = start;
    while i < len
        invariant
            start <= i <= len,
            len == text@.len(),
            rest == text@.subrange(start as int, len as int),
            forall|j: int| 0 <= j < i - start ==> rest[j] != wanted,
        decreases len - i,
    {
        if text.get_char(i) == wanted {
            proof {
                assert(rest[i - start] == wanted);
                lemma_first_index_found(rest, wanted, i - start);
            }
            return Some(i);
        }
        i += 1;
    }
    proof {
        if exists|k: int| first_char_at(rest, wanted, k) {
            let k = choose|k: int| first_char_at(rest, wanted, k);
            assert(rest[k] != wanted);
        }
    }
    None
}

/// Whether two texts are the same.
pub fn same_text(left: &str, right: &str) -> (same: bool)
    ensures
        same == (left@ == right@),
{
    let a = left.to_owned();
    let b = right.to_owned();
    a == b
}

/// Whether `wanted` stands in `text`.
pub fn contains_char(text: &str, wanted: char) -> (found: bool)
    ensures
        found == first_index(text@, wanted).is_some(),
{
    assert(text@.subrange(0, text@.len() as int) =~= text@);
    find_char(text, 0, wanted).is_some()
}

/// The pieces of `text` from `start` on, between the occurrences of `separator`.
pub fn split_from(text: &str, start: usize, separator: char) -> (pieces: Vec<String>)
    requires
        start <= text@.len(),
    ensures
        strings_view(pieces@) == split(
            text@.subrange(start as int, text@.len() as int),
            separator,
        ),
    decreases text@.len() - start,
{
    let len = text.unicode_len();
    let ghost rest = text@.subrange(start as int, len as int);
    match find_char(text, start, separator) {
        Some(i) => {
            let piece = text.substring_char(start, i).to_string();
            let mut pieces = split_from(text, i + 1, separator);
            let ghost tail = pieces@;
            pieces.insert(0, piece);
            proof {
                assert(rest.subrange(0, i - start) =~= text@.subrange(start as int, i as int));
                assert(rest.subrange(i - start + 1, rest.len() as int) =~= text@.subrange(
                    i + 1,
                    len as int,
                ));
                assert(strings_view(pieces@) =~= seq![piece@] + strings_view(tail));
            }
            pieces
        },
        None => {
            let piece = text.substring_char(start, len).to_string();
            let mut pieces: Vec<String> = Vec::new();
            pieces.push(piece);
            assert(strings_view(pieces@) =~= seq![rest]);
            pieces
        },
    }
}

/// A copy of a list of strings.
pub fn clone_strings(strings: &Vec<String>) -> (copy: Vec<String>)
    ensures
        strings_view(copy@) == strings_view(strings@),
{
    let mut copy: Vec<String> = Vec::new();
    let mut i: usize = 0;
    while i < strings.len()
        invariant
            i <= strings.len(),
            copy.len() == i,
            forall|j: int| 0 <= j < i ==> copy[j]@ == strings[j]@,
        decreases strings.len() - i,
    {
        copy.push(strings[i].clone());
        i += 1;
    }
    assert(strings_view(copy@) =~= strings_view(strings@));
    copy
}

/// Whether `c` is white space, as Unicode's `White_Space` property has it.
pub open spec fn is_white(c: char) -> bool {
    let code = c as u32;
    ||| 0x09 <= code <= 0x0d
    ||| code == 0x20
    ||| code == 0x85
    ||| code == 0xa0
    ||| code == 0x1680
    ||| 0x2000 <= code <= 0x200a
    ||| code == 0x2028
    ||| code == 0x2029
    ||| code == 0x202f
    ||| code == 0x205f
    ||| code == 0x3000
}

/// Whether a text holds nothing but white space.
pub open spec fn blank(text: Seq<char>) -> bool {
    forall|i: int| 0 <= i < text.len() ==> is_white(#[trigger] text[i])
}

/// Whether `c` is white space.
pub fn is_white_char(c: char) -> (white: bool)
    ensures
        white == is_white(c),
{
    let code: u32 = c as u32;
    (0x09 <= code && code <= 0x0d) || code == 0x20 || code == 0x85 || code == 0xa0 || code
        == 0x1680 || (0x2000 <= code && code <= 0x200a) || code == 0x2028 || code == 0x2029
        || code == 0x202f || code == 0x205f || code == 0x3000
}

/// Whether a text holds nothing but white space.
pub fn is_blank(text: &str) -> (empty: bool)
    ensures
        empty == blank(text@),
{
    let len = text.unicode_len();
    let mut i: usize = 0;
    while i < len
        invariant
            i <= len,
            len == text@.len(),
            forall|j: int| 0 <= j < i ==> is_white(#[trigger] text@[j]),
        decreases len - i,
    {
        if !is_white_char(text.get_char(i)) {
            return false;
        }
        i += 1;
    }
    true
}

/// `index` is the last place in `text` where `wanted` stands.
pub open spec fn last_char_at(text: Seq<char>, wanted: char, index: int) -> bool {
    &&& 0 <= index < text.len()
    &&& text[index] == wanted
    &&& forall|j: int| index < j < text.len() ==> text[j] != wanted
}

/// The last place in `text` where `wanted` stands, if it stands anywhere.
pub open spec fn last_index(text: Seq<char>, wanted: char) -> Option<int> {
    if exists|i: int| last_char_at(text, wanted, i) {
        Some(choose|i: int| last_char_at(text, wanted, i))
    } else {
        None
    }
}

/// A character that has a last place has exactly that one.
pub proof fn lemma_last_index_found(text: Seq<char>, wanted: char, index: int)
    requires
        last_char_at(text, wanted, index),
    ensures
        last_index(text, wanted) == Some(index),
{
    let chosen = choose|i: int| last_char_at(text, wanted, i);
    assert(last_char_at(text, wanted, chosen));
    if chosen < index {
        assert(text[index] != wanted);
    }
    if index < chosen {
        assert(text[chosen] != wanted);
    }
}

/// The last place in `text` where `wanted` stands.
pub fn find_last_char(text: &str, wanted: char) -> (place: Option<usize>)
    ensures
        match place {
            Some(i) => i < text@.len() && last_index(text@, wanted) == Some(i as int),
            None => last_index(text@, wanted) is None,
        },
{
    let len = text.unicode_len();
    let mut i: usize = len;
    while i > 0
        invariant
            i <= len,
            len == text@.len(),
            forall|j: int| i <= j < len ==> text@[j] != wanted,
        decreases i,
    {
        i -= 1;
        if text.get_char(i) == wanted {
            proof {
                lemma_last_index_found(text@, wanted, i as int);
            }
            return Some(i);
        }
    }
    proof {
        if exists|k: int| last_char_at(text@, wanted, k) {
            let k = choose|k: int| last_char_at(text@, wanted, k);
            assert(text@[k] != wanted);
        }
    }
    None
}

/// Whether a path is absolute: it begins with `/`.
pub open spec fn absolute(path: Seq<char>) -> bool {
    path.len() > 0 && path[0] == '/'
}

/// Whether a path is absolute.
pub fn is_absolute(path: &str) -> (yes: bool)
    ensures
        yes == absolute(path@),
{
    path.unicode_len() > 0 && path.get_char(0) == '/'
}

/// The directory that holds the file at `path`: what stands before the last
/// `/` of the path, or `/` itself for a file right below it. A path without
/// any `/` names no directory, and gives the empty text.
pub open spec fn directory_of(path: Seq<char>) -> Seq<char> {
    match last_index(path, '/') {
        None => Seq::empty(),
        Some(i) => if i == 0 {
            seq!['/']
        } else {
            path.subrange(0, i)
        },
    }
}

/// The directory that holds a file with an absolute path is absolute.
pub proof fn lemma_directory_is_absolute(path: Seq<char>)
    requires
        absolute(path),
    ensures
        absolute(directory_of(path)),
        last_index(path, '/') is Some,
{
    if exists|i: int| last_char_at(path, '/', i) {
        let i = choose|i: int| last_char_at(path, '/', i);
        if i > 0 {
            assert(path.subrange(0, i)[0] == path[0]);
        }
    } else {
        lemma_char_somewhere_has_last(path, '/', 0);
    }
}

/// A character that stands somewhere has a last place.
pub proof fn lemma_char_somewhere_has_last(text: Seq<char>, wanted: char, place: int)
    requires
        0 <= place < text.len(),
        text[place] == wanted,
    ensures
        exists|i: int| last_char_at(text, wanted, i),
    decreases text.len() - place,
{
    if exists|j: int| place < j < text.len() && text[j] == wanted {
        let j = choose|j: int| place < j < text.len() && text[j] == wanted;
        lemma_char_somewhere_has_last(text, wanted, j);
    } else {
        assert(last_char_at(text, wanted, place));
    }
}

/// The directory that holds the file at `path`.
pub fn parent_directory(path: &str) -> (directory: String)
    ensures
        directory@ == directory_of(path@),
{
    match find_last_char(path, '/') {
        None => String::new(),
        Some(i) => {
            if i == 0 {
                proof {
                    reveal_strlit("/");
                }
                let root = String::from_str("/");
                assert(root@ =~= seq!['/']);
                root
            } else {
                path.substring_char(0, i).to_string()
            }
        },
    }
}


/// The digit that stands for a number below ten.
pub open spec fn digit(value: nat) -> Seq<char> {
    if value == 0 {
        "0"@
    } else if value == 1 {
        "1"@
    } else if value == 2 {
        "2"@
    } else if value == 3 {
        "3"@
    } else if value == 4 {
        "4"@
    } else if value == 5 {
        "5"@
    } else if value == 6 {
        "6"@
    } else if value == 7 {
        "7"@
    } else if value == 8 {
        "8"@
    } else {
        "9"@
    }
}

/// A number written in decimal digits, without leading zeros.
pub open spec fn decimal(value: nat) -> Seq<char>
    decreases value,
{
    if value < 10 {
        digit(value)
    } else {
        decimal(value / 10) + digit(value % 10)
    }
}

/// An integer written in decimal digits, with `-` before a negative one.
pub open spec fn integer_digits(value: int) -> Seq<char> {
    if value >= 0 {
        decimal(value as nat)
    } else {
        "-"@ + decimal((-value) as nat)
    }
}

/// The digit that stands for a number below ten.
fn digit_text(value: u64) -> (text: &'static str)
    requires
        value < 10,
    ensures
        text@ == digit(value as nat),
{
    if value == 0 {
        "0"
    } else if value == 1 {
        "1"
    } else if value == 2 {
        "2"
    } else if value == 3 {
        "3"
    } else if value == 4 {
        "4"
    } else if value == 5 {
        "5"
    } else if value == 6 {
        "6"
    } else if value == 7 {
        "7"
    } else if value == 8 {
        "8"
    } else {
        "9"
    }
}

/// A number written in decimal digits.
pub fn decimal_text(value: u64) -> (text: String)
    ensures
        text@ == decimal(value as nat),
    decreases value,
{
    if value < 10 {
        String::from_str(digit_text(value))
    } else {
        let mut text = decimal_text(value / 10);
        text.append(digit_text(value % 10));
        text
    }
}

/// An integer written in decimal digits, with `-` before a negative one.
pub fn integer_text(value: i64) -> (text: String)
    ensures
        text@ == integer_digits(value as int),
{
    if value >= 0 {
        decimal_text(value as u64)
    } else {
        let magnitude: u64 = if value == i64::MIN {
            9223372036854775808u64
        } else {
            (-value) as u64
        };
        let mut text = String::from_str("-");
        text.append(decimal_text(magnitude).as_str());
        text
    }
}

} // verus!
