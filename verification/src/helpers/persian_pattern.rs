//! Helper for building ranges of Persian letters.
//!
//! The Unicode code points of Persian letters are not ordered like the
//! alphabet, so a character range over them is easy to get wrong. The table
//! here lists the letters in alphabetical order together with the code-point
//! text each letter contributes to a pattern; [`create_persian_pattern`]
//! concatenates the contributions of every letter between two given ones.

use vstd::prelude::*;

verus! {

/// The letter at position `i` of the alphabetically ordered table.
pub open spec fn persian_letter(i: int) -> Seq<char> {
    if i == 0 {
        "\u{0621}"@
    } else if i == 1 {
        "\u{0622}"@
    } else if i == 2 {
        "\u{0623}"@
    } else if i == 3 {
        "\u{0624}"@
    } else if i == 4 {
        "\u{0625}"@
    } else if i == 5 {
        "\u{0626}"@
    } else if i == 6 {
        "\u{0627}"@
    } else if i == 7 {
        "\u{0628}"@
    } else if i == 8 {
        "\u{067E}"@
    } else if i == 9 {
        "\u{062A}"@
    } else if i == 10 {
        "\u{062B}"@
    } else if i == 11 {
        "\u{062C}"@
    } else if i == 12 {
        "\u{0686}"@
    } else if i == 13 {
        "\u{062D}"@
    } else if i == 14 {
        "\u{062E}"@
    } else if i == 15 {
        "\u{062F}"@
    } else if i == 16 {
        "\u{0630}"@
    } else if i == 17 {
        "\u{0631}"@
    } else if i == 18 {
        "\u{0632}"@
    } else if i == 19 {
        "\u{0698}"@
    } else if i == 20 {
        "\u{0633}"@
    } else if i == 21 {
        "\u{0634}"@
    } else if i == 22 {
        "\u{0635}"@
    } else if i == 23 {
        "\u{0636}"@
    } else if i == 24 {
        "\u{0637}"@
    } else if i == 25 {
        "\u{0638}"@
    } else if i == 26 {
        "\u{0639}"@
    } else if i == 27 {
        "\u{063A}"@
    } else if i == 28 {
        "\u{0641}"@
    } else if i == 29 {
        "\u{0642}"@
    } else if i == 30 {
        "\u{06A9}"@
    } else if i == 31 {
        "\u{06AF}"@
    } else if i == 32 {
        "\u{0644}"@
    } else if i == 33 {
        "\u{0645}"@
    } else if i == 34 {
        "\u{0646}"@
    } else if i == 35 {
        "\u{0648}"@
    } else if i == 36 {
        "\u{0647}"@
    } else if i == 37 {
        "\u{06CC}"@
    } else if i == 38 {
        "\u{064E}"@
    } else if i == 39 {
        "\u{064F}"@
    } else if i == 40 {
        "\u{0650}"@
    } else if i == 41 {
        "\u{0651}"@
    } else {
        "\u{0655}"@
    }
}

/// The pattern text contributed by the letter at position `i` of the
/// table.
pub open spec fn persian_index(i: int) -> Seq<char> {
    if i == 0 {
        "\u{0621}}"@
    } else if i == 1 {
        "\u{0622}"@
    } else if i == 2 {
        "\u{0623}"@
    } else if i == 3 {
        "\u{0624}"@
    } else if i == 4 {
        "\u{0625}"@
    } else if i == 5 {
        "\u{0626}"@
    } else if i == 6 {
        "\u{0627}"@
    } else if i == 7 {
        "\u{0628}"@
    } else if i == 8 {
        "\u{067E}"@
    } else if i == 9 {
        "\u{062A}"@
    } else if i == 10 {
        "\u{062B}"@
    } else if i == 11 {
        "\u{062C}"@
    } else if i == 12 {
        "\u{0686}"@
    } else if i == 13 {
        "\u{062D}"@
    } else if i == 14 {
        "\u{062E}"@
    } else if i == 15 {
        "\u{062F}"@
    } else if i == 16 {
        "\u{0630}"@
    } else if i == 17 {
        "\u{0631}"@
    } else if i == 18 {
        "\u{0632}"@
    } else if i == 19 {
        "\u{0698}"@
    } else if i == 20 {
        "\u{0633}"@
    } else if i == 21 {
        "\u{0634}"@
    } else if i == 22 {
        "\u{0635}"@
    } else if i == 23 {
        "\u{0636}"@
    } else if i == 24 {
        "\u{0637}"@
    } else if i == 25 {
        "\u{0638}"@
    } else if i == 26 {
        "\u{0639}"@
    } else if i == 27 {
        "\u{063A}"@
    } else if i == 28 {
        "\u{0641}"@
    } else if i == 29 {
        "\u{0642}"@
    } else if i == 30 {
        "\u{06A9}"@
    } else if i == 31 {
        "\u{06AF}"@
    } else if i == 32 {
        "\u{0644}"@
    } else if i == 33 {
        "\u{0645}"@
    } else if i == 34 {
        "\u{0646}"@
    } else if i == 35 {
        "\u{0648}"@
    } else if i == 36 {
        "\u{0647}\u{06BE}"@
    } else if i == 37 {
        "\u{06CC}"@
    } else if i == 38 {
        "\u{064E}"@
    } else if i == 39 {
        "\u{064F}"@
    } else if i == 40 {
        "\u{0650}"@
    } else if i == 41 {
        "\u{0651}"@
    } else {
        "\u{0655}"@
    }
}

/// The letter at position `i` of the table.
fn letter_at(i: usize) -> (result: &'static str)
    requires
        i < 43,
    ensures
        result@ == persian_letter(i as int),
{
    match i {
        0 => "\u{0621}",
        1 => "\u{0622}",
        2 => "\u{0623}",
        3 => "\u{0624}",
        4 => "\u{0625}",
        5 => "\u{0626}",
        6 => "\u{0627}",
        7 => "\u{0628}",
        8 => "\u{067E}",
        9 => "\u{062A}",
        10 => "\u{062B}",
        11 => "\u{062C}",
        12 => "\u{0686}",
        13 => "\u{062D}",
        14 => "\u{062E}",
        15 => "\u{062F}",
        16 => "\u{0630}",
        17 => "\u{0631}",
        18 => "\u{0632}",
        19 => "\u{0698}",
        20 => "\u{0633}",
        21 => "\u{0634}",
        22 => "\u{0635}",
        23 => "\u{0636}",
        24 => "\u{0637}",
        25 => "\u{0638}",
        26 => "\u{0639}",
        27 => "\u{063A}",
        28 => "\u{0641}",
        29 => "\u{0642}",
        30 => "\u{06A9}",
        31 => "\u{06AF}",
        32 => "\u{0644}",
        33 => "\u{0645}",
        34 => "\u{0646}",
        35 => "\u{0648}",
        36 => "\u{0647}",
        37 => "\u{06CC}",
        38 => "\u{064E}",
        39 => "\u{064F}",
        40 => "\u{0650}",
        41 => "\u{0651}",
        _ => "\u{0655}",
    }
}

/// The pattern text contributed by the letter at position `i`.
fn index_at(i: usize) -> (result: &'static str)
    requires
        i < 43,
    ensures
        result@ == persian_index(i as int),
{
    match i {
        0 => "\u{0621}}",
        1 => "\u{0622}",
        2 => "\u{0623}",
        3 => "\u{0624}",
        4 => "\u{0625}",
        5 => "\u{0626}",
        6 => "\u{0627}",
        7 => "\u{0628}",
        8 => "\u{067E}",
        9 => "\u{062A}",
        10 => "\u{062B}",
        11 => "\u{062C}",
        12 => "\u{0686}",
        13 => "\u{062D}",
        14 => "\u{062E}",
        15 => "\u{062F}",
        16 => "\u{0630}",
        17 => "\u{0631}",
        18 => "\u{0632}",
        19 => "\u{0698}",
        20 => "\u{0633}",
        21 => "\u{0634}",
        22 => "\u{0635}",
        23 => "\u{0636}",
        24 => "\u{0637}",
        25 => "\u{0638}",
        26 => "\u{0639}",
        27 => "\u{063A}",
        28 => "\u{0641}",
        29 => "\u{0642}",
        30 => "\u{06A9}",
        31 => "\u{06AF}",
        32 => "\u{0644}",
        33 => "\u{0645}",
        34 => "\u{0646}",
        35 => "\u{0648}",
        36 => "\u{0647}\u{06BE}",
        37 => "\u{06CC}",
        38 => "\u{064E}",
        39 => "\u{064F}",
        40 => "\u{0650}",
        41 => "\u{0651}",
        _ => "\u{0655}",
    }
}

/// The position of the first table entry from `i` on whose letter is
/// `target`, if any.
pub open spec fn find_letter_from(target: Seq<char>, i: int) -> Option<int>
    decreases 43 - i,
{
    if i < 0 || i >= 43 {
        None
    } else if persian_letter(i) == target {
        Some(i)
    } else {
        find_letter_from(target, i + 1)
    }
}

/// The position of `target` in the alphabetically ordered table, if any.
pub open spec fn find_letter(target: Seq<char>) -> Option<int> {
    find_letter_from(target, 0)
}

/// The concatenated pattern text of the letters at positions `lo` up to but
/// not including `hi`.
pub open spec fn indices_concat(lo: int, hi: int) -> Seq<char>
    decreases hi - lo,
{
    if lo >= hi {
        Seq::<char>::empty()
    } else {
        indices_concat(lo, hi - 1) + persian_index(hi - 1)
    }
}

/// The message for a letter that is not in the table.
pub open spec fn invalid_letter_chars(letter: Seq<char>) -> Seq<char> {
    "letter '"@ + letter + "' is not valid"@
}

/// The message for a pair of letters given in reverse alphabetical order.
pub open spec fn wrong_order_chars(from: Seq<char>, to: Seq<char>) -> Seq<char> {
    "letter '"@ + from + "' is after letter '"@ + to + "', consider swapping them"@
}

fn position_of(target: &str) -> (result: Option<usize>)
    ensures
        (match result {
            Some(i) => i < 43 && find_letter(target@) == Some(i as int),
            None => find_letter(target@) is None,
        }),
{
    let target_owned = target.to_owned();
    let mut i: usize = 0;
    while i < 43
        invariant
            i <= 43,
            find_letter(target@) == find_letter_from(target@, i as int),
            target_owned@ == target@,
        decreases 43 - i,
    {
        if letter_at(i).to_owned() == target_owned {
            return Some(i);
        }
        i = i + 1;
    }
    None
}

fn invalid_letter_message(letter: &str) -> (result: String)
    ensures
        result@ == invalid_letter_chars(letter@),
{
    let mut message = "letter '".to_owned();
    message.append(letter);
    message.append("' is not valid");
    proof {
        assert(message@ =~= invalid_letter_chars(letter@));
    }
    message
}

/// Builds the pattern text covering every letter from `from` to `to` in
/// alphabetical table order, inclusive.
///
/// Both arguments must be letters of the table and `from` must not come
/// after `to`; otherwise the matching error message is returned and no
/// pattern text is produced.
pub fn create_persian_pattern<'a>(from: &'a str, to: &'a str) -> (result: Result<String, String>)
    ensures
        find_letter(from@) is None ==> (result matches Err(message) && message@
            == invalid_letter_chars(from@)),
        find_letter(from@) is Some && find_letter(to@) is None ==> (result matches Err(message)
            && message@ == invalid_letter_chars(to@)),
        (match (find_letter(from@), find_letter(to@)) {
            (Some(from_position), Some(to_position)) => {
                if from_position > to_position {
                    result matches Err(message) && message@ == wrong_order_chars(from@, to@)
                } else {
                    result matches Ok(pattern) && pattern@ == indices_concat(
                        from_position,
                        to_position + 1,
                    )
                }
            },
            _ => true,
        }),
{
    let found_from_idx: usize = match position_of(from) {
        Some(i) => i,
        None => {
            return Err(invalid_letter_message(from));
        },
    };
    let found_to_idx: usize = match position_of(to) {
        Some(i) => i,
        None => {
            return Err(invalid_letter_message(to));
        },
    };
    if found_from_idx > found_to_idx {
        let mut message = "letter '".to_owned();
        message.append(from);
        message.append("' is after letter '");
        message.append(to);
        message.append("', consider swapping them");
        proof {
            assert(message@ =~= wrong_order_chars(from@, to@));
        }
        Err(message)
    } else {
        let mut pattern = String::new();
        let mut i: usize = found_from_idx;
        while i <= found_to_idx
            invariant
                found_from_idx <= i <= found_to_idx + 1,
                found_to_idx < 43,
                pattern@ == indices_concat(found_from_idx as int, i as int),
            decreases found_to_idx + 1 - i,
        {
            pattern.append(index_at(i));
            i = i + 1;
        }
        Ok(pattern)
    }
}

} // verus!
