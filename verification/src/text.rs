//! Small verified operations on text, stated over sequences of characters.

use vstd::prelude::*;
use vstd::string::*;

verus! {

/// Whether `text` ends with `suffix`.
pub open spec fn has_suffix(text: Seq<char>, suffix: Seq<char>) -> bool {
    suffix.len() <= text.len() && text.subrange(text.len() - suffix.len(), text.len() as int)
        == suffix
}

/// Whether `index` is where `mark` first stands in `text`.
pub open spec fn is_first_index_of(text: Seq<char>, mark: char, index: int) -> bool {
    &&& 0 <= index < text.len()
    &&& text[index] == mark
    &&& forall|j: int| 0 <= j < index ==> text[j] != mark
}

/// What stands in `text` before the first `mark`; `None` where `text` holds
/// no `mark`.
pub open spec fn before_first(text: Seq<char>, mark: char) -> Option<Seq<char>> {
    if exists|i: int| is_first_index_of(text, mark, i) {
        Some(text.subrange(0, choose|i: int| is_first_index_of(text, mark, i)))
    } else {
        None
    }
}

/// A mark stands first at one place only.
pub proof fn lemma_first_index_unique(text: Seq<char>, mark: char, i: int, k: int)
    requires
        is_first_index_of(text, mark, i),
        is_first_index_of(text, mark, k),
    ensures
        i == k,
{
    if i < k {
        assert(text[i] != mark);
    } else if k < i {
        assert(text[k] != mark);
    }
}

/// The character of a decimal digit.
pub open spec fn digit_char(digit: int) -> char {
    if digit == 0 {
        '0'
    } else if digit == 1 {
        '1'
    } else if digit == 2 {
        '2'
    } else if digit == 3 {
        '3'
    } else if digit == 4 {
        '4'
    } else if digit == 5 {
        '5'
    } else if digit == 6 {
        '6'
    } else if digit == 7 {
        '7'
    } else if digit == 8 {
        '8'
    } else {
        '9'
    }
}

/// A number written in decimal, without leading zeros.
pub open spec fn decimal(n: nat) -> Seq<char>
    decreases n,
{
    if n < 10 {
        seq![digit_char(n as int)]
    } else {
        decimal(n / 10).push(digit_char((n % 10) as int))
    }
}

/// A number written in decimal with a minus sign where it is negative.
pub open spec fn signed_decimal(n: int) -> Seq<char> {
    if n < 0 {
        "-"@ + decimal((-n) as nat)
    } else {
        decimal(n as nat)
    }
}

/// The fields of a form or a query as name and value, by their characters.
pub open spec fn fields_of(form: Seq<(String, String)>) -> Seq<(Seq<char>, Seq<char>)> {
    Seq::new(form.len(), |i: int| (form[i].0@, form[i].1@))
}

/// The text of one decimal digit.
fn digit_text(digit: u64) -> (text: &'static str)
    requires
        digit < 10,
    ensures
        text@ == seq![digit_char(digit as int)],
{
    proof {
        reveal_strlit("0");
        reveal_strlit("1");
        reveal_strlit("2");
        reveal_strlit("3");
        reveal_strlit("4");
        reveal_strlit("5");
        reveal_strlit("6");
        reveal_strlit("7");
        reveal_strlit("8");
        reveal_strlit("9");
    }
    let text = if digit == 0 {
        "0"
    } else if digit == 1 {
        "1"
    } else if digit == 2 {
        "2"
    } else if digit == 3 {
        "3"
    } else if digit == 4 {
        "4"
    } else if digit == 5 {
        "5"
    } else if digit == 6 {
        "6"
    } else if digit == 7 {
        "7"
    } else if digit == 8 {
        "8"
    } else {
        "9"
    };
    assert(text@ =~= seq![digit_char(digit as int)]);
    text
}

/// Writes a number in decimal, without leading zeros.
pub fn decimal_text(n: u64) -> (text: String)
    ensures
        text@ == decimal(n as nat),
    decreases n,
{
    if n < 10 {
        String::from_str(digit_text(n))
    } else {
        let head = decimal_text(n / 10);
        let text = head.concat(digit_text(n % 10));
        assert(text@ =~= decimal((n / 10) as nat).push(digit_char((n % 10) as int)));
        text
    }
}

/// Writes a number in decimal, with a minus sign where it is negative.
pub fn signed_decimal_text(n: i64) -> (text: String)
    ensures
        text@ == signed_decimal(n as int),
{
    if n < 0 {
        let magnitude: u64 = if n == i64::MIN {
            9_223_372_036_854_775_808
        } else {
            (-n) as u64
        };
        let digits = decimal_text(magnitude);
        String::from_str("-").concat(digits.as_str())
    } else {
        decimal_text(n as u64)
    }
}

/// One field of a form or a query.
pub fn field(name: &str, value: &str) -> (pair: (String, String))
    ensures
        pair.0@ == name@,
        pair.1@ == value@,
{
    (String::from_str(name), String::from_str(value))
}

/// Whether two texts hold the same characters.
pub fn same_text(a: &str, b: &str) -> (same: bool)
    ensures
        same == (a@ == b@),
{
    let left = String::from_str(a);
    let right = String::from_str(b);
    left == right
}

/// The part of `text` before the first `mark`, as `str::split_once` would
/// split it; `None` where `text` holds no `mark`.
pub fn split_before(text: &str, mark: char) -> (head: Option<String>)
    ensures
        before_first(text@, mark) == match head {
            Some(h) => Some(h@),
            None => None,
        },
{
    let n = text.unicode_len();
    let mut i: usize = 0;
    while i < n
        invariant
            i <= n,
            n == text@.len(),
            forall|j: int| 0 <= j < i ==> text@[j] != mark,
        decreases n - i,
    {
        if text.get_char(i) == mark {
            proof {
                assert(is_first_index_of(text@, mark, i as int));
                let k = choose|k: int| is_first_index_of(text@, mark, k);
                lemma_first_index_unique(text@, mark, i as int, k);
            }
            return Some(String::from_str(text.substring_char(0, i)));
        }
        i += 1;
    }
    None
}

/// Whether `text` ends with `suffix`.
pub fn ends_with(text: &str, suffix: &str) -> (found: bool)
    ensures
        found == has_suffix(text@, suffix@),
{
    let n = text.unicode_len();
    let m = suffix.unicode_len();
    if m > n {
        return false;
    }
    same_text(text.substring_char(n - m, n), suffix)
}

} // verus!
