//! Date and time formats: the directives this crate understands, and the
//! regular expression that recognizes the text a format describes.
//!
//! A format is a string in the `strftime` style, such as `%Y-%m-%d %H:%M:%S`.
//! It is read into a sequence of tokens, each either a literal character or a
//! field of a known shape. The recognizer of a format is the concatenation of
//! the expressions of its tokens; it matches no more than the outline of a
//! timestamp, and whether the matched text is a real date is for the parser to
//! say.

use vstd::prelude::*;
use vstd::string::*;

verus! {

/// The shapes of text that a field of a format can stand for.
#[derive(Clone, Copy, Debug, PartialEq, Eq, Structural)]
pub enum Shape {
    /// `%Y`: a year of four digits.
    Year,
    /// `%C %y %m %d %H %I %M %S`: two digits.
    TwoDigits,
    /// `%e %k %l`: two digits, the first of which may be a blank.
    PaddedTwoDigits,
    /// `%j %3f`: three digits.
    ThreeDigits,
    /// `%6f`: six digits.
    SixDigits,
    /// `%9f`: nine digits.
    NineDigits,
    /// `%a %b %h`: a name of three letters.
    ShortName,
    /// `%A %B`: a name of three to nine letters.
    LongName,
    /// `%p %P`: `AM` or `PM`, in either case.
    Meridiem,
    /// `%f`: a count of nanoseconds, one to nine digits.
    Nanoseconds,
    /// `%.f`: a dot and digits, or nothing.
    Fraction,
    /// `%.3f`: a dot and three digits, or nothing.
    FractionOfThree,
    /// `%.6f`: a dot and six digits, or nothing.
    FractionOfSix,
    /// `%.9f`: a dot and nine digits, or nothing.
    FractionOfNine,
    /// `%z %:z`: a signed offset from UTC in hours and minutes.
    Offset,
    /// `%#z`: an offset whose minutes may be missing, or the letter `Z`.
    OffsetOrZulu,
    /// `%Z`: the name of a time zone.
    ZoneName,
    /// `%s`: seconds since the epoch.
    Epoch,
    /// `%D`: month, day and year of two digits each, with slashes.
    SlashedDate,
    /// `%F`: year, month and day with dashes.
    DashedDate,
    /// `%T`: hour, minute and second with colons.
    ClockTime,
    /// `%R`: hour and minute with a colon.
    ShortClockTime,
}

/// One piece of a format.
#[derive(Clone, Copy, Debug, PartialEq, Eq, Structural)]
pub enum Token {
    /// A character that stands for itself.
    Literal(char),
    /// A field of the timestamp.
    Field(Shape),
}

/// The shape that the directive `%c` stands for, for the directives of one
/// letter.
pub open spec fn letter_shape(c: char) -> Option<Shape> {
    if c == 'Y' {
        Some(Shape::Year)
    } else if c == 'C' || c == 'y' || c == 'm' || c == 'd' || c == 'H' || c == 'I' || c == 'M' || c
        == 'S' {
        Some(Shape::TwoDigits)
    } else if c == 'e' || c == 'k' || c == 'l' {
        Some(Shape::PaddedTwoDigits)
    } else if c == 'j' {
        Some(Shape::ThreeDigits)
    } else if c == 'a' || c == 'b' || c == 'h' {
        Some(Shape::ShortName)
    } else if c == 'A' || c == 'B' {
        Some(Shape::LongName)
    } else if c == 'p' || c == 'P' {
        Some(Shape::Meridiem)
    } else if c == 'f' {
        Some(Shape::Nanoseconds)
    } else if c == 'z' {
        Some(Shape::Offset)
    } else if c == 'Z' {
        Some(Shape::ZoneName)
    } else if c == 's' {
        Some(Shape::Epoch)
    } else if c == 'D' {
        Some(Shape::SlashedDate)
    } else if c == 'F' {
        Some(Shape::DashedDate)
    } else if c == 'T' {
        Some(Shape::ClockTime)
    } else if c == 'R' {
        Some(Shape::ShortClockTime)
    } else {
        None
    }
}

/// The shape of `%3f`, `%6f` and `%9f`, by their digit.
pub open spec fn digits_shape(c: char) -> Shape {
    if c == '3' {
        Shape::ThreeDigits
    } else if c == '6' {
        Shape::SixDigits
    } else {
        Shape::NineDigits
    }
}

/// The shape of `%.3f`, `%.6f` and `%.9f`, by their digit.
pub open spec fn fraction_shape(c: char) -> Shape {
    if c == '3' {
        Shape::FractionOfThree
    } else if c == '6' {
        Shape::FractionOfSix
    } else {
        Shape::FractionOfNine
    }
}

/// Whether `c` is one of the digits that may stand in front of `f`.
pub open spec fn is_precision(c: char) -> bool {
    c == '3' || c == '6' || c == '9'
}

/// The token that starts at position `i` of `format`, with the number of
/// characters it takes up there; `None` where a `%` is followed by nothing
/// this crate understands.
pub open spec fn token_at(format: Seq<char>, i: int) -> Option<(Token, int)>
    recommends
        0 <= i < format.len(),
{
    if format[i] != '%' {
        Some((Token::Literal(format[i]), 1))
    } else if i + 1 >= format.len() {
        None
    } else {
        let c = format[i + 1];
        if c == '%' {
            Some((Token::Literal('%'), 2))
        } else if c == 't' {
            Some((Token::Literal('\t'), 2))
        } else if c == 'n' {
            Some((Token::Literal('\n'), 2))
        } else if c == '.' {
            if i + 2 < format.len() && format[i + 2] == 'f' {
                Some((Token::Field(Shape::Fraction), 3))
            } else if i + 3 < format.len() && is_precision(format[i + 2]) && format[i + 3] == 'f' {
                Some((Token::Field(fraction_shape(format[i + 2])), 4))
            } else {
                None
            }
        } else if is_precision(c) {
            if i + 2 < format.len() && format[i + 2] == 'f' {
                Some((Token::Field(digits_shape(c)), 3))
            } else {
                None
            }
        } else if c == ':' || c == '#' {
            if i + 2 < format.len() && format[i + 2] == 'z' {
                Some((Token::Field(if c == ':' { Shape::Offset } else { Shape::OffsetOrZulu }), 3))
            } else {
                None
            }
        } else {
            match letter_shape(c) {
                Some(shape) => Some((Token::Field(shape), 2)),
                None => None,
            }
        }
    }
}

/// The tokens of `format` from position `i` to its end; `None` where one of
/// them is malformed.
pub open spec fn tokens_from(format: Seq<char>, i: int) -> Option<Seq<Token>>
    decreases format.len() - i,
{
    if i < 0 || i >= format.len() {
        Some(Seq::empty())
    } else {
        match token_at(format, i) {
            None => None,
            Some((token, width)) => if width < 1 {
                None
            } else {
                match tokens_from(format, i + width) {
                    None => None,
                    Some(rest) => Some(seq![token] + rest),
                }
            },
        }
    }
}

/// The tokens of a whole format; `None` for a malformed one.
pub open spec fn tokens(format: Seq<char>) -> Option<Seq<Token>> {
    tokens_from(format, 0)
}

/// The characters that mean something to the regular expression engine and
/// must be escaped to stand for themselves.
pub open spec fn is_meta(c: char) -> bool {
    c == '\\' || c == '.' || c == '+' || c == '*' || c == '?' || c == '(' || c == ')' || c == '|'
        || c == '[' || c == ']' || c == '{' || c == '}' || c == '^' || c == '$' || c == '#' || c
        == '&' || c == '-' || c == '~'
}

/// The expression that matches the character `c` and nothing else.
pub open spec fn literal_pattern(c: char) -> Seq<char> {
    if is_meta(c) {
        seq!['\\', c]
    } else {
        seq![c]
    }
}

/// The expression that matches the text of a field of the given shape.
pub open spec fn shape_pattern(shape: Shape) -> Seq<char> {
    match shape {
        Shape::Year => "[0-9]{4}"@,
        Shape::TwoDigits => "[0-9]{2}"@,
        Shape::PaddedTwoDigits => "[ 0-9][0-9]"@,
        Shape::ThreeDigits => "[0-9]{3}"@,
        Shape::SixDigits => "[0-9]{6}"@,
        Shape::NineDigits => "[0-9]{9}"@,
        Shape::ShortName => "[A-Za-z]{3}"@,
        Shape::LongName => "[A-Za-z]{3,9}"@,
        Shape::Meridiem => "[AaPp][Mm]"@,
        Shape::Nanoseconds => "[0-9]{1,9}"@,
        Shape::Fraction => "(?:\\.[0-9]+)?"@,
        Shape::FractionOfThree => "(?:\\.[0-9]{3})?"@,
        Shape::FractionOfSix => "(?:\\.[0-9]{6})?"@,
        Shape::FractionOfNine => "(?:\\.[0-9]{9})?"@,
        Shape::Offset => "[+-][0-9]{2}:?[0-9]{2}"@,
        Shape::OffsetOrZulu => "(?:[Zz]|[+-][0-9]{2}(?::?[0-9]{2})?)"@,
        Shape::ZoneName => "[A-Za-z0-9+-]+"@,
        Shape::Epoch => "[0-9]+"@,
        Shape::SlashedDate => "[0-9]{2}/[0-9]{2}/[0-9]{2}"@,
        Shape::DashedDate => "[0-9]{4}-[0-9]{2}-[0-9]{2}"@,
        Shape::ClockTime => "[0-9]{2}:[0-9]{2}:[0-9]{2}"@,
        Shape::ShortClockTime => "[0-9]{2}:[0-9]{2}"@,
    }
}

/// The expression of one token.
pub open spec fn token_pattern(token: Token) -> Seq<char> {
    match token {
        Token::Literal(c) => literal_pattern(c),
        Token::Field(shape) => shape_pattern(shape),
    }
}

/// The expression of a sequence of tokens: those of the tokens, one after
/// the other.
pub open spec fn recognizer(tokens: Seq<Token>) -> Seq<char>
    decreases tokens.len(),
{
    if tokens.len() == 0 {
        Seq::empty()
    } else {
        recognizer(tokens.drop_last()) + token_pattern(tokens.last())
    }
}

/// Whether the token is a field that holds an offset from UTC.
pub open spec fn is_offset(token: Token) -> bool {
    token == Token::Field(Shape::Offset) || token == Token::Field(Shape::OffsetOrZulu)
}

/// Whether text in this format says by itself how far it is from UTC.
pub open spec fn carries_offset(tokens: Seq<Token>) -> bool {
    exists|i: int| 0 <= i < tokens.len() && is_offset(#[trigger] tokens[i])
}

/// Whether the token can be written as well as read. An offset whose
/// minutes may be missing is for reading only.
pub open spec fn is_writable(token: Token) -> bool {
    token != Token::Field(Shape::OffsetOrZulu)
}

/// Whether a timestamp can be written in this format.
pub open spec fn writable(tokens: Seq<Token>) -> bool {
    forall|i: int| 0 <= i < tokens.len() ==> is_writable(#[trigger] tokens[i])
}

/// The characters of a text, in their order.
pub fn chars_of(text: &str) -> (list: Vec<char>)
    ensures
        list@ == text@,
{
    let mut list: Vec<char> = Vec::new();
    for c in it: text.chars()
        invariant
            it.seq() == text@,
            list@ == text@.take(it.index()),
    {
        list.push(c);
    }
    assert(text@.take(text@.len() as int) == text@);
    list
}

/// The shape of a one-letter directive.
pub fn shape_of_letter(c: char) -> (shape: Option<Shape>)
    ensures
        shape == letter_shape(c),
{
    if c == 'Y' {
        Some(Shape::Year)
    } else if c == 'C' || c == 'y' || c == 'm' || c == 'd' || c == 'H' || c == 'I' || c == 'M' || c
        == 'S' {
        Some(Shape::TwoDigits)
    } else if c == 'e' || c == 'k' || c == 'l' {
        Some(Shape::PaddedTwoDigits)
    } else if c == 'j' {
        Some(Shape::ThreeDigits)
    } else if c == 'a' || c == 'b' || c == 'h' {
        Some(Shape::ShortName)
    } else if c == 'A' || c == 'B' {
        Some(Shape::LongName)
    } else if c == 'p' || c == 'P' {
        Some(Shape::Meridiem)
    } else if c == 'f' {
        Some(Shape::Nanoseconds)
    } else if c == 'z' {
        Some(Shape::Offset)
    } else if c == 'Z' {
        Some(Shape::ZoneName)
    } else if c == 's' {
        Some(Shape::Epoch)
    } else if c == 'D' {
        Some(Shape::SlashedDate)
    } else if c == 'F' {
        Some(Shape::DashedDate)
    } else if c == 'T' {
        Some(Shape::ClockTime)
    } else if c == 'R' {
        Some(Shape::ShortClockTime)
    } else {
        None
    }
}

/// Reads the token that starts at position `i` of a format, given as its
/// characters.
pub fn read_token(format: &Vec<char>, i: usize) -> (found: Option<(Token, usize)>)
    requires
        i < format@.len(),
    ensures
        match found {
            Some((token, width)) => token_at(format@, i as int) == Some((token, width as int))
                && 1 <= width && i + width <= format@.len(),
            None => token_at(format@, i as int) is None,
        },
{
    let n = format.len();
    let first = format[i];
    if first != '%' {
        return Some((Token::Literal(first), 1));
    }
    if n - i < 2 {
        return None;
    }
    let c = format[i + 1];
    if c == '%' {
        Some((Token::Literal('%'), 2))
    } else if c == 't' {
        Some((Token::Literal('\t'), 2))
    } else if c == 'n' {
        Some((Token::Literal('\n'), 2))
    } else if c == '.' {
        if n - i >= 3 && format[i + 2] == 'f' {
            Some((Token::Field(Shape::Fraction), 3))
        } else if n - i >= 4 && format[i + 3] == 'f' {
            let digit = format[i + 2];
            if digit == '3' {
                Some((Token::Field(Shape::FractionOfThree), 4))
            } else if digit == '6' {
                Some((Token::Field(Shape::FractionOfSix), 4))
            } else if digit == '9' {
                Some((Token::Field(Shape::FractionOfNine), 4))
            } else {
                None
            }
        } else {
            None
        }
    } else if c == '3' || c == '6' || c == '9' {
        if n - i >= 3 && format[i + 2] == 'f' {
            let shape = if c == '3' {
                Shape::ThreeDigits
            } else if c == '6' {
                Shape::SixDigits
            } else {
                Shape::NineDigits
            };
            Some((Token::Field(shape), 3))
        } else {
            None
        }
    } else if c == ':' || c == '#' {
        if n - i >= 3 && format[i + 2] == 'z' {
            let shape = if c == ':' {
                Shape::Offset
            } else {
                Shape::OffsetOrZulu
            };
            Some((Token::Field(shape), 3))
        } else {
            None
        }
    } else {
        match shape_of_letter(c) {
            Some(shape) => Some((Token::Field(shape), 2)),
            None => None,
        }
    }
}

/// Reads a format into its tokens, or finds it malformed.
pub fn tokenize(format: &str) -> (found: Option<Vec<Token>>)
    ensures
        match found {
            Some(list) => tokens(format@) == Some(list@),
            None => tokens(format@) is None,
        },
{
    let chars = chars_of(format);
    let n = chars.len();
    let mut list: Vec<Token> = Vec::new();
    let mut i: usize = 0;
    while i < n
        invariant
            chars@ == format@,
            n == format@.len(),
            i <= n,
            tokens(format@) == (match tokens_from(format@, i as int) {
                Some(rest) => Some(list@ + rest),
                None => None::<Seq<Token>>,
            }),
        decreases n - i,
    {
        match read_token(&chars, i) {
            None => {
                return None;
            },
            Some((token, width)) => {
                proof {
                    let rest = tokens_from(format@, i + width);
                    if rest is Some {
                        assert(list@ + (seq![token] + rest->0) == list@.push(token) + rest->0);
                    }
                }
                list.push(token);
                i = i + width;
            },
        }
    }
    assert(list@ + Seq::<Token>::empty() == list@);
    Some(list)
}

/// Whether `c` must be escaped in a regular expression.
pub fn needs_escape(c: char) -> (yes: bool)
    ensures
        yes == is_meta(c),
{
    c == '\\' || c == '.' || c == '+' || c == '*' || c == '?' || c == '(' || c == ')' || c == '|'
        || c == '[' || c == ']' || c == '{' || c == '}' || c == '^' || c == '$' || c == '#' || c
        == '&' || c == '-' || c == '~'
}

/// The text of the expression for a field.
pub fn shape_text(shape: Shape) -> (text: &'static str)
    ensures
        text@ == shape_pattern(shape),
{
    match shape {
        Shape::Year => "[0-9]{4}",
        Shape::TwoDigits => "[0-9]{2}",
        Shape::PaddedTwoDigits => "[ 0-9][0-9]",
        Shape::ThreeDigits => "[0-9]{3}",
        Shape::SixDigits => "[0-9]{6}",
        Shape::NineDigits => "[0-9]{9}",
        Shape::ShortName => "[A-Za-z]{3}",
        Shape::LongName => "[A-Za-z]{3,9}",
        Shape::Meridiem => "[AaPp][Mm]",
        Shape::Nanoseconds => "[0-9]{1,9}",
        Shape::Fraction => "(?:\\.[0-9]+)?",
        Shape::FractionOfThree => "(?:\\.[0-9]{3})?",
        Shape::FractionOfSix => "(?:\\.[0-9]{6})?",
        Shape::FractionOfNine => "(?:\\.[0-9]{9})?",
        Shape::Offset => "[+-][0-9]{2}:?[0-9]{2}",
        Shape::OffsetOrZulu => "(?:[Zz]|[+-][0-9]{2}(?::?[0-9]{2})?)",
        Shape::ZoneName => "[A-Za-z0-9+-]+",
        Shape::Epoch => "[0-9]+",
        Shape::SlashedDate => "[0-9]{2}/[0-9]{2}/[0-9]{2}",
        Shape::DashedDate => "[0-9]{4}-[0-9]{2}-[0-9]{2}",
        Shape::ClockTime => "[0-9]{2}:[0-9]{2}:[0-9]{2}",
        Shape::ShortClockTime => "[0-9]{2}:[0-9]{2}",
    }
}

/// Writes out the expression that recognizes text of the given tokens.
pub fn recognizer_text(list: &Vec<Token>) -> (text: String)
    ensures
        text@ == recognizer(list@),
{
    let mut text = String::new();
    let mut i: usize = 0;
    while i < list.len()
        invariant
            i <= list.len(),
            text@ == recognizer(list@.take(i as int)),
        decreases list.len() - i,
    {
        proof {
            assert(list@.take(i + 1).drop_last() == list@.take(i as int));
        }
        match list[i] {
            Token::Literal(c) => {
                if needs_escape(c) {
                    text.push('\\');
                }
                text.push(c);
            },
            Token::Field(shape) => {
                text.append(shape_text(shape));
            },
        }
        i = i + 1;
    }
    assert(list@.take(list.len() as int) == list@);
    text
}

/// Looks for a field that holds an offset from UTC.
pub fn has_offset(list: &Vec<Token>) -> (yes: bool)
    ensures
        yes == carries_offset(list@),
{
    let mut i: usize = 0;
    while i < list.len()
        invariant
            i <= list.len(),
            forall|j: int| 0 <= j < i ==> !is_offset(#[trigger] list@[j]),
        decreases list.len() - i,
    {
        match list[i] {
            Token::Field(Shape::Offset) => {
                return true;
            },
            Token::Field(Shape::OffsetOrZulu) => {
                return true;
            },
            _ => {},
        }
        i = i + 1;
    }
    false
}

/// Looks for a field that can only be read.
pub fn can_write(list: &Vec<Token>) -> (yes: bool)
    ensures
        yes == writable(list@),
{
    let mut i: usize = 0;
    while i < list.len()
        invariant
            i <= list.len(),
            forall|j: int| 0 <= j < i ==> is_writable(#[trigger] list@[j]),
        decreases list.len() - i,
    {
        match list[i] {
            Token::Field(Shape::OffsetOrZulu) => {
                assert(!is_writable(list@[i as int]));
                return false;
            },
            _ => {},
        }
        i = i + 1;
    }
    true
}

} // verus!
