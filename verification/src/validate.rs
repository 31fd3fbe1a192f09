//! Answer validation: each typed constraint set turns a raw input string
//! and a `required` flag into a typed answer or a failure.  The rules are
//! uniform: empty input takes the configured default when there is one,
//! is a failure for a required question without one, and an explicit
//! skip otherwise; non-empty input is checked against the constraints of
//! the question's type.

use vstd::prelude::*;
use vstd::string::StrSliceExecFns;
use vstd::string::StringSliceAdditionalSpecFns;

use crate::answers::QuestionAnswerInput;
use crate::entries::BoolEntry;
use crate::entries::IntEntry;
use crate::entries::OptionEntry;
use crate::entries::StringEntry;
use crate::numparse::index_str_val;
use crate::numparse::lemma_digits_val_nonneg;
use crate::numparse::parse_i32;
use crate::numparse::parse_index;
use crate::numparse::spec_parse_i32;
use crate::numparse::valid_index_str;
use crate::numparse::index_body;

verus! {

/// Why an input was rejected.  Every failure is recoverable: the caller
/// is expected to show the message and prompt again.
#[derive(Debug, Clone, Copy, PartialEq, Eq, Structural)]
pub enum ValidationError {
    /// Empty input, no default configured, and the question is required.
    InputNeeded,
    /// The input is shorter than the configured minimum length.
    MinLengthNotRespected,
    /// The input is longer than the configured maximum length.
    MaxLengthNotRespected,
    /// A pattern is configured and the input does not match it.
    RegexNotMatched,
    /// The input cannot be read as an integer.
    NotAnInt,
    /// The value is below the configured minimum.
    BelowMin,
    /// The value is above the configured maximum.
    AboveMax,
    /// The input is none of the accepted yes/no forms.
    NotABool,
    /// The input cannot be read as an option index.
    NotAnOptionIndex,
    /// The index does not point into the option list.
    IndexOutOfBounds,
}

impl ValidationError {
    /// The message shown for this failure.
    pub open spec fn spec_message(&self) -> Seq<char> {
        match self {
            ValidationError::InputNeeded => "No default value is set. Input is needed."@,
            ValidationError::MinLengthNotRespected => "Min input len not respected"@,
            ValidationError::MaxLengthNotRespected => "Max input len not respected"@,
            ValidationError::RegexNotMatched => "Input doesn't match the expected pattern."@,
            ValidationError::NotAnInt => "Input can not be cast into an int value."@,
            ValidationError::BelowMin => "Input doesn't respect min value constraint."@,
            ValidationError::AboveMax => "Input doesn't respect max value constraint."@,
            ValidationError::NotABool => "Input can not be cast into a bool value."@,
            ValidationError::NotAnOptionIndex => "Input can't be cast into the option index."@,
            ValidationError::IndexOutOfBounds => "Default value index is bigger than the options list"@,
        }
    }

    /// The message shown for this failure.
    pub fn message(&self) -> (r: String)
        ensures
            r@ == self.spec_message(),
    {
        match self {
            ValidationError::InputNeeded => String::from_str(
                "No default value is set. Input is needed.",
            ),
            ValidationError::MinLengthNotRespected => String::from_str(
                "Min input len not respected",
            ),
            ValidationError::MaxLengthNotRespected => String::from_str(
                "Max input len not respected",
            ),
            ValidationError::RegexNotMatched => String::from_str(
                "Input doesn't match the expected pattern.",
            ),
            ValidationError::NotAnInt => String::from_str(
                "Input can not be cast into an int value.",
            ),
            ValidationError::BelowMin => String::from_str(
                "Input doesn't respect min value constraint.",
            ),
            ValidationError::AboveMax => String::from_str(
                "Input doesn't respect max value constraint.",
            ),
            ValidationError::NotABool => String::from_str(
                "Input can not be cast into a bool value.",
            ),
            ValidationError::NotAnOptionIndex => String::from_str(
                "Input can't be cast into the option index.",
            ),
            ValidationError::IndexOutOfBounds => String::from_str(
                "Default value index is bigger than the options list",
            ),
        }
    }
}

/// Whether the pattern, compiled as a regular expression, matches
/// anywhere in the text.  A pattern that does not compile matches
/// nothing.
pub uninterp spec fn regex_matches(pattern: Seq<char>, text: Seq<char>) -> bool;

/// Relies on `regex::Regex::new` and `regex::Regex::is_match`: `is_match`
/// returns true if and only if the compiled pattern matches anywhere in
/// the given text.  Both are functions of the two strings alone.
#[verifier::external_body]
fn regex_is_match(pattern: &str, text: &str) -> (r: bool)
    ensures
        r == regex_matches(pattern@, text@),
{
    match regex::Regex::new(pattern) {
        Ok(re) => re.is_match(text),
        Err(_) => false,
    }
}

/// Whether `c` is whitespace: the characters Rust's trimming removes.
pub open spec fn is_space_char(c: char) -> bool {
    ||| c == ' '
    ||| c == '\t'
    ||| c == '\n'
    ||| c == '\r'
    ||| c == '\u{0B}'
    ||| c == '\u{0C}'
    ||| c == '\u{85}'
    ||| c == '\u{A0}'
    ||| c == '\u{1680}'
    ||| ('\u{2000}' <= c && c <= '\u{200A}')
    ||| c == '\u{2028}'
    ||| c == '\u{2029}'
    ||| c == '\u{202F}'
    ||| c == '\u{205F}'
    ||| c == '\u{3000}'
}

/// Whether `c` is whitespace.
fn char_is_space(c: char) -> (r: bool)
    ensures
        r == is_space_char(c),
{
    c == ' ' || c == '\t' || c == '\n' || c == '\r' || c == '\u{0B}' || c == '\u{0C}' || c
        == '\u{85}' || c == '\u{A0}' || c == '\u{1680}' || ('\u{2000}' <= c && c <= '\u{200A}')
        || c == '\u{2028}' || c == '\u{2029}' || c == '\u{202F}' || c == '\u{205F}' || c
        == '\u{3000}'
}

/// The first index at or after `i` holding a non-whitespace character,
/// or the length when there is none.
pub open spec fn first_non_space(s: Seq<char>, i: int) -> int
    decreases s.len() - i,
{
    if i < 0 || i >= s.len() {
        s.len() as int
    } else if !is_space_char(s[i]) {
        i
    } else {
        first_non_space(s, i + 1)
    }
}

/// The last index at or before `i` holding a non-whitespace character,
/// or `-1` when there is none.
pub open spec fn last_non_space(s: Seq<char>, i: int) -> int
    decreases i + 1,
{
    if i < 0 || i >= s.len() {
        -1
    } else if !is_space_char(s[i]) {
        i
    } else {
        last_non_space(s, i - 1)
    }
}

/// `s` without its leading and trailing whitespace.
pub open spec fn trimmed(s: Seq<char>) -> Seq<char> {
    let a = first_non_space(s, 0);
    let b = last_non_space(s, s.len() - 1);
    if a <= b {
        s.subrange(a, b + 1)
    } else {
        Seq::empty()
    }
}

/// In an all-whitespace string no index holds a non-whitespace
/// character.
proof fn lemma_all_space_last(s: Seq<char>, i: int)
    requires
        forall|j: int| 0 <= j < s.len() ==> is_space_char(s[j]),
        i < s.len(),
    ensures
        last_non_space(s, i) == -1,
    decreases i + 1,
{
    if i >= 0 {
        lemma_all_space_last(s, i - 1);
    }
}

/// Strips leading and trailing whitespace.
fn trim_str(input: &str) -> (r: String)
    ensures
        r@ == trimmed(input@),
{
    let n = input.unicode_len();
    let mut a: usize = 0;
    while a < n && char_is_space(input.get_char(a))
        invariant
            a <= n,
            n == input@.len(),
            first_non_space(input@, 0) == first_non_space(input@, a as int),
            forall|j: int| 0 <= j < a ==> is_space_char(#[trigger] input@[j]),
        decreases n - a,
    {
        a = a + 1;
    }
    if a == n {
        proof {
            if n > 0 {
                lemma_all_space_last(input@, n - 1 as int);
            }
        }
        return String::new();
    }
    let mut b: usize = n;
    while b > a + 1 && char_is_space(input.get_char(b - 1))
        invariant
            a < b <= n,
            n == input@.len(),
            a == first_non_space(input@, 0),
            !is_space_char(input@[a as int]),
            last_non_space(input@, n - 1) == last_non_space(input@, b - 1),
        decreases b,
    {
        b = b - 1;
    }
    proof {
        assert(last_non_space(input@, b - 1) == b - 1);
    }
    trim_range(input, a, b)
}

/// The characters of `input` from `a` to `b`, as an owned string.
fn trim_range(input: &str, a: usize, b: usize) -> (r: String)
    requires
        a <= b <= input@.len(),
    ensures
        r@ == input@.subrange(a as int, b as int),
{
    input.substring_char(a, b).to_owned()
}

/// Whether `c` is the letter `lo` (which must be a lower case ASCII
/// letter) in either case.
pub open spec fn matches_ci(c: char, lo: char) -> bool {
    c == lo || c as int + 32 == lo as int
}

/// Case-insensitive test of `c` against the lower case ASCII letter `lo`.
fn char_matches_ci(c: char, lo: char) -> (r: bool)
    requires
        'a' <= lo && lo <= 'z',
    ensures
        r == matches_ci(c, lo),
{
    c == lo || (c as u32) + 32 == (lo as u32)
}

/// The accepted spellings of an affirmative answer: `y`, `yes` or
/// `true`, each letter in either case.
pub open spec fn is_yes_input(s: Seq<char>) -> bool {
    ||| (s.len() == 1 && matches_ci(s[0], 'y'))
    ||| (s.len() == 3 && matches_ci(s[0], 'y') && matches_ci(s[1], 'e') && matches_ci(s[2], 's'))
    ||| (s.len() == 4 && matches_ci(s[0], 't') && matches_ci(s[1], 'r') && matches_ci(s[2], 'u')
        && matches_ci(s[3], 'e'))
}

/// The accepted spellings of a negative answer: `n`, `no` or `false`,
/// each letter in either case.
pub open spec fn is_no_input(s: Seq<char>) -> bool {
    ||| (s.len() == 1 && matches_ci(s[0], 'n'))
    ||| (s.len() == 2 && matches_ci(s[0], 'n') && matches_ci(s[1], 'o'))
    ||| (s.len() == 5 && matches_ci(s[0], 'f') && matches_ci(s[1], 'a') && matches_ci(s[2], 'l')
        && matches_ci(s[3], 's') && matches_ci(s[4], 'e'))
}

impl StringEntry {
    /// Validates `input` against this string constraint set.  Empty
    /// input takes the default, is rejected for a required question
    /// without one, and is an explicit skip otherwise.  Non-empty input
    /// must respect the length bounds (counted in bytes); when a
    /// pattern is configured it is matched against the trimmed input,
    /// and a successful answer carries the trimmed string.
    pub fn validate(&self, input: &str, required: bool) -> (r: Result<
        QuestionAnswerInput,
        ValidationError,
    >)
        ensures
            input@.len() == 0 && self.default_value is Some ==> (r matches Ok(
                QuestionAnswerInput::String(Some(s)),
            ) && s@ == self.default_value->0@),
            input@.len() == 0 && self.default_value is None && !required ==> r == Ok::<QuestionAnswerInput, ValidationError>(
                QuestionAnswerInput::String(None),
            ),
            input@.len() == 0 && self.default_value is None && required ==> r == Err::<QuestionAnswerInput, ValidationError>(
                ValidationError::InputNeeded,
            ),
            input@.len() > 0 && self.min_length is Some && input.spec_bytes().len()
                < self.min_length->0 ==> r == Err::<QuestionAnswerInput, ValidationError>(ValidationError::MinLengthNotRespected),
            input@.len() > 0 && (self.min_length is None || input.spec_bytes().len()
                >= self.min_length->0) && self.max_length is Some && input.spec_bytes().len()
                > self.max_length->0 ==> r == Err::<QuestionAnswerInput, ValidationError>(ValidationError::MaxLengthNotRespected),
            input@.len() > 0 && (self.min_length is None || input.spec_bytes().len()
                >= self.min_length->0) && (self.max_length is None || input.spec_bytes().len()
                <= self.max_length->0) && self.regexp is Some && !regex_matches(
                self.regexp->0@,
                trimmed(input@),
            ) ==> r == Err::<QuestionAnswerInput, ValidationError>(ValidationError::RegexNotMatched),
            input@.len() > 0 && (self.min_length is None || input.spec_bytes().len()
                >= self.min_length->0) && (self.max_length is None || input.spec_bytes().len()
                <= self.max_length->0) && (self.regexp is None || regex_matches(
                self.regexp->0@,
                trimmed(input@),
            )) ==> (r matches Ok(QuestionAnswerInput::String(Some(s))) && s@ == trimmed(input@)),
    {
        if input.is_empty() {
            if let Some(def_value) = &self.default_value {
                return Ok(QuestionAnswerInput::String(Some(def_value.clone())));
            } else {
                if !required {
                    return Ok(QuestionAnswerInput::String(None));
                }
                return Err(ValidationError::InputNeeded);
            }
        }
        let blen = input.as_bytes().len();
        if let Some(min) = self.min_length {
            if blen < min {
                return Err(ValidationError::MinLengthNotRespected);
            }
        }
        if let Some(max) = self.max_length {
            if blen > max {
                return Err(ValidationError::MaxLengthNotRespected);
            }
        }
        let trimmed_input = trim_str(input);
        if let Some(regexp) = &self.regexp {
            if !regex_is_match(regexp.as_str(), trimmed_input.as_str()) {
                return Err(ValidationError::RegexNotMatched);
            }
        }
        Ok(QuestionAnswerInput::String(Some(trimmed_input)))
    }
}

impl IntEntry {
    /// Validates `input` against this integer constraint set.  Empty
    /// input follows the uniform default/required rules; non-empty input
    /// must parse as an `i32` and respect the configured bounds.
    pub fn validate(&self, input: &str, required: bool) -> (r: Result<
        QuestionAnswerInput,
        ValidationError,
    >)
        ensures
            input@.len() == 0 && self.default_value is Some ==> r == Ok::<
                QuestionAnswerInput,
                ValidationError,
            >(QuestionAnswerInput::Int(Some(self.default_value->0))),
            input@.len() == 0 && self.default_value is None && !required ==> r == Ok::<QuestionAnswerInput, ValidationError>(
                QuestionAnswerInput::Int(None),
            ),
            input@.len() == 0 && self.default_value is None && required ==> r == Err::<QuestionAnswerInput, ValidationError>(
                ValidationError::InputNeeded,
            ),
            input@.len() > 0 && spec_parse_i32(input@) is None ==> r == Err::<QuestionAnswerInput, ValidationError>(
                ValidationError::NotAnInt,
            ),
            input@.len() > 0 && spec_parse_i32(input@) is Some && self.min is Some
                && spec_parse_i32(input@)->0 < self.min->0 ==> r == Err::<QuestionAnswerInput, ValidationError>(ValidationError::BelowMin),
            input@.len() > 0 && spec_parse_i32(input@) is Some && (self.min is None
                || spec_parse_i32(input@)->0 >= self.min->0) && self.max is Some && spec_parse_i32(
                input@,
            )->0 > self.max->0 ==> r == Err::<QuestionAnswerInput, ValidationError>(ValidationError::AboveMax),
            input@.len() > 0 && spec_parse_i32(input@) is Some && (self.min is None
                || spec_parse_i32(input@)->0 >= self.min->0) && (self.max is None
                || spec_parse_i32(input@)->0 <= self.max->0) ==> r == Ok::<QuestionAnswerInput, ValidationError>(
                QuestionAnswerInput::Int(Some(spec_parse_i32(input@)->0)),
            ),
    {
        if input.is_empty() {
            if let Some(def_value) = self.default_value {
                return Ok(QuestionAnswerInput::Int(Some(def_value)));
            } else {
                if !required {
                    return Ok(QuestionAnswerInput::Int(None));
                }
                return Err(ValidationError::InputNeeded);
            }
        }
        let input_value = match parse_i32(input) {
            Some(v) => v,
            None => {
                return Err(ValidationError::NotAnInt);
            },
        };
        if let Some(min) = self.min {
            if input_value < min {
                return Err(ValidationError::BelowMin);
            }
        }
        if let Some(max) = self.max {
            if input_value > max {
                return Err(ValidationError::AboveMax);
            }
        }
        Ok(QuestionAnswerInput::Int(Some(input_value)))
    }
}

impl BoolEntry {
    /// Validates `input` against this yes/no constraint set.  Empty
    /// input follows the uniform default/required rules; non-empty input
    /// must be one of the accepted yes or no spellings.
    pub fn validate(&self, input: &str, required: bool) -> (r: Result<
        QuestionAnswerInput,
        ValidationError,
    >)
        ensures
            input@.len() == 0 && self.default_value is Some ==> r == Ok::<
                QuestionAnswerInput,
                ValidationError,
            >(QuestionAnswerInput::Bool(Some(self.default_value->0))),
            input@.len() == 0 && self.default_value is None && !required ==> r == Ok::<QuestionAnswerInput, ValidationError>(
                QuestionAnswerInput::Bool(None),
            ),
            input@.len() == 0 && self.default_value is None && required ==> r == Err::<QuestionAnswerInput, ValidationError>(
                ValidationError::InputNeeded,
            ),
            input@.len() > 0 && is_yes_input(input@) ==> r == Ok::<QuestionAnswerInput, ValidationError>(
                QuestionAnswerInput::Bool(Some(true)),
            ),
            input@.len() > 0 && is_no_input(input@) ==> r == Ok::<QuestionAnswerInput, ValidationError>(
                QuestionAnswerInput::Bool(Some(false)),
            ),
            input@.len() > 0 && !is_yes_input(input@) && !is_no_input(input@) ==> r == Err::<QuestionAnswerInput, ValidationError>(
                ValidationError::NotABool,
            ),
    {
        if input.is_empty() {
            if let Some(def_value) = self.default_value {
                return Ok(QuestionAnswerInput::Bool(Some(def_value)));
            } else {
                if !required {
                    return Ok(QuestionAnswerInput::Bool(None));
                }
                return Err(ValidationError::InputNeeded);
            }
        }
        let n = input.unicode_len();
        if n == 1 {
            let c0 = input.get_char(0);
            if char_matches_ci(c0, 'y') {
                return Ok(QuestionAnswerInput::Bool(Some(true)));
            }
            if char_matches_ci(c0, 'n') {
                return Ok(QuestionAnswerInput::Bool(Some(false)));
            }
            return Err(ValidationError::NotABool);
        }
        if n == 2 {
            if char_matches_ci(input.get_char(0), 'n') && char_matches_ci(input.get_char(1), 'o') {
                return Ok(QuestionAnswerInput::Bool(Some(false)));
            }
            return Err(ValidationError::NotABool);
        }
        if n == 3 {
            if char_matches_ci(input.get_char(0), 'y') && char_matches_ci(input.get_char(1), 'e')
                && char_matches_ci(input.get_char(2), 's') {
                return Ok(QuestionAnswerInput::Bool(Some(true)));
            }
            return Err(ValidationError::NotABool);
        }
        if n == 4 {
            if char_matches_ci(input.get_char(0), 't') && char_matches_ci(input.get_char(1), 'r')
                && char_matches_ci(input.get_char(2), 'u') && char_matches_ci(
                input.get_char(3),
                'e',
            ) {
                return Ok(QuestionAnswerInput::Bool(Some(true)));
            }
            return Err(ValidationError::NotABool);
        }
        if n == 5 {
            if char_matches_ci(input.get_char(0), 'f') && char_matches_ci(input.get_char(1), 'a')
                && char_matches_ci(input.get_char(2), 'l') && char_matches_ci(
                input.get_char(3),
                's',
            ) && char_matches_ci(input.get_char(4), 'e') {
                return Ok(QuestionAnswerInput::Bool(Some(false)));
            }
            return Err(ValidationError::NotABool);
        }
        Err(ValidationError::NotABool)
    }
}

impl OptionEntry {
    /// Validates `input` against this option list.  Empty input takes
    /// the configured default index, which must point into the list;
    /// non-empty input must parse as a zero-based index into the list.
    /// A successful answer carries the chosen label, not the index.
    pub fn validate(&self, input: &str, required: bool) -> (r: Result<
        QuestionAnswerInput,
        ValidationError,
    >)
        ensures
            input@.len() == 0 && self.default_value is Some && self.default_value->0
                < self.options@.len() ==> (r matches Ok(QuestionAnswerInput::Option(Some(l))) && l@
                == self.options@[self.default_value->0 as int]@),
            input@.len() == 0 && self.default_value is Some && self.default_value->0
                >= self.options@.len() ==> r == Err::<QuestionAnswerInput, ValidationError>(
                ValidationError::IndexOutOfBounds,
            ),
            input@.len() == 0 && self.default_value is None && required ==> r == Err::<QuestionAnswerInput, ValidationError>(
                ValidationError::InputNeeded,
            ),
            input@.len() == 0 && self.default_value is None && !required ==> r == Ok::<QuestionAnswerInput, ValidationError>(
                QuestionAnswerInput::Option(None),
            ),
            input@.len() > 0 && (!valid_index_str(input@) || index_str_val(input@) > usize::MAX)
                ==> r == Err::<QuestionAnswerInput, ValidationError>(ValidationError::NotAnOptionIndex),
            input@.len() > 0 && valid_index_str(input@) && index_str_val(input@)
                < self.options@.len() ==> (r matches Ok(QuestionAnswerInput::Option(Some(l))) && l@
                == self.options@[index_str_val(input@)]@),
            input@.len() > 0 && valid_index_str(input@) && usize::MAX >= index_str_val(input@)
                >= self.options@.len() ==> r == Err::<QuestionAnswerInput, ValidationError>(ValidationError::IndexOutOfBounds),
    {
        if input.is_empty() {
            if let Some(def_value) = self.default_value {
                if (def_value as usize) < self.options.len() {
                    let label = self.options[def_value as usize].clone();
                    return Ok(QuestionAnswerInput::Option(Some(label)));
                }
                return Err(ValidationError::IndexOutOfBounds);
            }
            if !required {
                return Ok(QuestionAnswerInput::Option(None));
            }
            return Err(ValidationError::InputNeeded);
        }
        let nopts = self.options.len();
        match parse_index(input) {
            Some(i) => {
                proof {
                    lemma_digits_val_nonneg(index_body(input@));
                }
                if i < nopts {
                    let label = self.options[i].clone();
                    Ok(QuestionAnswerInput::Option(Some(label)))
                } else {
                    Err(ValidationError::IndexOutOfBounds)
                }
            },
            None => Err(ValidationError::NotAnOptionIndex),
        }
    }
}

} // verus!
