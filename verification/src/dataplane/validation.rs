//! Validation of what comes in at the boundaries: names, paths, commands
//! and numbers.

use vstd::prelude::*;
use vstd::string::StringExecFns;
use vstd::string::StringSliceAdditionalSpecFns;
use vstd::utf8::{decode_utf8, encode_utf8, is_char_boundary};
use crate::text::{
    blank, char_is_alphanumeric, char_is_control, chars_of, contains_chars, contains_text, decimal, is_alphanumeric,
    is_blank, is_control, push_decimal, push_signed_decimal, signed_decimal, string_of,
};

verus! {

/// The longest text taken from a user, in bytes.
pub const MAX_STRING_LENGTH: usize = 10_000;

/// The longest job name, in bytes.
pub const MAX_JOB_NAME_LENGTH: usize = 256;

/// The longest path, in bytes.
pub const MAX_PATH_LENGTH: usize = 4096;

/// The longest command, in bytes.
pub const MAX_COMMAND_LENGTH: usize = 65536;

/// The most environment variables of a job.
pub const MAX_ENV_VARS: usize = 1000;

/// The most arguments of a command.
pub const MAX_ARGUMENTS: usize = 1000;

/// Why an input was refused.
#[derive(Debug, Clone)]
pub enum ValidationError {
    /// The field is empty or blank.
    Empty(String),
    /// The field is longer than allowed.
    TooLong { field: String, max: usize, actual: usize },
    /// The field holds characters that are not allowed.
    InvalidChars { field: String, invalid: String },
    /// The field holds a forbidden pattern.
    ForbiddenPattern { field: String, pattern: String },
    /// The number lies outside its range.
    OutOfRange { field: String, min: i64, max: i64, actual: i64 },
    /// Anything else.
    Invalid(String),
}

impl ValidationError {
    /// The error as a sentence.
    pub open spec fn spec_message(&self) -> Seq<char> {
        match self {
            ValidationError::Empty(field) => field@ + " cannot be empty"@,
            ValidationError::TooLong { field, max, actual } => field@ + " too long: "@ + decimal(*actual as nat)
                + " > "@ + decimal(*max as nat) + " max"@,
            ValidationError::InvalidChars { field, invalid } => field@ + " contains invalid characters: "@
                + invalid@,
            ValidationError::ForbiddenPattern { field, pattern } => field@ + " contains forbidden pattern: "@
                + pattern@,
            ValidationError::OutOfRange { field, min, max, actual } => field@ + " out of range: "@
                + signed_decimal(*actual as int) + " not in ["@ + signed_decimal(*min as int) + ", "@
                + signed_decimal(*max as int) + "]"@,
            ValidationError::Invalid(msg) => "Validation error: "@ + msg@,
        }
    }

    /// The error as a sentence.
    pub fn message(&self) -> (s: String)
        ensures
            s@ == self.spec_message(),
    {
        match self {
            ValidationError::Empty(field) => {
                let mut s = field.clone();
                s.append(" cannot be empty");
                s
            },
            ValidationError::TooLong { field, max, actual } => {
                let mut s = field.clone();
                s.append(" too long: ");
                push_decimal(&mut s, *actual as u64);
                s.append(" > ");
                push_decimal(&mut s, *max as u64);
                s.append(" max");
                s
            },
            ValidationError::InvalidChars { field, invalid } => {
                let mut s = field.clone();
                s.append(" contains invalid characters: ");
                s.append(invalid.as_str());
                s
            },
            ValidationError::ForbiddenPattern { field, pattern } => {
                let mut s = field.clone();
                s.append(" contains forbidden pattern: ");
                s.append(pattern.as_str());
                s
            },
            ValidationError::OutOfRange { field, min, max, actual } => {
                let mut s = field.clone();
                s.append(" out of range: ");
                push_signed_decimal(&mut s, *actual);
                s.append(" not in [");
                push_signed_decimal(&mut s, *min);
                s.append(", ");
                push_signed_decimal(&mut s, *max);
                s.append("]");
                s
            },
            ValidationError::Invalid(msg) => {
                let mut s = String::from_str("Validation error: ");
                s.append(msg.as_str());
                s
            },
        }
    }
}

/// The length of a text in bytes of UTF-8, as `str::len` gives it.
pub open spec fn byte_length(s: Seq<char>) -> usize {
    encode_utf8(s).len() as usize
}

/// The result of a validation.
pub type ValidationResult<T> = Result<T, ValidationError>;

/// The characters of `s` that `keep` holds, in order.
pub open spec fn kept(s: Seq<char>, keep: spec_fn(char) -> bool) -> Seq<char> {
    s.filter(keep)
}

/// Whether a character may stand in a job name.
pub open spec fn name_char(c: char) -> bool {
    char_is_alphanumeric(c) || c == '-' || c == '_'
}

/// Whether a character survives sanitizing: everything but control
/// characters, and of those the line feed and the tab.
pub open spec fn clean_char(c: char) -> bool {
    !char_is_control(c) || c == '\n' || c == '\t'
}

/// The text without the characters that sanitizing takes out.
pub open spec fn sanitized(s: Seq<char>) -> Seq<char> {
    s.filter(|c: char| clean_char(c))
}

/// The patterns that no command may hold, in the order in which they are
/// looked for.
pub open spec fn default_patterns() -> Seq<Seq<char>> {
    seq!["$(("@, "$("@, "`"@, "&&"@, "||"@, ";"@, "|"@, ">"@, "<"@, ".."@]
}

/// The first pattern of the list that `text` holds, where there is one.
pub open spec fn first_forbidden(patterns: Seq<Seq<char>>, text: Seq<char>) -> Option<int>
    decreases patterns.len(),
{
    if patterns.len() == 0 {
        None
    } else if contains_text(text, patterns[0]) {
        Some(0)
    } else {
        match first_forbidden(patterns.drop_first(), text) {
            Some(i) => Some(i + 1),
            None => None,
        }
    }
}

/// `v` cut to the range of `i64`.
pub open spec fn cut_i64(v: nat) -> i64 {
    if v > i64::MAX {
        i64::MAX
    } else {
        v as i64
    }
}

/// Checks of inputs, with the patterns that commands may not hold.
pub struct Validator {
    forbidden_patterns: Vec<Vec<char>>,
}

impl Default for Validator {
    fn default() -> (v: Validator)
        ensures
            v.patterns() == default_patterns(),
    {
        Validator::new()
    }
}

impl Validator {
    /// The patterns that commands may not hold.
    pub closed spec fn patterns(&self) -> Seq<Seq<char>> {
        self.forbidden_patterns@.map_values(|p: Vec<char>| p@)
    }

    /// A validator with the default patterns.
    pub fn new() -> (v: Validator)
        ensures
            v.patterns() == default_patterns(),
    {
        let mut forbidden_patterns: Vec<Vec<char>> = Vec::new();
        forbidden_patterns.push(chars_of("$(("));
        forbidden_patterns.push(chars_of("$("));
        forbidden_patterns.push(chars_of("`"));
        forbidden_patterns.push(chars_of("&&"));
        forbidden_patterns.push(chars_of("||"));
        forbidden_patterns.push(chars_of(";"));
        forbidden_patterns.push(chars_of("|"));
        forbidden_patterns.push(chars_of(">"));
        forbidden_patterns.push(chars_of("<"));
        forbidden_patterns.push(chars_of(".."));
        let v = Validator { forbidden_patterns };
        assert(v.patterns() =~= default_patterns());
        v
    }

    /// Refuses a value that is empty or all white space.
    pub fn require_non_empty(&self, field: &str, value: &str) -> (r: ValidationResult<()>)
        ensures
            r is Ok <==> !is_blank(value@),
            r is Err ==> r->Err_0 is Empty && r->Err_0->Empty_0@ == field@,
    {
        let chars = chars_of(value);
        if blank(&chars) {
            Err(ValidationError::Empty(String::from_str(field)))
        } else {
            Ok(())
        }
    }

    /// Refuses a value of more than `max` bytes.
    pub fn validate_length(&self, field: &str, value: &str, max: usize) -> (r: ValidationResult<()>)
        ensures
            r is Ok <==> byte_length(value@) <= max,
            r is Err ==> {
                &&& r->Err_0 is TooLong
                &&& r->Err_0->TooLong_field@ == field@
                &&& r->Err_0->TooLong_max == max
                &&& r->Err_0->TooLong_actual == byte_length(value@)
            },
    {
        let n = value.len();
        if n > max {
            Err(ValidationError::TooLong { field: String::from_str(field), max, actual: n })
        } else {
            Ok(())
        }
    }

    /// The characters of `s` that may not stand in a job name.
    fn invalid_name_chars(s: &Vec<char>) -> (r: Vec<char>)
        ensures
            r@ == s@.filter(|c: char| !name_char(c)),
    {
        let mut out: Vec<char> = Vec::new();
        let mut i: usize = 0;
        let ghost pred = |c: char| !name_char(c);
        while i < s.len()
            invariant
                i <= s.len(),
                pred == |c: char| !name_char(c),
                out@ == s@.take(i as int).filter(pred),
            decreases s.len() - i,
        {
            proof {
                assert(s@.take(i + 1).drop_last() =~= s@.take(i as int));
                reveal(Seq::filter);
            }
            let c = s[i];
            if !(is_alphanumeric(c) || c == '-' || c == '_') {
                out.push(c);
            }
            i = i + 1;
        }
        assert(s@.take(i as int) =~= s@);
        out
    }

    /// Checks a job name: not blank, at most 256 bytes, and made of
    /// alphanumeric characters, dashes and underscores. The checks are
    /// made in that order and the first that fails is reported.
    pub fn validate_job_name(&self, name: &str) -> (r: ValidationResult<()>)
        ensures
            r is Ok <==> !is_blank(name@) && byte_length(name@) <= MAX_JOB_NAME_LENGTH && name@.filter(
                |c: char| !name_char(c),
            ).len() == 0,
            r is Err ==> if is_blank(name@) {
                r->Err_0 is Empty && r->Err_0->Empty_0@ == "job_name"@
            } else if byte_length(name@) > MAX_JOB_NAME_LENGTH {
                &&& r->Err_0 is TooLong
                &&& r->Err_0->TooLong_field@ == "job_name"@
                &&& r->Err_0->TooLong_max == MAX_JOB_NAME_LENGTH
                &&& r->Err_0->TooLong_actual == byte_length(name@)
            } else {
                &&& r->Err_0 is InvalidChars
                &&& r->Err_0->InvalidChars_field@ == "job_name"@
                &&& r->Err_0->InvalidChars_invalid@ == name@.filter(|c: char| !name_char(c))
            },
    {
        match self.require_non_empty("job_name", name) {
            Err(e) => {
                return Err(e);
            },
            Ok(_) => {},
        }
        match self.validate_length("job_name", name, MAX_JOB_NAME_LENGTH) {
            Err(e) => {
                return Err(e);
            },
            Ok(_) => {},
        }
        let chars = chars_of(name);
        let invalid = Self::invalid_name_chars(&chars);
        if invalid.len() > 0 {
            Err(
                ValidationError::InvalidChars {
                    field: String::from_str("job_name"),
                    invalid: string_of(&invalid),
                },
            )
        } else {
            Ok(())
        }
    }

    /// Checks a path: at most 4096 bytes, without `..` and without a null
    /// character. The checks are made in that order.
    pub fn validate_path(&self, path: &str) -> (r: ValidationResult<()>)
        ensures
            r is Ok <==> byte_length(path@) <= MAX_PATH_LENGTH && !contains_text(path@, ".."@)
                && !contains_text(path@, seq!['\0']),
            r is Err ==> if byte_length(path@) > MAX_PATH_LENGTH {
                &&& r->Err_0 is TooLong
                &&& r->Err_0->TooLong_field@ == "path"@
                &&& r->Err_0->TooLong_max == MAX_PATH_LENGTH
                &&& r->Err_0->TooLong_actual == byte_length(path@)
            } else if contains_text(path@, ".."@) {
                &&& r->Err_0 is ForbiddenPattern
                &&& r->Err_0->ForbiddenPattern_field@ == "path"@
                &&& r->Err_0->ForbiddenPattern_pattern@ == ".."@
            } else {
                &&& r->Err_0 is InvalidChars
                &&& r->Err_0->InvalidChars_field@ == "path"@
                &&& r->Err_0->InvalidChars_invalid@ == "null byte"@
            },
    {
        match self.validate_length("path", path, MAX_PATH_LENGTH) {
            Err(e) => {
                return Err(e);
            },
            Ok(_) => {},
        }
        let chars = chars_of(path);
        let dots = chars_of("..");
        if contains_chars(&chars, &dots) {
            return Err(
                ValidationError::ForbiddenPattern {
                    field: String::from_str("path"),
                    pattern: String::from_str(".."),
                },
            );
        }
        let mut null: Vec<char> = Vec::new();
        null.push('\0');
        assert(null@ =~= seq!['\0']);
        if contains_chars(&chars, &null) {
            return Err(
                ValidationError::InvalidChars {
                    field: String::from_str("path"),
                    invalid: String::from_str("null byte"),
                },
            );
        }
        Ok(())
    }

    /// The first forbidden pattern that `text` holds.
    fn find_forbidden(&self, text: &Vec<char>) -> (r: Option<usize>)
        ensures
            match r {
                Some(i) => first_forbidden(self.patterns(), text@) == Some(i as int) && i < self.patterns().len(),
                None => first_forbidden(self.patterns(), text@) is None,
            },
    {
        let n: usize = self.forbidden_patterns.len();
        let mut i: usize = n;
        let mut found: Option<usize> = None;
        let ghost all = self.patterns();
        proof {
            assert(all.skip(n as int) =~= Seq::<Seq<char>>::empty());
        }
        while i > 0
            invariant
                i <= n,
                n == self.forbidden_patterns@.len(),
                all == self.patterns(),
                match found {
                    Some(k) => first_forbidden(all.skip(i as int), text@) == Some(k - i) && i <= k < n,
                    None => first_forbidden(all.skip(i as int), text@) is None,
                },
            decreases i,
        {
            i = i - 1;
            proof {
                assert(all.skip(i as int).drop_first() =~= all.skip(i + 1));
                assert(all.skip(i as int)[0] == self.forbidden_patterns@[i as int]@);
            }
            if contains_chars(text, &self.forbidden_patterns[i]) {
                found = Some(i);
            }
        }
        proof {
            assert(all.skip(0) =~= all);
        }
        found
    }

    /// Checks a command: not blank, at most 65536 bytes, and free of the
    /// forbidden patterns. The first pattern of the list that the command
    /// holds is reported.
    pub fn validate_command(&self, command: &str) -> (r: ValidationResult<()>)
        ensures
            r is Ok <==> !is_blank(command@) && byte_length(command@) <= MAX_COMMAND_LENGTH
                && first_forbidden(self.patterns(), command@) is None,
            r is Err ==> if is_blank(command@) {
                r->Err_0 is Empty && r->Err_0->Empty_0@ == "command"@
            } else if byte_length(command@) > MAX_COMMAND_LENGTH {
                &&& r->Err_0 is TooLong
                &&& r->Err_0->TooLong_field@ == "command"@
                &&& r->Err_0->TooLong_max == MAX_COMMAND_LENGTH
                &&& r->Err_0->TooLong_actual == byte_length(command@)
            } else {
                &&& r->Err_0 is ForbiddenPattern
                &&& r->Err_0->ForbiddenPattern_field@ == "command"@
                &&& r->Err_0->ForbiddenPattern_pattern@ == self.patterns()[first_forbidden(
                    self.patterns(),
                    command@,
                )->0]
            },
    {
        match self.require_non_empty("command", command) {
            Err(e) => {
                return Err(e);
            },
            Ok(_) => {},
        }
        match self.validate_length("command", command, MAX_COMMAND_LENGTH) {
            Err(e) => {
                return Err(e);
            },
            Ok(_) => {},
        }
        let chars = chars_of(command);
        match self.find_forbidden(&chars) {
            Some(i) => Err(
                ValidationError::ForbiddenPattern {
                    field: String::from_str("command"),
                    pattern: string_of(&self.forbidden_patterns[i]),
                },
            ),
            None => Ok(()),
        }
    }

    /// Refuses a number outside `min..=max`.
    pub fn validate_range(&self, field: &str, value: i64, min: i64, max: i64) -> (r: ValidationResult<()>)
        ensures
            r is Ok <==> min <= value <= max,
            r is Err ==> {
                &&& r->Err_0 is OutOfRange
                &&& r->Err_0->OutOfRange_field@ == field@
                &&& r->Err_0->OutOfRange_min == min
                &&& r->Err_0->OutOfRange_max == max
                &&& r->Err_0->OutOfRange_actual == value
            },
    {
        if value < min || value > max {
            Err(ValidationError::OutOfRange { field: String::from_str(field), min, max, actual: value })
        } else {
            Ok(())
        }
    }

    /// A GPU count lies in `0..=1024`.
    pub fn validate_gpu_count(&self, count: u32) -> (r: ValidationResult<()>)
        ensures
            r is Ok <==> count <= 1024,
            r is Err ==> {
                &&& r->Err_0 is OutOfRange
                &&& r->Err_0->OutOfRange_field@ == "gpu_count"@
                &&& r->Err_0->OutOfRange_min == 0
                &&& r->Err_0->OutOfRange_max == 1024
                &&& r->Err_0->OutOfRange_actual == count
            },
    {
        self.validate_range("gpu_count", count as i64, 0, 1024)
    }

    /// A priority lies in `-1000..=1000`.
    pub fn validate_priority(&self, priority: i32) -> (r: ValidationResult<()>)
        ensures
            r is Ok <==> -1000 <= priority <= 1000,
            r is Err ==> {
                &&& r->Err_0 is OutOfRange
                &&& r->Err_0->OutOfRange_field@ == "priority"@
                &&& r->Err_0->OutOfRange_min == -1000
                &&& r->Err_0->OutOfRange_max == 1000
                &&& r->Err_0->OutOfRange_actual == priority
            },
    {
        self.validate_range("priority", priority as i64, -1000, 1000)
    }

    /// A buffer size lies between one byte and one gibibyte. A size beyond
    /// the range of `i64` is reported as the largest `i64`.
    pub fn validate_buffer_size(&self, size: usize) -> (r: ValidationResult<()>)
        ensures
            r is Ok <==> 1 <= size <= 1073741824,
            r is Err ==> {
                &&& r->Err_0 is OutOfRange
                &&& r->Err_0->OutOfRange_field@ == "buffer_size"@
                &&& r->Err_0->OutOfRange_min == 1
                &&& r->Err_0->OutOfRange_max == 1073741824
                &&& r->Err_0->OutOfRange_actual == cut_i64(size as nat)
            },
    {
        let value: i64 = if size as u64 > i64::MAX as u64 {
            i64::MAX
        } else {
            size as i64
        };
        self.validate_range("buffer_size", value, 1, 1073741824)
    }
}

/// The text without its control characters, but for line feeds and tabs.
pub fn sanitize_string(input: &str) -> (r: String)
    ensures
        r@ == sanitized(input@),
{
    let s = chars_of(input);
    let mut out: Vec<char> = Vec::new();
    let mut i: usize = 0;
    let ghost pred = |c: char| clean_char(c);
    while i < s.len()
        invariant
            i <= s.len(),
            pred == |c: char| clean_char(c),
            out@ == s@.take(i as int).filter(pred),
        decreases s.len() - i,
    {
        proof {
            assert(s@.take(i + 1).drop_last() =~= s@.take(i as int));
            reveal(Seq::filter);
        }
        let c = s[i];
        if !is_control(c) || c == '\n' || c == '\t' {
            out.push(c);
        }
        i = i + 1;
    }
    assert(s@.take(i as int) =~= s@);
    string_of(&out)
}

/// The mark put behind a message that was cut.
pub open spec fn truncation_mark() -> Seq<char> {
    "... [truncated]"@
}

/// A message made fit for a log: sanitized, and cut after 10000 bytes
/// with a mark behind it where it is longer. The cut must not fall into
/// the middle of a character.
pub fn sanitize_log_message(message: &str) -> (r: String)
    requires
        byte_length(sanitized(message@)) > MAX_STRING_LENGTH ==> is_char_boundary(
            encode_utf8(sanitized(message@)),
            MAX_STRING_LENGTH as int,
        ),
    ensures
        r@ == if byte_length(sanitized(message@)) > MAX_STRING_LENGTH {
            decode_utf8(encode_utf8(sanitized(message@)).subrange(0, MAX_STRING_LENGTH as int))
                + truncation_mark()
        } else {
            sanitized(message@)
        },
{
    let clean = sanitize_string(message);
    if clean.as_str().len() > MAX_STRING_LENGTH {
        let parts = clean.as_str().split_at(MAX_STRING_LENGTH);
        let mut out = String::from_str(parts.0);
        proof {
            vstd::utf8::encode_utf8_decode_utf8(parts.0@);
            assert(parts.0.spec_bytes() == encode_utf8(parts.0@));
        }
        out.append("... [truncated]");
        out
    } else {
        clean
    }
}

} // verus!
