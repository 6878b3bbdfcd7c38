//! Field validation of request payloads, and the formatting of its errors.
use vstd::prelude::*;

verus! {

/// One failed check on one field of a payload.
#[derive(Debug, Clone)]
pub struct FieldError {
    /// The name of the field that failed.
    pub field: String,
    /// The kind of check that failed: `length`, `email` or `must_match`.
    pub code: String,
    /// The message the check carries, if it has one.
    pub message: Option<String>,
}

/// A failed check, as plain values.
pub struct FieldErrorModel {
    pub field: Seq<char>,
    pub code: Seq<char>,
    pub message: Option<Seq<char>>,
}

impl View for FieldError {
    type V = FieldErrorModel;

    open spec fn view(&self) -> FieldErrorModel {
        FieldErrorModel {
            field: self.field@,
            code: self.code@,
            message: match self.message {
                Some(m) => Some(m@),
                None => None,
            },
        }
    }
}

/// The failed checks of a payload, field by field in the order the fields are
/// declared, and within one field in the order the checks run.
#[derive(Debug, Clone)]
pub struct ValidationErrors {
    pub errors: Vec<FieldError>,
}

/// The models of a list of failed checks.
pub open spec fn error_models(errors: Seq<FieldError>) -> Seq<FieldErrorModel> {
    errors.map_values(|e: FieldError| e@)
}

impl View for ValidationErrors {
    type V = Seq<FieldErrorModel>;

    open spec fn view(&self) -> Seq<FieldErrorModel> {
        error_models(self.errors@)
    }
}

/// The failed check that a check with this field, code and message reports.
pub open spec fn failure(field: Seq<char>, code: Seq<char>, message: Seq<char>) -> FieldErrorModel {
    FieldErrorModel { field, code, message: Some(message) }
}

/// Nothing where the check holds; the failed check where it does not.
pub open spec fn unless(holds: bool, e: FieldErrorModel) -> Seq<FieldErrorModel> {
    if holds {
        Seq::empty()
    } else {
        seq![e]
    }
}

/// The `length` check of the validator crate on a number of characters: at least
/// `min` and at most `max`, where given.
pub open spec fn length_within(len: nat, min: Option<u64>, max: Option<u64>) -> bool {
    &&& (min matches Some(m) ==> len >= m)
    &&& (max matches Some(m) ==> len <= m)
}

/// The outcome of a payload's validation, given its failed checks.
pub open spec fn outcome(failures: Seq<FieldErrorModel>) -> Result<(), Seq<FieldErrorModel>> {
    if failures.len() == 0 {
        Ok(())
    } else {
        Err(failures)
    }
}

/// The view of a validation outcome.
pub open spec fn outcome_view(r: Result<(), ValidationErrors>) -> Result<(), Seq<FieldErrorModel>> {
    match r {
        Ok(()) => Ok(()),
        Err(e) => Err(e@),
    }
}

/// Whether the validator crate's `email` check accepts a text. Its definition is
/// the crate's (an HTML5 address grammar, with length limits and IDNA domains).
pub uninterp spec fn email_accepted(s: Seq<char>) -> bool;

/// Calls `validator::ValidateEmail::validate_email` on a text. Its result is
/// `email_accepted` of the text; the crate's source rejects an empty text and a
/// text without `@` before anything else.
#[verifier::external_body]
fn validate_email(s: &str) -> (r: bool)
    ensures
        r == email_accepted(s@),
        s@.len() == 0 ==> !r,
        !s@.contains('@') ==> !r,
{
    validator::ValidateEmail::validate_email(&s)
}

/// A new failed check.
fn new_failure(field: &str, code: &str, message: &str) -> (e: FieldError)
    ensures
        e@ == failure(field@, code@, message@),
{
    FieldError {
        field: String::from_str(field),
        code: String::from_str(code),
        message: Some(String::from_str(message)),
    }
}

impl ValidationErrors {
    /// No failed check yet.
    pub fn new() -> (r: ValidationErrors)
        ensures
            r@ == Seq::<FieldErrorModel>::empty(),
    {
        ValidationErrors { errors: Vec::new() }
    }

    /// Records a failed check after the ones already recorded.
    pub fn add(&mut self, e: FieldError)
        ensures
            final(self)@ == old(self)@.push(e@),
    {
        self.errors.push(e);
        assert(error_models(self.errors@) =~= error_models(old(self).errors@).push(e@));
    }

    /// Runs the validator crate's `length` check on a text field.
    pub fn check_length(
        &mut self,
        field: &str,
        value: &str,
        min: Option<u64>,
        max: Option<u64>,
        message: &str,
    )
        ensures
            final(self)@ == old(self)@ + unless(
                length_within(value@.len(), min, max),
                failure(field@, "length"@, message@),
            ),
    {
        let len: u64 = value.unicode_len() as u64;
        let too_short = match min {
            Some(m) => len < m,
            None => false,
        };
        let too_long = match max {
            Some(m) => len > m,
            None => false,
        };
        if too_short || too_long {
            self.add(new_failure(field, "length", message));
            assert(old(self)@ + seq![failure(field@, "length"@, message@)] =~= old(self)@.push(
                failure(field@, "length"@, message@),
            ));
        } else {
            assert(old(self)@ + Seq::<FieldErrorModel>::empty() =~= old(self)@);
        }
    }

    /// Runs the validator crate's `length` check on an optional text field: an
    /// absent value passes.
    pub fn check_optional_length(
        &mut self,
        field: &str,
        value: &Option<String>,
        min: Option<u64>,
        max: Option<u64>,
        message: &str,
    )
        ensures
            final(self)@ == old(self)@ + match value {
                Some(v) => unless(
                    length_within(v@.len(), min, max),
                    failure(field@, "length"@, message@),
                ),
                None => Seq::empty(),
            },
    {
        match value {
            Some(v) => self.check_length(field, v.as_str(), min, max, message),
            None => {
                assert(old(self)@ + Seq::<FieldErrorModel>::empty() =~= old(self)@);
            },
        }
    }

    /// Runs the validator crate's `email` check on a text field.
    pub fn check_email(&mut self, field: &str, value: &str, message: &str)
        ensures
            final(self)@ == old(self)@ + unless(
                email_accepted(value@),
                failure(field@, "email"@, message@),
            ),
            value@.len() == 0 || !value@.contains('@') ==> !email_accepted(value@),
    {
        if !validate_email(value) {
            self.add(new_failure(field, "email", message));
            assert(old(self)@ + seq![failure(field@, "email"@, message@)] =~= old(self)@.push(
                failure(field@, "email"@, message@),
            ));
        } else {
            assert(old(self)@ + Seq::<FieldErrorModel>::empty() =~= old(self)@);
        }
    }

    /// Runs the validator crate's `must_match` check: the field equals the other one.
    pub fn check_must_match(&mut self, field: &str, value: &str, other: &str, message: &str)
        ensures
            final(self)@ == old(self)@ + unless(
                value@ == other@,
                failure(field@, "must_match"@, message@),
            ),
    {
        if !texts_equal(value, other) {
            self.add(new_failure(field, "must_match", message));
            assert(old(self)@ + seq![failure(field@, "must_match"@, message@)] =~= old(self)@.push(
                failure(field@, "must_match"@, message@),
            ));
        } else {
            assert(old(self)@ + Seq::<FieldErrorModel>::empty() =~= old(self)@);
        }
    }

    /// `Ok` where no check failed, else the failed checks.
    pub fn into_result(self) -> (r: Result<(), ValidationErrors>)
        ensures
            outcome_view(r) == outcome(self@),
    {
        if self.errors.len() == 0 {
            Ok(())
        } else {
            Err(self)
        }
    }
}

/// Whether two texts are equal, character by character.
pub fn texts_equal(a: &str, b: &str) -> (r: bool)
    ensures
        r == (a@ == b@),
{
    let n: usize = a.unicode_len();
    if n != b.unicode_len() {
        return false;
    }
    let mut i: usize = 0;
    while i < n
        invariant
            n == a@.len(),
            n == b@.len(),
            i <= n,
            forall|j: int| 0 <= j < i ==> a@[j] == b@[j],
        decreases n - i,
    {
        if a.get_char(i) != b.get_char(i) {
            return false;
        }
        i = i + 1;
    }
    assert(a@ =~= b@);
    true
}

/// The text a failed check is reported with where it carries no message.
pub open spec fn default_message() -> Seq<char> {
    "Validation error"@
}

/// The line that reports one failed check: the field, a colon and the message.
pub open spec fn error_line(e: FieldErrorModel) -> Seq<char> {
    e.field + ": "@ + match e.message {
        Some(m) => m,
        None => default_message(),
    }
}

/// Lines joined by a separator.
pub open spec fn join(lines: Seq<Seq<char>>, sep: Seq<char>) -> Seq<char>
    decreases lines.len(),
{
    if lines.len() == 0 {
        Seq::empty()
    } else if lines.len() == 1 {
        lines[0]
    } else {
        join(lines.drop_last(), sep) + sep + lines.last()
    }
}

/// The report of a list of failed checks: one line per failed check, in order,
/// separated by a comma and a space.
pub open spec fn error_report(errors: Seq<FieldErrorModel>) -> Seq<char> {
    join(errors.map_values(|e: FieldErrorModel| error_line(e)), ", "@)
}

/// Formats the failed checks of a payload into one readable text:
/// `field: message` for each, separated by `, `.
pub fn format_validation_errors(errors: &ValidationErrors) -> (r: String)
    ensures
        r@ == error_report(errors@),
{
    let mut out = String::new();
    let n: usize = errors.errors.len();
    let ghost lines = errors@.map_values(|e: FieldErrorModel| error_line(e));
    let mut i: usize = 0;
    while i < n
        invariant
            n == errors.errors@.len(),
            lines == errors@.map_values(|e: FieldErrorModel| error_line(e)),
            i <= n,
            out@ == join(lines.take(i as int), ", "@),
        decreases n - i,
    {
        let e = &errors.errors[i];
        assert(lines.take(i + 1).drop_last() =~= lines.take(i as int));
        assert(lines.take(i + 1).last() == error_line(e@));
        if i > 0 {
            out.append(", ");
        }
        out.append(e.field.as_str());
        out.append(": ");
        match &e.message {
            Some(m) => out.append(m.as_str()),
            None => out.append("Validation error"),
        }
        proof {
            if i == 0 {
                assert(out@ =~= error_line(e@));
            } else {
                assert(out@ =~= join(lines.take(i as int), ", "@) + ", "@ + error_line(e@));
            }
        }
        i = i + 1;
    }
    assert(lines.take(n as int) =~= lines);
    out
}

} // verus!
