use vstd::prelude::*;

use crate::models::NewUserRequest;

verus! {

/// One failed validation rule: a machine-readable kind and a human message.
#[derive(Debug)]
pub struct Violation {
    /// Machine-readable rule identifier, e.g. `"email"` or `"length"`.
    pub kind: String,
    /// Human-readable description of the failed rule.
    pub message: String,
}

/// Field-keyed validation report for a `NewUserRequest`: every violated
/// rule of each field, collected without short-circuiting.
#[derive(Debug)]
pub struct ValidationReport {
    /// Violations recorded against the `email` field.
    pub email: Vec<Violation>,
    /// Violations recorded against the `name` field.
    pub name: Vec<Violation>,
}

/// `i` points at the first `'@'` of `s`, with a non-empty local part
/// before it and at least one character after it.
pub open spec fn splits_email(s: Seq<char>, i: int) -> bool {
    &&& 0 < i < s.len() - 1
    &&& s[i] == '@'
    &&& forall|k: int| 0 <= k < i ==> s[k] != '@'
}

/// Some `'.'` occurs strictly after position `i` of `s`.
pub open spec fn dot_after(s: Seq<char>, i: int) -> bool {
    exists|j: int| i < j < s.len() && s[j] == '.'
}

/// The email grammar the service accepts: a non-empty local part, one
/// separating `'@'`, and a non-empty domain part holding at least one `'.'`.
pub open spec fn valid_email(s: Seq<char>) -> bool {
    exists|i: int| splits_email(s, i) && dot_after(s, i)
}

/// The name rule: at least three characters.
pub open spec fn valid_name(s: Seq<char>) -> bool {
    s.len() >= 3
}

/// A create-request payload passes validation as a whole.
pub open spec fn request_valid(req: NewUserRequest) -> bool {
    valid_email(req.email@) && valid_name(req.name@)
}

/// What a report says about one field: exactly one violation carrying the
/// rule's kind and message when the rule fails, and no entry when it holds.
pub open spec fn field_entry_ok(
    entries: Seq<Violation>,
    ok: bool,
    kind: Seq<char>,
    message: Seq<char>,
) -> bool {
    if ok {
        entries.len() == 0
    } else {
        entries.len() == 1 && entries[0].kind@ == kind && entries[0].message@ == message
    }
}

/// The exact report `validate` produces for `req`.
pub open spec fn report_for(rep: ValidationReport, req: NewUserRequest) -> bool {
    &&& field_entry_ok(
        rep.email@,
        valid_email(req.email@),
        "email"@,
        "Please supply a valid email address"@,
    )
    &&& field_entry_ok(
        rep.name@,
        valid_name(req.name@),
        "length"@,
        "Name must be at least three characters long"@,
    )
}

/// Everything `validate` promises of its result.
pub open spec fn validate_post(req: NewUserRequest, r: Result<NewUserRequest, ValidationReport>) -> bool {
    &&& r is Ok <==> request_valid(req)
    &&& (r matches Ok(v) ==> v == req)
    &&& (r matches Err(rep) ==> report_for(rep, req))
}

/// Index of the first occurrence of `c` in `s` at or after `from`.
fn find_char_from(s: &String, from: usize, c: char) -> (r: Option<usize>)
    requires
        from <= s@.len(),
    ensures
        match r {
            Some(i) => {
                &&& from <= i < s@.len()
                &&& s@[i as int] == c
                &&& forall|k: int| from <= k < i ==> s@[k] != c
            },
            None => forall|k: int| from <= k < s@.len() ==> s@[k] != c,
        },
{
    let n: usize = s.as_str().unicode_len();
    let mut i: usize = from;
    while i < n
        invariant
            from <= i <= n,
            n == s@.len(),
            forall|k: int| from <= k < i ==> s@[k] != c,
        decreases n - i,
    {
        if s.as_str().get_char(i) == c {
            return Some(i);
        }
        i = i + 1;
    }
    None
}

/// Decide the email grammar for an actual string.
pub fn is_valid_email(s: &String) -> (r: bool)
    ensures
        r == valid_email(s@),
{
    let n: usize = s.as_str().unicode_len();
    match find_char_from(s, 0, '@') {
        Some(a) => {
            if a == 0 || a + 1 >= n {
                proof {
                    assert forall|i: int| !(splits_email(s@, i) && dot_after(s@, i)) by {
                        if splits_email(s@, i) {
                            if i < a {
                                assert(s@[i] != '@');
                            } else if i > a {
                                assert(s@[a as int] != '@');
                            }
                        }
                    }
                }
                false
            } else {
                match find_char_from(s, a + 1, '.') {
                    Some(d) => {
                        proof {
                            assert(splits_email(s@, a as int));
                            assert(dot_after(s@, a as int));
                        }
                        true
                    },
                    None => {
                        proof {
                            assert forall|i: int| !(splits_email(s@, i) && dot_after(s@, i)) by {
                                if splits_email(s@, i) && dot_after(s@, i) {
                                    if i < a {
                                        assert(s@[i] != '@');
                                    } else if i > a {
                                        assert(s@[a as int] != '@');
                                    } else {
                                        let j = choose|j: int| i < j < s@.len() && s@[j] == '.';
                                        assert(s@[j] != '.');
                                    }
                                }
                            }
                        }
                        false
                    },
                }
            }
        },
        None => {
            proof {
                assert forall|i: int| !(splits_email(s@, i) && dot_after(s@, i)) by {
                    if splits_email(s@, i) {
                        assert(s@[i] != '@');
                    }
                }
            }
            false
        },
    }
}

/// Decide the name rule for an actual string.
pub fn is_valid_name(s: &String) -> (r: bool)
    ensures
        r == valid_name(s@),
{
    s.as_str().unicode_len() >= 3
}

/// Validate a create-request payload.
///
/// Both rules are evaluated independently and every violation is collected:
/// nothing short-circuits. On success the input is returned unchanged
/// (validation is pass-through, not normalizing).
pub fn validate(req: &NewUserRequest) -> (r: Result<NewUserRequest, ValidationReport>)
    ensures
        validate_post(*req, r),
{
    let email_ok = is_valid_email(&req.email);
    let name_ok = is_valid_name(&req.name);
    if email_ok && name_ok {
        Ok(req.duplicate())
    } else {
        let mut email_entries: Vec<Violation> = Vec::new();
        let mut name_entries: Vec<Violation> = Vec::new();
        if !email_ok {
            email_entries.push(Violation {
                kind: String::from_str("email"),
                message: String::from_str("Please supply a valid email address"),
            });
        }
        if !name_ok {
            name_entries.push(Violation {
                kind: String::from_str("length"),
                message: String::from_str("Name must be at least three characters long"),
            });
        }
        Err(ValidationReport { email: email_entries, name: name_entries })
    }
}

/// An empty string is not a valid email address.
pub proof fn lemma_empty_email_invalid(s: Seq<char>)
    requires
        s.len() == 0,
    ensures
        !valid_email(s),
{
    assert forall|i: int| !(splits_email(s, i) && dot_after(s, i)) by {}
}

/// Validation is idempotent: when validating a request succeeds, the result
/// is the input itself, and validating that result again succeeds with the
/// same request unchanged.
pub proof fn lemma_validate_idempotent(
    req: NewUserRequest,
    v: NewUserRequest,
    r2: Result<NewUserRequest, ValidationReport>,
)
    requires
        validate_post(req, Ok(v)),
        validate_post(v, r2),
    ensures
        v == req,
        r2 == Ok::<NewUserRequest, ValidationReport>(v),
{
}

} // verus!
