//! Properties of the library that relate several calls.
use vstd::prelude::*;
use crate::api_error::ApiError;
use crate::config::{
    all_digits, ascii_lower, decimal_value, dev_mode_named, dev_mode_text, port_named, port_text,
    to_ascii_lowercase, DevMode,
};
use crate::jwt::{claims_at, Claims, LAST_REPRESENTABLE_SECOND};
use crate::response::sent_status;
use crate::flows::auth::{is_session_cookie, SameSitePolicy, SessionCookie};
use crate::dtos::auth_dto::{LoginUserDto, RegisterUserDto};
use crate::dtos::project_dto::{CreateProjectPayload, UpdateProjectPayload};
use crate::dtos::task_dto::{CreateTaskPayload, TaskQuery, UpdateTaskPayload};
use crate::dtos::task_priority_dto::{CreateTaskPriorityPayload, UpdateTaskPriorityPayload};
use crate::dtos::task_status_dto::{CreateTaskStatusPayload, UpdateTaskStatusPayload};
use crate::dtos::workspace_dto::{CreateWorkspacePayload, UpdateWorkspacePayload};
use crate::hash::is_argon2id_phc;
use crate::validation::{email_accepted, error_line, error_report, join, FieldErrorModel};

verus! {

/// Lower-casing an ASCII-lower-cased character changes nothing.
proof fn lemma_ascii_lower_idempotent(c: char)
    ensures
        ascii_lower(ascii_lower(c)) == ascii_lower(c),
{
}

/// `DEV_MODE` is read without regard to ASCII case: a value names the same mode as
/// its lower-cased form.
pub proof fn dev_mode_ignores_ascii_case(value: Seq<char>)
    ensures
        dev_mode_named(to_ascii_lowercase(value)) == dev_mode_named(value),
{
    assert forall|i: int| 0 <= i < value.len() implies #[trigger] to_ascii_lowercase(
        to_ascii_lowercase(value),
    )[i] == to_ascii_lowercase(value)[i] by {
        lemma_ascii_lower_idempotent(value[i]);
    }
    assert(to_ascii_lowercase(to_ascii_lowercase(value)) =~= to_ascii_lowercase(value));
}

/// Consecutive pages of a task listing follow each other: with the same page size,
/// page `p + 1` starts where page `p` ends.
pub proof fn consecutive_pages_adjoin(a: TaskQuery, b: TaskQuery)
    requires
        a.window_fits(),
        b.window_fits(),
        a.spec_page_size() == b.spec_page_size(),
        b.spec_page() == a.spec_page() + 1,
    ensures
        b.spec_offset() == a.spec_offset() + a.spec_page_size(),
{
    let s: int = a.spec_page_size() as int;
    let p: int = a.spec_page() as int;
    assert(p * s == (p - 1) * s + s) by (nonlinear_arith);
}

/// A stored password hash is never the password itself: an Argon2id PHC string is
/// longer than any password that passes validation (at most 12 characters).
pub proof fn stored_hash_is_not_the_password(hash: Seq<char>, password: Seq<char>)
    requires
        is_argon2id_phc(hash),
        password.len() <= 12,
    ensures
        hash != password,
{
}

/// Joined lines are at least as long as the last line.
proof fn lemma_join_covers_last(lines: Seq<Seq<char>>, sep: Seq<char>)
    requires
        lines.len() > 0,
    ensures
        join(lines, sep).len() >= lines.last().len(),
{
}

/// A validation report is empty exactly when no check failed: every failed check
/// is reported with a line of its own, and a report line is never empty.
pub proof fn report_empty_iff_no_failure(failures: Seq<FieldErrorModel>)
    ensures
        (error_report(failures).len() == 0) <==> (failures.len() == 0),
{
    let lines = failures.map_values(|e: FieldErrorModel| error_line(e));
    if failures.len() > 0 {
        lemma_join_covers_last(lines, ", "@);
        let last = failures.last();
        reveal_strlit(": ");
        assert(lines.last() == error_line(last));
        assert(error_line(last).len() >= 2);
    } else {
        assert(lines.len() == 0);
    }
}

/// A task listing takes the page size asked for as it is, and 20 where none is
/// asked for; it skips `(page - 1)` such pages, none where no page is asked for.
pub proof fn listing_window_is_the_one_asked(q: TaskQuery)
    ensures
        q.page_size matches Some(s) ==> q.spec_page_size() == s,
        q.page_size is None ==> q.spec_page_size() == 20,
        q.page matches Some(p) ==> q.spec_offset() == (p - 1) * q.spec_page_size(),
        q.page is None ==> q.spec_offset() == 0,
{
    let s: int = q.spec_page_size() as int;
    assert(0 * s == 0) by (nonlinear_arith);
}

/// A new task passes its checks exactly when its title has 2 to 100 characters and
/// its description, if it has one, at most 1000.
pub proof fn new_task_valid_within_bounds(p: CreateTaskPayload)
    ensures
        p.failures().len() == 0 <==> (2 <= p.title@.len() <= 100 && (p.description matches Some(d)
            ==> d@.len() <= 1000)),
{
}

/// A task change passes its checks exactly when its title, if given, has 2 to 100
/// characters and its description, if given, at most 1000.
pub proof fn task_change_valid_within_bounds(p: UpdateTaskPayload)
    ensures
        p.failures().len() == 0 <==> ((p.title matches Some(t) ==> 2 <= t@.len() <= 100) && (
        p.description matches Some(d) ==> d@.len() <= 1000)),
{
}

/// Creating and changing a task accept the same titles and descriptions: a change
/// that carries both passes exactly when a new task with them does.
pub proof fn task_create_and_change_agree(c: CreateTaskPayload, u: UpdateTaskPayload)
    requires
        u.title matches Some(t) && t@ == c.title@,
        u.description == c.description,
    ensures
        (c.failures().len() == 0) == (u.failures().len() == 0),
{
}

/// A new project passes its checks exactly when its name has 2 to 100 characters
/// and its description, if it has one, at most 500.
pub proof fn new_project_valid_within_bounds(p: CreateProjectPayload)
    ensures
        p.failures().len() == 0 <==> (2 <= p.name@.len() <= 100 && (p.description matches Some(d)
            ==> d@.len() <= 500)),
{
}

/// A project change passes its checks exactly when its name, if given, has 2 to 100
/// characters and its description, if given, at most 500.
pub proof fn project_change_valid_within_bounds(p: UpdateProjectPayload)
    ensures
        p.failures().len() == 0 <==> ((p.name matches Some(n) ==> 2 <= n@.len() <= 100) && (
        p.description matches Some(d) ==> d@.len() <= 500)),
{
}

/// Creating and changing a project accept the same names and descriptions.
pub proof fn project_create_and_change_agree(c: CreateProjectPayload, u: UpdateProjectPayload)
    requires
        u.name matches Some(n) && n@ == c.name@,
        u.description == c.description,
    ensures
        (c.failures().len() == 0) == (u.failures().len() == 0),
{
}

/// A workspace name passes, on creation and on renaming alike, exactly when it has
/// 2 to 100 characters.
pub proof fn workspace_name_valid_within_bounds(c: CreateWorkspacePayload, u: UpdateWorkspacePayload)
    ensures
        c.failures().len() == 0 <==> 2 <= c.name@.len() <= 100,
        u.failures().len() == 0 <==> 2 <= u.name@.len() <= 100,
{
}

/// A task priority or task status name passes, on creation and, where given, on
/// renaming, exactly when it has 2 to 50 characters.
pub proof fn catalog_names_valid_within_bounds(
    cp: CreateTaskPriorityPayload,
    up: UpdateTaskPriorityPayload,
    cs: CreateTaskStatusPayload,
    us: UpdateTaskStatusPayload,
)
    ensures
        cp.failures().len() == 0 <==> 2 <= cp.name@.len() <= 50,
        up.failures().len() == 0 <==> (up.name matches Some(n) ==> 2 <= n@.len() <= 50),
        cs.failures().len() == 0 <==> 2 <= cs.name@.len() <= 50,
        us.failures().len() == 0 <==> (us.name matches Some(n) ==> 2 <= n@.len() <= 50),
{
}

/// A sign-up passes its checks exactly when the name and e-mail are non-empty, the
/// e-mail is a valid address, the password has 6 to 12 characters and the
/// confirmation is the same text as the password.
pub proof fn sign_up_valid_exactly(p: RegisterUserDto)
    ensures
        p.failures().len() == 0 <==> (p.name@.len() >= 1 && p.email@.len() >= 1 && email_accepted(
            p.email@,
        ) && 6 <= p.password@.len() <= 12 && p.confirm_password@ == p.password@),
{
}

/// A login passes its checks exactly when the e-mail is non-empty and a valid
/// address and the password has 6 to 12 characters.
pub proof fn login_valid_exactly(p: LoginUserDto)
    ensures
        p.failures().len() == 0 <==> (p.email@.len() >= 1 && email_accepted(p.email@) && 6
            <= p.password@.len() <= 12),
{
}

/// A session token issued at a representable time `now` expires exactly seven days
/// (604800 seconds) later, and names the user it was issued to.
pub proof fn token_expires_a_week_after_issue(user_id: u128, now: i64)
    requires
        0 <= now,
        now + 604800 <= LAST_REPRESENTABLE_SECOND,
    ensures
        claims_at(user_id, now) == (Claims { sub: user_id, exp: (now + 604800) as usize }),
{
}

/// Each error is answered with its HTTP status: 401 unauthorized, 404 not found,
/// 400 bad request, 500 internal error, 409 conflict, 403 forbidden.
pub proof fn error_status_codes(e: ApiError)
    ensures
        e is Unauthorized ==> e.spec_status() == 401,
        e is NotFound ==> e.spec_status() == 404,
        e is BadRequest ==> e.spec_status() == 400,
        e is InternalServerError ==> e.spec_status() == 500,
        e is Conflict ==> e.spec_status() == 409,
        e is Forbidden ==> e.spec_status() == 403,
{
}

/// A success answer is sent with its own code where that is a status from 100 to
/// 999, and with 200 otherwise.
pub proof fn answer_sent_with_its_own_code(code: u16)
    ensures
        100 <= code <= 999 ==> sent_status(code) == code,
        !(100 <= code <= 999) ==> sent_status(code) == 200,
{
}

/// `DEV_MODE` names a mode exactly when, lower-cased, it is `development` or `dev`
/// (development), `test` (test), or `production` or `prod` (production); an unset
/// value means development.
pub proof fn dev_mode_names(value: Seq<char>)
    ensures
        dev_mode_named(value) == Some(DevMode::Development) <==> (to_ascii_lowercase(value)
            == "development"@ || to_ascii_lowercase(value) == "dev"@),
        dev_mode_named(value) == Some(DevMode::Test) <==> to_ascii_lowercase(value) == "test"@,
        dev_mode_named(value) == Some(DevMode::Production) <==> (to_ascii_lowercase(value)
            == "production"@ || to_ascii_lowercase(value) == "prod"@),
        dev_mode_named(dev_mode_text(None)) == Some(DevMode::Development),
{
    reveal_strlit("development");
    reveal_strlit("dev");
    reveal_strlit("test");
    reveal_strlit("production");
    reveal_strlit("prod");
    let d: Seq<char> = seq!['d', 'e', 'v', 'e', 'l', 'o', 'p', 'm', 'e', 'n', 't'];
    assert(to_ascii_lowercase(d) =~= d);
    assert("development"@ =~= d);
    assert("dev"@ =~= seq!['d', 'e', 'v']);
    assert("test"@ =~= seq!['t', 'e', 's', 't']);
    assert("production"@ =~= seq!['p', 'r', 'o', 'd', 'u', 'c', 't', 'i', 'o', 'n']);
    assert("prod"@ =~= seq!['p', 'r', 'o', 'd']);
}

/// The value of a text of decimal digits is not negative.
proof fn lemma_decimal_value_nonnegative(s: Seq<char>)
    requires
        all_digits(s),
    ensures
        decimal_value(s) >= 0,
    decreases s.len(),
{
    if s.len() > 0 {
        let d = s.drop_last();
        assert(all_digits(d)) by {
            assert forall|i: int| 0 <= i < d.len() implies crate::config::is_digit(#[trigger] d[i]) by {
                assert(d[i] == s[i]);
            }
        }
        assert(crate::config::is_digit(s[s.len() - 1]));
        lemma_decimal_value_nonnegative(d);
    }
}

/// A `PORT` value is read in decimal: appending a digit to a port text multiplies
/// its port by ten and adds the digit, and names a port exactly when that stays at
/// most 65535. An unset `PORT` means 5000.
pub proof fn port_read_in_decimal(s: Seq<char>, c: char)
    requires
        s.len() > 0,
        all_digits(s),
        '0' <= c <= '9',
    ensures
        port_named(s) matches Some(v) ==> (port_named(s.push(c)) == (if v * 10 + (c as int - '0' as int)
            <= 65535 {
            Some((v * 10 + (c as int - '0' as int)) as u16)
        } else {
            None::<u16>
        })),
        port_named(s.push(c)) matches Some(w) ==> (port_named(s) matches Some(v) && w == v * 10 + (
        c as int - '0' as int)),
        port_named(port_text(None)) == Some(5000u16),
{
    let t = s.push(c);
    assert(s[0] != '+') by {
        assert(crate::config::is_digit(s[0]));
    }
    assert(t[0] == s[0]);
    assert(t.drop_last() =~= s);
    assert(all_digits(t)) by {
        assert forall|i: int| 0 <= i < t.len() implies crate::config::is_digit(#[trigger] t[i]) by {
            if i < s.len() {
                assert(t[i] == s[i]);
            }
        }
    }
    lemma_decimal_value_nonnegative(s);
    let five: Seq<char> = seq!['5', '0', '0', '0'];
    assert(five.drop_last() =~= seq!['5', '0', '0']);
    assert(five.drop_last().drop_last() =~= seq!['5', '0']);
    assert(five.drop_last().drop_last().drop_last() =~= seq!['5']);
    assert(seq!['5'].drop_last() =~= Seq::<char>::empty());
    assert(decimal_value(Seq::<char>::empty()) == 0);
    assert(seq!['5'].last() == '5');
    assert(decimal_value(seq!['5']) == 5);
    assert(decimal_value(seq!['5', '0']) == 50);
    assert(decimal_value(seq!['5', '0', '0']) == 500);
    assert(decimal_value(five) == 5000);
    assert(all_digits(five));
}

/// The session cookie is named `token` and carries the token itself, on path `/`,
/// hidden from scripts and sent on top-level navigation (`SameSite=Lax`); it is
/// sent over plain HTTP in development only.
pub proof fn session_cookie_attributes(c: SessionCookie, token: Seq<char>, dev_mode: DevMode)
    requires
        is_session_cookie(c, token, dev_mode),
    ensures
        c.name@ == "token"@,
        c.value@ == token,
        c.path@ == "/"@,
        c.http_only,
        c.same_site == SameSitePolicy::Lax,
        dev_mode == DevMode::Development ==> !c.secure,
        dev_mode == DevMode::Production ==> c.secure,
        dev_mode == DevMode::Test ==> c.secure,
{
}

/// A validation report names each failed field with its message, `field: message`,
/// and puts `, ` between the reports of consecutive failures.
pub proof fn report_lists_failures_in_order(failures: Seq<FieldErrorModel>, e: FieldErrorModel, m: Seq<char>)
    requires
        e.message == Some(m),
    ensures
        failures.len() == 0 ==> error_report(failures.push(e)) == e.field + ": "@ + m,
        failures.len() > 0 ==> error_report(failures.push(e)) == error_report(failures) + ", "@
            + e.field + ": "@ + m,
{
    let lines = failures.map_values(|f: FieldErrorModel| error_line(f));
    let more = failures.push(e).map_values(|f: FieldErrorModel| error_line(f));
    assert(more.drop_last() =~= lines);
    assert(more.last() == error_line(e));
    if failures.len() > 0 {
        assert(error_report(failures.push(e)) =~= error_report(failures) + ", "@ + (e.field + ": "@ + m));
    }
}

} // verus!
