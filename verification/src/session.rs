//! Login sessions and password resets.

use crate::datetime::{EARLIEST_CLOCK_TIME, LATEST_CLOCK_TIME, SECONDS_PER_DAY};
use crate::error::GreaseError;
use crate::member::{hash_password, spec_password_matches, Member, MemberForSemester};
use crate::text::{concat3, decimal, digit_char, int_decimal, nat_decimal, owned};
use vstd::prelude::*;

verus! {

/// A member's login session, or a pending password reset.
#[derive(Debug)]
pub struct Session {
    /// The email of the member.
    pub member: String,
    /// The key that identifies the session.
    pub key: String,
}

/// An email to send.
#[derive(Debug)]
pub struct Email {
    /// Who it goes to.
    pub to_address: String,
    /// Its subject.
    pub subject: String,
    /// Its body.
    pub content: String,
}

/// What a request for a password reset stores and sends.
#[derive(Debug)]
pub struct PasswordResetRequest {
    /// The session whose key is the reset token.
    pub session: Session,
    /// The link that resets the password.
    pub reset_url: String,
    /// The email to the member.
    pub email: Email,
}

/// A new password hash for a member.
#[derive(Debug)]
pub struct PasswordChange {
    /// The email of the member.
    pub member: String,
    /// The hash to store.
    pub pass_hash: String,
}

/// Whether a character is a lower-case hexadecimal digit or a hyphen.
pub open spec fn is_uuid_char(c: char) -> bool {
    ('0' <= c && c <= '9') || ('a' <= c && c <= 'f') || c == '-'
}

/// A UUID in its hyphenated lower-case form.
pub open spec fn is_uuid_text(text: Seq<char>) -> bool {
    text.len() == 36 && forall|i: int| 0 <= i < 36 ==> is_uuid_char(#[trigger] text[i])
}

/// A new random (version 4) UUID, hyphenated.
///
/// Calls `uuid::Uuid::new_v4().to_string()`. The value is random; what is
/// trusted is its form, 36 lower-case hex digits and hyphens, as uuid's
/// `Display` writes it.
#[verifier::external_body]
fn new_uuid_text() -> (text: String)
    ensures
        is_uuid_text(text@),
{
    uuid::Uuid::new_v4().to_string()
}

/// The current UTC time in milliseconds since the epoch.
///
/// Calls chrono's `Utc::now().timestamp_millis()`. The value depends on the
/// machine's clock; what is promised is that it lies in chrono's range.
#[verifier::external_body]
fn utc_now_millis() -> (now: i64)
    ensures
        EARLIEST_CLOCK_TIME * 1000 <= now <= LATEST_CLOCK_TIME * 1000 + 999,
{
    chrono::Utc::now().timestamp_millis()
}

/// The current UTC time as whole seconds since the epoch and nanoseconds
/// into the second.
///
/// Calls chrono's `Utc::now()`, then `timestamp()` and
/// `timestamp_subsec_nanos()`. The value depends on the machine's clock;
/// what is promised is chrono's range, and that the nanoseconds stay below
/// two billion (they pass one billion only in a leap second).
#[verifier::external_body]
fn utc_now_parts() -> (now: (i64, u32))
    ensures
        EARLIEST_CLOCK_TIME <= now.0 <= LATEST_CLOCK_TIME,
        now.1 < 2_000_000_000,
{
    let now = chrono::Utc::now();
    (now.timestamp(), now.timestamp_subsec_nanos())
}

/// Whether a character is a decimal digit.
pub open spec fn is_digit(c: char) -> bool {
    '0' <= c && c <= '9'
}

/// The number that a run of decimal digits spells.
pub open spec fn digits_value(digits: Seq<char>) -> int
    decreases digits.len(),
{
    if digits.len() == 0 {
        0
    } else {
        digits_value(digits.drop_last()) * 10 + (digits.last() as int - '0' as int)
    }
}

/// A text spelling a number: digits only, at least one.
pub open spec fn is_digit_run(digits: Seq<char>) -> bool {
    digits.len() > 0 && forall|i: int| 0 <= i < digits.len() ==> is_digit(#[trigger] digits[i])
}

/// The `i64` that a text spells as std's `str::parse::<i64>` reads it: an
/// optional `+` or `-` sign, then one or more decimal digits, with a value
/// in range.
pub open spec fn spec_parse_i64(text: Seq<char>) -> Option<int> {
    let signed = text.len() > 0 && (text[0] == '-' || text[0] == '+');
    let digits = if signed { text.drop_first() } else { text };
    let value = if signed && text[0] == '-' { -digits_value(digits) } else { digits_value(digits) };
    if is_digit_run(digits) && i64::MIN <= value <= i64::MAX {
        Some(value)
    } else {
        None
    }
}

/// The position of the first `X` in a text.
pub open spec fn first_x(text: Seq<char>) -> Option<int>
    decreases text.len(),
{
    if text.len() == 0 {
        None
    } else if text[0] == 'X' {
        Some(0)
    } else {
        match first_x(text.drop_first()) {
            Some(i) => Some(i + 1),
            None => None,
        }
    }
}

/// The second piece of a text split at each `X`, if there is one.
pub open spec fn second_piece(text: Seq<char>) -> Option<Seq<char>> {
    match first_x(text) {
        None => None,
        Some(i) => {
            let rest = text.subrange(i + 1, text.len() as int);
            match first_x(rest) {
                None => Some(rest),
                Some(j) => Some(rest.subrange(0, j)),
            }
        },
    }
}

/// When a password reset was requested, in milliseconds, as its token
/// records it.
pub open spec fn spec_requested_millis(key: Seq<char>) -> Option<int> {
    match second_piece(key) {
        Some(piece) => spec_parse_i64(piece),
        None => None,
    }
}

/// Whole seconds of a count of milliseconds, rounded toward zero.
pub open spec fn whole_seconds(millis: int) -> int {
    if millis >= 0 {
        millis / 1000
    } else {
        -((-millis) / 1000)
    }
}

/// Whether a reset token is still good at the time `now_seconds` (and
/// `now_nanos` into that second): it records when it was requested, and
/// the moment a day after that second has not passed.
pub open spec fn spec_token_fresh(key: Seq<char>, now_seconds: int, now_nanos: int) -> bool {
    match spec_requested_millis(key) {
        Some(millis) => {
            let expiry = whole_seconds(millis) + SECONDS_PER_DAY;
            expiry > now_seconds || (expiry == now_seconds && now_nanos == 0)
        },
        None => false,
    }
}

/// The token of a password reset requested at `now_millis`: the first 32
/// characters of a UUID, an `X`, and the time.
pub open spec fn spec_reset_token(uuid_text: Seq<char>, now_millis: int) -> Seq<char> {
    uuid_text.take(32) + seq!['X'] + int_decimal(now_millis)
}

/// The link that resets a password with `token`.
pub open spec fn spec_reset_url(token: Seq<char>) -> Seq<char> {
    "https://gleeclub.gatech.edu/glubhub/#/reset-password/"@ + token
}

/// The message for a reset with an unknown token.
pub open spec fn unknown_token_message() -> Seq<char> {
    "No password reset request was found for the given token. Please request another password reset."@
}

/// The message for a reset with a token more than a day old.
pub open spec fn expired_token_message() -> Seq<char> {
    "Your token expired after 24 hours. Please request another password reset."@
}

/// The start of the message for a new password that could not be hashed.
pub open spec fn reset_hash_failure_prefix() -> Seq<char> {
    "Unable to hash new password: "@
}

/// Whether the time a token records, if any, is one the calendar can
/// represent a day past.
pub open spec fn requested_time_in_range(key: Seq<char>) -> bool {
    match spec_requested_millis(key) {
        Some(millis) => EARLIEST_CLOCK_TIME <= whole_seconds(millis) && whole_seconds(millis) + SECONDS_PER_DAY
            <= LATEST_CLOCK_TIME,
        None => true,
    }
}

/// What a password reset with the session found for its token gives at
/// the time `now_seconds` (and `now_nanos` into that second): an error for
/// an unknown token or one more than a day old; otherwise the member's new
/// password hash, which opens their login with the new password, or a
/// server error when hashing failed.
pub open spec fn reset_outcome(
    token_session: Option<Session>,
    new_password: Seq<char>,
    now_seconds: int,
    now_nanos: int,
    result: Result<PasswordChange, GreaseError>,
) -> bool {
    match token_session {
        None => result matches Err(GreaseError::BadRequest(m)) && m@ == unknown_token_message(),
        Some(s) => if !spec_token_fresh(s.key@, now_seconds, now_nanos) {
            result matches Err(GreaseError::BadRequest(m)) && m@ == expired_token_message()
        } else {
            match result {
                Ok(change) => change.member == s.member && spec_password_matches(new_password, change.pass_hash@),
                Err(GreaseError::ServerError(m)) => exists|reason: Seq<char>|
                    m@ == reset_hash_failure_prefix() + reason,
                Err(_) => false,
            }
        },
    }
}

fn first_x_from(text: &str, from: usize) -> (found: Option<usize>)
    requires
        from <= text@.len(),
    ensures
        match first_x(text@.subrange(from as int, text@.len() as int)) {
            Some(i) => found == Some((from + i) as usize),
            None => found is None,
        },
        found matches Some(k) ==> from <= k < text@.len(),
{
    let n = text.unicode_len();
    let mut i: usize = from;
    while i < n
        invariant
            n == text@.len(),
            from <= i <= n,
            forall|k: int| from <= k < i ==> text@[k] != 'X',
        decreases n - i,
    {
        if text.get_char(i) == 'X' {
            proof {
                lemma_first_x_at(text@.subrange(from as int, n as int), (i - from) as int);
            }
            return Some(i);
        }
        i += 1;
    }
    proof {
        lemma_no_x(text@.subrange(from as int, n as int));
    }
    None
}

proof fn lemma_first_x_at(text: Seq<char>, i: int)
    requires
        0 <= i < text.len(),
        text[i] == 'X',
        forall|k: int| 0 <= k < i ==> text[k] != 'X',
    ensures
        first_x(text) == Some(i),
    decreases i,
{
    if i > 0 {
        lemma_first_x_at(text.drop_first(), i - 1);
    }
}

proof fn lemma_first_x_in_range(text: Seq<char>)
    ensures
        first_x(text) matches Some(k) ==> 0 <= k < text.len() && text[k] == 'X',
    decreases text.len(),
{
    if text.len() > 0 {
        lemma_first_x_in_range(text.drop_first());
    }
}

proof fn lemma_no_x(text: Seq<char>)
    requires
        forall|k: int| 0 <= k < text.len() ==> text[k] != 'X',
    ensures
        first_x(text) is None,
    decreases text.len(),
{
    if text.len() > 0 {
        lemma_no_x(text.drop_first());
    }
}

proof fn lemma_digits_value_grows(digits: Seq<char>, k: int)
    requires
        0 <= k <= digits.len(),
        forall|i: int| 0 <= i < digits.len() ==> is_digit(#[trigger] digits[i]),
    ensures
        0 <= digits_value(digits.take(k)) <= digits_value(digits),
    decreases digits.len(),
{
    if digits.len() > 0 {
        if k == digits.len() {
            assert(digits.take(k) =~= digits);
            lemma_digits_value_grows(digits.drop_last(), k - 1);
            assert(digits.drop_last().take(k - 1) =~= digits.drop_last());
        } else {
            lemma_digits_value_grows(digits.drop_last(), k);
            assert(digits.drop_last().take(k) =~= digits.take(k));
            lemma_digits_value_grows(digits.drop_last(), digits.len() - 1);
            assert(digits.drop_last().take(digits.len() - 1) =~= digits.drop_last());
        }
    }
}

/// Reads a number as std's `str::parse::<i64>` does.
pub fn parse_i64(text: &str) -> (value: Option<i64>)
    ensures
        match spec_parse_i64(text@) {
            Some(v) => value == Some(v as i64),
            None => value is None,
        },
{
    let n = text.unicode_len();
    if n == 0 {
        return None;
    }
    let first = text.get_char(0);
    let negative = first == '-';
    let start: usize = if first == '-' || first == '+' { 1 } else { 0 };
    let ghost signed = text@[0] == '-' || text@[0] == '+';
    let ghost digits = if signed { text@.drop_first() } else { text@ };
    proof {
        assert(digits =~= text@.subrange(start as int, n as int));
    }
    if start == n {
        return None;
    }
    let mut value: i128 = 0;
    let mut i: usize = start;
    while i < n
        invariant
            n == text@.len(),
            start <= i <= n,
            start == 0 || start == 1,
            digits == text@.subrange(start as int, n as int),
            digits == (if text@.len() > 0 && (text@[0] == '-' || text@[0] == '+') {
                text@.drop_first()
            } else {
                text@
            }),
            forall|k: int| 0 <= k < i - start ==> is_digit(#[trigger] digits[k]),
            value == digits_value(digits.take(i - start)),
            0 <= value <= 0x8000_0000_0000_0000,
        decreases n - i,
    {
        let c = text.get_char(i);
        proof {
            assert(digits[i - start] == c);
        }
        if !('0' <= c && c <= '9') {
            proof {
                assert(!is_digit_run(digits));
            }
            return None;
        }
        proof {
            assert(digits.take(i - start + 1).drop_last() =~= digits.take(i - start));
        }
        value = value * 10 + ((c as u32) - ('0' as u32)) as i128;
        proof {
            assert(value == digits_value(digits.take(i - start + 1)));
        }
        if value > 0x8000_0000_0000_0000 {
            proof {
                if is_digit_run(digits) {
                    lemma_digits_value_grows(digits, i - start + 1);
                    assert(digits_value(digits) > 0x8000_0000_0000_0000);
                }
            }
            return None;
        }
        i += 1;
    }
    proof {
        assert(digits.take(n - start) =~= digits);
        assert(is_digit_run(digits));
        assert(value == digits_value(digits));
    }
    if negative {
        Some((0 - value) as i64)
    } else if value <= 0x7fff_ffff_ffff_ffff {
        Some(value as i64)
    } else {
        None
    }
}

proof fn lemma_decimal_digits(n: nat)
    ensures
        is_digit_run(nat_decimal(n)),
        digits_value(nat_decimal(n)) == n,
        nat_decimal(n)[0] != '-' && nat_decimal(n)[0] != '+',
        forall|i: int| 0 <= i < nat_decimal(n).len() ==> #[trigger] nat_decimal(n)[i] != 'X',
    decreases n,
{
    let d = (n % 10) as int;
    assert(is_digit(digit_char(d)) && digit_char(d) as int - '0' as int == d);
    if n >= 10 {
        lemma_decimal_digits(n / 10);
        let s = nat_decimal(n);
        assert(s.drop_last() =~= nat_decimal(n / 10));
        assert(s.last() == digit_char(d));
        assert(s[0] == nat_decimal(n / 10)[0]);
        assert(digits_value(s) == digits_value(nat_decimal(n / 10)) * 10 + d);
    } else {
        assert(nat_decimal(n).drop_last() =~= Seq::<char>::empty());
        assert(digits_value(Seq::<char>::empty()) == 0);
        assert(nat_decimal(n).last() == digit_char(d));
    }
}

proof fn lemma_int_decimal_parses(value: int)
    requires
        i64::MIN <= value <= i64::MAX,
    ensures
        spec_parse_i64(int_decimal(value)) == Some(value),
        forall|i: int| 0 <= i < int_decimal(value).len() ==> #[trigger] int_decimal(value)[i] != 'X',
{
    if value < 0 {
        lemma_decimal_digits((-value) as nat);
        let s = int_decimal(value);
        assert(s.drop_first() =~= nat_decimal((-value) as nat));
        assert forall|i: int| 0 <= i < s.len() implies #[trigger] s[i] != 'X' by {
            if i > 0 {
                assert(s[i] == nat_decimal((-value) as nat)[i - 1]);
            }
        }
    } else {
        lemma_decimal_digits(value as nat);
    }
}

proof fn lemma_first_x_after(prefix: Seq<char>, rest: Seq<char>)
    requires
        forall|k: int| 0 <= k < prefix.len() ==> prefix[k] != 'X',
    ensures
        first_x(prefix + seq!['X'] + rest) == Some(prefix.len() as int),
{
    let text = prefix + seq!['X'] + rest;
    lemma_first_x_at(text, prefix.len() as int);
}

impl Session {
    /// A new login session for a member, with a random UUID as its key.
    pub fn generate(given_email: String) -> (session: Session)
        ensures
            session.member == given_email,
            is_uuid_text(session.key@),
    {
        Session { member: given_email, key: new_uuid_text() }
    }

    /// The time in milliseconds a reset token records, if it records one.
    pub fn requested_millis(key: &str) -> (millis: Option<i64>)
        ensures
            match spec_requested_millis(key@) {
                Some(m) => millis == Some(m as i64),
                None => millis is None,
            },
    {
        let n = key.unicode_len();
        proof {
            assert(key@.subrange(0, n as int) =~= key@);
        }
        let i = match first_x_from(key, 0) {
            None => {
                return None;
            },
            Some(i) => i,
        };
        let ghost rest = key@.subrange(i + 1, n as int);
        let end = match first_x_from(key, i + 1) {
            None => n,
            Some(j) => j,
        };
        let piece = key.substring_char(i + 1, end);
        proof {
            lemma_first_x_in_range(key@);
            lemma_first_x_in_range(rest);
            assert(first_x(key@) == Some(i as int));
            if end < n {
                assert(first_x(rest) == Some(end - (i + 1)));
                assert(rest.subrange(0, end - (i + 1)) =~= piece@);
            } else {
                assert(first_x(rest) is None);
                assert(rest =~= piece@);
            }
            assert(second_piece(key@) == Some(piece@));
        }
        parse_i64(piece)
    }

    /// What a request at `now_millis` for a reset of the password of the
    /// member with email `email` stores and sends, given the member found
    /// for it and the UUID text the token is made from.
    pub fn forgotten_password_request_at(
        email: String,
        found: &Option<Member>,
        uuid_text: &str,
        now_millis: i64,
    ) -> (result: Result<PasswordResetRequest, GreaseError>)
        requires
            uuid_text@.len() >= 32,
        ensures
            found is None ==> (result matches Err(GreaseError::BadRequest(m)) && m@ == "No member with the email "@
                + email@ + "."@),
            found is Some ==> (result matches Ok(request) && request.session.member == email
                && request.session.key@ == spec_reset_token(uuid_text@, now_millis as int)
                && request.reset_url@ == spec_reset_url(request.session.key@)
                && request.email.to_address == email && request.email.subject@ == "Reset Your Password"@
                && request.email.content@ == ""@),
    {
        if found.is_none() {
            return Err(GreaseError::BadRequest(concat3("No member with the email ", email.as_str(), ".")));
        }
        let random_part = uuid_text.substring_char(0, 32);
        let time_text = decimal(now_millis);
        let token = concat3(random_part, "X", time_text.as_str());
        proof {
            reveal_strlit("X");
            assert(uuid_text@.subrange(0, 32) =~= uuid_text@.take(32));
        }
        let reset_url = concat3("https://gleeclub.gatech.edu/glubhub/#/reset-password/", token.as_str(), "");
        proof {
            reveal_strlit("");
        }
        Ok(
            PasswordResetRequest {
                session: Session { member: email.clone(), key: token },
                reset_url,
                email: Email { to_address: email, subject: owned("Reset Your Password"), content: owned("") },
            },
        )
    }

    /// What a request for a reset of the password of the member with email
    /// `email` stores and sends now.
    pub fn generate_for_forgotten_password(email: String, found: &Option<Member>) -> (result: Result<
        PasswordResetRequest,
        GreaseError,
    >)
        ensures
            found is None ==> (result matches Err(GreaseError::BadRequest(m)) && m@ == "No member with the email "@
                + email@ + "."@),
            found is Some ==> (result is Ok && (result->Ok_0).session.member == email && (exists|
                uuid_text: Seq<char>,
                now_millis: int,
            |
                is_uuid_text(uuid_text) && EARLIEST_CLOCK_TIME * 1000 <= now_millis <= LATEST_CLOCK_TIME * 1000 + 999
                    && #[trigger] spec_reset_token(uuid_text, now_millis) == (
                result->Ok_0).session.key@) && (result->Ok_0).reset_url@ == spec_reset_url(
                (result->Ok_0).session.key@,
            )),
    {
        let uuid_text = new_uuid_text();
        let now = utc_now_millis();
        let result = Self::forgotten_password_request_at(email, found, uuid_text.as_str(), now);
        proof {
            if found is Some {
                assert(spec_reset_token(uuid_text@, now as int) == spec_reset_token(uuid_text@, now as int));
            }
        }
        result
    }

    /// The new password hash to store for a reset at the time
    /// `now_seconds` (and `now_nanos` into that second), with the session
    /// found for the token (`token_session`): refused for an unknown token
    /// and for one more than a day old.
    pub fn reset_password_at(
        token_session: Option<Session>,
        new_password: &str,
        now_seconds: i64,
        now_nanos: u32,
    ) -> (result: Result<PasswordChange, GreaseError>)
        requires
            token_session matches Some(s) ==> requested_time_in_range(s.key@),
        ensures
            reset_outcome(token_session, new_password@, now_seconds as int, now_nanos as int, result),
    {
        let session = match token_session {
            None => {
                return Err(
                    GreaseError::BadRequest(
                        owned(
                            "No password reset request was found for the given token. Please request another password reset.",
                        ),
                    ),
                );
            },
            Some(s) => s,
        };
        let fresh = match Self::requested_millis(session.key.as_str()) {
            Some(millis) => {
                let seconds = millis / 1000;
                proof {
                    assert(seconds == whole_seconds(millis as int));
                }
                let expiry = seconds + SECONDS_PER_DAY;
                expiry > now_seconds || (expiry == now_seconds && now_nanos == 0)
            },
            None => false,
        };
        if !fresh {
            return Err(
                GreaseError::BadRequest(
                    owned("Your token expired after 24 hours. Please request another password reset."),
                ),
            );
        }
        match hash_password(new_password) {
            Ok(pass_hash) => Ok(PasswordChange { member: session.member, pass_hash }),
            Err(reason) => {
                let message = concat3("Unable to hash new password: ", reason.as_str(), "");
                proof {
                    reveal_strlit("");
                    assert(message@ == reset_hash_failure_prefix() + reason@);
                }
                Err(GreaseError::ServerError(message))
            },
        }
    }

    /// The new password hash to store for a reset now.
    pub fn reset_password(token_session: Option<Session>, new_password: &str) -> (result: Result<
        PasswordChange,
        GreaseError,
    >)
        requires
            token_session matches Some(s) ==> requested_time_in_range(s.key@),
        ensures
            exists|now_seconds: int, now_nanos: int|
                EARLIEST_CLOCK_TIME <= now_seconds <= LATEST_CLOCK_TIME && 0 <= now_nanos < 2_000_000_000
                    && #[trigger] reset_outcome(token_session, new_password@, now_seconds, now_nanos, result),
    {
        let (now_seconds, now_nanos) = utc_now_parts();
        let ghost session = token_session;
        let result = Self::reset_password_at(token_session, new_password, now_seconds, now_nanos);
        assert(reset_outcome(session, new_password@, now_seconds as int, now_nanos as int, result));
        result
    }
}

/// A reset token records the time it was requested: reading the time back
/// from the token of a request at `now_millis` gives `now_millis`.
pub proof fn law_reset_token_records_its_time(uuid_text: Seq<char>, now_millis: i64)
    requires
        is_uuid_text(uuid_text),
    ensures
        spec_requested_millis(spec_reset_token(uuid_text, now_millis as int)) == Some(now_millis as int),
{
    let prefix = uuid_text.take(32);
    let time_text = int_decimal(now_millis as int);
    lemma_int_decimal_parses(now_millis as int);
    assert forall|k: int| 0 <= k < prefix.len() implies prefix[k] != 'X' by {
        assert(is_uuid_char(uuid_text[k]));
    }
    lemma_first_x_after(prefix, time_text);
    let token = spec_reset_token(uuid_text, now_millis as int);
    assert(token.subrange(33, token.len() as int) =~= time_text);
    lemma_no_x(time_text);
}

/// A reset token is good for a day: the token of a request at
/// `requested_millis` is accepted at a later time exactly when the moment
/// a day after the second it was requested in has not passed.
pub proof fn law_reset_token_lasts_a_day(uuid_text: Seq<char>, requested_millis: i64, now_seconds: int, now_nanos: int)
    requires
        is_uuid_text(uuid_text),
    ensures
        spec_token_fresh(spec_reset_token(uuid_text, requested_millis as int), now_seconds, now_nanos) <==> ({
            let expiry = whole_seconds(requested_millis as int) + SECONDS_PER_DAY;
            expiry > now_seconds || (expiry == now_seconds && now_nanos == 0)
        }),
{
    law_reset_token_records_its_time(uuid_text, requested_millis);
}

impl MemberForSemester {
    /// The member a request's token logs in as, given the session found
    /// for the token and the member found for that session's email: not
    /// logged in without a session, and an error for a missing member.
    pub fn load_from_token(token_session: Option<Session>, member: Option<MemberForSemester>) -> (result: Result<
        MemberForSemester,
        GreaseError,
    >)
        ensures
            token_session is None ==> result matches Err(GreaseError::Unauthorized),
            token_session is Some && member is None ==> (result matches Err(GreaseError::BadRequest(m)) && m@
                == "No member with the email "@ + (token_session->0).member@ + "."@),
            token_session is Some && member is Some ==> result == Ok::<MemberForSemester, GreaseError>(member->0),
    {
        match token_session {
            None => Err(GreaseError::Unauthorized),
            Some(session) => match member {
                Some(m) => Ok(m),
                None => Err(
                    GreaseError::BadRequest(concat3("No member with the email ", session.member.as_str(), ".")),
                ),
            },
        }
    }
}

} // verus!
