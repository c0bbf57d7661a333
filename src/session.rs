//! Session issuance: an account is resolved by e-mail and a token bound to
//! its identifier is issued.
use vstd::arithmetic::div_mod::{lemma_basic_div, lemma_div_denominator, lemma_fundamental_div_mod};
use vstd::arithmetic::power::{lemma_pow_positive, pow};
use vstd::prelude::*;

use crate::error::{ApiError, Query};
use crate::model::{Account, LoginRequest, LoginResponse};
use crate::store::{email_taken, AccountTable, StoreFailure};

verus! {

/// The lower-case hexadecimal digit for `d`, where `0 <= d < 16`.
pub open spec fn hex_digit(d: int) -> char {
    "0123456789abcdef"@[d]
}

/// The 32 lower-case hexadecimal digits of `id`, most significant first.
pub open spec fn hex_digits(id: u128) -> Seq<char> {
    Seq::new(32, |i: int| hex_digit((id as int / pow(16, (31 - i) as nat)) % 16))
}

/// The hyphenated text form of the UUID with value `id`: its hexadecimal
/// digits in groups of 8, 4, 4, 4 and 12, joined by hyphens.
pub open spec fn uuid_text_of(id: u128) -> Seq<char> {
    let h = hex_digits(id);
    h.subrange(0, 8) + "-"@ + h.subrange(8, 12) + "-"@ + h.subrange(12, 16) + "-"@ + h.subrange(
        16,
        20,
    ) + "-"@ + h.subrange(20, 32)
}

/// The text form of an identifier is 36 characters long, with hyphens at
/// positions 8, 13, 18 and 23.
pub proof fn lemma_uuid_text_shape(id: u128)
    ensures
        uuid_text_of(id).len() == 36,
        uuid_text_of(id)[8] == '-',
        uuid_text_of(id)[13] == '-',
        uuid_text_of(id)[18] == '-',
        uuid_text_of(id)[23] == '-',
{
    reveal_strlit("-");
}

/// The hexadecimal digit of `id` at position `i`, counted from the most
/// significant.
pub open spec fn nibble(id: u128, i: int) -> int {
    (id as int / pow(16, (31 - i) as nat)) % 16
}

proof fn lemma_hex_digit_injective(d1: int, d2: int)
    requires
        0 <= d1 < 16,
        0 <= d2 < 16,
        hex_digit(d1) == hex_digit(d2),
    ensures
        d1 == d2,
{
    reveal_strlit("0123456789abcdef");
}

proof fn lemma_nibbles_determine(a: u128, b: u128, j: nat)
    requires
        j <= 32,
        forall|i: int| 0 <= i < 32 ==> nibble(a, i) == nibble(b, i),
    ensures
        a as int / pow(16, j) == b as int / pow(16, j),
    decreases 32 - j,
{
    lemma_pow_positive(16, j);
    if j == 32 {
        reveal_with_fuel(pow, 33);
        lemma_basic_div(a as int, pow(16, j));
        lemma_basic_div(b as int, pow(16, j));
    } else {
        lemma_nibbles_determine(a, b, j + 1);
        reveal(pow);
        let p = pow(16, j);
        assert(pow(16, j + 1) == 16 * p);
        lemma_div_denominator(a as int, p, 16);
        lemma_div_denominator(b as int, p, 16);
        assert(16 * p == p * 16) by (nonlinear_arith);
        let qa = a as int / p;
        let qb = b as int / p;
        assert(nibble(a, 31 - j) == qa % 16);
        assert(nibble(b, 31 - j) == qb % 16);
        lemma_fundamental_div_mod(qa, 16);
        lemma_fundamental_div_mod(qb, 16);
    }
}

/// Different identifiers have different text forms.
pub proof fn lemma_uuid_text_injective(a: u128, b: u128)
    requires
        uuid_text_of(a) == uuid_text_of(b),
    ensures
        a == b,
{
    reveal_strlit("-");
    let (ta, tb) = (uuid_text_of(a), uuid_text_of(b));
    let (ha, hb) = (hex_digits(a), hex_digits(b));
    assert forall|i: int| 0 <= i < 32 implies nibble(a, i) == nibble(b, i) by {
        let k = if i < 8 {
            i
        } else if i < 12 {
            i + 1
        } else if i < 16 {
            i + 2
        } else if i < 20 {
            i + 3
        } else {
            i + 4
        };
        assert(ta[k] == ha[i]);
        assert(tb[k] == hb[i]);
        lemma_pow_positive(16, (31 - i) as nat);
        lemma_hex_digit_injective(nibble(a, i), nibble(b, i));
    }
    lemma_nibbles_determine(a, b, 0);
    reveal(pow);
}

/// Accounts with different identifiers are issued different tokens.
pub proof fn lemma_tokens_distinct(a: u128, b: u128)
    requires
        a != b,
    ensures
        token_text(uuid_text_of(a)) != token_text(uuid_text_of(b)),
{
    reveal_strlit("mock_jwt_token_for_");
    let prefix = "mock_jwt_token_for_"@;
    if token_text(uuid_text_of(a)) == token_text(uuid_text_of(b)) {
        let n = prefix.len() as int;
        assert(token_text(uuid_text_of(a)).subrange(n, n + 36) =~= uuid_text_of(a)) by {
            lemma_uuid_text_shape(a);
        }
        assert(token_text(uuid_text_of(b)).subrange(n, n + 36) =~= uuid_text_of(b)) by {
            lemma_uuid_text_shape(b);
        }
        lemma_uuid_text_injective(a, b);
    }
}

/// Relies on `uuid::Uuid::from_u128`, which takes the value's bytes
/// most significant first, and the `Display` impl of `uuid::Uuid`, which
/// writes the hyphenated lower-case form.
#[verifier::external_body]
fn uuid_text(id: u128) -> (r: String)
    ensures
        r@ == uuid_text_of(id),
{
    uuid::Uuid::from_u128(id).to_string()
}

/// The session token issued for an account whose identifier reads `id_text`.
pub open spec fn token_text(id_text: Seq<char>) -> Seq<char> {
    "mock_jwt_token_for_"@ + id_text
}

/// The token for an account whose identifier reads `id_text`.
pub fn token_from_id_text(id_text: &str) -> (r: String)
    ensures
        r@ == token_text(id_text@),
{
    let mut token = String::from_str("mock_jwt_token_for_");
    token.append(id_text);
    token
}

/// Issues the session token bound to the account identifier `id`.
pub fn issue_token(id: u128) -> (r: String)
    ensures
        r@ == token_text(uuid_text_of(id)),
{
    let id_text = uuid_text(id);
    token_from_id_text(id_text.as_str())
}

/// The error with which a login fails after the account lookup gave
/// `lookup`, or `None` where it succeeds.
pub open spec fn login_refusal(lookup: Result<Option<Account>, StoreFailure>) -> Option<ApiError> {
    match lookup {
        Ok(Some(_)) => None,
        Ok(None) => Some(ApiError::InvalidCredentials),
        Err(_) => Some(ApiError::PersistenceError(Query::AccountLookup)),
    }
}

/// Completes a login from the outcome of the account lookup: a found account
/// gets a token bound to its identifier; no account is an invalid credential,
/// whatever password was given; a store failure is a persistence error.
pub fn login_result(lookup: Result<Option<Account>, StoreFailure>) -> (r: Result<
    LoginResponse,
    ApiError,
>)
    ensures
        r is Err <==> login_refusal(lookup) is Some,
        r matches Err(e) ==> login_refusal(lookup) == Some(e),
        r matches Ok(resp) ==> lookup == Ok::<Option<Account>, StoreFailure>(Some(resp.user))
            && resp.token@ == token_text(uuid_text_of(resp.user.id)),
{
    match lookup {
        Ok(Some(user)) => {
            let token = issue_token(user.id);
            Ok(LoginResponse { token, user })
        },
        Ok(None) => Err(ApiError::InvalidCredentials),
        Err(_) => Err(ApiError::PersistenceError(Query::AccountLookup)),
    }
}

/// The error with which a login for `email` fails against the rows
/// `accounts`, or `None` where it succeeds.
pub open spec fn login_refusal_in(accounts: Seq<Account>, email: Seq<char>) -> Option<ApiError> {
    if email_taken(accounts, email) {
        None
    } else {
        Some(ApiError::InvalidCredentials)
    }
}

/// Logs in against an account table: succeeds exactly when an account has
/// the request's e-mail, with that account and a token bound to it.
pub fn login(accounts: &AccountTable, request: &LoginRequest) -> (r: Result<LoginResponse, ApiError>)
    ensures
        r is Err <==> login_refusal_in(accounts@, request.email@) is Some,
        r matches Err(e) ==> login_refusal_in(accounts@, request.email@) == Some(e),
        r matches Ok(resp) ==> resp.user.email@ == request.email@ && accounts@.contains(resp.user)
            && resp.token@ == token_text(uuid_text_of(resp.user.id)),
{
    let found = accounts.find_by_email(request.email.as_str());
    let r = login_result(Ok(found));
    proof {
        if r is Ok {
            let user = r->Ok_0.user;
            let i = choose|i: int| 0 <= i < accounts@.len() && accounts@[i] == user;
            assert(accounts@[i] == user);
        }
    }
    r
}

/// A login for an e-mail that no account has is refused as an invalid
/// credential, never as a persistence error, when the store answers.
pub proof fn lemma_unknown_email_refused(accounts: Seq<Account>, email: Seq<char>)
    requires
        !email_taken(accounts, email),
    ensures
        login_refusal_in(accounts, email) == Some(ApiError::InvalidCredentials),
        login_refusal(Ok(None)) == Some(ApiError::InvalidCredentials),
{
}

} // verus!
