//! The laws that tie the components together, stated over the same spec
//! functions the contracts use and proved here once for all inputs.

use vstd::prelude::*;

use crate::password::bcrypt_check;
use crate::service::spec_sign_in_accepts;
use crate::store::{spec_find_email, UserRecord};
use crate::token::{jwt_payload, Claims, TokenCodec};

verus! {

/// Appending a record with a hitherto-unseen e-mail makes it the record that
/// an e-mail lookup finds.
proof fn lemma_find_email_push(users: Seq<UserRecord>, rec: UserRecord, email: Seq<char>)
    requires
        spec_find_email(users, email) is None,
        rec.email@ == email,
    ensures
        spec_find_email(users.push(rec), email) == Some(rec),
    decreases users.len(),
{
    if users.len() == 0 {
        assert(users.push(rec)[0] == rec);
    } else {
        assert(users.push(rec).drop_first() =~= users.drop_first().push(rec));
        lemma_find_email_push(users.drop_first(), rec, email);
    }
}

/// Law: an account just signed up signs in.  When the e-mail was fresh and
/// the store gained a record whose stored hash checks against the password —
/// exactly what sign-up guarantees — the sign-in lookup finds that very
/// record and accepts the pair, so the token sign-in issues carries the new
/// record's id as its subject.
pub proof fn lemma_sign_up_then_sign_in(
    users: Seq<UserRecord>,
    rec: UserRecord,
    password: Seq<char>,
)
    requires
        spec_find_email(users, rec.email@) is None,
        bcrypt_check(password, rec.password@) == Some(true),
    ensures
        spec_find_email(users.push(rec), rec.email@) == Some(rec),
        spec_sign_in_accepts(users.push(rec), rec.email@, password),
{
    lemma_find_email_push(users, rec, rec.email@);
}

/// Law: sign-in with an e-mail no record carries and sign-in against a
/// record whose stored hash does not check against the offered password land
/// in one and the same rejected case.  Sign-in maps that case to the single
/// `InvalidCredentials` outcome and the boundary to the single 401 response,
/// so the two causes are indistinguishable to the caller.
pub proof fn lemma_rejections_indistinguishable(
    users: Seq<UserRecord>,
    unknown_email: Seq<char>,
    password_for_unknown: Seq<char>,
    known_email: Seq<char>,
    wrong_password: Seq<char>,
)
    requires
        spec_find_email(users, unknown_email) is None,
        (match spec_find_email(users, known_email) {
            Some(rec) => bcrypt_check(wrong_password, rec.password@) != Some(true),
            None => false,
        }),
    ensures
        !spec_sign_in_accepts(users, unknown_email, password_for_unknown),
        !spec_sign_in_accepts(users, known_email, wrong_password),
{
}

/// Law: a token whose signed payload checks out under a secret is accepted
/// at every instant strictly before its expiry and rejected at every instant
/// at or after it.  In particular, a token decoded immediately after
/// issuance — its expiry a fixed span ahead of the clock — is valid, and the
/// identical token decoded once its window has elapsed is not.
pub proof fn lemma_decode_window(
    secret: Seq<char>,
    token: Seq<char>,
    claims: Claims,
    now_before: u64,
    now_after: u64,
)
    requires
        jwt_payload(secret, token) == Some((claims.sub as int, claims.role@, claims.exp)),
        now_before < claims.exp,
        claims.exp <= now_after,
    ensures
        TokenCodec::spec_decode(secret, token, now_before) == Some(
            (claims.sub as int, claims.role@, claims.exp),
        ),
        TokenCodec::spec_decode(secret, token, now_after) is None,
{
}

} // verus!
