//! The administrators' API rules: who is an administrator, what a promo code
//! may look like, and which registrations may be listed or revoked.
use vstd::prelude::*;
use vstd::string::*;

use crate::api::models::{CreatePromoRequest, RegistrationAdminResponse};
use crate::domain::{DiscountPercent, PromoCode, RegStatus, Registration, SeasonId};
use crate::error::{AppError, AppResult};
use crate::text::{
    byte_len, decimal, is_ascii_alphanumeric, starts_with, str_eq, to_uppercase, uppercase_of,
    utf8_len,
};
use crate::time::Timestamp;

verus! {

/// Proof that a request came from an administrator.
pub struct AdminAuth;

/// A request is an administrator's when its `Authorization` header reads
/// `Bearer <token>` with the configured token.
pub open spec fn spec_is_admin(header: Option<Seq<char>>, token: Seq<char>) -> bool {
    match header {
        Some(h) => h.len() >= 7 && h.subrange(0, 7) == "Bearer "@ && h.subrange(7, h.len() as int)
            == token,
        None => false,
    }
}

/// Checks the `Authorization` header (as text; `None` when absent or not
/// visible ASCII) against the administrator token.
pub fn check_admin_token(header: Option<&str>, token: &str) -> (r: Result<AdminAuth, AppError>)
    ensures
        spec_is_admin(
            match header {
                Some(h) => Some(h@),
                None => None,
            },
            token@,
        ) ==> r is Ok,
        !spec_is_admin(
            match header {
                Some(h) => Some(h@),
                None => None,
            },
            token@,
        ) ==> r == Err::<AdminAuth, AppError>(AppError::Unauthorized),
{
    let h = match header {
        Some(h) => h,
        None => {
            return Err(AppError::Unauthorized);
        },
    };
    proof {
        reveal_strlit("Bearer ");
    }
    if !starts_with(h, "Bearer ") {
        return Err(AppError::Unauthorized);
    }
    let n = h.unicode_len();
    let rest = h.substring_char(7, n);
    if !str_eq(rest, token) {
        return Err(AppError::Unauthorized);
    }
    Ok(AdminAuth)
}

/// Why an (uppercased) promo code is refused, if it is: it must be 1 to 32
/// bytes of ASCII letters, digits and underscores.
pub open spec fn promo_code_error(u: Seq<char>) -> Option<Seq<char>> {
    if u.len() == 0 || utf8_len(u) > 32 {
        Some("promo code must be 1-32 characters"@)
    } else if !(forall|i: int| 0 <= i < u.len() ==> #[trigger] is_ascii_alphanumeric(u[i]) || u[i]
        == '_') {
        Some("promo code must be alphanumeric or underscore"@)
    } else {
        None
    }
}

/// The code and discount of a new promo: the code is uppercased and must be
/// 1 to 32 letters, digits or underscores; the discount must be 0 to 100.
pub fn validate_promo_request(req: &CreatePromoRequest) -> (r: AppResult<(String, DiscountPercent)>)
    ensures
        promo_code_error(uppercase_of(req.code@)) matches Some(m) ==> (r matches Err(e)
            && e.is_bad_request(m)),
        promo_code_error(uppercase_of(req.code@)) is None && req.discount_percent > 100 ==> (r
            matches Err(e) && e.is_bad_request(
            "discount percent must be 0..=100, got "@ + decimal(req.discount_percent as nat),
        )),
        promo_code_error(uppercase_of(req.code@)) is None && req.discount_percent <= 100 ==> (r
            matches Ok(x) && x.0@ == uppercase_of(req.code@) && x.1@ == req.discount_percent),
{
    let code = to_uppercase(req.code.as_str());
    if code.as_str().is_empty() || byte_len(code.as_str()) > 32 {
        return Err(AppError::BadRequest(String::from_str("promo code must be 1-32 characters")));
    }
    let n = code.as_str().unicode_len();
    let mut i: usize = 0;
    while i < n
        invariant
            n == code@.len(),
            i <= n,
            code@ == uppercase_of(req.code@),
            !(code@.len() == 0 || utf8_len(code@) > 32),
            forall|k: int| 0 <= k < i ==> #[trigger] is_ascii_alphanumeric(code@[k]) || code@[k]
                == '_',
        decreases n - i,
    {
        let c = code.as_str().get_char(i);
        if !(('0' <= c && c <= '9') || ('a' <= c && c <= 'z') || ('A' <= c && c <= 'Z') || c
            == '_') {
            assert(!(is_ascii_alphanumeric(code@[i as int]) || code@[i as int] == '_'));
            return Err(AppError::BadRequest(
                String::from_str("promo code must be alphanumeric or underscore"),
            ));
        }
        i = i + 1;
    }
    let discount = DiscountPercent::try_from(req.discount_percent)?;
    Ok((code, discount))
}

/// The refusal of a promo code that already exists.
pub fn promo_exists_error() -> (r: AppError)
    ensures
        r.is_bad_request("promo code already exists"@),
{
    AppError::BadRequest(String::from_str("promo code already exists"))
}

/// A new promo code: active and not yet used.
pub fn new_promo_code(
    code: String,
    discount: DiscountPercent,
    req: &CreatePromoRequest,
    now: Timestamp,
) -> (r: PromoCode)
    ensures
        r.code@ == code@,
        r.discount_percent == discount,
        r.grants_instant_player == req.grants_instant_player,
        r.max_uses == req.max_uses,
        r.times_used == 0,
        r.active,
        r.created_at == now,
        r.expires_at == req.expires_at,
{
    PromoCode {
        code,
        discount_percent: discount,
        grants_instant_player: req.grants_instant_player,
        max_uses: req.max_uses,
        times_used: 0,
        active: true,
        created_at: now,
        expires_at: req.expires_at,
    }
}

/// Revoking a promo code that was not active (or does not exist) is answered
/// with "not found".
pub fn promo_revocation(deactivated: bool) -> (r: AppResult<()>)
    ensures
        deactivated ==> r == Ok::<(), AppError>(()),
        !deactivated ==> r == Err::<(), AppError>(AppError::NotFound),
{
    if deactivated {
        Ok(())
    } else {
        Err(AppError::NotFound)
    }
}

/// The registrations of the listing whose status is spelled `status`, in order.
pub open spec fn with_status(regs: Seq<RegistrationAdminResponse>, status: Seq<char>) -> Seq<RegistrationAdminResponse>
    decreases regs.len(),
{
    if regs.len() == 0 {
        Seq::empty()
    } else {
        let prev = with_status(regs.drop_last(), status);
        if regs.last().status.spec_db_str() == status {
            prev.push(regs.last())
        } else {
            prev
        }
    }
}

/// Keeps the registrations with the requested status; all of them when none is requested.
pub fn filter_by_status(regs: Vec<RegistrationAdminResponse>, status: &Option<String>) -> (r: Vec<RegistrationAdminResponse>)
    ensures
        status is None ==> r@ == regs@,
        *status matches Some(s) ==> r@ == with_status(regs@, s@),
{
    let s = match status {
        None => {
            return regs;
        },
        Some(s) => s,
    };
    let mut out: Vec<RegistrationAdminResponse> = Vec::new();
    let n = regs.len();
    let mut i: usize = 0;
    while i < n
        invariant
            n == regs@.len(),
            i <= n,
            out@ == with_status(regs@.subrange(0, i as int), s@),
        decreases n - i,
    {
        let ghost pre = regs@.subrange(0, i as int);
        let ghost post = regs@.subrange(0, i + 1);
        proof {
            assert(post.drop_last() =~= pre);
        }
        if str_eq(regs[i].status.as_db_str(), s.as_str()) {
            out.push(regs[i].clone());
        }
        i = i + 1;
    }
    assert(regs@.subrange(0, n as int) =~= regs@);
    out
}

/// What is revoked: the player's name and season, for a registration that
/// exists and has not expired.
pub fn check_revocable(reg: &Option<Registration>) -> (r: AppResult<(String, SeasonId)>)
    ensures
        reg is None ==> r == Err::<(String, SeasonId), AppError>(AppError::NotFound),
        *reg matches Some(g) ==> (g.status == RegStatus::Expired ==> (r matches Err(e)
            && e.is_bad_request("registration already expired"@))),
        *reg matches Some(g) ==> (g.status != RegStatus::Expired ==> (r matches Ok(x) && x.0@
            == g.factorio_name@ && x.1 == g.season_id)),
{
    match reg {
        None => Err(AppError::NotFound),
        Some(g) => {
            if g.status == RegStatus::Expired {
                Err(AppError::BadRequest(String::from_str("registration already expired")))
            } else {
                Ok((String::from_str(g.factorio_name.as_str()), g.season_id))
            }
        },
    }
}

} // verus!
