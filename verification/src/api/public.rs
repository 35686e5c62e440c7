//! The public API's rules: how a registration is decided and priced, what a
//! season listing shows, and when a season's map may be downloaded.
use vstd::prelude::*;
use vstd::string::*;

use crate::api::models::{clone_opt_string, opt_string_view, RegisterResponse, SeasonSummary};
use crate::domain::{
    compute_effective_price, compute_rebuy_price, determine_access_tier, determine_initial_status,
    eth_address_error, power, rebuy_price_fits, spec_access_tier, spec_effective_price,
    spec_initial_status, spec_promo_usable, spec_rebuy_price, validate_promo_usable, AccessTier,
    DiscountPercent, EthAddress, FactorioName, PromoCode, RegStatus, Registration, Season, SeasonId,
    SeasonStatus, Wei, effective_price_fits,
};
use crate::error::{AppError, AppResult};
use crate::ids::{parse_uuid, uuid_parse_result};
use crate::text::{
    decimal, decimal_is_digits, int_parse_error_message, int_parse_error_text, lowercase_of,
    parse_reads_back_decimal, parse_u128, parse_u128_spec, IntParseError, push_decimal, push_str, format_u128,
};
use crate::services::rotation::{season_file_name, spec_season_file_name};
use crate::time::Timestamp;

verus! {


// ---------------------------------------------------------------------------
// Registration
// ---------------------------------------------------------------------------

/// A player who died in hardcore mode (confirmed, demoted to spectator, with
/// deaths on record) may buy back in; anyone else already registered may not.
pub open spec fn spec_rebuy_eligible(r: Registration) -> bool {
    &&& r.status == RegStatus::Confirmed
    &&& r.access_tier == AccessTier::Standard
    &&& r.deaths > 0
}

/// What to do about the player's live registration for the season, if any:
/// nothing (`None`), or replace it (expire the returned id) and rebuy at the
/// returned death count. Any other existing registration is a duplicate.
pub fn decide_rebuy(existing: &Option<Registration>) -> (r: AppResult<Option<(u128, u32)>>)
    ensures
        existing is None ==> r == Ok::<Option<(u128, u32)>, AppError>(None),
        *existing matches Some(e) ==> (spec_rebuy_eligible(e) ==> r == Ok::<
            Option<(u128, u32)>,
            AppError,
        >(Some((e.id, e.deaths)))),
        *existing matches Some(e) ==> (!spec_rebuy_eligible(e) ==> r == Err::<
            Option<(u128, u32)>,
            AppError,
        >(AppError::DuplicateRegistration)),
{
    match existing {
        None => Ok(None),
        Some(e) => {
            if e.status == RegStatus::Confirmed && e.access_tier == AccessTier::Standard && e.deaths
                > 0 {
                Ok(Some((e.id, e.deaths)))
            } else {
                Err(AppError::DuplicateRegistration)
            }
        },
    }
}

/// Which promo code to look up: none on a rebuy (where giving one is an
/// error), otherwise the one the player gave, if any.
pub fn promo_to_look_up(is_rebuy: bool, promo_code: &Option<String>) -> (r: AppResult<Option<String>>)
    ensures
        is_rebuy && promo_code is Some ==> (r matches Err(e) && e.is_bad_request(
            "promo codes cannot be used on rebuy"@,
        )),
        is_rebuy && promo_code is None ==> r == Ok::<Option<String>, AppError>(None),
        !is_rebuy ==> (r matches Ok(c) && opt_string_view(c) == opt_string_view(*promo_code)),
{
    if is_rebuy {
        if promo_code.is_some() {
            Err(AppError::BadRequest(String::from_str("promo codes cannot be used on rebuy")))
        } else {
            Ok(None)
        }
    } else {
        Ok(clone_opt_string(promo_code))
    }
}

/// The promo found under the given code, if it exists and may be used at `now`.
pub fn accept_promo(found: Option<PromoCode>, now: Timestamp) -> (r: AppResult<PromoCode>)
    ensures
        found is None ==> r == Err::<PromoCode, AppError>(AppError::InvalidPromoCode),
        found matches Some(p) ==> (spec_promo_usable(p, now) is Ok ==> r == Ok::<
            PromoCode,
            AppError,
        >(p)),
        found matches Some(p) ==> (spec_promo_usable(p, now) matches Err(e) ==> r == Err::<
            PromoCode,
            AppError,
        >(e)),
{
    match found {
        None => Err(AppError::InvalidPromoCode),
        Some(p) => {
            match validate_promo_usable(&p, now) {
                Ok(()) => Ok(p),
                Err(e) => Err(e),
            }
        },
    }
}

/// Everything a registration is built from, once the season, the player's
/// earlier registration and the promo have been looked up.
pub struct RegistrationDraft {
    /// The new registration's id.
    pub id: u128,
    pub season_id: SeasonId,
    pub factorio_name: FactorioName,
    pub eth_address: Option<String>,
    pub promo_code: Option<String>,
    /// The accepted promo (none on a rebuy).
    pub promo: Option<PromoCode>,
    /// Deaths on the replaced registration; 0 when this is not a rebuy.
    pub rebuy_deaths: u32,
    /// Live registrations already in the season, added to the price so that
    /// each payment is told apart by its amount.
    pub offset: u64,
    pub base_fee_wei: String,
    pub rebuy_multiplier: u32,
    pub deposit_address: String,
    /// The time of registration.
    pub now: Timestamp,
}

/// The discount of the accepted promo, none without one.
pub open spec fn discount_of(promo: Option<PromoCode>) -> nat {
    match promo {
        Some(p) => p.discount_percent@ as nat,
        None => 0,
    }
}

/// The price of a registration: the rebuy price after `deaths` deaths, or
/// the (discounted) registration price.
pub open spec fn spec_price(base: nat, discount: nat, deaths: nat, multiplier: nat, offset: nat) -> int {
    if deaths > 0 {
        spec_rebuy_price(base, multiplier, deaths, offset) as int
    } else {
        spec_effective_price(base, discount, offset)
    }
}

/// The inputs on which pricing stays within `u128`.
pub open spec fn spec_price_fits(base: nat, discount: nat, deaths: nat, multiplier: nat, offset: nat) -> bool {
    if deaths > 0 {
        rebuy_price_fits(base, multiplier, deaths, offset)
    } else {
        effective_price_fits(base, discount, offset)
    }
}

/// The draft's price stays within `u128`, when its base fee is a number.
pub open spec fn draft_price_fits(d: RegistrationDraft) -> bool {
    parse_u128_spec(d.base_fee_wei@) matches Ok(base) ==> spec_price_fits(
        base,
        discount_of(d.promo),
        d.rebuy_deaths as nat,
        d.rebuy_multiplier as nat,
        d.offset as nat,
    )
}

/// The address a free registration uses when the player gives none.
pub const ZERO_ETH_ADDRESS: &'static str = "0x0000000000000000000000000000000000000000";

/// Which address the registration records, before validation: a paid one
/// needs the player's (`None`: missing); a free one takes the player's when
/// given and non-empty, and the zero address otherwise.
pub open spec fn eth_source(free: bool, addr: Option<String>) -> Option<Seq<char>> {
    if free {
        match addr {
            Some(a) => if a@.len() > 0 {
                Some(a@)
            } else {
                Some(ZERO_ETH_ADDRESS@)
            },
            None => Some(ZERO_ETH_ADDRESS@),
        }
    } else {
        match addr {
            Some(a) => Some(a@),
            None => None,
        }
    }
}

/// What the player is told after registering.
pub open spec fn spec_register_message(deaths: nat, free: bool, amount: Seq<char>, deposit: Seq<char>) -> Seq<char> {
    if deaths > 0 {
        "Rebuy #"@ + decimal(deaths) + ": Send exactly "@ + amount + " wei to "@ + deposit
            + " to get back in the game."@
    } else if free {
        "Registration confirmed (no payment required)."@
    } else {
        "Send exactly "@ + amount + " wei to "@ + deposit + " to complete registration."@
    }
}

/// The registration and the answer built from a draft at price `price`, with
/// the (validated) address `eth`.
pub open spec fn registration_built(
    reg: Registration,
    resp: RegisterResponse,
    d: RegistrationDraft,
    price: nat,
    eth: Seq<char>,
) -> bool {
    let free = price == 0;
    &&& reg.id == d.id
    &&& reg.season_id == d.season_id
    &&& reg.factorio_name@ == d.factorio_name@
    &&& reg.eth_address@ == eth
    &&& opt_string_view(reg.promo_code) == opt_string_view(d.promo_code)
    &&& reg.tx_hash is None
    &&& reg.status == spec_initial_status(free)
    &&& reg.access_tier == (if d.rebuy_deaths > 0 {
        AccessTier::InstantPlayer
    } else {
        spec_access_tier(d.promo)
    })
    &&& reg.amount_wei@ == decimal(price)
    &&& reg.created_at == d.now
    &&& reg.confirmed_at == (if free {
        Some(d.now)
    } else {
        None
    })
    &&& reg.deaths == d.rebuy_deaths
    &&& resp.registration_id == d.id
    &&& resp.status == reg.status
    &&& resp.access_tier == reg.access_tier
    &&& resp.amount_wei@ == decimal(price)
    &&& opt_string_view(resp.deposit_address) == (if free {
        None
    } else {
        Some(d.deposit_address@)
    })
    &&& resp.deaths == d.rebuy_deaths
    &&& resp.message@ == spec_register_message(
        d.rebuy_deaths as nat,
        free,
        decimal(price),
        d.deposit_address@,
    )
}

/// The outcome of building a registration from a draft: a base fee that is no
/// number is a configuration error; then the price decides whether payment is
/// needed, and the address must be present when it is and valid whenever given.
pub open spec fn spec_build_outcome(
    d: RegistrationDraft,
    r: AppResult<(Registration, RegisterResponse)>,
) -> bool {
    match parse_u128_spec(d.base_fee_wei@) {
        Err(e) => r matches Err(err) && err.is_config(
            "invalid base_fee_wei: "@ + int_parse_error_text(e),
        ),
        Ok(base) => {
            let price = spec_price(
                base,
                discount_of(d.promo),
                d.rebuy_deaths as nat,
                d.rebuy_multiplier as nat,
                d.offset as nat,
            );
            match eth_source(price == 0, d.eth_address) {
                None => r matches Err(err) && err.is_bad_request(
                    "eth_address is required when payment is needed"@,
                ),
                Some(src) => match eth_address_error(lowercase_of(src)) {
                    Some(m) => r matches Err(err) && err.is_bad_request(m),
                    None => r matches Ok(x) && registration_built(
                        x.0,
                        x.1,
                        d,
                        price as nat,
                        lowercase_of(src),
                    ),
                },
            }
        },
    }
}

fn register_message(deaths: u32, free: bool, amount: &str, deposit: &str) -> (r: String)
    ensures
        r@ == spec_register_message(deaths as nat, free, amount@, deposit@),
{
    if deaths > 0 {
        let mut m = String::from_str("Rebuy #");
        push_decimal(&mut m, deaths as u128);
        push_str(&mut m, ": Send exactly ");
        push_str(&mut m, amount);
        push_str(&mut m, " wei to ");
        push_str(&mut m, deposit);
        push_str(&mut m, " to get back in the game.");
        m
    } else if free {
        String::from_str("Registration confirmed (no payment required).")
    } else {
        let mut m = String::from_str("Send exactly ");
        push_str(&mut m, amount);
        push_str(&mut m, " wei to ");
        push_str(&mut m, deposit);
        push_str(&mut m, " to complete registration.");
        m
    }
}

/// Builds the registration and the answer to the player from a draft.
pub fn build_registration(d: RegistrationDraft) -> (r: AppResult<(Registration, RegisterResponse)>)
    requires
        draft_price_fits(d),
    ensures
        spec_build_outcome(d, r),
{
    let base_fee = match parse_u128(d.base_fee_wei.as_str()) {
        Ok(b) => b,
        Err(e) => {
            let mut m = String::from_str("invalid base_fee_wei: ");
            let t = int_parse_error_message(e);
            push_str(&mut m, t.as_str());
            return Err(AppError::Config(m));
        },
    };
    let is_rebuy = d.rebuy_deaths > 0;
    let access_tier = if is_rebuy {
        AccessTier::InstantPlayer
    } else {
        determine_access_tier(d.promo.as_ref())
    };
    let price: u128 = if is_rebuy {
        compute_rebuy_price(base_fee, d.rebuy_multiplier, d.rebuy_deaths, d.offset)
    } else {
        let discount = match &d.promo {
            Some(p) => p.discount_percent,
            None => {
                let z = DiscountPercent::try_from(0u8);
                match z {
                    Ok(z) => z,
                    Err(_) => {
                        assert(false);
                        return Err(AppError::NotFound);
                    },
                }
            },
        };
        compute_effective_price(base_fee, discount, d.offset)
    };
    let free = price == 0;
    let status = determine_initial_status(free);
    let amount_text = format_u128(price);
    proof {
        decimal_is_digits(price as nat);
    }
    let amount_wei = match Wei::from_decimal(amount_text) {
        Ok(w) => w,
        Err(_) => {
            assert(false);
            return Err(AppError::NotFound);
        },
    };
    let source: String = if free {
        match &d.eth_address {
            Some(a) => if !a.as_str().is_empty() {
                a.clone()
            } else {
                String::from_str(ZERO_ETH_ADDRESS)
            },
            None => String::from_str(ZERO_ETH_ADDRESS),
        }
    } else {
        match &d.eth_address {
            Some(a) => a.clone(),
            None => {
                return Err(AppError::BadRequest(
                    String::from_str("eth_address is required when payment is needed"),
                ));
            },
        }
    };
    let eth_address = EthAddress::try_from(source)?;
    let message = register_message(
        d.rebuy_deaths,
        free,
        amount_wei.as_str(),
        d.deposit_address.as_str(),
    );
    let deposit = if free {
        None
    } else {
        Some(d.deposit_address.clone())
    };
    let reg = Registration {
        id: d.id,
        season_id: d.season_id,
        factorio_name: d.factorio_name.clone(),
        eth_address,
        promo_code: clone_opt_string(&d.promo_code),
        tx_hash: None,
        status,
        access_tier,
        amount_wei: amount_wei.clone(),
        created_at: d.now,
        confirmed_at: if free {
            Some(d.now)
        } else {
            None
        },
        deaths: d.rebuy_deaths,
    };
    let resp = RegisterResponse {
        registration_id: d.id,
        status,
        access_tier,
        amount_wei,
        deposit_address: deposit,
        deaths: d.rebuy_deaths,
        message,
    };
    Ok((reg, resp))
}

/// Whether a draft's price stays within `u128`, so that it may be built.
pub fn registration_price_fits(
    base_fee_wei: &str,
    promo: &Option<PromoCode>,
    rebuy_deaths: u32,
    rebuy_multiplier: u32,
    offset: u64,
) -> (r: bool)
    ensures
        r == (parse_u128_spec(base_fee_wei@) matches Ok(base) ==> spec_price_fits(
            base,
            discount_of(*promo),
            rebuy_deaths as nat,
            rebuy_multiplier as nat,
            offset as nat,
        )),
{
    let base = match parse_u128(base_fee_wei) {
        Ok(b) => b,
        Err(_) => {
            return true;
        },
    };
    if rebuy_deaths > 0 {
        let m = rebuy_multiplier as u128;
        let mut p: u128 = 1;
        let mut i: u32 = 0;
        while i < rebuy_deaths
            invariant
                i <= rebuy_deaths,
                rebuy_deaths > 0,
                m == rebuy_multiplier,
                p == power(m as nat, i as nat),
                parse_u128_spec(base_fee_wei@) == Ok::<nat, IntParseError>(base as nat),
            decreases rebuy_deaths - i,
        {
            let ghost old_p = p;
            assert(power(m as nat, (i + 1) as nat) == m * old_p);
            assert(m * old_p == old_p * m) by (nonlinear_arith);
            match p.checked_mul(m) {
                Some(q) => {
                    p = q;
                },
                None => {
                    proof {
                        lemma_power_overflow_persists(m as nat, (i + 1) as nat, rebuy_deaths as nat);
                    }
                    return false;
                },
            }
            i = i + 1;
        }
        match base.checked_mul(p) {
            Some(x) => x.checked_add(offset as u128).is_some(),
            None => false,
        }
    } else {
        let d: u128 = match promo {
            Some(pr) => pr.discount_percent.as_u8() as u128,
            None => 0,
        };
        match base.checked_mul(d) {
            None => false,
            Some(x) => {
                assert(x / 100 <= base) by (nonlinear_arith)
                    requires x == base * d, d <= 100;
                let eff = base - x / 100;
                if eff == 0 {
                    true
                } else {
                    eff.checked_add(offset as u128).is_some()
                }
            },
        }
    }
}

proof fn lemma_power_overflow_persists(m: nat, i: nat, n: nat)
    requires
        i <= n,
        power(m, i) > u128::MAX,
    ensures
        power(m, n) > u128::MAX,
    decreases n - i,
{
    if i < n {
        assert(power(m, i) > 0);
        assert(m >= 1) by {
            if m == 0 {
                assert(i > 0);
                assert(power(m, i) == 0);
            }
        }
        assert(power(m, (i + 1) as nat) >= power(m, i)) by (nonlinear_arith)
            requires power(m, (i + 1) as nat) == m * power(m, i), m >= 1;
        lemma_power_overflow_persists(m, i + 1, n);
    }
}

/// Reads the registration id of a status lookup.
pub fn parse_registration_id(id: &str) -> (r: AppResult<u128>)
    ensures
        uuid_parse_result(id@) matches Ok(v) ==> r == Ok::<u128, AppError>(v),
        uuid_parse_result(id@) matches Err(m) ==> (r matches Err(e) && e.is_bad_request(
            "invalid registration id: "@ + m,
        )),
{
    match parse_uuid(id) {
        Ok(v) => Ok(v),
        Err(m) => {
            let mut msg = String::from_str("invalid registration id: ");
            push_str(&mut msg, m.as_str());
            Err(AppError::BadRequest(msg))
        },
    }
}

/// Whether a season has a map on record to download.
pub open spec fn spec_has_map(save_path: Option<String>) -> bool {
    save_path matches Some(p) && p@.len() > 0
}

/// A season as the public season list shows it.
pub fn season_summary(s: &Season) -> (r: SeasonSummary)
    ensures
        r.id == s.id,
        r.status == s.status,
        r.started_at == s.started_at,
        r.ends_at == s.ends_at,
        r.has_map_download == spec_has_map(s.save_path),
{
    SeasonSummary {
        id: s.id,
        status: s.status,
        started_at: s.started_at,
        ends_at: s.ends_at,
        has_map_download: match &s.save_path {
            Some(p) => !p.as_str().is_empty(),
            None => false,
        },
    }
}

/// Where the map of a season to download lies: only an archived season with a
/// save on record has one.
pub fn map_download_path(season: &Option<Season>) -> (r: AppResult<String>)
    ensures
        season is None ==> r == Err::<String, AppError>(AppError::NotFound),
        *season matches Some(s) ==> (s.status != SeasonStatus::Archived ==> (r matches Err(e)
            && e.is_bad_request("map download only available for archived seasons"@))),
        *season matches Some(s) ==> (s.status == SeasonStatus::Archived && !spec_has_map(
            s.save_path,
        ) ==> r == Err::<String, AppError>(AppError::NotFound)),
        *season matches Some(s) ==> (s.status == SeasonStatus::Archived && spec_has_map(s.save_path)
            ==> (r matches Ok(p) && p@ == s.save_path->0@)),
{
    match season {
        None => Err(AppError::NotFound),
        Some(s) => {
            if s.status != SeasonStatus::Archived {
                return Err(AppError::BadRequest(
                    String::from_str("map download only available for archived seasons"),
                ));
            }
            match &s.save_path {
                Some(p) => if p.as_str().is_empty() {
                    Err(AppError::NotFound)
                } else {
                    Ok(p.clone())
                },
                None => Err(AppError::NotFound),
            }
        },
    }
}

/// The `Content-Disposition` of a map download.
pub fn map_download_disposition(id: SeasonId) -> (r: String)
    ensures
        r@ == "attachment; filename=\""@ + spec_season_file_name(id@) + "\""@,
{
    let mut r = String::from_str("attachment; filename=\"");
    let name = season_file_name(id);
    push_str(&mut r, name.as_str());
    push_str(&mut r, "\"");
    r
}


// ---------------------------------------------------------------------------
// Properties of registration
// ---------------------------------------------------------------------------

/// A free registration is confirmed at once, at the time of registering, and
/// the player is given no deposit address.
pub proof fn free_registration_is_confirmed(
    reg: Registration,
    resp: RegisterResponse,
    d: RegistrationDraft,
    eth: Seq<char>,
)
    requires
        registration_built(reg, resp, d, 0, eth),
    ensures
        reg.status == RegStatus::Confirmed,
        resp.status == RegStatus::Confirmed,
        reg.confirmed_at == Some(d.now),
        resp.deposit_address is None,
{
}

/// On a free registration the player's own address counts whenever one is
/// given: a non-empty address that is not valid (after lowercasing) is
/// refused with the address error, and a valid one is recorded lowercased.
/// Only without an address, or with an empty one, is the zero address
/// recorded.
pub proof fn free_registration_records_given_address(
    d: RegistrationDraft,
    r: AppResult<(Registration, RegisterResponse)>,
    base: nat,
)
    requires
        spec_build_outcome(d, r),
        parse_u128_spec(d.base_fee_wei@) == Ok::<nat, IntParseError>(base),
        spec_price(
            base,
            discount_of(d.promo),
            d.rebuy_deaths as nat,
            d.rebuy_multiplier as nat,
            d.offset as nat,
        ) == 0,
    ensures
        match d.eth_address {
            Some(a) => if a@.len() > 0 {
                match eth_address_error(lowercase_of(a@)) {
                    Some(m) => r matches Err(e) && e.is_bad_request(m),
                    None => r matches Ok(x) && x.0.eth_address@ == lowercase_of(a@) && x.0.status
                        == RegStatus::Confirmed,
                }
            } else {
                r matches Ok(x) ==> x.0.eth_address@ == lowercase_of(ZERO_ETH_ADDRESS@)
            },
            None => r matches Ok(x) ==> x.0.eth_address@ == lowercase_of(ZERO_ETH_ADDRESS@),
        },
{
}

/// A paid registration awaits its payment, and the player is told where to send it.
pub proof fn paid_registration_awaits_payment(
    reg: Registration,
    resp: RegisterResponse,
    d: RegistrationDraft,
    price: nat,
    eth: Seq<char>,
)
    requires
        registration_built(reg, resp, d, price, eth),
        price > 0,
    ensures
        reg.status == RegStatus::AwaitingPayment,
        reg.confirmed_at is None,
        opt_string_view(resp.deposit_address) == Some(d.deposit_address@),
{
}

/// A rebuy always gives play access back, and a promo can grant it otherwise.
pub proof fn rebuy_restores_play_access(
    reg: Registration,
    resp: RegisterResponse,
    d: RegistrationDraft,
    price: nat,
    eth: Seq<char>,
)
    requires
        registration_built(reg, resp, d, price, eth),
    ensures
        d.rebuy_deaths > 0 ==> reg.access_tier == AccessTier::InstantPlayer,
        d.rebuy_deaths == 0 ==> (reg.access_tier == AccessTier::InstantPlayer <==> (d.promo matches Some(
            p,
        ) && p.grants_instant_player)),
{
}

/// The amount recorded on a registration reads back as its price, so the
/// payment matched against it is the price the player was quoted.
pub proof fn recorded_amount_is_price(
    reg: Registration,
    resp: RegisterResponse,
    d: RegistrationDraft,
    price: nat,
    eth: Seq<char>,
)
    requires
        registration_built(reg, resp, d, price, eth),
        price <= u128::MAX,
    ensures
        parse_u128_spec(reg.amount_wei@) == Ok::<nat, IntParseError>(price),
        reg.amount_wei@ == resp.amount_wei@,
{
    parse_reads_back_decimal(price);
}

} // verus!
