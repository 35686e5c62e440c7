//! The records as the database stores them, and how they are read back.
use vstd::prelude::*;
use vstd::string::*;

use crate::domain::{
    eth_address_error, factorio_name_error, AccessTier, DiscountPercent, EthAddress, FactorioName,
    PromoCode, RegStatus, Registration, Season, SeasonId, SeasonStatus, Wei, all_digits,
};
use crate::error::{AppError, AppResult};
use crate::ids::{parse_uuid, uuid_parse_result};
use crate::text::{decimal, decimal_int, lowercase_of, push_str};
use crate::time::{naive_utc_instant, parse_naive_utc, parse_rfc3339, rfc3339_instant, Timestamp};

verus! {

/// A row of the `seasons` table.
#[derive(Debug, Clone)]
pub struct SeasonRow {
    pub id: i64,
    pub status: String,
    pub started_at: String,
    pub ends_at: String,
    pub map_seed: Option<String>,
    pub save_path: Option<String>,
    pub created_at: String,
}

/// A row of the `registrations` table.
#[derive(Debug, Clone)]
pub struct RegistrationRow {
    pub id: String,
    pub season_id: i64,
    pub factorio_name: String,
    pub eth_address: String,
    pub promo_code: Option<String>,
    pub tx_hash: Option<String>,
    pub status: String,
    pub access_tier: String,
    pub amount_wei: String,
    pub created_at: String,
    pub confirmed_at: Option<String>,
    pub deaths: i32,
}

/// A row of the `promo_codes` table.
#[derive(Debug, Clone)]
pub struct PromoCodeRow {
    pub code: String,
    pub discount_percent: i32,
    pub grants_instant_player: i32,
    pub max_uses: Option<i32>,
    pub times_used: i32,
    pub active: i32,
    pub created_at: String,
    pub expires_at: Option<String>,
}

/// The error of a result, if it is one.
pub open spec fn err_of<T>(r: Result<T, Seq<char>>) -> Option<Seq<char>> {
    match r {
        Ok(_) => None,
        Err(m) => Some(m),
    }
}

// ---------------------------------------------------------------------------
// Stored times
// ---------------------------------------------------------------------------

/// SQLite's own spelling of a time, accepted besides RFC 3339.
pub const SQLITE_DATETIME_FORMAT: &'static str = "%Y-%m-%d %H:%M:%S";

/// A stored time: RFC 3339 (as the backend writes it), else SQLite's
/// `YYYY-MM-DD HH:MM:SS` read as UTC; the error names the string and why the
/// second reading failed.
pub open spec fn spec_parse_datetime(s: Seq<char>) -> Result<Timestamp, Seq<char>> {
    match rfc3339_instant(s) {
        Some(t) => Ok(Timestamp { secs: t.0, nanos: t.1 }),
        None => match naive_utc_instant(s, SQLITE_DATETIME_FORMAT@) {
            Ok(t) => Ok(Timestamp { secs: t.0, nanos: t.1 }),
            Err(m) => Err("invalid datetime '"@ + s + "': "@ + m),
        },
    }
}

pub fn parse_datetime(s: &str) -> (r: AppResult<Timestamp>)
    ensures
        spec_parse_datetime(s@) matches Ok(t) ==> r == Ok::<Timestamp, AppError>(t),
        spec_parse_datetime(s@) matches Err(m) ==> (r matches Err(e) && e.is_bad_request(m)),
{
    if let Some(t) = parse_rfc3339(s) {
        return Ok(t);
    }
    match parse_naive_utc(s, SQLITE_DATETIME_FORMAT) {
        Ok(t) => Ok(t),
        Err(m) => {
            let mut msg = String::from_str("invalid datetime '");
            push_str(&mut msg, s);
            push_str(&mut msg, "': ");
            push_str(&mut msg, m.as_str());
            Err(AppError::BadRequest(msg))
        },
    }
}

pub open spec fn spec_parse_opt_datetime(s: Option<String>) -> Result<Option<Timestamp>, Seq<char>> {
    match s {
        None => Ok(None),
        Some(x) => match spec_parse_datetime(x@) {
            Ok(t) => Ok(Some(t)),
            Err(m) => Err(m),
        },
    }
}

fn parse_opt_datetime(s: &Option<String>) -> (r: AppResult<Option<Timestamp>>)
    ensures
        spec_parse_opt_datetime(*s) matches Ok(t) ==> r == Ok::<Option<Timestamp>, AppError>(t),
        spec_parse_opt_datetime(*s) matches Err(m) ==> (r matches Err(e) && e.is_bad_request(m)),
{
    match s {
        None => Ok(None),
        Some(x) => {
            let t = parse_datetime(x.as_str())?;
            Ok(Some(t))
        },
    }
}

// ---------------------------------------------------------------------------
// Seasons
// ---------------------------------------------------------------------------

/// The first reason a season row is unreadable, checking its fields in order.
pub open spec fn season_row_error(row: SeasonRow) -> Option<Seq<char>> {
    if row.id <= 0 {
        Some("season id must be positive, got "@ + decimal_int(row.id as int))
    } else if SeasonStatus::spec_from_db(row.status@) is None {
        Some("unknown season status: "@ + row.status@)
    } else if err_of(spec_parse_datetime(row.started_at@)) is Some {
        err_of(spec_parse_datetime(row.started_at@))
    } else if err_of(spec_parse_datetime(row.ends_at@)) is Some {
        err_of(spec_parse_datetime(row.ends_at@))
    } else if err_of(spec_parse_datetime(row.created_at@)) is Some {
        err_of(spec_parse_datetime(row.created_at@))
    } else {
        None
    }
}

impl Season {
    /// Reads a season back from its row.
    pub fn try_from(row: SeasonRow) -> (r: AppResult<Season>)
        ensures
            season_row_error(row) matches Some(m) ==> (r matches Err(e) && e.is_bad_request(m)),
            season_row_error(row) is None ==> (r matches Ok(s) && s.id@ == row.id
                && SeasonStatus::spec_from_db(row.status@) == Some(s.status)
                && spec_parse_datetime(row.started_at@) == Ok::<Timestamp, Seq<char>>(s.started_at)
                && spec_parse_datetime(row.ends_at@) == Ok::<Timestamp, Seq<char>>(s.ends_at)
                && spec_parse_datetime(row.created_at@) == Ok::<Timestamp, Seq<char>>(s.created_at)
                && s.map_seed == row.map_seed && s.save_path == row.save_path),
    {
        let id = SeasonId::new(row.id)?;
        let status = SeasonStatus::try_from(row.status.as_str())?;
        let started_at = parse_datetime(row.started_at.as_str())?;
        let ends_at = parse_datetime(row.ends_at.as_str())?;
        let created_at = parse_datetime(row.created_at.as_str())?;
        Ok(Season {
            id,
            status,
            started_at,
            ends_at,
            map_seed: row.map_seed,
            save_path: row.save_path,
            created_at,
        })
    }
}

// ---------------------------------------------------------------------------
// Registrations
// ---------------------------------------------------------------------------

/// The first reason a registration row is unreadable, checking its fields in order.
pub open spec fn registration_row_error(row: RegistrationRow) -> Option<Seq<char>> {
    if err_of(uuid_parse_result(row.id@)) is Some {
        Some("invalid uuid: "@ + err_of(uuid_parse_result(row.id@))->0)
    } else if row.season_id <= 0 {
        Some("season id must be positive, got "@ + decimal_int(row.season_id as int))
    } else if factorio_name_error(row.factorio_name@) is Some {
        factorio_name_error(row.factorio_name@)
    } else if eth_address_error(lowercase_of(row.eth_address@)) is Some {
        eth_address_error(lowercase_of(row.eth_address@))
    } else if RegStatus::spec_from_db(row.status@) is None {
        Some("unknown registration status: "@ + row.status@)
    } else if AccessTier::spec_from_db(row.access_tier@) is None {
        Some("unknown access tier: "@ + row.access_tier@)
    } else if row.amount_wei@.len() == 0 {
        Some("wei amount cannot be empty"@)
    } else if !all_digits(row.amount_wei@) {
        Some("wei amount must be non-negative decimal digits"@)
    } else if err_of(spec_parse_datetime(row.created_at@)) is Some {
        err_of(spec_parse_datetime(row.created_at@))
    } else if err_of(spec_parse_opt_datetime(row.confirmed_at)) is Some {
        err_of(spec_parse_opt_datetime(row.confirmed_at))
    } else {
        None
    }
}

impl Registration {
    /// Reads a registration back from its row.
    pub fn try_from(row: RegistrationRow) -> (r: AppResult<Registration>)
        ensures
            registration_row_error(row) matches Some(m) ==> (r matches Err(e) && e.is_bad_request(
                m,
            )),
            registration_row_error(row) is None ==> (r matches Ok(g) && uuid_parse_result(row.id@)
                == Ok::<u128, Seq<char>>(g.id) && g.season_id@ == row.season_id
                && g.factorio_name@ == row.factorio_name@ && g.eth_address@ == lowercase_of(
                row.eth_address@,
            ) && g.promo_code == row.promo_code && g.tx_hash == row.tx_hash
                && RegStatus::spec_from_db(row.status@) == Some(g.status)
                && AccessTier::spec_from_db(row.access_tier@) == Some(g.access_tier)
                && g.amount_wei@ == row.amount_wei@ && spec_parse_datetime(row.created_at@) == Ok::<
                Timestamp,
                Seq<char>,
            >(g.created_at) && spec_parse_opt_datetime(row.confirmed_at) == Ok::<
                Option<Timestamp>,
                Seq<char>,
            >(g.confirmed_at) && g.deaths == row.deaths as u32),
    {
        let id = match parse_uuid(row.id.as_str()) {
            Ok(v) => v,
            Err(m) => {
                let mut msg = String::from_str("invalid uuid: ");
                push_str(&mut msg, m.as_str());
                return Err(AppError::BadRequest(msg));
            },
        };
        let season_id = SeasonId::new(row.season_id)?;
        let factorio_name = FactorioName::try_from(row.factorio_name)?;
        let eth_address = EthAddress::try_from(row.eth_address)?;
        let status = RegStatus::try_from(row.status.as_str())?;
        let access_tier = AccessTier::try_from(row.access_tier.as_str())?;
        let amount_wei = Wei::from_decimal(row.amount_wei)?;
        let created_at = parse_datetime(row.created_at.as_str())?;
        let confirmed_at = parse_opt_datetime(&row.confirmed_at)?;
        Ok(Registration {
            id,
            season_id,
            factorio_name,
            eth_address,
            promo_code: row.promo_code,
            tx_hash: row.tx_hash,
            status,
            access_tier,
            amount_wei,
            created_at,
            confirmed_at,
            deaths: row.deaths as u32,
        })
    }
}

// ---------------------------------------------------------------------------
// Promo codes
// ---------------------------------------------------------------------------

/// The first reason a promo code row is unreadable, checking its fields in
/// order. The stored discount is read as a byte (its low eight bits).
pub open spec fn promo_row_error(row: PromoCodeRow) -> Option<Seq<char>> {
    if (row.discount_percent as u8) > 100 {
        Some("discount percent must be 0..=100, got "@ + decimal((row.discount_percent as u8) as nat))
    } else if err_of(spec_parse_datetime(row.created_at@)) is Some {
        err_of(spec_parse_datetime(row.created_at@))
    } else if err_of(spec_parse_opt_datetime(row.expires_at)) is Some {
        err_of(spec_parse_opt_datetime(row.expires_at))
    } else {
        None
    }
}

pub open spec fn spec_opt_i32_as_u32(v: Option<i32>) -> Option<u32> {
    match v {
        Some(x) => Some(x as u32),
        None => None,
    }
}

impl PromoCode {
    /// Reads a promo code back from its row.
    pub fn try_from(row: PromoCodeRow) -> (r: AppResult<PromoCode>)
        ensures
            promo_row_error(row) matches Some(m) ==> (r matches Err(e) && e.is_bad_request(m)),
            promo_row_error(row) is None ==> (r matches Ok(p) && p.code == row.code
                && p.discount_percent@ == row.discount_percent as u8 && p.grants_instant_player
                == (row.grants_instant_player != 0) && p.max_uses == spec_opt_i32_as_u32(
                row.max_uses,
            ) && p.times_used == row.times_used as u32 && p.active == (row.active != 0)
                && spec_parse_datetime(row.created_at@) == Ok::<Timestamp, Seq<char>>(p.created_at)
                && spec_parse_opt_datetime(row.expires_at) == Ok::<Option<Timestamp>, Seq<char>>(
                p.expires_at,
            )),
    {
        let discount_percent = DiscountPercent::try_from(row.discount_percent as u8)?;
        let created_at = parse_datetime(row.created_at.as_str())?;
        let expires_at = parse_opt_datetime(&row.expires_at)?;
        Ok(PromoCode {
            code: row.code,
            discount_percent,
            grants_instant_player: row.grants_instant_player != 0,
            max_uses: match row.max_uses {
                Some(v) => Some(v as u32),
                None => None,
            },
            times_used: row.times_used as u32,
            active: row.active != 0,
            created_at,
            expires_at,
        })
    }
}

} // verus!
