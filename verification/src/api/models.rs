//! What the HTTP API receives and answers.
use vstd::prelude::*;
use vstd::string::*;

use crate::domain::{AccessTier, PromoCode, RegStatus, Registration, SeasonId, SeasonStatus, Wei};
use crate::time::Timestamp;

verus! {

/// A player's request to register for the active season.
#[derive(Debug, Clone)]
pub struct RegisterRequest {
    pub factorio_name: String,
    pub eth_address: Option<String>,
    pub promo_code: Option<String>,
}

/// An administrator's request to create a promo code.
#[derive(Debug, Clone)]
pub struct CreatePromoRequest {
    pub code: String,
    pub discount_percent: u8,
    pub grants_instant_player: bool,
    pub max_uses: Option<u32>,
    pub expires_at: Option<Timestamp>,
}

/// Filters of the administrator's registration list.
#[derive(Debug, Clone)]
pub struct ListRegistrationsQuery {
    pub season_id: Option<i64>,
    pub status: Option<String>,
}

/// The answer to a registration: what was recorded and how to pay.
#[derive(Debug, Clone)]
pub struct RegisterResponse {
    pub registration_id: u128,
    pub status: RegStatus,
    pub access_tier: AccessTier,
    pub amount_wei: Wei,
    pub deposit_address: Option<String>,
    pub deaths: u32,
    pub message: String,
}

/// One season in the public season list.
#[derive(Debug, Clone)]
pub struct SeasonSummary {
    pub id: SeasonId,
    pub status: SeasonStatus,
    pub started_at: Timestamp,
    pub ends_at: Timestamp,
    pub has_map_download: bool,
}

/// The current season as the public sees it.
#[derive(Debug, Clone)]
pub struct SeasonInfoResponse {
    pub id: SeasonId,
    pub status: SeasonStatus,
    pub started_at: Timestamp,
    pub ends_at: Timestamp,
    pub player_count: u64,
    pub spectator_count: u64,
    pub factorio_version: String,
    pub base_fee_wei: String,
}

/// A registration as its player may look it up.
#[derive(Debug, Clone)]
pub struct RegistrationStatusResponse {
    pub id: u128,
    pub season_id: SeasonId,
    pub factorio_name: String,
    pub status: RegStatus,
    pub access_tier: AccessTier,
    pub amount_wei: Wei,
    pub tx_hash: Option<String>,
    pub deaths: u32,
    pub created_at: Timestamp,
    pub confirmed_at: Option<Timestamp>,
}

/// A promo code as administrators see it.
#[derive(Debug, Clone)]
pub struct PromoCodeResponse {
    pub code: String,
    pub discount_percent: u8,
    pub grants_instant_player: bool,
    pub max_uses: Option<u32>,
    pub times_used: u32,
    pub active: bool,
    pub created_at: Timestamp,
    pub expires_at: Option<Timestamp>,
}

/// A registration as administrators see it.
#[derive(Debug)]
pub struct RegistrationAdminResponse {
    pub id: u128,
    pub season_id: SeasonId,
    pub factorio_name: String,
    pub eth_address: String,
    pub promo_code: Option<String>,
    pub tx_hash: Option<String>,
    pub status: RegStatus,
    pub access_tier: AccessTier,
    pub amount_wei: Wei,
    pub deaths: u32,
    pub created_at: Timestamp,
    pub confirmed_at: Option<Timestamp>,
}

pub open spec fn opt_string_view(o: Option<String>) -> Option<Seq<char>> {
    match o {
        Some(s) => Some(s@),
        None => None,
    }
}

pub fn clone_opt_string(o: &Option<String>) -> (r: Option<String>)
    ensures
        r == *o,
        opt_string_view(r) == opt_string_view(*o),
{
    match o {
        Some(s) => Some(s.clone()),
        None => None,
    }
}

impl RegistrationStatusResponse {
    /// The player's view of a registration.
    pub fn from(r: &Registration) -> (o: Self)
        ensures
            o.id == r.id,
            o.season_id == r.season_id,
            o.factorio_name@ == r.factorio_name@,
            o.status == r.status,
            o.access_tier == r.access_tier,
            o.amount_wei@ == r.amount_wei@,
            opt_string_view(o.tx_hash) == opt_string_view(r.tx_hash),
            o.deaths == r.deaths,
            o.created_at == r.created_at,
            o.confirmed_at == r.confirmed_at,
    {
        RegistrationStatusResponse {
            id: r.id,
            season_id: r.season_id,
            factorio_name: String::from_str(r.factorio_name.as_str()),
            status: r.status,
            access_tier: r.access_tier,
            amount_wei: r.amount_wei.clone(),
            tx_hash: clone_opt_string(&r.tx_hash),
            deaths: r.deaths,
            created_at: r.created_at,
            confirmed_at: r.confirmed_at,
        }
    }
}

impl RegistrationAdminResponse {
    /// The administrators' view of a registration.
    pub fn from(r: &Registration) -> (o: Self)
        ensures
            o.id == r.id,
            o.season_id == r.season_id,
            o.factorio_name@ == r.factorio_name@,
            o.eth_address@ == r.eth_address@,
            opt_string_view(o.promo_code) == opt_string_view(r.promo_code),
            opt_string_view(o.tx_hash) == opt_string_view(r.tx_hash),
            o.status == r.status,
            o.access_tier == r.access_tier,
            o.amount_wei@ == r.amount_wei@,
            o.deaths == r.deaths,
            o.created_at == r.created_at,
            o.confirmed_at == r.confirmed_at,
    {
        RegistrationAdminResponse {
            id: r.id,
            season_id: r.season_id,
            factorio_name: String::from_str(r.factorio_name.as_str()),
            eth_address: String::from_str(r.eth_address.as_str()),
            promo_code: clone_opt_string(&r.promo_code),
            tx_hash: clone_opt_string(&r.tx_hash),
            status: r.status,
            access_tier: r.access_tier,
            amount_wei: r.amount_wei.clone(),
            deaths: r.deaths,
            created_at: r.created_at,
            confirmed_at: r.confirmed_at,
        }
    }
}

impl Clone for RegistrationAdminResponse {
    fn clone(&self) -> (r: Self)
        ensures
            r == *self,
    {
        RegistrationAdminResponse {
            id: self.id,
            season_id: self.season_id,
            factorio_name: self.factorio_name.clone(),
            eth_address: self.eth_address.clone(),
            promo_code: clone_opt_string(&self.promo_code),
            tx_hash: clone_opt_string(&self.tx_hash),
            status: self.status,
            access_tier: self.access_tier,
            amount_wei: self.amount_wei.clone(),
            deaths: self.deaths,
            created_at: self.created_at,
            confirmed_at: self.confirmed_at,
        }
    }
}

impl PromoCodeResponse {
    /// The administrators' view of a promo code.
    pub fn from(p: &PromoCode) -> (o: Self)
        ensures
            o.code@ == p.code@,
            o.discount_percent == p.discount_percent@,
            o.grants_instant_player == p.grants_instant_player,
            o.max_uses == p.max_uses,
            o.times_used == p.times_used,
            o.active == p.active,
            o.created_at == p.created_at,
            o.expires_at == p.expires_at,
    {
        PromoCodeResponse {
            code: p.code.clone(),
            discount_percent: p.discount_percent.as_u8(),
            grants_instant_player: p.grants_instant_player,
            max_uses: p.max_uses,
            times_used: p.times_used,
            active: p.active,
            created_at: p.created_at,
            expires_at: p.expires_at,
        }
    }
}

/// The answer to a forced rotation.
#[derive(Debug, Clone)]
pub struct RotateResponse {
    pub status: &'static str,
}

} // verus!
