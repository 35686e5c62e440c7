//! The order of a registration: which lookups and which changes to the
//! database it asks for, one after the other, and when it stops. The server
//! performs each action and hands back what came of it.
use vstd::prelude::*;
use vstd::string::*;

use crate::api::models::{clone_opt_string, RegisterRequest, RegisterResponse};
use crate::api::public::{
    accept_promo, build_registration, decide_rebuy, draft_price_fits, promo_to_look_up,
    spec_build_outcome, spec_rebuy_eligible, RegistrationDraft,
};
use crate::domain::{
    factorio_name_error, spec_promo_usable, AccessTier, FactorioName, PromoCode, RegStatus,
    Registration, SeasonId,
};
use crate::error::{AppError, AppResult};
use crate::time::Timestamp;

verus! {

/// Which step of a registration is under way.
#[derive(Debug, Clone, Copy, PartialEq, Eq, Structural)]
pub enum RegisterStage {
    LoadingSeason,
    FindingExisting,
    ExpiringOld,
    LookingUpPromo,
    CountingPromoUse,
    CountingRegistrations,
    Creating,
    ApplyingWhitelist,
    Finished,
    Failed,
}

/// A registration in progress.
#[derive(Debug)]
pub struct Registering {
    pub stage: RegisterStage,
    /// The validated player name of the request.
    pub name: FactorioName,
    pub eth_address: Option<String>,
    pub promo_code: Option<String>,
    pub base_fee_wei: String,
    pub rebuy_multiplier: u32,
    pub deposit_address: String,
    /// The active season, once read.
    pub season: Option<SeasonId>,
    /// Deaths on the registration a rebuy replaces; 0 otherwise.
    pub rebuy_deaths: u32,
    /// The accepted promo.
    pub promo: Option<PromoCode>,
    /// The answer, once the registration is built and until it is sent.
    pub response: Option<RegisterResponse>,
    /// Whether an action that changes the database or the game server has
    /// been asked for.
    pub wrote: bool,
}

/// What came of the last action.
#[derive(Debug)]
pub enum RegisterEvent {
    /// The active season.
    ActiveSeason(SeasonId),
    /// The player's live registration for the season, if any.
    Existing(Option<Registration>),
    /// The promo stored under the requested code, if any, read at `now`.
    Promo { found: Option<PromoCode>, now: Timestamp },
    /// The number of live registrations in the season, with the new
    /// registration's id and the time of registering.
    Counted { offset: u64, id: u128, now: Timestamp },
    /// The action succeeded.
    Done,
    /// The action failed.
    Failed(AppError),
}

/// The next thing to do.
#[derive(Debug)]
pub enum RegisterAction {
    /// Read the active season.
    LoadActiveSeason,
    /// Look up the player's live registration in the season.
    FindExisting { name: FactorioName, season: SeasonId },
    /// Expire the registration a rebuy replaces.
    Expire(u128),
    /// Look up a promo code.
    LookUpPromo(String),
    /// Count one use of a promo code.
    CountPromoUse(String),
    /// Count the season's live registrations.
    CountRegistrations(SeasonId),
    /// Store the new registration.
    Create(Registration),
    /// Put a confirmed player on the server's whitelist.
    ApplyWhitelist { name: FactorioName, tier: AccessTier, season: SeasonId },
    /// Answer the player.
    Reply(RegisterResponse),
    /// Answer with this error.
    Fail(AppError),
    /// Nothing: the registration is over, or the event does not belong to
    /// the step under way.
    Idle,
}

/// The actions that change the database or the game server.
pub open spec fn is_write(a: RegisterAction) -> bool {
    ||| a is Expire
    ||| a is CountPromoUse
    ||| a is Create
    ||| a is ApplyWhitelist
}

/// The request and the settings, which no step changes.
pub open spec fn same_request(r: Registering, o: Registering) -> bool {
    &&& o.name == r.name
    &&& o.eth_address == r.eth_address
    &&& o.promo_code == r.promo_code
    &&& o.base_fee_wei == r.base_fee_wei
    &&& o.rebuy_multiplier == r.rebuy_multiplier
    &&& o.deposit_address == r.deposit_address
}

/// A flow whose stage and findings agree: nothing has been written before
/// the season, the existing registration and the promo are checked; the
/// season is known after it is read; a rebuy carries its deaths; a promo is
/// looked up only outside a rebuy; the answer is held while it is pending.
pub open spec fn register_wf(r: Registering) -> bool {
    &&& (r.stage == RegisterStage::LoadingSeason || r.stage == RegisterStage::FindingExisting
        || r.stage == RegisterStage::LookingUpPromo) ==> !r.wrote
    &&& (r.stage == RegisterStage::LoadingSeason || r.stage == RegisterStage::FindingExisting)
        ==> r.rebuy_deaths == 0
    &&& (r.stage != RegisterStage::LoadingSeason && r.stage != RegisterStage::Failed)
        ==> r.season is Some
    &&& r.stage == RegisterStage::ExpiringOld ==> r.rebuy_deaths > 0
    &&& r.stage == RegisterStage::LookingUpPromo ==> (r.rebuy_deaths == 0 && r.promo_code is Some)
    &&& r.stage == RegisterStage::CountingPromoUse ==> r.promo_code is Some
    &&& (r.stage == RegisterStage::Creating || r.stage == RegisterStage::ApplyingWhitelist)
        ==> r.response is Some
}

/// The draft a registration is built from once the season's registrations
/// are counted.
pub open spec fn draft_of(r: Registering, offset: u64, id: u128, now: Timestamp) -> RegistrationDraft {
    RegistrationDraft {
        id,
        season_id: r.season->0,
        factorio_name: r.name,
        eth_address: r.eth_address,
        promo_code: r.promo_code,
        promo: r.promo,
        rebuy_deaths: r.rebuy_deaths,
        offset,
        base_fee_wei: r.base_fee_wei,
        rebuy_multiplier: r.rebuy_multiplier,
        deposit_address: r.deposit_address,
        now,
    }
}

/// The events a flow can be handed: at the count, a draft whose price stays
/// within `u128`.
pub open spec fn register_event_ok(r: Registering, e: RegisterEvent) -> bool {
    e matches RegisterEvent::Counted { offset, id, now } ==> (r.stage
        == RegisterStage::CountingRegistrations ==> draft_price_fits(draft_of(r, offset, id, now)))
}

/// The flow stops with `err`.
pub open spec fn fails_with(o: Registering, a: RegisterAction, err: AppError) -> bool {
    o.stage == RegisterStage::Failed && a == RegisterAction::Fail(err)
}

/// What follows once it is settled whether this is a rebuy: a promo code is
/// refused on a rebuy and looked up otherwise; without one the season's
/// registrations are counted.
pub open spec fn promo_step(r: Registering, is_rebuy: bool, o: Registering, a: RegisterAction) -> bool {
    match r.promo_code {
        Some(c) => if is_rebuy {
            &&& o.stage == RegisterStage::Failed
            &&& a matches RegisterAction::Fail(e) && e.is_bad_request(
                "promo codes cannot be used on rebuy"@,
            )
        } else {
            &&& o.stage == RegisterStage::LookingUpPromo
            &&& a matches RegisterAction::LookUpPromo(k) && k@ == c@
        },
        None => {
            &&& o.stage == RegisterStage::CountingRegistrations
            &&& a == RegisterAction::CountRegistrations(r.season->0)
        },
    }
}

/// The registration and answer an action and state hold after building:
/// the outcome `build_registration` gave.
pub open spec fn built(o: Registering, a: RegisterAction) -> AppResult<(Registration, RegisterResponse)> {
    match a {
        RegisterAction::Create(reg) => Ok((reg, o.response->0)),
        RegisterAction::Fail(err) => Err(err),
        _ => Err(AppError::NotFound),
    }
}

/// One step of a registration, `r` to `o` asking for `a` on event `e`.
/// The steps: read the active season; find the player's live registration
/// (a duplicate is refused; a player demoted by death rebuys, expiring the
/// old registration); refuse a promo on a rebuy, else look it up and check
/// it, counting its use; count the season's registrations; build and store
/// the registration; whitelist a confirmed player; answer. Any failure of an
/// action stops the flow with that error.
pub open spec fn register_step_spec(
    r: Registering,
    e: RegisterEvent,
    o: Registering,
    a: RegisterAction,
) -> bool {
    let keep_findings = o.season == r.season && o.rebuy_deaths == r.rebuy_deaths && o.promo
        == r.promo;
    &&& same_request(r, o)
    &&& o.wrote == (r.wrote || is_write(a))
    &&& match (r.stage, e) {
        (RegisterStage::Finished, _) | (RegisterStage::Failed, _) => o == r && a
            == RegisterAction::Idle,
        (_, RegisterEvent::Failed(err)) => fails_with(o, a, err),
        (RegisterStage::LoadingSeason, RegisterEvent::ActiveSeason(id)) => {
            &&& o.stage == RegisterStage::FindingExisting
            &&& o.season == Some(id)
            &&& a == RegisterAction::FindExisting { name: r.name, season: id }
        },
        (RegisterStage::FindingExisting, RegisterEvent::Existing(existing)) => match existing {
            None => keep_findings && promo_step(r, false, o, a),
            Some(x) => if spec_rebuy_eligible(x) {
                &&& o.stage == RegisterStage::ExpiringOld
                &&& o.season == r.season
                &&& o.rebuy_deaths == x.deaths
                &&& a == RegisterAction::Expire(x.id)
            } else {
                fails_with(o, a, AppError::DuplicateRegistration)
            },
        },
        (RegisterStage::ExpiringOld, RegisterEvent::Done) => keep_findings && promo_step(
            r,
            true,
            o,
            a,
        ),
        (RegisterStage::LookingUpPromo, RegisterEvent::Promo { found, now }) => match found {
            None => fails_with(o, a, AppError::InvalidPromoCode),
            Some(p) => match spec_promo_usable(p, now) {
                Ok(_) => {
                    &&& o.stage == RegisterStage::CountingPromoUse
                    &&& o.season == r.season && o.rebuy_deaths == r.rebuy_deaths
                    &&& o.promo == Some(p)
                    &&& a matches RegisterAction::CountPromoUse(k) && k@ == r.promo_code->0@
                },
                Err(err) => fails_with(o, a, err),
            },
        },
        (RegisterStage::CountingPromoUse, RegisterEvent::Done) => {
            &&& keep_findings
            &&& o.stage == RegisterStage::CountingRegistrations
            &&& a == RegisterAction::CountRegistrations(r.season->0)
        },
        (RegisterStage::CountingRegistrations, RegisterEvent::Counted { offset, id, now }) => {
            &&& keep_findings
            &&& (a is Create && o.stage == RegisterStage::Creating && o.response is Some) || (
            a is Fail && o.stage == RegisterStage::Failed)
            &&& spec_build_outcome(draft_of(r, offset, id, now), built(o, a))
        },
        (RegisterStage::Creating, RegisterEvent::Done) => {
            let resp = r.response->0;
            if resp.status == RegStatus::Confirmed {
                &&& o.stage == RegisterStage::ApplyingWhitelist
                &&& o.season == r.season && o.response == r.response
                &&& a == RegisterAction::ApplyWhitelist {
                    name: r.name,
                    tier: resp.access_tier,
                    season: r.season->0,
                }
            } else {
                o.stage == RegisterStage::Finished && a == RegisterAction::Reply(resp)
            }
        },
        (RegisterStage::ApplyingWhitelist, RegisterEvent::Done) => {
            o.stage == RegisterStage::Finished && a == RegisterAction::Reply(r.response->0)
        },
        _ => o == r && a == RegisterAction::Idle,
    }
}

/// Starts a registration: refuses an invalid player name at once, and
/// otherwise asks for the active season.
pub fn register_begin(
    req: RegisterRequest,
    base_fee_wei: String,
    rebuy_multiplier: u32,
    deposit_address: String,
) -> (r: AppResult<(Registering, RegisterAction)>)
    ensures
        factorio_name_error(req.factorio_name@) matches Some(m) ==> (r matches Err(e)
            && e.is_bad_request(m)),
        factorio_name_error(req.factorio_name@) is None ==> (r matches Ok((s, a)) && {
            &&& s.stage == RegisterStage::LoadingSeason
            &&& s.name@ == req.factorio_name@
            &&& s.eth_address == req.eth_address
            &&& s.promo_code == req.promo_code
            &&& s.base_fee_wei == base_fee_wei
            &&& s.rebuy_multiplier == rebuy_multiplier
            &&& s.deposit_address == deposit_address
            &&& s.season is None && s.rebuy_deaths == 0 && s.promo is None && s.response is None
            &&& !s.wrote
            &&& register_wf(s)
            &&& a == RegisterAction::LoadActiveSeason
        }),
{
    let name = FactorioName::try_from(req.factorio_name)?;
    let s = Registering {
        stage: RegisterStage::LoadingSeason,
        name,
        eth_address: req.eth_address,
        promo_code: req.promo_code,
        base_fee_wei,
        rebuy_multiplier,
        deposit_address,
        season: None,
        rebuy_deaths: 0,
        promo: None,
        response: None,
        wrote: false,
    };
    Ok((s, RegisterAction::LoadActiveSeason))
}

fn clone_promo(p: &Option<PromoCode>) -> (r: Option<PromoCode>)
    ensures
        r == *p,
{
    match p {
        Some(p) => Some(
            PromoCode {
                code: p.code.clone(),
                discount_percent: p.discount_percent,
                grants_instant_player: p.grants_instant_player,
                max_uses: p.max_uses,
                times_used: p.times_used,
                active: p.active,
                created_at: p.created_at,
                expires_at: p.expires_at,
            },
        ),
        None => None,
    }
}

fn fail(r: Registering, err: AppError) -> (out: (Registering, RegisterAction))
    ensures
        fails_with(out.0, out.1, err),
        same_request(r, out.0),
        out.0.wrote == r.wrote,
        out.0.season == r.season,
        out.0.rebuy_deaths == r.rebuy_deaths,
        out.0.promo == r.promo,
        out.0.response == r.response,
{
    (Registering { stage: RegisterStage::Failed, ..r }, RegisterAction::Fail(err))
}

fn promo_branch(r: Registering, is_rebuy: bool) -> (out: (Registering, RegisterAction))
    requires
        r.season is Some,
    ensures
        promo_step(r, is_rebuy, out.0, out.1),
        same_request(r, out.0),
        out.0.wrote == (r.wrote || is_write(out.1)),
        !is_write(out.1),
        out.0.season == r.season && out.0.rebuy_deaths == r.rebuy_deaths && out.0.promo == r.promo,
        out.0.stage == RegisterStage::LookingUpPromo ==> out.0.promo_code is Some,
{
    match promo_to_look_up(is_rebuy, &r.promo_code) {
        Err(e) => fail(r, e),
        Ok(Some(code)) => (Registering { stage: RegisterStage::LookingUpPromo, ..r }, RegisterAction::LookUpPromo(code)),
        Ok(None) => {
            let season = r.season.unwrap();
            (
                Registering { stage: RegisterStage::CountingRegistrations, ..r },
                RegisterAction::CountRegistrations(season),
            )
        },
    }
}

/// One step of a registration (see `register_step_spec`).
pub fn register_step(r: Registering, e: RegisterEvent) -> (out: (Registering, RegisterAction))
    requires
        register_wf(r),
        register_event_ok(r, e),
    ensures
        register_step_spec(r, e, out.0, out.1),
        register_wf(out.0),
{
    match (r.stage, e) {
        (RegisterStage::Finished, _) | (RegisterStage::Failed, _) => (r, RegisterAction::Idle),
        (_, RegisterEvent::Failed(err)) => fail(r, err),
        (RegisterStage::LoadingSeason, RegisterEvent::ActiveSeason(id)) => {
            let name = r.name.clone();
            (
                Registering { stage: RegisterStage::FindingExisting, season: Some(id), ..r },
                RegisterAction::FindExisting { name, season: id },
            )
        },
        (RegisterStage::FindingExisting, RegisterEvent::Existing(existing)) => {
            match decide_rebuy(&existing) {
                Err(err) => fail(r, err),
                Ok(None) => promo_branch(r, false),
                Ok(Some((old_id, deaths))) => (
                    Registering {
                        stage: RegisterStage::ExpiringOld,
                        rebuy_deaths: deaths,
                        wrote: true,
                        ..r
                    },
                    RegisterAction::Expire(old_id),
                ),
            }
        },
        (RegisterStage::ExpiringOld, RegisterEvent::Done) => promo_branch(r, true),
        (RegisterStage::LookingUpPromo, RegisterEvent::Promo { found, now }) => {
            match accept_promo(found, now) {
                Err(err) => fail(r, err),
                Ok(p) => {
                    let code = match &r.promo_code {
                        Some(c) => c.clone(),
                        None => String::new(),
                    };
                    (
                        Registering {
                            stage: RegisterStage::CountingPromoUse,
                            promo: Some(p),
                            wrote: true,
                            ..r
                        },
                        RegisterAction::CountPromoUse(code),
                    )
                },
            }
        },
        (RegisterStage::CountingPromoUse, RegisterEvent::Done) => {
            let season = r.season.unwrap();
            (
                Registering { stage: RegisterStage::CountingRegistrations, ..r },
                RegisterAction::CountRegistrations(season),
            )
        },
        (RegisterStage::CountingRegistrations, RegisterEvent::Counted { offset, id, now }) => {
            let draft = RegistrationDraft {
                id,
                season_id: r.season.unwrap(),
                factorio_name: r.name.clone(),
                eth_address: clone_opt_string(&r.eth_address),
                promo_code: clone_opt_string(&r.promo_code),
                promo: clone_promo(&r.promo),
                rebuy_deaths: r.rebuy_deaths,
                offset,
                base_fee_wei: r.base_fee_wei.clone(),
                rebuy_multiplier: r.rebuy_multiplier,
                deposit_address: r.deposit_address.clone(),
                now,
            };
            assert(draft == draft_of(r, offset, id, now));
            match build_registration(draft) {
                Err(err) => fail(r, err),
                Ok((reg, resp)) => (
                    Registering { stage: RegisterStage::Creating, response: Some(resp), wrote: true, ..r },
                    RegisterAction::Create(reg),
                ),
            }
        },
        (RegisterStage::Creating, RegisterEvent::Done) => {
            let confirmed = match &r.response {
                Some(resp) => resp.status == RegStatus::Confirmed,
                None => false,
            };
            if confirmed {
                let tier = match &r.response {
                    Some(resp) => resp.access_tier,
                    None => AccessTier::Standard,
                };
                let name = r.name.clone();
                let season = r.season.unwrap();
                (
                    Registering { stage: RegisterStage::ApplyingWhitelist, wrote: true, ..r },
                    RegisterAction::ApplyWhitelist { name, tier, season },
                )
            } else {
                let Registering { stage, name, eth_address, promo_code, base_fee_wei,
                    rebuy_multiplier, deposit_address, season, rebuy_deaths, promo, response,
                    wrote } = r;
                let resp = response.unwrap();
                (
                    Registering {
                        stage: RegisterStage::Finished,
                        name,
                        eth_address,
                        promo_code,
                        base_fee_wei,
                        rebuy_multiplier,
                        deposit_address,
                        season,
                        rebuy_deaths,
                        promo,
                        response: None,
                        wrote,
                    },
                    RegisterAction::Reply(resp),
                )
            }
        },
        (RegisterStage::ApplyingWhitelist, RegisterEvent::Done) => {
            let Registering { stage, name, eth_address, promo_code, base_fee_wei,
                rebuy_multiplier, deposit_address, season, rebuy_deaths, promo, response,
                wrote } = r;
            let resp = response.unwrap();
            (
                Registering {
                    stage: RegisterStage::Finished,
                    name,
                    eth_address,
                    promo_code,
                    base_fee_wei,
                    rebuy_multiplier,
                    deposit_address,
                    season,
                    rebuy_deaths,
                    promo,
                    response: None,
                    wrote,
                },
                RegisterAction::Reply(resp),
            )
        },
        (_, _) => (r, RegisterAction::Idle),
    }
}

// ---------------------------------------------------------------------------
// Properties of the registration flow
// ---------------------------------------------------------------------------

/// A player already registered for the season, and not dead in hardcore, is
/// refused as a duplicate before anything is written.
pub proof fn duplicate_is_refused_before_any_write(
    r: Registering,
    x: Registration,
    o: Registering,
    a: RegisterAction,
)
    requires
        register_wf(r),
        r.stage == RegisterStage::FindingExisting,
        !spec_rebuy_eligible(x),
        register_step_spec(r, RegisterEvent::Existing(Some(x)), o, a),
    ensures
        a == RegisterAction::Fail(AppError::DuplicateRegistration),
        !o.wrote,
{
}

/// A refusal for a missing season, a duplicate registration, an unknown or
/// unusable promo, or a failed lookup comes before anything is written.
/// (An invalid name is refused by `register_begin`, before any action.)
pub proof fn refusals_come_before_any_write(
    r: Registering,
    e: RegisterEvent,
    o: Registering,
    a: RegisterAction,
)
    requires
        register_wf(r),
        r.stage == RegisterStage::LoadingSeason || r.stage == RegisterStage::FindingExisting
            || r.stage == RegisterStage::LookingUpPromo,
        register_step_spec(r, e, o, a),
        a is Fail,
    ensures
        !r.wrote,
        !o.wrote,
{
}

/// A step asks for a change only after the lookups that may refuse it: a
/// flow that has written never goes back to those lookups.
pub proof fn written_flows_do_not_look_up_again(
    r: Registering,
    e: RegisterEvent,
    o: Registering,
    a: RegisterAction,
)
    requires
        register_wf(r),
        r.wrote,
        register_step_spec(r, e, o, a),
    ensures
        o.wrote,
        o.stage != RegisterStage::LoadingSeason && o.stage != RegisterStage::FindingExisting
            && o.stage != RegisterStage::LookingUpPromo,
{
}

} // verus!
