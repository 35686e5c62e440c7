use factorio_seasons::api::admin::{
    check_admin_token, filter_by_status, new_promo_code, promo_exists_error, promo_revocation,
    validate_promo_request, check_revocable,
};
use factorio_seasons::api::models::{
    CreatePromoRequest, PromoCodeResponse, RegistrationAdminResponse, RegistrationStatusResponse,
};
use factorio_seasons::api::public::{
    accept_promo, build_registration, decide_rebuy, map_download_disposition, map_download_path,
    parse_registration_id, promo_to_look_up, registration_price_fits, season_summary,
    RegistrationDraft,
};
use factorio_seasons::api::models::RegisterRequest;
use factorio_seasons::api::register_flow::{
    register_begin, register_step, RegisterAction, RegisterEvent, RegisterStage, Registering,
};
use factorio_seasons::config::{
    default_base_fee_wei, default_payment_expiry_hours, default_rebuy_multiplier,
    default_season_duration_days, FactorioConfig, LoggingConfig,
};
use factorio_seasons::db::{parse_datetime, PromoCodeRow, RegistrationRow, SeasonRow};
use factorio_seasons::domain::{
    compute_rebuy_price, AccessTier, DiscountPercent, EthAddress, FactorioName, PromoCode,
    RegStatus, Registration, Season, SeasonId, SeasonStatus, Wei,
};
use factorio_seasons::error::AppError;
use factorio_seasons::services::rcon::RconConfig;
use factorio_seasons::services::rotation::{
    purge_targets, rotation_new, rotation_step, season_file_name, server_description, server_name, RconStep,
    RotationAction, RotationEvent, RotationStage, ServiceAction,
};
use factorio_seasons::services::server_settings::{server_settings_with_name, JsonValue};
use factorio_seasons::services::scheduler::{parse_weekday, scheduler_tick, Weekday};
use factorio_seasons::services::whitelist::{
    demotion_commands, desired_group, group_correction, lua_escape, needs_demotion,
    parse_poll_response, permission_command, rcon_set_player, rcon_set_spectator, rcon_whisper,
    season_accepts_whitelist, setup_command, spectator_list_json, startup_commands,
    whitelist_file_json, poll_entry_action, PollAction, PollEntry, whitelist_add_command, whitelist_remove_command,
    whitelist_sync_plan, HARDCORE_DEATH_MESSAGE, SETUP_LUA,
};
use factorio_seasons::text::{format_i64, format_u128, parse_u128, trim, IntParseError};
use factorio_seasons::time::{Timestamp, MAX_EPOCH_SECS, MIN_EPOCH_SECS};

const ADDR: &str = "0x742d35cc6634c0532925a3b844bc9e7595f2bd00";

fn ts(secs: i64) -> Timestamp {
    Timestamp { secs, nanos: 0 }
}

fn reg(name: &str, status: RegStatus, tier: AccessTier, deaths: u32) -> Registration {
    Registration {
        id: 7,
        season_id: SeasonId::new(1).unwrap(),
        factorio_name: FactorioName::try_from(name.to_string()).unwrap(),
        eth_address: EthAddress::try_from(ADDR.to_string()).unwrap(),
        promo_code: None,
        tx_hash: None,
        status,
        access_tier: tier,
        amount_wei: Wei::from_decimal("1000".to_string()).unwrap(),
        created_at: ts(100),
        confirmed_at: None,
        deaths,
    }
}

fn promo(discount: u8, instant: bool) -> PromoCode {
    PromoCode {
        code: "HALFOFF".to_string(),
        discount_percent: DiscountPercent::try_from(discount).unwrap(),
        grants_instant_player: instant,
        max_uses: None,
        times_used: 0,
        active: true,
        created_at: ts(0),
        expires_at: None,
    }
}

fn draft(eth: Option<&str>, promo: Option<PromoCode>, deaths: u32, offset: u64) -> RegistrationDraft {
    RegistrationDraft {
        id: 42,
        season_id: SeasonId::new(3).unwrap(),
        factorio_name: FactorioName::try_from("Alice".to_string()).unwrap(),
        eth_address: eth.map(|s| s.to_string()),
        promo_code: promo.as_ref().map(|p| p.code.clone()),
        promo,
        rebuy_deaths: deaths,
        offset,
        base_fee_wei: "1000".to_string(),
        rebuy_multiplier: 2,
        deposit_address: "0xdeposit".to_string(),
        now: ts(5000),
    }
}

fn bad_request_text(e: AppError) -> String {
    match e {
        AppError::BadRequest(m) => m,
        other => panic!("expected a bad request, got {:?}", other),
    }
}

// ---------------------------------------------------------------------------
// Text
// ---------------------------------------------------------------------------

#[test]
fn decimal_rendering() {
    assert_eq!(format_u128(0), "0");
    assert_eq!(format_u128(340282366920938463463374607431768211455), u128::MAX.to_string());
    assert_eq!(format_i64(-42), "-42");
    assert_eq!(format_i64(i64::MIN), i64::MIN.to_string());
}

#[test]
fn decimal_parse_like_std() {
    for s in ["0", "+7", "007", "340282366920938463463374607431768211455"] {
        assert_eq!(parse_u128(s), Ok(s.parse::<u128>().unwrap()));
    }
    assert_eq!(parse_u128(""), Err(IntParseError::Empty));
    assert_eq!(parse_u128("+"), Err(IntParseError::InvalidDigit));
    assert_eq!(parse_u128("-1"), Err(IntParseError::InvalidDigit));
    assert_eq!(parse_u128("12a"), Err(IntParseError::InvalidDigit));
    assert_eq!(
        parse_u128("340282366920938463463374607431768211456"),
        Err(IntParseError::PosOverflow)
    );
}

#[test]
fn decimal_roundtrip() {
    for n in [0u128, 9, 10, 333333333333333, u128::MAX] {
        assert_eq!(parse_u128(&format_u128(n)), Ok(n));
    }
}

// ---------------------------------------------------------------------------
// Domain
// ---------------------------------------------------------------------------

#[test]
fn season_id_error_text() {
    assert_eq!(bad_request_text(SeasonId::new(-3).unwrap_err()), "season id must be positive, got -3");
}

#[test]
fn factorio_name_byte_length_counts() {
    // 25 two-byte characters are 50 bytes: too long in bytes would be 51+.
    let e = FactorioName::try_from("é".repeat(26)).unwrap_err();
    assert_eq!(bad_request_text(e), "factorio name must be 1-50 characters");
    let e = FactorioName::try_from("é".repeat(25)).unwrap_err();
    assert_eq!(bad_request_text(e), "factorio name must contain only printable ASCII");
    assert!(FactorioName::try_from("tab\there".to_string()).is_err());
}

#[test]
fn eth_address_errors_in_order() {
    assert_eq!(
        bad_request_text(EthAddress::try_from("0x12".to_string()).unwrap_err()),
        "eth address must be 42 characters (0x + 40 hex)"
    );
    assert_eq!(
        bad_request_text(
            EthAddress::try_from("1x742d35cc6634c0532925a3b844bc9e7595f2bd00".to_string()).unwrap_err()
        ),
        "eth address must start with 0x"
    );
    assert_eq!(
        bad_request_text(
            EthAddress::try_from("0x742d35cc6634c0532925a3b844bc9e7595f2bdzz".to_string()).unwrap_err()
        ),
        "eth address must contain only hex digits after 0x"
    );
    // An upper-case `0X` prefix is lowered before the prefix is checked.
    assert_eq!(
        EthAddress::try_from("0X742D35CC6634C0532925A3B844BC9E7595F2BD00".to_string()).unwrap().as_str(),
        ADDR
    );
}

#[test]
fn wei_zero_is_zero_and_padded_zero_too() {
    assert!(Wei::from_decimal("000".to_string()).unwrap().is_zero());
    assert!(!Wei::from_decimal("010".to_string()).unwrap().is_zero());
}

#[test]
fn discount_error_text() {
    assert_eq!(
        bad_request_text(DiscountPercent::try_from(200u8).unwrap_err()),
        "discount percent must be 0..=100, got 200"
    );
}

#[test]
fn enum_error_texts() {
    assert_eq!(bad_request_text(AccessTier::try_from("vip").unwrap_err()), "unknown access tier: vip");
    assert_eq!(bad_request_text(SeasonStatus::try_from("x").unwrap_err()), "unknown season status: x");
    assert_eq!(
        bad_request_text(RegStatus::try_from("y").unwrap_err()),
        "unknown registration status: y"
    );
}

#[test]
fn rebuy_price_doubles_per_death() {
    assert_eq!(compute_rebuy_price(1000, 2, 0, 3), 1003);
    assert_eq!(compute_rebuy_price(1000, 2, 1, 3), 2003);
    assert_eq!(compute_rebuy_price(1000, 2, 3, 3), 8003);
    assert_eq!(compute_rebuy_price(1000, 0, 2, 1), 1);
}

#[test]
fn status_codes() {
    assert_eq!(AppError::DuplicateRegistration.status_code(), 409);
    assert_eq!(AppError::BadRequest("x".into()).status_code(), 400);
    assert_eq!(AppError::InvalidPromoCode.status_code(), 400);
    assert_eq!(AppError::NotFound.status_code(), 404);
    assert_eq!(AppError::Unauthorized.status_code(), 401);
    assert_eq!(AppError::Rcon("x".into()).status_code(), 500);
}

// ---------------------------------------------------------------------------
// Configuration
// ---------------------------------------------------------------------------

#[test]
fn configuration_defaults() {
    assert_eq!(default_base_fee_wei(), "333333333333333");
    assert_eq!(default_payment_expiry_hours(), 48);
    assert_eq!(default_season_duration_days(), 30);
    assert_eq!(default_rebuy_multiplier(), 2);
    let l = LoggingConfig::default();
    assert_eq!(l.level, "info");
    assert_eq!(l.format, "json");
}

#[test]
fn rcon_config_from_parts() {
    let cfg = FactorioConfig {
        binary: String::new(),
        saves_dir: String::new(),
        archive_dir: String::new(),
        data_dir: String::new(),
        rcon_host: "127.0.0.1".to_string(),
        rcon_port: 27015,
        rcon_pw_file: String::new(),
        map_gen_settings: String::new(),
        server_settings: String::new(),
        factorio_version: String::new(),
    };
    let r = RconConfig::from_factorio_config(&cfg, "  s3cret\n");
    assert_eq!(r.url, "127.0.0.1:27015");
    assert_eq!(r.password, "s3cret");
}

// ---------------------------------------------------------------------------
// Registration
// ---------------------------------------------------------------------------

#[test]
fn rebuy_decisions() {
    assert!(matches!(decide_rebuy(&None), Ok(None)));
    let dead = reg("Bob", RegStatus::Confirmed, AccessTier::Standard, 2);
    assert!(matches!(decide_rebuy(&Some(dead)), Ok(Some((7, 2)))));
    let live = reg("Bob", RegStatus::AwaitingPayment, AccessTier::Standard, 0);
    assert!(matches!(decide_rebuy(&Some(live)), Err(AppError::DuplicateRegistration)));
}

#[test]
fn promo_refused_on_rebuy() {
    let e = promo_to_look_up(true, &Some("X".to_string())).unwrap_err();
    assert_eq!(bad_request_text(e), "promo codes cannot be used on rebuy");
    assert!(matches!(promo_to_look_up(true, &None), Ok(None)));
    assert_eq!(promo_to_look_up(false, &Some("X".to_string())).unwrap(), Some("X".to_string()));
}

#[test]
fn missing_promo_is_invalid() {
    assert!(matches!(accept_promo(None, ts(0)), Err(AppError::InvalidPromoCode)));
    let mut p = promo(10, false);
    p.expires_at = Some(ts(10));
    assert!(matches!(accept_promo(Some(p.clone()), ts(11)), Err(AppError::PromoExpired)));
    assert!(accept_promo(Some(p), ts(10)).is_ok());
}

#[test]
fn paid_registration_quotes_price_with_offset() {
    let (r, resp) = build_registration(draft(Some(ADDR), None, 0, 5)).unwrap();
    assert_eq!(r.status, RegStatus::AwaitingPayment);
    assert_eq!(r.access_tier, AccessTier::Standard);
    assert_eq!(r.amount_wei.as_str(), "1005");
    assert_eq!(r.confirmed_at, None);
    assert_eq!(r.id, 42);
    assert_eq!(resp.deposit_address.as_deref(), Some("0xdeposit"));
    assert_eq!(resp.message, "Send exactly 1005 wei to 0xdeposit to complete registration.");
}

#[test]
fn free_registration_confirmed_with_zero_address() {
    let (r, resp) = build_registration(draft(None, Some(promo(100, true)), 0, 9)).unwrap();
    assert_eq!(r.status, RegStatus::Confirmed);
    assert_eq!(r.access_tier, AccessTier::InstantPlayer);
    assert_eq!(r.amount_wei.as_str(), "0");
    assert_eq!(r.confirmed_at, Some(ts(5000)));
    assert_eq!(r.eth_address.as_str(), "0x0000000000000000000000000000000000000000");
    assert_eq!(resp.deposit_address, None);
    assert_eq!(resp.message, "Registration confirmed (no payment required).");
}

#[test]
fn rebuy_registration_multiplies_price() {
    let (r, resp) = build_registration(draft(Some(ADDR), None, 2, 1)).unwrap();
    assert_eq!(r.access_tier, AccessTier::InstantPlayer);
    assert_eq!(r.amount_wei.as_str(), "4001");
    assert_eq!(r.deaths, 2);
    assert_eq!(
        resp.message,
        "Rebuy #2: Send exactly 4001 wei to 0xdeposit to get back in the game."
    );
}

#[test]
fn paid_registration_needs_address() {
    let e = build_registration(draft(None, None, 0, 0)).unwrap_err();
    assert_eq!(bad_request_text(e), "eth_address is required when payment is needed");
    let e = build_registration(draft(Some("not-an-address"), None, 0, 0)).unwrap_err();
    assert_eq!(bad_request_text(e), "eth address must be 42 characters (0x + 40 hex)");
}

#[test]
fn bad_base_fee_is_configuration_error() {
    let mut d = draft(Some(ADDR), None, 0, 0);
    d.base_fee_wei = "12x".to_string();
    match build_registration(d) {
        Err(AppError::Config(m)) => assert_eq!(m, "invalid base_fee_wei: invalid digit found in string"),
        _ => panic!("expected a configuration error"),
    }
}

#[test]
fn price_fit_check() {
    assert!(registration_price_fits("1000", &None, 0, 2, 5));
    assert!(!registration_price_fits("340282366920938463463374607431768211455", &Some(promo(50, false)), 0, 2, 0));
    assert!(!registration_price_fits("1000", &None, 200, 2, 0));
    assert!(registration_price_fits("oops", &None, 0, 2, 0));
}

#[test]
fn registration_id_parse() {
    assert_eq!(parse_registration_id("00000000-0000-0000-0000-00000000002a").unwrap(), 42);
    let e = parse_registration_id("nope").unwrap_err();
    assert!(bad_request_text(e).starts_with("invalid registration id: "));
}

#[test]
fn season_listing_and_maps() {
    let mut s = Season {
        id: SeasonId::new(4).unwrap(),
        status: SeasonStatus::Active,
        started_at: ts(0),
        ends_at: ts(10),
        map_seed: None,
        save_path: Some(String::new()),
        created_at: ts(0),
    };
    assert!(!season_summary(&s).has_map_download);
    let e = map_download_path(&Some(s.clone())).unwrap_err();
    assert_eq!(bad_request_text(e), "map download only available for archived seasons");
    s.status = SeasonStatus::Archived;
    assert!(matches!(map_download_path(&Some(s.clone())), Err(AppError::NotFound)));
    s.save_path = Some("/archive/season_4.zip".to_string());
    assert!(season_summary(&s).has_map_download);
    assert_eq!(map_download_path(&Some(s)).unwrap(), "/archive/season_4.zip");
    assert!(matches!(map_download_path(&None), Err(AppError::NotFound)));
    assert_eq!(
        map_download_disposition(SeasonId::new(4).unwrap()),
        "attachment; filename=\"season_4.zip\""
    );
}

#[test]
fn responses_copy_registration() {
    let r = reg("Carol", RegStatus::Confirmed, AccessTier::InstantPlayer, 1);
    let s = RegistrationStatusResponse::from(&r);
    assert_eq!(s.factorio_name, "Carol");
    assert_eq!(s.deaths, 1);
    let a = RegistrationAdminResponse::from(&r);
    assert_eq!(a.eth_address, ADDR);
    let p = PromoCodeResponse::from(&promo(25, false));
    assert_eq!(p.discount_percent, 25);
}

// ---------------------------------------------------------------------------
// Administration
// ---------------------------------------------------------------------------

#[test]
fn admin_token_check() {
    assert!(check_admin_token(Some("Bearer tok"), "tok").is_ok());
    assert!(matches!(check_admin_token(Some("Bearer wrong"), "tok"), Err(AppError::Unauthorized)));
    assert!(matches!(check_admin_token(Some("tok"), "tok"), Err(AppError::Unauthorized)));
    assert!(matches!(check_admin_token(None, "tok"), Err(AppError::Unauthorized)));
}

fn promo_request(code: &str, discount: u8) -> CreatePromoRequest {
    CreatePromoRequest {
        code: code.to_string(),
        discount_percent: discount,
        grants_instant_player: false,
        max_uses: Some(3),
        expires_at: None,
    }
}

#[test]
fn promo_request_validation() {
    let (code, d) = validate_promo_request(&promo_request("half_off", 50)).unwrap();
    assert_eq!(code, "HALF_OFF");
    assert_eq!(d.as_u8(), 50);
    let e = validate_promo_request(&promo_request("", 50)).unwrap_err();
    assert_eq!(bad_request_text(e), "promo code must be 1-32 characters");
    let e = validate_promo_request(&promo_request(&"a".repeat(33), 50)).unwrap_err();
    assert_eq!(bad_request_text(e), "promo code must be 1-32 characters");
    let e = validate_promo_request(&promo_request("HALF-OFF", 50)).unwrap_err();
    assert_eq!(bad_request_text(e), "promo code must be alphanumeric or underscore");
    let e = validate_promo_request(&promo_request("OK", 101)).unwrap_err();
    assert_eq!(bad_request_text(e), "discount percent must be 0..=100, got 101");
    assert_eq!(bad_request_text(promo_exists_error()), "promo code already exists");
    let p = new_promo_code(code, d, &promo_request("half_off", 50), ts(9));
    assert!(p.active);
    assert_eq!(p.times_used, 0);
    assert_eq!(p.max_uses, Some(3));
    assert!(promo_revocation(true).is_ok());
    assert!(matches!(promo_revocation(false), Err(AppError::NotFound)));
}

#[test]
fn registration_listing_filter_and_revocation() {
    let all = vec![
        RegistrationAdminResponse::from(&reg("A", RegStatus::Confirmed, AccessTier::Standard, 0)),
        RegistrationAdminResponse::from(&reg("B", RegStatus::Expired, AccessTier::Standard, 0)),
        RegistrationAdminResponse::from(&reg("C", RegStatus::Confirmed, AccessTier::Standard, 0)),
    ];
    let kept = filter_by_status(all.clone(), &Some("confirmed".to_string()));
    assert_eq!(kept.iter().map(|r| r.factorio_name.as_str()).collect::<Vec<_>>(), vec!["A", "C"]);
    assert_eq!(filter_by_status(all, &None).len(), 3);
    let e = check_revocable(&Some(reg("B", RegStatus::Expired, AccessTier::Standard, 0))).unwrap_err();
    assert_eq!(bad_request_text(e), "registration already expired");
    let (name, season) = check_revocable(&Some(reg("A", RegStatus::Confirmed, AccessTier::Standard, 0))).unwrap();
    assert_eq!(name, "A");
    assert_eq!(season.as_i64(), 1);
    assert!(matches!(check_revocable(&None), Err(AppError::NotFound)));
}

// ---------------------------------------------------------------------------
// Stored rows
// ---------------------------------------------------------------------------

#[test]
fn stored_times_both_spellings() {
    assert_eq!(parse_datetime("1970-01-02T00:00:01Z").unwrap(), ts(86401));
    assert_eq!(parse_datetime("1970-01-01T01:00:00+01:00").unwrap(), ts(0));
    assert_eq!(parse_datetime("1970-01-01 00:01:00").unwrap(), ts(60));
    let e = parse_datetime("yesterday").unwrap_err();
    assert!(bad_request_text(e).starts_with("invalid datetime 'yesterday': "));
}

#[test]
fn rows_read_back() {
    let s = Season::try_from(SeasonRow {
        id: 2,
        status: "archived".to_string(),
        started_at: "1970-01-01T00:00:00Z".to_string(),
        ends_at: "1970-01-01 00:00:10".to_string(),
        map_seed: None,
        save_path: Some("/a".to_string()),
        created_at: "1970-01-01T00:00:00Z".to_string(),
    })
    .unwrap();
    assert_eq!(s.id.as_i64(), 2);
    assert_eq!(s.status, SeasonStatus::Archived);
    assert_eq!(s.ends_at, ts(10));

    let row = RegistrationRow {
        id: "00000000-0000-0000-0000-000000000001".to_string(),
        season_id: 1,
        factorio_name: "Dave".to_string(),
        eth_address: "0x742D35CC6634C0532925A3B844BC9E7595F2BD00".to_string(),
        promo_code: None,
        tx_hash: Some("0xabc".to_string()),
        status: "confirmed".to_string(),
        access_tier: "instant_player".to_string(),
        amount_wei: "0".to_string(),
        created_at: "1970-01-01T00:00:00Z".to_string(),
        confirmed_at: Some("1970-01-01T00:00:05Z".to_string()),
        deaths: 3,
    };
    let r = Registration::try_from(row.clone()).unwrap();
    assert_eq!(r.id, 1);
    assert_eq!(r.eth_address.as_str(), ADDR);
    assert_eq!(r.confirmed_at, Some(ts(5)));
    assert_eq!(r.deaths, 3);
    let mut bad = row;
    bad.id = "xyz".to_string();
    assert!(bad_request_text(Registration::try_from(bad).unwrap_err()).starts_with("invalid uuid: "));

    let p = PromoCode::try_from(PromoCodeRow {
        code: "P".to_string(),
        discount_percent: 30,
        grants_instant_player: 1,
        max_uses: Some(4),
        times_used: 2,
        active: 0,
        created_at: "1970-01-01T00:00:00Z".to_string(),
        expires_at: None,
    })
    .unwrap();
    assert_eq!(p.discount_percent.as_u8(), 30);
    assert!(p.grants_instant_player);
    assert!(!p.active);
    assert_eq!(p.max_uses, Some(4));
}

// ---------------------------------------------------------------------------
// Game server commands and the permission poller
// ---------------------------------------------------------------------------

#[test]
fn lua_escaping() {
    assert_eq!(lua_escape(r"it's a\b"), r"it\'s a\\b");
    assert_eq!(lua_escape("plain"), "plain");
}

#[test]
fn group_commands() {
    assert_eq!(
        rcon_set_player("O'Neil"),
        "/silent-command do local p = game.get_player('O\\'Neil') if p and p.connected then p.permission_group = game.permissions.get_group('Default') end end"
    );
    assert_eq!(
        rcon_set_spectator("Bob"),
        "/silent-command do local p = game.get_player('Bob') if p and p.connected then p.permission_group = game.permissions.get_group('Spectators') end end"
    );
    assert_eq!(
        rcon_whisper("Bob", "hi 'there'"),
        "/silent-command do local p = game.get_player('Bob') if p then p.print('hi \\'there\\'') end end"
    );
    assert_eq!(permission_command("Bob", AccessTier::Standard), rcon_set_spectator("Bob"));
    assert_eq!(permission_command("Bob", AccessTier::InstantPlayer), rcon_set_player("Bob"));
    assert_eq!(whitelist_add_command("Bob"), "/whitelist add Bob");
    assert_eq!(whitelist_remove_command("Bob"), "/whitelist remove Bob");
    assert!(setup_command().starts_with("/silent-command do "));
    assert!(setup_command().ends_with(SETUP_LUA));
}

#[test]
fn poll_report_parsing() {
    assert!(parse_poll_response("  \n").is_none());
    let es = parse_poll_response(" Alice:Default:alive,broken,Bob:Spectators:dead:x \n").unwrap();
    assert_eq!(es.len(), 2);
    assert_eq!((es[0].name.as_str(), es[0].group.as_str(), es[0].alive.as_str()), ("Alice", "Default", "alive"));
    assert_eq!((es[1].name.as_str(), es[1].group.as_str(), es[1].alive.as_str()), ("Bob", "Spectators", "dead:x"));
}

#[test]
fn permission_decisions() {
    let player = Some(reg("P", RegStatus::Confirmed, AccessTier::InstantPlayer, 0));
    let spectator = Some(reg("S", RegStatus::Confirmed, AccessTier::Standard, 1));
    let unpaid = Some(reg("U", RegStatus::AwaitingPayment, AccessTier::InstantPlayer, 0));
    assert_eq!(desired_group(&player), "Default");
    assert_eq!(desired_group(&spectator), "Spectators");
    assert_eq!(desired_group(&unpaid), "Spectators");
    assert_eq!(desired_group(&None), "Spectators");
    assert!(needs_demotion(true, "dead", &player));
    assert!(!needs_demotion(false, "dead", &player));
    assert!(!needs_demotion(true, "alive", &player));
    assert!(!needs_demotion(true, "dead", &spectator));
    assert_eq!(group_correction("P", "Default", &player), None);
    assert_eq!(group_correction("P", "Spectators", &player), Some(rcon_set_player("P")));
    assert_eq!(group_correction("U", "Default", &unpaid), Some(rcon_set_spectator("U")));
    let cmds = demotion_commands("P");
    assert_eq!(cmds, vec![rcon_set_spectator("P"), rcon_whisper("P", HARDCORE_DEATH_MESSAGE)]);
}

#[test]
fn whitelist_sync_counts() {
    let regs = vec![
        reg("A", RegStatus::Confirmed, AccessTier::InstantPlayer, 0),
        reg("B", RegStatus::AwaitingPayment, AccessTier::InstantPlayer, 0),
        reg("C", RegStatus::Confirmed, AccessTier::Standard, 1),
    ];
    let plan = whitelist_sync_plan(&regs);
    assert_eq!(plan.commands, vec!["/whitelist add A".to_string(), "/whitelist add C".to_string()]);
    assert_eq!(plan.players, 1);
    assert_eq!(plan.spectators, 1);
}

#[test]
fn whitelist_only_for_active_season() {
    let mut s = Season {
        id: SeasonId::new(1).unwrap(),
        status: SeasonStatus::Active,
        started_at: ts(0),
        ends_at: ts(1),
        map_seed: None,
        save_path: None,
        created_at: ts(0),
    };
    assert!(season_accepts_whitelist(&Some(s.clone())));
    s.status = SeasonStatus::Archived;
    assert!(!season_accepts_whitelist(&Some(s)));
    assert!(!season_accepts_whitelist(&None));
}

// ---------------------------------------------------------------------------
// Rotation and scheduling
// ---------------------------------------------------------------------------

#[test]
fn server_naming() {
    let s3 = SeasonId::new(3).unwrap();
    let s12 = SeasonId::new(12).unwrap();
    assert_eq!(server_name(false, s3), "[SEASONS] Season 03");
    assert_eq!(server_name(true, s12), "[HARDCORE] Season 12");
    assert_eq!(
        server_description(false, "", s3),
        "Seasonal Factorio. Fresh map every month. Season 3 LIVE."
    );
    assert_eq!(
        server_description(true, "https://x", s3),
        "Die = spectator. Fresh map every month. Register: https://x"
    );
    assert_eq!(season_file_name(s12), "season_12.zip");
}

fn run(force: bool, ends_at: i64, now: i64, fail_at: Option<usize>) -> (Vec<RotationAction>, RotationStage) {
    let mut r = rotation_new(force, 30);
    let (r1, a) = rotation_step(r, RotationEvent::Begin);
    r = r1;
    let mut actions = vec![a];
    let (r2, a) = rotation_step(
        r,
        RotationEvent::ActiveSeason { id: SeasonId::new(5).unwrap(), ends_at: ts(ends_at), now: ts(now) },
    );
    r = r2;
    actions.push(a);
    let mut k = 0;
    while !matches!(r.stage, RotationStage::Finished | RotationStage::Skipped | RotationStage::Failed) {
        let ev = if Some(k) == fail_at {
            RotationEvent::Failed(AppError::Rotation("boom".to_string()))
        } else {
            RotationEvent::Done { now: ts(1000 + k as i64) }
        };
        let (r3, a) = rotation_step(r, ev);
        r = r3;
        actions.push(a);
        k += 1;
    }
    (actions, r.stage)
}

#[test]
fn rotation_skipped_before_end() {
    let (actions, stage) = run(false, 100, 50, None);
    assert_eq!(stage, RotationStage::Skipped);
    assert!(matches!(actions.last(), Some(RotationAction::Skip)));
}

#[test]
fn rotation_full_run_in_order() {
    let (actions, stage) = run(true, 100, 50, None);
    assert_eq!(stage, RotationStage::Finished);
    assert_eq!(actions.len(), 17);
    assert!(matches!(actions[1], RotationAction::Rcon(RconStep::Save)));
    assert!(matches!(actions[5], RotationAction::Systemctl(ServiceAction::Stop)));
    match &actions[8] {
        RotationAction::CreateSeason { id, started_at, ends_at } => {
            assert_eq!(id.as_i64(), 6);
            assert_eq!(*started_at, ts(1006));
            assert_eq!(*ends_at, ts(1006 + 30 * 86400));
        }
        other => panic!("unexpected {:?}", other),
    }
    assert!(matches!(actions[14], RotationAction::Systemctl(ServiceAction::Start)));
    assert!(matches!(actions[16], RotationAction::Finish));
}

#[test]
fn rotation_failure_stops_but_rcon_failure_does_not() {
    let (actions, stage) = run(true, 100, 50, Some(0));
    assert_eq!(stage, RotationStage::Finished);
    assert_eq!(actions.len(), 17);
    let (actions, stage) = run(true, 100, 50, Some(3));
    assert_eq!(stage, RotationStage::Failed);
    assert!(matches!(actions.last(), Some(RotationAction::Fail(AppError::Rotation(_)))));
    assert_eq!(actions.len(), 6);
}

#[test]
fn weekday_names() {
    assert_eq!(parse_weekday("Monday"), Weekday::Mon);
    assert_eq!(parse_weekday("SUN"), Weekday::Sun);
    assert_eq!(parse_weekday("friday"), Weekday::Fri);
    assert_eq!(parse_weekday("someday"), Weekday::Mon);
}

#[test]
fn scheduler_rotates_once_in_the_hour() {
    // 1970-01-05 was a Monday; 12:00 UTC on it.
    let noon = ts(4 * 86400 + 12 * 3600);
    let (state, due) = scheduler_tick(None, noon, Weekday::Mon, 12);
    assert!(due);
    assert_eq!(state, Some(719163 + 4));
    let (state2, due2) = scheduler_tick(state, ts(4 * 86400 + 12 * 3600 + 60), Weekday::Mon, 12);
    assert!(!due2);
    assert_eq!(state2, state);
    assert!(!scheduler_tick(None, noon, Weekday::Tue, 12).1);
    assert!(!scheduler_tick(None, noon, Weekday::Mon, 13).1);
    // The next Monday rotates again.
    assert!(scheduler_tick(state, ts(11 * 86400 + 12 * 3600), Weekday::Mon, 12).1);
}

fn text_of(v: &JsonValue) -> &str {
    match v {
        JsonValue::Text(t) => t.as_str(),
        other => panic!("not a string: {other:?}"),
    }
}

#[test]
fn server_settings_get_season_name_and_description() {
    let id = SeasonId::new(3).unwrap();
    let settings = JsonValue::Object(vec![
        ("max_players".to_string(), JsonValue::PosInt(10)),
        ("name".to_string(), JsonValue::Text("old".to_string())),
    ]);
    let out = server_settings_with_name(settings, false, "", id).unwrap();
    let members = match out {
        JsonValue::Object(m) => m,
        other => panic!("not an object: {other:?}"),
    };
    assert_eq!(members.len(), 3);
    assert_eq!(members[0].0, "max_players");
    assert!(matches!(members[0].1, JsonValue::PosInt(10)));
    assert_eq!(members[1].0, "name");
    assert_eq!(text_of(&members[1].1), "[SEASONS] Season 03");
    assert_eq!(members[2].0, "description");
    assert_eq!(text_of(&members[2].1), "Seasonal Factorio. Fresh map every month. Season 3 LIVE.");
}

#[test]
fn server_settings_keep_nested_members() {
    let id = SeasonId::new(12).unwrap();
    let settings = JsonValue::Object(vec![
        ("description".to_string(), JsonValue::Text("x".to_string())),
        ("tags".to_string(), JsonValue::Array(vec![JsonValue::Text("game".to_string())])),
        ("visibility".to_string(), JsonValue::Object(vec![("public".to_string(), JsonValue::Bool(true))])),
    ]);
    let out = server_settings_with_name(settings, true, "https://x.example", id).unwrap();
    let members = match out {
        JsonValue::Object(m) => m,
        other => panic!("not an object: {other:?}"),
    };
    assert_eq!(members.len(), 4);
    assert_eq!(text_of(&members[0].1), "Die = spectator. Fresh map every month. Register: https://x.example");
    assert!(matches!(&members[1].1, JsonValue::Array(a) if a.len() == 1));
    assert!(matches!(&members[2].1, JsonValue::Object(o) if o.len() == 1));
    assert_eq!(members[3].0, "name");
    assert_eq!(text_of(&members[3].1), "[HARDCORE] Season 12");
}

#[test]
fn server_settings_from_null_become_an_object() {
    let id = SeasonId::new(12).unwrap();
    let out = server_settings_with_name(JsonValue::Null, false, "https://x.example", id).unwrap();
    let members = match out {
        JsonValue::Object(m) => m,
        other => panic!("not an object: {other:?}"),
    };
    assert_eq!(members.len(), 2);
    assert_eq!(members[0].0, "name");
    assert_eq!(text_of(&members[0].1), "[SEASONS] Season 12");
    assert_eq!(members[1].0, "description");
    assert_eq!(text_of(&members[1].1), "Seasonal Factorio. Fresh map every month. Register: https://x.example");
}

#[test]
fn server_settings_that_are_not_an_object_are_refused() {
    let id = SeasonId::new(1).unwrap();
    assert!(server_settings_with_name(JsonValue::Array(vec![]), false, "", id).is_none());
    assert!(server_settings_with_name(JsonValue::Text("t".to_string()), false, "", id).is_none());
    assert!(server_settings_with_name(JsonValue::PosInt(1), false, "", id).is_none());
}

#[test]
fn spectator_list_is_pretty_json() {
    assert_eq!(spectator_list_json(&vec![]), "[]");
    let names = vec!["alice".to_string(), "bo\"b".to_string()];
    assert_eq!(spectator_list_json(&names), "[\n  \"alice\",\n  \"bo\\\"b\"\n]");
}

#[test]
fn purge_targets_are_seasons_with_a_save_path() {
    let mk = |id: i64, path: Option<&str>| Season {
        id: SeasonId::new(id).unwrap(),
        status: SeasonStatus::Archived,
        started_at: ts(0),
        ends_at: ts(1),
        map_seed: None,
        save_path: path.map(|p| p.to_string()),
        created_at: ts(0),
    };
    let seasons = vec![mk(1, Some("/a/season_1.zip")), mk(2, None), mk(3, Some(""))];
    let t = purge_targets(&seasons);
    assert_eq!(t.len(), 2);
    assert_eq!(t[0].0.as_i64(), 1);
    assert_eq!(t[0].1, "/a/season_1.zip");
    assert_eq!(t[1].0.as_i64(), 3);
    assert_eq!(t[1].1, "");
    assert!(purge_targets(&vec![]).is_empty());
}

#[test]
fn trim_removes_unicode_white_space_at_both_ends() {
    assert_eq!(trim("  \t pw \n"), "pw");
    assert_eq!(trim("\u{3000}\u{a0}a b\u{2028}"), "a b");
    assert_eq!(trim(" \u{200b}x "), "\u{200b}x");
    assert_eq!(trim(" \r\n "), "");
    assert_eq!(trim(""), "");
    for s in ["\u{85}x\u{1680}", "\u{2000}\u{200a}y\u{202f}\u{205f}", "\u{b}\u{c}z\u{2029}"] {
        assert_eq!(trim(s), s.trim());
    }
}

#[test]
fn startup_sends_enable_then_setup_twice() {
    let cmds = startup_commands();
    assert_eq!(cmds.len(), 3);
    assert_eq!(cmds[0], "/whitelist enable");
    assert_eq!(cmds[1], setup_command());
    assert_eq!(cmds[2], setup_command());
}

#[test]
fn accepted_eth_address_reads_back_unchanged() {
    let a = EthAddress::try_from("0X742D35CC6634C0532925A3B844BC9E7595F2BD00".to_string()).unwrap();
    assert_eq!(a.as_str(), ADDR);
    let b = EthAddress::try_from(a.as_str().to_string()).unwrap();
    assert_eq!(b.as_str(), a.as_str());
}

fn begin(name: &str, eth: Option<&str>, code: Option<&str>) -> (Registering, RegisterAction) {
    register_begin(
        RegisterRequest {
            factorio_name: name.to_string(),
            eth_address: eth.map(|s| s.to_string()),
            promo_code: code.map(|s| s.to_string()),
        },
        "1000".to_string(),
        2,
        "0xdeposit".to_string(),
    )
    .unwrap()
}

#[test]
fn register_flow_paid_registration_in_order() {
    let (f, a) = begin("Alice", Some(ADDR), None);
    assert!(matches!(a, RegisterAction::LoadActiveSeason));
    assert!(!f.wrote);
    let (f, a) = register_step(f, RegisterEvent::ActiveSeason(SeasonId::new(3).unwrap()));
    assert!(matches!(&a, RegisterAction::FindExisting { name, season } if name.as_str() == "Alice" && season.as_i64() == 3));
    let (f, a) = register_step(f, RegisterEvent::Existing(None));
    assert!(matches!(&a, RegisterAction::CountRegistrations(s) if s.as_i64() == 3));
    assert!(!f.wrote);
    let (f, a) = register_step(f, RegisterEvent::Counted { offset: 7, id: 99, now: ts(50) });
    let reg = match a {
        RegisterAction::Create(reg) => reg,
        other => panic!("unexpected {other:?}"),
    };
    assert_eq!(reg.id, 99);
    assert_eq!(reg.amount_wei.as_str(), "1007");
    assert_eq!(reg.status, RegStatus::AwaitingPayment);
    assert!(f.wrote);
    let (f, a) = register_step(f, RegisterEvent::Done);
    match a {
        RegisterAction::Reply(resp) => {
            assert_eq!(resp.registration_id, 99);
            assert_eq!(resp.message, "Send exactly 1007 wei to 0xdeposit to complete registration.");
        }
        other => panic!("unexpected {other:?}"),
    }
    assert_eq!(f.stage, RegisterStage::Finished);
    let (_, a) = register_step(f, RegisterEvent::Done);
    assert!(matches!(a, RegisterAction::Idle));
}

#[test]
fn register_flow_refuses_invalid_name_before_any_action() {
    let r = register_begin(
        RegisterRequest { factorio_name: String::new(), eth_address: None, promo_code: None },
        "1000".to_string(),
        2,
        "0xdeposit".to_string(),
    );
    assert_eq!(bad_request_text(r.unwrap_err()), "factorio name must be 1-50 characters");
}

#[test]
fn register_flow_refuses_duplicate_without_writing() {
    let (f, _) = begin("Alice", Some(ADDR), None);
    let (f, _) = register_step(f, RegisterEvent::ActiveSeason(SeasonId::new(3).unwrap()));
    let existing = reg("Alice", RegStatus::AwaitingPayment, AccessTier::Standard, 0);
    let (f, a) = register_step(f, RegisterEvent::Existing(Some(existing)));
    assert!(matches!(a, RegisterAction::Fail(AppError::DuplicateRegistration)));
    assert!(!f.wrote);
    assert_eq!(f.stage, RegisterStage::Failed);
}

#[test]
fn register_flow_free_promo_confirms_and_whitelists() {
    let (f, _) = begin("Alice", None, Some("HALFOFF"));
    let (f, _) = register_step(f, RegisterEvent::ActiveSeason(SeasonId::new(3).unwrap()));
    let (f, a) = register_step(f, RegisterEvent::Existing(None));
    assert!(matches!(&a, RegisterAction::LookUpPromo(c) if c == "HALFOFF"));
    let (f, a) = register_step(f, RegisterEvent::Promo { found: Some(promo(100, true)), now: ts(10) });
    assert!(matches!(&a, RegisterAction::CountPromoUse(c) if c == "HALFOFF"));
    let (f, _) = register_step(f, RegisterEvent::Done);
    let (f, a) = register_step(f, RegisterEvent::Counted { offset: 4, id: 5, now: ts(60) });
    assert!(matches!(&a, RegisterAction::Create(r) if r.status == RegStatus::Confirmed && r.amount_wei.as_str() == "0"));
    let (f, a) = register_step(f, RegisterEvent::Done);
    assert!(matches!(&a, RegisterAction::ApplyWhitelist { tier: AccessTier::InstantPlayer, .. }));
    let (_, a) = register_step(f, RegisterEvent::Done);
    assert!(matches!(&a, RegisterAction::Reply(r) if r.deposit_address.is_none()));
}

#[test]
fn register_flow_unknown_promo_refused_without_writing() {
    let (f, _) = begin("Alice", Some(ADDR), Some("NOPE"));
    let (f, _) = register_step(f, RegisterEvent::ActiveSeason(SeasonId::new(3).unwrap()));
    let (f, _) = register_step(f, RegisterEvent::Existing(None));
    let (f, a) = register_step(f, RegisterEvent::Promo { found: None, now: ts(10) });
    assert!(matches!(a, RegisterAction::Fail(AppError::InvalidPromoCode)));
    assert!(!f.wrote);
}

#[test]
fn register_flow_rebuy_expires_old_then_refuses_promo() {
    let (f, _) = begin("Alice", Some(ADDR), Some("HALFOFF"));
    let (f, _) = register_step(f, RegisterEvent::ActiveSeason(SeasonId::new(3).unwrap()));
    let old = reg("Alice", RegStatus::Confirmed, AccessTier::Standard, 2);
    let (f, a) = register_step(f, RegisterEvent::Existing(Some(old)));
    assert!(matches!(a, RegisterAction::Expire(7)));
    assert!(f.wrote);
    let (_, a) = register_step(f, RegisterEvent::Done);
    match a {
        RegisterAction::Fail(e) => assert_eq!(bad_request_text(e), "promo codes cannot be used on rebuy"),
        other => panic!("unexpected {other:?}"),
    }
}

#[test]
fn register_flow_stops_on_failed_lookup() {
    let (f, _) = begin("Alice", Some(ADDR), None);
    let (f, a) = register_step(f, RegisterEvent::Failed(AppError::NoActiveSeason));
    assert!(matches!(a, RegisterAction::Fail(AppError::NoActiveSeason)));
    assert!(!f.wrote);
}

#[test]
fn whitelist_file_lists_name_objects() {
    assert_eq!(whitelist_file_json(&vec![]), "[]");
    let names = vec!["alice".to_string(), "b\\o\tb".to_string()];
    let text = whitelist_file_json(&names);
    assert_eq!(text, "[\n  {\n    \"name\": \"alice\"\n  },\n  {\n    \"name\": \"b\\\\o\\tb\"\n  }\n]");
}

#[test]
fn spectator_list_escapes_control_characters() {
    let names = vec!["a\u{1}b\u{1f}".to_string(), "\u{8}\u{c}\r\u{7f}é".to_string()];
    let text = spectator_list_json(&names);
    assert_eq!(text, "[\n  \"a\\u0001b\\u001f\",\n  \"\\b\\f\\r\u{7f}é\"\n]");
}

fn poll_entry(name: &str, group: &str, alive: &str) -> PollEntry {
    PollEntry { name: name.to_string(), group: group.to_string(), alive: alive.to_string() }
}

#[test]
fn poll_demotes_dead_player_then_sends_only_demotion() {
    let e = poll_entry("Alice", "Default", "dead");
    let r = Some(reg("Alice", RegStatus::Confirmed, AccessTier::InstantPlayer, 0));
    assert!(matches!(poll_entry_action(true, &e, &r, None), PollAction::Demote));
    match poll_entry_action(true, &e, &r, Some(true)) {
        PollAction::Send(c) => {
            assert_eq!(c.len(), 2);
            assert_eq!(c[0], rcon_set_spectator("Alice"));
            assert_eq!(c[1], rcon_whisper("Alice", HARDCORE_DEATH_MESSAGE));
        }
        other => panic!("unexpected {other:?}"),
    }
    // Not demoted after all: the group is right, so nothing is sent.
    assert!(matches!(poll_entry_action(true, &e, &r, Some(false)), PollAction::Send(c) if c.is_empty()));
}

#[test]
fn poll_corrects_wrong_group_without_demotion() {
    let e = poll_entry("Bob", "Default", "alive");
    let r = Some(reg("Bob", RegStatus::Confirmed, AccessTier::Standard, 0));
    match poll_entry_action(true, &e, &r, None) {
        PollAction::Send(c) => assert_eq!(c, vec![rcon_set_spectator("Bob")]),
        other => panic!("unexpected {other:?}"),
    }
    let e = poll_entry("Bob", "Default", "dead");
    assert!(matches!(poll_entry_action(false, &e, &r, None), PollAction::Send(c) if c.len() == 1));
}

#[test]
fn epoch_bounds_are_chrono_limits() {
    assert!(chrono::DateTime::from_timestamp(MIN_EPOCH_SECS, 0).is_some());
    assert!(chrono::DateTime::from_timestamp(MIN_EPOCH_SECS - 1, 0).is_none());
    assert!(chrono::DateTime::from_timestamp(MAX_EPOCH_SECS, 999_999_999).is_some());
    assert!(chrono::DateTime::from_timestamp(MAX_EPOCH_SECS + 1, 0).is_none());
}
