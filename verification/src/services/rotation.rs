//! The weekly season rotation: the order of its steps, which of them may
//! fail without stopping it, the new season it opens, and the name under
//! which the server then appears.
use vstd::prelude::*;
use vstd::string::*;

use crate::domain::{Season, SeasonId};
use crate::error::AppError;
use crate::text::{decimal, push_char, push_decimal, push_str};
use crate::time::{add_days, Timestamp, MAX_EPOCH_SECS};

verus! {

/// The save file of a season, in the saves and archive directories.
pub open spec fn spec_season_file_name(id: i64) -> Seq<char> {
    "season_"@ + decimal(id as nat) + ".zip"@
}

/// `season_<id>.zip`.
pub fn season_file_name(id: SeasonId) -> (r: String)
    ensures
        r@ == spec_season_file_name(id@),
{
    let n = id.as_i64();
    let mut r = String::from_str("season_");
    push_decimal(&mut r, n as u128);
    push_str(&mut r, ".zip");
    r
}

/// The file the game server loads: a link to the active season's save.
pub const CURRENT_SAVE_NAME: &'static str = "current.zip";

/// Archived saves kept on disk; older ones are deleted.
pub const ARCHIVES_KEPT: u64 = 3;

// ---------------------------------------------------------------------------
// Server name and description
// ---------------------------------------------------------------------------

/// A number written with at least two digits (`{:02}`).
pub open spec fn two_digits(n: nat) -> Seq<char> {
    if n < 10 {
        seq!['0'] + decimal(n)
    } else {
        decimal(n)
    }
}

pub open spec fn spec_server_name(hardcore: bool, id: i64) -> Seq<char> {
    (if hardcore {
        "[HARDCORE] Season "@
    } else {
        "[SEASONS] Season "@
    }) + two_digits(id as nat)
}

/// The server's name in the public game list: the mode and the season number.
pub fn server_name(hardcore: bool, season_id: SeasonId) -> (r: String)
    ensures
        r@ == spec_server_name(hardcore, season_id@),
{
    let n = season_id.as_i64();
    let mut r = if hardcore {
        String::from_str("[HARDCORE] Season ")
    } else {
        String::from_str("[SEASONS] Season ")
    };
    if n < 10 {
        push_char(&mut r, '0');
    }
    push_decimal(&mut r, n as u128);
    r
}

pub open spec fn spec_server_description(hardcore: bool, url: Seq<char>, id: i64) -> Seq<char> {
    let lead = if hardcore {
        "Die = spectator. Fresh map every month. "@
    } else {
        "Seasonal Factorio. Fresh map every month. "@
    };
    if url.len() == 0 {
        lead + "Season "@ + decimal(id as nat) + " LIVE."@
    } else {
        lead + "Register: "@ + url
    }
}

/// The server's description: the mode, and either where to register or, with
/// no public URL configured, which season is live.
pub fn server_description(hardcore: bool, public_url: &str, season_id: SeasonId) -> (r: String)
    ensures
        r@ == spec_server_description(hardcore, public_url@, season_id@),
{
    let n = season_id.as_i64();
    let mut r = if hardcore {
        String::from_str("Die = spectator. Fresh map every month. ")
    } else {
        String::from_str("Seasonal Factorio. Fresh map every month. ")
    };
    if public_url.is_empty() {
        push_str(&mut r, "Season ");
        push_decimal(&mut r, n as u128);
        push_str(&mut r, " LIVE.");
    } else {
        push_str(&mut r, "Register: ");
        push_str(&mut r, public_url);
    }
    r
}

// ---------------------------------------------------------------------------
// The rotation as a sequence of steps
// ---------------------------------------------------------------------------

/// An RCON command sent during the rotation.
#[derive(Debug, Clone, Copy, PartialEq, Eq, Structural)]
pub enum RconStep {
    Save,
    Quit,
}

impl RconStep {
    pub fn command(self) -> (r: &'static str)
        ensures
            self == RconStep::Save ==> r@ == "/save"@,
            self == RconStep::Quit ==> r@ == "/quit"@,
    {
        match self {
            RconStep::Save => "/save",
            RconStep::Quit => "/quit",
        }
    }
}

/// What is asked of the game server's service manager.
#[derive(Debug, Clone, Copy, PartialEq, Eq, Structural)]
pub enum ServiceAction {
    Stop,
    Start,
}

impl ServiceAction {
    pub fn verb(self) -> (r: &'static str)
        ensures
            self == ServiceAction::Stop ==> r@ == "stop"@,
            self == ServiceAction::Start ==> r@ == "start"@,
    {
        match self {
            ServiceAction::Stop => "stop",
            ServiceAction::Start => "start",
        }
    }
}

/// Which step of the rotation is under way.
#[derive(Debug, Clone, Copy, PartialEq, Eq, Structural)]
pub enum RotationStage {
    NotStarted,
    LoadingSeason,
    SavingGame,
    WaitingAfterSave,
    QuittingGame,
    WaitingAfterQuit,
    StoppingServer,
    ArchivingSave,
    RecordingArchive,
    CreatingSeason,
    CarryingForward,
    GeneratingMap,
    LinkingSave,
    WritingWhitelist,
    NamingServer,
    StartingServer,
    PurgingArchives,
    Finished,
    Skipped,
    Failed,
}

/// A rotation in progress.
#[derive(Debug, Clone, Copy, PartialEq, Eq, Structural)]
pub struct Rotation {
    pub stage: RotationStage,
    /// Rotate even if the active season has not ended yet.
    pub force: bool,
    /// Length of the new season in days.
    pub duration_days: u32,
    /// The season being archived (known once loaded).
    pub current: Option<SeasonId>,
}

/// What happened to the last step asked for.
#[derive(Debug, Clone)]
pub enum RotationEvent {
    /// The rotation is asked to begin.
    Begin,
    /// The active season was read; `now` is the time of reading.
    ActiveSeason { id: SeasonId, ends_at: Timestamp, now: Timestamp },
    /// The step succeeded; `now` is the time it finished.
    Done { now: Timestamp },
    /// The step failed.
    Failed(AppError),
}

/// The next step to perform.
#[derive(Debug, Clone)]
pub enum RotationAction {
    /// Read the active season.
    LoadActiveSeason,
    /// Send an RCON command; a failure is only logged.
    Rcon(RconStep),
    /// Wait this many seconds.
    Wait(u64),
    /// Stop or start the game server's service.
    Systemctl(ServiceAction),
    /// Copy the current save to `season_<id>.zip` in the archive directory,
    /// creating it; fails if there is no current save.
    ArchiveSave(SeasonId),
    /// Mark the season archived and record where its save went.
    RecordArchive(SeasonId),
    /// Open a new active season.
    CreateSeason { id: SeasonId, started_at: Timestamp, ends_at: Timestamp },
    /// Copy confirmed players of `from` into `to`.
    CarryForward { from: SeasonId, to: SeasonId },
    /// Generate the new season's map as `season_<id>.zip` in the saves directory.
    GenerateMap(SeasonId),
    /// Point the current save at the new season's map.
    LinkCurrentSave(SeasonId),
    /// Write the whitelist of the new season and an empty spectator list.
    WriteWhitelist(SeasonId),
    /// Update the server's name and description for the new season.
    UpdateServerName(SeasonId),
    /// Delete all but the newest archived saves; a failure is only logged.
    PurgeArchives(u64),
    /// The rotation is complete.
    Finish,
    /// The active season has not ended and the rotation was not forced.
    Skip,
    /// The rotation stopped on this error.
    Fail(AppError),
    /// Nothing to do: the rotation is over, or the event does not belong to
    /// the step under way.
    Idle,
}

/// A new rotation, not yet begun.
pub fn rotation_new(force: bool, duration_days: u32) -> (r: Rotation)
    ensures
        r == (Rotation { stage: RotationStage::NotStarted, force, duration_days, current: None }),
{
    Rotation { stage: RotationStage::NotStarted, force, duration_days, current: None }
}

pub open spec fn with_stage(r: Rotation, stage: RotationStage) -> Rotation {
    Rotation { stage, ..r }
}

/// A rotation that has read its season knows it, and that season has a successor.
pub open spec fn rotation_wf(r: Rotation) -> bool {
    &&& (r.stage != RotationStage::NotStarted && r.stage != RotationStage::LoadingSeason
        && r.stage != RotationStage::Skipped && r.stage != RotationStage::Failed) ==> r.current is Some
    &&& r.current matches Some(c) ==> c@ < i64::MAX
}

/// The steps whose failure stops the rotation.
pub open spec fn spec_stage_is_required(stage: RotationStage) -> bool {
    stage == RotationStage::LoadingSeason || stage == RotationStage::WaitingAfterSave
        || stage == RotationStage::WaitingAfterQuit || stage == RotationStage::StoppingServer
        || stage == RotationStage::ArchivingSave || stage == RotationStage::RecordingArchive
        || stage == RotationStage::CreatingSeason || stage == RotationStage::CarryingForward
        || stage == RotationStage::GeneratingMap || stage == RotationStage::LinkingSave
        || stage == RotationStage::WritingWhitelist || stage == RotationStage::NamingServer
        || stage == RotationStage::StartingServer
}

/// The end of a season that starts at `now` and lasts `days` days.
pub open spec fn spec_season_end(now: Timestamp, days: u32) -> Timestamp {
    Timestamp { secs: (now.secs + 86_400 * days) as i64, nanos: now.nanos }
}

/// The events the machinery can be handed at each stage: a season id that
/// has a successor, and, when the new season is to be created, a time from
/// which its end is still within the calendar.
pub open spec fn rotation_event_ok(r: Rotation, e: RotationEvent) -> bool {
    &&& e matches RotationEvent::ActiveSeason { id, .. } ==> (r.stage
        == RotationStage::LoadingSeason ==> id@ < i64::MAX)
    &&& e matches RotationEvent::Done { now } ==> (r.stage == RotationStage::RecordingArchive
        ==> now.is_calendar_instant() && now.secs + 86_400 * r.duration_days <= MAX_EPOCH_SECS)
}

/// One step of the rotation: the state after the event, and what to do next.
/// The steps run in a fixed order; the RCON commands and the purge may fail
/// without stopping the rotation, every other failure stops it.
pub open spec fn spec_rotation_step(r: Rotation, e: RotationEvent) -> (Rotation, RotationAction) {
    match (r.stage, e) {
        (RotationStage::NotStarted, RotationEvent::Begin) => (
            with_stage(r, RotationStage::LoadingSeason),
            RotationAction::LoadActiveSeason,
        ),
        (RotationStage::LoadingSeason, RotationEvent::ActiveSeason { id, ends_at, now }) => {
            if !r.force && now.spec_before(ends_at) {
                (with_stage(r, RotationStage::Skipped), RotationAction::Skip)
            } else {
                (
                    Rotation { stage: RotationStage::SavingGame, current: Some(id), ..r },
                    RotationAction::Rcon(RconStep::Save),
                )
            }
        },
        (RotationStage::SavingGame, RotationEvent::Done { .. })
        | (RotationStage::SavingGame, RotationEvent::Failed(_)) => (
            with_stage(r, RotationStage::WaitingAfterSave),
            RotationAction::Wait(5),
        ),
        (RotationStage::WaitingAfterSave, RotationEvent::Done { .. }) => (
            with_stage(r, RotationStage::QuittingGame),
            RotationAction::Rcon(RconStep::Quit),
        ),
        (RotationStage::QuittingGame, RotationEvent::Done { .. })
        | (RotationStage::QuittingGame, RotationEvent::Failed(_)) => (
            with_stage(r, RotationStage::WaitingAfterQuit),
            RotationAction::Wait(3),
        ),
        (RotationStage::WaitingAfterQuit, RotationEvent::Done { .. }) => (
            with_stage(r, RotationStage::StoppingServer),
            RotationAction::Systemctl(ServiceAction::Stop),
        ),
        (RotationStage::StoppingServer, RotationEvent::Done { .. }) => (
            with_stage(r, RotationStage::ArchivingSave),
            RotationAction::ArchiveSave(r.current->0),
        ),
        (RotationStage::ArchivingSave, RotationEvent::Done { .. }) => (
            with_stage(r, RotationStage::RecordingArchive),
            RotationAction::RecordArchive(r.current->0),
        ),
        (RotationStage::RecordingArchive, RotationEvent::Done { now }) => (
            with_stage(r, RotationStage::CreatingSeason),
            RotationAction::CreateSeason {
                id: r.current->0.spec_next(),
                started_at: now,
                ends_at: spec_season_end(now, r.duration_days),
            },
        ),
        (RotationStage::CreatingSeason, RotationEvent::Done { .. }) => (
            with_stage(r, RotationStage::CarryingForward),
            RotationAction::CarryForward {
                from: r.current->0,
                to: r.current->0.spec_next(),
            },
        ),
        (RotationStage::CarryingForward, RotationEvent::Done { .. }) => (
            with_stage(r, RotationStage::GeneratingMap),
            RotationAction::GenerateMap(r.current->0.spec_next()),
        ),
        (RotationStage::GeneratingMap, RotationEvent::Done { .. }) => (
            with_stage(r, RotationStage::LinkingSave),
            RotationAction::LinkCurrentSave(r.current->0.spec_next()),
        ),
        (RotationStage::LinkingSave, RotationEvent::Done { .. }) => (
            with_stage(r, RotationStage::WritingWhitelist),
            RotationAction::WriteWhitelist(r.current->0.spec_next()),
        ),
        (RotationStage::WritingWhitelist, RotationEvent::Done { .. }) => (
            with_stage(r, RotationStage::NamingServer),
            RotationAction::UpdateServerName(r.current->0.spec_next()),
        ),
        (RotationStage::NamingServer, RotationEvent::Done { .. }) => (
            with_stage(r, RotationStage::StartingServer),
            RotationAction::Systemctl(ServiceAction::Start),
        ),
        (RotationStage::StartingServer, RotationEvent::Done { .. }) => (
            with_stage(r, RotationStage::PurgingArchives),
            RotationAction::PurgeArchives(ARCHIVES_KEPT),
        ),
        (RotationStage::PurgingArchives, RotationEvent::Done { .. })
        | (RotationStage::PurgingArchives, RotationEvent::Failed(_)) => (
            with_stage(r, RotationStage::Finished),
            RotationAction::Finish,
        ),
        (stage, RotationEvent::Failed(err)) => {
            if spec_stage_is_required(stage) {
                (with_stage(r, RotationStage::Failed), RotationAction::Fail(err))
            } else {
                (r, RotationAction::Idle)
            }
        },
        _ => (r, RotationAction::Idle),
    }
}

fn stage_is_required(stage: RotationStage) -> (b: bool)
    ensures
        b == spec_stage_is_required(stage),
{
    match stage {
        RotationStage::LoadingSeason | RotationStage::WaitingAfterSave
        | RotationStage::WaitingAfterQuit | RotationStage::StoppingServer
        | RotationStage::ArchivingSave | RotationStage::RecordingArchive
        | RotationStage::CreatingSeason | RotationStage::CarryingForward
        | RotationStage::GeneratingMap | RotationStage::LinkingSave
        | RotationStage::WritingWhitelist | RotationStage::NamingServer
        | RotationStage::StartingServer => true,
        _ => false,
    }
}

fn staged(r: Rotation, stage: RotationStage) -> (o: Rotation)
    ensures
        o == with_stage(r, stage),
{
    Rotation { stage, ..r }
}

/// One step of the rotation (see `spec_rotation_step`).
pub fn rotation_step(r: Rotation, e: RotationEvent) -> (out: (Rotation, RotationAction))
    requires
        rotation_wf(r),
        rotation_event_ok(r, e),
    ensures
        out == spec_rotation_step(r, e),
        rotation_wf(out.0),
{
    let cur = r.current;
    match (r.stage, e) {
        (RotationStage::NotStarted, RotationEvent::Begin) => (
            staged(r, RotationStage::LoadingSeason),
            RotationAction::LoadActiveSeason,
        ),
        (RotationStage::LoadingSeason, RotationEvent::ActiveSeason { id, ends_at, now }) => {
            if !r.force && now.is_before(&ends_at) {
                (staged(r, RotationStage::Skipped), RotationAction::Skip)
            } else {
                (
                    Rotation { stage: RotationStage::SavingGame, current: Some(id), ..r },
                    RotationAction::Rcon(RconStep::Save),
                )
            }
        },
        (RotationStage::SavingGame, RotationEvent::Done { .. })
        | (RotationStage::SavingGame, RotationEvent::Failed(_)) => (
            staged(r, RotationStage::WaitingAfterSave),
            RotationAction::Wait(5),
        ),
        (RotationStage::WaitingAfterSave, RotationEvent::Done { .. }) => (
            staged(r, RotationStage::QuittingGame),
            RotationAction::Rcon(RconStep::Quit),
        ),
        (RotationStage::QuittingGame, RotationEvent::Done { .. })
        | (RotationStage::QuittingGame, RotationEvent::Failed(_)) => (
            staged(r, RotationStage::WaitingAfterQuit),
            RotationAction::Wait(3),
        ),
        (RotationStage::WaitingAfterQuit, RotationEvent::Done { .. }) => (
            staged(r, RotationStage::StoppingServer),
            RotationAction::Systemctl(ServiceAction::Stop),
        ),
        (RotationStage::StoppingServer, RotationEvent::Done { .. }) => {
            let c = cur.unwrap();
            (staged(r, RotationStage::ArchivingSave), RotationAction::ArchiveSave(c))
        },
        (RotationStage::ArchivingSave, RotationEvent::Done { .. }) => {
            let c = cur.unwrap();
            (staged(r, RotationStage::RecordingArchive), RotationAction::RecordArchive(c))
        },
        (RotationStage::RecordingArchive, RotationEvent::Done { now }) => {
            let c = cur.unwrap();
            let ends_at = add_days(now, r.duration_days);
            (
                staged(r, RotationStage::CreatingSeason),
                RotationAction::CreateSeason { id: c.next(), started_at: now, ends_at },
            )
        },
        (RotationStage::CreatingSeason, RotationEvent::Done { .. }) => {
            let c = cur.unwrap();
            (
                staged(r, RotationStage::CarryingForward),
                RotationAction::CarryForward { from: c, to: c.next() },
            )
        },
        (RotationStage::CarryingForward, RotationEvent::Done { .. }) => {
            let c = cur.unwrap();
            (staged(r, RotationStage::GeneratingMap), RotationAction::GenerateMap(c.next()))
        },
        (RotationStage::GeneratingMap, RotationEvent::Done { .. }) => {
            let c = cur.unwrap();
            (staged(r, RotationStage::LinkingSave), RotationAction::LinkCurrentSave(c.next()))
        },
        (RotationStage::LinkingSave, RotationEvent::Done { .. }) => {
            let c = cur.unwrap();
            (staged(r, RotationStage::WritingWhitelist), RotationAction::WriteWhitelist(c.next()))
        },
        (RotationStage::WritingWhitelist, RotationEvent::Done { .. }) => {
            let c = cur.unwrap();
            (staged(r, RotationStage::NamingServer), RotationAction::UpdateServerName(c.next()))
        },
        (RotationStage::NamingServer, RotationEvent::Done { .. }) => (
            staged(r, RotationStage::StartingServer),
            RotationAction::Systemctl(ServiceAction::Start),
        ),
        (RotationStage::StartingServer, RotationEvent::Done { .. }) => (
            staged(r, RotationStage::PurgingArchives),
            RotationAction::PurgeArchives(ARCHIVES_KEPT),
        ),
        (RotationStage::PurgingArchives, RotationEvent::Done { .. })
        | (RotationStage::PurgingArchives, RotationEvent::Failed(_)) => (
            staged(r, RotationStage::Finished),
            RotationAction::Finish,
        ),
        (stage, RotationEvent::Failed(err)) => {
            if stage_is_required(stage) {
                (staged(r, RotationStage::Failed), RotationAction::Fail(err))
            } else {
                (r, RotationAction::Idle)
            }
        },
        _ => (r, RotationAction::Idle),
    }
}


// ---------------------------------------------------------------------------
// Purging old archives
// ---------------------------------------------------------------------------

/// The archived saves to delete, in order: each season that has a save path
/// on record (an empty one included), with that path.
pub open spec fn purge_targets_of(seasons: Seq<Season>) -> Seq<(SeasonId, Seq<char>)>
    decreases seasons.len(),
{
    if seasons.len() == 0 {
        Seq::empty()
    } else {
        let rest = purge_targets_of(seasons.drop_last());
        match seasons.last().save_path {
            Some(p) => rest.push((seasons.last().id, p@)),
            None => rest,
        }
    }
}

pub open spec fn target_views(v: Seq<(SeasonId, String)>) -> Seq<(SeasonId, Seq<char>)> {
    v.map_values(|t: (SeasonId, String)| (t.0, t.1@))
}

/// Which of the seasons picked for purging have a save file to remove; each
/// of them then has its save path cleared.
pub fn purge_targets(seasons: &Vec<Season>) -> (r: Vec<(SeasonId, String)>)
    ensures
        target_views(r@) == purge_targets_of(seasons@),
{
    let mut r: Vec<(SeasonId, String)> = Vec::new();
    let mut i: usize = 0;
    while i < seasons.len()
        invariant
            i <= seasons.len(),
            target_views(r@) == purge_targets_of(seasons@.take(i as int)),
        decreases seasons.len() - i,
    {
        assert(seasons@.take(i as int) == seasons@.take((i + 1) as int).drop_last());
        match &seasons[i].save_path {
            Some(p) => {
                r.push((seasons[i].id, p.clone()));
            },
            None => {},
        }
        proof {
            assert(target_views(r@) =~= purge_targets_of(seasons@.take((i + 1) as int)));
        }
        i = i + 1;
    }
    assert(seasons@.take(seasons.len() as int) =~= seasons@);
    r
}

// ---------------------------------------------------------------------------
// Properties of the rotation
// ---------------------------------------------------------------------------

/// The actions a rotation takes when handed `events` one after another.
pub open spec fn rotation_actions(r: Rotation, events: Seq<RotationEvent>) -> Seq<RotationAction>
    decreases events.len(),
{
    if events.len() == 0 {
        Seq::empty()
    } else {
        let (r2, a) = spec_rotation_step(r, events[0]);
        seq![a] + rotation_actions(r2, events.drop_first())
    }
}

/// A rotation that is not forced, read before the active season ends, is
/// skipped and changes nothing.
pub proof fn unforced_rotation_before_end_is_skipped(r: Rotation, id: SeasonId, ends_at: Timestamp, now: Timestamp)
    requires
        r.stage == RotationStage::LoadingSeason,
        !r.force,
        now.spec_before(ends_at),
    ensures
        spec_rotation_step(r, RotationEvent::ActiveSeason { id, ends_at, now }) == (
        with_stage(r, RotationStage::Skipped), RotationAction::Skip),
{
}

/// The failure of any step other than the RCON commands and the purge stops
/// the rotation with that error.
pub proof fn required_step_failure_stops_rotation(r: Rotation, err: AppError)
    requires
        spec_stage_is_required(r.stage),
    ensures
        spec_rotation_step(r, RotationEvent::Failed(err)) == (with_stage(r, RotationStage::Failed),
        RotationAction::Fail(err)),
{
}

/// The steps whose failure stops the rotation are exactly reading the season,
/// the two waits, stopping the server, archiving the save and recording it,
/// creating the season, carrying players forward, generating and linking the
/// map, writing the whitelist, naming and starting the server: a failure
/// there moves the rotation to `Failed` and asks for `Fail` with that error.
/// A failure of the RCON save or quit, or of the purge, does not.
pub proof fn failing_steps_stop_rotation(r: Rotation, err: AppError)
    ensures
        (r.stage == RotationStage::LoadingSeason || r.stage == RotationStage::WaitingAfterSave
            || r.stage == RotationStage::WaitingAfterQuit || r.stage == RotationStage::StoppingServer
            || r.stage == RotationStage::ArchivingSave || r.stage == RotationStage::RecordingArchive
            || r.stage == RotationStage::CreatingSeason || r.stage == RotationStage::CarryingForward
            || r.stage == RotationStage::GeneratingMap || r.stage == RotationStage::LinkingSave
            || r.stage == RotationStage::WritingWhitelist || r.stage == RotationStage::NamingServer
            || r.stage == RotationStage::StartingServer) ==> spec_rotation_step(
            r,
            RotationEvent::Failed(err),
        ) == (Rotation { stage: RotationStage::Failed, ..r }, RotationAction::Fail(err)),
        (r.stage == RotationStage::SavingGame || r.stage == RotationStage::QuittingGame
            || r.stage == RotationStage::PurgingArchives) ==> spec_rotation_step(
            r,
            RotationEvent::Failed(err),
        ).0.stage != RotationStage::Failed && !(spec_rotation_step(
            r,
            RotationEvent::Failed(err),
        ).1 is Fail),
{
}

/// A stopped, skipped or finished rotation does nothing more, whatever happens.
pub proof fn ended_rotation_does_nothing(r: Rotation, e: RotationEvent)
    requires
        r.stage == RotationStage::Failed || r.stage == RotationStage::Skipped || r.stage
            == RotationStage::Finished,
    ensures
        spec_rotation_step(r, e) == (r, RotationAction::Idle),
{
}

/// The RCON commands and the purge never stop the rotation, even when they fail.
pub proof fn best_effort_steps_do_not_stop_rotation(r: Rotation, err: AppError)
    requires
        r.stage == RotationStage::SavingGame || r.stage == RotationStage::QuittingGame
            || r.stage == RotationStage::PurgingArchives,
    ensures
        spec_rotation_step(r, RotationEvent::Failed(err)).0.stage != RotationStage::Failed,
{
}

/// When the rotation is due (forced, or the season has ended) and every step
/// succeeds, it saves, stops the server, archives the old season, opens the
/// next one for `duration_days` from the time the archive was recorded, carries
/// the players forward, prepares and names the new map, starts the server and
/// purges old archives, in exactly this order.
pub proof fn rotation_runs_steps_in_order(
    force: bool,
    duration_days: u32,
    id: SeasonId,
    ends_at: Timestamp,
    t0: Timestamp,
    times: Seq<Timestamp>,
)
    requires
        force || !t0.spec_before(ends_at),
        times.len() == 15,
    ensures
        rotation_actions(
            Rotation { stage: RotationStage::NotStarted, force, duration_days, current: None },
            seq![RotationEvent::Begin, RotationEvent::ActiveSeason { id, ends_at, now: t0 }]
                + times.map_values(|t: Timestamp| RotationEvent::Done { now: t }),
        ) == seq![
            RotationAction::LoadActiveSeason,
            RotationAction::Rcon(RconStep::Save),
            RotationAction::Wait(5),
            RotationAction::Rcon(RconStep::Quit),
            RotationAction::Wait(3),
            RotationAction::Systemctl(ServiceAction::Stop),
            RotationAction::ArchiveSave(id),
            RotationAction::RecordArchive(id),
            RotationAction::CreateSeason {
                id: id.spec_next(),
                started_at: times[6],
                ends_at: spec_season_end(times[6], duration_days),
            },
            RotationAction::CarryForward { from: id, to: id.spec_next() },
            RotationAction::GenerateMap(id.spec_next()),
            RotationAction::LinkCurrentSave(id.spec_next()),
            RotationAction::WriteWhitelist(id.spec_next()),
            RotationAction::UpdateServerName(id.spec_next()),
            RotationAction::Systemctl(ServiceAction::Start),
            RotationAction::PurgeArchives(ARCHIVES_KEPT),
            RotationAction::Finish,
        ],
{
    reveal_with_fuel(rotation_actions, 18);
    let evs = seq![RotationEvent::Begin, RotationEvent::ActiveSeason { id, ends_at, now: t0 }]
        + times.map_values(|t: Timestamp| RotationEvent::Done { now: t });
    assert(evs.len() == 17);
    assert forall|i: int| 2 <= i < 17 implies #[trigger] evs[i] == RotationEvent::Done {
        now: times[i - 2],
    } by {}
}

} // verus!
