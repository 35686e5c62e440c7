//! What the backend says to the Factorio server over RCON: the Lua that sets up
//! the spectator permission group, the commands that move a player between
//! groups, the reading of the connected-player report, and the decisions the
//! whitelist sync and the permission poller take.
use vstd::prelude::*;
use vstd::string::*;

use crate::domain::{AccessTier, RegStatus, Registration, Season, SeasonStatus};
use crate::text::{push_char, push_str, str_eq, trim, trimmed};

verus! {

/// Lua run once at startup: creates the `Spectators` permission group and
/// forbids it every action that changes the world.
pub const SETUP_LUA: &'static str = "\
do \
  local g = game.permissions.get_group('Spectators') \
  if not g then g = game.permissions.create_group('Spectators') end \
  local restrict = { \
    'build','build_rail','build_terrain','begin_mining','begin_mining_terrain', \
    'craft','cancel_craft','deconstruct','cancel_deconstruct','upgrade','cancel_upgrade', \
    'drop_item','destroy_item','destroy_opened_item', \
    'cursor_split','cursor_transfer','inventory_split','inventory_transfer', \
    'fast_entity_transfer','fast_entity_split','stack_split','stack_transfer', \
    'send_stack_to_trash','send_stacks_to_trash','trash_not_requested_items', \
    'place_equipment','take_equipment', \
    'rotate_entity','flip_entity','paste_entity_settings','copy_entity_settings', \
    'use_item','start_repair','wire_dragging','remove_cables', \
    'select_area','alt_select_area','reverse_select_area','alt_reverse_select_area', \
    'setup_assembling_machine','reset_assembling_machine', \
    'toggle_driving','send_spidertron','launch_rocket', \
    'connect_rolling_stock','disconnect_rolling_stock', \
    'setup_blueprint','change_shooting_state','market_offer' \
  } \
  for _,a in pairs(restrict) do \
    local ia = defines.input_action[a] \
    if ia then g.set_allows_action(ia, false) end \
  end \
end";

/// Lua that reports the connected players as `name:group:alive,...`.
pub const POLL_LUA: &'static str = "/silent-command \
    do local out={} \
    for _,p in pairs(game.connected_players) do \
    local alive = (p.character and p.character.valid) and 'alive' or 'dead' \
    out[#out+1]=p.name..':'..(p.permission_group and p.permission_group.name or 'nil')..':'..alive \
    end rcon.print(table.concat(out,',')) end";

/// What a player is told when a death in hardcore mode makes them a spectator.
pub const HARDCORE_DEATH_MESSAGE: &'static str = "[HARDCORE] You died. You are now a spectator for the rest of this season. See you next week.";

// ---------------------------------------------------------------------------
// Lua string escaping
// ---------------------------------------------------------------------------

/// How one character is written inside a single-quoted Lua string.
pub open spec fn lua_escape_char(c: char) -> Seq<char> {
    if c == '\\' {
        seq!['\\', '\\']
    } else if c == '\'' {
        seq!['\\', '\'']
    } else {
        seq![c]
    }
}

/// A string with every backslash doubled and every single quote
/// backslash-escaped.
pub open spec fn lua_escaped(s: Seq<char>) -> Seq<char>
    decreases s.len(),
{
    if s.len() == 0 {
        Seq::empty()
    } else {
        lua_escape_char(s[0]) + lua_escaped(s.drop_first())
    }
}

/// What Lua reads from the body of a single-quoted string: a backslash takes
/// the next character literally.
pub open spec fn lua_read(s: Seq<char>) -> Seq<char>
    decreases s.len(),
{
    if s.len() == 0 {
        Seq::empty()
    } else if s[0] == '\\' && s.len() >= 2 {
        seq![s[1]] + lua_read(s.subrange(2, s.len() as int))
    } else {
        seq![s[0]] + lua_read(s.drop_first())
    }
}

proof fn lemma_lua_escaped_append(a: Seq<char>, c: char)
    ensures
        lua_escaped(a.push(c)) == lua_escaped(a) + lua_escape_char(c),
    decreases a.len(),
{
    if a.len() == 0 {
        assert(a.push(c).drop_first() =~= Seq::<char>::empty());
        assert(lua_escaped(Seq::<char>::empty()) == Seq::<char>::empty());
        assert(lua_escape_char(c) + Seq::<char>::empty() =~= lua_escape_char(c));
        assert(Seq::<char>::empty() + lua_escape_char(c) =~= lua_escape_char(c));
    } else {
        lemma_lua_escaped_append(a.drop_first(), c);
        assert(a.push(c).drop_first() =~= a.drop_first().push(c));
        assert(lua_escape_char(a[0]) + (lua_escaped(a.drop_first()) + lua_escape_char(c))
            =~= (lua_escape_char(a[0]) + lua_escaped(a.drop_first())) + lua_escape_char(c));
    }
}

/// Escaping is undone by Lua's reading of the quoted string: a player name
/// reaches the game exactly as it was, whatever quotes or backslashes it holds.
pub proof fn lua_read_undoes_escape(s: Seq<char>)
    ensures
        lua_read(lua_escaped(s)) == s,
    decreases s.len(),
{
    if s.len() > 0 {
        lua_read_undoes_escape(s.drop_first());
        let e = lua_escaped(s);
        let rest = lua_escaped(s.drop_first());
        let c = s[0];
        if c == '\\' || c == '\'' {
            assert(e =~= seq!['\\', c] + rest);
            assert(e.subrange(2, e.len() as int) =~= rest);
        } else {
            assert(e =~= seq![c] + rest);
            assert(e.drop_first() =~= rest);
        }
        assert(seq![c] + s.drop_first() =~= s);
    }
}

/// Escapes a string for a single-quoted Lua string literal.
pub fn lua_escape(s: &str) -> (r: String)
    ensures
        r@ == lua_escaped(s@),
{
    let n = s.unicode_len();
    let mut r = String::new();
    let mut i: usize = 0;
    while i < n
        invariant
            n == s@.len(),
            i <= n,
            r@ == lua_escaped(s@.subrange(0, i as int)),
        decreases n - i,
    {
        let c = s.get_char(i);
        proof {
            lemma_lua_escaped_append(s@.subrange(0, i as int), c);
            assert(s@.subrange(0, i as int).push(c) =~= s@.subrange(0, i + 1));
        }
        if c == '\\' {
            push_char(&mut r, '\\');
            push_char(&mut r, '\\');
        } else if c == '\'' {
            push_char(&mut r, '\\');
            push_char(&mut r, '\'');
        } else {
            push_char(&mut r, c);
        }
        i = i + 1;
    }
    assert(s@.subrange(0, n as int) =~= s@);
    r
}

// ---------------------------------------------------------------------------
// Commands
// ---------------------------------------------------------------------------

/// The command that moves a connected player into the group `group`.
pub open spec fn spec_set_group_command(name: Seq<char>, group: Seq<char>) -> Seq<char> {
    "/silent-command do local p = game.get_player('"@ + lua_escaped(name)
        + "') if p and p.connected then p.permission_group = game.permissions.get_group('"@
        + group + "') end end"@
}

/// The command that tells a player `msg` in private.
pub open spec fn spec_whisper_command(name: Seq<char>, msg: Seq<char>) -> Seq<char> {
    "/silent-command do local p = game.get_player('"@ + lua_escaped(name)
        + "') if p then p.print('"@ + lua_escaped(msg) + "') end end"@
}

/// RCON command that puts a connected player in the full-access `Default` group.
pub fn rcon_set_player(name: &str) -> (r: String)
    ensures
        r@ == spec_set_group_command(name@, "Default"@),
{
    let mut r = String::from_str("/silent-command do local p = game.get_player('");
    let esc = lua_escape(name);
    push_str(&mut r, esc.as_str());
    push_str(
        &mut r,
        "') if p and p.connected then p.permission_group = game.permissions.get_group('",
    );
    push_str(&mut r, "Default");
    push_str(&mut r, "') end end");
    r
}

/// RCON command that puts a connected player in the restricted `Spectators` group.
pub fn rcon_set_spectator(name: &str) -> (r: String)
    ensures
        r@ == spec_set_group_command(name@, "Spectators"@),
{
    let mut r = String::from_str("/silent-command do local p = game.get_player('");
    let esc = lua_escape(name);
    push_str(&mut r, esc.as_str());
    push_str(
        &mut r,
        "') if p and p.connected then p.permission_group = game.permissions.get_group('",
    );
    push_str(&mut r, "Spectators");
    push_str(&mut r, "') end end");
    r
}

/// RCON command that whispers `msg` to the player `name`.
pub fn rcon_whisper(name: &str, msg: &str) -> (r: String)
    ensures
        r@ == spec_whisper_command(name@, msg@),
{
    let mut r = String::from_str("/silent-command do local p = game.get_player('");
    let esc_name = lua_escape(name);
    push_str(&mut r, esc_name.as_str());
    push_str(&mut r, "') if p then p.print('");
    let esc_msg = lua_escape(msg);
    push_str(&mut r, esc_msg.as_str());
    push_str(&mut r, "') end end");
    r
}

/// `/whitelist add <name>`.
pub fn whitelist_add_command(name: &str) -> (r: String)
    ensures
        r@ == "/whitelist add "@ + name@,
{
    let mut r = String::from_str("/whitelist add ");
    push_str(&mut r, name);
    r
}

/// `/whitelist remove <name>`.
pub fn whitelist_remove_command(name: &str) -> (r: String)
    ensures
        r@ == "/whitelist remove "@ + name@,
{
    let mut r = String::from_str("/whitelist remove ");
    push_str(&mut r, name);
    r
}

/// The startup command that runs `SETUP_LUA`.
pub fn setup_command() -> (r: String)
    ensures
        r@ == "/silent-command "@ + SETUP_LUA@,
{
    let mut r = String::from_str("/silent-command ");
    push_str(&mut r, SETUP_LUA);
    r
}

/// The commands sent first at startup: enable the whitelist, then set up the
/// spectator group twice (a fresh save asks to confirm the first Lua command,
/// which disables achievements, so the first one may not take).
pub fn startup_commands() -> (r: Vec<String>)
    ensures
        command_views(r@) == seq!["/whitelist enable"@, "/silent-command "@ + SETUP_LUA@,
            "/silent-command "@ + SETUP_LUA@],
{
    let mut r: Vec<String> = Vec::new();
    r.push(String::from_str("/whitelist enable"));
    r.push(setup_command());
    r.push(setup_command());
    assert(command_views(r@) =~= seq!["/whitelist enable"@, "/silent-command "@ + SETUP_LUA@,
        "/silent-command "@ + SETUP_LUA@]);
    r
}

/// The group a player with this access tier belongs in.
pub open spec fn spec_tier_group(tier: AccessTier) -> Seq<char> {
    match tier {
        AccessTier::Standard => "Spectators"@,
        AccessTier::InstantPlayer => "Default"@,
    }
}

/// The command that moves a newly whitelisted player into the group of their tier.
pub fn permission_command(name: &str, tier: AccessTier) -> (r: String)
    ensures
        r@ == spec_set_group_command(name@, spec_tier_group(tier)),
{
    match tier {
        AccessTier::Standard => rcon_set_spectator(name),
        AccessTier::InstantPlayer => rcon_set_player(name),
    }
}

/// A registration is put on the server only while its season is the active one.
pub fn season_accepts_whitelist(season: &Option<Season>) -> (r: bool)
    ensures
        r == (season matches Some(s) && s.status == SeasonStatus::Active),
{
    match season {
        Some(s) => s.status == SeasonStatus::Active,
        None => false,
    }
}


// ---------------------------------------------------------------------------
// The whitelist and spectator files (serde_json's pretty layout)
// ---------------------------------------------------------------------------

/// A lowercase hexadecimal digit.
pub open spec fn hex_digit(n: int) -> char {
    if n < 10 {
        (n + 48) as char
    } else {
        (n + 87) as char
    }
}

/// How serde_json writes one character inside a string: `"` and `\` behind a
/// backslash, the control characters with a short escape where JSON has one
/// and as `\u00XX` otherwise, every other character as it is.
pub open spec fn json_escape_char(c: char) -> Seq<char> {
    if c == '"' {
        seq!['\\', '"']
    } else if c == '\\' {
        seq!['\\', '\\']
    } else if c == '\u{8}' {
        seq!['\\', 'b']
    } else if c == '\u{c}' {
        seq!['\\', 'f']
    } else if c == '\n' {
        seq!['\\', 'n']
    } else if c == '\r' {
        seq!['\\', 'r']
    } else if c == '\t' {
        seq!['\\', 't']
    } else if (c as int) < 0x20 {
        seq!['\\', 'u', '0', '0', hex_digit((c as int) / 16), hex_digit((c as int) % 16)]
    } else {
        seq![c]
    }
}

/// The characters of a string, escaped.
pub open spec fn json_escaped(s: Seq<char>) -> Seq<char>
    decreases s.len(),
{
    if s.len() == 0 {
        Seq::empty()
    } else {
        json_escaped(s.drop_last()) + json_escape_char(s.last())
    }
}

/// A JSON string literal.
pub open spec fn json_string(s: Seq<char>) -> Seq<char> {
    seq!['"'] + json_escaped(s) + seq!['"']
}

/// The items of a pretty-printed array, each on its own line indented by two
/// spaces, separated by commas.
pub open spec fn pretty_items(items: Seq<Seq<char>>) -> Seq<char>
    decreases items.len(),
{
    if items.len() == 0 {
        Seq::empty()
    } else {
        let rest = items.drop_last();
        pretty_items(rest) + (if rest.len() == 0 {
            "\n"@
        } else {
            ",\n"@
        }) + "  "@ + items.last()
    }
}

/// A pretty-printed top-level JSON array of already written items: `[]` when
/// empty.
pub open spec fn pretty_array(items: Seq<Seq<char>>) -> Seq<char> {
    if items.len() == 0 {
        "[]"@
    } else {
        "["@ + pretty_items(items) + "\n]"@
    }
}

/// The views of a list of strings.
pub open spec fn string_views(v: Seq<String>) -> Seq<Seq<char>> {
    v.map_values(|s: String| s@)
}

/// The spectator file: the names as a pretty-printed array of strings.
pub open spec fn pretty_string_list(names: Seq<Seq<char>>) -> Seq<char> {
    pretty_array(names.map_values(|n: Seq<char>| json_string(n)))
}

/// The whitelist file: one object `{"name": ...}` per name, pretty-printed.
pub open spec fn pretty_name_objects(names: Seq<Seq<char>>) -> Seq<char> {
    pretty_array(
        names.map_values(|n: Seq<char>| "{\n    \"name\": "@ + json_string(n) + "\n  }"@),
    )
}

/// `serde_json::to_string_pretty` of a list of strings, laid out as serde_json
/// writes it (`pretty_string_list`). For a `Vec<String>` the serializer writes
/// into memory and has no failing path.
#[verifier::external_body]
fn strings_to_pretty_json(items: &Vec<String>) -> (r: String)
    ensures
        r@ == pretty_string_list(string_views(items@)),
{
    serde_json::to_string_pretty(items).unwrap_or_default()
}

/// `serde_json::to_string_pretty` of a list of one-member maps `name -> item`,
/// laid out as serde_json writes it (`pretty_name_objects`); as above, it has
/// no failing path.
#[verifier::external_body]
fn names_to_pretty_json_objects(items: &Vec<String>) -> (r: String)
    ensures
        r@ == pretty_name_objects(string_views(items@)),
{
    let objects: Vec<std::collections::BTreeMap<&str, &String>> =
        items.iter().map(|n| std::collections::BTreeMap::from([("name", n)])).collect();
    serde_json::to_string_pretty(&objects).unwrap_or_default()
}

/// The server whitelist file: each confirmed player as an object with their
/// name, pretty-printed.
pub fn whitelist_file_json(names: &Vec<String>) -> (r: String)
    ensures
        r@ == pretty_name_objects(string_views(names@)),
        names@.len() == 0 ==> r@ == "[]"@,
{
    names_to_pretty_json_objects(names)
}

/// The spectator list file for the game server: the names as a
/// pretty-printed JSON array of strings.
pub fn spectator_list_json(names: &Vec<String>) -> (r: String)
    ensures
        r@ == pretty_string_list(string_views(names@)),
        names@.len() == 0 ==> r@ == "[]"@,
{
    strings_to_pretty_json(names)
}


// ---------------------------------------------------------------------------
// The connected-player report
// ---------------------------------------------------------------------------

/// `s.split(sep)`: the pieces between the separators, empty ones included.
pub open spec fn split_on(s: Seq<char>, sep: char) -> Seq<Seq<char>>
    decreases s.len(),
{
    if s.len() == 0 {
        seq![Seq::empty()]
    } else {
        let rest = split_on(s.drop_first(), sep);
        if s[0] == sep {
            seq![Seq::<char>::empty()] + rest
        } else {
            rest.update(0, seq![s[0]] + rest[0])
        }
    }
}

/// Position of the first `c` in `s`.
pub open spec fn first_index(s: Seq<char>, c: char) -> Option<int>
    decreases s.len(),
{
    if s.len() == 0 {
        None
    } else if s[0] == c {
        Some(0)
    } else {
        match first_index(s.drop_first(), c) {
            Some(i) => Some(i + 1),
            None => None,
        }
    }
}

/// One report entry `name:group:alive`, as `splitn(3, ':')` cuts it: the
/// third part is everything after the second colon. An entry with fewer than
/// two colons is no entry.
pub open spec fn parse_entry(e: Seq<char>) -> Option<(Seq<char>, Seq<char>, Seq<char>)> {
    match first_index(e, ':') {
        None => None,
        Some(i) => {
            let rest = e.subrange(i + 1, e.len() as int);
            match first_index(rest, ':') {
                None => None,
                Some(j) => Some(
                    (e.subrange(0, i), rest.subrange(0, j), rest.subrange(j + 1, rest.len() as int)),
                ),
            }
        },
    }
}

/// The entries among comma-separated pieces, in order, skipping malformed ones.
pub open spec fn entries_of(pieces: Seq<Seq<char>>) -> Seq<(Seq<char>, Seq<char>, Seq<char>)>
    decreases pieces.len(),
{
    if pieces.len() == 0 {
        Seq::empty()
    } else {
        match parse_entry(pieces.last()) {
            Some(x) => entries_of(pieces.drop_last()).push(x),
            None => entries_of(pieces.drop_last()),
        }
    }
}

/// The players in a (trimmed, non-empty) report.
pub open spec fn report_entries(t: Seq<char>) -> Seq<(Seq<char>, Seq<char>, Seq<char>)> {
    entries_of(split_on(t, ','))
}

/// One connected player as the report describes them.
#[derive(Debug, Clone)]
pub struct PollEntry {
    pub name: String,
    pub group: String,
    pub alive: String,
}

impl PollEntry {
    pub open spec fn spec_parts(self) -> (Seq<char>, Seq<char>, Seq<char>) {
        (self.name@, self.group@, self.alive@)
    }
}

pub open spec fn entry_parts(es: Seq<PollEntry>) -> Seq<(Seq<char>, Seq<char>, Seq<char>)> {
    es.map_values(|e: PollEntry| e.spec_parts())
}

proof fn lemma_split_nonempty(s: Seq<char>, sep: char)
    ensures
        split_on(s, sep).len() >= 1,
    decreases s.len(),
{
    if s.len() > 0 {
        lemma_split_nonempty(s.drop_first(), sep);
    }
}

/// The first piece of a split ends at the first separator.
proof fn lemma_split_first_piece(t: Seq<char>, sep: char, k: int)
    requires
        0 <= k <= t.len(),
        forall|i: int| 0 <= i < k ==> t[i] != sep,
        k < t.len() ==> t[k] == sep,
    ensures
        k < t.len() ==> split_on(t, sep) == seq![t.subrange(0, k)] + split_on(
            t.subrange(k + 1, t.len() as int),
            sep,
        ),
        k == t.len() ==> split_on(t, sep) == seq![t],
    decreases k,
{
    if k == 0 {
        if t.len() == 0 {
            assert(t =~= Seq::<char>::empty());
            assert(seq![t] =~= seq![Seq::<char>::empty()]);
        } else {
            assert(t.drop_first() =~= t.subrange(1, t.len() as int));
            assert(t.subrange(0, 0) =~= Seq::<char>::empty());
        }
    } else {
        let u = t.drop_first();
        lemma_split_first_piece(u, sep, k - 1);
        lemma_split_nonempty(u, sep);
        if k < t.len() {
            assert(u.subrange(k, u.len() as int) =~= t.subrange(k + 1, t.len() as int));
            assert(seq![t[0]] + u.subrange(0, k - 1) =~= t.subrange(0, k));
            assert(split_on(t, sep) =~= seq![t.subrange(0, k)] + split_on(
                t.subrange(k + 1, t.len() as int),
                sep,
            ));
        } else {
            assert(seq![t[0]] + u =~= t);
            assert(split_on(t, sep) =~= seq![t]);
        }
    }
}

proof fn lemma_first_index_at(s: Seq<char>, c: char, k: int)
    requires
        0 <= k <= s.len(),
        forall|i: int| 0 <= i < k ==> s[i] != c,
        k < s.len() ==> s[k] == c,
    ensures
        k < s.len() ==> first_index(s, c) == Some(k),
        k == s.len() ==> first_index(s, c) is None,
    decreases k,
{
    if k > 0 {
        lemma_first_index_at(s.drop_first(), c, k - 1);
    }
}

/// Position of the first `c` in `s` at or after `from` (or `s`'s length).
fn scan_to(s: &str, c: char, from: usize) -> (r: usize)
    requires
        from <= s@.len(),
    ensures
        from <= r <= s@.len(),
        forall|i: int| from <= i < r ==> s@[i] != c,
        r < s@.len() ==> s@[r as int] == c,
{
    let n = s.unicode_len();
    let mut k = from;
    while k < n
        invariant
            n == s@.len(),
            from <= k <= n,
            forall|i: int| from <= i < k ==> s@[i] != c,
        decreases n - k,
    {
        if s.get_char(k) == c {
            return k;
        }
        k = k + 1;
    }
    k
}

/// Reads one report entry.
fn parse_poll_entry(e: &str) -> (r: Option<PollEntry>)
    ensures
        match parse_entry(e@) {
            Some(x) => r matches Some(p) && p.spec_parts() == x,
            None => r is None,
        },
{
    let n = e.unicode_len();
    let i = scan_to(e, ':', 0);
    proof {
        lemma_first_index_at(e@, ':', i as int);
    }
    if i == n {
        return None;
    }
    let j = scan_to(e, ':', i + 1);
    let ghost rest = e@.subrange(i + 1, n as int);
    proof {
        assert forall|k: int| 0 <= k < j - (i + 1) implies rest[k] != ':' by {
            assert(rest[k] == e@[k + i + 1]);
        }
        if j < n {
            assert(rest[j - (i + 1)] == e@[j as int]);
        }
        lemma_first_index_at(rest, ':', j - (i + 1));
    }
    if j == n {
        return None;
    }
    let name = String::from_str(e.substring_char(0, i));
    let group = String::from_str(e.substring_char(i + 1, j));
    let alive = String::from_str(e.substring_char(j + 1, n));
    proof {
        assert(rest.subrange(0, j - (i + 1)) =~= e@.subrange(i + 1, j as int));
        assert(rest.subrange(j - (i + 1) + 1, rest.len() as int) =~= e@.subrange(
            j + 1,
            n as int,
        ));
    }
    Some(PollEntry { name, group, alive })
}

/// Reads the report of connected players. `None` when the trimmed report is
/// empty (nobody is online); otherwise the well-formed entries, in order.
pub fn parse_poll_response(raw: &str) -> (r: Option<Vec<PollEntry>>)
    ensures
        trimmed(raw@).len() == 0 ==> r is None,
        trimmed(raw@).len() > 0 ==> (r matches Some(v) && entry_parts(v@) == report_entries(
            trimmed(raw@),
        )),
{
    let t = trim(raw);
    let ts = t.as_str();
    let n = ts.unicode_len();
    if n == 0 {
        return None;
    }
    let mut out: Vec<PollEntry> = Vec::new();
    let mut start: usize = 0;
    let ghost mut done: Seq<Seq<char>> = Seq::empty();
    assert(ts@.subrange(0, n as int) =~= ts@);
    assert(done + split_on(ts@, ',') =~= split_on(ts@, ','));
    loop
        invariant_except_break
            split_on(ts@, ',') == done + split_on(ts@.subrange(start as int, n as int), ','),
            entry_parts(out@) == entries_of(done),
        invariant
            n == ts@.len(),
            ts@ == trimmed(raw@),
            start <= n,
        ensures
            entry_parts(out@) == report_entries(ts@),
        decreases n - start,
    {
        let k = scan_to(ts, ',', start);
        let ghost piece = ts@.subrange(start as int, k as int);
        let ghost tail = ts@.subrange(start as int, n as int);
        proof {
            assert forall|i: int| 0 <= i < k - start implies tail[i] != ',' by {
                assert(tail[i] == ts@[i + start]);
            }
            if k < n {
                assert(tail[k - start] == ts@[k as int]);
            }
            lemma_split_first_piece(tail, ',', k - start);
            assert(tail.subrange(0, k - start) =~= piece);
            if k < n {
                assert(tail.subrange(k - start + 1, tail.len() as int) =~= ts@.subrange(
                    k + 1,
                    n as int,
                ));
                assert(split_on(ts@, ',') =~= done.push(piece) + split_on(
                    ts@.subrange(k + 1, n as int),
                    ',',
                ));
            } else {
                assert(tail =~= piece);
                assert(split_on(ts@, ',') =~= done.push(piece));
            }
        }
        let entry = parse_poll_entry(ts.substring_char(start, k));
        proof {
            let d2 = done.push(piece);
            assert(d2.drop_last() =~= done);
            assert(d2.last() == piece);
        }
        match entry {
            Some(p) => {
                let ghost prev = out@;
                let ghost parts = p.spec_parts();
                out.push(p);
                proof {
                    assert(entry_parts(out@) =~= entry_parts(prev).push(parts));
                }
            },
            None => {},
        }
        proof {
            done = done.push(piece);
        }
        if k == n {
            assert(split_on(ts@, ',') == done);
            assert(entry_parts(out@) == entries_of(done));
            break;
        }
        start = k + 1;
    }
    Some(out)
}


// ---------------------------------------------------------------------------
// Decisions of the permission poller
// ---------------------------------------------------------------------------

/// The group a connected player should be in: `Default` for a confirmed
/// instant player, `Spectators` for everyone else.
pub open spec fn spec_desired_group(reg: Option<Registration>) -> Seq<char> {
    match reg {
        Some(r) => if r.status == RegStatus::Confirmed {
            spec_tier_group(r.access_tier)
        } else {
            "Spectators"@
        },
        None => "Spectators"@,
    }
}

pub fn desired_group(reg: &Option<Registration>) -> (r: &'static str)
    ensures
        r@ == spec_desired_group(*reg),
{
    match reg {
        Some(r) => if r.status == RegStatus::Confirmed {
            match r.access_tier {
                AccessTier::InstantPlayer => "Default",
                AccessTier::Standard => "Spectators",
            }
        } else {
            "Spectators"
        },
        None => "Spectators",
    }
}

/// In hardcore mode a dead, confirmed instant player loses play access.
pub open spec fn spec_needs_demotion(hardcore: bool, alive: Seq<char>, reg: Option<Registration>) -> bool {
    &&& hardcore
    &&& alive == "dead"@
    &&& reg matches Some(r)
    &&& r.status == RegStatus::Confirmed
    &&& r.access_tier == AccessTier::InstantPlayer
}

pub fn needs_demotion(hardcore: bool, alive: &str, reg: &Option<Registration>) -> (r: bool)
    ensures
        r == spec_needs_demotion(hardcore, alive@, *reg),
{
    if !hardcore || !str_eq(alive, "dead") {
        return false;
    }
    match reg {
        Some(r) => r.status == RegStatus::Confirmed && r.access_tier == AccessTier::InstantPlayer,
        None => false,
    }
}

/// What a player demoted by a death is sent: the move to `Spectators`, then
/// the hardcore notice.
pub fn demotion_commands(name: &str) -> (r: Vec<String>)
    ensures
        r@.len() == 2,
        r@[0]@ == spec_set_group_command(name@, "Spectators"@),
        r@[1]@ == spec_whisper_command(name@, HARDCORE_DEATH_MESSAGE@),
{
    let mut v: Vec<String> = Vec::new();
    v.push(rcon_set_spectator(name));
    v.push(rcon_whisper(name, HARDCORE_DEATH_MESSAGE));
    v
}

/// The command that corrects a player's group, when it is not the one their
/// registration calls for.
pub fn group_correction(name: &str, current_group: &str, reg: &Option<Registration>) -> (r: Option<String>)
    ensures
        current_group@ == spec_desired_group(*reg) ==> r is None,
        current_group@ != spec_desired_group(*reg) ==> (r matches Some(c) && c@
            == spec_set_group_command(name@, spec_desired_group(*reg))),
{
    let desired = desired_group(reg);
    if str_eq(current_group, desired) {
        None
    } else if str_eq(desired, "Default") {
        Some(rcon_set_player(name))
    } else {
        proof {
            reveal_strlit("Default");
            reveal_strlit("Spectators");
        }
        Some(rcon_set_spectator(name))
    }
}

/// The correction a player is sent: nothing when already in the group their
/// registration calls for, otherwise the move to that group.
pub open spec fn correction_commands(name: Seq<char>, group: Seq<char>, reg: Option<Registration>) -> Seq<Seq<char>> {
    if group == spec_desired_group(reg) {
        Seq::empty()
    } else {
        seq![spec_set_group_command(name, spec_desired_group(reg))]
    }
}

/// What the permission poller does for one connected player.
#[derive(Debug)]
pub enum PollAction {
    /// Demote the player's registration to spectator, then decide again
    /// with whether that took effect.
    Demote,
    /// Send these commands, in order (possibly none).
    Send(Vec<String>),
}

/// The poller's decision for one connected player. A player who died in
/// hardcore mode with full access is first demoted in the database; once the
/// demotion took effect they get exactly the demotion commands and no group
/// correction. Any other player (or one whose demotion did not take effect)
/// gets the group correction, if their group is wrong.
pub fn poll_entry_action(
    hardcore: bool,
    entry: &PollEntry,
    reg: &Option<Registration>,
    demoted: Option<bool>,
) -> (r: PollAction)
    ensures
        spec_needs_demotion(hardcore, entry.alive@, *reg) && demoted is None ==> r is Demote,
        spec_needs_demotion(hardcore, entry.alive@, *reg) && demoted == Some(true) ==> (r matches PollAction::Send(c)
            && command_views(c@) == seq![
            spec_set_group_command(entry.name@, "Spectators"@),
            spec_whisper_command(entry.name@, HARDCORE_DEATH_MESSAGE@),
        ]),
        !spec_needs_demotion(hardcore, entry.alive@, *reg) || demoted == Some(false) ==> (r matches PollAction::Send(c)
            && command_views(c@) == correction_commands(entry.name@, entry.group@, *reg)),
{
    if needs_demotion(hardcore, entry.alive.as_str(), reg) {
        match demoted {
            None => {
                return PollAction::Demote;
            },
            Some(true) => {
                let c = demotion_commands(entry.name.as_str());
                assert(command_views(c@) =~= seq![
                    spec_set_group_command(entry.name@, "Spectators"@),
                    spec_whisper_command(entry.name@, HARDCORE_DEATH_MESSAGE@),
                ]);
                return PollAction::Send(c);
            },
            Some(false) => {},
        }
    }
    let mut c: Vec<String> = Vec::new();
    match group_correction(entry.name.as_str(), entry.group.as_str(), reg) {
        Some(cmd) => {
            c.push(cmd);
        },
        None => {},
    }
    assert(command_views(c@) =~= correction_commands(entry.name@, entry.group@, *reg));
    PollAction::Send(c)
}

// ---------------------------------------------------------------------------
// Whitelist sync at startup
// ---------------------------------------------------------------------------

/// `/whitelist add` for each confirmed registration, in order.
pub open spec fn confirmed_add_commands(regs: Seq<Registration>) -> Seq<Seq<char>>
    decreases regs.len(),
{
    if regs.len() == 0 {
        Seq::empty()
    } else {
        let prev = confirmed_add_commands(regs.drop_last());
        if regs.last().status == RegStatus::Confirmed {
            prev.push("/whitelist add "@ + regs.last().factorio_name@)
        } else {
            prev
        }
    }
}

/// The startup whitelist commands are `/whitelist add <name>` for exactly the
/// confirmed registrations, in their order: registrations awaiting payment
/// or expired get none.
pub proof fn sync_adds_exactly_confirmed(regs: Seq<Registration>)
    ensures
        confirmed_add_commands(regs) == regs.filter(
            |r: Registration| r.status == RegStatus::Confirmed,
        ).map_values(|r: Registration| "/whitelist add "@ + r.factorio_name@),
    decreases regs.len(),
{
    reveal(Seq::filter);
    let pred = |r: Registration| r.status == RegStatus::Confirmed;
    let cmd = |r: Registration| "/whitelist add "@ + r.factorio_name@;
    if regs.len() > 0 {
        sync_adds_exactly_confirmed(regs.drop_last());
        assert(regs.filter(pred) == (if pred(regs.last()) {
            regs.drop_last().filter(pred).push(regs.last())
        } else {
            regs.drop_last().filter(pred)
        }));
        if pred(regs.last()) {
            assert(regs.filter(pred).map_values(cmd) =~= regs.drop_last().filter(pred).map_values(
                cmd,
            ).push(cmd(regs.last())));
        }
    } else {
        assert(regs.filter(pred).map_values(cmd) =~= Seq::<Seq<char>>::empty());
    }
}

/// Number of confirmed registrations with the given tier.
pub open spec fn confirmed_with_tier(regs: Seq<Registration>, tier: AccessTier) -> nat
    decreases regs.len(),
{
    if regs.len() == 0 {
        0
    } else {
        confirmed_with_tier(regs.drop_last(), tier) + if regs.last().status == RegStatus::Confirmed
            && regs.last().access_tier == tier {
            1nat
        } else {
            0nat
        }
    }
}

/// What the startup sync sends and counts.
pub struct WhitelistSync {
    pub commands: Vec<String>,
    pub players: u32,
    pub spectators: u32,
}

pub open spec fn command_views(v: Seq<String>) -> Seq<Seq<char>> {
    v.map_values(|c: String| c@)
}

proof fn lemma_confirmed_bounded(regs: Seq<Registration>, tier: AccessTier)
    ensures
        confirmed_with_tier(regs, tier) <= regs.len(),
    decreases regs.len(),
{
    if regs.len() > 0 {
        lemma_confirmed_bounded(regs.drop_last(), tier);
    }
}

/// The whitelist commands for a season's registrations, with the number of
/// confirmed players and confirmed spectators among them.
pub fn whitelist_sync_plan(regs: &Vec<Registration>) -> (r: WhitelistSync)
    requires
        regs@.len() <= u32::MAX,
    ensures
        command_views(r.commands@) == confirmed_add_commands(regs@),
        r.players == confirmed_with_tier(regs@, AccessTier::InstantPlayer),
        r.spectators == confirmed_with_tier(regs@, AccessTier::Standard),
{
    let mut commands: Vec<String> = Vec::new();
    let mut players: u32 = 0;
    let mut spectators: u32 = 0;
    let n = regs.len();
    let mut i: usize = 0;
    while i < n
        invariant
            n == regs@.len(),
            n <= u32::MAX,
            i <= n,
            command_views(commands@) == confirmed_add_commands(regs@.subrange(0, i as int)),
            players == confirmed_with_tier(regs@.subrange(0, i as int), AccessTier::InstantPlayer),
            spectators == confirmed_with_tier(regs@.subrange(0, i as int), AccessTier::Standard),
        decreases n - i,
    {
        let reg = &regs[i];
        let ghost pre = regs@.subrange(0, i as int);
        let ghost post = regs@.subrange(0, i + 1);
        proof {
            assert(post.drop_last() =~= pre);
            assert(post.last() == regs@[i as int]);
            lemma_confirmed_bounded(pre, AccessTier::InstantPlayer);
            lemma_confirmed_bounded(pre, AccessTier::Standard);
        }
        if reg.status == RegStatus::Confirmed {
            let cmd = whitelist_add_command(reg.factorio_name.as_str());
            let ghost prev = commands@;
            commands.push(cmd);
            proof {
                assert(command_views(commands@) =~= command_views(prev).push(cmd@));
            }
            match reg.access_tier {
                AccessTier::Standard => {
                    spectators = spectators + 1;
                },
                AccessTier::InstantPlayer => {
                    players = players + 1;
                },
            }
        }
        i = i + 1;
    }
    assert(regs@.subrange(0, n as int) =~= regs@);
    WhitelistSync { commands, players, spectators }
}


// ---------------------------------------------------------------------------
// The report format
// ---------------------------------------------------------------------------

/// How the report Lua writes one player: `name:group:alive`.
pub open spec fn render_entry(e: (Seq<char>, Seq<char>, Seq<char>)) -> Seq<char> {
    e.0 + seq![':'] + e.1 + seq![':'] + e.2
}

/// Pieces joined by commas.
pub open spec fn join_commas(ps: Seq<Seq<char>>) -> Seq<char>
    decreases ps.len(),
{
    if ps.len() <= 1 {
        if ps.len() == 0 {
            Seq::empty()
        } else {
            ps[0]
        }
    } else {
        ps[0] + seq![','] + join_commas(ps.drop_first())
    }
}

/// The report the Lua writes for a list of players.
pub open spec fn render_report(es: Seq<(Seq<char>, Seq<char>, Seq<char>)>) -> Seq<char> {
    join_commas(es.map_values(|e: (Seq<char>, Seq<char>, Seq<char>)| render_entry(e)))
}

/// A player entry the report format can carry: no `:` or `,` in the name or
/// the group, no `,` in the rest.
pub open spec fn reportable(e: (Seq<char>, Seq<char>, Seq<char>)) -> bool {
    &&& !e.0.contains(':') && !e.0.contains(',')
    &&& !e.1.contains(':') && !e.1.contains(',')
    &&& !e.2.contains(',')
}

proof fn lemma_split_join(ps: Seq<Seq<char>>)
    requires
        ps.len() >= 1,
        forall|i: int| 0 <= i < ps.len() ==> !(#[trigger] ps[i]).contains(','),
    ensures
        split_on(join_commas(ps), ',') == ps,
    decreases ps.len(),
{
    let p0 = ps[0];
    assert forall|i: int| 0 <= i < p0.len() implies p0[i] != ',' by {
        if p0[i] == ',' {
            assert(p0.contains(','));
        }
    }
    if ps.len() == 1 {
        lemma_split_first_piece(p0, ',', p0.len() as int);
        assert(seq![p0] =~= ps);
    } else {
        let rest = ps.drop_first();
        assert forall|i: int| 0 <= i < rest.len() implies !(#[trigger] rest[i]).contains(',') by {
            assert(rest[i] == ps[i + 1]);
        }
        lemma_split_join(rest);
        let t = join_commas(ps);
        assert(t == p0 + seq![','] + join_commas(rest));
        assert forall|i: int| 0 <= i < p0.len() implies t[i] != ',' by {
            assert(t[i] == p0[i]);
        }
        assert(t[p0.len() as int] == ',');
        lemma_split_first_piece(t, ',', p0.len() as int);
        assert(t.subrange(0, p0.len() as int) =~= p0);
        assert(t.subrange(p0.len() as int + 1, t.len() as int) =~= join_commas(rest));
        assert(seq![p0] + rest =~= ps);
    }
}

proof fn lemma_no_char_first_index(s: Seq<char>, c: char)
    requires
        !s.contains(c),
    ensures
        forall|i: int| 0 <= i < s.len() ==> s[i] != c,
{
    assert forall|i: int| 0 <= i < s.len() implies s[i] != c by {
        if s[i] == c {
            assert(s.contains(c));
        }
    }
}

proof fn lemma_parse_rendered_entry(e: (Seq<char>, Seq<char>, Seq<char>))
    requires
        reportable(e),
    ensures
        parse_entry(render_entry(e)) == Some(e),
{
    let r = render_entry(e);
    let n0 = e.0.len() as int;
    lemma_no_char_first_index(e.0, ':');
    lemma_no_char_first_index(e.1, ':');
    assert forall|i: int| 0 <= i < n0 implies r[i] != ':' by {
        assert(r[i] == e.0[i]);
    }
    assert(r[n0] == ':');
    lemma_first_index_at(r, ':', n0);
    let rest = r.subrange(n0 + 1, r.len() as int);
    assert(rest =~= e.1 + seq![':'] + e.2);
    let n1 = e.1.len() as int;
    assert forall|i: int| 0 <= i < n1 implies rest[i] != ':' by {
        assert(rest[i] == e.1[i]);
    }
    assert(rest[n1] == ':');
    lemma_first_index_at(rest, ':', n1);
    assert(r.subrange(0, n0) =~= e.0);
    assert(rest.subrange(0, n1) =~= e.1);
    assert(rest.subrange(n1 + 1, rest.len() as int) =~= e.2);
}

proof fn lemma_entries_of_all_parse(es: Seq<(Seq<char>, Seq<char>, Seq<char>)>)
    requires
        forall|i: int| 0 <= i < es.len() ==> reportable(#[trigger] es[i]),
    ensures
        entries_of(es.map_values(|e: (Seq<char>, Seq<char>, Seq<char>)| render_entry(e))) == es,
    decreases es.len(),
{
    let ps = es.map_values(|e: (Seq<char>, Seq<char>, Seq<char>)| render_entry(e));
    if es.len() > 0 {
        let front = es.drop_last();
        assert forall|i: int| 0 <= i < front.len() implies reportable(#[trigger] front[i]) by {
            assert(front[i] == es[i]);
        }
        lemma_entries_of_all_parse(front);
        assert(ps.drop_last() =~= front.map_values(
            |e: (Seq<char>, Seq<char>, Seq<char>)| render_entry(e),
        ));
        lemma_parse_rendered_entry(es.last());
        assert(ps.last() == render_entry(es.last()));
        assert(front.push(es.last()) =~= es);
    }
}

/// The poller reads back exactly the players the report Lua lists, in order,
/// provided names and groups hold no `:` or `,` and the rest holds no `,`.
pub proof fn report_reads_back_players(es: Seq<(Seq<char>, Seq<char>, Seq<char>)>)
    requires
        es.len() >= 1,
        forall|i: int| 0 <= i < es.len() ==> reportable(#[trigger] es[i]),
    ensures
        report_entries(render_report(es)) == es,
{
    let ps = es.map_values(|e: (Seq<char>, Seq<char>, Seq<char>)| render_entry(e));
    assert forall|i: int| 0 <= i < ps.len() implies !(#[trigger] ps[i]).contains(',') by {
        let e = es[i];
        assert(ps[i] == render_entry(e));
        lemma_no_char_first_index(e.0, ',');
        lemma_no_char_first_index(e.1, ',');
        lemma_no_char_first_index(e.2, ',');
        if ps[i].contains(',') {
            let k = choose|k: int| 0 <= k < ps[i].len() && ps[i][k] == ',';
            let r = render_entry(e);
            let a = e.0.len() as int;
            let b = a + 1 + e.1.len();
            if k < a {
                assert(r[k] == e.0[k]);
            } else if k == a {
                assert(r[k] == ':');
            } else if k < b {
                assert(r[k] == e.1[k - a - 1]);
            } else if k == b {
                assert(r[k] == ':');
            } else {
                assert(r[k] == e.2[k - b - 1]);
            }
        }
    }
    lemma_split_join(ps);
    lemma_entries_of_all_parse(es);
}


/// Only a confirmed instant player is put in the full-access group; everyone
/// else is kept a spectator.
pub proof fn full_access_only_for_confirmed_players(reg: Option<Registration>)
    ensures
        spec_desired_group(reg) == "Default"@ <==> (reg matches Some(r) && r.status
            == RegStatus::Confirmed && r.access_tier == AccessTier::InstantPlayer),
        spec_desired_group(reg) == "Default"@ || spec_desired_group(reg) == "Spectators"@,
{
    reveal_strlit("Default");
    reveal_strlit("Spectators");
    assert("Default"@.len() != "Spectators"@.len());
}

/// A death demotes only a player who currently has full access.
pub proof fn only_full_access_players_are_demoted(hardcore: bool, alive: Seq<char>, reg: Option<Registration>)
    requires
        spec_needs_demotion(hardcore, alive, reg),
    ensures
        spec_desired_group(reg) == "Default"@,
{
}

} // verus!
