//! The domain: validated identifiers and amounts, the status enums with their
//! database spellings, the season/registration/promo records, and the pricing
//! and promo rules.
use vstd::prelude::*;
use vstd::string::*;
use vstd::utf8::is_ascii_chars;

use crate::error::{AppError, AppResult};
use crate::text::{
    ascii_lowercase_seq, no_ascii_capitals, decimal, decimal_int, is_ascii_graphic, is_digit, is_hex_digit, lowercase_of, push_decimal, utf8_len, byte_len, str_eq, push_str,
    push_decimal_i64, to_lowercase,
};
use crate::time::Timestamp;

verus! {

// ---------------------------------------------------------------------------
// SeasonId
// ---------------------------------------------------------------------------

/// A season number; always positive.
#[derive(Debug, Clone, Copy, PartialEq, Eq, Structural)]
pub struct SeasonId(i64);

impl View for SeasonId {
    type V = i64;

    closed spec fn view(&self) -> i64 {
        self.0
    }
}

impl SeasonId {
    #[verifier::type_invariant]
    closed spec fn positive(self) -> bool {
        self.0 > 0
    }

    /// A season id is valid exactly when positive.
    pub fn new(id: i64) -> (r: AppResult<Self>)
        ensures
            id > 0 ==> (r matches Ok(s) && s@ == id),
            id <= 0 ==> (r matches Err(e) && e.is_bad_request(
                "season id must be positive, got "@ + decimal_int(id as int),
            )),
    {
        if id > 0 {
            Ok(SeasonId(id))
        } else {
            let mut m = String::from_str("season id must be positive, got ");
            push_decimal_i64(&mut m, id);
            Err(AppError::BadRequest(m))
        }
    }

    pub fn as_i64(self) -> (r: i64)
        ensures
            r == self@,
            r > 0,
    {
        proof {
            use_type_invariant(&self);
        }
        self.0
    }

    /// The season that follows this one.
    pub closed spec fn spec_next(self) -> SeasonId {
        SeasonId((self.0 + 1) as i64)
    }

    /// The season that follows this one.
    pub fn next(self) -> (r: Self)
        requires
            self@ < i64::MAX,
        ensures
            r@ == self@ + 1,
            r == self.spec_next(),
    {
        proof {
            use_type_invariant(&self);
        }
        SeasonId(self.0 + 1)
    }
}

/// The season after `s` is numbered one more than `s`.
pub proof fn season_id_next_is_successor(s: SeasonId)
    requires
        s@ < i64::MAX,
    ensures
        s.spec_next()@ == s@ + 1,
{
}

// ---------------------------------------------------------------------------
// FactorioName
// ---------------------------------------------------------------------------

pub open spec fn is_name_char(c: char) -> bool {
    is_ascii_graphic(c) || c == ' '
}

/// Why a string is not a Factorio player name, if it is not one: it must be
/// 1 to 50 bytes of printable ASCII (space included).
pub open spec fn factorio_name_error(s: Seq<char>) -> Option<Seq<char>> {
    if s.len() == 0 || utf8_len(s) > 50 {
        Some("factorio name must be 1-50 characters"@)
    } else if !(forall|i: int| 0 <= i < s.len() ==> is_name_char(#[trigger] s[i])) {
        Some("factorio name must contain only printable ASCII"@)
    } else {
        None
    }
}

/// A validated Factorio player name.
#[derive(Debug)]
pub struct FactorioName(String);

impl Clone for FactorioName {
    fn clone(&self) -> (r: Self)
        ensures
            r == *self,
    {
        proof {
            use_type_invariant(self);
        }
        FactorioName(self.0.clone())
    }
}

impl View for FactorioName {
    type V = Seq<char>;

    closed spec fn view(&self) -> Seq<char> {
        self.0@
    }
}

impl FactorioName {
    #[verifier::type_invariant]
    closed spec fn valid(self) -> bool {
        factorio_name_error(self.0@) is None
    }

    pub fn as_str(&self) -> (r: &str)
        ensures
            r@ == self@,
            factorio_name_error(self@) is None,
    {
        proof {
            use_type_invariant(self);
        }
        self.0.as_str()
    }

    /// Accepts a name of 1 to 50 bytes of printable ASCII and refuses any other.
    pub fn try_from(s: String) -> (r: AppResult<Self>)
        ensures
            match factorio_name_error(s@) {
                None => r matches Ok(n) && n@ == s@,
                Some(m) => r matches Err(e) && e.is_bad_request(m),
            },
    {
        if s.as_str().is_empty() || byte_len(s.as_str()) > 50 {
            return Err(AppError::BadRequest(
                String::from_str("factorio name must be 1-50 characters"),
            ));
        }
        let n = s.as_str().unicode_len();
        let mut i: usize = 0;
        while i < n
            invariant
                n == s@.len(),
                i <= n,
                !(s@.len() == 0 || utf8_len(s@) > 50),
                forall|k: int| 0 <= k < i ==> is_name_char(#[trigger] s@[k]),
            decreases n - i,
        {
            let c = s.as_str().get_char(i);
            if !(('!' <= c && c <= '~') || c == ' ') {
                assert(!is_name_char(s@[i as int]));
                return Err(AppError::BadRequest(
                    String::from_str("factorio name must contain only printable ASCII"),
                ));
            }
            i = i + 1;
        }
        Ok(FactorioName(s))
    }
}

// ---------------------------------------------------------------------------
// EthAddress
// ---------------------------------------------------------------------------

/// Why a (lowercased) string is not an Ethereum address, if it is not one:
/// it must be 42 bytes, `0x` and then hex digits.
pub open spec fn eth_address_error(l: Seq<char>) -> Option<Seq<char>> {
    if utf8_len(l) != 42 {
        Some("eth address must be 42 characters (0x + 40 hex)"@)
    } else if !(l.len() >= 2 && l[0] == '0' && l[1] == 'x') {
        Some("eth address must start with 0x"@)
    } else if !(forall|i: int| 2 <= i < l.len() ==> is_hex_digit(#[trigger] l[i])) {
        Some("eth address must contain only hex digits after 0x"@)
    } else {
        None
    }
}

/// An Ethereum address, normalized to lower case.
#[derive(Debug)]
pub struct EthAddress(String);

impl Clone for EthAddress {
    fn clone(&self) -> (r: Self)
        ensures
            r == *self,
    {
        proof {
            use_type_invariant(self);
        }
        EthAddress(self.0.clone())
    }
}

impl View for EthAddress {
    type V = Seq<char>;

    closed spec fn view(&self) -> Seq<char> {
        self.0@
    }
}

impl EthAddress {
    #[verifier::type_invariant]
    closed spec fn valid(self) -> bool {
        &&& eth_address_error(self.0@) is None
        &&& no_ascii_capitals(self.0@)
    }

    pub fn as_str(&self) -> (r: &str)
        ensures
            r@ == self@,
            eth_address_error(self@) is None,
            no_ascii_capitals(self@),
    {
        proof {
            use_type_invariant(self);
        }
        self.0.as_str()
    }

    /// Lowercases the input, then accepts it when it is `0x` and 40 hex digits.
    pub fn try_from(s: String) -> (r: AppResult<Self>)
        ensures
            is_ascii_chars(s@) ==> lowercase_of(s@) == ascii_lowercase_seq(s@),
            no_ascii_capitals(lowercase_of(s@)),
            match eth_address_error(lowercase_of(s@)) {
                None => r matches Ok(a) && a@ == lowercase_of(s@),
                Some(m) => r matches Err(e) && e.is_bad_request(m),
            },
    {
        let l = to_lowercase(s.as_str());
        if byte_len(l.as_str()) != 42 {
            return Err(AppError::BadRequest(
                String::from_str("eth address must be 42 characters (0x + 40 hex)"),
            ));
        }
        let n = l.as_str().unicode_len();
        if !(n >= 2 && l.as_str().get_char(0) == '0' && l.as_str().get_char(1) == 'x') {
            return Err(AppError::BadRequest(String::from_str("eth address must start with 0x")));
        }
        let mut i: usize = 2;
        while i < n
            invariant
                n == l@.len(),
                2 <= i <= n,
                utf8_len(l@) == 42,
                l@[0] == '0' && l@[1] == 'x',
                l@ == lowercase_of(s@),
                no_ascii_capitals(l@),
                is_ascii_chars(s@) ==> lowercase_of(s@) == ascii_lowercase_seq(s@),
                forall|k: int| 2 <= k < i ==> is_hex_digit(#[trigger] l@[k]),
            decreases n - i,
        {
            let c = l.as_str().get_char(i);
            if !(('0' <= c && c <= '9') || ('a' <= c && c <= 'f') || ('A' <= c && c <= 'F')) {
                assert(!is_hex_digit(l@[i as int]));
                return Err(AppError::BadRequest(
                    String::from_str("eth address must contain only hex digits after 0x"),
                ));
            }
            i = i + 1;
        }
        Ok(EthAddress(l))
    }
}

/// An accepted address reads back as itself: it is ASCII without capitals,
/// so `EthAddress::try_from` lowercases it to itself and accepts it again.
/// (`EthAddress::as_str` gives both premises of every address.)
pub proof fn eth_address_reads_back(a: Seq<char>)
    requires
        eth_address_error(a) is None,
        no_ascii_capitals(a),
    ensures
        is_ascii_chars(a),
        ascii_lowercase_seq(a) == a,
{
    assert forall|i: int| 0 <= i < a.len() implies '\0' <= #[trigger] a[i] <= '\u{7f}' by {
        if i >= 2 {
            assert(is_hex_digit(a[i]));
        }
    }
    assert(ascii_lowercase_seq(a) =~= a);
}

// ---------------------------------------------------------------------------
// Wei
// ---------------------------------------------------------------------------

pub open spec fn all_digits(s: Seq<char>) -> bool {
    forall|i: int| 0 <= i < s.len() ==> is_digit(#[trigger] s[i])
}

/// An amount of wei, written as non-negative decimal digits.
#[derive(Debug)]
pub struct Wei(String);

impl Clone for Wei {
    fn clone(&self) -> (r: Self)
        ensures
            r == *self,
    {
        proof {
            use_type_invariant(self);
        }
        Wei(self.0.clone())
    }
}

impl View for Wei {
    type V = Seq<char>;

    closed spec fn view(&self) -> Seq<char> {
        self.0@
    }
}

/// The amount a wei string denotes: all its digits are zero.
pub open spec fn spec_wei_is_zero(s: Seq<char>) -> bool {
    forall|i: int| 0 <= i < s.len() ==> #[trigger] s[i] == '0'
}

impl Wei {
    #[verifier::type_invariant]
    closed spec fn valid(self) -> bool {
        self.0@.len() > 0 && all_digits(self.0@)
    }

    /// Accepts a non-empty string of decimal digits.
    pub fn from_decimal(s: String) -> (r: AppResult<Self>)
        ensures
            s@.len() == 0 ==> (r matches Err(e) && e.is_bad_request("wei amount cannot be empty"@)),
            s@.len() > 0 && !all_digits(s@) ==> (r matches Err(e) && e.is_bad_request(
                "wei amount must be non-negative decimal digits"@,
            )),
            s@.len() > 0 && all_digits(s@) ==> (r matches Ok(w) && w@ == s@),
    {
        if s.as_str().is_empty() {
            return Err(AppError::BadRequest(String::from_str("wei amount cannot be empty")));
        }
        let n = s.as_str().unicode_len();
        let mut i: usize = 0;
        while i < n
            invariant
                n == s@.len(),
                i <= n,
                forall|k: int| 0 <= k < i ==> is_digit(#[trigger] s@[k]),
            decreases n - i,
        {
            let c = s.as_str().get_char(i);
            if !('0' <= c && c <= '9') {
                assert(!is_digit(s@[i as int]));
                return Err(AppError::BadRequest(
                    String::from_str("wei amount must be non-negative decimal digits"),
                ));
            }
            i = i + 1;
        }
        Ok(Wei(s))
    }

    pub fn zero() -> (r: Self)
        ensures
            r@ == "0"@,
    {
        proof {
            reveal_strlit("0");
        }
        let s = String::from_str("0");
        assert(s@.len() == 1 && s@[0] == '0');
        Wei(s)
    }

    /// True when every digit is `0`.
    pub fn is_zero(&self) -> (r: bool)
        ensures
            r == spec_wei_is_zero(self@),
    {
        let n = self.0.as_str().unicode_len();
        let mut i: usize = 0;
        while i < n
            invariant
                n == self.0@.len(),
                i <= n,
                forall|k: int| 0 <= k < i ==> #[trigger] self.0@[k] == '0',
            decreases n - i,
        {
            if self.0.as_str().get_char(i) != '0' {
                return false;
            }
            i = i + 1;
        }
        true
    }

    pub fn as_str(&self) -> (r: &str)
        ensures
            r@ == self@,
            r@.len() > 0,
            all_digits(r@),
    {
        proof {
            use_type_invariant(self);
        }
        self.0.as_str()
    }
}

// ---------------------------------------------------------------------------
// DiscountPercent
// ---------------------------------------------------------------------------

/// A promo discount between 0 and 100 percent.
#[derive(Debug, Clone, Copy, PartialEq, Eq, Structural)]
pub struct DiscountPercent(u8);

impl View for DiscountPercent {
    type V = u8;

    closed spec fn view(&self) -> u8 {
        self.0
    }
}

impl DiscountPercent {
    #[verifier::type_invariant]
    closed spec fn in_range(self) -> bool {
        self.0 <= 100
    }

    pub fn as_u8(self) -> (r: u8)
        ensures
            r == self@,
            r <= 100,
    {
        proof {
            use_type_invariant(&self);
        }
        self.0
    }

    pub fn is_full_discount(self) -> (r: bool)
        ensures
            r == (self@ == 100),
    {
        self.0 == 100
    }

    /// Accepts 0 to 100.
    pub fn try_from(v: u8) -> (r: AppResult<Self>)
        ensures
            v <= 100 ==> (r matches Ok(d) && d@ == v),
            v > 100 ==> (r matches Err(e) && e.is_bad_request(
                "discount percent must be 0..=100, got "@ + decimal(v as nat),
            )),
    {
        if v > 100 {
            let mut m = String::from_str("discount percent must be 0..=100, got ");
            push_decimal(&mut m, v as u128);
            Err(AppError::BadRequest(m))
        } else {
            Ok(DiscountPercent(v))
        }
    }
}


// ---------------------------------------------------------------------------
// Enums and their database spellings
// ---------------------------------------------------------------------------

/// What a registration grants in game.
#[derive(Debug, Clone, Copy, PartialEq, Eq, Structural)]
pub enum AccessTier {
    Standard,
    InstantPlayer,
}

impl AccessTier {
    pub open spec fn spec_db_str(self) -> Seq<char> {
        match self {
            AccessTier::Standard => "standard"@,
            AccessTier::InstantPlayer => "instant_player"@,
        }
    }

    pub open spec fn spec_from_db(s: Seq<char>) -> Option<AccessTier> {
        if s == "standard"@ {
            Some(AccessTier::Standard)
        } else if s == "instant_player"@ {
            Some(AccessTier::InstantPlayer)
        } else {
            None
        }
    }

    pub fn as_db_str(self) -> (r: &'static str)
        ensures
            r@ == self.spec_db_str(),
    {
        match self {
            AccessTier::Standard => "standard",
            AccessTier::InstantPlayer => "instant_player",
        }
    }

    /// Reads the database spelling; any other string is refused.
    pub fn try_from(s: &str) -> (r: AppResult<Self>)
        ensures
            match Self::spec_from_db(s@) {
                Some(t) => r == Ok::<AccessTier, AppError>(t),
                None => (r matches Err(e) && e.is_bad_request("unknown access tier: "@ + s@)),
            },
    {
        if str_eq(s, "standard") {
            Ok(AccessTier::Standard)
        } else if str_eq(s, "instant_player") {
            Ok(AccessTier::InstantPlayer)
        } else {
            let mut m = String::from_str("unknown access tier: ");
            push_str(&mut m, s);
            Err(AppError::BadRequest(m))
        }
    }
}

/// Where a season is in its life.
#[derive(Debug, Clone, Copy, PartialEq, Eq, Structural)]
pub enum SeasonStatus {
    Pending,
    Active,
    Archived,
}

impl SeasonStatus {
    pub open spec fn spec_db_str(self) -> Seq<char> {
        match self {
            SeasonStatus::Pending => "pending"@,
            SeasonStatus::Active => "active"@,
            SeasonStatus::Archived => "archived"@,
        }
    }

    pub open spec fn spec_from_db(s: Seq<char>) -> Option<SeasonStatus> {
        if s == "pending"@ {
            Some(SeasonStatus::Pending)
        } else if s == "active"@ {
            Some(SeasonStatus::Active)
        } else if s == "archived"@ {
            Some(SeasonStatus::Archived)
        } else {
            None
        }
    }

    pub fn as_db_str(self) -> (r: &'static str)
        ensures
            r@ == self.spec_db_str(),
    {
        match self {
            SeasonStatus::Pending => "pending",
            SeasonStatus::Active => "active",
            SeasonStatus::Archived => "archived",
        }
    }

    /// Reads the database spelling; any other string is refused.
    pub fn try_from(s: &str) -> (r: AppResult<Self>)
        ensures
            match Self::spec_from_db(s@) {
                Some(t) => r == Ok::<SeasonStatus, AppError>(t),
                None => (r matches Err(e) && e.is_bad_request("unknown season status: "@ + s@)),
            },
    {
        if str_eq(s, "pending") {
            Ok(SeasonStatus::Pending)
        } else if str_eq(s, "active") {
            Ok(SeasonStatus::Active)
        } else if str_eq(s, "archived") {
            Ok(SeasonStatus::Archived)
        } else {
            let mut m = String::from_str("unknown season status: ");
            push_str(&mut m, s);
            Err(AppError::BadRequest(m))
        }
    }
}

/// Where a registration is in its payment life.
#[derive(Debug, Clone, Copy, PartialEq, Eq, Structural)]
pub enum RegStatus {
    AwaitingPayment,
    Confirmed,
    Expired,
}

impl RegStatus {
    pub open spec fn spec_db_str(self) -> Seq<char> {
        match self {
            RegStatus::AwaitingPayment => "awaiting_payment"@,
            RegStatus::Confirmed => "confirmed"@,
            RegStatus::Expired => "expired"@,
        }
    }

    pub open spec fn spec_from_db(s: Seq<char>) -> Option<RegStatus> {
        if s == "awaiting_payment"@ {
            Some(RegStatus::AwaitingPayment)
        } else if s == "confirmed"@ {
            Some(RegStatus::Confirmed)
        } else if s == "expired"@ {
            Some(RegStatus::Expired)
        } else {
            None
        }
    }

    pub fn as_db_str(self) -> (r: &'static str)
        ensures
            r@ == self.spec_db_str(),
    {
        match self {
            RegStatus::AwaitingPayment => "awaiting_payment",
            RegStatus::Confirmed => "confirmed",
            RegStatus::Expired => "expired",
        }
    }

    /// Reads the database spelling; any other string is refused.
    pub fn try_from(s: &str) -> (r: AppResult<Self>)
        ensures
            match Self::spec_from_db(s@) {
                Some(t) => r == Ok::<RegStatus, AppError>(t),
                None => (r matches Err(e) && e.is_bad_request("unknown registration status: "@ + s@)),
            },
    {
        if str_eq(s, "awaiting_payment") {
            Ok(RegStatus::AwaitingPayment)
        } else if str_eq(s, "confirmed") {
            Ok(RegStatus::Confirmed)
        } else if str_eq(s, "expired") {
            Ok(RegStatus::Expired)
        } else {
            let mut m = String::from_str("unknown registration status: ");
            push_str(&mut m, s);
            Err(AppError::BadRequest(m))
        }
    }
}

/// Reading back the database spelling of an access tier gives the same tier,
/// and distinct tiers are spelled differently.
pub proof fn access_tier_db_roundtrip(t: AccessTier, u: AccessTier)
    ensures
        AccessTier::spec_from_db(t.spec_db_str()) == Some(t),
        t.spec_db_str() == u.spec_db_str() ==> t == u,
{
    reveal_strlit("standard");
    reveal_strlit("instant_player");
    assert("standard"@.len() != "instant_player"@.len());
}

/// Reading back the database spelling of a season status gives the same status,
/// and distinct statuses are spelled differently.
pub proof fn season_status_db_roundtrip(t: SeasonStatus, u: SeasonStatus)
    ensures
        SeasonStatus::spec_from_db(t.spec_db_str()) == Some(t),
        t.spec_db_str() == u.spec_db_str() ==> t == u,
{
    reveal_strlit("pending");
    reveal_strlit("active");
    reveal_strlit("archived");
    assert("pending"@.len() != "active"@.len());
    assert("pending"@[0] != "archived"@[0]);
    assert("active"@[1] != "archived"@[1]);
}

/// Reading back the database spelling of a registration status gives the same
/// status, and distinct statuses are spelled differently.
pub proof fn reg_status_db_roundtrip(t: RegStatus, u: RegStatus)
    ensures
        RegStatus::spec_from_db(t.spec_db_str()) == Some(t),
        t.spec_db_str() == u.spec_db_str() ==> t == u,
{
    reveal_strlit("awaiting_payment");
    reveal_strlit("confirmed");
    reveal_strlit("expired");
    assert("awaiting_payment"@.len() != "confirmed"@.len());
    assert("awaiting_payment"@.len() != "expired"@.len());
    assert("confirmed"@.len() != "expired"@.len());
}

/// The database spellings are these literals: `awaiting_payment`,
/// `confirmed` and `expired` for the registration statuses, `pending`,
/// `active` and `archived` for the season statuses, `standard` and
/// `instant_player` for the access tiers; each reads back as its own value.
pub proof fn db_spellings_are_fixed()
    ensures
        RegStatus::AwaitingPayment.spec_db_str() == "awaiting_payment"@,
        RegStatus::Confirmed.spec_db_str() == "confirmed"@,
        RegStatus::Expired.spec_db_str() == "expired"@,
        RegStatus::spec_from_db("awaiting_payment"@) == Some(RegStatus::AwaitingPayment),
        RegStatus::spec_from_db("confirmed"@) == Some(RegStatus::Confirmed),
        RegStatus::spec_from_db("expired"@) == Some(RegStatus::Expired),
        SeasonStatus::Pending.spec_db_str() == "pending"@,
        SeasonStatus::Active.spec_db_str() == "active"@,
        SeasonStatus::Archived.spec_db_str() == "archived"@,
        SeasonStatus::spec_from_db("pending"@) == Some(SeasonStatus::Pending),
        SeasonStatus::spec_from_db("active"@) == Some(SeasonStatus::Active),
        SeasonStatus::spec_from_db("archived"@) == Some(SeasonStatus::Archived),
        AccessTier::Standard.spec_db_str() == "standard"@,
        AccessTier::InstantPlayer.spec_db_str() == "instant_player"@,
        AccessTier::spec_from_db("standard"@) == Some(AccessTier::Standard),
        AccessTier::spec_from_db("instant_player"@) == Some(AccessTier::InstantPlayer),
{
    reg_status_db_roundtrip(RegStatus::AwaitingPayment, RegStatus::AwaitingPayment);
    reg_status_db_roundtrip(RegStatus::Confirmed, RegStatus::Confirmed);
    reg_status_db_roundtrip(RegStatus::Expired, RegStatus::Expired);
    season_status_db_roundtrip(SeasonStatus::Pending, SeasonStatus::Pending);
    season_status_db_roundtrip(SeasonStatus::Active, SeasonStatus::Active);
    season_status_db_roundtrip(SeasonStatus::Archived, SeasonStatus::Archived);
    access_tier_db_roundtrip(AccessTier::Standard, AccessTier::Standard);
    access_tier_db_roundtrip(AccessTier::InstantPlayer, AccessTier::InstantPlayer);
}

// ---------------------------------------------------------------------------
// Records
// ---------------------------------------------------------------------------

/// One season of the server.
#[derive(Debug, Clone)]
pub struct Season {
    pub id: SeasonId,
    pub status: SeasonStatus,
    pub started_at: Timestamp,
    pub ends_at: Timestamp,
    pub map_seed: Option<String>,
    pub save_path: Option<String>,
    pub created_at: Timestamp,
}

/// A player's registration for one season; `id` is the 128-bit value of its UUID.
#[derive(Debug, Clone)]
pub struct Registration {
    pub id: u128,
    pub season_id: SeasonId,
    pub factorio_name: FactorioName,
    pub eth_address: EthAddress,
    pub promo_code: Option<String>,
    pub tx_hash: Option<String>,
    pub status: RegStatus,
    pub access_tier: AccessTier,
    pub amount_wei: Wei,
    pub created_at: Timestamp,
    pub confirmed_at: Option<Timestamp>,
    pub deaths: u32,
}

/// A promo code and its usage.
#[derive(Debug, Clone)]
pub struct PromoCode {
    pub code: String,
    pub discount_percent: DiscountPercent,
    pub grants_instant_player: bool,
    pub max_uses: Option<u32>,
    pub times_used: u32,
    pub active: bool,
    pub created_at: Timestamp,
    pub expires_at: Option<Timestamp>,
}

// ---------------------------------------------------------------------------
// Rules
// ---------------------------------------------------------------------------

pub open spec fn spec_access_tier(promo: Option<PromoCode>) -> AccessTier {
    match promo {
        Some(p) => if p.grants_instant_player {
            AccessTier::InstantPlayer
        } else {
            AccessTier::Standard
        },
        None => AccessTier::Standard,
    }
}

/// A registration plays at once only through a promo that grants it.
pub fn determine_access_tier(promo: Option<&PromoCode>) -> (r: AccessTier)
    ensures
        r == spec_access_tier(
            match promo {
                Some(p) => Some(*p),
                None => None,
            },
        ),
{
    match promo {
        Some(p) => if p.grants_instant_player {
            AccessTier::InstantPlayer
        } else {
            AccessTier::Standard
        },
        None => AccessTier::Standard,
    }
}

pub open spec fn spec_initial_status(amount_is_zero: bool) -> RegStatus {
    if amount_is_zero {
        RegStatus::Confirmed
    } else {
        RegStatus::AwaitingPayment
    }
}

/// A free registration is confirmed at once; any other awaits payment.
pub fn determine_initial_status(amount_is_zero: bool) -> (r: RegStatus)
    ensures
        r == spec_initial_status(amount_is_zero),
{
    if amount_is_zero {
        RegStatus::Confirmed
    } else {
        RegStatus::AwaitingPayment
    }
}

/// Whether a promo may be used at `now`: it must be active, not past its
/// expiry, and not used up, checked in that order.
pub open spec fn spec_promo_usable(promo: PromoCode, now: Timestamp) -> Result<(), AppError> {
    if !promo.active {
        Err(AppError::InvalidPromoCode)
    } else if promo.expires_at matches Some(exp) && exp.spec_before(now) {
        Err(AppError::PromoExpired)
    } else if promo.max_uses matches Some(max) && promo.times_used >= max {
        Err(AppError::PromoExhausted)
    } else {
        Ok(())
    }
}

pub fn validate_promo_usable(promo: &PromoCode, now: Timestamp) -> (r: Result<(), AppError>)
    ensures
        r == spec_promo_usable(*promo, now),
{
    if !promo.active {
        return Err(AppError::InvalidPromoCode);
    }
    if let Some(expires) = promo.expires_at {
        if expires.is_before(&now) {
            return Err(AppError::PromoExpired);
        }
    }
    if let Some(max) = promo.max_uses {
        if promo.times_used >= max {
            return Err(AppError::PromoExhausted);
        }
    }
    Ok(())
}

/// The fee after a discount of `d` percent, rounded as integer division does.
pub open spec fn discounted_fee(base_fee: nat, d: nat) -> int {
    base_fee - (base_fee * d) / 100
}

/// The price of a registration: the discounted fee plus the season's offset,
/// or nothing at all when the discount leaves nothing to pay.
pub open spec fn spec_effective_price(base_fee: nat, d: nat, offset: nat) -> int {
    let effective = discounted_fee(base_fee, d);
    if effective == 0 {
        0
    } else {
        effective + offset
    }
}

/// The inputs on which the price arithmetic stays within `u128`.
pub open spec fn effective_price_fits(base_fee: nat, d: nat, offset: nat) -> bool {
    &&& base_fee * d <= u128::MAX
    &&& spec_effective_price(base_fee, d, offset) <= u128::MAX
}

proof fn lemma_discount_bounds(base_fee: nat, d: nat)
    requires
        d <= 100,
    ensures
        0 <= (base_fee * d) / 100 <= base_fee,
{
    assert((base_fee * d) / 100 <= base_fee) by (nonlinear_arith)
        requires d <= 100;
}

pub fn compute_effective_price(base_fee: u128, discount: DiscountPercent, offset: u64) -> (r: u128)
    requires
        effective_price_fits(base_fee as nat, discount@ as nat, offset as nat),
    ensures
        r == spec_effective_price(base_fee as nat, discount@ as nat, offset as nat),
{
    let d = discount.as_u8();
    proof {
        lemma_discount_bounds(base_fee as nat, d as nat);
    }
    let discount_amount = base_fee * (d as u128) / 100;
    let effective = base_fee - discount_amount;
    if effective == 0 {
        0
    } else {
        effective + (offset as u128)
    }
}

/// `b` raised to the `e`-th power.
pub open spec fn power(b: nat, e: nat) -> nat
    decreases e,
{
    if e == 0 {
        1
    } else {
        b * power(b, (e - 1) as nat)
    }
}

/// The price to buy back in after `deaths` deaths: the base fee multiplied
/// by `multiplier` once per death, plus the season's offset.
pub open spec fn spec_rebuy_price(base_fee: nat, multiplier: nat, deaths: nat, offset: nat) -> nat {
    base_fee * power(multiplier, deaths) + offset
}

/// The inputs on which the rebuy arithmetic stays within `u128`.
pub open spec fn rebuy_price_fits(base_fee: nat, multiplier: nat, deaths: nat, offset: nat) -> bool {
    &&& power(multiplier, deaths) <= u128::MAX
    &&& spec_rebuy_price(base_fee, multiplier, deaths, offset) <= u128::MAX
}

proof fn lemma_power_monotone(b: nat, i: nat, j: nat)
    requires
        b >= 1,
        i <= j,
    ensures
        power(b, i) <= power(b, j),
        power(b, i) >= 1,
    decreases j,
{
    if j > 0 {
        if i < j {
            lemma_power_monotone(b, i, (j - 1) as nat);
        }
        lemma_power_monotone(b, 0, (j - 1) as nat);
        assert(b * power(b, (j - 1) as nat) >= power(b, (j - 1) as nat)) by (nonlinear_arith)
            requires b >= 1, power(b, (j - 1) as nat) >= 1;
    }
}

/// `multiplier.pow(deaths)` in `u128`.
fn pow_u128(multiplier: u128, deaths: u32) -> (r: u128)
    requires
        power(multiplier as nat, deaths as nat) <= u128::MAX,
    ensures
        r == power(multiplier as nat, deaths as nat),
{
    let mut p: u128 = 1;
    let mut i: u32 = 0;
    while i < deaths
        invariant
            i <= deaths,
            p == power(multiplier as nat, i as nat),
            power(multiplier as nat, deaths as nat) <= u128::MAX,
        decreases deaths - i,
    {
        proof {
            if multiplier >= 1 {
                lemma_power_monotone(multiplier as nat, (i + 1) as nat, deaths as nat);
            } else {
                assert(power(multiplier as nat, (i + 1) as nat) == 0);
            }
            assert(power(multiplier as nat, (i + 1) as nat) == multiplier * power(
                multiplier as nat,
                i as nat,
            ));
            assert(p * multiplier == multiplier * p) by (nonlinear_arith);
        }
        p = p * multiplier;
        i = i + 1;
    }
    p
}

pub fn compute_rebuy_price(base_fee: u128, multiplier: u32, deaths: u32, offset: u64) -> (r: u128)
    requires
        rebuy_price_fits(base_fee as nat, multiplier as nat, deaths as nat, offset as nat),
    ensures
        r == spec_rebuy_price(base_fee as nat, multiplier as nat, deaths as nat, offset as nat),
{
    let p = pow_u128(multiplier as u128, deaths);
    assert(base_fee * p <= u128::MAX) by (nonlinear_arith)
        requires base_fee * p + offset <= u128::MAX, offset >= 0;
    base_fee * p + (offset as u128)
}


/// Distinct offsets give distinct prices whenever something is left to pay,
/// so a payment's amount identifies the registration it belongs to.
pub proof fn effective_price_offset_identifies(base_fee: nat, d: nat, o1: nat, o2: nat)
    requires
        d <= 100,
        discounted_fee(base_fee, d) > 0,
        o1 != o2,
    ensures
        spec_effective_price(base_fee, d, o1) != spec_effective_price(base_fee, d, o2),
{
}

/// A full discount makes the registration free, whatever the offset.
pub proof fn full_discount_is_free(base_fee: nat, offset: nat)
    ensures
        spec_effective_price(base_fee, 100, offset) == 0,
{
    assert((base_fee * 100) / 100 == base_fee) by (nonlinear_arith);
}

/// Without a discount and without an offset the price is the base fee.
pub proof fn no_discount_costs_base_fee(base_fee: nat)
    ensures
        spec_effective_price(base_fee, 0, 0) == base_fee,
{
}

/// Each further death multiplies what a rebuy costs above the offset by the
/// multiplier.
pub proof fn rebuy_price_grows_by_multiplier(base_fee: nat, multiplier: nat, deaths: nat, offset: nat)
    ensures
        spec_rebuy_price(base_fee, multiplier, deaths + 1, offset) - offset == multiplier * (
        spec_rebuy_price(base_fee, multiplier, deaths, offset) - offset),
{
    assert(base_fee * (multiplier * power(multiplier, deaths)) == multiplier * (base_fee * power(
        multiplier,
        deaths,
    ))) by (nonlinear_arith);
}

} // verus!
