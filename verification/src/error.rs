use vstd::prelude::*;

verus! {

/// Every failure the backend reports.
#[derive(Debug, Clone)]
pub enum AppError {
    Config(String),
    BadRequest(String),
    NotFound,
    NoActiveSeason,
    InvalidPromoCode,
    PromoExpired,
    PromoExhausted,
    DuplicateRegistration,
    Unauthorized,
    Rcon(String),
    Rotation(String),
    Database(String),
    Io(String),
    Json(String),
}

pub type AppResult<T> = Result<T, AppError>;

impl AppError {
    /// True when `self` is a `BadRequest` carrying exactly `msg`.
    pub open spec fn is_bad_request(self, msg: Seq<char>) -> bool {
        self matches AppError::BadRequest(m) && m@ == msg
    }

    /// True when `self` is a `Config` error carrying exactly `msg`.
    pub open spec fn is_config(self, msg: Seq<char>) -> bool {
        self matches AppError::Config(m) && m@ == msg
    }

    pub open spec fn spec_status_code(self) -> u16 {
        match self {
            AppError::BadRequest(_) => 400,
            AppError::InvalidPromoCode => 400,
            AppError::PromoExpired => 400,
            AppError::PromoExhausted => 400,
            AppError::NotFound => 404,
            AppError::DuplicateRegistration => 409,
            AppError::Unauthorized => 401,
            AppError::NoActiveSeason => 503,
            _ => 500,
        }
    }

    /// The HTTP status an error is answered with.
    pub fn status_code(&self) -> (r: u16)
        ensures
            r == self.spec_status_code(),
    {
        match self {
            AppError::BadRequest(_) => 400,
            AppError::InvalidPromoCode => 400,
            AppError::PromoExpired => 400,
            AppError::PromoExhausted => 400,
            AppError::NotFound => 404,
            AppError::DuplicateRegistration => 409,
            AppError::Unauthorized => 401,
            AppError::NoActiveSeason => 503,
            _ => 500,
        }
    }
}

} // verus!
