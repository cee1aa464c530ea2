//! Translation of the native runtime's result codes into recoverable errors.
//!
//! Nearly every native call returns a code out of a closed enumeration; code
//! zero means success. The binding never shows a raw code to its callers: a
//! nonzero code becomes an [`Error`] variant, and a code outside the
//! documented enumeration is kept verbatim in [`Error::Undefined`] so that no
//! information is lost. Caller mistakes that are caught before a value
//! crosses the native boundary are kept apart from native failures in
//! [`Error::DeveloperViolation`].

use vstd::prelude::*;

verus! {

/// A caller handed the binding a value that cannot be marshalled to the
/// native ABI. These indicate a bug in the calling application, not a
/// condition of the native runtime.
#[derive(Clone, Copy, PartialEq, Eq, Structural, Debug)]
pub enum DeveloperViolation {
    /// A string destined for a C-string parameter contains an interior
    /// zero byte and therefore cannot be represented as a C string.
    InteriorNul,
}

/// A recoverable failure: either a nonzero result code reported by the
/// native runtime, translated into its documented category, or a caller
/// mistake caught by the binding itself.
#[derive(Clone, Copy, PartialEq, Eq, Structural, Debug)]
pub enum Error {
    ServiceUnavailable,
    InvalidVersion,
    LockFailed,
    InternalError,
    InvalidPayload,
    InvalidCommand,
    InvalidPermissions,
    NotFetched,
    NotFound,
    Conflict,
    InvalidSecret,
    InvalidJoinSecret,
    NoEligibleActivity,
    InvalidInvite,
    NotAuthenticated,
    InvalidAccessToken,
    ApplicationMismatch,
    InvalidDataUrl,
    InvalidBase64,
    NotFiltered,
    LobbyFull,
    InvalidLobbySecret,
    InvalidFilename,
    InvalidFileSize,
    InvalidEntitlement,
    NotInstalled,
    NotRunning,
    InsufficientBuffer,
    PurchaseCanceled,
    InvalidGuild,
    InvalidEvent,
    InvalidChannel,
    InvalidOrigin,
    RateLimited,
    OAuth2Error,
    SelectChannelTimeout,
    GetGuildTimeout,
    SelectVoiceForceRequired,
    CaptureShortcutAlreadyListening,
    UnauthorizedForAchievement,
    InvalidGiftCode,
    PurchaseError,
    TransactionAborted,
    /// A result code outside the documented enumeration, kept verbatim.
    Undefined(i32),
    /// A caller mistake caught before the native boundary.
    DeveloperViolation(DeveloperViolation),
}

/// The error that a given nonzero native result code translates to.
/// Code zero never reaches this table: it means success.
pub open spec fn spec_error(code: i32) -> Error {
    if code == 1 { Error::ServiceUnavailable }
    else if code == 2 { Error::InvalidVersion }
    else if code == 3 { Error::LockFailed }
    else if code == 4 { Error::InternalError }
    else if code == 5 { Error::InvalidPayload }
    else if code == 6 { Error::InvalidCommand }
    else if code == 7 { Error::InvalidPermissions }
    else if code == 8 { Error::NotFetched }
    else if code == 9 { Error::NotFound }
    else if code == 10 { Error::Conflict }
    else if code == 11 { Error::InvalidSecret }
    else if code == 12 { Error::InvalidJoinSecret }
    else if code == 13 { Error::NoEligibleActivity }
    else if code == 14 { Error::InvalidInvite }
    else if code == 15 { Error::NotAuthenticated }
    else if code == 16 { Error::InvalidAccessToken }
    else if code == 17 { Error::ApplicationMismatch }
    else if code == 18 { Error::InvalidDataUrl }
    else if code == 19 { Error::InvalidBase64 }
    else if code == 20 { Error::NotFiltered }
    else if code == 21 { Error::LobbyFull }
    else if code == 22 { Error::InvalidLobbySecret }
    else if code == 23 { Error::InvalidFilename }
    else if code == 24 { Error::InvalidFileSize }
    else if code == 25 { Error::InvalidEntitlement }
    else if code == 26 { Error::NotInstalled }
    else if code == 27 { Error::NotRunning }
    else if code == 28 { Error::InsufficientBuffer }
    else if code == 29 { Error::PurchaseCanceled }
    else if code == 30 { Error::InvalidGuild }
    else if code == 31 { Error::InvalidEvent }
    else if code == 32 { Error::InvalidChannel }
    else if code == 33 { Error::InvalidOrigin }
    else if code == 34 { Error::RateLimited }
    else if code == 35 { Error::OAuth2Error }
    else if code == 36 { Error::SelectChannelTimeout }
    else if code == 37 { Error::GetGuildTimeout }
    else if code == 38 { Error::SelectVoiceForceRequired }
    else if code == 39 { Error::CaptureShortcutAlreadyListening }
    else if code == 40 { Error::UnauthorizedForAchievement }
    else if code == 41 { Error::InvalidGiftCode }
    else if code == 42 { Error::PurchaseError }
    else if code == 43 { Error::TransactionAborted }
    else { Error::Undefined(code) }
}

/// What a whole native call comes to: success exactly on code zero, and the
/// translated error on every other code.
pub open spec fn spec_result(code: i32) -> Result<(), Error> {
    if code == 0 {
        Ok(())
    } else {
        Err(spec_error(code))
    }
}

/// Translates a nonzero native result code into its error.
pub fn error_from_code(code: i32) -> (r: Error)
    ensures
        r == spec_error(code),
{
    match code {
        1 => Error::ServiceUnavailable,
        2 => Error::InvalidVersion,
        3 => Error::LockFailed,
        4 => Error::InternalError,
        5 => Error::InvalidPayload,
        6 => Error::InvalidCommand,
        7 => Error::InvalidPermissions,
        8 => Error::NotFetched,
        9 => Error::NotFound,
        10 => Error::Conflict,
        11 => Error::InvalidSecret,
        12 => Error::InvalidJoinSecret,
        13 => Error::NoEligibleActivity,
        14 => Error::InvalidInvite,
        15 => Error::NotAuthenticated,
        16 => Error::InvalidAccessToken,
        17 => Error::ApplicationMismatch,
        18 => Error::InvalidDataUrl,
        19 => Error::InvalidBase64,
        20 => Error::NotFiltered,
        21 => Error::LobbyFull,
        22 => Error::InvalidLobbySecret,
        23 => Error::InvalidFilename,
        24 => Error::InvalidFileSize,
        25 => Error::InvalidEntitlement,
        26 => Error::NotInstalled,
        27 => Error::NotRunning,
        28 => Error::InsufficientBuffer,
        29 => Error::PurchaseCanceled,
        30 => Error::InvalidGuild,
        31 => Error::InvalidEvent,
        32 => Error::InvalidChannel,
        33 => Error::InvalidOrigin,
        34 => Error::RateLimited,
        35 => Error::OAuth2Error,
        36 => Error::SelectChannelTimeout,
        37 => Error::GetGuildTimeout,
        38 => Error::SelectVoiceForceRequired,
        39 => Error::CaptureShortcutAlreadyListening,
        40 => Error::UnauthorizedForAchievement,
        41 => Error::InvalidGiftCode,
        42 => Error::PurchaseError,
        43 => Error::TransactionAborted,
        _ => Error::Undefined(code),
    }
}

/// Translates a native result code: `Ok` exactly on zero, the translated
/// error on every other code.
pub fn to_result(code: i32) -> (r: Result<(), Error>)
    ensures
        r == spec_result(code),
{
    if code == 0 {
        Ok(())
    } else {
        Err(error_from_code(code))
    }
}

impl Error {
    /// The native result code this error carries, and nothing for caller
    /// mistakes, which never came from the native runtime.
    pub open spec fn spec_code(self) -> Option<i32> {
        match self {
            Error::ServiceUnavailable => Some(1),
            Error::InvalidVersion => Some(2),
            Error::LockFailed => Some(3),
            Error::InternalError => Some(4),
            Error::InvalidPayload => Some(5),
            Error::InvalidCommand => Some(6),
            Error::InvalidPermissions => Some(7),
            Error::NotFetched => Some(8),
            Error::NotFound => Some(9),
            Error::Conflict => Some(10),
            Error::InvalidSecret => Some(11),
            Error::InvalidJoinSecret => Some(12),
            Error::NoEligibleActivity => Some(13),
            Error::InvalidInvite => Some(14),
            Error::NotAuthenticated => Some(15),
            Error::InvalidAccessToken => Some(16),
            Error::ApplicationMismatch => Some(17),
            Error::InvalidDataUrl => Some(18),
            Error::InvalidBase64 => Some(19),
            Error::NotFiltered => Some(20),
            Error::LobbyFull => Some(21),
            Error::InvalidLobbySecret => Some(22),
            Error::InvalidFilename => Some(23),
            Error::InvalidFileSize => Some(24),
            Error::InvalidEntitlement => Some(25),
            Error::NotInstalled => Some(26),
            Error::NotRunning => Some(27),
            Error::InsufficientBuffer => Some(28),
            Error::PurchaseCanceled => Some(29),
            Error::InvalidGuild => Some(30),
            Error::InvalidEvent => Some(31),
            Error::InvalidChannel => Some(32),
            Error::InvalidOrigin => Some(33),
            Error::RateLimited => Some(34),
            Error::OAuth2Error => Some(35),
            Error::SelectChannelTimeout => Some(36),
            Error::GetGuildTimeout => Some(37),
            Error::SelectVoiceForceRequired => Some(38),
            Error::CaptureShortcutAlreadyListening => Some(39),
            Error::UnauthorizedForAchievement => Some(40),
            Error::InvalidGiftCode => Some(41),
            Error::PurchaseError => Some(42),
            Error::TransactionAborted => Some(43),
            Error::Undefined(code) => Some(code),
            Error::DeveloperViolation(_) => None,
        }
    }

    /// Returns the native result code this error carries, or nothing for
    /// a caller mistake.
    pub fn code(&self) -> (r: Option<i32>)
        ensures
            r == self.spec_code(),
    {
        match self {
            Error::ServiceUnavailable => Some(1),
            Error::InvalidVersion => Some(2),
            Error::LockFailed => Some(3),
            Error::InternalError => Some(4),
            Error::InvalidPayload => Some(5),
            Error::InvalidCommand => Some(6),
            Error::InvalidPermissions => Some(7),
            Error::NotFetched => Some(8),
            Error::NotFound => Some(9),
            Error::Conflict => Some(10),
            Error::InvalidSecret => Some(11),
            Error::InvalidJoinSecret => Some(12),
            Error::NoEligibleActivity => Some(13),
            Error::InvalidInvite => Some(14),
            Error::NotAuthenticated => Some(15),
            Error::InvalidAccessToken => Some(16),
            Error::ApplicationMismatch => Some(17),
            Error::InvalidDataUrl => Some(18),
            Error::InvalidBase64 => Some(19),
            Error::NotFiltered => Some(20),
            Error::LobbyFull => Some(21),
            Error::InvalidLobbySecret => Some(22),
            Error::InvalidFilename => Some(23),
            Error::InvalidFileSize => Some(24),
            Error::InvalidEntitlement => Some(25),
            Error::NotInstalled => Some(26),
            Error::NotRunning => Some(27),
            Error::InsufficientBuffer => Some(28),
            Error::PurchaseCanceled => Some(29),
            Error::InvalidGuild => Some(30),
            Error::InvalidEvent => Some(31),
            Error::InvalidChannel => Some(32),
            Error::InvalidOrigin => Some(33),
            Error::RateLimited => Some(34),
            Error::OAuth2Error => Some(35),
            Error::SelectChannelTimeout => Some(36),
            Error::GetGuildTimeout => Some(37),
            Error::SelectVoiceForceRequired => Some(38),
            Error::CaptureShortcutAlreadyListening => Some(39),
            Error::UnauthorizedForAchievement => Some(40),
            Error::InvalidGiftCode => Some(41),
            Error::PurchaseError => Some(42),
            Error::TransactionAborted => Some(43),
            Error::Undefined(code) => Some(*code),
            Error::DeveloperViolation(_) => None,
        }
    }

    /// Whether this error marks a caller mistake rather than a condition
    /// reported by the native runtime.
    pub open spec fn spec_is_developer_error(self) -> bool {
        self is DeveloperViolation
    }

    /// Tells a caller mistake apart from a native failure.
    pub fn is_developer_error(&self) -> (r: bool)
        ensures
            r == self.spec_is_developer_error(),
    {
        match self {
            Error::DeveloperViolation(_) => true,
            _ => false,
        }
    }
}

/// Translation keeps the original code: translating any nonzero native
/// result code and reading the code back yields that same code.
pub proof fn lemma_code_round_trip(code: i32)
    requires
        code != 0,
    ensures
        spec_error(code).spec_code() == Some(code),
{
}

} // verus!
