//! Token options: the signing secret and the lifetime of issued tokens.

use vstd::prelude::*;

verus! {

/// Milliseconds in one second.
pub const MS_PER_SECOND: u64 = 1_000;

/// Milliseconds in one minute.
pub const MS_PER_MINUTE: u64 = 60_000;

/// Milliseconds in one hour.
pub const MS_PER_HOUR: u64 = 3_600_000;

/// Milliseconds in one day.
pub const MS_PER_DAY: u64 = 86_400_000;

/// Construction from a single parameter value.
pub trait Constructible<T>: Sized {
    /// Whether `built` is the value that `params` describes.
    spec fn spec_built_from(params: T, built: Self) -> bool;

    /// Builds the value that `params` describes.
    fn new(params: T) -> (built: Self)
        ensures
            Self::spec_built_from(params, built),
    ;
}

/// The secret that signs tokens and the time they stay valid.
///
/// A value never changes after construction.
#[derive(Debug, Clone)]
pub struct JwtOptions {
    secret: String,
    expires_in: u64,
}

impl JwtOptions {
    /// The signing secret, as text.
    pub closed spec fn spec_secret(&self) -> Seq<char> {
        self.secret@
    }

    /// The lifetime of an issued token, in milliseconds.
    pub closed spec fn spec_lifetime_ms(&self) -> u64 {
        self.expires_in
    }

    /// Whole hours of lifetime: the resolution at which tokens expire.
    pub open spec fn spec_hours(&self) -> u64 {
        self.spec_lifetime_ms() / MS_PER_HOUR
    }

    /// Options with the given secret and lifetime in milliseconds.
    ///
    /// Nothing is checked here: an empty secret is accepted, and refused
    /// only when a token is verified with it.
    pub fn new(secret: String, expires_in: u64) -> (options: Self)
        ensures
            options.spec_secret() == secret@,
            options.spec_lifetime_ms() == expires_in,
    {
        JwtOptions { secret, expires_in }
    }

    /// The signing secret.
    pub fn secret(&self) -> (secret: &str)
        ensures
            secret@ == self.spec_secret(),
    {
        self.secret.as_str()
    }

    /// The lifetime in milliseconds.
    pub fn lifetime_ms(&self) -> (lifetime: u64)
        ensures
            lifetime == self.spec_lifetime_ms(),
    {
        self.expires_in
    }

    /// The lifetime in whole days.
    pub fn get_days(&self) -> (days: u64)
        ensures
            days == self.spec_lifetime_ms() / MS_PER_DAY,
    {
        self.expires_in / MS_PER_DAY
    }

    /// The lifetime in whole hours.
    pub fn get_hours(&self) -> (hours: u64)
        ensures
            hours == self.spec_hours(),
    {
        self.expires_in / MS_PER_HOUR
    }

    /// The lifetime in whole minutes.
    pub fn get_minutes(&self) -> (minutes: u64)
        ensures
            minutes == self.spec_lifetime_ms() / MS_PER_MINUTE,
    {
        self.expires_in / MS_PER_MINUTE
    }

    /// The lifetime in whole seconds.
    pub fn get_seconds(&self) -> (seconds: u64)
        ensures
            seconds == self.spec_lifetime_ms() / MS_PER_SECOND,
    {
        self.expires_in / MS_PER_SECOND
    }
}

impl Default for JwtOptions {
    /// Quick-start options: a fixed, publicly known secret and a lifetime
    /// of one hour.  Never use them where tokens guard anything.
    fn default() -> (options: Self)
        ensures
            options.spec_secret() == "$3creT"@,
            options.spec_lifetime_ms() == MS_PER_HOUR,
    {
        JwtOptions { secret: "$3creT".to_owned(), expires_in: MS_PER_HOUR }
    }
}

impl Constructible<(String, u64)> for JwtOptions {
    open spec fn spec_built_from(params: (String, u64), built: Self) -> bool {
        built.spec_secret() == params.0@ && built.spec_lifetime_ms() == params.1
    }

    /// Options from a pair of secret and lifetime in milliseconds.
    fn new(params: (String, u64)) -> (options: Self) {
        JwtOptions { secret: params.0, expires_in: params.1 }
    }
}

/// The four readings of a lifetime are floors of one another: a day is 24
/// hours, an hour 60 minutes, a minute 60 seconds.
pub proof fn lemma_lifetime_units(options: JwtOptions)
    ensures
        options.spec_lifetime_ms() / MS_PER_DAY == options.spec_hours() / 24,
        options.spec_hours() == (options.spec_lifetime_ms() / MS_PER_MINUTE) / 60,
        options.spec_lifetime_ms() / MS_PER_MINUTE == (options.spec_lifetime_ms()
            / MS_PER_SECOND) / 60,
{
}

} // verus!
