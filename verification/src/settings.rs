//! Layered language settings. A user record and an optional guild record are
//! fetched from the persistent store (created on first access), and the
//! effective language of one invocation is the user's override, else the
//! guild's override, else the default. The store calls themselves suspend and
//! live outside this crate; the decisions they interleave with are here.

use vstd::prelude::*;

verus! {

use crate::language::Language;

/// One row of the user settings table: an identity and an optional language
/// override.
#[derive(Debug, Clone, PartialEq, Eq, Structural)]
pub struct UserSettingsRecord {
    pub user_id: u64,
    pub language: Option<Language>,
}

/// One row of the guild settings table.
#[derive(Debug, Clone, PartialEq, Eq, Structural)]
pub struct GuildSettingsRecord {
    pub guild_id: u64,
    pub language: Option<Language>,
}

/// The settings of a user: an optional language override.
#[derive(Debug, Clone, PartialEq, Eq, Structural)]
pub struct UserSettings {
    pub language: Option<Language>,
}

/// The settings of a guild: an optional language override.
#[derive(Debug, Clone, PartialEq, Eq, Structural)]
pub struct GuildSettings {
    pub language: Option<Language>,
}

impl From<UserSettingsRecord> for UserSettings {
    fn from(model: UserSettingsRecord) -> (r: Self) {
        UserSettings { language: model.language }
    }
}

impl vstd::std_specs::convert::FromSpecImpl<UserSettingsRecord> for UserSettings {
    open spec fn obeys_from_spec() -> bool {
        true
    }

    open spec fn from_spec(model: UserSettingsRecord) -> Self {
        UserSettings { language: model.language }
    }
}

impl From<GuildSettingsRecord> for GuildSettings {
    fn from(model: GuildSettingsRecord) -> (r: Self) {
        GuildSettings { language: model.language }
    }
}

impl vstd::std_specs::convert::FromSpecImpl<GuildSettingsRecord> for GuildSettings {
    open spec fn obeys_from_spec() -> bool {
        true
    }

    open spec fn from_spec(model: GuildSettingsRecord) -> Self {
        GuildSettings { language: model.language }
    }
}

/// The effective settings of one invocation. Never persisted; recomputed
/// every time.
#[derive(Debug, Clone, PartialEq, Eq, Structural)]
pub struct ContextSettings {
    pub language: Language,
}

/// The three-tier precedence: the user's override wins, else the guild's,
/// else the default. `guild` is `None` outside any guild (a direct message),
/// where a guild override can never apply.
pub open spec fn effective_language(user: Option<Language>, guild: Option<Option<Language>>) -> Language {
    match user {
        Some(l) => l,
        None => match guild {
            Some(Some(l)) => l,
            _ => Language::English,
        },
    }
}

/// Combine the fetched settings into the effective settings of one
/// invocation.
pub fn get_context_settings(user: &UserSettings, guild: Option<&GuildSettings>) -> (r:
    ContextSettings)
    ensures
        r.language == effective_language(
            user.language,
            match guild {
                Some(g) => Some(g.language),
                None => None,
            },
        ),
{
    let language = match user.language {
        Some(l) => l,
        None => match guild {
            Some(g) => match g.language {
                Some(l) => l,
                None => Language::default_language(),
            },
            None => Language::default_language(),
        },
    };
    ContextSettings { language }
}

/// A user's personal choice always wins, even inside a guild with its own
/// configured language; a guild override applies only when the user has
/// none; and outside a guild the default applies whenever the user has no
/// override.
pub proof fn lemma_settings_precedence(user: Option<Language>, guild: Option<Option<Language>>)
    ensures
        user matches Some(l) ==> effective_language(user, guild) == l,
        user is None ==> (match guild {
            Some(Some(l)) => effective_language(user, guild) == l,
            _ => effective_language(user, guild) == Language::English,
        }),
{
}

/// Which attempt of the bounded fetch-or-create loop this is: the first
/// fetch, or the re-read after creating a missing record.
#[derive(Debug, Clone, Copy, PartialEq, Eq, Structural)]
pub enum FetchPhase {
    Initial,
    Retried,
}

/// What the resolver does next with a user row.
#[derive(Debug, PartialEq, Eq, Structural)]
pub enum UserFetchDecision {
    /// A record exists: use its settings.
    Use(UserSettings),
    /// No record yet: create one with no override, then re-read once.
    CreateThenRetry,
    /// Still no record after creating one: surface a store error.
    Fail,
}

/// What the resolver does next with a guild row.
#[derive(Debug, PartialEq, Eq, Structural)]
pub enum GuildFetchDecision {
    /// The invocation has no guild: guild settings contribute no override.
    NoGuild,
    /// A record exists: use its settings.
    Use(GuildSettings),
    /// No record yet: create one with no override, then re-read once.
    CreateThenRetry,
    /// Still no record after creating one: surface a store error.
    Fail,
}

/// The bounded fetch-or-create rule for user settings: use an existing row;
/// create and re-read once when there is none; give up only if the re-read
/// still finds nothing.
pub open spec fn spec_user_fetch(phase: FetchPhase, row: Option<UserSettingsRecord>) -> UserFetchDecision {
    match row {
        Some(m) => UserFetchDecision::Use(UserSettings { language: m.language }),
        None => match phase {
            FetchPhase::Initial => UserFetchDecision::CreateThenRetry,
            FetchPhase::Retried => UserFetchDecision::Fail,
        },
    }
}

/// Decide one step of the user-settings resolution loop.
pub fn user_fetch_step(phase: FetchPhase, row: Option<UserSettingsRecord>) -> (r:
    UserFetchDecision)
    ensures
        r == spec_user_fetch(phase, row),
{
    match row {
        Some(m) => UserFetchDecision::Use(UserSettings::from(m)),
        None => match phase {
            FetchPhase::Initial => UserFetchDecision::CreateThenRetry,
            FetchPhase::Retried => UserFetchDecision::Fail,
        },
    }
}

/// The bounded fetch-or-create rule for guild settings. Outside a guild no
/// row is ever fetched or created.
pub open spec fn spec_guild_fetch(
    guild_present: bool,
    phase: FetchPhase,
    row: Option<GuildSettingsRecord>,
) -> GuildFetchDecision {
    if !guild_present {
        GuildFetchDecision::NoGuild
    } else {
        match row {
            Some(m) => GuildFetchDecision::Use(GuildSettings { language: m.language }),
            None => match phase {
                FetchPhase::Initial => GuildFetchDecision::CreateThenRetry,
                FetchPhase::Retried => GuildFetchDecision::Fail,
            },
        }
    }
}

/// Decide one step of the guild-settings resolution loop.
pub fn guild_fetch_step(guild_present: bool, phase: FetchPhase, row: Option<GuildSettingsRecord>)
    -> (r: GuildFetchDecision)
    ensures
        r == spec_guild_fetch(guild_present, phase, row),
{
    if !guild_present {
        GuildFetchDecision::NoGuild
    } else {
        match row {
            Some(m) => GuildFetchDecision::Use(GuildSettings::from(m)),
            None => match phase {
                FetchPhase::Initial => GuildFetchDecision::CreateThenRetry,
                FetchPhase::Retried => GuildFetchDecision::Fail,
            },
        }
    }
}

/// What the settings editor does next when writing a new value.
#[derive(Debug, PartialEq, Eq, Structural)]
pub enum UpdateDecision {
    /// A record exists: apply the new value to it.
    Apply,
    /// No record yet: create one with no override, then try the update once
    /// more.
    CreateThenRetry,
    /// Still no record after creating one: surface a store error.
    Fail,
}

/// The bounded update rule: update an existing row; create one and retry
/// once when there is none.
pub open spec fn spec_update(phase: FetchPhase, row_present: bool) -> UpdateDecision {
    if row_present {
        UpdateDecision::Apply
    } else {
        match phase {
            FetchPhase::Initial => UpdateDecision::CreateThenRetry,
            FetchPhase::Retried => UpdateDecision::Fail,
        }
    }
}

/// Decide one step of the settings-update loop.
pub fn update_step(phase: FetchPhase, row_present: bool) -> (r: UpdateDecision)
    ensures
        r == spec_update(phase, row_present),
{
    if row_present {
        UpdateDecision::Apply
    } else {
        match phase {
            FetchPhase::Initial => UpdateDecision::CreateThenRetry,
            FetchPhase::Retried => UpdateDecision::Fail,
        }
    }
}

/// The first-ever resolution for an unknown user issues exactly one create:
/// the initial fetch finds nothing and asks for one creation, the re-read
/// finds the freshly created record and uses it without creating another,
/// and, the fresh record carrying no override, the effective language is the
/// default.
pub proof fn lemma_first_resolution_creates_once(fresh: UserSettingsRecord)
    requires
        fresh.language is None,
    ensures
        spec_user_fetch(FetchPhase::Initial, None) == UserFetchDecision::CreateThenRetry,
        spec_user_fetch(FetchPhase::Retried, Some(fresh)) == UserFetchDecision::Use(
            UserSettings { language: None },
        ),
        effective_language(fresh.language, None) == Language::English,
{
}

} // verus!
