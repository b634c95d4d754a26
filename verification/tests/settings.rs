use shadowbox::language::Language;
use shadowbox::settings::FetchPhase;
use shadowbox::settings::GuildFetchDecision;
use shadowbox::settings::GuildSettings;
use shadowbox::settings::GuildSettingsRecord;
use shadowbox::settings::UpdateDecision;
use shadowbox::settings::UserFetchDecision;
use shadowbox::settings::UserSettings;
use shadowbox::settings::UserSettingsRecord;
use shadowbox::settings::get_context_settings;
use shadowbox::settings::guild_fetch_step;
use shadowbox::settings::update_step;
use shadowbox::settings::user_fetch_step;

#[test]
fn user_override_beats_guild_override() {
    let user = UserSettings { language: Some(Language::Spanish) };
    let guild = GuildSettings { language: Some(Language::English) };
    let ctx = get_context_settings(&user, Some(&guild));
    assert_eq!(ctx.language, Language::Spanish);
}

#[test]
fn guild_override_applies_when_user_has_none() {
    let user = UserSettings { language: None };
    let guild = GuildSettings { language: Some(Language::English) };
    let ctx = get_context_settings(&user, Some(&guild));
    assert_eq!(ctx.language, Language::English);
}

#[test]
fn default_applies_outside_a_guild() {
    let user = UserSettings { language: None };
    let ctx = get_context_settings(&user, None);
    assert_eq!(ctx.language, Language::English);
}

#[test]
fn guild_override_wins_over_default_inside_guild() {
    let user = UserSettings { language: None };
    let guild = GuildSettings { language: Some(Language::Spanish) };
    let ctx = get_context_settings(&user, Some(&guild));
    assert_eq!(ctx.language, Language::Spanish);
}

#[test]
fn guild_without_override_falls_back_to_default() {
    let user = UserSettings { language: None };
    let guild = GuildSettings { language: None };
    let ctx = get_context_settings(&user, Some(&guild));
    assert_eq!(ctx.language, Language::English);
}

#[test]
fn first_resolution_creates_exactly_one_record_and_returns_default() {
    // The first fetch finds nothing and asks for exactly one creation.
    let first = user_fetch_step(FetchPhase::Initial, None);
    assert_eq!(first, UserFetchDecision::CreateThenRetry);
    // The re-read finds the freshly created record and creates nothing more.
    let fresh = UserSettingsRecord { user_id: 7, language: None };
    let second = user_fetch_step(FetchPhase::Retried, Some(fresh));
    match second {
        UserFetchDecision::Use(settings) => {
            assert_eq!(settings.language, None);
            let ctx = get_context_settings(&settings, None);
            assert_eq!(ctx.language, Language::English);
        }
        other => panic!("expected Use, got {:?}", matches!(other, UserFetchDecision::Fail)),
    }
}

#[test]
fn user_fetch_uses_existing_record() {
    let rec = UserSettingsRecord { user_id: 9, language: Some(Language::Spanish) };
    let r = user_fetch_step(FetchPhase::Initial, Some(rec));
    assert_eq!(r, UserFetchDecision::Use(UserSettings { language: Some(Language::Spanish) }));
}

#[test]
fn user_fetch_fails_when_record_still_missing_after_create() {
    let r = user_fetch_step(FetchPhase::Retried, None);
    assert_eq!(r, UserFetchDecision::Fail);
}

#[test]
fn guild_fetch_contributes_nothing_outside_a_guild() {
    let r = guild_fetch_step(false, FetchPhase::Initial, None);
    assert_eq!(r, GuildFetchDecision::NoGuild);
}

#[test]
fn guild_fetch_follows_the_bounded_create_loop() {
    assert_eq!(
        guild_fetch_step(true, FetchPhase::Initial, None),
        GuildFetchDecision::CreateThenRetry
    );
    let rec = GuildSettingsRecord { guild_id: 3, language: Some(Language::English) };
    assert_eq!(
        guild_fetch_step(true, FetchPhase::Retried, Some(rec)),
        GuildFetchDecision::Use(GuildSettings { language: Some(Language::English) })
    );
    assert_eq!(guild_fetch_step(true, FetchPhase::Retried, None), GuildFetchDecision::Fail);
}

#[test]
fn update_applies_to_existing_record_and_retries_once() {
    assert_eq!(update_step(FetchPhase::Initial, true), UpdateDecision::Apply);
    assert_eq!(update_step(FetchPhase::Initial, false), UpdateDecision::CreateThenRetry);
    assert_eq!(update_step(FetchPhase::Retried, true), UpdateDecision::Apply);
    assert_eq!(update_step(FetchPhase::Retried, false), UpdateDecision::Fail);
}

#[test]
fn settings_convert_from_store_records() {
    let u = UserSettings::from(UserSettingsRecord { user_id: 1, language: Some(Language::Spanish) });
    assert_eq!(u.language, Some(Language::Spanish));
    let g = GuildSettings::from(GuildSettingsRecord { guild_id: 2, language: None });
    assert_eq!(g.language, None);
}
