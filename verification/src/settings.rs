use vstd::prelude::*;

verus! {

/// A closed taxonomy for the upstream settings checks, in place of
/// string-matched error signalling.
#[derive(Clone, Copy, PartialEq, Eq, Structural, Debug)]
pub enum SettingsError {
    /// The playing settings (threshold, playlist name, cadence, ...)
    /// are not all present.
    PlayingSettings,
    /// The remote client settings are incomplete or hold an invalid
    /// value.
    ClientConfig,
    /// The playback daemon settings are not all present.
    SpotifydSettings,
    /// The API credential variables are not all present.
    ApiCredentials,
}

/// Is `k` one of the playing-settings variable names?
pub open spec fn is_playing_key(k: Seq<char>) -> bool {
    ||| k == "CHECKS_BEFORE_PLAYING"@
    ||| k == "PLAYLIST_NAME"@
    ||| k == "SKIP_TRACKS"@
    ||| k == "WAIT_TILL_SKIP"@
    ||| k == "TIME_BETWEEN_CHECKS"@
}

/// How many of `keys` are playing-settings variable names.
pub open spec fn count_playing_keys(keys: Seq<String>) -> nat
    decreases keys.len(),
{
    if keys.len() == 0 {
        0
    } else {
        count_playing_keys(keys.drop_last()) + if is_playing_key(keys.last()@) {
            1nat
        } else {
            0nat
        }
    }
}

/// Is `k` one of the playback-daemon variable names?
pub open spec fn is_spotifyd_key(k: Seq<char>) -> bool {
    ||| k == "SPOTIFYD_USERNAME"@
    ||| k == "SPOTIFYD_PASSWORD"@
    ||| k == "SPOTIFYD_DEVICE_NAME"@
    ||| k == "SPOTIFYD_CONFIG_PATH"@
}

/// How many of `keys` are playback-daemon variable names.
pub open spec fn count_spotifyd_keys(keys: Seq<String>) -> nat
    decreases keys.len(),
{
    if keys.len() == 0 {
        0
    } else {
        count_spotifyd_keys(keys.drop_last()) + if is_spotifyd_key(keys.last()@) {
            1nat
        } else {
            0nat
        }
    }
}

/// Is `k` one of the API credential variable names?
pub open spec fn is_api_credential_key(k: Seq<char>) -> bool {
    ||| k == "RSPOTIFY_CLIENT_ID"@
    ||| k == "RSPOTIFY_CLIENT_SECRET"@
    ||| k == "RSPOTIFY_REDIRECT_URI"@
}

/// How many of `keys` are API credential variable names.
pub open spec fn count_api_credential_keys(keys: Seq<String>) -> nat
    decreases keys.len(),
{
    if keys.len() == 0 {
        0
    } else {
        count_api_credential_keys(keys.drop_last()) + if is_api_credential_key(keys.last()@) {
            1nat
        } else {
            0nat
        }
    }
}

/// Check that the playing settings are all present among the given
/// variable names: exactly four of the recognized names must occur.
pub fn parse_playing_settings(keys: &Vec<String>) -> (r: Result<(), SettingsError>)
    ensures
        (r is Ok) == (count_playing_keys(keys@) == 4),
        r is Err ==> r == Err::<(), SettingsError>(SettingsError::PlayingSettings),
{
    let checks = String::from_str("CHECKS_BEFORE_PLAYING");
    let playlist = String::from_str("PLAYLIST_NAME");
    let skip = String::from_str("SKIP_TRACKS");
    let wait = String::from_str("WAIT_TILL_SKIP");
    let between = String::from_str("TIME_BETWEEN_CHECKS");
    let mut found: u64 = 0;
    let mut i: usize = 0;
    while i < keys.len()
        invariant
            0 <= i <= keys@.len(),
            found <= i,
            found as nat == count_playing_keys(keys@.take(i as int)),
            checks@ == "CHECKS_BEFORE_PLAYING"@,
            playlist@ == "PLAYLIST_NAME"@,
            skip@ == "SKIP_TRACKS"@,
            wait@ == "WAIT_TILL_SKIP"@,
            between@ == "TIME_BETWEEN_CHECKS"@,
        decreases keys@.len() - i,
    {
        let k = &keys[i];
        if *k == checks || *k == playlist || *k == skip || *k == wait || *k == between {
            found = found + 1;
        }
        proof {
            assert(keys@.take(i as int + 1).drop_last() =~= keys@.take(i as int));
            assert(keys@.take(i as int + 1).last() == keys@[i as int]);
        }
        i = i + 1;
    }
    proof {
        assert(keys@.take(keys@.len() as int) =~= keys@);
    }
    if found == 4 {
        Ok(())
    } else {
        Err(SettingsError::PlayingSettings)
    }
}

/// Check that the playback daemon's settings are all present among the
/// given variable names: all four recognized names must occur.
pub fn check_spotifyd_settings(keys: &Vec<String>) -> (r: Result<(), SettingsError>)
    ensures
        (r is Ok) == (count_spotifyd_keys(keys@) == 4),
        r is Err ==> r == Err::<(), SettingsError>(SettingsError::SpotifydSettings),
{
    let username = String::from_str("SPOTIFYD_USERNAME");
    let password = String::from_str("SPOTIFYD_PASSWORD");
    let device = String::from_str("SPOTIFYD_DEVICE_NAME");
    let config_path = String::from_str("SPOTIFYD_CONFIG_PATH");
    let mut found: u64 = 0;
    let mut i: usize = 0;
    while i < keys.len()
        invariant
            0 <= i <= keys@.len(),
            found <= i,
            found as nat == count_spotifyd_keys(keys@.take(i as int)),
            username@ == "SPOTIFYD_USERNAME"@,
            password@ == "SPOTIFYD_PASSWORD"@,
            device@ == "SPOTIFYD_DEVICE_NAME"@,
            config_path@ == "SPOTIFYD_CONFIG_PATH"@,
        decreases keys@.len() - i,
    {
        let k = &keys[i];
        if *k == username || *k == password || *k == device || *k == config_path {
            found = found + 1;
        }
        proof {
            assert(keys@.take(i as int + 1).drop_last() =~= keys@.take(i as int));
            assert(keys@.take(i as int + 1).last() == keys@[i as int]);
        }
        i = i + 1;
    }
    proof {
        assert(keys@.take(keys@.len() as int) =~= keys@);
    }
    if found == 4 {
        Ok(())
    } else {
        Err(SettingsError::SpotifydSettings)
    }
}

/// Check that the API credential variables are all present among the
/// given variable names: all three recognized names must occur.
pub fn check_api_credentials(keys: &Vec<String>) -> (r: Result<(), SettingsError>)
    ensures
        (r is Ok) == (count_api_credential_keys(keys@) == 3),
        r is Err ==> r == Err::<(), SettingsError>(SettingsError::ApiCredentials),
{
    let id = String::from_str("RSPOTIFY_CLIENT_ID");
    let secret = String::from_str("RSPOTIFY_CLIENT_SECRET");
    let redirect = String::from_str("RSPOTIFY_REDIRECT_URI");
    let mut found: u64 = 0;
    let mut i: usize = 0;
    while i < keys.len()
        invariant
            0 <= i <= keys@.len(),
            found <= i,
            found as nat == count_api_credential_keys(keys@.take(i as int)),
            id@ == "RSPOTIFY_CLIENT_ID"@,
            secret@ == "RSPOTIFY_CLIENT_SECRET"@,
            redirect@ == "RSPOTIFY_REDIRECT_URI"@,
        decreases keys@.len() - i,
    {
        let k = &keys[i];
        if *k == id || *k == secret || *k == redirect {
            found = found + 1;
        }
        proof {
            assert(keys@.take(i as int + 1).drop_last() =~= keys@.take(i as int));
            assert(keys@.take(i as int + 1).last() == keys@[i as int]);
        }
        i = i + 1;
    }
    proof {
        assert(keys@.take(keys@.len() as int) =~= keys@);
    }
    if found == 3 {
        Ok(())
    } else {
        Err(SettingsError::ApiCredentials)
    }
}

} // verus!
