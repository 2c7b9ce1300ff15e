use vstd::prelude::*;

use crate::settings::SettingsError;

verus! {

/// One remote-client setting that either keeps the client library's
/// own default or carries an explicit value.
pub enum ClientSetting {
    Default,
    Custom(String),
}

impl View for ClientSetting {
    type V = Option<Seq<char>>;

    open spec fn view(&self) -> Option<Seq<char>> {
        match self {
            ClientSetting::Default => Option::None,
            ClientSetting::Custom(s) => Option::Some(s@),
        }
    }
}

/// The validated remote-client configuration: endpoint prefix, token
/// cache path, page size for paginated listings, and the two token
/// handling switches.
pub struct ClientConfig {
    pub prefix: ClientSetting,
    pub cache_path: ClientSetting,
    pub pagination_chunks: u32,
    pub token_cached: bool,
    pub token_refreshing: bool,
}

/// The mathematical shadow of [`ClientConfig`].
pub ghost struct ClientConfigView {
    pub prefix: Option<Seq<char>>,
    pub cache_path: Option<Seq<char>>,
    pub pagination_chunks: u32,
    pub token_cached: bool,
    pub token_refreshing: bool,
}

impl View for ClientConfig {
    type V = ClientConfigView;

    open spec fn view(&self) -> ClientConfigView {
        ClientConfigView {
            prefix: self.prefix@,
            cache_path: self.cache_path@,
            pagination_chunks: self.pagination_chunks,
            token_cached: self.token_cached,
            token_refreshing: self.token_refreshing,
        }
    }
}

/// The running state of a client-configuration parse: the settings
/// gathered so far, whether an invalid value was seen, and how many
/// recognized variables occurred.
pub ghost struct ClientParseState {
    pub cfg: ClientConfigView,
    pub wrong: bool,
    pub found: nat,
}

/// Before any variable is read: explicit empty texts (not the client
/// defaults), a page size of 50, both token switches on.
pub open spec fn client_parse_init() -> ClientParseState {
    ClientParseState {
        cfg: ClientConfigView {
            prefix: Option::Some(Seq::<char>::empty()),
            cache_path: Option::Some(Seq::<char>::empty()),
            pagination_chunks: 50,
            token_cached: true,
            token_refreshing: true,
        },
        wrong: false,
        found: 0,
    }
}

/// What one `key = value` pair does to the parse: a recognized key
/// overwrites its setting (the text `default` electing the client
/// library's own default) and counts; an invalid value — a page size
/// that is not a decimal number of at most 50, or a switch that is
/// neither `true` nor `false` — marks the parse wrong; an unrecognized
/// key changes nothing.
pub open spec fn client_parse_step(st: ClientParseState, key: Seq<char>, value: Seq<char>) -> ClientParseState {
    if key == "RSPOTIFY_CLIENT_PREFIX"@ {
        ClientParseState {
            cfg: ClientConfigView {
                prefix: if value == "default"@ {
                    Option::None
                } else {
                    Option::Some(value)
                },
                cache_path: st.cfg.cache_path,
                pagination_chunks: st.cfg.pagination_chunks,
                token_cached: st.cfg.token_cached,
                token_refreshing: st.cfg.token_refreshing,
            },
            wrong: st.wrong,
            found: st.found + 1,
        }
    } else if key == "RSPOTIFY_CLIENT_CACHE_PATH"@ {
        ClientParseState {
            cfg: ClientConfigView {
                prefix: st.cfg.prefix,
                cache_path: if value == "default"@ {
                    Option::None
                } else {
                    Option::Some(value)
                },
                pagination_chunks: st.cfg.pagination_chunks,
                token_cached: st.cfg.token_cached,
                token_refreshing: st.cfg.token_refreshing,
            },
            wrong: st.wrong,
            found: st.found + 1,
        }
    } else if key == "RSPOTIFY_CLIENT_PAGINATION_CHUNKS"@ {
        if value == "default"@ {
            ClientParseState {
                cfg: ClientConfigView {
                    prefix: st.cfg.prefix,
                    cache_path: st.cfg.cache_path,
                    pagination_chunks: 50,
                    token_cached: st.cfg.token_cached,
                    token_refreshing: st.cfg.token_refreshing,
                },
                wrong: st.wrong,
                found: st.found + 1,
            }
        } else if is_u32_decimal(value) && dec_val(value) <= 50 {
            ClientParseState {
                cfg: ClientConfigView {
                    prefix: st.cfg.prefix,
                    cache_path: st.cfg.cache_path,
                    pagination_chunks: dec_val(value) as u32,
                    token_cached: st.cfg.token_cached,
                    token_refreshing: st.cfg.token_refreshing,
                },
                wrong: st.wrong,
                found: st.found + 1,
            }
        } else {
            ClientParseState { cfg: st.cfg, wrong: true, found: st.found + 1 }
        }
    } else if key == "RSPOTIFY_CLIENT_TOKEN_CACHED"@ {
        if value == "true"@ || value == "false"@ {
            ClientParseState {
                cfg: ClientConfigView {
                    prefix: st.cfg.prefix,
                    cache_path: st.cfg.cache_path,
                    pagination_chunks: st.cfg.pagination_chunks,
                    token_cached: value == "true"@,
                    token_refreshing: st.cfg.token_refreshing,
                },
                wrong: st.wrong,
                found: st.found + 1,
            }
        } else {
            ClientParseState { cfg: st.cfg, wrong: true, found: st.found + 1 }
        }
    } else if key == "RSPOTIFY_CLIENT_TOKEN_REFRESHING"@ {
        if value == "true"@ || value == "false"@ {
            ClientParseState {
                cfg: ClientConfigView {
                    prefix: st.cfg.prefix,
                    cache_path: st.cfg.cache_path,
                    pagination_chunks: st.cfg.pagination_chunks,
                    token_cached: st.cfg.token_cached,
                    token_refreshing: value == "true"@,
                },
                wrong: st.wrong,
                found: st.found + 1,
            }
        } else {
            ClientParseState { cfg: st.cfg, wrong: true, found: st.found + 1 }
        }
    } else {
        st
    }
}

/// The parse of a whole variable listing, first pair first: later
/// occurrences of a key overwrite earlier ones.
pub open spec fn client_parse_fold(vars: Seq<(String, String)>) -> ClientParseState
    decreases vars.len(),
{
    if vars.len() == 0 {
        client_parse_init()
    } else {
        client_parse_step(client_parse_fold(vars.drop_last()), vars.last().0@, vars.last().1@)
    }
}

/// Build the remote-client configuration from the `key = value`
/// variable pairs. Succeeds exactly when no invalid value occurred and
/// the five recognized variables occurred five times in all.
pub fn parse_client_config(vars: &Vec<(String, String)>) -> (r: Result<ClientConfig, SettingsError>)
    ensures
        ({
            let st = client_parse_fold(vars@);
            &&& (r is Ok) == (!st.wrong && st.found == 5)
            &&& (r is Ok ==> r.unwrap()@ == st.cfg)
            &&& (r is Err ==> r == Err::<ClientConfig, SettingsError>(SettingsError::ClientConfig))
        }),
{
    let key_prefix = String::from_str("RSPOTIFY_CLIENT_PREFIX");
    let key_cache = String::from_str("RSPOTIFY_CLIENT_CACHE_PATH");
    let key_chunks = String::from_str("RSPOTIFY_CLIENT_PAGINATION_CHUNKS");
    let key_cached = String::from_str("RSPOTIFY_CLIENT_TOKEN_CACHED");
    let key_refresh = String::from_str("RSPOTIFY_CLIENT_TOKEN_REFRESHING");
    let lit_default = String::from_str("default");
    let lit_true = String::from_str("true");
    let lit_false = String::from_str("false");
    let mut prefix = ClientSetting::Custom(String::new());
    let mut cache_path = ClientSetting::Custom(String::new());
    let mut pagination: u32 = 50;
    let mut cached = true;
    let mut refreshing = true;
    let mut wrong = false;
    let mut found: u64 = 0;
    let mut i: usize = 0;
    while i < vars.len()
        invariant
            0 <= i <= vars@.len(),
            found <= i,
            ({
                let st = client_parse_fold(vars@.take(i as int));
                &&& prefix@ == st.cfg.prefix
                &&& cache_path@ == st.cfg.cache_path
                &&& pagination == st.cfg.pagination_chunks
                &&& cached == st.cfg.token_cached
                &&& refreshing == st.cfg.token_refreshing
                &&& wrong == st.wrong
                &&& found as nat == st.found
            }),
            key_prefix@ == "RSPOTIFY_CLIENT_PREFIX"@,
            key_cache@ == "RSPOTIFY_CLIENT_CACHE_PATH"@,
            key_chunks@ == "RSPOTIFY_CLIENT_PAGINATION_CHUNKS"@,
            key_cached@ == "RSPOTIFY_CLIENT_TOKEN_CACHED"@,
            key_refresh@ == "RSPOTIFY_CLIENT_TOKEN_REFRESHING"@,
            lit_default@ == "default"@,
            lit_true@ == "true"@,
            lit_false@ == "false"@,
        decreases vars@.len() - i,
    {
        let k = &vars[i].0;
        let v = &vars[i].1;
        if *k == key_prefix {
            if *v == lit_default {
                prefix = ClientSetting::Default;
            } else {
                prefix = ClientSetting::Custom(v.clone());
            }
            found = found + 1;
        } else if *k == key_cache {
            if *v == lit_default {
                cache_path = ClientSetting::Default;
            } else {
                cache_path = ClientSetting::Custom(v.clone());
            }
            found = found + 1;
        } else if *k == key_chunks {
            if *v == lit_default {
                pagination = 50;
            } else {
                match parse_u32_dec(v.as_str()) {
                    Option::Some(chunks) => {
                        if chunks <= 50 {
                            pagination = chunks;
                        } else {
                            wrong = true;
                        }
                    },
                    Option::None => {
                        wrong = true;
                    },
                }
            }
            found = found + 1;
        } else if *k == key_cached {
            if *v == lit_true {
                cached = true;
            } else if *v == lit_false {
                cached = false;
            } else {
                wrong = true;
            }
            found = found + 1;
        } else if *k == key_refresh {
            if *v == lit_true {
                refreshing = true;
            } else if *v == lit_false {
                refreshing = false;
            } else {
                wrong = true;
            }
            found = found + 1;
        }
        proof {
            assert(vars@.take(i as int + 1).drop_last() =~= vars@.take(i as int));
            assert(vars@.take(i as int + 1).last() == vars@[i as int]);
        }
        i = i + 1;
    }
    proof {
        assert(vars@.take(vars@.len() as int) =~= vars@);
    }
    if wrong {
        Err(SettingsError::ClientConfig)
    } else if found == 5 {
        Ok(
            ClientConfig {
                prefix,
                cache_path,
                pagination_chunks: pagination,
                token_cached: cached,
                token_refreshing: refreshing,
            },
        )
    } else {
        Err(SettingsError::ClientConfig)
    }
}

/// Is `c` one of the characters `'0'` through `'9'`?
pub open spec fn is_decimal_digit(c: char) -> bool {
    48 <= c as u32 <= 57
}

pub open spec fn all_decimal_digits(s: Seq<char>) -> bool {
    forall|i: int| 0 <= i < s.len() ==> is_decimal_digit(#[trigger] s[i])
}

/// The number a string of decimal digits denotes, most significant
/// digit first.
pub open spec fn dec_val(s: Seq<char>) -> int
    decreases s.len(),
{
    if s.len() == 0 {
        0
    } else {
        dec_val(s.drop_last()) * 10 + (s.last() as u32 - 48)
    }
}

/// Does `s` denote a `u32`: nonempty, digits only, and within range?
pub open spec fn is_u32_decimal(s: Seq<char>) -> bool {
    &&& s.len() > 0
    &&& all_decimal_digits(s)
    &&& dec_val(s) <= u32::MAX
}

proof fn lemma_dec_val_nonneg(s: Seq<char>)
    requires
        all_decimal_digits(s),
    ensures
        dec_val(s) >= 0,
    decreases s.len(),
{
    if s.len() > 0 {
        assert(all_decimal_digits(s.drop_last())) by {
            assert(forall|i: int|
                0 <= i < s.drop_last().len() ==> #[trigger] s.drop_last()[i] == s[i]);
        }
        lemma_dec_val_nonneg(s.drop_last());
    }
}

/// A longer digit string never denotes a smaller number.
proof fn lemma_dec_val_prefix_le(s: Seq<char>, m: int)
    requires
        0 <= m <= s.len(),
        all_decimal_digits(s),
    ensures
        dec_val(s.take(m)) <= dec_val(s),
    decreases s.len() - m,
{
    if m < s.len() {
        assert(s.take(m + 1).drop_last() =~= s.take(m));
        assert(s.take(m + 1).last() == s[m]);
        assert(all_decimal_digits(s.take(m))) by {
            assert(forall|i: int| 0 <= i < m ==> #[trigger] s.take(m)[i] == s[i]);
        }
        lemma_dec_val_nonneg(s.take(m));
        assert(dec_val(s.take(m)) <= dec_val(s.take(m + 1)));
        lemma_dec_val_prefix_le(s, m + 1);
    } else {
        assert(s.take(m) =~= s);
    }
}

/// Read a `u32` from its decimal notation; reject anything that is not
/// a nonempty all-digit string denoting a value in range.
pub fn parse_u32_dec(s: &str) -> (r: Option<u32>)
    ensures
        (r is Some) == is_u32_decimal(s@),
        r is Some ==> r.unwrap() as int == dec_val(s@),
{
    let n = s.unicode_len();
    if n == 0 {
        return None;
    }
    let mut acc: u64 = 0;
    let mut i: usize = 0;
    while i < n
        invariant
            0 <= i <= n,
            n == s@.len(),
            all_decimal_digits(s@.take(i as int)),
            acc as int == dec_val(s@.take(i as int)),
            acc <= u32::MAX,
        decreases n - i,
    {
        let c = s.get_char(i);
        let u = c as u32;
        if u < 48 || u > 57 {
            proof {
                assert(!is_decimal_digit(s@[i as int]));
            }
            return None;
        }
        acc = acc * 10 + (u - 48) as u64;
        proof {
            assert(s@.take(i as int + 1).drop_last() =~= s@.take(i as int));
            assert(s@.take(i as int + 1).last() == s@[i as int]);
            assert(forall|j: int|
                0 <= j < i as int + 1 ==> #[trigger] s@.take(i as int + 1)[j] == s@[j]);
        }
        if acc > u32::MAX as u64 {
            proof {
                if is_u32_decimal(s@) {
                    lemma_dec_val_prefix_le(s@, i as int + 1);
                }
            }
            return None;
        }
        i = i + 1;
    }
    proof {
        assert(s@.take(n as int) =~= s@);
    }
    Some(acc as u32)
}

/// Decide which authorization URL to hand the user. `shortened` is the
/// URL shortener's answer, `None` when the shortener was not attempted
/// (no display session, or no API key configured) or failed outright.
/// A shortener that answers with one of its in-band failure sentinels
/// has not shortened anything, so the long URL stands.
pub fn select_authorize_url(long_url: String, shortened: Option<String>) -> (r: String)
    ensures
        shortened is None ==> r@ == long_url@,
        shortened is Some ==> {
            let s = shortened.unwrap();
            if s@ == "INVALID_ARG_ACCESS_TOKEN"@ || s@ == "MONTHLY_RATE_LIMIT_EXCEEDED"@ {
                r@ == long_url@
            } else {
                r@ == s@
            }
        },
{
    match shortened {
        Option::None => long_url,
        Option::Some(s) => {
            let invalid = String::from_str("INVALID_ARG_ACCESS_TOKEN");
            let limited = String::from_str("MONTHLY_RATE_LIMIT_EXCEEDED");
            if s == invalid || s == limited {
                long_url
            } else {
                s
            }
        },
    }
}

} // verus!
