//! The settings of a run, read from named variables.

use crate::error::AppError;
use crate::text::same_text;
use vstd::prelude::*;

verus! {

/// The settings of a run.
#[derive(Debug, Clone, PartialEq, Eq)]
pub struct Config {
    pub api_url: String,
    pub token: String,
    pub youtube_api_key: String,
    pub supabase_api_key: String,
    pub ksforword_channel_id: String,
    pub use_mock_data: bool,
    pub my_ai_api_url: String,
    pub discord_ks_bot_token: String,
}

/// What `str::to_lowercase` makes of a text.
pub uninterp spec fn lowercased(s: Seq<char>) -> Seq<char>;

/// `str::to_lowercase`: the lowercase equivalent of `s`. The result depends
/// on the text alone; the contract gives it its name and claims no more.
#[verifier::external_body]
fn to_lowercase(s: &str) -> (lowered: String)
    ensures
        lowered@ == lowercased(s@),
{
    s.to_lowercase()
}

/// The value of the first variable called `name`.
pub open spec fn lookup(vars: Seq<(String, String)>, name: Seq<char>) -> Option<Seq<char>>
    decreases vars.len(),
{
    if vars.len() == 0 {
        None
    } else if vars[0].0@ == name {
        Some(vars[0].1@)
    } else {
        lookup(vars.drop_first(), name)
    }
}

/// The first required variable, in the order in which they are read, that
/// `vars` lacks.
pub open spec fn first_missing(vars: Seq<(String, String)>) -> Option<Seq<char>> {
    if lookup(vars, "API_URL"@) is None {
        Some("API_URL"@)
    } else if lookup(vars, "TOKEN"@) is None {
        Some("TOKEN"@)
    } else if lookup(vars, "YOUTUBE_API_KEY"@) is None {
        Some("YOUTUBE_API_KEY"@)
    } else if lookup(vars, "SUPABASE_API_KEY"@) is None {
        Some("SUPABASE_API_KEY"@)
    } else if lookup(vars, "KSFORWORD_CHANNEL_ID"@) is None {
        Some("KSFORWORD_CHANNEL_ID"@)
    } else if lookup(vars, "MY_AI_API_URL"@) is None {
        Some("MY_AI_API_URL"@)
    } else if lookup(vars, "DISCORD_KS_BOT_TOKEN"@) is None {
        Some("DISCORD_KS_BOT_TOKEN"@)
    } else {
        None
    }
}

/// Whether the canned transcript is selected, given the lowercase form of
/// the flag's value: only `true` selects it.
pub open spec fn flag_set(lowered: Seq<char>) -> bool {
    lowered == "true"@
}

/// Whether `vars` select the canned transcript: `USE_MOCK_DATA` is set and
/// its lowercase form is `true`.
pub open spec fn mock_selected(vars: Seq<(String, String)>) -> bool {
    match lookup(vars, "USE_MOCK_DATA"@) {
        Some(value) => flag_set(lowercased(value)),
        None => false,
    }
}

/// Whether `config` holds the values that `vars` give.
pub open spec fn reads(config: Config, vars: Seq<(String, String)>) -> bool {
    &&& Some(config.api_url@) == lookup(vars, "API_URL"@)
    &&& Some(config.token@) == lookup(vars, "TOKEN"@)
    &&& Some(config.youtube_api_key@) == lookup(vars, "YOUTUBE_API_KEY"@)
    &&& Some(config.supabase_api_key@) == lookup(vars, "SUPABASE_API_KEY"@)
    &&& Some(config.ksforword_channel_id@) == lookup(vars, "KSFORWORD_CHANNEL_ID"@)
    &&& config.use_mock_data == mock_selected(vars)
    &&& Some(config.my_ai_api_url@) == lookup(vars, "MY_AI_API_URL"@)
    &&& Some(config.discord_ks_bot_token@) == lookup(vars, "DISCORD_KS_BOT_TOKEN"@)
}

/// The value of the first variable called `name`.
pub fn find_var(vars: &Vec<(String, String)>, name: &str) -> (value: Option<String>)
    ensures
        crate::text::opt_text(value) == lookup(vars@, name@),
{
    let mut i: usize = 0;
    assert(vars@.skip(0) =~= vars@);
    while i < vars.len()
        invariant
            i <= vars@.len(),
            lookup(vars@, name@) == lookup(vars@.skip(i as int), name@),
        decreases vars@.len() - i,
    {
        proof {
            let rest = vars@.skip(i as int);
            assert(rest.drop_first() =~= vars@.skip(i + 1));
        }
        if same_text(vars[i].0.as_str(), name) {
            return Some(vars[i].1.clone());
        }
        i = i + 1;
    }
    None
}

/// Whether the lowercase form `lowered` of the flag's value selects the
/// canned transcript.
pub fn flag_is_set(lowered: &str) -> (set: bool)
    ensures
        set == flag_set(lowered@),
{
    same_text(lowered, "true")
}

fn required(vars: &Vec<(String, String)>, name: &str) -> (r: Result<String, AppError>)
    ensures
        match r {
            Ok(value) => lookup(vars@, name@) == Some(value@),
            Err(error) => {
                &&& lookup(vars@, name@) is None
                &&& error matches AppError::Config { message }
                &&& message@ == name@ + " is not set"@
            },
        },
{
    match find_var(vars, name) {
        Some(value) => Ok(value),
        None => {
            let mut message = name.to_owned();
            message.append(" is not set");
            Err(AppError::Config { message })
        },
    }
}

impl Config {
    /// Reads the settings from `vars`, pairs of a variable's name and its
    /// value.
    ///
    /// Every setting but `USE_MOCK_DATA` is required; where one is lacking,
    /// the error names the first that is. `USE_MOCK_DATA` counts as set
    /// only where its value, in lowercase, is `true`.
    pub fn from_vars(vars: &Vec<(String, String)>) -> (r: Result<Config, AppError>)
        ensures
            match r {
                Ok(config) => first_missing(vars@) is None && reads(config, vars@),
                Err(error) => {
                    &&& first_missing(vars@) matches Some(name)
                    &&& error matches AppError::Config { message }
                    &&& message@ == name + " is not set"@
                },
            },
    {
        let api_url = match required(vars, "API_URL") {
            Ok(value) => value,
            Err(error) => {
                return Err(error);
            },
        };
        let token = match required(vars, "TOKEN") {
            Ok(value) => value,
            Err(error) => {
                return Err(error);
            },
        };
        let youtube_api_key = match required(vars, "YOUTUBE_API_KEY") {
            Ok(value) => value,
            Err(error) => {
                return Err(error);
            },
        };
        let supabase_api_key = match required(vars, "SUPABASE_API_KEY") {
            Ok(value) => value,
            Err(error) => {
                return Err(error);
            },
        };
        let ksforword_channel_id = match required(vars, "KSFORWORD_CHANNEL_ID") {
            Ok(value) => value,
            Err(error) => {
                return Err(error);
            },
        };
        let use_mock_data = match find_var(vars, "USE_MOCK_DATA") {
            Some(value) => {
                let lowered = to_lowercase(value.as_str());
                flag_is_set(lowered.as_str())
            },
            None => false,
        };
        let my_ai_api_url = match required(vars, "MY_AI_API_URL") {
            Ok(value) => value,
            Err(error) => {
                return Err(error);
            },
        };
        let discord_ks_bot_token = match required(vars, "DISCORD_KS_BOT_TOKEN") {
            Ok(value) => value,
            Err(error) => {
                return Err(error);
            },
        };
        Ok(
            Config {
                api_url,
                token,
                youtube_api_key,
                supabase_api_key,
                ksforword_channel_id,
                use_mock_data,
                my_ai_api_url,
                discord_ks_bot_token,
            },
        )
    }
}

} // verus!
