//! The settings of the program.

use vstd::prelude::*;
use vstd::string::StringExecFns;

verus! {

/// The settings of the program.
#[derive(Clone, Debug)]
pub struct AppConfig {
    pub notes_path: String,
    pub index_path: String,
    pub vec_db_path: String,
    pub deploy_key_path: String,
    pub vapid_key_path: String,
    pub note_search_api_url: String,
    pub searxng_api_url: String,
    pub gmail_api_client_id: String,
    pub gmail_api_client_secret: String,
    pub google_search_api_key: String,
    pub google_search_cx_id: String,
    pub openai_model: String,
    pub openai_api_hostname: String,
    pub openai_api_key: String,
    pub system_message: String,
}

/// What the environment sets, variable by variable.
#[derive(Debug)]
pub struct Environment {
    pub storage_path: Option<String>,
    pub notes_deploy_key_path: Option<String>,
    pub vapid_key_path: Option<String>,
    pub note_search_api_url: Option<String>,
    pub searxng_api_url: Option<String>,
    pub gmail_client_id: Option<String>,
    pub gmail_client_secret: Option<String>,
    pub local_llm_host: Option<String>,
    pub openai_api_key: Option<String>,
    pub local_llm_model: Option<String>,
    pub system_message: Option<String>,
    pub google_search_api_key: Option<String>,
    pub google_search_cx_id: Option<String>,
}

/// A variable that must be set.
#[derive(Clone, Copy, Debug, PartialEq, Eq, Structural)]
pub enum RequiredVariable {
    NotesDeployKeyPath,
    VapidKeyPath,
    GmailClientId,
    GmailClientSecret,
    GoogleSearchApiKey,
    GoogleSearchCxId,
}

/// The text of a setting, and `otherwise` where it is not set.
pub open spec fn or_text(value: Option<String>, otherwise: Seq<char>) -> Seq<char> {
    match value {
        Some(text) => text@,
        None => otherwise,
    }
}

/// The text of a setting, and `otherwise` where it is not set.
fn or_default(value: Option<String>, otherwise: &str) -> (r: String)
    ensures
        r@ == or_text(value, otherwise@),
{
    match value {
        Some(text) => text,
        None => otherwise.to_owned(),
    }
}

impl Environment {
    /// The first variable that must be set and is not, in the order in
    /// which the settings are read.
    pub open spec fn missing(&self) -> Option<RequiredVariable> {
        if self.notes_deploy_key_path is None {
            Some(RequiredVariable::NotesDeployKeyPath)
        } else if self.vapid_key_path is None {
            Some(RequiredVariable::VapidKeyPath)
        } else if self.gmail_client_id is None {
            Some(RequiredVariable::GmailClientId)
        } else if self.gmail_client_secret is None {
            Some(RequiredVariable::GmailClientSecret)
        } else if self.google_search_api_key is None {
            Some(RequiredVariable::GoogleSearchApiKey)
        } else if self.google_search_cx_id is None {
            Some(RequiredVariable::GoogleSearchCxId)
        } else {
            None
        }
    }
}

impl RequiredVariable {
    /// The name of the variable in the environment.
    pub fn name(&self) -> (r: &'static str)
        ensures
            r@ == match self {
                RequiredVariable::NotesDeployKeyPath => "HQ_NOTES_DEPLOY_KEY_PATH"@,
                RequiredVariable::VapidKeyPath => "HQ_VAPID_KEY_PATH"@,
                RequiredVariable::GmailClientId => "HQ_GMAIL_CLIENT_ID"@,
                RequiredVariable::GmailClientSecret => "HQ_GMAIL_CLIENT_SECRET"@,
                RequiredVariable::GoogleSearchApiKey => "HQ_GOOGLE_SEARCH_API_KEY"@,
                RequiredVariable::GoogleSearchCxId => "HQ_GOOGLE_SEARCH_CX_ID"@,
            },
    {
        match self {
            RequiredVariable::NotesDeployKeyPath => "HQ_NOTES_DEPLOY_KEY_PATH",
            RequiredVariable::VapidKeyPath => "HQ_VAPID_KEY_PATH",
            RequiredVariable::GmailClientId => "HQ_GMAIL_CLIENT_ID",
            RequiredVariable::GmailClientSecret => "HQ_GMAIL_CLIENT_SECRET",
            RequiredVariable::GoogleSearchApiKey => "HQ_GOOGLE_SEARCH_API_KEY",
            RequiredVariable::GoogleSearchCxId => "HQ_GOOGLE_SEARCH_CX_ID",
        }
    }
}

impl AppConfig {
    /// The settings that an environment gives. The directories lie under
    /// the storage path, which is `./` unless it is set; the services are
    /// looked for on this machine unless their addresses are set; and six
    /// variables must be set, of which the first that is missing is
    /// reported.
    pub fn from_environment(env: Environment) -> (r: Result<AppConfig, RequiredVariable>)
        ensures
            match r {
                Err(variable) => env.missing() == Some(variable),
                Ok(config) => {
                    &&& env.missing() is None
                    &&& config.index_path@ == or_text(env.storage_path, "./"@) + "/index"@
                    &&& config.notes_path@ == or_text(env.storage_path, "./"@) + "/notes"@
                    &&& config.vec_db_path@ == or_text(env.storage_path, "./"@) + "/db"@
                    &&& config.deploy_key_path@ == env.notes_deploy_key_path->0@
                    &&& config.vapid_key_path@ == env.vapid_key_path->0@
                    &&& config.note_search_api_url@ == or_text(
                        env.note_search_api_url,
                        "http://127.0.0.1:2222"@,
                    )
                    &&& config.searxng_api_url@ == or_text(
                        env.searxng_api_url,
                        "http://127.0.0.1:8080"@,
                    )
                    &&& config.gmail_api_client_id@ == env.gmail_client_id->0@
                    &&& config.gmail_api_client_secret@ == env.gmail_client_secret->0@
                    &&& config.google_search_api_key@ == env.google_search_api_key->0@
                    &&& config.google_search_cx_id@ == env.google_search_cx_id->0@
                    &&& config.openai_api_hostname@ == or_text(
                        env.local_llm_host,
                        "https://api.openai.com"@,
                    )
                    &&& config.openai_api_key@ == or_text(
                        env.openai_api_key,
                        "thiswontworkforopenai"@,
                    )
                    &&& config.openai_model@ == or_text(env.local_llm_model, "gpt-4.1-mini"@)
                    &&& config.system_message@ == or_text(
                        env.system_message,
                        "You are a helpful assistant."@,
                    )
                },
            },
    {
        let storage = or_default(env.storage_path, "./");
        let deploy_key_path = match env.notes_deploy_key_path {
            Some(path) => path,
            None => {
                return Err(RequiredVariable::NotesDeployKeyPath);
            },
        };
        let vapid_key_path = match env.vapid_key_path {
            Some(path) => path,
            None => {
                return Err(RequiredVariable::VapidKeyPath);
            },
        };
        let gmail_api_client_id = match env.gmail_client_id {
            Some(id) => id,
            None => {
                return Err(RequiredVariable::GmailClientId);
            },
        };
        let gmail_api_client_secret = match env.gmail_client_secret {
            Some(secret) => secret,
            None => {
                return Err(RequiredVariable::GmailClientSecret);
            },
        };
        let google_search_api_key = match env.google_search_api_key {
            Some(key) => key,
            None => {
                return Err(RequiredVariable::GoogleSearchApiKey);
            },
        };
        let google_search_cx_id = match env.google_search_cx_id {
            Some(id) => id,
            None => {
                return Err(RequiredVariable::GoogleSearchCxId);
            },
        };
        Ok(
            AppConfig {
                notes_path: storage.clone().concat("/notes"),
                index_path: storage.clone().concat("/index"),
                vec_db_path: storage.concat("/db"),
                deploy_key_path,
                vapid_key_path,
                note_search_api_url: or_default(env.note_search_api_url, "http://127.0.0.1:2222"),
                searxng_api_url: or_default(env.searxng_api_url, "http://127.0.0.1:8080"),
                gmail_api_client_id,
                gmail_api_client_secret,
                google_search_api_key,
                google_search_cx_id,
                openai_model: or_default(env.local_llm_model, "gpt-4.1-mini"),
                openai_api_hostname: or_default(env.local_llm_host, "https://api.openai.com"),
                openai_api_key: or_default(env.openai_api_key, "thiswontworkforopenai"),
                system_message: or_default(env.system_message, "You are a helpful assistant."),
            },
        )
    }
}

} // verus!
