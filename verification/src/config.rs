//! The runtime's configuration.

use vstd::prelude::*;

verus! {

/// Who the runtime connects as, where, and which platform it delivers to.
pub struct Config {
    pub agent_id: String,
    pub api_key: String,
    pub api_base: String,
    pub platform: String,
    pub webhook_url: Option<String>,
    pub file_output_dir: Option<String>,
}

/// The API the runtime talks to unless told otherwise.
pub open spec fn default_api_base() -> Seq<char> {
    "https://api.signaldock.io"@
}

impl Config {
    /// The configuration saved by `connect`: no file output directory.
    pub fn for_connect(
        agent_id: String,
        api_key: String,
        api_base: String,
        platform: String,
        webhook_url: Option<String>,
    ) -> (c: Config)
        ensures
            c.agent_id@ == agent_id@,
            c.api_key@ == api_key@,
            c.api_base@ == api_base@,
            c.platform@ == platform@,
            c.webhook_url == webhook_url,
            c.file_output_dir is None,
    {
        Config { agent_id, api_key, api_base, platform, webhook_url, file_output_dir: None }
    }

    /// The configuration that `install-service` saves when given an id and a
    /// key: the default API, no webhook, no file output directory.
    pub fn for_service(agent_id: String, api_key: String, platform: String) -> (c: Config)
        ensures
            c.agent_id@ == agent_id@,
            c.api_key@ == api_key@,
            c.api_base@ == default_api_base(),
            c.platform@ == platform@,
            c.webhook_url is None,
            c.file_output_dir is None,
    {
        Config {
            agent_id,
            api_key,
            api_base: "https://api.signaldock.io".to_owned(),
            platform,
            webhook_url: None,
            file_output_dir: None,
        }
    }
}

} // verus!
