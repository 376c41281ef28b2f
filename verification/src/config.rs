//! The settings of the service, as plain values.

use vstd::prelude::*;

verus! {

/// Where the account lives and how to speak for it.
#[derive(Debug)]
pub struct MastodonConfig {
    base_url: String,
    client_id: String,
    client_secret: String,
    access_token: String,
}

/// The captioning service: the key to it and the model to ask.
#[derive(Debug)]
pub struct GptConfig {
    access_token: String,
    model: String,
}

/// Settings that belong to no single collaborator.
#[derive(Debug)]
pub struct GeneralConfig {
    max_tokens: usize,
    trigger_word: String,
}

/// How the periodic poll behaves.
#[derive(Clone, Copy, Debug, PartialEq, Eq, Structural)]
pub struct ManualRefreshConfig {
    /// Whether the account is polled at all.
    pub enabled: bool,
    /// Seconds between two polls.
    pub interval: u64,
    /// How many recent posts every poll but the first asks for.
    pub statuses: usize,
    /// Seconds to wait before the first poll.
    pub initial_delay: u64,
    /// How many recent posts the first poll asks for.
    pub initial_statuses: usize,
}

/// All settings together.
#[derive(Debug)]
pub struct Config {
    mastodon: MastodonConfig,
    gpt: GptConfig,
    general: GeneralConfig,
    manual_refresh: ManualRefreshConfig,
}

/// What a `Config` holds.
pub struct ConfigView {
    pub mastodon_base_url: Seq<char>,
    pub mastodon_client_id: Seq<char>,
    pub mastodon_client_secret: Seq<char>,
    pub mastodon_access_token: Seq<char>,
    pub gpt_access_token: Seq<char>,
    pub model: Seq<char>,
    pub max_tokens: usize,
    pub trigger_word: Seq<char>,
    pub manual_refresh: ManualRefreshConfig,
}

impl View for Config {
    type V = ConfigView;

    closed spec fn view(&self) -> ConfigView {
        ConfigView {
            mastodon_base_url: self.mastodon.base_url@,
            mastodon_client_id: self.mastodon.client_id@,
            mastodon_client_secret: self.mastodon.client_secret@,
            mastodon_access_token: self.mastodon.access_token@,
            gpt_access_token: self.gpt.access_token@,
            model: self.gpt.model@,
            max_tokens: self.general.max_tokens,
            trigger_word: self.general.trigger_word@,
            manual_refresh: self.manual_refresh,
        }
    }
}

impl MastodonConfig {
    /// The address of the server.
    pub closed spec fn base_url(&self) -> Seq<char> {
        self.base_url@
    }

    /// The identifier under which the service is registered.
    pub closed spec fn client_id(&self) -> Seq<char> {
        self.client_id@
    }

    /// The secret that goes with the client identifier.
    pub closed spec fn client_secret(&self) -> Seq<char> {
        self.client_secret@
    }

    /// The token that speaks for the account.
    pub closed spec fn access_token(&self) -> Seq<char> {
        self.access_token@
    }

    /// The account settings made of the four texts given.
    pub fn new(
        base_url: String,
        client_id: String,
        client_secret: String,
        access_token: String,
    ) -> (r: MastodonConfig)
        ensures
            r.base_url() == base_url@,
            r.client_id() == client_id@,
            r.client_secret() == client_secret@,
            r.access_token() == access_token@,
    {
        MastodonConfig { base_url, client_id, client_secret, access_token }
    }
}

impl GptConfig {
    /// The key to the captioning service.
    pub closed spec fn access_token(&self) -> Seq<char> {
        self.access_token@
    }

    /// The name of the model to ask.
    pub closed spec fn model(&self) -> Seq<char> {
        self.model@
    }

    /// The captioning settings made of the key and the model's name.
    pub fn new(access_token: String, model: String) -> (r: GptConfig)
        ensures
            r.access_token() == access_token@,
            r.model() == model@,
    {
        GptConfig { access_token, model }
    }
}

impl GeneralConfig {
    /// The most tokens a caption may take.
    pub closed spec fn max_tokens(&self) -> usize {
        self.max_tokens
    }

    /// The word that asks for a caption.
    pub closed spec fn trigger_word(&self) -> Seq<char> {
        self.trigger_word@
    }

    /// The general settings made of the two values given.
    pub fn new(max_tokens: usize, trigger_word: String) -> (r: GeneralConfig)
        ensures
            r.max_tokens() == max_tokens,
            r.trigger_word() == trigger_word@,
    {
        GeneralConfig { max_tokens, trigger_word }
    }
}

impl Config {
    /// The settings made of the four parts given.
    pub fn new(
        mastodon: MastodonConfig,
        gpt: GptConfig,
        general: GeneralConfig,
        manual_refresh: ManualRefreshConfig,
    ) -> (r: Config)
        ensures
            r@ == (ConfigView {
                mastodon_base_url: mastodon.base_url(),
                mastodon_client_id: mastodon.client_id(),
                mastodon_client_secret: mastodon.client_secret(),
                mastodon_access_token: mastodon.access_token(),
                gpt_access_token: gpt.access_token(),
                model: gpt.model(),
                max_tokens: general.max_tokens(),
                trigger_word: general.trigger_word(),
                manual_refresh: manual_refresh,
            }),
    {
        Config { mastodon, gpt, general, manual_refresh }
    }

    /// The name of the captioning model.
    pub fn get_model(&self) -> (r: String)
        ensures
            r@ == self@.model,
    {
        self.gpt.model.clone()
    }

    /// The key to the captioning service.
    pub fn get_gpt_api_key(&self) -> (r: String)
        ensures
            r@ == self@.gpt_access_token,
    {
        self.gpt.access_token.clone()
    }

    /// The address of the account's server, without a trailing path.
    pub fn get_mastodon_base_url(&self) -> (r: String)
        ensures
            r@ == self@.mastodon_base_url,
    {
        self.mastodon.base_url.clone()
    }

    /// The token that speaks for the account.
    pub fn get_mastodon_access_token(&self) -> (r: String)
        ensures
            r@ == self@.mastodon_access_token,
    {
        self.mastodon.access_token.clone()
    }

    /// The identifier under which the service is registered with the server.
    pub fn get_mastodon_client_id(&self) -> (r: String)
        ensures
            r@ == self@.mastodon_client_id,
    {
        self.mastodon.client_id.clone()
    }

    /// The secret that goes with the client identifier.
    pub fn get_mastodon_client_secret(&self) -> (r: String)
        ensures
            r@ == self@.mastodon_client_secret,
    {
        self.mastodon.client_secret.clone()
    }

    /// The most tokens a caption may take.
    pub fn get_max_tokens(&self) -> (r: usize)
        ensures
            r == self@.max_tokens,
    {
        self.general.max_tokens
    }

    /// The word that asks for a caption. Nothing reads it yet.
    pub fn get_trigger_word(&self) -> (r: String)
        ensures
            r@ == self@.trigger_word,
    {
        self.general.trigger_word.clone()
    }

    /// The settings of the periodic poll.
    pub fn get_manual_refresh_config(&self) -> (r: ManualRefreshConfig)
        ensures
            r == self@.manual_refresh,
    {
        self.manual_refresh
    }
}

impl Clone for Config {
    fn clone(&self) -> (r: Config)
        ensures
            r@ == self@,
    {
        Config {
            mastodon: MastodonConfig {
                base_url: self.mastodon.base_url.clone(),
                client_id: self.mastodon.client_id.clone(),
                client_secret: self.mastodon.client_secret.clone(),
                access_token: self.mastodon.access_token.clone(),
            },
            gpt: GptConfig {
                access_token: self.gpt.access_token.clone(),
                model: self.gpt.model.clone(),
            },
            general: GeneralConfig {
                max_tokens: self.general.max_tokens,
                trigger_word: self.general.trigger_word.clone(),
            },
            manual_refresh: self.manual_refresh,
        }
    }
}

} // verus!
