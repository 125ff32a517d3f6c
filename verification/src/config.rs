//! How a server is set up.

use crate::text::{
    append_decimal, decimal, decimal_has_no_leading_zero, decimal_is_read_back, u16_is_read_back,
    u16_value,
};
use vstd::prelude::*;

verus! {

/// What the server is told when it starts.
pub struct Config {
    /// What callers of the protected endpoints have to present.
    pub api_token: String,
    /// The port that the server listens on.
    pub http_port: u16,
    /// Where browsers reach this server, where that is not its port on the local machine.
    pub self_url: Option<String>,
    pub github_client_id: Option<String>,
    pub github_client_secret: Option<String>,
    /// Where this server reaches AFFiNE.
    pub affine_url: Option<String>,
    /// Where browsers reach AFFiNE, where that is somewhere else.
    pub affine_public_url: Option<String>,
}

pub struct ConfigView {
    pub api_token: Seq<char>,
    pub http_port: u16,
    pub self_url: Option<Seq<char>>,
    pub github_client_id: Option<Seq<char>>,
    pub github_client_secret: Option<Seq<char>>,
    pub affine_url: Option<Seq<char>>,
    pub affine_public_url: Option<Seq<char>>,
}

impl DeepView for Config {
    type V = ConfigView;

    open spec fn deep_view(&self) -> ConfigView {
        ConfigView {
            api_token: self.api_token@,
            http_port: self.http_port,
            self_url: self.self_url.deep_view(),
            github_client_id: self.github_client_id.deep_view(),
            github_client_secret: self.github_client_secret.deep_view(),
            affine_url: self.affine_url.deep_view(),
            affine_public_url: self.affine_public_url.deep_view(),
        }
    }
}

/// Whether a setting has a value. An empty one counts as none: that is what a variable of the
/// environment holds that was passed on without being set.
pub open spec fn is_configured(setting: Option<Seq<char>>) -> bool {
    setting matches Some(value) && value.len() > 0
}

/// Whether a setting has a value.
pub fn configured(setting: &Option<String>) -> (yes: bool)
    ensures
        yes == is_configured(setting.deep_view()),
        yes <==> (setting matches Some(value) && value@.len() > 0),
{
    match setting {
        Some(value) => !value.as_str().is_empty(),
        None => false,
    }
}

impl ConfigView {
    /// Where browsers reach this server.
    pub open spec fn public_url(self) -> Seq<char> {
        match self.self_url {
            Some(url) => url,
            None => "http://localhost:"@ + decimal(self.http_port as nat),
        }
    }

    /// Where browsers reach AFFiNE.
    pub open spec fn affine_browser_url(self) -> Seq<char> {
        match (self.affine_public_url, self.affine_url) {
            (Some(url), _) => url,
            (None, Some(url)) => url,
            (None, None) => Seq::empty(),
        }
    }
}

impl Config {
    /// Where browsers reach this server: by default at its port on the local machine.
    pub fn self_url(&self) -> (url: String)
        ensures
            url@ == self.deep_view().public_url(),
            self.self_url matches Some(set) ==> url@ == set@,
            self.self_url is None ==> url@ == "http://localhost:"@ + decimal(
                self.http_port as nat,
            ),
    {
        match &self.self_url {
            Some(url) => url.clone(),
            None => {
                let mut url = "http://localhost:".to_owned();
                append_decimal(&mut url, self.http_port as u64);
                url
            },
        }
    }

    /// Where browsers reach AFFiNE: by default where this server does.
    pub fn affine_browser_url(&self) -> (url: String)
        ensures
            url@ == self.deep_view().affine_browser_url(),
            self.affine_public_url matches Some(set) ==> url@ == set@,
            self.affine_public_url is None ==> (self.affine_url matches Some(set) ==> url@
                == set@),
            self.affine_public_url is None && self.affine_url is None ==> url@.len() == 0,
    {
        match (&self.affine_public_url, &self.affine_url) {
            (Some(url), _) => url.clone(),
            (None, Some(url)) => url.clone(),
            (None, None) => String::new(),
        }
    }
}

/// A setting that is empty counts as one that is not there; any other counts.
pub proof fn an_empty_setting_counts_as_none(value: Seq<char>)
    ensures
        !is_configured(None),
        is_configured(Some(value)) <==> value != Seq::<char>::empty(),
{
    if value.len() == 0 {
        assert(value =~= Seq::<char>::empty());
    }
}

/// Browsers reach the server where its setting says, and otherwise at its own port, in decimal
/// notation, on the local machine.
pub proof fn where_browsers_reach_the_server(config: ConfigView)
    ensures
        config.self_url matches Some(url) ==> config.public_url() == url,
        config.self_url is None ==> exists|port: Seq<char>|
            {
                &&& config.public_url() == "http://localhost:"@ + port
                &&& #[trigger] u16_value(port) == Some(config.http_port)
                &&& port.len() > 1 ==> port[0] != '0' && port[0] != '+'
            },
{
    let port = decimal(config.http_port as nat);
    u16_is_read_back(config.http_port);
    decimal_is_read_back(config.http_port as nat);
    decimal_has_no_leading_zero(config.http_port as nat);
    assert(u16_value(port) == Some(config.http_port));
}

/// Browsers reach AFFiNE where the setting for browsers says, and otherwise where the server does;
/// where neither is set there is no address.
pub proof fn where_browsers_reach_affine(config: ConfigView)
    ensures
        config.affine_public_url matches Some(url) ==> config.affine_browser_url() == url,
        config.affine_public_url is None ==> (config.affine_url matches Some(url)
            ==> config.affine_browser_url() == url),
        config.affine_public_url is None && config.affine_url is None
            ==> config.affine_browser_url().len() == 0,
{
}

/// The value of a configuration holds every setting as it was made.
pub proof fn every_setting_counts_as_it_was_made(config: Config)
    ensures
        config.deep_view().api_token == config.api_token@,
        config.deep_view().http_port == config.http_port,
        is_setting(config.self_url, config.deep_view().self_url),
        is_setting(config.github_client_id, config.deep_view().github_client_id),
        is_setting(config.github_client_secret, config.deep_view().github_client_secret),
        is_setting(config.affine_url, config.deep_view().affine_url),
        is_setting(config.affine_public_url, config.deep_view().affine_public_url),
{
}

/// Whether `value` is what a setting was made as.
pub open spec fn is_setting(setting: Option<String>, value: Option<Seq<char>>) -> bool {
    match (setting, value) {
        (Some(made), Some(text)) => made@ == text,
        (None, None) => true,
        _ => false,
    }
}

} // verus!
