//! Address and credentials of one Hue bridge.
use vstd::prelude::*;
use crate::hue::error::HueError;
use crate::text::{owned, trim, trim_spec};

verus! {

/// The characters of an optional string.
pub open spec fn opt_chars(o: Option<String>) -> Option<Seq<char>> {
    match o {
        Some(s) => Some(s@),
        None => None,
    }
}

/// A bridge address with an optional application key (username); both are kept trimmed,
/// the address is never empty and a present username is never empty.
#[derive(Clone, Debug, PartialEq, Eq)]
pub struct HueBridgeConfig {
    bridge_ip: String,
    username: Option<String>,
}

/// The username that `HueBridgeConfig::new` keeps from an optional input.
pub open spec fn cleaned_username(username: Option<Seq<char>>) -> Option<Seq<char>> {
    match username {
        Some(u) => if trim_spec(u).len() == 0 {
            None
        } else {
            Some(trim_spec(u))
        },
        None => None,
    }
}

/// `https://<bridge>/api/<username>` for a configuration view that carries a username.
pub open spec fn authenticated_base(config: (Seq<char>, Option<Seq<char>>)) -> Seq<char> {
    "https://"@ + config.0 + "/api"@ + "/"@ + config.1->0
}

impl View for HueBridgeConfig {
    type V = (Seq<char>, Option<Seq<char>>);

    closed spec fn view(&self) -> (Seq<char>, Option<Seq<char>>) {
        (self.bridge_ip@, opt_chars(self.username))
    }
}

impl HueBridgeConfig {
    /// Builds a configuration from a bridge address and an optional username, trimming both.
    /// An empty address is refused; an empty username counts as absent.
    pub fn new(bridge_ip: String, username: Option<String>) -> (r: Result<Self, HueError>)
        ensures
            trim_spec(bridge_ip@).len() == 0 <==> r is Err,
            r matches Err(e) ==> e matches HueError::InvalidConfig(m) && m@ == "bridge IP is required"@,
            r matches Ok(c) ==> c@ == (trim_spec(bridge_ip@), cleaned_username(opt_chars(username))),
    {
        let ip = owned(trim(bridge_ip.as_str()));
        if ip.as_str().unicode_len() == 0 {
            return Err(HueError::InvalidConfig(String::from_str("bridge IP is required")));
        }
        let cleaned = match username {
            Some(value) => {
                let t = owned(trim(value.as_str()));
                if t.as_str().unicode_len() == 0 {
                    None
                } else {
                    Some(t)
                }
            },
            None => None,
        };
        Ok(HueBridgeConfig { bridge_ip: ip, username: cleaned })
    }

    /// Builds a configuration that must carry a username.
    pub fn authenticated(bridge_ip: String, username: String) -> (r: Result<Self, HueError>)
        ensures
            trim_spec(bridge_ip@).len() == 0 ==> (r matches Err(HueError::InvalidConfig(m)) && m@
                == "bridge IP is required"@),
            trim_spec(bridge_ip@).len() != 0 && trim_spec(username@).len() == 0 ==> (r matches Err(
                HueError::InvalidConfig(m),
            ) && m@ == "username is required"@),
            r is Ok <==> trim_spec(bridge_ip@).len() != 0 && trim_spec(username@).len() != 0,
            r matches Ok(c) ==> c@ == (trim_spec(bridge_ip@), Some(trim_spec(username@))),
    {
        let config = Self::new(bridge_ip, Some(username))?;
        if config.username.is_none() {
            return Err(HueError::InvalidConfig(String::from_str("username is required")));
        }
        Ok(config)
    }

    /// `https://<bridge>/api`
    pub fn api_base_url(&self) -> (r: String)
        ensures
            r@ == "https://"@ + self@.0 + "/api"@,
    {
        String::from_str("https://").concat(self.bridge_ip.as_str()).concat("/api")
    }

    /// `https://<bridge>/clip/v2`
    pub fn clip_v2_base_url(&self) -> (r: String)
        ensures
            r@ == "https://"@ + self@.0 + "/clip/v2"@,
    {
        String::from_str("https://").concat(self.bridge_ip.as_str()).concat("/clip/v2")
    }

    /// `https://<bridge>/auth/v1`
    pub fn auth_v1_url(&self) -> (r: String)
        ensures
            r@ == "https://"@ + self@.0 + "/auth/v1"@,
    {
        String::from_str("https://").concat(self.bridge_ip.as_str()).concat("/auth/v1")
    }

    /// `https://<bridge>/api/<username>`, which needs a username.
    pub fn authenticated_api_base_url(&self) -> (r: Result<String, HueError>)
        ensures
            self@.1 is None <==> r is Err,
            r matches Err(e) ==> e == HueError::MissingUsername,
            r matches Ok(u) ==> u@ == authenticated_base(self@),
    {
        match &self.username {
            Some(name) => Ok(self.api_base_url().concat("/").concat(name.as_str())),
            None => Err(HueError::MissingUsername),
        }
    }

    /// The username, which the entertainment API calls the application key.
    pub fn application_key(&self) -> (r: Result<&str, HueError>)
        ensures
            self@.1 is None <==> r is Err,
            r matches Err(e) ==> e == HueError::MissingUsername,
            r matches Ok(k) ==> k@ == self@.1->0,
    {
        match &self.username {
            Some(name) => Ok(name.as_str()),
            None => Err(HueError::MissingUsername),
        }
    }
}

} // verus!
