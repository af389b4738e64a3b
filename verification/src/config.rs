//! Configuration resolution: endpoint, model and API key are looked up
//! in an injected key-value source; endpoint and model have fixed
//! defaults, the API key is required.

use crate::errors::ClientError;
use vstd::prelude::*;

verus! {

/// An injected key-value configuration source. Later entries override
/// earlier ones, as repeated stores into a settings map would.
pub struct Settings {
    pub entries: Vec<(String, String)>,
}

/// The value stored under `key`: the last entry with that key wins.
pub open spec fn spec_lookup(entries: Seq<(String, String)>, key: Seq<char>) -> Option<Seq<char>>
    decreases entries.len(),
{
    if entries.len() == 0 {
        None
    } else if entries.last().0@ == key {
        Some(entries.last().1@)
    } else {
        spec_lookup(entries.drop_last(), key)
    }
}

impl Settings {
    /// A source with no entries.
    pub fn new() -> (r: Settings)
        ensures
            r.entries@.len() == 0,
    {
        Settings { entries: Vec::new() }
    }

    /// Stores `value` under `key`, overriding an earlier entry.
    pub fn set(&mut self, key: String, value: String)
        ensures
            final(self).entries@ == old(self).entries@.push((key, value)),
    {
        self.entries.push((key, value));
    }

    /// Looks `key` up; exactly [`spec_lookup`] on the entries.
    pub fn get(&self, key: &str) -> (r: Option<String>)
        ensures
            match r {
                Some(v) => spec_lookup(self.entries@, key@) == Some(v@),
                None => spec_lookup(self.entries@, key@) is None,
            },
    {
        let mut found: Option<String> = None;
        let mut i: usize = 0;
        proof {
            assert(self.entries@.take(0) =~= Seq::<(String, String)>::empty());
        }
        while i < self.entries.len()
            invariant
                i <= self.entries@.len(),
                match found {
                    Some(v) => spec_lookup(self.entries@.take(i as int), key@) == Some(v@),
                    None => spec_lookup(self.entries@.take(i as int), key@) is None,
                },
            decreases self.entries@.len() - i,
        {
            let entry = &self.entries[i];
            proof {
                assert(self.entries@.take(i as int + 1).drop_last() =~= self.entries@.take(
                    i as int,
                ));
                assert(self.entries@.take(i as int + 1).last() == self.entries@[i as int]);
            }
            if crate::text::str_eq(entry.0.as_str(), key) {
                found = Some(entry.1.clone());
            }
            i = i + 1;
        }
        proof {
            assert(self.entries@.take(self.entries@.len() as int) =~= self.entries@);
        }
        found
    }
}

/// The endpoint that a source resolves to: its entry or the default.
pub open spec fn spec_endpoint(entries: Seq<(String, String)>) -> Seq<char> {
    match spec_lookup(entries, "kilocode.api_endpoint"@) {
        Some(v) => v,
        None => "https://api.kilocode.ai/v1"@,
    }
}

/// The model that a source resolves to: its entry or the default.
pub open spec fn spec_model(entries: Seq<(String, String)>) -> Seq<char> {
    match spec_lookup(entries, "kilocode.model"@) {
        Some(v) => v,
        None => "gpt-4"@,
    }
}

/// The endpoint used when the source does not name one.
pub fn default_api_endpoint() -> (r: String)
    ensures
        r@ == "https://api.kilocode.ai/v1"@,
{
    String::from_str("https://api.kilocode.ai/v1")
}

/// The model used when the source does not name one.
pub fn default_model() -> (r: String)
    ensures
        r@ == "gpt-4"@,
{
    String::from_str("gpt-4")
}

/// A resolved client configuration: immutable for the lifetime of the
/// client built from it.
pub struct ClientConfig {
    pub api_key: String,
    pub base_url: String,
    pub model: String,
}

/// Resolves a configuration from the injected source: endpoint and
/// model fall back to the defaults, a missing API key is an error
/// naming the key to set.
pub fn resolve(settings: &Settings) -> (r: Result<ClientConfig, ClientError>)
    ensures
        match r {
            Ok(c) => {
                &&& spec_lookup(settings.entries@, "kilocode.api_key"@) == Some(c.api_key@)
                &&& c.base_url@ == match spec_lookup(settings.entries@, "kilocode.api_endpoint"@) {
                    Some(v) => v,
                    None => "https://api.kilocode.ai/v1"@,
                }
                &&& c.model@ == match spec_lookup(settings.entries@, "kilocode.model"@) {
                    Some(v) => v,
                    None => "gpt-4"@,
                }
            },
            Err(e) => {
                &&& spec_lookup(settings.entries@, "kilocode.api_key"@) is None
                &&& e matches ClientError::MissingCredential { key } && key@
                    == "kilocode.api_key"@
            },
        },
{
    let api_key: String = match settings.get("kilocode.api_key") {
        Some(k) => k,
        None => {
            return Err(
                ClientError::MissingCredential { key: String::from_str("kilocode.api_key") },
            );
        },
    };
    let base_url: String = match settings.get("kilocode.api_endpoint") {
        Some(u) => u,
        None => default_api_endpoint(),
    };
    let model: String = match settings.get("kilocode.model") {
        Some(m) => m,
        None => default_model(),
    };
    Ok(ClientConfig { api_key, base_url, model })
}

} // verus!
