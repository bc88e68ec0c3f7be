//! The program's configuration: which service uploads go to, and that
//! service's options.

use vstd::prelude::*;
use crate::options::Options;
use crate::text::string_of;

verus! {

/// The option key under which the expiry time for litterbox uploads is kept.
pub open spec fn time_key() -> Seq<char> {
    "time"@
}

/// The expiry time that litterbox uploads use when none is configured.
pub open spec fn default_upload_time() -> Seq<char> {
    "1h"@
}

/// The configured time, or `default` when none is set.
pub open spec fn time_or(options: Map<Seq<char>, Seq<char>>, default: Seq<char>) -> Seq<char> {
    if options.contains_key(time_key()) {
        options[time_key()]
    } else {
        default
    }
}

/// The settings of the service that uploads go to.
pub struct ApiConfig {
    /// The name of the service, such as `litterbox`.
    pub api_type: String,
    /// Service options, such as `time` for litterbox.
    pub options: Options,
}

/// The whole configuration.
pub struct Config {
    pub api: ApiConfig,
}

impl ApiConfig {
    /// The expiry time sent with a litterbox upload: the `time` option, or
    /// `1h` when it is not set.
    pub fn upload_time(&self) -> (t: String)
        ensures
            t@ == time_or(self.options@, default_upload_time()),
    {
        match self.options.get("time") {
            Some(t) => t,
            None => string_of("1h"),
        }
    }

    /// Takes a `time` written directly under the API settings (as in
    /// `[api]` / `time = "1h"`) as the `time` option, unless the options
    /// already hold one.
    pub fn adopt_loose_time(&mut self, time: Option<String>)
        ensures
            final(self).api_type == old(self).api_type,
            final(self).options@ == match time {
                Some(t) => if old(self).options@.contains_key(time_key()) {
                    old(self).options@
                } else {
                    old(self).options@.insert(time_key(), t@)
                },
                None => old(self).options@,
            },
    {
        match time {
            Some(t) => {
                if self.options.get("time").is_none() {
                    self.options.insert(string_of("time"), t);
                }
            },
            None => {},
        }
    }

    /// The time the configuration menu shows: the `time` option, or the
    /// empty string when it is not set.
    pub fn shown_time(&self) -> (t: String)
        ensures
            t@ == time_or(self.options@, Seq::<char>::empty()),
    {
        match self.options.get("time") {
            Some(t) => t,
            None => String::new(),
        }
    }
}

impl Config {
    /// The configuration used when none has been saved: uploads go to
    /// litterbox, with no options.
    pub fn default() -> (c: Config)
        ensures
            c.api.api_type@ == "litterbox"@,
            c.api.options@ == Map::<Seq<char>, Seq<char>>::empty(),
    {
        Config { api: ApiConfig { api_type: string_of("litterbox"), options: Options::new() } }
    }
}

} // verus!
