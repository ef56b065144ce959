//! Client configuration: credentials, the service endpoint and the folder
//! downloads go to, with the order in which the configuration file, the
//! environment and command-line options override each other.

use vstd::prelude::*;

verus! {

/// The endpoint a configuration starts with.
pub const DEFAULT_ENDPOINT: &'static str = "https://api.jodavaho.io/hfopt/v2";

/// The endpoint used when a configuration file has no `api` section.
pub const PREVIEW_ENDPOINT: &'static str = "https://api.jodavaho.io/hfoptpreview/v2";

/// The folder downloads go to unless configured otherwise.
pub const DEFAULT_DOWNLOAD_PATH: &'static str = ".";

#[derive(Debug)]
pub struct Config {
    pub username: String,
    pub password: String,
    pub endpoint: String,
    pub download_path: String,
}

/// What a configuration file holds: the `username` and `password` of its
/// `user` section, whether it has an `api` section, and that section's
/// `endpoint`.
#[derive(Debug)]
pub struct FileSettings {
    pub username: Option<String>,
    pub password: Option<String>,
    pub has_api_section: bool,
    pub endpoint: Option<String>,
}

/// Values that replace the configured ones where given: from the
/// environment, or from command-line options.
#[derive(Debug)]
pub struct Overrides {
    pub username: Option<String>,
    pub password: Option<String>,
    pub endpoint: Option<String>,
}

/// `current`, or the given replacement.
pub open spec fn overridden(current: Seq<char>, o: Option<String>) -> Seq<char> {
    match o {
        Some(s) => s@,
        None => current,
    }
}

/// The endpoint after reading a configuration file: the file's when its
/// `api` section gives one, unchanged when the section gives none, and the
/// preview endpoint when there is no such section.
pub open spec fn endpoint_after_file(current: Seq<char>, f: FileSettings) -> Seq<char> {
    if !f.has_api_section {
        PREVIEW_ENDPOINT@
    } else {
        overridden(current, f.endpoint)
    }
}

/// The credentials are taken from a file only when it gives both.
pub open spec fn file_has_credentials(f: FileSettings) -> bool {
    f.username is Some && f.password is Some
}

fn take_override(current: String, o: Option<String>) -> (r: String)
    ensures
        r@ == overridden(current@, o),
{
    match o {
        Some(s) => s,
        None => current,
    }
}

impl Config {
    /// The starting configuration: no credentials, the default endpoint.
    pub fn new() -> (r: Config)
        ensures
            r.username@ == Seq::<char>::empty(),
            r.password@ == Seq::<char>::empty(),
            r.endpoint@ == DEFAULT_ENDPOINT@,
            r.download_path@ == DEFAULT_DOWNLOAD_PATH@,
    {
        Config {
            username: String::new(),
            password: String::new(),
            endpoint: DEFAULT_ENDPOINT.to_owned(),
            download_path: DEFAULT_DOWNLOAD_PATH.to_owned(),
        }
    }

    /// Replaces each value that is given.
    pub fn from_options(
        self,
        username: Option<String>,
        password: Option<String>,
        endpoint: Option<String>,
    ) -> (r: Config)
        ensures
            r.username@ == overridden(self.username@, username),
            r.password@ == overridden(self.password@, password),
            r.endpoint@ == overridden(self.endpoint@, endpoint),
            r.download_path@ == self.download_path@,
    {
        Config {
            username: take_override(self.username, username),
            password: take_override(self.password, password),
            endpoint: take_override(self.endpoint, endpoint),
            download_path: self.download_path,
        }
    }

    /// Applies what a configuration file holds.
    pub fn apply_file(self, file: FileSettings) -> (r: Config)
        ensures
            file_has_credentials(file) ==> r.username@ == file.username->0@ && r.password@
                == file.password->0@,
            !file_has_credentials(file) ==> r.username@ == self.username@ && r.password@
                == self.password@,
            r.endpoint@ == endpoint_after_file(self.endpoint@, file),
            r.download_path@ == self.download_path@,
    {
        let Config { username, password, endpoint, download_path } = self;
        let FileSettings { username: fu, password: fp, has_api_section, endpoint: fe } = file;
        let (username, password) = match (fu, fp) {
            (Some(u), Some(p)) => (u, p),
            _ => (username, password),
        };
        let endpoint = if has_api_section {
            take_override(endpoint, fe)
        } else {
            PREVIEW_ENDPOINT.to_owned()
        };
        Config { username, password, endpoint, download_path }
    }

    /// The configuration from a file, then the environment, then
    /// command-line options, each overriding the one before.
    pub fn load_all(self, file: FileSettings, env: Overrides, options: Overrides) -> (r: Config)
        ensures
            r.username@ == overridden(
                overridden(
                    if file_has_credentials(file) {
                        file.username->0@
                    } else {
                        self.username@
                    },
                    env.username,
                ),
                options.username,
            ),
            r.password@ == overridden(
                overridden(
                    if file_has_credentials(file) {
                        file.password->0@
                    } else {
                        self.password@
                    },
                    env.password,
                ),
                options.password,
            ),
            r.endpoint@ == overridden(
                overridden(endpoint_after_file(self.endpoint@, file), env.endpoint),
                options.endpoint,
            ),
            r.download_path@ == self.download_path@,
    {
        self.apply_file(file).from_options(env.username, env.password, env.endpoint).from_options(
            options.username,
            options.password,
            options.endpoint,
        )
    }
}

} // verus!
