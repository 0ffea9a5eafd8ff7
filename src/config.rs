use vstd::prelude::*;
use crate::text::{join_path, joined_path};

verus! {

/// Why settings could not become a configuration.
#[derive(Debug, Clone, Copy, PartialEq, Eq, Structural)]
pub enum ConfigError {
    /// No API token was configured.
    MissingApiToken,
    /// No editor was configured and `$EDITOR` is not set.
    MissingEditor,
}

/// The settings of the application, fixed once loaded.
#[derive(Debug)]
pub struct Config {
    notes_dir: String,
    cache_dir: Option<String>,
    api_token: String,
    editor: String,
    home_dir: String,
}

/// The cache directory used when none is configured.
pub open spec fn default_cache_dir_of(home: Seq<char>) -> Seq<char> {
    joined_path(joined_path(home, ".cache"@), "shortcut-notes"@)
}

impl Clone for Config {
    fn clone(&self) -> (r: Self)
        ensures
            r == *self,
    {
        Config {
            notes_dir: self.notes_dir.clone(),
            cache_dir: match &self.cache_dir {
                Some(d) => Some(d.clone()),
                None => None,
            },
            api_token: self.api_token.clone(),
            editor: self.editor.clone(),
            home_dir: self.home_dir.clone(),
        }
    }
}

impl Config {
    pub closed spec fn notes_dir_view(&self) -> Seq<char> {
        self.notes_dir@
    }

    pub closed spec fn cache_dir_view(&self) -> Seq<char> {
        match self.cache_dir {
            Some(d) => d@,
            None => default_cache_dir_of(self.home_dir@),
        }
    }

    pub closed spec fn has_configured_cache_dir(&self) -> bool {
        self.cache_dir.is_some()
    }

    pub closed spec fn home_dir_view(&self) -> Seq<char> {
        self.home_dir@
    }

    pub closed spec fn api_token_view(&self) -> Seq<char> {
        self.api_token@
    }

    pub closed spec fn editor_view(&self) -> Seq<char> {
        self.editor@
    }

    /// Builds a configuration from settings that are already expanded.
    /// The editor is the configured one, else the one of `$EDITOR`; the
    /// cache directory is the configured one, else `.cache/shortcut-notes`
    /// under the home directory.
    pub fn from_settings(
        notes_dir: String,
        cache_dir: Option<String>,
        api_token: String,
        editor: Option<String>,
        env_editor: Option<String>,
        home_dir: String,
    ) -> (r: Result<Config, ConfigError>)
        ensures
            api_token@.len() == 0 ==> r == Err::<Config, ConfigError>(ConfigError::MissingApiToken),
            api_token@.len() > 0 && editor.is_none() && env_editor.is_none() ==> r == Err::<
                Config,
                ConfigError,
            >(ConfigError::MissingEditor),
            api_token@.len() > 0 && (editor.is_some() || env_editor.is_some()) ==> r is Ok,
            r matches Ok(c) ==> {
                &&& c.notes_dir_view() == notes_dir@
                &&& c.api_token_view() == api_token@
                &&& c.editor_view() == match editor {
                    Some(e) => e@,
                    None => env_editor.unwrap()@,
                }
                &&& c.has_configured_cache_dir() == cache_dir.is_some()
                &&& c.home_dir_view() == home_dir@
                &&& c.cache_dir_view() == match cache_dir {
                    Some(d) => d@,
                    None => default_cache_dir_of(home_dir@),
                }
            },
    {
        if api_token.as_str().unicode_len() == 0 {
            return Err(ConfigError::MissingApiToken);
        }
        let editor = match editor {
            Some(e) => e,
            None => match env_editor {
                Some(e) => e,
                None => {
                    return Err(ConfigError::MissingEditor);
                },
            },
        };
        Ok(Config { notes_dir, cache_dir, api_token, editor, home_dir })
    }

    /// The directory that holds the notes.
    pub fn notes_dir(&self) -> (r: &String)
        ensures
            r@ == self.notes_dir_view(),
    {
        &self.notes_dir
    }

    /// The directory that holds the cache file.
    pub fn cache_dir(&self) -> (r: String)
        ensures
            r@ == self.cache_dir_view(),
    {
        match &self.cache_dir {
            Some(d) => d.clone(),
            None => {
                let base = join_path(self.home_dir.as_str(), ".cache");
                join_path(base.as_str(), "shortcut-notes")
            },
        }
    }

    /// The cache directory as configured, if one was.
    pub fn configured_cache_dir(&self) -> (r: Option<&String>)
        ensures
            r.is_some() == self.has_configured_cache_dir(),
            r matches Some(d) ==> d@ == self.cache_dir_view(),
    {
        match &self.cache_dir {
            Some(d) => Some(d),
            None => None,
        }
    }

    /// The token for the remote API.
    pub fn api_token(&self) -> (r: &str)
        ensures
            r@ == self.api_token_view(),
    {
        self.api_token.as_str()
    }

    /// The command that opens notes.
    pub fn editor(&self) -> (r: &str)
        ensures
            r@ == self.editor_view(),
    {
        self.editor.as_str()
    }
}

} // verus!
