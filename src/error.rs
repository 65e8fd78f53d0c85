use vstd::prelude::*;
use vstd::std_specs::convert::FromSpec;
use vstd::string::to_string_from_display_ensures;

verus! {

/// The fixed text of [`PluginError::VaultNotInitialized`].
pub open spec fn vault_not_initialized_text() -> Seq<char> {
    seq!['V', 'a', 'u', 'l', 't', ' ', 'n', 'o', 't', ' ', 'i', 'n', 'i', 't', 'i', 'a', 'l', 'i', 'z', 'e', 'd']
}

/// Every way a plugin operation can fail.
///
/// Each subsystem variant holds the subsystem's own failure value unchanged.
/// The persistent store's failures arrive as their diagnostic text.
pub enum PluginError {
    IO(std::io::Error),
    Serde(serde_json::Error),
    Keyring(keyring::Error),
    Minijinja(minijinja::Error),
    Store(String),
    VaultNotInitialized,
}

pub type Result<T> = std::result::Result<T, PluginError>;

impl PluginError {
    /// `s` is the boundary text of `self`: the wrapped failure's own display
    /// text with nothing added, or the fixed vault message.
    pub open spec fn renders_as(&self, s: String) -> bool {
        match self {
            PluginError::IO(e) => to_string_from_display_ensures::<std::io::Error>(e, s),
            PluginError::Serde(e) => to_string_from_display_ensures::<serde_json::Error>(e, s),
            PluginError::Keyring(e) => to_string_from_display_ensures::<keyring::Error>(e, s),
            PluginError::Minijinja(e) => to_string_from_display_ensures::<minijinja::Error>(e, s),
            PluginError::Store(m) => s@ == m@,
            PluginError::VaultNotInitialized => s@ == vault_not_initialized_text(),
        }
    }

    /// The text this error shows at the boundary: one string for every error,
    /// produced without any way to fail.
    pub fn to_display_string(&self) -> (r: String)
        ensures
            self.renders_as(r),
    {
        match self {
            PluginError::IO(e) => e.to_string(),
            PluginError::Serde(e) => e.to_string(),
            PluginError::Keyring(e) => e.to_string(),
            PluginError::Minijinja(e) => e.to_string(),
            PluginError::Store(m) => m.clone(),
            PluginError::VaultNotInitialized => {
                let r = "Vault not initialized".to_owned();
                proof {
                    reveal_strlit("Vault not initialized");
                    assert(r@ =~= vault_not_initialized_text());
                }
                r
            },
        }
    }
}

/// Wraps an input/output failure unchanged.
impl From<std::io::Error> for PluginError {
    fn from(e: std::io::Error) -> (r: PluginError) {
        PluginError::IO(e)
    }
}

impl vstd::std_specs::convert::FromSpecImpl<std::io::Error> for PluginError {
    open spec fn obeys_from_spec() -> bool {
        true
    }

    open spec fn from_spec(e: std::io::Error) -> PluginError {
        PluginError::IO(e)
    }
}

/// Wraps a JSON encoding or decoding failure unchanged.
impl From<serde_json::Error> for PluginError {
    fn from(e: serde_json::Error) -> (r: PluginError) {
        PluginError::Serde(e)
    }
}

impl vstd::std_specs::convert::FromSpecImpl<serde_json::Error> for PluginError {
    open spec fn obeys_from_spec() -> bool {
        true
    }

    open spec fn from_spec(e: serde_json::Error) -> PluginError {
        PluginError::Serde(e)
    }
}

/// Wraps a credential store failure unchanged.
impl From<keyring::Error> for PluginError {
    fn from(e: keyring::Error) -> (r: PluginError) {
        PluginError::Keyring(e)
    }
}

impl vstd::std_specs::convert::FromSpecImpl<keyring::Error> for PluginError {
    open spec fn obeys_from_spec() -> bool {
        true
    }

    open spec fn from_spec(e: keyring::Error) -> PluginError {
        PluginError::Keyring(e)
    }
}

/// Wraps a template rendering failure unchanged.
impl From<minijinja::Error> for PluginError {
    fn from(e: minijinja::Error) -> (r: PluginError) {
        PluginError::Minijinja(e)
    }
}

impl vstd::std_specs::convert::FromSpecImpl<minijinja::Error> for PluginError {
    open spec fn obeys_from_spec() -> bool {
        true
    }

    open spec fn from_spec(e: minijinja::Error) -> PluginError {
        PluginError::Minijinja(e)
    }
}

/// Wrapping a subsystem failure and rendering it gives exactly the failure's
/// own display text: the wrapper adds no prefix and changes nothing.
pub proof fn lemma_wrapping_is_transparent(
    io: std::io::Error,
    json: serde_json::Error,
    cred: keyring::Error,
    tmpl: minijinja::Error,
    s: String,
)
    ensures
        PluginError::from_spec(io).renders_as(s) <==> to_string_from_display_ensures(&io, s),
        PluginError::from_spec(json).renders_as(s) <==> to_string_from_display_ensures(&json, s),
        PluginError::from_spec(cred).renders_as(s) <==> to_string_from_display_ensures(&cred, s),
        PluginError::from_spec(tmpl).renders_as(s) <==> to_string_from_display_ensures(&tmpl, s),
{
}

/// The vault error renders as "Vault not initialized" and as nothing else.
pub proof fn lemma_vault_message_is_fixed(s: String)
    ensures
        PluginError::VaultNotInitialized.renders_as(s) <==> s@ == vault_not_initialized_text(),
{
}

} // verus!
