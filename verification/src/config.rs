//! Settings of a server process: where the directory is, how to bind to it,
//! where and what to search, and the picture served when an entry has none.

use vstd::prelude::*;
use vstd::string::*;

verus! {

/// Directory address used when none is configured.
pub const DEFAULT_LDAP_URI: &'static str = "ldap://127.0.0.1:389";

/// Bind name used when none is configured.
pub const DEFAULT_BIND_DN: &'static str = "cn=bind_account,dc=acme,dc=com";

/// Bind password used when none is configured.
pub const DEFAULT_BIND_PASSWORD: &'static str = "$3cr3tp4$$w0rd";

/// Search base used when none is configured.
pub const DEFAULT_SEARCH_BASE: &'static str = "ou=users,dc=acme,dc=com";

/// Name of the picture attribute used when none is configured.
pub const DEFAULT_IMAGE_ATTR: &'static str = "thumbnailPhoto";

/// File that holds the fallback picture when no other is named.
pub const DEFAULT_IMAGE_PATH: &'static str = "default.png";

/// The settings of one server process. They are fixed at start-up and only
/// read afterwards.
#[derive(Clone, Debug, PartialEq, Eq)]
pub struct ServerConfig {
    /// Address of the directory service.
    pub ldap_uri: String,
    /// Name to bind as.
    pub bind_dn: String,
    /// Password of that name.
    pub bind_pw: String,
    /// Entry below which the search runs.
    pub base: String,
    /// Name of the attribute that holds an entry's picture.
    pub attr: String,
    /// Bytes of the picture served for an entry without that attribute.
    pub default_image: Vec<u8>,
}

/// The configured value of a setting, or `fallback` where none is configured.
pub open spec fn setting_or(value: Option<String>, fallback: Seq<char>) -> Seq<char> {
    match value {
        Some(text) => text@,
        None => fallback,
    }
}

/// The file from which the fallback picture is read: `filename`, or
/// `DEFAULT_IMAGE_PATH` where `filename` is empty.
pub open spec fn default_image_path_of(filename: Seq<char>) -> Seq<char> {
    if filename.len() > 0 {
        filename
    } else {
        DEFAULT_IMAGE_PATH@
    }
}

/// Chooses the file from which the fallback picture is read.
pub fn default_image_path<'a>(filename: &'a str) -> (path: &'a str)
    ensures
        path@ == default_image_path_of(filename@),
{
    if filename.is_empty() {
        DEFAULT_IMAGE_PATH
    } else {
        filename
    }
}

fn or_fallback(value: Option<String>, fallback: &str) -> (text: String)
    ensures
        text@ == setting_or(value, fallback@),
{
    match value {
        Some(text) => text,
        None => String::from_str(fallback),
    }
}

impl ServerConfig {
    /// Builds the settings from what the environment configures: each setting
    /// that is absent takes its fallback. The fallback picture is handed in as
    /// read.
    pub fn from_settings(
        ldap_uri: Option<String>,
        bind_dn: Option<String>,
        bind_pw: Option<String>,
        base: Option<String>,
        attr: Option<String>,
        default_image: Vec<u8>,
    ) -> (config: ServerConfig)
        ensures
            config.ldap_uri@ == setting_or(ldap_uri, DEFAULT_LDAP_URI@),
            config.bind_dn@ == setting_or(bind_dn, DEFAULT_BIND_DN@),
            config.bind_pw@ == setting_or(bind_pw, DEFAULT_BIND_PASSWORD@),
            config.base@ == setting_or(base, DEFAULT_SEARCH_BASE@),
            config.attr@ == setting_or(attr, DEFAULT_IMAGE_ATTR@),
            config.default_image@ == default_image@,
    {
        ServerConfig {
            ldap_uri: or_fallback(ldap_uri, DEFAULT_LDAP_URI),
            bind_dn: or_fallback(bind_dn, DEFAULT_BIND_DN),
            bind_pw: or_fallback(bind_pw, DEFAULT_BIND_PASSWORD),
            base: or_fallback(base, DEFAULT_SEARCH_BASE),
            attr: or_fallback(attr, DEFAULT_IMAGE_ATTR),
            default_image,
        }
    }
}

} // verus!
