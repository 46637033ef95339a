use ldap_avatar::config::{
    default_image_path, ServerConfig, DEFAULT_BIND_DN, DEFAULT_BIND_PASSWORD, DEFAULT_IMAGE_ATTR,
    DEFAULT_IMAGE_PATH, DEFAULT_LDAP_URI, DEFAULT_SEARCH_BASE,
};

#[test]
fn fallback_values() {
    assert_eq!(DEFAULT_LDAP_URI, "ldap://127.0.0.1:389");
    assert_eq!(DEFAULT_BIND_DN, "cn=bind_account,dc=acme,dc=com");
    assert_eq!(DEFAULT_BIND_PASSWORD, "$3cr3tp4$$w0rd");
    assert_eq!(DEFAULT_SEARCH_BASE, "ou=users,dc=acme,dc=com");
    assert_eq!(DEFAULT_IMAGE_ATTR, "thumbnailPhoto");
    assert_eq!(DEFAULT_IMAGE_PATH, "default.png");
}

#[test]
fn unset_settings_take_their_fallbacks() {
    let config = ServerConfig::from_settings(None, None, None, None, None, vec![1, 2, 3]);
    assert_eq!(config.ldap_uri, "ldap://127.0.0.1:389");
    assert_eq!(config.bind_dn, "cn=bind_account,dc=acme,dc=com");
    assert_eq!(config.bind_pw, "$3cr3tp4$$w0rd");
    assert_eq!(config.base, "ou=users,dc=acme,dc=com");
    assert_eq!(config.attr, "thumbnailPhoto");
    assert_eq!(config.default_image, vec![1, 2, 3]);
}

#[test]
fn configured_settings_are_kept() {
    let config = ServerConfig::from_settings(
        Some("ldap://directory.example:1389".to_string()),
        Some("cn=reader,dc=example".to_string()),
        Some("hunter2".to_string()),
        Some("ou=people,dc=example".to_string()),
        Some("jpegPhoto".to_string()),
        Vec::new(),
    );
    assert_eq!(config.ldap_uri, "ldap://directory.example:1389");
    assert_eq!(config.bind_dn, "cn=reader,dc=example");
    assert_eq!(config.bind_pw, "hunter2");
    assert_eq!(config.base, "ou=people,dc=example");
    assert_eq!(config.attr, "jpegPhoto");
    assert!(config.default_image.is_empty());
}

#[test]
fn settings_fall_back_one_by_one() {
    let config = ServerConfig::from_settings(
        None,
        Some("cn=reader,dc=example".to_string()),
        None,
        Some(String::new()),
        None,
        vec![9],
    );
    assert_eq!(config.ldap_uri, "ldap://127.0.0.1:389");
    assert_eq!(config.bind_dn, "cn=reader,dc=example");
    assert_eq!(config.bind_pw, "$3cr3tp4$$w0rd");
    assert_eq!(config.base, "");
    assert_eq!(config.attr, "thumbnailPhoto");
}

#[test]
fn empty_file_name_means_the_default_file() {
    assert_eq!(default_image_path(""), "default.png");
}

#[test]
fn given_file_name_is_kept() {
    assert_eq!(default_image_path("fallback.png"), "fallback.png");
    assert_eq!(default_image_path(" "), " ");
}
