[package]
name = "ldap_avatar"
version = "0.1.0"
edition = "2021"
publish = false

[dependencies]
image = "0.24"
ldap3 = "0.11"
rocket = "0.5"
