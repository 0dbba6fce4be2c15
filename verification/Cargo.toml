[package]
name = "jj_commit"
version = "0.1.0"
edition = "2021"
publish = false
rust-version = "1.95"

[dependencies]
clap = { version = "=4.6.7", features = ["derive"] }
color-eyre = "=0.6.5"
inquire = "=0.9.4"
tokio = { version = "=1.54.1", features = ["macros", "rt-multi-thread"] }
futures = "=0.3.34"
dunce = "=1.0.5"
jj-lib = "=0.42.0"
# Not used directly: jj-lib reaches kstring through gix-attributes. It is held
# at 2.0.2 because the later 2.0 releases need a newer compiler than the
# rust-version above.
kstring = "=2.0.2"
