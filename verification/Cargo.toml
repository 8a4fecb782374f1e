[package]
name = "dovecote_sqlx"
version = "0.2.0"
edition = "2021"
publish = false

[dependencies]
dovecote = "*"
getrandom = "*"
libsqlite3-sys = "*"
sqlx = { version = "*", default-features = false, features = ["runtime-tokio", "postgres", "sqlite", "time"] }
sqlx-core = "*"
thiserror = "*"
time = { version = "*", features = ["formatting", "parsing", "macros"] }
