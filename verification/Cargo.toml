[package]
name = "spotify_player"
version = "0.1.0"
edition = "2021"
publish = false

[dependencies]
anyhow = "=1.0.104"
chrono = "=0.4.45"
crossterm = "=0.29.0"
dirs-next = "=2.0.0"
flume = "=0.11.1"
librespot-core = "=0.8.0"
librespot-oauth = "=0.8.0"
parking_lot = "=0.12.5"
ratatui = "=0.29.0"
regex = "=1.13.1"
rspotify = { version = "=0.15.3", default-features = false, features = ["client-reqwest"] }
serde = { version = "=1.0.229", features = ["derive"] }
serde_json = "=1.0.154"
tracing = "=0.1.44"

[dev-dependencies]
# The build script of librespot-core needs a version before 9.1.
vergen = { version = "=9.0.6", default-features = false }
