[package]
name = "goblin_camp"
version = "0.1.0"
edition = "2021"
publish = false

[dependencies]
rand = "=0.7.3"
tcod = "=0.15.0"
tcod-sys = "=5.0.1"
clap = { version = "2", features = ["yaml"] }
slog = "2"
slog-async = "2"
slog-term = "2"
snafu = "0.6"
toml = "0.5"
serde = { version = "1", features = ["derive"] }
serde_derive = "1"
directories = "2"
itertools = "0.8"
shrinkwraprs = "0.3"
derivative = "1"
serde-tcod-config-parser = "=0.1.1"
