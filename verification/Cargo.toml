[package]
name = "bookmarks"
version = "0.1.0"
edition = "2021"
publish = false

[dependencies]
anyhow = "1"
aquadoggo = "*"
env_logger = { version = "*", default-features = false }
glib = "*"
gql_client = "*"
gtk4 = "*"
libadwaita = "*"
log = "0.4"
p2panda-rs = "*"
serde = { version = "1", features = ["derive"] }
tokio = { version = "1", features = ["rt", "sync"] }
toml = { version = "*", default-features = false, features = ["parse"] }
