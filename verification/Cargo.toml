[package]
name = "modlist_manager"
version = "0.1.0"
edition = "2021"
publish = false

[dependencies]
encoding_rs_io = "0.1"
serde = { version = "1", features = ["derive"] }
serde_json = "1"
toml = "0.8"
maud = "*"
actix-web = "4"
actix-rt = "2"
dirs = "5"
symlink = "0.1"
fs_extra = "1"
qstring = "0.7"
websocket = { version = "*", default-features = false, features = ["sync"] }
