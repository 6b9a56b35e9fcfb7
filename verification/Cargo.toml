[package]
name = "hf"
version = "0.3.10"
edition = "2021"
publish = false

[dependencies]
anyhow = "=1.0.104"
clap = { version = "=4.6.7", features = ["derive", "wrap_help"] }
clap_complete = "=4.6.11"
clap_complete_nushell = "=4.6.2"
log = "=0.4.34"
simplelog = "=0.12.2"
sysexits = "=0.13.0"
windows = { version = "=0.58.0", default-features = false, features = ["Win32_Foundation", "Win32_Storage_FileSystem"] }

[dev-dependencies]
tempfile = "=3.27.0"
