[package]
name = "wikijs"
version = "0.1.0"
edition = "2021"
publish = false

[dependencies]
chrono = "0.4"
clap = { version = "4", features = ["derive", "env"] }
clap-verbosity-flag = "2"
colored = "2"
fuser = { version = "0.14", default-features = false }
graphql_client = { version = "0.14", default-features = false, features = ["reqwest-blocking"] }
libc = "0.2"
log = "0.4"
reqwest = { version = "0.12", default-features = false, features = ["blocking", "json", "multipart", "rustls-tls"] }
serde = { version = "1", features = ["derive"] }
serde_json = "1"
stderrlog = "0.6"
tabled = "0.15"
tempfile = "3"
thiserror = "1"
