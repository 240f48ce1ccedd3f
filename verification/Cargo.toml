[package]
name = "doom_cli"
version = "0.1.0"
edition = "2021"
publish = false

[dependencies]
owo-colors = "*"
strsim = "*"
regex = "*"
shlex = "*"
clap = { version = "*", features = ["derive"] }
serde = { version = "*", features = ["derive"] }
serde_json = "*"
sqlx = { version = "*", default-features = false, features = ["sqlite", "runtime-tokio", "chrono", "migrate"] }
tokio = { version = "*", features = ["rt-multi-thread"] }
reqwest = { version = "*", default-features = false, features = ["json"] }
chrono = "*"
inquire = "*"
log = "*"
eyre = "*"
color-eyre = "*"
tabled = "*"
dirs = "*"
walkdir = "*"
zip = { version = "*", default-features = false, features = ["deflate"] }
plist = "*"
powershell_script = "*"
toml = "*"
indicatif = "*"
clearscreen = "*"
