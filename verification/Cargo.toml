[package]
name = "ticket_vc"
version = "0.1.0"
edition = "2021"
publish = false

[dependencies]
chrono = "=0.4.45"
nanoid = "=0.5.0"
qrcode = "=0.14.1"
serde_json = "=1.0.151"
image = "=0.25.10"
log = "*"
pretty_env_logger = "*"
dptree = "0.3"
# transitive dependency of teloxide, pinned: 0.1.2 demands a newer rustc
# than this toolchain has
takecell = "=0.1.1"
tokio = { version = "*", features = ["macros", "rt-multi-thread"] }
reqwest = { version = "=0.12.28", default-features = false, features = ["json", "rustls-tls"] }
rocket = { version = "=0.5.1", features = ["json"] }
teloxide = { version = "=0.12.2", default-features = false, features = ["rustls", "ctrlc_handler", "macros"] }
