[package]
name = "tba_harness"
version = "0.1.0"
edition = "2021"
publish = false

[dependencies]
teloxide = { version = "=0.17.0", default-features = false, features = ["rustls", "throttle"] }
tokio = { version = "=1.53.2", features = ["macros", "rt-multi-thread"] }
dotenvy = "=0.15.7"
envy = "=0.4.2"
serde = { version = "=1.0.229", features = ["derive"] }
log = "=0.4.34"
pretty_env_logger = "=0.5.0"
takecell = "=0.1.1"
