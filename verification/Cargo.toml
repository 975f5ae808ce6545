[package]
name = "nation"
version = "0.1.0"
edition = "2021"
publish = false

[dependencies]
anyhow = "1"
chrono = { version = "0.4", features = ["serde"] }
directories = "3"
itertools = "0.9"
quick-xml = { version = "0.20", features = ["serialize"] }
reqwest = { version = "0.10", default-features = false, features = ["rustls-tls"] }
serde = { version = "1", features = ["derive"] }
structopt = "0.3"
thiserror = "1"
tokio = { version = "0.3", features = ["macros", "rt-multi-thread"] }
tokio-compat-02 = "0.1"
