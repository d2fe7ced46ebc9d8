[package]
name = "vectdb"
version = "0.1.0"
edition = "2021"
publish = false

[dependencies]
rusqlite = { version = "*", features = ["bundled"] }
sha2 = "*"
unicode-segmentation = "*"
serde_json = "*"
serde = { version = "*", features = ["derive"] }
axum = "*"
clap = { version = "*", features = ["derive"] }
directories = "*"
reqwest = { version = "*", default-features = false, features = ["json"] }
thiserror = "*"
tokio = { version = "*", features = ["macros", "rt-multi-thread", "time", "net"] }
toml = "*"
tower-http = { version = "*", features = ["trace"] }
tracing = "*"
tracing-subscriber = { version = "*", features = ["env-filter", "fmt"] }
walkdir = "*"
