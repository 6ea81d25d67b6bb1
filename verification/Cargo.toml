[package]
name = "dex_bench"
version = "0.1.0"
edition = "2021"
publish = false

[dependencies]
chrono = { version = "0.4", default-features = false, features = ["std"] }
clap = { version = "4", features = ["derive"] }
rand = "0.8"
sqlx = { version = "0.8", default-features = false, features = ["runtime-tokio", "mysql", "bigdecimal", "chrono", "derive"] }
tokio = { version = "1", features = ["macros", "rt-multi-thread"] }
