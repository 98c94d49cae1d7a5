[package]
name = "weather_crab"
version = "0.1.0"
edition = "2021"
publish = false

[dependencies]
dotenv = "0.15"
exitfailure = "0.5"
reqwest = { version = "0.11", default-features = false, features = ["json"] }
serde = "1"
serde_derive = "1"
structopt = "0.3"
tokio = { version = "1", features = ["macros", "rt-multi-thread"] }
