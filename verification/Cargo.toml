[package]
name = "codicefiscale"
version = "0.1.0"
edition = "2021"
publish = false

[dependencies]
chrono = { version = "0.4", default-features = false, features = ["std"] }
clap = { version = "4", features = ["derive"] }
clap_complete = "4"
diesel = { version = "2", default-features = false, features = ["sqlite"] }
diesel_migrations = "2"
serde = { version = "1", features = ["derive"] }
serde_json = "1"
thiserror = "1"
