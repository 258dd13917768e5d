[package]
name = "stripe_adapter"
version = "0.1.0"
edition = "2021"
publish = false

[dependencies]
serde_json = "1"
time = "0.3"
url = "2"
reqwest = { version = "0.11", default-features = false, features = ["json"] }
reqwest-middleware = "0.2"
reqwest-retry = "0.2"
pgx = "0.6"
supabase-wrappers = "0.1"
