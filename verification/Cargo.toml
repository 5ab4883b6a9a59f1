[package]
name = "wrappers"
version = "0.1.0"
edition = "2021"
publish = false

[dependencies]
aws-sdk-cognitoidentityprovider = { version = "=1.142.0", default-features = false }
chrono = "=0.4.45"
pgrx = { version = "=0.16.1", default-features = false }
serde = { version = "=1.0.229", features = ["derive"] }
serde_json = "=1.0.154"
supabase-wrappers = "=0.1.28"
thiserror = "=1.0.69"
