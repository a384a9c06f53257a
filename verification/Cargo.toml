[package]
name = "rust_crypto"
version = "0.1.0"
edition = "2021"
publish = false

[dependencies]
aes-gcm = "0.10"
pbkdf2 = "0.12"
sha2 = "0.10"
rand = "0.8"
base64 = "0.21"
serde = { version = "1", features = ["derive"] }
serde_json = "1"
wasm-bindgen = "0.2"
js-sys = "0.3"
serde-wasm-bindgen = "0.6"
console_error_panic_hook = "0.1"
axum = { version = "0.5", features = ["headers", "multipart"] }
tokio = { version = "1", features = ["full"] }
tower-http = { version = "0.3", features = ["cors"] }
tracing = "0.1"
tracing-subscriber = { version = "0.3", features = ["env-filter"] }
dotenv = "0.15"
bcrypt = "0.15"
jsonwebtoken = "8"
uuid = { version = "1", features = ["v4"] }
chrono = "0.4"
