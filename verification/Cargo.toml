[package]
name = "shuttlings_cch24"
version = "0.1.0"
edition = "2021"
publish = false

[dependencies]
rand = "0.8"
axum = "0.7"
tokio = { version = "1", features = ["macros", "net", "rt-multi-thread"] }
v_htmlescape = "0.15"
