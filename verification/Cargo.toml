[package]
name = "double_entry"
version = "0.1.0"
edition = "2021"
publish = false

[dependencies]
rust_decimal = { version = "=1.43.0", default-features = false, features = ["std"] }
rusty-money = "0.4"
serde = { version = "1", features = ["derive"] }
serde_json = "1"
serde_with = { version = "3", default-features = false, features = ["macros", "std", "time_0_3"] }
time = { version = "=0.3.55", default-features = false, features = ["std"] }
uuid = { version = "=1.29.0", default-features = false, features = ["std", "v4"] }
