[package]
name = "devcade_games"
version = "0.1.0"
edition = "2021"
publish = false

[dependencies]
glib = "*"
hex = "0.4"
lazy_static = "1"
memmap = "0.7"
chrono = { version = "0.4", features = ["serde"] }
uuid = { version = "1", features = ["v4"] }
serde = { version = "1", features = ["derive"] }
utoipa = { version = "*", features = ["actix_extras", "chrono"] }
actix-web = { version = "4", default-features = false, features = ["macros"] }
actix-multipart = "*"
sqlx = { version = "*", default-features = false, features = ["postgres", "runtime-tokio", "chrono", "derive"] }
aws-sdk-s3 = { version = "*", default-features = false, features = ["rt-tokio"] }
