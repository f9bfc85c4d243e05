[package]
name = "stalwart_panel"
version = "0.1.0"
edition = "2021"
publish = false

[dependencies]
redb = "=4.3.0"
rand = "=0.8.8"
flume = "=0.12.0"
chrono = "=0.4.45"
argon2 = "=0.5.3"
sha-crypt = "=0.5.0"
actix-web = { version = "=4.15.0", default-features = false, features = ["cookies", "macros"] }
futures-util = "=0.3.34"
lettre = { version = "=0.11.23", default-features = false, features = ["smtp-transport", "builder", "rustls-tls"] }
handlebars = "=6.4.4"
serde = { version = "1", features = ["derive"] }
