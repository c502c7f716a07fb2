[package]
name = "sale_scraper"
version = "0.1.0"
edition = "2021"
publish = false

[dependencies]
scraper = "*"
serde = { version = "*", features = ["derive"] }
serde_json = "*"
actix-web = "4"
thirtyfour = "*"
tokio = { version = "1", features = ["macros", "rt-multi-thread", "time"] }
