[package]
name = "anbennar_wiki"
version = "0.1.0"
edition = "2021"
publish = false

[dependencies]
deunicode = "=1.6.2"
jomini = { version = "=0.37.2", features = ["json"] }
regex = "=1.13.1"
reqwest = { version = "=0.13.5", default-features = false, features = ["blocking", "cookies", "form", "json", "multipart", "query"] }
serde = { version = "=1.0.229", features = ["derive"] }
serde_json = "=1.0.154"
