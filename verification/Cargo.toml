[package]
name = "ant_leptos"
version = "0.1.0"
edition = "2021"
publish = false

[dependencies]
chrono = "=0.4.45"
web-sys = { version = "=0.3.106", features = ["Window", "Document", "Element", "Node", "HtmlHeadElement", "HtmlElement"] }
js-sys = "=0.3.106"
serde = { version = "=1.0.229", features = ["derive"] }
