[package]
name = "htmlify"
version = "0.1.0"
edition = "2021"
publish = false

[dependencies]
web-sys = { version = "*", features = ["Window", "Document", "Element", "HtmlElement", "Node"] }
yew = "*"
