[package]
name = "edit_cookie_malaccamax"
version = "0.2.0"
edition = "2021"
publish = false

[dependencies]
wasm-bindgen = "0.2"
js-sys = "0.3"
web-sys = { version = "0.3", features = ["Window", "Document", "Element", "HtmlElement", "HtmlHeadElement", "DomTokenList", "HtmlInputElement", "HtmlSelectElement", "Navigator", "Clipboard", "console", "EventTarget", "Event", "MouseEvent"] }
wasm-bindgen-futures = "0.4"
serde = { version = "1", features = ["derive"] }
serde_json = "1"
serde-wasm-bindgen = "0.6"
leptos = { version = "0.8", features = ["csr"] }
oxichrome = "*"
