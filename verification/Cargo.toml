[package]
name = "pdf_coord_picker"
version = "0.1.0"
edition = "2021"
publish = false

[dependencies]
slotmap = "=1.1.1"
serde = { version = "1", features = ["derive"] }
egui = { version = "0.32", default-features = false }
eframe = { version = "0.32", default-features = false, features = ["default_fonts", "glow", "persistence", "x11"] }
image = { version = "0.25", default-features = false }
pdfium-render = "0.8"
rfd = "0.15"
wasm-bindgen-futures = "0.4"
web-sys = { version = "0.3", features = ["Blob", "Document", "Element", "HtmlButtonElement", "Window"] }
