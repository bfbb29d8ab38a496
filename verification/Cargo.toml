[package]
name = "reconstructor"
version = "0.1.0"
edition = "2021"
publish = false

[dependencies]
image = { version = "0.25", default-features = false, features = ["png", "jpeg", "webp", "tiff"] }
ndarray = "0.16"
ort = { version = "=2.0.0-rc.10", default-features = false, features = ["ndarray", "load-dynamic"] }
pdfium-render = "0.8"
printpdf = { version = "0.7", features = ["embedded_images"] }
rayon = "1"
reqwest = { version = "0.12", default-features = false, features = ["blocking"] }
serde = { version = "1", features = ["derive"] }
serde_json = "1"
sha2 = "0.10"
thiserror = "1"
toml = "0.8"
tracing = "0.1"
