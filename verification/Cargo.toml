[package]
name = "resonance_bhop"
version = "0.1.0"
edition = "2021"
publish = false

[dependencies]
hidparser = "*"
serde = { version = "1", features = ["derive"] }
toml = "*"
anyhow = "1"
parking_lot = "*"
hidapi = "*"
vigem-rust = "*"
windows = { version = "*", features = ["Win32_Foundation", "Win32_UI_Input_XboxController"] }
eframe = { version = "*", default-features = false, features = ["default_fonts", "glow", "x11"] }
image = { version = "*", default-features = false, features = ["png"] }
