[package]
name = "win_color"
version = "0.1.0"
edition = "2021"
publish = false

[dependencies]
colorparser-css = "*"
serde = { version = "*", features = ["derive"] }
windows = { version = "*", features = ["Foundation_Numerics", "Win32_Foundation", "Win32_Graphics_Direct2D", "Win32_Graphics_Direct2D_Common", "Win32_Graphics_Dwm"] }
