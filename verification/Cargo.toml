[package]
name = "azookey"
version = "0.1.0"
edition = "2021"
publish = false

[dependencies]
anyhow = "=1.0.104"
log = "=0.4.34"
prost = "=0.13.5"
tokio = { version = "=1.54.1", features = ["macros", "rt-multi-thread"] }
tonic = "=0.12.3"
tonic-reflection = "=0.12.3"
windows = { version = "=0.58.0", features = ["implement", "Win32_Foundation", "Win32_System_Com", "Win32_UI_Input_KeyboardAndMouse", "Win32_UI_TextServices"] }
