[package]
name = "voice_bridge"
version = "0.1.0"
edition = "2021"
publish = false

[dependencies]
base64 = "0.13"
serde_json = "1"
rodio = "0.17"
tokio = { version = "1", features = ["full"] }
tokio-tungstenite = "0.20"
futures = "0.3"
futures-util = "0.3"
chatgpt_rs = { version = "1", features = ["streams"] }
dotenv = "0.15"
once_cell = "1"
cpal = "0.15"
samplerate = "0.2"
whisper-rs = "0.10"
