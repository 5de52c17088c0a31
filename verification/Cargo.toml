[package]
name = "bevy_sdf_text"
version = "0.1.0"
edition = "2021"
publish = false

[dependencies]
ttf-parser = "=0.18.1"
anyhow = "=1.0.104"
owned_ttf_parser = "=0.25.1"
ab_glyph = "=0.2.32"
glyph_brush_layout = "=0.2.4"
image = { version = "=0.25.10", default-features = false, features = ["png"] }
msdfgen = { version = "=0.2.1", features = ["ttf-parser", "png"] }
rmp-serde = "=1.3.1"
serde = { version = "=1.0.229", features = ["derive"] }
thiserror = "=2.0.21"
clap = { version = "=4.6.7", features = ["derive"] }
env_logger = "=0.11.11"
log = "=0.4.35"
svg = "=0.18.0"
bevy = { version = "=0.17.3", default-features = false, features = ["bevy_pbr", "bevy_asset", "bevy_render", "bevy_log"] }
