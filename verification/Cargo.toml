[package]
name = "playback_core"
version = "0.1.0"
edition = "2021"
publish = false

[dependencies]
anyhow = "=1.0.104"
cpal = "=0.15.3"
lofty = "=0.25.4"
ringbuf = "=0.4.8"
rodio = "=0.21.1"
rubato = "=0.16.2"
smol = "=2.0.2"
symphonia = "=0.5.5"
