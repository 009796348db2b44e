[package]
name = "oranda"
version = "0.1.0"
edition = "2021"
publish = false

[dependencies]
axoasset = "=2.0.1"
axoproject = "=0.32.0"
camino = "=1.2.6"
fs_extra = "=1.3.0"
gazenot = { version = "=0.3.3", default-features = false }
indexmap = "=2.14.2"
miette = "=7.6.0"
minijinja = "=3.0.3"
notify-debouncer-mini = "=0.7.0"
octolotl = "=0.1.1"
reqwest = { version = "=0.13.5", default-features = false }
serde_json = "=1.0.154"
syntect = { version = "=5.3.0", default-features = false }
thiserror = "=2.0.21"
toml = "=1.1.8"
toml_edit = "=0.25.17"
tracing = "=0.1.44"
url = "=2.5.8"
