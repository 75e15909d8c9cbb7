[package]
name = "boringblog"
version = "0.1.0"
edition = "2021"
publish = false

[dependencies]
frontmatter = "=0.4.0"
yaml-rust = "=0.4.5"
tera = { version = "=2.4.0", features = ["glob_fs"] }
markdown = "=1.0.0"
glob = "=0.3.4"
clap = { version = "=4.6.7", features = ["derive"] }
tokio = { version = "=1.53.2", features = ["macros", "rt-multi-thread", "net"] }
axum = "=0.8.9"
tower-http = { version = "=0.7.1", features = ["fs"] }
