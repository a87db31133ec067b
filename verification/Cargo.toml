[package]
name = "ocr_service"
version = "0.1.0"
edition = "2021"
publish = false

[dependencies]
ocrs = "=0.13.1"
image = "=0.25.10"
actix-web = "=4.15.0"
ureq = "=3.4.2"
rten = "=0.26.0"
rten-imageproc = "=0.26.0"
