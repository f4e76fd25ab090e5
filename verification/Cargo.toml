[package]
name = "termchat"
version = "0.1.0"
edition = "2021"
publish = false

[dependencies]
chan = "*"
discord = "*"
rpassword = "*"
termion = "*"
tui = { version = "*", default-features = false, features = ["termion"] }
