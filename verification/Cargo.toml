[package]
name = "statusbar"
version = "0.1.0"
edition = "2021"
publish = false

[dependencies]
chrono = "0.4"
regex = "1"
dbus = "0.9"
gtk = "0.18"
gtk-layer-shell = "0.8"
hyprland = "0.3"
sysinfo = "0.30"
