[package]
name = "huginn"
version = "0.1.0"
edition = "2021"
publish = false

[dependencies]
uuid = { version = "1", features = ["v4", "serde"] }
chrono = { version = "0.4", features = ["serde"] }
serde = { version = "1", features = ["derive"] }
serde_json = "1"
thiserror = "2"
clap = { version = "4", features = ["derive"] }
anyhow = "1"
colored = "2"
minijinja = "2"
nix = { version = "0.29", features = ["hostname"] }
windows = { version = "0.58", features = ["Win32_Foundation", "Win32_NetworkManagement_NetManagement", "Win32_NetworkManagement_IpHelper", "Win32_NetworkManagement_Ndis", "Win32_Networking_WinSock", "Win32_System_SystemInformation", "Win32_System_Registry", "Win32_Security", "Win32_Security_Authorization", "Win32_System_Services"] }
