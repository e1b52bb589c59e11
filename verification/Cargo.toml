[package]
name = "microvmi"
version = "0.1.0"
edition = "2021"
publish = false

[dependencies]
thiserror = "=1.0.69"
log = "=0.4.35"
env_logger = "=0.11.11"
clap = "=2.34.0"
cty = "=0.2.2"
libc = "=0.2.191"
nix = "=0.31.3"
kvmi = "=0.5.0"
fdp = "=0.3.0"
memflow = "=0.2.4"
xenstore-rs = "=0.8.0"
xenevtchn = "=0.2.0"
xenforeignmemory = "=0.3.0"
xenvmevent-sys = "=0.2.0"
winapi = { version = "0.3", features = ["tlhelp32", "processthreadsapi", "securitybaseapi", "winbase", "handleapi", "winnt", "minwindef", "ntdef", "ntstatus"] }
ntapi = "*"
widestring = "*"
vid-sys = "*"
