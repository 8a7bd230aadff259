//! The texts of the optional packages: kernel parameters, desktop entries and
//! services for each init system.
use vstd::prelude::*;

use crate::text::Text;

verus! {

/// Kernel parameters for games and handhelds.
pub const GAMING_SYSCTL_CONF: &'static str = r#"# Gaming performance tweaks — written by Deploytix
#
# vm.max_map_count: critical for Windows games via Proton/WINE.
# Matches the Steam Deck default (MAX_INT - 5).
vm.max_map_count = 2147483642

# Reduce kernel swap-out aggressiveness for interactive/gaming workloads.
vm.swappiness = 10

# Improve CPU scheduling responsiveness for desktop and gaming tasks.
kernel.sched_autogroup_enabled = 1

# Enable TCP Fast Open (client + server) for improved network latency.
net.ipv4.tcp_fastopen = 3

# Raise the maximum number of open file descriptors.
fs.file-max = 524288
"#;

/// Kernel parameters for the network.
pub const NETWORK_PERFORMANCE_SYSCTL_CONF: &'static str = r#"# Network performance tweaks — written by Deploytix
# Complements /etc/sysctl.d/99-gaming.conf (no key overlap).

# --- Congestion control & queueing ---------------------------------------
# BBR + fq: pacing-aware qdisc recommended for BBR.  Improves throughput
# and latency under bufferbloat (typical of consumer Wi-Fi / ISPs).
net.core.default_qdisc = fq
net.ipv4.tcp_congestion_control = bbr

# --- Socket buffer ceilings ---------------------------------------------
# 16 MiB ceiling covers ~1.5 Gbps * 80 ms BDP, enough for Wi-Fi 6 +
# transcontinental links.
net.core.rmem_max = 16777216
net.core.wmem_max = 16777216
net.core.rmem_default = 1048576
net.core.wmem_default = 1048576
net.core.optmem_max = 65536

# TCP autotuning ranges: min / default / max bytes.
net.ipv4.tcp_rmem = 4096 1048576 16777216
net.ipv4.tcp_wmem = 4096 1048576 16777216

# UDP memory pressure thresholds (bytes per socket).
net.ipv4.udp_rmem_min = 16384
net.ipv4.udp_wmem_min = 16384

# --- Backlogs / queues ---------------------------------------------------
net.core.netdev_max_backlog = 5000
net.core.netdev_budget = 600
net.core.netdev_budget_usecs = 8000

net.core.somaxconn = 4096
net.ipv4.tcp_max_syn_backlog = 8192

# --- TCP behaviour -------------------------------------------------------
# Helps on links with broken PMTUD (Wi-Fi / VPN).
net.ipv4.tcp_mtu_probing = 1

# Cap unsent bytes in the socket buffer so BBR can pace tightly.
net.ipv4.tcp_notsent_lowat = 131072

# Recycle TIME_WAIT faster (safe on clients; fine on single-NAT hosts).
net.ipv4.tcp_fin_timeout = 15
net.ipv4.tcp_tw_reuse = 1

# Keepalive tuned for long-lived sessions on flaky Wi-Fi.
net.ipv4.tcp_keepalive_time = 300
net.ipv4.tcp_keepalive_intvl = 30
net.ipv4.tcp_keepalive_probes = 5

# ECN (negotiated, not forced).
net.ipv4.tcp_ecn = 1

# Don't restart congestion window after idle periods.
net.ipv4.tcp_slow_start_after_idle = 0

# SACK + F-RTO are on by default; pinned for clarity.
net.ipv4.tcp_sack = 1
net.ipv4.tcp_frto = 2

# --- Security / hygiene --------------------------------------------------
net.ipv4.tcp_syncookies = 1
net.ipv4.conf.all.rp_filter = 1
net.ipv4.conf.default.rp_filter = 1
net.ipv4.icmp_echo_ignore_broadcasts = 1
net.ipv4.conf.all.accept_redirects = 0
net.ipv4.conf.default.accept_redirects = 0
net.ipv6.conf.all.accept_redirects = 0
net.ipv6.conf.default.accept_redirects = 0
"#;

/// Access to the motion sensors of Sony controllers.
pub const EVDEVHOOK2_UDEV_RULES: &'static str = r#"# udev rules for evdevhook2 (installed by Deploytix)
#
# Grants the locally logged-in user (via uaccess/ACL) and members of the
# 'input' group read-write access to motion sensor evdev nodes exposed by
# Sony controllers so that evdevhook2 does not need to run as root.

ACTION!="add|change", GOTO="evdevhook2_end"
SUBSYSTEM!="input", GOTO="evdevhook2_end"

# Sony Interactive Entertainment (VID 054c)
# DualShock 3
KERNEL=="event*", ATTRS{id/vendor}=="054c", ATTRS{id/product}=="0268", TAG+="uaccess", MODE="0660", GROUP="input"
# DualShock 4
KERNEL=="event*", ATTRS{id/vendor}=="054c", ATTRS{id/product}=="05c4", TAG+="uaccess", MODE="0660", GROUP="input"
# DualShock 4 (2nd gen)
KERNEL=="event*", ATTRS{id/vendor}=="054c", ATTRS{id/product}=="09cc", TAG+="uaccess", MODE="0660", GROUP="input"
# DualSense
KERNEL=="event*", ATTRS{id/vendor}=="054c", ATTRS{id/product}=="0ce6", TAG+="uaccess", MODE="0660", GROUP="input"
# DualSense Edge
KERNEL=="event*", ATTRS{id/vendor}=="054c", ATTRS{id/product}=="0df2", TAG+="uaccess", MODE="0660", GROUP="input"

LABEL="evdevhook2_end"
"#;

pub const YAY_BUILD_1: &'static str = "mkdir -p /tmp/yay-build && chown ";

pub const YAY_BUILD_2: &'static str =
    " bash -c 'cd /tmp/yay-build && git clone https://aur.archlinux.org/yay.git && cd yay && makepkg -si --noconfirm' && rm -rf /tmp/yay-build";

/// Building yay as the user, in one command: /tmp does not outlive a chroot.
pub open spec fn yay_build_text(user: Text) -> Text {
    YAY_BUILD_1@ + user + ":"@ + user + " /tmp/yay-build && sudo -u "@ + user + YAY_BUILD_2@
}

pub fn yay_build(user: &str) -> (r: String)
    ensures
        r@ == yay_build_text(user@),
{
    let mut s = YAY_BUILD_1.to_owned();
    s.push_str(user);
    s.push_str(":");
    s.push_str(user);
    s.push_str(" /tmp/yay-build && sudo -u ");
    s.push_str(user);
    s.push_str(YAY_BUILD_2);
    s
}

pub const AUDIO_DESKTOP_1: &'static str = r#"[Desktop Entry]
Type=Application
Name=Audio Startup
Exec=/home/"#;

pub const AUDIO_DESKTOP_2: &'static str = r#"/.local/bin/audio-startup
Hidden=false
NoDisplay=false
X-GNOME-Autostart-enabled=true
Comment=Start PipeWire audio services
"#;

/// Starting the audio services with the session.
pub open spec fn audio_desktop_text(user: Text) -> Text {
    AUDIO_DESKTOP_1@ + user + AUDIO_DESKTOP_2@
}

pub fn audio_desktop(user: &str) -> (r: String)
    ensures
        r@ == audio_desktop_text(user@),
{
    let mut s = AUDIO_DESKTOP_1.to_owned();
    s.push_str(user);
    s.push_str(AUDIO_DESKTOP_2);
    s
}

/// Starting the applet of NetworkManager with the session.
pub const NM_DESKTOP: &'static str = r#"[Desktop Entry]
Type=Application
Name=Network Manager Applet
Exec=/bin/nm-applet
Hidden=false
NoDisplay=false
X-GNOME-Autostart-enabled=true
Comment=NetworkManager system tray applet
"#;

/// The kernel module that Handheld Daemon needs.
pub const HHD_MODULES: &'static str = r#"# Load uhid on startup — required by Handheld Daemon (HHD)
uhid
"#;

pub const DECKY_HELPER: &'static str =
    "DECKY_VER=$(pacman -Q decky-loader-bin | awk '{print $2}' | sed 's/-[0-9]*$//'); /usr/bin/decky-loader-helper \"v${DECKY_VER}\" ";

/// Setting up the data directory of Decky Loader.
pub open spec fn decky_helper_text(user: Text) -> Text {
    DECKY_HELPER@ + user
}

pub fn decky_helper(user: &str) -> (r: String)
    ensures
        r@ == decky_helper_text(user@),
{
    let mut s = DECKY_HELPER.to_owned();
    s.push_str(user);
    s
}

pub const HHD_RUNIT: &'static str = r#"#!/bin/sh
exec 2>&1
exec /usr/bin/hhd --user "#;

/// The runit service of Handheld Daemon, which runs as root.
pub open spec fn hhd_runit_text(user: Text) -> Text {
    HHD_RUNIT@ + user + "\n"@
}

pub fn hhd_runit(user: &str) -> (r: String)
    ensures
        r@ == hhd_runit_text(user@),
{
    let mut s = HHD_RUNIT.to_owned();
    s.push_str(user);
    s.push_str("\n");
    s
}

/// Its log.
pub const HHD_LOG: &'static str = r#"#!/bin/sh
[ -d /var/log/hhd ] || install -dm 755 /var/log/hhd
exec svlogd -tt /var/log/hhd
"#;

pub const HHD_OPENRC_1: &'static str = r#"#!/sbin/openrc-run
description="Handheld Daemon Service"
command="/usr/bin/hhd"
command_args="--user "#;

pub const HHD_OPENRC_2: &'static str = r#""
command_background=true
pidfile="/var/run/hhd.pid"

depend() {
	need udev
	after seatd
}
"#;

/// The OpenRC service.
pub open spec fn hhd_openrc_text(user: Text) -> Text {
    HHD_OPENRC_1@ + user + HHD_OPENRC_2@
}

pub fn hhd_openrc(user: &str) -> (r: String)
    ensures
        r@ == hhd_openrc_text(user@),
{
    let mut s = HHD_OPENRC_1.to_owned();
    s.push_str(user);
    s.push_str(HHD_OPENRC_2);
    s
}

pub const HHD_S6: &'static str = r#"#!/bin/sh
exec /usr/bin/hhd --user "#;

/// The s6 service.
pub open spec fn hhd_s6_text(user: Text) -> Text {
    HHD_S6@ + user + " 2>&1\n"@
}

pub fn hhd_s6(user: &str) -> (r: String)
    ensures
        r@ == hhd_s6_text(user@),
{
    let mut s = HHD_S6.to_owned();
    s.push_str(user);
    s.push_str(" 2>&1\n");
    s
}

pub const HHD_DINIT: &'static str = r#"type = process
command = /usr/bin/hhd --user "#;

/// The dinit service.
pub open spec fn hhd_dinit_text(user: Text) -> Text {
    HHD_DINIT@ + user + "\nrestart = true\n"@
}

pub fn hhd_dinit(user: &str) -> (r: String)
    ensures
        r@ == hhd_dinit_text(user@),
{
    let mut s = HHD_DINIT.to_owned();
    s.push_str(user);
    s.push_str("\nrestart = true\n");
    s
}

pub const EVDEVHOOK2_RUNIT: &'static str = r#"#!/bin/sh
# evdevhook2 runit service - Cemuhook UDP motion server
sv check dbus >/dev/null || exit 1
exec 2>&1
exec chpst -u "#;

/// The runit service of the motion server, which runs as the user.
pub open spec fn evdevhook2_runit_text(user: Text) -> Text {
    EVDEVHOOK2_RUNIT@ + user + " /usr/bin/evdevhook2\n"@
}

pub fn evdevhook2_runit(user: &str) -> (r: String)
    ensures
        r@ == evdevhook2_runit_text(user@),
{
    let mut s = EVDEVHOOK2_RUNIT.to_owned();
    s.push_str(user);
    s.push_str(" /usr/bin/evdevhook2\n");
    s
}

/// Its log.
pub const EVDEVHOOK2_LOG: &'static str = r#"#!/bin/sh
[ -d /var/log/evdevhook2 ] || install -dm 755 /var/log/evdevhook2
exec svlogd -tt /var/log/evdevhook2
"#;

pub const EVDEVHOOK2_OPENRC_1: &'static str = r#"#!/sbin/openrc-run
description="evdevhook2 Cemuhook UDP motion server"
command="/usr/bin/evdevhook2"
command_user=""#;

pub const EVDEVHOOK2_OPENRC_2: &'static str = r#""
command_background=true
pidfile="/run/evdevhook2.pid"

depend() {
	need udev dbus
}
"#;

/// The OpenRC service.
pub open spec fn evdevhook2_openrc_text(user: Text) -> Text {
    EVDEVHOOK2_OPENRC_1@ + user + ":"@ + user + EVDEVHOOK2_OPENRC_2@
}

pub fn evdevhook2_openrc(user: &str) -> (r: String)
    ensures
        r@ == evdevhook2_openrc_text(user@),
{
    let mut s = EVDEVHOOK2_OPENRC_1.to_owned();
    s.push_str(user);
    s.push_str(":");
    s.push_str(user);
    s.push_str(EVDEVHOOK2_OPENRC_2);
    s
}

pub const EVDEVHOOK2_S6: &'static str = r#"#!/bin/sh
exec s6-setuidgid "#;

/// The s6 service.
pub open spec fn evdevhook2_s6_text(user: Text) -> Text {
    EVDEVHOOK2_S6@ + user + " /usr/bin/evdevhook2 2>&1\n"@
}

pub fn evdevhook2_s6(user: &str) -> (r: String)
    ensures
        r@ == evdevhook2_s6_text(user@),
{
    let mut s = EVDEVHOOK2_S6.to_owned();
    s.push_str(user);
    s.push_str(" /usr/bin/evdevhook2 2>&1\n");
    s
}

pub const EVDEVHOOK2_DINIT: &'static str = r#"type = process
command = /usr/bin/evdevhook2
run-as = "#;

/// The dinit service.
pub open spec fn evdevhook2_dinit_text(user: Text) -> Text {
    EVDEVHOOK2_DINIT@ + user + "\nrestart = true\n"@
}

pub fn evdevhook2_dinit(user: &str) -> (r: String)
    ensures
        r@ == evdevhook2_dinit_text(user@),
{
    let mut s = EVDEVHOOK2_DINIT.to_owned();
    s.push_str(user);
    s.push_str("\nrestart = true\n");
    s
}

pub const DECKY_RUNIT_1: &'static str = r#"#!/bin/sh
exec 2>&1
export HOMEBREW_FOLDER="#;

pub const DECKY_RUNIT_2: &'static str = r#"
export LOG_LEVEL=INFO
export HOME=/home/"#;

/// The runit service of Decky Loader, which runs as the user.
pub open spec fn decky_runit_text(data: Text, user: Text, wd: Text, pl: Text) -> Text {
    DECKY_RUNIT_1@ + data + "\nexport UNPRIVILEGED_PATH="@ + data + "\nexport PRIVILEGED_PATH="@ + data + DECKY_RUNIT_2@ + user + "\ncd "@ + wd + "\nexec chpst -u "@ + user + ":"@ + user + " "@ + pl + "\n"@
}

pub fn decky_runit(data: &str, user: &str, wd: &str, pl: &str) -> (r: String)
    ensures
        r@ == decky_runit_text(data@, user@, wd@, pl@),
{
    let mut s = DECKY_RUNIT_1.to_owned();
    s.push_str(data);
    s.push_str("\nexport UNPRIVILEGED_PATH=");
    s.push_str(data);
    s.push_str("\nexport PRIVILEGED_PATH=");
    s.push_str(data);
    s.push_str(DECKY_RUNIT_2);
    s.push_str(user);
    s.push_str("\ncd ");
    s.push_str(wd);
    s.push_str("\nexec chpst -u ");
    s.push_str(user);
    s.push_str(":");
    s.push_str(user);
    s.push_str(" ");
    s.push_str(pl);
    s.push_str("\n");
    s
}

/// Its log.
pub const DECKY_LOG: &'static str = r#"#!/bin/sh
[ -d /var/log/plugin_loader ] || install -dm 755 /var/log/plugin_loader
exec svlogd -tt /var/log/plugin_loader
"#;

pub const DECKY_OPENRC_1: &'static str = r#"#!/sbin/openrc-run
description="SteamDeck Plugin Loader"
command=""#;

pub const DECKY_OPENRC_2: &'static str = r#""
command_user=""#;

pub const DECKY_OPENRC_3: &'static str = r#""
command_background=true
directory=""#;

pub const DECKY_OPENRC_4: &'static str = r#""
pidfile="/run/plugin_loader.pid"

export HOMEBREW_FOLDER="#;

pub const DECKY_OPENRC_5: &'static str = r#"
export LOG_LEVEL=INFO
export HOME=/home/"#;

pub const DECKY_OPENRC_6: &'static str = r#"

depend() {
	need net
}
"#;

/// The OpenRC service.
pub open spec fn decky_openrc_text(data: Text, user: Text, wd: Text, pl: Text) -> Text {
    DECKY_OPENRC_1@ + pl + DECKY_OPENRC_2@ + user + ":"@ + user + DECKY_OPENRC_3@ + wd + DECKY_OPENRC_4@ + data + "\nexport UNPRIVILEGED_PATH="@ + data + "\nexport PRIVILEGED_PATH="@ + data + DECKY_OPENRC_5@ + user + DECKY_OPENRC_6@
}

pub fn decky_openrc(data: &str, user: &str, wd: &str, pl: &str) -> (r: String)
    ensures
        r@ == decky_openrc_text(data@, user@, wd@, pl@),
{
    let mut s = DECKY_OPENRC_1.to_owned();
    s.push_str(pl);
    s.push_str(DECKY_OPENRC_2);
    s.push_str(user);
    s.push_str(":");
    s.push_str(user);
    s.push_str(DECKY_OPENRC_3);
    s.push_str(wd);
    s.push_str(DECKY_OPENRC_4);
    s.push_str(data);
    s.push_str("\nexport UNPRIVILEGED_PATH=");
    s.push_str(data);
    s.push_str("\nexport PRIVILEGED_PATH=");
    s.push_str(data);
    s.push_str(DECKY_OPENRC_5);
    s.push_str(user);
    s.push_str(DECKY_OPENRC_6);
    s
}

pub const DECKY_S6_1: &'static str = r#"#!/bin/sh
export HOMEBREW_FOLDER="#;

pub const DECKY_S6_2: &'static str = r#"
export LOG_LEVEL=INFO
export HOME=/home/"#;

/// The s6 service.
pub open spec fn decky_s6_text(data: Text, user: Text, wd: Text, pl: Text) -> Text {
    DECKY_S6_1@ + data + "\nexport UNPRIVILEGED_PATH="@ + data + "\nexport PRIVILEGED_PATH="@ + data + DECKY_S6_2@ + user + "\ncd "@ + wd + "\nexec s6-setuidgid "@ + user + " "@ + pl + " 2>&1\n"@
}

pub fn decky_s6(data: &str, user: &str, wd: &str, pl: &str) -> (r: String)
    ensures
        r@ == decky_s6_text(data@, user@, wd@, pl@),
{
    let mut s = DECKY_S6_1.to_owned();
    s.push_str(data);
    s.push_str("\nexport UNPRIVILEGED_PATH=");
    s.push_str(data);
    s.push_str("\nexport PRIVILEGED_PATH=");
    s.push_str(data);
    s.push_str(DECKY_S6_2);
    s.push_str(user);
    s.push_str("\ncd ");
    s.push_str(wd);
    s.push_str("\nexec s6-setuidgid ");
    s.push_str(user);
    s.push_str(" ");
    s.push_str(pl);
    s.push_str(" 2>&1\n");
    s
}

pub const DECKY_ENV: &'static str = r#"
LOG_LEVEL=INFO
HOME=/home/"#;

/// The environment of the dinit service.
pub open spec fn decky_env_text(data: Text, user: Text) -> Text {
    "HOMEBREW_FOLDER="@ + data + "\nUNPRIVILEGED_PATH="@ + data + "\nPRIVILEGED_PATH="@ + data + DECKY_ENV@ + user + "\n"@
}

pub fn decky_env(data: &str, user: &str) -> (r: String)
    ensures
        r@ == decky_env_text(data@, user@),
{
    let mut s = "HOMEBREW_FOLDER=".to_owned();
    s.push_str(data);
    s.push_str("\nUNPRIVILEGED_PATH=");
    s.push_str(data);
    s.push_str("\nPRIVILEGED_PATH=");
    s.push_str(data);
    s.push_str(DECKY_ENV);
    s.push_str(user);
    s.push_str("\n");
    s
}

pub const DECKY_DINIT_1: &'static str = r#"type = process
command = "#;

pub const DECKY_DINIT_2: &'static str = r#"
env-file = /etc/dinit.d/plugin_loader.env
restart = true
"#;

/// The dinit service.
pub open spec fn decky_dinit_text(user: Text, wd: Text, pl: Text) -> Text {
    DECKY_DINIT_1@ + pl + "\nworking-dir = "@ + wd + "\nrun-as = "@ + user + DECKY_DINIT_2@
}

pub fn decky_dinit(user: &str, wd: &str, pl: &str) -> (r: String)
    ensures
        r@ == decky_dinit_text(user@, wd@, pl@),
{
    let mut s = DECKY_DINIT_1.to_owned();
    s.push_str(pl);
    s.push_str("\nworking-dir = ");
    s.push_str(wd);
    s.push_str("\nrun-as = ");
    s.push_str(user);
    s.push_str(DECKY_DINIT_2);
    s
}

} // verus!
