//! Controller quirks of the Legion Go handhelds.
//!
//! The pads of these machines drop off the bus and come back every few
//! seconds: their link is suspended when idle, older kernels do not know their
//! IDs, and their raw nodes are closed to the session user. One udev rule file
//! mends all three.
use vstd::prelude::*;

use crate::text;
use crate::plan;
use crate::config::model::DeploymentConfig;
use crate::plan::{make_dir, say, write_file, Act, Step};
use crate::text::{concat, concat3, same_ignoring_case, trim, Text};

verus! {

/// The file that names the machine's model.
pub const DMI_PRODUCT_NAME: &'static str = "/sys/devices/virtual/dmi/id/product_name";

/// The rule file, below the root of the target.
pub const RULES_PATH: &'static str = "etc/udev/rules.d/60-deploytix-handheld-controllers.rules";

/// A handheld whose controllers need the quirks.
#[derive(Debug, Clone, Copy, PartialEq, Eq, Structural)]
pub enum HandheldModel {
    LegionGo,
    LegionGo2,
    LegionGoS,
}

impl HandheldModel {
    pub open spec fn name(self) -> Text {
        match self {
            HandheldModel::LegionGo => "Lenovo Legion Go"@,
            HandheldModel::LegionGo2 => "Lenovo Legion Go 2"@,
            HandheldModel::LegionGoS => "Lenovo Legion Go S"@,
        }
    }

    pub fn as_str(self) -> (r: &'static str)
        ensures
            r@ == self.name(),
    {
        match self {
            HandheldModel::LegionGo => "Lenovo Legion Go",
            HandheldModel::LegionGo2 => "Lenovo Legion Go 2",
            HandheldModel::LegionGoS => "Lenovo Legion Go S",
        }
    }
}

/// The two texts differ in the case of ASCII letters at most.
pub open spec fn alike(a: Text, b: Text) -> bool {
    text::ascii_lowered(a) == text::ascii_lowered(b)
}

/// The handheld of a machine type. Lenovo names the bare type here, and one
/// model spans several of them.
pub open spec fn model_of_type(t: Text) -> Option<HandheldModel> {
    if alike(t, "83E1"@) {
        Some(HandheldModel::LegionGo)
    } else if alike(t, "83N0"@) || alike(t, "83N1"@) {
        Some(HandheldModel::LegionGo2)
    } else if alike(t, "83L3"@) || alike(t, "83N6"@) || alike(t, "83Q2"@) || alike(t, "83Q3"@) {
        Some(HandheldModel::LegionGoS)
    } else {
        None
    }
}

/// The handheld that a product name stands for; white space around the name
/// and the case of its letters do not matter.
pub fn model_for_dmi(product_name: &str) -> (r: Option<HandheldModel>)
    ensures
        r == model_of_type(text::trimmed(product_name@)),
{
    let t = trim(product_name);
    let s = t.as_str();
    if same_ignoring_case(s, "83E1") {
        Some(HandheldModel::LegionGo)
    } else if same_ignoring_case(s, "83N0") || same_ignoring_case(s, "83N1") {
        Some(HandheldModel::LegionGo2)
    } else if same_ignoring_case(s, "83L3") || same_ignoring_case(s, "83N6") || same_ignoring_case(
        s,
        "83Q2",
    ) || same_ignoring_case(s, "83Q3") {
        Some(HandheldModel::LegionGoS)
    } else {
        None
    }
}

/// The handheld that this host is, from its product name where that could be read.
pub fn detect_host_model(product_name: Option<&str>) -> (r: Option<HandheldModel>)
    ensures
        r == (match product_name {
            Some(p) => model_of_type(text::trimmed(p@)),
            None => None,
        }),
{
    match product_name {
        Some(p) => model_for_dmi(p),
        None => None,
    }
}

/// Whether the rules are written.
#[derive(Debug, Clone, Copy, PartialEq, Eq, Structural)]
pub enum QuirkDecision {
    /// Write them. Without a model the configuration forces them onto a machine
    /// that is not known.
    Install(Option<HandheldModel>),
    /// Leave the target alone.
    Skip,
}

/// The setting decides; without one, the rules go to known handhelds.
pub open spec fn decision(setting: Option<bool>, host: Option<HandheldModel>) -> QuirkDecision {
    match setting {
        Some(true) => QuirkDecision::Install(host),
        Some(false) => QuirkDecision::Skip,
        None => if host is Some {
            QuirkDecision::Install(host)
        } else {
            QuirkDecision::Skip
        },
    }
}

pub fn decide(config: &DeploymentConfig, host: Option<HandheldModel>) -> (r: QuirkDecision)
    ensures
        r == decision(config.packages.handheld_controller_quirks, host),
{
    match config.packages.handheld_controller_quirks {
        Some(false) => QuirkDecision::Skip,
        Some(true) => QuirkDecision::Install(host),
        None => match host {
            Some(model) => QuirkDecision::Install(Some(model)),
            None => QuirkDecision::Skip,
        },
    }
}

/// The udev rules. Each matches the vendor with a range of products, since new
/// machines and firmware add products to that range.
pub const CONTROLLER_RULES: &'static str = r#"# Handheld controller quirks (installed by Deploytix)
#
# Keeps the detachable/internal controllers on Lenovo Legion Go family
# handhelds (Legion Go, Legion Go 2, Legion Go S) from repeatedly
# disconnecting and reconnecting.
#
# Vendor 17ef is Lenovo. The Legion controllers enumerate in the 0x61xx
# product range (0x6182/0x6183/0x6184/0x6185 and 0x61eb on the Legion Go,
# with further 0x61xx IDs on the Legion Go 2), so each rule matches "61??"
# rather than pinning one product ID.

ACTION!="add|change", GOTO="deploytix_handheld_end"

# 1. Pin USB runtime power management off for the controllers.
#
# The controllers sit behind an internal USB hub. With runtime PM left at
# its "auto" default the link is suspended as soon as the pad goes briefly
# idle, and the controller firmware re-enumerates instead of resuming --
# which userspace sees as a disconnect immediately followed by a reconnect.
# Holding power/control at "on" keeps the port awake; runtime-PM references
# propagate upwards, so this also stops the internal hub suspending
# underneath them.
SUBSYSTEM=="usb", ENV{DEVTYPE}=="usb_device", ATTR{idVendor}=="17ef", ATTR{idProduct}=="61??", TEST=="power/control", ATTR{power/control}="on"
SUBSYSTEM=="usb", ENV{DEVTYPE}=="usb_device", ATTR{idVendor}=="17ef", ATTR{idProduct}=="61??", TEST=="power/autosuspend_delay_ms", ATTR{power/autosuspend_delay_ms}="-1"

# 2. Bind the controllers to xpad on kernels that predate their IDs.
#
# The Legion Go controller IDs landed in xpad upstream; the Legion Go 2 IDs
# are newer than many stable kernels. With no xpad match the vendor-specific
# interface falls through to hid-generic, which misreads the report
# descriptor and makes the pad flap between present and gone. Registering
# the ID through xpad's new_id is a no-op when the running kernel already
# knows it -- the write fails with EEXIST, which is swallowed.
SUBSYSTEM=="usb", ENV{DEVTYPE}=="usb_device", ATTR{idVendor}=="17ef", ATTR{idProduct}=="61??", RUN+="/bin/sh -c '/usr/bin/modprobe xpad; echo 17ef %s{idProduct} > /sys/bus/usb/drivers/xpad/new_id 2>/dev/null || true'"

# 3. Let the session user reach the controllers' hidraw nodes.
#
# Handheld Daemon and Steam both read the raw HID interface. Upstream HHD
# only grants access to product IDs matching "618*", which misses 0x61eb and
# the Legion Go 2 range; a daemon that cannot open the node retries in a
# loop, and each retry tears down and rebuilds its emulated pad.
KERNEL=="hidraw*", SUBSYSTEM=="hidraw", ATTRS{idVendor}=="17ef", ATTRS{idProduct}=="61??", MODE="0660", GROUP="input", TAG+="uaccess"

LABEL="deploytix_handheld_end"
"#;

/// What is done to the target for the quirks.
pub open spec fn quirk_steps(
    decision: QuirkDecision,
    install_root: Text,
    dry_run: bool,
) -> Seq<Act> {
    if decision is Skip {
        seq![]
    } else if dry_run {
        seq![Act::Say("  [dry-run] Would write /"@ + RULES_PATH@)]
    } else {
        seq![
            Act::MakeDir(install_root + "/etc/udev/rules.d"@),
            Act::Write {
                path: install_root + "/"@ + RULES_PATH@,
                content: CONTROLLER_RULES@,
                mode: Some(0o644),
            },
        ]
    }
}

/// The steps that write the rules, where they are wanted.
pub fn install(
    config: &DeploymentConfig,
    host: Option<HandheldModel>,
    install_root: &str,
    dry_run: bool,
) -> (r: Vec<Step>)
    ensures
        plan::acts(r@) == quirk_steps(
            decision(config.packages.handheld_controller_quirks, host),
            install_root@,
            dry_run,
        ),
{
    let mut plan: Vec<Step> = Vec::new();
    if let QuirkDecision::Skip = decide(config, host) {
        assert(plan::acts(plan@) =~= seq![]);
        return plan;
    }
    if dry_run {
        say(&mut plan, concat("  [dry-run] Would write /", RULES_PATH).as_str());
    } else {
        make_dir(&mut plan, concat(install_root, "/etc/udev/rules.d").as_str());
        write_file(
            &mut plan,
            concat3(install_root, "/", RULES_PATH).as_str(),
            CONTROLLER_RULES,
            Some(0o644),
        );
    }
    assert(plan::acts(plan@) =~= quirk_steps(
        decision(config.packages.handheld_controller_quirks, host),
        install_root@,
        dry_run,
    ));
    plan
}

/// A refusal in the configuration wins over every host, a demand as well.
pub proof fn setting_wins_over_detection(host: Option<HandheldModel>)
    ensures
        decision(Some(false), host) is Skip,
        decision(Some(true), host) is Install,
        decision(None, host) is Install <==> host is Some,
{
}

} // verus!
