//! The files that install the alert watcher as a background service: a
//! systemd user unit on Linux and a launchd agent on macOS.
use vstd::prelude::*;

use crate::format::{nat_text, u64_text};
use crate::text::{push_str, string_of};

verus! {

/// The systemd unit that runs `<fq_path> alerts watch --interval <interval>`.
pub open spec fn systemd_unit_text(fq_path: Seq<char>, interval: u64) -> Seq<char> {
    "[Unit]\nDescription=Finance Query Alert Watcher\nAfter=network-online.target\nWants=network-online.target\n\n[Service]\nType=simple\nExecStart="@
        + fq_path + " alerts watch --interval "@ + nat_text(interval as nat)
        + "\nRestart=on-failure\nRestartSec=10\n\n[Install]\nWantedBy=default.target\n"@
}

/// The content of `fq-alerts.service`.
pub fn systemd_unit(fq_path: &str, interval: u64) -> (unit: String)
    ensures
        unit@ == systemd_unit_text(fq_path@, interval),
{
    let mut s = string_of(
        "[Unit]\nDescription=Finance Query Alert Watcher\nAfter=network-online.target\nWants=network-online.target\n\n[Service]\nType=simple\nExecStart=",
    );
    push_str(&mut s, fq_path);
    push_str(&mut s, " alerts watch --interval ");
    push_str(&mut s, u64_text(interval).as_str());
    push_str(&mut s, "\nRestart=on-failure\nRestartSec=10\n\n[Install]\nWantedBy=default.target\n");
    s
}

/// The launchd agent that runs `<fq_path> alerts watch --interval <interval>`
/// at load and keeps it alive.
pub open spec fn launchd_plist_text(fq_path: Seq<char>, interval: u64) -> Seq<char> {
    "<?xml version=\"1.0\" encoding=\"UTF-8\"?>\n<!DOCTYPE plist PUBLIC \"-//Apple//DTD PLIST 1.0//EN\" \"http://www.apple.com/DTDs/PropertyList-1.0.dtd\">\n<plist version=\"1.0\">\n<dict>\n    <key>Label</key>\n    <string>com.finance-query.alerts</string>\n    <key>ProgramArguments</key>\n    <array>\n        <string>"@
        + fq_path
        + "</string>\n        <string>alerts</string>\n        <string>watch</string>\n        <string>--interval</string>\n        <string>"@
        + nat_text(interval as nat)
        + "</string>\n    </array>\n    <key>RunAtLoad</key>\n    <true/>\n    <key>KeepAlive</key>\n    <true/>\n    <key>StandardErrorPath</key>\n    <string>/tmp/fq-alerts.err</string>\n    <key>StandardOutPath</key>\n    <string>/tmp/fq-alerts.out</string>\n</dict>\n</plist>\n"@
}

/// The content of `com.finance-query.alerts.plist`.
pub fn launchd_plist(fq_path: &str, interval: u64) -> (plist: String)
    ensures
        plist@ == launchd_plist_text(fq_path@, interval),
{
    let mut s = string_of(
        "<?xml version=\"1.0\" encoding=\"UTF-8\"?>\n<!DOCTYPE plist PUBLIC \"-//Apple//DTD PLIST 1.0//EN\" \"http://www.apple.com/DTDs/PropertyList-1.0.dtd\">\n<plist version=\"1.0\">\n<dict>\n    <key>Label</key>\n    <string>com.finance-query.alerts</string>\n    <key>ProgramArguments</key>\n    <array>\n        <string>",
    );
    push_str(&mut s, fq_path);
    push_str(
        &mut s,
        "</string>\n        <string>alerts</string>\n        <string>watch</string>\n        <string>--interval</string>\n        <string>",
    );
    push_str(&mut s, u64_text(interval).as_str());
    push_str(
        &mut s,
        "</string>\n    </array>\n    <key>RunAtLoad</key>\n    <true/>\n    <key>KeepAlive</key>\n    <true/>\n    <key>StandardErrorPath</key>\n    <string>/tmp/fq-alerts.err</string>\n    <key>StandardOutPath</key>\n    <string>/tmp/fq-alerts.out</string>\n</dict>\n</plist>\n",
    );
    s
}

} // verus!
