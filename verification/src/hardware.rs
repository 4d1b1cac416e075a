//! What the host hardware is, and whether it is enough to install on.

use vstd::prelude::*;
use vstd::string::StringExecFns;

use crate::command::{chroot_step, chroot_step_spec, plain_command, ChrootStep, ChrootStepView, ExternalCommand};
use crate::text::{
    contains, contains_spec, decimal, decimal_spec, lines, lines_spec, parse_u64, parse_u64_spec,
    split_whitespace, split_whitespace_spec, starts_with, starts_with_spec,
};

verus! {

broadcast use vstd::string::group_string_axioms;

/// Hardware traits that decide which services the installed system enables.
#[derive(Debug)]
pub struct HardwareManifest {
    pub has_nvidia: bool,
    pub is_laptop: bool,
    pub wifi_driver: Option<String>,
}

impl Default for HardwareManifest {
    fn default() -> (m: HardwareManifest)
        ensures
            !m.has_nvidia,
            !m.is_laptop,
            m.wifi_driver is None,
    {
        HardwareManifest { has_nvidia: false, is_laptop: false, wifi_driver: None }
    }
}

/// `lspci`: the PCI devices.
pub fn lspci_command() -> (c: ExternalCommand)
    ensures
        c@ == plain_command("lspci"@, seq![]),
{
    let args: Vec<String> = Vec::new();
    assert(args.deep_view() =~= Seq::<Seq<char>>::empty());
    ExternalCommand::new("lspci", args)
}

/// The battery whose presence marks a laptop.
pub fn battery_path() -> (p: String)
    ensures
        p@ == "/sys/class/power_supply/BAT0"@,
{
    "/sys/class/power_supply/BAT0".to_string()
}

/// The manifest for the given `lspci` listing and battery presence: an NVIDIA device anywhere in
/// the listing, and a laptop when there is a battery; no Wi-Fi driver is detected.
pub fn profile_hardware(lspci_output: &str, has_battery: bool) -> (m: HardwareManifest)
    ensures
        m.has_nvidia == contains_spec(lspci_output@, "NVIDIA"@),
        m.is_laptop == has_battery,
        m.wifi_driver is None,
{
    HardwareManifest {
        has_nvidia: contains(lspci_output, "NVIDIA"),
        is_laptop: has_battery,
        wifi_driver: None,
    }
}

/// The services a manifest calls for: the NVIDIA persistence daemon on NVIDIA hardware, power
/// profiles and UPower on laptops.
pub open spec fn driver_services_spec(target_mount: Seq<char>, has_nvidia: bool, is_laptop: bool) -> Seq<
    ChrootStepView,
> {
    (if has_nvidia {
        seq![chroot_step_spec(target_mount, "systemctl enable nvidia-persistenced"@, None, ""@)]
    } else {
        seq![]
    }) + (if is_laptop {
        seq![
            chroot_step_spec(target_mount, "systemctl enable power-profiles-daemon"@, None, ""@),
            chroot_step_spec(target_mount, "systemctl enable upower"@, None, ""@),
        ]
    } else {
        seq![]
    })
}

/// The service enablings, run inside the target, that the manifest calls for.
pub fn driver_services(target_mount: &str, manifest: &HardwareManifest) -> (steps: Vec<ChrootStep>)
    ensures
        steps.deep_view() == driver_services_spec(target_mount@, manifest.has_nvidia, manifest.is_laptop),
{
    let mut steps: Vec<ChrootStep> = Vec::new();
    if manifest.has_nvidia {
        steps.push(chroot_step(target_mount, "systemctl enable nvidia-persistenced", None, ""));
    }
    if manifest.is_laptop {
        steps.push(chroot_step(target_mount, "systemctl enable power-profiles-daemon", None, ""));
        steps.push(chroot_step(target_mount, "systemctl enable upower", None, ""));
    }
    assert(steps.deep_view() =~= driver_services_spec(
        target_mount@,
        manifest.has_nvidia,
        manifest.is_laptop,
    ));
    steps
}

/// Each service follows its own hardware trait: the NVIDIA persistence daemon is enabled first
/// exactly when there is an NVIDIA device, whether or not the machine is a laptop, and the power
/// profile daemon and UPower are enabled, in that order, exactly when it is a laptop, whether or
/// not there is an NVIDIA device; nothing else is enabled.
pub proof fn services_follow_hardware(target_mount: Seq<char>, has_nvidia: bool, is_laptop: bool)
    ensures
        ({
            let steps = driver_services_spec(target_mount, has_nvidia, is_laptop);
            let nvidia = chroot_step_spec(target_mount, "systemctl enable nvidia-persistenced"@, None, ""@);
            let power = chroot_step_spec(target_mount, "systemctl enable power-profiles-daemon"@, None, ""@);
            let upower = chroot_step_spec(target_mount, "systemctl enable upower"@, None, ""@);
            let k: int = if has_nvidia { 1 } else { 0 };
            &&& steps.len() == k + (if is_laptop { 2int } else { 0 })
            &&& has_nvidia ==> steps[0] == nvidia
            &&& is_laptop ==> steps[k] == power && steps[k + 1] == upower
            &&& !has_nvidia ==> forall|i: int| 0 <= i < steps.len() ==> #[trigger] steps[i] != nvidia
        }),
{
    let nvidia = chroot_step_spec(target_mount, "systemctl enable nvidia-persistenced"@, None, ""@);
    let power = chroot_step_spec(target_mount, "systemctl enable power-profiles-daemon"@, None, ""@);
    let upower = chroot_step_spec(target_mount, "systemctl enable upower"@, None, ""@);
    reveal_strlit("systemctl enable nvidia-persistenced");
    reveal_strlit("systemctl enable power-profiles-daemon");
    reveal_strlit("systemctl enable upower");
    assert(nvidia.command_line[17] == 'n');
    assert(power.command_line[17] == 'p');
    assert(upower.command_line[17] == 'u');
}

/// The least RAM MITOS needs: 1 GiB, in KiB.
pub open spec fn required_ram_kb() -> nat {
    1048576
}

/// The RAM a /proc/meminfo line reports: on a `MemTotal:` line with at least two words, its
/// second word read as a number.
pub open spec fn memtotal_kb(line: Seq<char>) -> Option<u64> {
    if starts_with_spec(line, "MemTotal:"@) && split_whitespace_spec(line).len() >= 2 {
        parse_u64_spec(split_whitespace_spec(line)[1])
    } else {
        None
    }
}

/// The first amount of RAM below the requirement that the lines report, if any.
pub open spec fn first_insufficient_ram(lines: Seq<Seq<char>>) -> Option<u64>
    decreases lines.len(),
{
    if lines.len() == 0 {
        None
    } else {
        match memtotal_kb(lines[0]) {
            Some(kb) => if kb < required_ram_kb() {
                Some(kb)
            } else {
                first_insufficient_ram(lines.drop_first())
            },
            None => first_insufficient_ram(lines.drop_first()),
        }
    }
}

/// The RAM check on the text of /proc/meminfo: an error naming the RAM found, in whole MiB,
/// when a `MemTotal:` line reports less than 1 GiB.
pub open spec fn check_ram_spec(meminfo: Seq<char>) -> Result<(), Seq<char>> {
    match first_insufficient_ram(lines_spec(meminfo)) {
        Some(kb) => Err(
            "Insufficient RAM. MITOS requires at least 1GB (Found "@ + decimal_spec((kb / 1024) as nat)
                + "MB)."@,
        ),
        None => Ok(()),
    }
}

fn memtotal_of_line(line: &str) -> (r: Option<u64>)
    ensures
        r == memtotal_kb(line@),
{
    if !starts_with(line, "MemTotal:") {
        return None;
    }
    let parts = split_whitespace(line);
    if parts.len() < 2 {
        return None;
    }
    assert(parts.deep_view()[1] == parts@[1]@);
    parse_u64(parts[1].as_str())
}

/// Checks that the host meets the minimum requirements, given the text of /proc/meminfo.
pub fn check_minimum_requirements(meminfo: &str) -> (r: Result<(), String>)
    ensures
        crate::text::error_view(r) == check_ram_spec(meminfo@),
{
    let ls = lines(meminfo);
    let ghost all = ls.deep_view();
    let mut i: usize = 0;
    assert(all.skip(0) =~= all);
    while i < ls.len()
        invariant
            i <= ls@.len(),
            all == ls.deep_view(),
            all == lines_spec(meminfo@),
            first_insufficient_ram(all) == first_insufficient_ram(all.skip(i as int)),
        decreases ls@.len() - i,
    {
        assert(all[i as int] == ls@[i as int]@);
        assert(all.skip(i as int)[0] == all[i as int]);
        assert(all.skip(i as int).drop_first() =~= all.skip(i + 1));
        match memtotal_of_line(ls[i].as_str()) {
            Some(kb) => {
                if kb < 1048576 {
                    let mut msg = "Insufficient RAM. MITOS requires at least 1GB (Found ".to_string();
                    let mb = decimal(kb / 1024);
                    msg.append(mb.as_str());
                    msg.append("MB).");
                    return Err(msg);
                }
            },
            None => {},
        }
        i = i + 1;
    }
    Ok(())
}

proof fn lemma_first_insufficient_ram(ls: Seq<Seq<char>>)
    ensures
        first_insufficient_ram(ls) is None <==> forall|i: int|
            0 <= i < ls.len() ==> (#[trigger] memtotal_kb(ls[i]) matches Some(kb) ==> kb >= 1048576),
        first_insufficient_ram(ls) matches Some(kb) ==> kb < 1048576 && exists|i: int|
            0 <= i < ls.len() && #[trigger] memtotal_kb(ls[i]) == Some(kb),
    decreases ls.len(),
{
    if ls.len() > 0 {
        let rest = ls.drop_first();
        lemma_first_insufficient_ram(rest);
        assert forall|i: int| 0 < i < ls.len() implies #[trigger] memtotal_kb(ls[i]) == memtotal_kb(
            rest[i - 1],
        ) by {
            assert(ls[i] == rest[i - 1]);
        }
        if first_insufficient_ram(ls) is None {
            assert forall|i: int|
                0 <= i < ls.len() implies (#[trigger] memtotal_kb(ls[i]) matches Some(kb) ==> kb
                >= 1048576) by {
                if i > 0 {
                    assert(memtotal_kb(rest[i - 1]) == memtotal_kb(ls[i]));
                }
            }
        }
        if forall|i: int|
            0 <= i < ls.len() ==> (#[trigger] memtotal_kb(ls[i]) matches Some(kb) ==> kb >= 1048576) {
            assert forall|i: int|
                0 <= i < rest.len() implies (#[trigger] memtotal_kb(rest[i]) matches Some(kb) ==> kb
                >= 1048576) by {
                assert(memtotal_kb(ls[i + 1]) == memtotal_kb(rest[i]));
            }
        }
        if first_insufficient_ram(ls) is Some {
            let kb = first_insufficient_ram(ls)->0;
            if memtotal_kb(ls[0]) is Some && memtotal_kb(ls[0])->0 < required_ram_kb() {
                assert(memtotal_kb(ls[0]) == Some(kb));
            } else {
                let j = choose|j: int| 0 <= j < rest.len() && #[trigger] memtotal_kb(rest[j]) == Some(kb);
                assert(memtotal_kb(ls[j + 1]) == Some(kb));
            }
        }
    }
}

/// More RAM never fails the check and less always does: the check on /proc/meminfo passes
/// exactly when no `MemTotal:` line reports less than 1048576 kB (1 GiB), and a refusal names an
/// amount some `MemTotal:` line reports, below 1048576 kB.
pub proof fn ram_check_refuses_only_too_little(meminfo: Seq<char>)
    ensures
        check_ram_spec(meminfo) is Ok <==> forall|i: int|
            0 <= i < lines_spec(meminfo).len() ==> (#[trigger] memtotal_kb(lines_spec(meminfo)[i]) matches Some(
                kb,
            ) ==> kb >= 1048576),
        first_insufficient_ram(lines_spec(meminfo)) matches Some(kb) ==> kb < 1048576 && exists|i: int|
            0 <= i < lines_spec(meminfo).len() && #[trigger] memtotal_kb(lines_spec(meminfo)[i]) == Some(
                kb,
            ),
{
    lemma_first_insufficient_ram(lines_spec(meminfo));
}

} // verus!
