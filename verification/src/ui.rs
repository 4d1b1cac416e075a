//! The decisions of the setup wizard: how its stages follow one another, what each menu offers
//! and what a choice in it means, and how the user's input is validated.

use vstd::prelude::*;
use vstd::string::StringExecFns;

use crate::command::{plain_command, CommandView, ExternalCommand};
use crate::config::FilesystemType;
use crate::disk::{BlockDevice, BlockDeviceView};
use crate::installer::{InstallationContext, TargetDisk};
use crate::mount::DEFAULT_TARGET_MOUNT;
use crate::text::{
    chars_of, decimal, decimal_spec, first_separator, lemma_first_separator, lines, lines_spec,
    slice_range, string_of, trim, trim_spec, error_view, utf8_len_at_least, Separator,
};

verus! {

broadcast use vstd::string::group_string_axioms;

/// The stages of the setup wizard, in order.
#[derive(PartialEq, Eq, Structural, Clone, Copy, Debug)]
pub enum SetupStage {
    Welcome,
    Network,
    DiskSelection,
    PartitioningScheme,
    UserConfig,
    Regional,
    Summary,
}

/// How the user leaves a stage.
#[derive(PartialEq, Eq, Structural, Clone, Copy, Debug)]
pub enum NavAction {
    Next,
    Back,
    Cancel,
}

/// Where the wizard goes from a stage.
#[derive(PartialEq, Eq, Structural, Clone, Copy, Debug)]
pub enum WizardTransition {
    /// On to this stage.
    Goto(SetupStage),
    /// The user confirmed the summary; installation may start.
    Finished,
    /// The user cancelled.
    Aborted,
}

/// The position of a stage in the wizard.
pub open spec fn stage_index(s: SetupStage) -> int {
    match s {
        SetupStage::Welcome => 0,
        SetupStage::Network => 1,
        SetupStage::DiskSelection => 2,
        SetupStage::PartitioningScheme => 3,
        SetupStage::UserConfig => 4,
        SetupStage::Regional => 5,
        SetupStage::Summary => 6,
    }
}

/// The stage at a position of the wizard.
pub open spec fn stage_at(i: int) -> SetupStage {
    if i <= 0 {
        SetupStage::Welcome
    } else if i == 1 {
        SetupStage::Network
    } else if i == 2 {
        SetupStage::DiskSelection
    } else if i == 3 {
        SetupStage::PartitioningScheme
    } else if i == 4 {
        SetupStage::UserConfig
    } else if i == 5 {
        SetupStage::Regional
    } else {
        SetupStage::Summary
    }
}

/// The welcome stage always moves on to the network stage; from any other stage, Next goes to
/// the following stage (or finishes after the summary), Back to the previous one, and Cancel
/// aborts.
pub open spec fn next_stage_spec(stage: SetupStage, action: NavAction) -> WizardTransition {
    if stage == SetupStage::Welcome {
        WizardTransition::Goto(SetupStage::Network)
    } else {
        match action {
            NavAction::Next => if stage == SetupStage::Summary {
                WizardTransition::Finished
            } else {
                WizardTransition::Goto(stage_at(stage_index(stage) + 1))
            },
            NavAction::Back => WizardTransition::Goto(stage_at(stage_index(stage) - 1)),
            NavAction::Cancel => WizardTransition::Aborted,
        }
    }
}

/// The wizard's transition from `stage` when the user chose `action` there (the welcome stage
/// asks nothing, so its action is ignored).
pub fn next_stage(stage: SetupStage, action: NavAction) -> (t: WizardTransition)
    ensures
        t == next_stage_spec(stage, action),
{
    match stage {
        SetupStage::Welcome => WizardTransition::Goto(SetupStage::Network),
        SetupStage::Network => match action {
            NavAction::Next => WizardTransition::Goto(SetupStage::DiskSelection),
            NavAction::Back => WizardTransition::Goto(SetupStage::Welcome),
            NavAction::Cancel => WizardTransition::Aborted,
        },
        SetupStage::DiskSelection => match action {
            NavAction::Next => WizardTransition::Goto(SetupStage::PartitioningScheme),
            NavAction::Back => WizardTransition::Goto(SetupStage::Network),
            NavAction::Cancel => WizardTransition::Aborted,
        },
        SetupStage::PartitioningScheme => match action {
            NavAction::Next => WizardTransition::Goto(SetupStage::UserConfig),
            NavAction::Back => WizardTransition::Goto(SetupStage::DiskSelection),
            NavAction::Cancel => WizardTransition::Aborted,
        },
        SetupStage::UserConfig => match action {
            NavAction::Next => WizardTransition::Goto(SetupStage::Regional),
            NavAction::Back => WizardTransition::Goto(SetupStage::PartitioningScheme),
            NavAction::Cancel => WizardTransition::Aborted,
        },
        SetupStage::Regional => match action {
            NavAction::Next => WizardTransition::Goto(SetupStage::Summary),
            NavAction::Back => WizardTransition::Goto(SetupStage::UserConfig),
            NavAction::Cancel => WizardTransition::Aborted,
        },
        SetupStage::Summary => match action {
            NavAction::Next => WizardTransition::Finished,
            NavAction::Back => WizardTransition::Goto(SetupStage::Regional),
            NavAction::Cancel => WizardTransition::Aborted,
        },
    }
}

/// The error the wizard reports when the user cancels.
pub fn abort_message() -> (m: String)
    ensures
        m@ == "Installation aborted."@,
{
    "Installation aborted.".to_string()
}

/// Going back from any stage after the welcome and then on again returns to that stage, so the
/// user can always revisit the previous selection.
pub proof fn back_then_next_returns(stage: SetupStage)
    requires
        stage != SetupStage::Welcome,
    ensures
        next_stage_spec(stage, NavAction::Back) matches WizardTransition::Goto(prev) && stage_index(
            prev,
        ) == stage_index(stage) - 1 && next_stage_spec(prev, NavAction::Next)
            == WizardTransition::Goto(stage),
{
}

/// Cancelling aborts from every stage that asks the user anything, and the wizard finishes only
/// by going on from the summary.
pub proof fn only_summary_finishes(stage: SetupStage, action: NavAction)
    ensures
        stage != SetupStage::Welcome && action == NavAction::Cancel ==> next_stage_spec(stage, action)
            == WizardTransition::Aborted,
        next_stage_spec(stage, action) == WizardTransition::Finished <==> (stage
            == SetupStage::Summary && action == NavAction::Next),
{
}

/// Going on from the welcome stage visits every stage once, in order, and finishes after the
/// summary.
pub proof fn next_visits_every_stage(i: int)
    requires
        0 <= i <= 6,
    ensures
        stage_index(stage_at(i)) == i,
        i < 6 ==> next_stage_spec(stage_at(i), NavAction::Next) == WizardTransition::Goto(
            stage_at(i + 1),
        ),
        i == 6 ==> next_stage_spec(stage_at(i), NavAction::Next) == WizardTransition::Finished,
{
}

/// What the network stage's menu choice means.
#[derive(PartialEq, Eq, Structural, Clone, Copy, Debug)]
pub enum NetworkChoice {
    /// Keep the current connection and go on.
    Skip,
    /// Connect to Wi-Fi, then go on.
    ConnectWifi,
    /// Go back.
    Back,
}

/// The network menu.
pub fn network_menu() -> (m: Vec<String>)
    ensures
        m.deep_view() == seq!["Skip (use current network connection)"@, "Connect to Wi-Fi"@, "< Go Back"@],
{
    let m = vec![
        "Skip (use current network connection)".to_string(),
        "Connect to Wi-Fi".to_string(),
        "< Go Back".to_string(),
    ];
    assert(m.deep_view() =~= seq!["Skip (use current network connection)"@, "Connect to Wi-Fi"@, "< Go Back"@]);
    m
}

/// Entry 0 skips, entry 1 connects to Wi-Fi, anything else goes back.
pub fn network_menu_choice(choice: usize) -> (c: NetworkChoice)
    ensures
        c == (if choice == 0 {
            NetworkChoice::Skip
        } else if choice == 1 {
            NetworkChoice::ConnectWifi
        } else {
            NetworkChoice::Back
        }),
{
    if choice == 0 {
        NetworkChoice::Skip
    } else if choice == 1 {
        NetworkChoice::ConnectWifi
    } else {
        NetworkChoice::Back
    }
}

/// The navigation that follows a network choice: both Skip and Wi-Fi go on.
pub fn network_choice_action(c: NetworkChoice) -> (a: NavAction)
    ensures
        a == (if c == NetworkChoice::Back {
            NavAction::Back
        } else {
            NavAction::Next
        }),
{
    match c {
        NetworkChoice::Back => NavAction::Back,
        _ => NavAction::Next,
    }
}

/// `nmcli -t -f SSID,SIGNAL device wifi list`: visible networks as `SSID:SIGNAL` lines.
pub fn wifi_scan_command() -> (c: ExternalCommand)
    ensures
        c@ == plain_command(
            "nmcli"@,
            seq!["-t"@, "-f"@, "SSID,SIGNAL"@, "device"@, "wifi"@, "list"@],
        ),
{
    let args = vec![
        "-t".to_string(),
        "-f".to_string(),
        "SSID,SIGNAL".to_string(),
        "device".to_string(),
        "wifi".to_string(),
        "list".to_string(),
    ];
    assert(args.deep_view() =~= seq!["-t"@, "-f"@, "SSID,SIGNAL"@, "device"@, "wifi"@, "list"@]);
    ExternalCommand::new("nmcli", args)
}

/// The lines of `ls` that are not blank.
pub open spec fn nonblank_lines(ls: Seq<Seq<char>>) -> Seq<Seq<char>>
    decreases ls.len(),
{
    if ls.len() == 0 {
        seq![]
    } else {
        let r = nonblank_lines(ls.drop_last());
        if trim_spec(ls.last()).len() > 0 {
            r.push(ls.last())
        } else {
            r
        }
    }
}

/// The networks in a scan: its lines that are not blank.
pub fn wifi_networks(scan_output: &str) -> (r: Vec<String>)
    ensures
        r.deep_view() == nonblank_lines(lines_spec(scan_output@)),
{
    let ls = lines(scan_output);
    let ghost all = ls.deep_view();
    let mut r: Vec<String> = Vec::new();
    let mut i: usize = 0;
    assert(all.take(0) =~= Seq::<Seq<char>>::empty());
    while i < ls.len()
        invariant
            i <= ls@.len(),
            all == ls.deep_view(),
            r.deep_view() == nonblank_lines(all.take(i as int)),
        decreases ls@.len() - i,
    {
        assert(all[i as int] == ls@[i as int]@);
        assert(all.take(i + 1).drop_last() =~= all.take(i as int));
        let t = trim(ls[i].as_str());
        if !t.as_str().is_empty() {
            let ghost old_r = r.deep_view();
            r.push(ls[i].clone());
            assert(r.deep_view() =~= old_r.push(all[i as int]));
        }
        i = i + 1;
    }
    assert(all.take(ls@.len() as int) =~= all);
    r
}

/// The SSID of a scan line: the text before its first `:`, or the whole line.
pub open spec fn wifi_ssid_spec(line: Seq<char>) -> Seq<char> {
    let i = first_separator(line, Separator::Char(':'));
    if i < 0 {
        line
    } else {
        line.take(i)
    }
}

/// The signal of a scan line: the text after its first `:`, or `?` when there is none.
pub open spec fn wifi_signal_spec(line: Seq<char>) -> Seq<char> {
    let i = first_separator(line, Separator::Char(':'));
    if i < 0 {
        "?"@
    } else {
        line.skip(i + 1)
    }
}

/// How a network is shown: `<ssid> (Signal: <signal>%)`.
pub open spec fn wifi_display_spec(line: Seq<char>) -> Seq<char> {
    wifi_ssid_spec(line) + " (Signal: "@ + wifi_signal_spec(line) + "%)"@
}

fn first_colon(v: &[char]) -> (i: Option<usize>)
    ensures
        match i {
            Some(k) => first_separator(v@, Separator::Char(':')) == k && k < v@.len(),
            None => first_separator(v@, Separator::Char(':')) < 0,
        },
{
    proof {
        lemma_first_separator(v@, Separator::Char(':'));
    }
    let mut k: usize = 0;
    while k < v.len()
        invariant
            k <= v@.len(),
            forall|j: int| 0 <= j < k ==> v@[j] != ':',
        decreases v@.len() - k,
    {
        if v[k] == ':' {
            let ghost f = first_separator(v@, Separator::Char(':'));
            assert(f == k) by {
                lemma_first_separator(v@, Separator::Char(':'));
                if f >= 0 && f < k {
                    assert(v@[f] != ':');
                }
            }
            return Some(k);
        }
        k = k + 1;
    }
    let ghost f = first_separator(v@, Separator::Char(':'));
    assert(f < 0) by {
        lemma_first_separator(v@, Separator::Char(':'));
        if f >= 0 {
            assert(v@[f] == ':');
        }
    }
    None
}

/// The SSID of a scan line.
pub fn wifi_ssid(line: &str) -> (s: String)
    ensures
        s@ == wifi_ssid_spec(line@),
{
    let v = chars_of(line);
    match first_colon(v.as_slice()) {
        Some(k) => string_of(slice_range(v.as_slice(), 0, k).as_slice()),
        None => line.to_string(),
    }
}

/// How a scan line is shown in the network menu.
pub fn wifi_display_name(line: &str) -> (s: String)
    ensures
        s@ == wifi_display_spec(line@),
{
    let v = chars_of(line);
    let mut s = wifi_ssid(line);
    s.append(" (Signal: ");
    match first_colon(v.as_slice()) {
        Some(k) => {
            proof {
                lemma_first_separator(v@, Separator::Char(':'));
            }
            let signal = string_of(slice_range(v.as_slice(), k + 1, v.len()).as_slice());
            assert(signal@ =~= line@.skip(k + 1));
            s.append(signal.as_str());
        },
        None => {
            s.append("?");
        },
    }
    s.append("%)");
    s
}

/// The network menu: one entry per network, then `Cancel`.
pub fn wifi_menu(networks: &Vec<String>) -> (m: Vec<String>)
    ensures
        m.deep_view() == Seq::new(networks@.len(), |i: int| wifi_display_spec(networks@[i]@)).push(
            "Cancel"@,
        ),
{
    let mut m: Vec<String> = Vec::new();
    let mut i: usize = 0;
    while i < networks.len()
        invariant
            i <= networks@.len(),
            m.deep_view() == Seq::new(i as nat, |j: int| wifi_display_spec(networks@[j]@)),
        decreases networks@.len() - i,
    {
        let ghost old_m = m.deep_view();
        let name = wifi_display_name(networks[i].as_str());
        m.push(name);
        assert(m.deep_view() =~= old_m.push(wifi_display_spec(networks@[i as int]@)));
        assert(m.deep_view() =~= Seq::new((i + 1) as nat, |j: int| wifi_display_spec(networks@[j]@)));
        i = i + 1;
    }
    let ghost old_m = m.deep_view();
    m.push("Cancel".to_string());
    assert(m.deep_view() =~= old_m.push("Cancel"@));
    m
}

/// `nmcli device wifi connect <ssid> password <password>`.
pub fn wifi_connect_command(ssid: &str, password: &str) -> (c: ExternalCommand)
    ensures
        c@ == plain_command(
            "nmcli"@,
            seq!["device"@, "wifi"@, "connect"@, ssid@, "password"@, password@],
        ),
{
    let args = vec![
        "device".to_string(),
        "wifi".to_string(),
        "connect".to_string(),
        ssid.to_string(),
        "password".to_string(),
        password.to_string(),
    ];
    assert(args.deep_view() =~= seq!["device"@, "wifi"@, "connect"@, ssid@, "password"@, password@]);
    ExternalCommand::new("nmcli", args)
}

/// What the Wi-Fi part of the network stage does next. Every way it ends ([`WifiAction::Finish`],
/// [`WifiAction::Cancelled`]) lets the wizard go on: a failed scan or connection is not an error.
#[derive(Debug)]
pub enum WifiAction {
    /// Show this message and end, without a new connection.
    Finish(String),
    /// End without a message: the user cancelled.
    Cancelled,
    /// Let the user pick among these networks (scan lines), with the menu of [`wifi_menu`].
    Choose(Vec<String>),
    /// Ask for the password of this SSID and connect to it.
    Connect(String),
}

/// What follows the scan, given whether `nmcli` succeeded and what it printed: a failed scan or
/// one that found nothing ends the step; otherwise its non-blank lines are offered.
pub fn wifi_after_scan(scan_succeeded: bool, scan_output: &str) -> (a: WifiAction)
    ensures
        !scan_succeeded ==> (a matches WifiAction::Finish(m) && m@
            == "Wi-Fi scanning failed. Continuing without Wi-Fi."@),
        scan_succeeded && nonblank_lines(lines_spec(scan_output@)).len() == 0 ==> (a matches WifiAction::Finish(
            m,
        ) && m@ == "No Wi-Fi networks found. Continuing without Wi-Fi."@),
        scan_succeeded && nonblank_lines(lines_spec(scan_output@)).len() > 0 ==> (a matches WifiAction::Choose(
            v,
        ) && v.deep_view() == nonblank_lines(lines_spec(scan_output@))),
{
    if !scan_succeeded {
        return WifiAction::Finish("Wi-Fi scanning failed. Continuing without Wi-Fi.".to_string());
    }
    let networks = wifi_networks(scan_output);
    if networks.len() == 0 {
        return WifiAction::Finish("No Wi-Fi networks found. Continuing without Wi-Fi.".to_string());
    }
    WifiAction::Choose(networks)
}

/// What follows the user's pick in the network menu: the entry after the networks cancels;
/// a network is connected to by its SSID.
pub fn wifi_after_pick(networks: &Vec<String>, pick: usize) -> (a: WifiAction)
    requires
        pick <= networks@.len(),
    ensures
        pick == networks@.len() ==> a is Cancelled,
        pick < networks@.len() ==> (a matches WifiAction::Connect(ssid) && ssid@ == wifi_ssid_spec(
            networks@[pick as int]@,
        )),
{
    if pick == networks.len() {
        return WifiAction::Cancelled;
    }
    WifiAction::Connect(wifi_ssid(networks[pick].as_str()))
}

/// How the step ends once `nmcli` tried to connect to `ssid`: with a message, successfully
/// either way.
pub fn wifi_after_connect(ssid: &str, connected: bool) -> (a: WifiAction)
    ensures
        a matches WifiAction::Finish(m) && m@ == (if connected {
            "Successfully connected to '"@ + ssid@ + "'!"@
        } else {
            "Failed to connect to '"@ + ssid@ + "'. Continuing anyway."@
        }),
{
    let mut m = if connected {
        "Successfully connected to '".to_string()
    } else {
        "Failed to connect to '".to_string()
    };
    m.append(ssid);
    if connected {
        m.append("'!");
    } else {
        m.append("'. Continuing anyway.");
    }
    WifiAction::Finish(m)
}

/// How a disk is shown: `<name> - <model or "Unknown Device"> (<whole GiB> GB)`.
pub open spec fn disk_display_spec(d: BlockDeviceView) -> Seq<char> {
    let model = match d.model {
        Some(m) => m,
        None => "Unknown Device"@,
    };
    d.name + " - "@ + model + " ("@ + decimal_spec((d.size / 1073741824) as nat) + " GB)"@
}

pub fn disk_display_name(d: &BlockDevice) -> (s: String)
    ensures
        s@ == disk_display_spec(d.deep_view()),
{
    let mut s = d.name.clone();
    s.append(" - ");
    match &d.model {
        Some(m) => s.append(m.as_str()),
        None => s.append("Unknown Device"),
    }
    s.append(" (");
    let gb = decimal(d.size / (1024 * 1024 * 1024));
    s.append(gb.as_str());
    s.append(" GB)");
    s
}

/// The disk menu: one entry per disk, then `< Go Back`; an error when there is no disk.
pub fn disk_menu(disks: &Vec<BlockDevice>) -> (r: Result<Vec<String>, String>)
    ensures
        disks@.len() == 0 ==> (r matches Err(e) && e@ == "No writable disks found on this system."@),
        disks@.len() > 0 ==> (r matches Ok(m) && m.deep_view() == Seq::new(
            disks@.len(),
            |i: int| disk_display_spec(disks@[i].deep_view()),
        ).push("< Go Back"@)),
{
    if disks.len() == 0 {
        return Err("No writable disks found on this system.".to_string());
    }
    let mut m: Vec<String> = Vec::new();
    let mut i: usize = 0;
    while i < disks.len()
        invariant
            i <= disks@.len(),
            m.deep_view() == Seq::new(i as nat, |j: int| disk_display_spec(disks@[j].deep_view())),
        decreases disks@.len() - i,
    {
        let ghost old_m = m.deep_view();
        let name = disk_display_name(&disks[i]);
        m.push(name);
        assert(m.deep_view() =~= old_m.push(disk_display_spec(disks@[i as int].deep_view())));
        assert(m.deep_view() =~= Seq::new(
            (i + 1) as nat,
            |j: int| disk_display_spec(disks@[j].deep_view()),
        ));
        i = i + 1;
    }
    let ghost old_m = m.deep_view();
    m.push("< Go Back".to_string());
    assert(m.deep_view() =~= old_m.push("< Go Back"@));
    Ok(m)
}

/// Applies the disk menu choice: the entry after the disks goes back; a disk becomes the
/// target, with empty partition paths and the default mount point.
pub fn select_disk(ctx: &mut InstallationContext, disks: &Vec<BlockDevice>, disk_idx: usize) -> (a:
    NavAction)
    requires
        disk_idx <= disks@.len(),
    ensures
        final(ctx).sys_config == old(ctx).sys_config,
        final(ctx).is_uefi == old(ctx).is_uefi,
        final(ctx).fs_type == old(ctx).fs_type,
        disk_idx == disks@.len() ==> a == NavAction::Back && final(ctx).target == old(ctx).target,
        stage_effect_ok(SetupStage::DiskSelection, a, *old(ctx), *final(ctx)),
        disk_idx < disks@.len() ==> a == NavAction::Next && (final(ctx).target matches Some(t)
            && t.device_path@ == disks@[disk_idx as int].path@ && t.efi_partition@ == Seq::<
            char,
        >::empty() && t.root_partition@ == Seq::<char>::empty() && t.mount_point@
            == "/mnt/mitos"@),
{
    if disk_idx == disks.len() {
        return NavAction::Back;
    }
    let selected = &disks[disk_idx];
    proof {
        reveal_strlit("/mnt/mitos");
    }
    ctx.target = Some(
        TargetDisk {
            device_path: selected.path.clone(),
            efi_partition: String::new(),
            root_partition: String::new(),
            mount_point: DEFAULT_TARGET_MOUNT.to_string(),
        },
    );
    NavAction::Next
}

/// The filesystem menu.
pub fn partitioning_menu() -> (m: Vec<String>)
    ensures
        m.deep_view() == seq![
            "Ext4  - Traditional, stable, and widely supported"@,
            "Btrfs - Modern with snapshots, compression, and rollback support"@,
            "< Go Back"@,
        ],
{
    let m = vec![
        "Ext4  - Traditional, stable, and widely supported".to_string(),
        "Btrfs - Modern with snapshots, compression, and rollback support".to_string(),
        "< Go Back".to_string(),
    ];
    assert(m.deep_view() =~= seq![
        "Ext4  - Traditional, stable, and widely supported"@,
        "Btrfs - Modern with snapshots, compression, and rollback support"@,
        "< Go Back"@,
    ]);
    m
}

/// Applies the filesystem menu choice: entry 0 picks ext4, entry 1 Btrfs, anything else goes back.
pub fn select_partitioning_scheme(ctx: &mut InstallationContext, choice: usize) -> (a: NavAction)
    ensures
        final(ctx).target == old(ctx).target,
        final(ctx).sys_config == old(ctx).sys_config,
        final(ctx).is_uefi == old(ctx).is_uefi,
        stage_effect_ok(SetupStage::PartitioningScheme, a, *old(ctx), *final(ctx)),
        choice == 0 ==> a == NavAction::Next && final(ctx).fs_type == FilesystemType::Ext4,
        choice == 1 ==> a == NavAction::Next && final(ctx).fs_type == FilesystemType::Btrfs,
        choice > 1 ==> a == NavAction::Back && final(ctx).fs_type == old(ctx).fs_type,
{
    if choice == 0 {
        ctx.fs_type = FilesystemType::Ext4;
        NavAction::Next
    } else if choice == 1 {
        ctx.fs_type = FilesystemType::Btrfs;
        NavAction::Next
    } else {
        NavAction::Back
    }
}

/// `0`–`9`, `A`–`Z` or `a`–`z`.
pub open spec fn is_ascii_alphanumeric(c: char) -> bool {
    let u = c as u32;
    (48 <= u <= 57) || (65 <= u <= 90) || (97 <= u <= 122)
}

/// `a`–`z`.
pub open spec fn is_ascii_lowercase(c: char) -> bool {
    let u = c as u32;
    97 <= u <= 122
}

/// The characters a hostname keeps: ASCII letters, digits and `-`.
pub open spec fn is_hostname_char(c: char) -> bool {
    is_ascii_alphanumeric(c) || c == '-'
}

/// The characters of `s` that a hostname keeps.
pub open spec fn hostname_chars(s: Seq<char>) -> Seq<char>
    decreases s.len(),
{
    if s.len() == 0 {
        seq![]
    } else {
        let r = hostname_chars(s.drop_last());
        if is_hostname_char(s.last()) {
            r.push(s.last())
        } else {
            r
        }
    }
}

/// A hostname is accepted when it keeps between 1 and 63 characters (all ASCII, so as many
/// bytes).
pub open spec fn validate_hostname_spec(input: Seq<char>) -> Result<(), Seq<char>> {
    let clean = hostname_chars(input);
    if clean.len() == 0 {
        Err("Hostname must contain at least one alphanumeric character."@)
    } else if clean.len() > 63 {
        Err("Hostname must not exceed 63 characters."@)
    } else {
        Ok(())
    }
}

fn is_alnum(c: char) -> (b: bool)
    ensures
        b == is_ascii_alphanumeric(c),
{
    let u = c as u32;
    (48 <= u && u <= 57) || (65 <= u && u <= 90) || (97 <= u && u <= 122)
}

fn is_lower(c: char) -> (b: bool)
    ensures
        b == is_ascii_lowercase(c),
{
    let u = c as u32;
    97 <= u && u <= 122
}

/// Checks the hostname typed in the wizard.
pub fn validate_hostname(input: &String) -> (r: Result<(), String>)
    ensures
        error_view(r) == validate_hostname_spec(input@),
{
    let v = chars_of(input.as_str());
    let mut count: usize = 0;
    let mut i: usize = 0;
    assert(v@.take(0) =~= Seq::<char>::empty());
    while i < v.len()
        invariant
            i <= v@.len(),
            count == hostname_chars(v@.take(i as int)).len(),
            count <= i,
        decreases v@.len() - i,
    {
        assert(v@.take(i + 1).drop_last() =~= v@.take(i as int));
        if is_alnum(v[i]) || v[i] == '-' {
            count = count + 1;
        }
        i = i + 1;
    }
    assert(v@.take(v@.len() as int) =~= v@);
    if count == 0 {
        Err("Hostname must contain at least one alphanumeric character.".to_string())
    } else if count > 63 {
        Err("Hostname must not exceed 63 characters.".to_string())
    } else {
        Ok(())
    }
}

/// The characters a username may hold: lowercase ASCII letters, digits, `-` and `_`.
pub open spec fn is_username_char(c: char) -> bool {
    is_ascii_lowercase(c) || (48 <= c as u32 <= 57) || c == '-' || c == '_'
}

pub open spec fn all_username_chars(name: Seq<char>) -> bool {
    forall|i: int| 0 <= i < name.len() ==> is_username_char(#[trigger] name[i])
}

/// A username (trimmed) is accepted when it is not empty, not `root`, starts with a lowercase
/// letter, holds only lowercase letters, digits, `-` and `_`, and has at most 32 of them.
pub open spec fn validate_username_spec(input: Seq<char>) -> Result<(), Seq<char>> {
    let name = trim_spec(input);
    if name.len() == 0 {
        Err("Username cannot be empty."@)
    } else if name == "root"@ {
        Err("Cannot use 'root' as admin username."@)
    } else if !is_ascii_lowercase(name[0]) {
        Err("Username must start with a lowercase letter."@)
    } else if !all_username_chars(name) {
        Err("Username can only contain lowercase letters, digits, hyphens, and underscores."@)
    } else if name.len() > 32 {
        Err("Username must not exceed 32 characters."@)
    } else {
        Ok(())
    }
}

/// Checks the admin username typed in the wizard.
pub fn validate_username(input: &String) -> (r: Result<(), String>)
    ensures
        error_view(r) == validate_username_spec(input@),
{
    let name = trim(input.as_str());
    let v = chars_of(name.as_str());
    if v.len() == 0 {
        return Err("Username cannot be empty.".to_string());
    }
    if name == "root".to_string() {
        return Err("Cannot use 'root' as admin username.".to_string());
    }
    if !is_lower(v[0]) {
        return Err("Username must start with a lowercase letter.".to_string());
    }
    let mut i: usize = 0;
    while i < v.len()
        invariant
            v@ == trim_spec(input@),
            v@.len() > 0,
            v@ != "root"@,
            is_ascii_lowercase(v@[0]),
            i <= v@.len(),
            forall|k: int| 0 <= k < i ==> is_username_char(#[trigger] v@[k]),
        decreases v@.len() - i,
    {
        let c = v[i];
        let u = c as u32;
        if !(is_lower(c) || (48 <= u && u <= 57) || c == '-' || c == '_') {
            assert(!is_username_char(v@[i as int]));
            return Err(
                "Username can only contain lowercase letters, digits, hyphens, and underscores.".to_string(),
            );
        }
        i = i + 1;
    }
    assert(all_username_chars(v@));
    if v.len() > 32 {
        return Err("Username must not exceed 32 characters.".to_string());
    }
    Ok(())
}

/// An accepted username is the trimmed input, between 1 and 32 characters, not `root`,
/// starting with a lowercase ASCII letter, and holding only lowercase ASCII letters, ASCII
/// digits, `-` and `_`; in particular any other character (an uppercase letter, a dot, a space
/// inside the name) makes it refused.
pub proof fn accepted_usernames_are_lowercase(input: Seq<char>)
    ensures
        validate_username_spec(input) is Ok ==> {
            let name = trim_spec(input);
            &&& 1 <= name.len() <= 32
            &&& name != "root"@
            &&& 97 <= name[0] as u32 <= 122
            &&& forall|i: int|
                0 <= i < name.len() ==> {
                    let c = #[trigger] name[i] as u32;
                    (97 <= c <= 122) || (48 <= c <= 57) || c == 45 || c == 95
                }
        },
        (exists|i: int|
            0 <= i < trim_spec(input).len() && {
                let c = #[trigger] trim_spec(input)[i] as u32;
                !((97 <= c <= 122) || (48 <= c <= 57) || c == 45 || c == 95)
            }) ==> validate_username_spec(input) is Err,
{
    let name = trim_spec(input);
    if validate_username_spec(input) is Ok {
        assert forall|i: int| 0 <= i < name.len() implies {
            let c = #[trigger] name[i] as u32;
            (97 <= c <= 122) || (48 <= c <= 57) || c == 45 || c == 95
        } by {
            assert(is_username_char(name[i]));
        }
    }
    if exists|i: int|
        0 <= i < name.len() && {
            let c = #[trigger] name[i] as u32;
            !((97 <= c <= 122) || (48 <= c <= 57) || c == 45 || c == 95)
        } {
        let i = choose|i: int|
            0 <= i < name.len() && {
                let c = #[trigger] name[i] as u32;
                !((97 <= c <= 122) || (48 <= c <= 57) || c == 45 || c == 95)
            };
        assert(!is_username_char(name[i]));
    }
}

/// A password is accepted when its UTF-8 encoding has at least 4 bytes.
pub open spec fn validate_password_spec(input: Seq<char>) -> Result<(), Seq<char>> {
    if vstd::utf8::encode_utf8(input).len() < 4 {
        Err("Password must be at least 4 characters."@)
    } else {
        Ok(())
    }
}

/// Checks the admin password typed in the wizard.
pub fn validate_password(input: &String) -> (r: Result<(), String>)
    ensures
        error_view(r) == validate_password_spec(input@),
{
    if !utf8_len_at_least(input.as_str(), 4) {
        return Err("Password must be at least 4 characters.".to_string());
    }
    Ok(())
}

/// What a regional menu choice means.
#[derive(Debug)]
pub enum RegionalSelection {
    Back,
    /// Type the value in.
    Manual,
    Chosen(String),
}

/// The time zones offered, followed by the manual entry and going back.
pub open spec fn timezone_menu_spec() -> Seq<Seq<char>> {
    seq![
        "Africa/Accra"@,
        "Africa/Lagos"@,
        "Africa/Nairobi"@,
        "Africa/Cairo"@,
        "America/New_York"@,
        "America/Chicago"@,
        "America/Denver"@,
        "America/Los_Angeles"@,
        "Europe/London"@,
        "Europe/Berlin"@,
        "Europe/Paris"@,
        "Asia/Tokyo"@,
        "Asia/Shanghai"@,
        "Asia/Kolkata"@,
        "Australia/Sydney"@,
        "Other (type manually)"@,
        "< Go Back"@,
    ]
}

pub fn timezone_menu() -> (m: Vec<String>)
    ensures
        m.deep_view() == timezone_menu_spec(),
{
    let m = vec![
        "Africa/Accra".to_string(),
        "Africa/Lagos".to_string(),
        "Africa/Nairobi".to_string(),
        "Africa/Cairo".to_string(),
        "America/New_York".to_string(),
        "America/Chicago".to_string(),
        "America/Denver".to_string(),
        "America/Los_Angeles".to_string(),
        "Europe/London".to_string(),
        "Europe/Berlin".to_string(),
        "Europe/Paris".to_string(),
        "Asia/Tokyo".to_string(),
        "Asia/Shanghai".to_string(),
        "Asia/Kolkata".to_string(),
        "Australia/Sydney".to_string(),
        "Other (type manually)".to_string(),
        "< Go Back".to_string(),
    ];
    assert(m.deep_view() =~= timezone_menu_spec());
    m
}

/// The last entry goes back, the one before it asks for manual entry, and any other is the
/// time zone it names.
pub fn timezone_selection(tz_idx: usize) -> (s: RegionalSelection)
    requires
        tz_idx < timezone_menu_spec().len(),
    ensures
        tz_idx == 16 ==> s is Back,
        tz_idx == 15 ==> s is Manual,
        tz_idx < 15 ==> (s matches RegionalSelection::Chosen(z) && z@ == timezone_menu_spec()[tz_idx as int]),
{
    let m = timezone_menu();
    if tz_idx == m.len() - 1 {
        return RegionalSelection::Back;
    }
    if tz_idx == m.len() - 2 {
        return RegionalSelection::Manual;
    }
    assert(m.deep_view()[tz_idx as int] == m@[tz_idx as int]@);
    RegionalSelection::Chosen(m[tz_idx].clone())
}

/// The locales offered, followed by the manual entry.
pub open spec fn locale_menu_spec() -> Seq<Seq<char>> {
    seq![
        "en_US.UTF-8"@,
        "en_GB.UTF-8"@,
        "fr_FR.UTF-8"@,
        "de_DE.UTF-8"@,
        "es_ES.UTF-8"@,
        "pt_BR.UTF-8"@,
        "zh_CN.UTF-8"@,
        "ja_JP.UTF-8"@,
        "ar_EG.UTF-8"@,
        "Other (type manually)"@,
    ]
}

pub fn locale_menu() -> (m: Vec<String>)
    ensures
        m.deep_view() == locale_menu_spec(),
{
    let m = vec![
        "en_US.UTF-8".to_string(),
        "en_GB.UTF-8".to_string(),
        "fr_FR.UTF-8".to_string(),
        "de_DE.UTF-8".to_string(),
        "es_ES.UTF-8".to_string(),
        "pt_BR.UTF-8".to_string(),
        "zh_CN.UTF-8".to_string(),
        "ja_JP.UTF-8".to_string(),
        "ar_EG.UTF-8".to_string(),
        "Other (type manually)".to_string(),
    ];
    assert(m.deep_view() =~= locale_menu_spec());
    m
}

/// The last entry asks for manual entry; any other is the locale it names.
pub fn locale_selection(loc_idx: usize) -> (s: RegionalSelection)
    requires
        loc_idx < locale_menu_spec().len(),
    ensures
        loc_idx == 9 ==> s is Manual,
        loc_idx < 9 ==> (s matches RegionalSelection::Chosen(l) && l@ == locale_menu_spec()[loc_idx as int]),
{
    let m = locale_menu();
    if loc_idx == m.len() - 1 {
        return RegionalSelection::Manual;
    }
    assert(m.deep_view()[loc_idx as int] == m@[loc_idx as int]@);
    RegionalSelection::Chosen(m[loc_idx].clone())
}

/// How the summary names a filesystem.
pub open spec fn fs_label_spec(fs: FilesystemType) -> Seq<char> {
    match fs {
        FilesystemType::Ext4 => "Ext4"@,
        FilesystemType::Btrfs => "Btrfs (with subvolumes)"@,
    }
}

/// The summary shown before installing, ending with the data-loss warning.
pub open spec fn summary_spec(
    disk: Seq<char>,
    fs: FilesystemType,
    hostname: Seq<char>,
    username: Seq<char>,
    timezone: Seq<char>,
    locale: Seq<char>,
) -> Seq<char> {
    "\n========================================\n"@ + "         Installation Summary           \n"@
        + "========================================\n"@ + "  Target Disk  : "@ + disk + "\n"@
        + "  Filesystem   : "@ + fs_label_spec(fs) + "\n"@ + "  Hostname     : "@ + hostname + "\n"@
        + "  Username     : "@ + username + "\n"@ + "  Timezone     : "@ + timezone + "\n"@
        + "  Locale       : "@ + locale + "\n"@ + "========================================\n\n"@
        + "WARNING: ALL data on "@ + disk + " will be irrevocably destroyed.\n"@
}

/// The summary text for the context, or an error when no target disk was chosen.
pub fn installation_summary(ctx: &InstallationContext) -> (r: Result<String, String>)
    ensures
        match ctx.target {
            None => r matches Err(e) && e@ == "Target disk was not configured."@,
            Some(t) => r matches Ok(s) && s@ == summary_spec(
                t.device_path@,
                ctx.fs_type,
                ctx.sys_config.hostname@,
                ctx.sys_config.username@,
                ctx.sys_config.timezone@,
                ctx.sys_config.locale@,
            ),
        },
{
    let target = match &ctx.target {
        Some(t) => t,
        None => {
            return Err("Target disk was not configured.".to_string());
        },
    };
    let disk = target.device_path.as_str();
    let cfg = &ctx.sys_config;
    let mut s = "\n========================================\n".to_string();
    s.append("         Installation Summary           \n");
    s.append("========================================\n");
    s.append("  Target Disk  : ");
    s.append(disk);
    s.append("\n");
    s.append("  Filesystem   : ");
    match ctx.fs_type {
        FilesystemType::Ext4 => s.append("Ext4"),
        FilesystemType::Btrfs => s.append("Btrfs (with subvolumes)"),
    }
    s.append("\n");
    s.append("  Hostname     : ");
    s.append(cfg.hostname.as_str());
    s.append("\n");
    s.append("  Username     : ");
    s.append(cfg.username.as_str());
    s.append("\n");
    s.append("  Timezone     : ");
    s.append(cfg.timezone.as_str());
    s.append("\n");
    s.append("  Locale       : ");
    s.append(cfg.locale.as_str());
    s.append("\n");
    s.append("========================================\n\n");
    s.append("WARNING: ALL data on ");
    s.append(disk);
    s.append(" will be irrevocably destroyed.\n");
    Ok(s)
}

/// The confirmation menu.
pub fn summary_menu() -> (m: Vec<String>)
    ensures
        m.deep_view() == seq!["Proceed with Installation"@, "Go Back and Edit"@, "Cancel Installation"@],
{
    let m = vec![
        "Proceed with Installation".to_string(),
        "Go Back and Edit".to_string(),
        "Cancel Installation".to_string(),
    ];
    assert(m.deep_view() =~= seq!["Proceed with Installation"@, "Go Back and Edit"@, "Cancel Installation"@]);
    m
}

/// Entry 0 proceeds, entry 1 goes back, anything else cancels.
pub fn summary_choice(choice: usize) -> (a: NavAction)
    ensures
        a == (if choice == 0 {
            NavAction::Next
        } else if choice == 1 {
            NavAction::Back
        } else {
            NavAction::Cancel
        }),
{
    if choice == 0 {
        NavAction::Next
    } else if choice == 1 {
        NavAction::Back
    } else {
        NavAction::Cancel
    }
}

/// `openssl passwd -6 -stdin` with the password on standard input: a SHA-512 crypt hash, the
/// form `chpasswd -e` takes, without the password appearing in the arguments.
pub fn hash_password_command(password: &str) -> (c: ExternalCommand)
    ensures
        c@ == (CommandView {
            program: "openssl"@,
            args: seq!["passwd"@, "-6"@, "-stdin"@],
            stdin: Some(password@),
        }),
{
    let args = vec!["passwd".to_string(), "-6".to_string(), "-stdin".to_string()];
    assert(args.deep_view() =~= seq!["passwd"@, "-6"@, "-stdin"@]);
    ExternalCommand::new("openssl", args).with_stdin(password)
}

/// The hash `openssl passwd` printed: its trimmed output, when it succeeded and printed one.
pub open spec fn password_hash_spec(succeeded: bool, stdout: Seq<char>) -> Result<Seq<char>, Seq<char>> {
    if !succeeded {
        Err("openssl passwd failed. Is openssl installed in the live environment?"@)
    } else if trim_spec(stdout).len() == 0 {
        Err("Password hashing produced empty output."@)
    } else {
        Ok(trim_spec(stdout))
    }
}

pub fn password_hash_from_output(succeeded: bool, stdout: &str) -> (r: Result<String, String>)
    ensures
        match r {
            Ok(h) => password_hash_spec(succeeded, stdout@) == Ok::<Seq<char>, Seq<char>>(h@),
            Err(e) => password_hash_spec(succeeded, stdout@) == Err::<Seq<char>, Seq<char>>(e@),
        },
{
    if !succeeded {
        return Err("openssl passwd failed. Is openssl installed in the live environment?".to_string());
    }
    let hash = trim(stdout);
    if hash.as_str().is_empty() {
        return Err("Password hashing produced empty output.".to_string());
    }
    Ok(hash)
}

/// Stores the user stage's answers in the context: the hostname and admin username, then the
/// password hash that `openssl passwd` printed. When hashing failed the stage fails with its
/// error and no hash is stored; otherwise the wizard goes on.
pub fn store_user_config(
    ctx: &mut InstallationContext,
    hostname: String,
    username: String,
    hash_succeeded: bool,
    hash_stdout: &str,
) -> (r: Result<NavAction, String>)
    ensures
        final(ctx).target == old(ctx).target,
        final(ctx).is_uefi == old(ctx).is_uefi,
        final(ctx).fs_type == old(ctx).fs_type,
        final(ctx).sys_config.hostname == hostname,
        final(ctx).sys_config.username == username,
        final(ctx).sys_config.timezone == old(ctx).sys_config.timezone,
        final(ctx).sys_config.locale == old(ctx).sys_config.locale,
        r matches Ok(a) ==> stage_effect_ok(SetupStage::UserConfig, a, *old(ctx), *final(ctx)),
        match password_hash_spec(hash_succeeded, hash_stdout@) {
            Ok(h) => r == Ok::<NavAction, String>(NavAction::Next) && final(ctx).sys_config.password_hash@ == h,
            Err(e) => (r matches Err(m) && m@ == e) && final(ctx).sys_config.password_hash
                == old(ctx).sys_config.password_hash,
        },
{
    ctx.sys_config.hostname = hostname;
    ctx.sys_config.username = username;
    match password_hash_from_output(hash_succeeded, hash_stdout) {
        Ok(h) => {
            ctx.sys_config.password_hash = h;
            Ok(NavAction::Next)
        },
        Err(e) => Err(e),
    }
}

/// Stores the regional stage's answers in the context.
pub fn store_regional(ctx: &mut InstallationContext, timezone: String, locale: String)
    ensures
        final(ctx).target == old(ctx).target,
        final(ctx).is_uefi == old(ctx).is_uefi,
        final(ctx).fs_type == old(ctx).fs_type,
        final(ctx).sys_config.hostname == old(ctx).sys_config.hostname,
        final(ctx).sys_config.username == old(ctx).sys_config.username,
        final(ctx).sys_config.password_hash == old(ctx).sys_config.password_hash,
        final(ctx).sys_config.timezone == timezone,
        final(ctx).sys_config.locale == locale,
        stage_effect_ok(SetupStage::Regional, NavAction::Next, *old(ctx), *final(ctx)),
{
    ctx.sys_config.timezone = timezone;
    ctx.sys_config.locale = locale;
}

/// What the wizard holds by the time it reaches `stage`: a target disk once past the disk
/// selection, and a password hash once past the user stage.
pub open spec fn wizard_ready(stage: SetupStage, ctx: InstallationContext) -> bool {
    &&& stage_index(stage) > stage_index(SetupStage::DiskSelection) ==> ctx.target is Some
    &&& stage_index(stage) > stage_index(SetupStage::UserConfig) ==> ctx.sys_config.password_hash@.len()
        > 0
}

/// What the stages promise when they go on: the disk stage has set a target (as `select_disk`
/// ensures), and the user stage a password hash, which `store_user_config` takes from
/// `password_hash_from_output` and is never empty.
pub open spec fn stage_result_ok(stage: SetupStage, action: NavAction, ctx: InstallationContext) -> bool {
    &&& stage == SetupStage::DiskSelection && action == NavAction::Next ==> ctx.target is Some
    &&& stage == SetupStage::UserConfig && action == NavAction::Next
        ==> ctx.sys_config.password_hash@.len() > 0
}

/// A password hash that the hashing step accepts is never empty.
pub proof fn accepted_hash_is_not_empty(succeeded: bool, stdout: Seq<char>)
    ensures
        password_hash_spec(succeeded, stdout) matches Ok(h) ==> h.len() > 0,
{
}

/// Each transition of the wizard keeps what it holds: from a stage reached with
/// `wizard_ready`, whose answers are stored as the stage functions promise, the next stage is
/// reached ready too, and a finished wizard has a target disk and a non-empty password hash.
pub proof fn finished_wizard_has_target_and_hash(
    stage: SetupStage,
    action: NavAction,
    ctx: InstallationContext,
)
    requires
        wizard_ready(stage, ctx),
        stage_result_ok(stage, action, ctx),
    ensures
        next_stage_spec(stage, action) matches WizardTransition::Goto(s) ==> wizard_ready(s, ctx),
        next_stage_spec(stage, action) == WizardTransition::Finished ==> ctx.target is Some
            && ctx.sys_config.password_hash@.len() > 0,
{
}

/// What a stage may do to the context, with the action it returns: only the disk stage changes
/// the target, only the user stage the password hash, and each goes on only once it has set
/// one (`stage_result_ok`).
pub open spec fn stage_effect_ok(
    stage: SetupStage,
    action: NavAction,
    before: InstallationContext,
    after: InstallationContext,
) -> bool {
    &&& stage != SetupStage::DiskSelection ==> after.target == before.target
    &&& stage != SetupStage::UserConfig ==> after.sys_config.password_hash
        == before.sys_config.password_hash
    &&& stage_result_ok(stage, action, after)
}

/// A run of the wizard that did not stop at an error: `stages[i]` is the i-th stage visited,
/// starting at the welcome stage, `actions[i]` how the user left it, `ctxs[0]` the context the
/// run started with and `ctxs[i + 1]` the context after stage i; each stage's effect is one the
/// stage functions allow, and each next stage is the one `next_stage` goes to.
pub open spec fn wizard_trace(
    stages: Seq<SetupStage>,
    actions: Seq<NavAction>,
    ctxs: Seq<InstallationContext>,
) -> bool {
    &&& stages.len() > 0
    &&& actions.len() == stages.len()
    &&& ctxs.len() == stages.len() + 1
    &&& stages[0] == SetupStage::Welcome
    &&& forall|i: int|
        0 <= i < stages.len() ==> stage_effect_ok(
            #[trigger] stages[i],
            actions[i],
            ctxs[i],
            ctxs[i + 1],
        )
    &&& forall|i: int|
        0 <= i < stages.len() - 1 ==> next_stage_spec(#[trigger] stages[i], actions[i])
            == WizardTransition::Goto(stages[i + 1])
}

/// The welcome, network and summary stages leave the context as it is, which is an allowed
/// effect whatever the user chose there.
pub proof fn unchanged_context_effect_ok(stage: SetupStage, action: NavAction, ctx: InstallationContext)
    requires
        stage == SetupStage::Welcome || stage == SetupStage::Network || stage == SetupStage::Summary,
    ensures
        stage_effect_ok(stage, action, ctx, ctx),
{
}

proof fn lemma_trace_ready(
    stages: Seq<SetupStage>,
    actions: Seq<NavAction>,
    ctxs: Seq<InstallationContext>,
    i: int,
)
    requires
        wizard_trace(stages, actions, ctxs),
        0 <= i < stages.len(),
    ensures
        wizard_ready(stages[i], ctxs[i]),
    decreases i,
{
    if i > 0 {
        lemma_trace_ready(stages, actions, ctxs, i - 1);
        let s = stages[i - 1];
        assert(stage_effect_ok(s, actions[i - 1], ctxs[i - 1], ctxs[i]));
        assert(wizard_ready(s, ctxs[i]));
        finished_wizard_has_target_and_hash(s, actions[i - 1], ctxs[i]);
    }
}

/// A whole run of the wizard: it finishes only from the summary, and when it finishes the
/// context has a target disk and a non-empty password hash; at any stage after the welcome,
/// cancelling aborts it at once.
pub proof fn wizard_run_finishes_ready(
    stages: Seq<SetupStage>,
    actions: Seq<NavAction>,
    ctxs: Seq<InstallationContext>,
)
    requires
        wizard_trace(stages, actions, ctxs),
    ensures
        ({
            let n = stages.len() - 1;
            next_stage_spec(stages[n], actions[n]) == WizardTransition::Finished ==> {
                &&& stages[n] == SetupStage::Summary
                &&& ctxs[n + 1].target is Some
                &&& ctxs[n + 1].sys_config.password_hash@.len() > 0
            }
        }),
        forall|i: int|
            0 <= i < stages.len() && stages[i] != SetupStage::Welcome && actions[i] == NavAction::Cancel
                ==> next_stage_spec(#[trigger] stages[i], actions[i]) == WizardTransition::Aborted,
{
    let n = stages.len() - 1;
    lemma_trace_ready(stages, actions, ctxs, n);
    assert(stage_effect_ok(stages[n], actions[n], ctxs[n], ctxs[n + 1]));
    finished_wizard_has_target_and_hash(stages[n], actions[n], ctxs[n + 1]);
}

} // verus!
