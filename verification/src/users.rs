//! Accounts of the installed system: the root password, the admin user and sudo access.

use vstd::prelude::*;
use vstd::string::StringExecFns;

use crate::command::{chroot_step, chroot_step_spec, ChrootStep, ChrootStepView};

verus! {

broadcast use vstd::string::group_string_axioms;

/// The `sed` edit that uncomments the wheel group's rule in /etc/sudoers, run through `sh -c`
/// so that its quotes survive.
pub open spec fn sudoers_command() -> Seq<char> {
    "sh -c \"sed -i 's/^# %wheel ALL=(ALL:ALL) ALL/%wheel ALL=(ALL:ALL) ALL/' /etc/sudoers\""@
}

/// The account steps, in order: set root's password hash, create the user (home directory,
/// bash, wheel group), set the user's password hash, and grant wheel sudo. The hashes go to
/// `chpasswd -e` on standard input, so they never appear on a command line.
pub open spec fn configure_users_spec(
    target_mount: Seq<char>,
    username: Seq<char>,
    user_pass: Seq<char>,
    root_pass: Seq<char>,
) -> Seq<ChrootStepView> {
    seq![
        chroot_step_spec(
            target_mount,
            "chpasswd -e"@,
            Some("root:"@ + root_pass),
            "Failed to set root password: "@,
        ),
        chroot_step_spec(
            target_mount,
            "useradd -m -s /bin/bash -G wheel "@ + username,
            None,
            "Failed to create user '"@ + username + "': "@,
        ),
        chroot_step_spec(
            target_mount,
            "chpasswd -e"@,
            Some(username + ":"@ + user_pass),
            "Failed to set password for user '"@ + username + "': "@,
        ),
        chroot_step_spec(target_mount, sudoers_command(), None, "Failed to configure sudoers: "@),
    ]
}

/// The commands that set up the accounts of the target, with the error prefix of each.
pub fn configure_users(target_mount: &str, username: &str, user_pass: &str, root_pass: &str) -> (steps:
    Vec<ChrootStep>)
    ensures
        steps.deep_view() == configure_users_spec(target_mount@, username@, user_pass@, root_pass@),
{
    let mut root_credentials = "root:".to_string();
    root_credentials.append(root_pass);

    let mut useradd_cmd = "useradd -m -s /bin/bash -G wheel ".to_string();
    useradd_cmd.append(username);
    let mut create_prefix = "Failed to create user '".to_string();
    create_prefix.append(username);
    create_prefix.append("': ");

    let mut user_credentials = username.to_string();
    user_credentials.append(":");
    user_credentials.append(user_pass);
    let mut password_prefix = "Failed to set password for user '".to_string();
    password_prefix.append(username);
    password_prefix.append("': ");

    let mut steps: Vec<ChrootStep> = Vec::new();
    steps.push(
        chroot_step(
            target_mount,
            "chpasswd -e",
            Some(root_credentials.as_str()),
            "Failed to set root password: ",
        ),
    );
    steps.push(chroot_step(target_mount, useradd_cmd.as_str(), None, create_prefix.as_str()));
    steps.push(
        chroot_step(
            target_mount,
            "chpasswd -e",
            Some(user_credentials.as_str()),
            password_prefix.as_str(),
        ),
    );
    steps.push(
        chroot_step(
            target_mount,
            "sh -c \"sed -i 's/^# %wheel ALL=(ALL:ALL) ALL/%wheel ALL=(ALL:ALL) ALL/' /etc/sudoers\"",
            None,
            "Failed to configure sudoers: ",
        ),
    );
    assert(steps.deep_view() =~= configure_users_spec(
        target_mount@,
        username@,
        user_pass@,
        root_pass@,
    ));
    steps
}

/// The password hashes reach the commands only through standard input: with any other hashes,
/// every step runs the same command line with the same error prefix.
pub proof fn passwords_stay_off_command_lines(
    target_mount: Seq<char>,
    username: Seq<char>,
    user_pass: Seq<char>,
    root_pass: Seq<char>,
    other_user_pass: Seq<char>,
    other_root_pass: Seq<char>,
)
    ensures
        ({
            let a = configure_users_spec(target_mount, username, user_pass, root_pass);
            let b = configure_users_spec(target_mount, username, other_user_pass, other_root_pass);
            &&& a.len() == b.len()
            &&& forall|i: int|
                0 <= i < a.len() ==> (#[trigger] a[i]).command.program == b[i].command.program
                    && a[i].command.args == b[i].command.args && a[i].error_prefix
                    == b[i].error_prefix
        }),
{
}

} // verus!
