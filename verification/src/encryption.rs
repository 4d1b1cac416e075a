//! LUKS2 encryption of a partition.

use vstd::prelude::*;

use crate::command::{plain_command, CommandView, ExternalCommand};

verus! {

broadcast use vstd::string::group_string_axioms;

/// `cryptsetup luksFormat --type luks2 <partition>`, with the passphrase on standard input.
pub fn luks_format_command(partition: &str, password: &str) -> (c: ExternalCommand)
    ensures
        c@ == (CommandView {
            program: "cryptsetup"@,
            args: seq!["luksFormat"@, "--type"@, "luks2"@, partition@],
            stdin: Some(password@),
        }),
{
    let args = vec!["luksFormat".to_string(), "--type".to_string(), "luks2".to_string(), partition.to_string()];
    assert(args.deep_view() =~= seq!["luksFormat"@, "--type"@, "luks2"@, partition@]);
    ExternalCommand::new("cryptsetup", args).with_stdin(password)
}

/// `cryptsetup open <partition> mitos-root`.
pub fn luks_open_command(partition: &str) -> (c: ExternalCommand)
    ensures
        c@ == plain_command("cryptsetup"@, seq!["open"@, partition@, "mitos-root"@]),
{
    let args = vec!["open".to_string(), partition.to_string(), "mitos-root".to_string()];
    assert(args.deep_view() =~= seq!["open"@, partition@, "mitos-root"@]);
    ExternalCommand::new("cryptsetup", args)
}

/// The device of the opened container.
pub fn luks_mapper_path() -> (p: String)
    ensures
        p@ == "/dev/mapper/mitos-root"@,
{
    "/dev/mapper/mitos-root".to_string()
}

} // verus!
