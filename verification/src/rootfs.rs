//! Deploying the root filesystem payload onto the mounted target.

use vstd::prelude::*;
use vstd::string::StringExecFns;

use crate::command::{plain_command, CommandView, ExternalCommand};
use crate::text::{trim_end_char, trim_end_char_spec};

verus! {

broadcast use vstd::string::group_string_axioms;

/// Where the root filesystem comes from.
#[derive(Debug, Clone)]
pub enum RootfsSource {
    /// A tarball, such as `/run/media/rootfs.tar.xz`.
    Archive(String),
    /// A live root directory, such as `/run/rootfs`.
    Directory(String),
}

/// The mathematical value of a [`RootfsSource`].
pub enum RootfsSourceView {
    Archive(Seq<char>),
    Directory(Seq<char>),
}

impl View for RootfsSource {
    type V = RootfsSourceView;

    open spec fn view(&self) -> RootfsSourceView {
        match self {
            RootfsSource::Archive(p) => RootfsSourceView::Archive(p@),
            RootfsSource::Directory(p) => RootfsSourceView::Directory(p@),
        }
    }
}

/// `tar -xpf <archive> -C <target> --numeric-owner`.
pub open spec fn extract_tarball_spec(tar_path: Seq<char>, target_dir: Seq<char>) -> CommandView {
    plain_command("tar"@, seq!["-xpf"@, tar_path, "-C"@, target_dir, "--numeric-owner"@])
}

/// The rsync source: the directory with its trailing slashes replaced by exactly one, so that
/// its contents (not the directory itself) are copied.
pub open spec fn sync_source_spec(source_dir: Seq<char>) -> Seq<char> {
    trim_end_char_spec(source_dir, '/') + "/"@
}

/// `rsync -aHAX --numeric-ids --info=progress2 <source>/ <target>`.
pub open spec fn sync_directory_spec(source_dir: Seq<char>, target_dir: Seq<char>) -> CommandView {
    plain_command(
        "rsync"@,
        seq!["-aHAX"@, "--numeric-ids"@, "--info=progress2"@, sync_source_spec(source_dir), target_dir],
    )
}

/// The command that unpacks or copies `source` onto `target_dir`.
pub open spec fn deploy_rootfs_spec(source: RootfsSourceView, target_dir: Seq<char>) -> CommandView {
    match source {
        RootfsSourceView::Archive(t) => extract_tarball_spec(t, target_dir),
        RootfsSourceView::Directory(d) => sync_directory_spec(d, target_dir),
    }
}

/// Unpacks or syncs the rootfs payload onto the mounted root directory.
pub fn deploy_rootfs(source: &RootfsSource, target_dir: &str) -> (c: ExternalCommand)
    ensures
        c@ == deploy_rootfs_spec(source@, target_dir@),
{
    match source {
        RootfsSource::Archive(tar_path) => extract_tarball(tar_path.as_str(), target_dir),
        RootfsSource::Directory(source_dir) => sync_directory(source_dir.as_str(), target_dir),
    }
}

fn extract_tarball(tar_path: &str, target_dir: &str) -> (c: ExternalCommand)
    ensures
        c@ == extract_tarball_spec(tar_path@, target_dir@),
{
    let args = vec![
        "-xpf".to_string(),
        tar_path.to_string(),
        "-C".to_string(),
        target_dir.to_string(),
        "--numeric-owner".to_string(),
    ];
    assert(args.deep_view() =~= seq!["-xpf"@, tar_path@, "-C"@, target_dir@, "--numeric-owner"@]);
    ExternalCommand::new("tar", args)
}

fn sync_directory(source_dir: &str, target_dir: &str) -> (c: ExternalCommand)
    ensures
        c@ == sync_directory_spec(source_dir@, target_dir@),
{
    let mut src_trailing = trim_end_char(source_dir, '/');
    src_trailing.append("/");
    let args = vec![
        "-aHAX".to_string(),
        "--numeric-ids".to_string(),
        "--info=progress2".to_string(),
        src_trailing,
        target_dir.to_string(),
    ];
    assert(args.deep_view() =~= seq![
        "-aHAX"@,
        "--numeric-ids"@,
        "--info=progress2"@,
        sync_source_spec(source_dir@),
        target_dir@,
    ]);
    ExternalCommand::new("rsync", args)
}

/// Adding a trailing slash to a live root directory does not change what is copied.
pub proof fn sync_source_ignores_trailing_slash(source_dir: Seq<char>)
    ensures
        sync_source_spec(source_dir.push('/')) == sync_source_spec(source_dir),
{
    assert(source_dir.push('/').drop_last() =~= source_dir);
}

/// The result of deploying `source`, given how its program ended: `exit` is `None` when it could
/// not be started, and `detail` is then the reason, otherwise its error output. The deployment
/// succeeds exactly when the program exited successfully.
pub open spec fn deploy_result_spec(source: RootfsSourceView, exit: Option<bool>, detail: Seq<char>) -> Result<
    (),
    Seq<char>,
> {
    match exit {
        None => Err(
            match source {
                RootfsSourceView::Archive(_) => "Failed to execute tar extraction: "@,
                RootfsSourceView::Directory(_) => "Failed to execute rsync: "@,
            } + detail,
        ),
        Some(true) => Ok(()),
        Some(false) => Err(
            match source {
                RootfsSourceView::Archive(a) => "Failed to extract rootfs archive from "@ + a,
                RootfsSourceView::Directory(d) => "Failed to copy live rootfs from "@ + d,
            } + ": "@ + detail,
        ),
    }
}

/// Decides the outcome of the command of [`deploy_rootfs`].
pub fn deploy_result(source: &RootfsSource, exit: Option<bool>, detail: &str) -> (r: Result<(), String>)
    ensures
        crate::text::error_view(r) == deploy_result_spec(source@, exit, detail@),
{
    match exit {
        Some(true) => Ok(()),
        None => {
            let mut m = match source {
                RootfsSource::Archive(_) => "Failed to execute tar extraction: ".to_string(),
                RootfsSource::Directory(_) => "Failed to execute rsync: ".to_string(),
            };
            m.append(detail);
            Err(m)
        },
        Some(false) => {
            let mut m = match source {
                RootfsSource::Archive(a) => {
                    let mut m = "Failed to extract rootfs archive from ".to_string();
                    m.append(a.as_str());
                    m
                },
                RootfsSource::Directory(d) => {
                    let mut m = "Failed to copy live rootfs from ".to_string();
                    m.append(d.as_str());
                    m
                },
            };
            m.append(": ");
            m.append(detail);
            Err(m)
        },
    }
}

} // verus!
