//! Locale and time zone of the installed system.

use vstd::prelude::*;
use vstd::string::StringExecFns;

use crate::command::{chroot_step, chroot_step_spec, ChrootStep};
use crate::text::{join_path, join_path_spec};

verus! {

broadcast use vstd::string::group_string_axioms;

/// What configuring the locale does, in order: replace `localtime` with a link to
/// `zoneinfo_link`, write `timezone_content` to `timezone_file`, write `locale_conf_content` to
/// `locale_conf`, append `locale_gen_line` to `locale_gen` (creating it if needed), then run
/// `generate`.
pub struct LocaleSetup {
    pub localtime: String,
    pub zoneinfo_link: String,
    pub timezone_file: String,
    pub timezone_content: String,
    pub locale_conf: String,
    pub locale_conf_content: String,
    pub locale_gen: String,
    pub locale_gen_line: String,
    pub generate: ChrootStep,
}

/// The locale and time zone configuration of the target at `target_mount`.
pub fn configure_locale(target_mount: &str, locale: &str, timezone: &str) -> (l: LocaleSetup)
    ensures
        l.localtime@ == join_path_spec(target_mount@, "etc/localtime"@),
        l.zoneinfo_link@ == "../usr/share/zoneinfo/"@ + timezone@,
        l.timezone_file@ == join_path_spec(target_mount@, "etc/timezone"@),
        l.timezone_content@ == timezone@ + "\n"@,
        l.locale_conf@ == join_path_spec(target_mount@, "etc/locale.conf"@),
        l.locale_conf_content@ == "LANG="@ + locale@ + "\n"@,
        l.locale_gen@ == join_path_spec(target_mount@, "etc/locale.gen"@),
        l.locale_gen_line@ == locale@ + " UTF-8\n"@,
        l.generate.deep_view() == chroot_step_spec(target_mount@, "locale-gen"@, None, ""@),
{
    let mut zoneinfo_link = "../usr/share/zoneinfo/".to_string();
    zoneinfo_link.append(timezone);
    let mut timezone_content = timezone.to_string();
    timezone_content.append("\n");
    let mut locale_conf_content = "LANG=".to_string();
    locale_conf_content.append(locale);
    locale_conf_content.append("\n");
    let mut locale_gen_line = locale.to_string();
    locale_gen_line.append(" UTF-8\n");
    LocaleSetup {
        localtime: join_path(target_mount, "etc/localtime"),
        zoneinfo_link,
        timezone_file: join_path(target_mount, "etc/timezone"),
        timezone_content,
        locale_conf: join_path(target_mount, "etc/locale.conf"),
        locale_conf_content,
        locale_gen: join_path(target_mount, "etc/locale.gen"),
        locale_gen_line,
        generate: chroot_step(target_mount, "locale-gen", None, ""),
    }
}

} // verus!
