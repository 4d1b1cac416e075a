# mitos_installer

The MITOS Linux installer: a text-mode wizard that collects the user's choices, then
partitions a disk, formats and mounts it, unpacks the root filesystem, installs the kernel and
the Limine bootloader, and configures the installed system.

- `src/` is the verified library. It states in contracts the order of the installation steps,
  how a run advances and which failures end it, the teardown of the run's mounts when it ends,
  the wizard's stage transitions and a whole run's outcome, menus, Wi-Fi choices and input
  validation, the external commands (program, arguments and standard input), how the outcomes
  of the disk preparation, the mounts, the root filesystem deployment and a step's list of
  commands decide success, the files written into the target (path and content), partition
  naming, which mounts are recorded, and the parsing of `/proc/meminfo`, `nmcli`, `lsblk` and
  `blkid` output, with the error messages built from them.
- `app/` is the program around it: the terminal dialogs, logging, running the commands the
  library describes and handing their outcomes back to it, reading and writing files, the
  messages of I/O errors, and the JSON decoding of `lsblk` output.
- `tests/` exercises the library on concrete values.
