//! Block devices reported by `lsblk`, and which of them can be installed on.

use vstd::prelude::*;

use crate::command::{plain_command, ExternalCommand};

verus! {

broadcast use vstd::string::group_string_axioms;

/// A block device as `lsblk -J -b` describes it.
#[derive(Debug)]
pub struct BlockDevice {
    pub name: String,
    pub path: String,
    /// Size in bytes.
    pub size: u64,
    pub model: Option<String>,
    /// The `type` column: `disk`, `part`, `loop`, `rom`...
    pub dev_type: String,
    /// Whether the device is read-only.
    pub ro: bool,
}

/// The mathematical value of a [`BlockDevice`].
pub struct BlockDeviceView {
    pub name: Seq<char>,
    pub path: Seq<char>,
    pub size: u64,
    pub model: Option<Seq<char>>,
    pub dev_type: Seq<char>,
    pub ro: bool,
}

impl DeepView for BlockDevice {
    type V = BlockDeviceView;

    open spec fn deep_view(&self) -> BlockDeviceView {
        BlockDeviceView {
            name: self.name@,
            path: self.path@,
            size: self.size,
            model: self.model.deep_view(),
            dev_type: self.dev_type@,
            ro: self.ro,
        }
    }
}

/// `lsblk -J -b -o NAME,PATH,SIZE,MODEL,TYPE,RO`: every block device as JSON, sizes in bytes.
pub fn lsblk_command() -> (c: ExternalCommand)
    ensures
        c@ == plain_command("lsblk"@, seq!["-J"@, "-b"@, "-o"@, "NAME,PATH,SIZE,MODEL,TYPE,RO"@]),
{
    let args = vec![
        "-J".to_string(),
        "-b".to_string(),
        "-o".to_string(),
        "NAME,PATH,SIZE,MODEL,TYPE,RO".to_string(),
    ];
    assert(args.deep_view() =~= seq!["-J"@, "-b"@, "-o"@, "NAME,PATH,SIZE,MODEL,TYPE,RO"@]);
    ExternalCommand::new("lsblk", args)
}

/// A device the installer may write to: a whole disk that is not read-only (not a loop
/// device, ROM or write-protected live USB).
pub open spec fn is_writable_disk(d: BlockDeviceView) -> bool {
    d.dev_type == "disk"@ && !d.ro
}

/// The writable disks among `devices`, in their order.
pub open spec fn writable_disks_spec(devices: Seq<BlockDeviceView>) -> Seq<BlockDeviceView>
    decreases devices.len(),
{
    if devices.len() == 0 {
        seq![]
    } else {
        let r = writable_disks_spec(devices.drop_last());
        if is_writable_disk(devices.last()) {
            r.push(devices.last())
        } else {
            r
        }
    }
}

impl BlockDevice {
    /// A field-by-field copy.
    pub fn duplicate(&self) -> (d: BlockDevice)
        ensures
            d.deep_view() == self.deep_view(),
    {
        let model = match &self.model {
            Some(m) => Some(m.clone()),
            None => None,
        };
        BlockDevice {
            name: self.name.clone(),
            path: self.path.clone(),
            size: self.size,
            model,
            dev_type: self.dev_type.clone(),
            ro: self.ro,
        }
    }
}

/// Keeps the writable disks, in order.
pub fn writable_disks(devices: &Vec<BlockDevice>) -> (r: Vec<BlockDevice>)
    ensures
        r.deep_view() == writable_disks_spec(devices.deep_view()),
{
    let ghost all = devices.deep_view();
    let mut r: Vec<BlockDevice> = Vec::new();
    let mut i: usize = 0;
    assert(all.take(0) =~= Seq::<BlockDeviceView>::empty());
    while i < devices.len()
        invariant
            i <= devices@.len(),
            all == devices.deep_view(),
            r.deep_view() == writable_disks_spec(all.take(i as int)),
        decreases devices@.len() - i,
    {
        let d = &devices[i];
        assert(all[i as int] == d.deep_view());
        assert(all.take(i + 1).drop_last() =~= all.take(i as int));
        if d.dev_type == "disk".to_string() && !d.ro {
            let ghost old_r = r.deep_view();
            r.push(d.duplicate());
            assert(r.deep_view() =~= old_r.push(d.deep_view()));
        }
        i = i + 1;
    }
    assert(all.take(devices@.len() as int) =~= all);
    r
}

} // verus!
