use vstd::prelude::*;

verus! {

/// One mounted volume, as the file manager lists it.
pub struct DriveInfo {
    pub name: String,
    pub mount_point: String,
    pub total_space: u64,
    pub available_space: u64,
    pub is_removable: bool,
}

impl View for DriveInfo {
    /// Name, mount point, total and available bytes, and whether the volume
    /// is removable.
    type V = (Seq<char>, Seq<char>, u64, u64, bool);

    open spec fn view(&self) -> Self::V {
        (self.name@, self.mount_point@, self.total_space, self.available_space, self.is_removable)
    }
}

#[verifier::external_type_specification]
#[verifier::external_body]
pub struct ExDisks(sysinfo::Disks);

#[verifier::external_type_specification]
#[verifier::external_body]
pub struct ExDisk(sysinfo::Disk);

/// The volumes of a disk table in its own order, each as its name and mount
/// point (converted lossily to text), its total and available bytes, and
/// whether it is removable.
pub uninterp spec fn mounted_volumes(d: sysinfo::Disks) -> Seq<(Seq<char>, Seq<char>, u64, u64, bool)>;

/// Relies on sysinfo's `Disks::new_with_refreshed_list`: the table of the
/// volumes mounted at the time of the call.
pub assume_specification[ sysinfo::Disks::new_with_refreshed_list ]() -> sysinfo::Disks;

/// Relies on sysinfo's `Disks::list`: the number of volumes in the table.
#[verifier::external_body]
fn volume_count(d: &sysinfo::Disks) -> (n: usize)
    ensures
        n == mounted_volumes(*d).len(),
{
    d.list().len()
}

/// Relies on sysinfo's `Disks::list` and the `Disk` getters `name`,
/// `mount_point`, `total_space`, `available_space` and `is_removable`: the
/// facts of the volume at `i`.
#[verifier::external_body]
fn volume_at(d: &sysinfo::Disks, i: usize) -> (r: DriveInfo)
    requires
        i < mounted_volumes(*d).len(),
    ensures
        r@ == mounted_volumes(*d)[i as int],
{
    let disk = &d.list()[i];
    DriveInfo {
        name: disk.name().to_string_lossy().to_string(),
        mount_point: disk.mount_point().to_string_lossy().to_string(),
        total_space: disk.total_space(),
        available_space: disk.available_space(),
        is_removable: disk.is_removable(),
    }
}

/// `r` holds one record per volume of `d`, in the table's order.
pub open spec fn lists_volumes(r: Seq<DriveInfo>, d: sysinfo::Disks) -> bool {
    &&& r.len() == mounted_volumes(d).len()
    &&& forall|i: int| 0 <= i < r.len() ==> #[trigger] r[i]@ == mounted_volumes(d)[i]
}

/// One record per volume of `disks`, in the table's order.
pub fn drives_of(disks: &sysinfo::Disks) -> (r: Vec<DriveInfo>)
    ensures
        lists_volumes(r@, *disks),
{
    let n = volume_count(disks);
    let mut r: Vec<DriveInfo> = Vec::new();
    let mut i: usize = 0;
    while i < n
        invariant
            n == mounted_volumes(*disks).len(),
            i <= n,
            r@.len() == i,
            forall|j: int| 0 <= j < i ==> #[trigger] r@[j]@ == mounted_volumes(*disks)[j],
        decreases n - i,
    {
        r.push(volume_at(disks, i));
        i = i + 1;
    }
    r
}

/// Enumerates the volumes mounted now, one record each, in the order the
/// host lists them.
pub fn list_drives() -> (r: Vec<DriveInfo>)
    ensures
        exists|d: sysinfo::Disks| #[trigger] lists_volumes(r@, d),
{
    let disks = sysinfo::Disks::new_with_refreshed_list();
    drives_of(&disks)
}

/// A table without volumes gives an empty list, not an error.
pub proof fn lemma_no_volumes_no_drives(r: Seq<DriveInfo>, d: sysinfo::Disks)
    requires
        mounted_volumes(d).len() == 0,
        lists_volumes(r, d),
    ensures
        r.len() == 0,
{
}

/// Two listings of one unchanged volume table are equal, record for record.
pub proof fn lemma_drives_repeatable(r1: Seq<DriveInfo>, r2: Seq<DriveInfo>, d: sysinfo::Disks)
    requires
        lists_volumes(r1, d),
        lists_volumes(r2, d),
    ensures
        r1.len() == r2.len(),
        forall|i: int| 0 <= i < r1.len() ==> #[trigger] r1[i]@ == r2[i]@,
{
}

} // verus!
