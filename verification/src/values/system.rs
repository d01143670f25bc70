//! Memory, disk and processor readings as display segments.

use crate::color::Colorizer;
use crate::status::StatusData;
use crate::status::StatusDataView;
use crate::single::Single;
use crate::system::available_figure;
use crate::system::available_text;
use crate::system::cpu_alarm;
use crate::system::cpu_figure;
use crate::system::cpu_level;
use crate::system::cpu_text;
use crate::system::disk_alarm;
use crate::system::disk_level;
use crate::system::memory_alarm;
use crate::system::memory_figure;
use crate::system::memory_level;
use crate::system::memory_text;
use crate::system::usage_figure;
use crate::system::usage_text;
use crate::system::DiskSpace;
use vstd::prelude::*;

verus! {

/// The memory segment.
pub open spec fn memory_view(used: nat, total: nat, colorizer: Colorizer) -> StatusDataView {
    colorizer.segment_view("memory_usage"@, memory_text(used, total), memory_level(used, total))
}

/// The segment of the space that is available on `disk`.
pub open spec fn available_view(disk: DiskSpace, colorizer: Colorizer) -> StatusDataView {
    colorizer.segment_view(
        "available_disk_total"@,
        available_text(disk.available as nat),
        disk_level(disk.available as nat, disk.total as nat),
    )
}

/// The segment of the share of `disk` that is used.
pub open spec fn usage_view(disk: DiskSpace, colorizer: Colorizer) -> StatusDataView {
    colorizer.segment_view(
        "disk_usage"@,
        usage_text(disk.available as nat, disk.total as nat),
        disk_level(disk.available as nat, disk.total as nat),
    )
}

/// The processor segment.
pub open spec fn cpu_view(usage: Single, colorizer: Colorizer) -> StatusDataView {
    colorizer.segment_view("cpu_usage"@, cpu_text(usage), cpu_level(usage))
}

/// The memory in use as `<used>/<total> GiB`: red where more than 80% is
/// used, yellow where more than 50% is.
pub fn memory_usage(used: u64, total: u64, colorizer: Colorizer) -> (item: StatusData)
    ensures
        item@ == memory_view(used as nat, total as nat, colorizer),
        item@.wf(),
        !item@.is_empty(),
{
    let text = memory_figure(used, total);
    colorizer.segment("memory_usage", text.as_str(), memory_alarm(used, total))
}

/// The space available on the first disk as `<available> GiB`: red where
/// less than 10% is available, yellow where less than 30% is. Without a disk
/// there is no segment.
pub fn available_disk_total(disks: &[DiskSpace], colorizer: Colorizer) -> (item: Option<StatusData>)
    ensures
        disks@.len() == 0 ==> item is None,
        disks@.len() > 0 ==> item is Some && item->0@ == available_view(disks@[0], colorizer),
        item matches Some(segment) ==> segment@.wf() && segment@.name.len() > 0,
{
    proof {
        reveal_strlit("available_disk_total");
        reveal_strlit(" GiB");
    }
    if disks.len() == 0 {
        return None;
    }
    let disk = disks[0];
    let text = available_figure(disk.available);
    Some(
        colorizer.segment(
            "available_disk_total",
            text.as_str(),
            disk_alarm(disk.available, disk.total),
        ),
    )
}

/// The used share of the first disk in percent: red where more than 90% is
/// used, yellow where more than 70% is. Without a disk there is no segment.
pub fn disk_usage(disks: &[DiskSpace], colorizer: Colorizer) -> (item: Option<StatusData>)
    ensures
        disks@.len() == 0 ==> item is None,
        disks@.len() > 0 ==> item is Some && item->0@ == usage_view(disks@[0], colorizer),
        item matches Some(segment) ==> segment@.wf() && !segment@.is_empty(),
{
    if disks.len() == 0 {
        return None;
    }
    let disk = disks[0];
    let text = usage_figure(disk.available, disk.total);
    Some(colorizer.segment("disk_usage", text.as_str(), disk_alarm(disk.available, disk.total)))
}

/// The processor load in percent: red above 80%, yellow above 50%.
pub fn cpu_usage(usage: Single, colorizer: Colorizer) -> (item: StatusData)
    ensures
        item@ == cpu_view(usage, colorizer),
        item@.wf(),
        !item@.is_empty(),
{
    let text = cpu_figure(usage);
    colorizer.segment("cpu_usage", text.as_str(), cpu_alarm(usage))
}

} // verus!
