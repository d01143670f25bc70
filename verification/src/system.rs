//! Memory, disk and processor readings as coloured text.
//!
//! Every figure is computed exactly, on whole numbers: a share is compared by
//! cross-multiplying, and a text with one decimal place is the exact quotient
//! rounded to the nearest tenth, ties to even.

use crate::color::classify;
use crate::color::colorize;
use crate::color::level_of;
use crate::color::span;
use crate::color::Color;
use crate::decimal::fixed1;
use crate::decimal::one_decimal;
use crate::decimal::pad_left;
use crate::decimal::padded;
use crate::decimal::round_nearest_even;
use crate::decimal::tenths;
use crate::single::Single;
use vstd::prelude::*;

verus! {

/// Bytes in one GiB.
pub const GIB: u64 = 1_073_741_824;

/// Memory is red where more than this many percent of it are used.
pub const MEMORY_RED: u64 = 80;

/// Memory is yellow where more than this many percent of it are used.
pub const MEMORY_YELLOW: u64 = 50;

/// A disk is red where less than this many percent of it are available.
pub const DISK_RED: u64 = 10;

/// A disk is yellow where less than this many percent of it are available.
pub const DISK_YELLOW: u64 = 30;

/// The processor is red where its load is above this many percent.
pub const CPU_RED: u32 = 80;

/// The processor is yellow where its load is above this many percent.
pub const CPU_YELLOW: u32 = 50;

/// The space of one disk, in bytes.
#[derive(Debug, Clone, Copy, PartialEq, Eq, Structural)]
pub struct DiskSpace {
    pub available: u64,
    pub total: u64,
}

/// `bytes` in GiB with one decimal place.
pub open spec fn gib_text(bytes: nat) -> Seq<char> {
    fixed1(tenths(bytes, GIB as nat))
}

/// The memory text: `<used>/<total> GiB`.
pub open spec fn memory_text(used: nat, total: nat) -> Seq<char> {
    gib_text(used) + seq!['/'] + gib_text(total) + " GiB"@
}

/// The memory level: red where more than 80% is used, yellow where more than
/// 50% is. Exactly 80% is yellow and exactly 50% is clear.
pub open spec fn memory_level(used: nat, total: nat) -> Color {
    if 100 * used > MEMORY_RED * total {
        Color::Red
    } else if 100 * used > MEMORY_YELLOW * total {
        Color::Yellow
    } else {
        Color::Clear
    }
}

/// The text of the space that is available: `<available> GiB`.
pub open spec fn available_text(available: nat) -> Seq<char> {
    gib_text(available) + " GiB"@
}

/// The disk level: red where less than 10% is available (more than 90% is
/// used), yellow where less than 30% is available (more than 70% is used).
/// Exactly 10% available is yellow and exactly 30% is clear.
pub open spec fn disk_level(available: nat, total: nat) -> Color {
    if 100 * available < DISK_RED * total {
        Color::Red
    } else if 100 * available < DISK_YELLOW * total {
        Color::Yellow
    } else {
        Color::Clear
    }
}

/// The share of the disk that is used, `100 * (1 - available / total)`, with
/// one decimal place. More available than total gives a negative share. A
/// total of zero gives no share: `NaN` where nothing is available either,
/// `-inf` where something is.
pub open spec fn used_percent(available: nat, total: nat) -> Seq<char> {
    if total == 0 {
        if available == 0 {
            "NaN"@
        } else {
            "-inf"@
        }
    } else if available > total {
        seq!['-'] + fixed1(tenths((100 * (available - total)) as nat, total))
    } else {
        fixed1(tenths((100 * (total - available)) as nat, total))
    }
}

/// The disk usage text: the used share, at least four characters wide, and `%`.
pub open spec fn usage_text(available: nat, total: nat) -> Seq<char> {
    padded(used_percent(available, total), 4) + seq!['%']
}

/// The processor text: the load, at least four characters wide, and `%`.
pub open spec fn cpu_text(usage: Single) -> Seq<char> {
    padded(usage.text(), 4) + seq!['%']
}

/// The processor level: red above 80%, yellow above 50%. Exactly 80% is
/// yellow and exactly 50% is clear.
pub open spec fn cpu_level(usage: Single) -> Color {
    if usage.exceeds(CPU_RED as nat) {
        Color::Red
    } else if usage.exceeds(CPU_YELLOW as nat) {
        Color::Yellow
    } else {
        Color::Clear
    }
}

/// The two ways of holding memory against its thresholds agree: the share
/// that is free, against what the thresholds leave free and with less being
/// worse, gives the level that the share in use gives against the thresholds.
pub proof fn lemma_memory_orientation(used: u64, total: u64)
    ensures
        level_of(
            (100 * (total - used)) as i128,
            (((100 - MEMORY_RED) * total) as i128, ((100 - MEMORY_YELLOW) * total) as i128),
        ) == memory_level(used as nat, total as nat),
{
    assert(MEMORY_RED == 80 && MEMORY_YELLOW == 50);
    assert((100 - MEMORY_RED) * total == 20 * total);
    assert((100 - MEMORY_YELLOW) * total == 50 * total);
    assert(MEMORY_RED * total == 80 * total);
    assert(MEMORY_YELLOW * total == 50 * total);
}

/// The disk level by the share that is used: red where more than 90% are
/// used, yellow where more than 70% are.
pub proof fn lemma_disk_level_by_use(available: nat, total: nat)
    requires
        available <= total,
    ensures
        disk_level(available, total) == if 100 * (total - available) > (100 - DISK_RED) * total {
            Color::Red
        } else if 100 * (total - available) > (100 - DISK_YELLOW) * total {
            Color::Yellow
        } else {
            Color::Clear
        },
{
    assert(DISK_RED == 10 && DISK_YELLOW == 30);
}

/// Writes `bytes` in GiB with one decimal place.
pub fn gib(bytes: u64) -> (text: String)
    ensures
        text@ == gib_text(bytes as nat),
{
    one_decimal(round_nearest_even(10 * (bytes as u128), GIB as u128))
}

/// Writes the memory text.
pub fn memory_figure(used: u64, total: u64) -> (text: String)
    ensures
        text@ == memory_text(used as nat, total as nat),
{
    proof {
        reveal_strlit("/");
    }
    let mut text = gib(used);
    text.append("/");
    text.append(gib(total).as_str());
    text.append(" GiB");
    assert(text@ =~= memory_text(used as nat, total as nat));
    text
}

/// Classifies the memory in use. For the comparison the share that is free
/// is taken, so that less is worse, and both sides are multiplied out.
pub fn memory_alarm(used: u64, total: u64) -> (level: Color)
    ensures
        level == memory_level(used as nat, total as nat),
{
    let free: i128 = 100 * (total as i128 - used as i128);
    let red: i128 = (100 - MEMORY_RED) as i128 * (total as i128);
    let yellow: i128 = (100 - MEMORY_YELLOW) as i128 * (total as i128);
    classify(&free, &(red, yellow))
}

/// Writes the text of the space that is available.
pub fn available_figure(available: u64) -> (text: String)
    ensures
        text@ == available_text(available as nat),
{
    let mut text = gib(available);
    text.append(" GiB");
    text
}

/// Classifies the space of a disk by the share that is available, both
/// sides multiplied out.
pub fn disk_alarm(available: u64, total: u64) -> (level: Color)
    ensures
        level == disk_level(available as nat, total as nat),
{
    let free: u128 = 100 * (available as u128);
    let red: u128 = DISK_RED as u128 * (total as u128);
    let yellow: u128 = DISK_YELLOW as u128 * (total as u128);
    classify(&free, &(red, yellow))
}

/// Writes the disk usage text.
pub fn usage_figure(available: u64, total: u64) -> (text: String)
    ensures
        text@ == usage_text(available as nat, total as nat),
{
    let share = if total == 0 {
        if available == 0 {
            String::from_str("NaN")
        } else {
            String::from_str("-inf")
        }
    } else if available > total {
        proof {
            reveal_strlit("-");
        }
        let mut share = String::from_str("-");
        let over = round_nearest_even(1000 * ((available - total) as u128), total as u128);
        share.append(one_decimal(over).as_str());
        assert(share@ =~= used_percent(available as nat, total as nat));
        share
    } else {
        one_decimal(round_nearest_even(1000 * ((total - available) as u128), total as u128))
    };
    proof {
        reveal_strlit("%");
    }
    let mut text = pad_left(share.as_str(), 4);
    text.append("%");
    assert(text@ =~= usage_text(available as nat, total as nat));
    text
}

/// Writes the processor text.
pub fn cpu_figure(usage: Single) -> (text: String)
    ensures
        text@ == cpu_text(usage),
{
    proof {
        reveal_strlit("%");
    }
    let mut text = pad_left(usage.to_text().as_str(), 4);
    text.append("%");
    assert(text@ =~= cpu_text(usage));
    text
}

/// Classifies the processor load.
pub fn cpu_alarm(usage: Single) -> (level: Color)
    ensures
        level == cpu_level(usage),
{
    if usage.is_above(CPU_RED) {
        Color::Red
    } else if usage.is_above(CPU_YELLOW) {
        Color::Yellow
    } else {
        Color::Clear
    }
}

/// The memory in use as `<used>/<total> GiB`, in the colour of its level.
pub fn memory_usage(used: u64, total: u64) -> (out: String)
    ensures
        out@ == span(memory_text(used as nat, total as nat), memory_level(used as nat, total as nat)),
{
    let text = memory_figure(used, total);
    let alarm = |m: (u64, u64)| -> (level: Color)
        ensures
            level == memory_level(m.0 as nat, m.1 as nat),
        {
            memory_alarm(m.0, m.1)
        };
    colorize(text.as_str(), (used, total), alarm)
}

/// The space available on the first disk as `<available> GiB`, in the colour
/// of its level. Without a disk there is nothing to show.
pub fn available_disk_total(disks: &[DiskSpace]) -> (out: Option<String>)
    ensures
        disks@.len() == 0 ==> out is None,
        disks@.len() > 0 ==> out is Some && out->0@ == span(
            available_text(disks@[0].available as nat),
            disk_level(disks@[0].available as nat, disks@[0].total as nat),
        ),
{
    if disks.len() == 0 {
        return None;
    }
    let disk = disks[0];
    let text = available_figure(disk.available);
    let alarm = |d: DiskSpace| -> (level: Color)
        ensures
            level == disk_level(d.available as nat, d.total as nat),
        {
            disk_alarm(d.available, d.total)
        };
    Some(colorize(text.as_str(), disk, alarm))
}

/// The used share of the first disk in percent, in the colour of its level.
/// Without a disk there is nothing to show.
pub fn disk_usage(disks: &[DiskSpace]) -> (out: Option<String>)
    ensures
        disks@.len() == 0 ==> out is None,
        disks@.len() > 0 ==> out is Some && out->0@ == span(
            usage_text(disks@[0].available as nat, disks@[0].total as nat),
            disk_level(disks@[0].available as nat, disks@[0].total as nat),
        ),
{
    if disks.len() == 0 {
        return None;
    }
    let disk = disks[0];
    let text = usage_figure(disk.available, disk.total);
    let alarm = |d: DiskSpace| -> (level: Color)
        ensures
            level == disk_level(d.available as nat, d.total as nat),
        {
            disk_alarm(d.available, d.total)
        };
    Some(colorize(text.as_str(), disk, alarm))
}

/// The processor load in percent, in the colour of its level.
pub fn cpu_usage(usage: Single) -> (out: String)
    ensures
        out@ == span(cpu_text(usage), cpu_level(usage)),
{
    let text = cpu_figure(usage);
    let alarm = |u: Single| -> (level: Color)
        ensures
            level == cpu_level(u),
        {
            cpu_alarm(u)
        };
    colorize(text.as_str(), usage, alarm)
}

} // verus!
