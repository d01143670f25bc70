//! The sampling loop as a state machine, and the ticks that it collects.
//!
//! The machine has two states. While it idles it is shown the clock; when
//! the clock shows another second than that of the last tick, it asks for a
//! sample and waits for it; with the sample it builds the tick, hands it out
//! and idles again. Reading the clock, sleeping and sampling are the
//! caller's work.

use crate::color::Colorizer;
use crate::single::Single;
use crate::status::Status;
use crate::status::StatusDataView;
use crate::system::DiskSpace;
use crate::time::LocalDateTime;
use crate::time::LocalDateTimeView;
use crate::values::system::available_disk_total;
use crate::values::system::available_view;
use crate::values::system::cpu_usage;
use crate::values::system::cpu_view;
use crate::values::system::disk_usage;
use crate::values::system::memory_usage;
use crate::values::system::memory_view;
use crate::values::system::usage_view;
use crate::values::time::datetime_local;
use crate::values::time::datetime_view;
use vstd::prelude::*;

verus! {

/// The time to sleep between two readings of the clock, in milliseconds.
pub const POLL_MILLIS: u64 = 20;

/// What a tick shows. It is chosen once, when the program starts.
#[derive(Debug, Clone, Copy, PartialEq, Eq, Structural)]
pub enum Format {
    /// Disk, processor, memory, date and time.
    Full,
    /// Date and time only.
    DateAndTime,
}

impl Format {
    /// The format that `word` names: `primary` is `Full`, `non-primary` is
    /// `DateAndTime`, and no other word names one.
    pub open spec fn named(word: Seq<char>) -> Option<Format> {
        if word == "primary"@ {
            Some(Format::Full)
        } else if word == "non-primary"@ {
            Some(Format::DateAndTime)
        } else {
            None
        }
    }

    /// Reads the format that `word` names.
    pub fn parse(word: &str) -> (format: Option<Format>)
        ensures
            format == Format::named(word@),
    {
        let word = String::from_str(word);
        if word == String::from_str("primary") {
            Some(Format::Full)
        } else if word == String::from_str("non-primary") {
            Some(Format::DateAndTime)
        } else {
            None
        }
    }
}

/// The disk segment of a tick: space available and share used, joined with
/// one space. Without a disk there is none.
pub open spec fn disk_views(disks: Seq<DiskSpace>, colorizer: Colorizer) -> Seq<StatusDataView> {
    if disks.len() == 0 {
        Seq::empty()
    } else {
        seq![available_view(disks[0], colorizer).attached(usage_view(disks[0], colorizer), seq![' '])]
    }
}

/// The segments of a full tick, in display order: disk, processor, memory,
/// date and time.
pub open spec fn full_view(
    disks: Seq<DiskSpace>,
    cpu: Single,
    memory_used: nat,
    memory_total: nat,
    now: LocalDateTimeView,
    colorizer: Colorizer,
) -> Seq<StatusDataView> {
    disk_views(disks, colorizer) + seq![
        cpu_view(cpu, colorizer),
        memory_view(memory_used, memory_total, colorizer),
        datetime_view(now),
    ]
}

/// The one segment of a tick that shows date and time only.
pub open spec fn clock_view(now: LocalDateTimeView) -> Seq<StatusDataView> {
    seq![datetime_view(now)]
}

/// Builds a full tick. It has four segments, and three where there is no disk.
pub fn full_tick(
    disks: &[DiskSpace],
    cpu: Single,
    memory_used: u64,
    memory_total: u64,
    now: &LocalDateTime,
    colorizer: Colorizer,
) -> (status: Status)
    ensures
        status@ == full_view(
            disks@,
            cpu,
            memory_used as nat,
            memory_total as nat,
            now@,
            colorizer,
        ),
        status@.len() == if disks@.len() == 0 {
            3nat
        } else {
            4nat
        },
        forall|i: int| 0 <= i < status@.len() ==> (#[trigger] status@[i]).wf() && !status@[i].is_empty(),
{
    let mut status = Status::new();
    if let Some(mut disk) = available_disk_total(disks, colorizer) {
        if let Some(usage) = disk_usage(disks, colorizer) {
            proof {
                reveal_strlit(" ");
                assert(" "@ =~= seq![' ']);
            }
            disk.attach_right(usage, " ");
            status.data.push(disk);
        }
    }
    status.data.push(cpu_usage(cpu, colorizer));
    status.data.push(memory_usage(memory_used, memory_total, colorizer));
    status.data.push(datetime_local(now));
    assert(status@ =~= full_view(
        disks@,
        cpu,
        memory_used as nat,
        memory_total as nat,
        now@,
        colorizer,
    ));
    status
}

/// Builds the tick that shows date and time only.
pub fn clock_tick(now: &LocalDateTime) -> (status: Status)
    ensures
        status@ == clock_view(now@),
        status@[0].wf(),
        !status@[0].is_empty(),
{
    let mut status = Status::new();
    status.data.push(datetime_local(now));
    assert(status@ =~= clock_view(now@));
    status
}

/// What was read from the host for one tick.
#[derive(Debug)]
pub enum Sample {
    /// What a full tick shows.
    Full { disks: Vec<DiskSpace>, cpu: Single, memory_used: u64, memory_total: u64, now: LocalDateTime },
    /// What a tick of date and time shows.
    Clock { now: LocalDateTime },
}

impl Sample {
    /// Whether the sample holds what a tick of `format` shows.
    pub open spec fn fits(self, format: Format) -> bool {
        match self {
            Sample::Full { .. } => format == Format::Full,
            Sample::Clock { .. } => format == Format::DateAndTime,
        }
    }

    /// The segments of the tick that the sample gives.
    pub open spec fn tick_view(self, colorizer: Colorizer) -> Seq<StatusDataView> {
        match self {
            Sample::Full { disks, cpu, memory_used, memory_total, now } => full_view(
                disks@,
                cpu,
                memory_used as nat,
                memory_total as nat,
                now@,
                colorizer,
            ),
            Sample::Clock { now } => clock_view(now@),
        }
    }
}

/// Where the loop stands.
#[derive(Debug, Clone, Copy, PartialEq, Eq, Structural)]
pub enum Phase {
    /// Waiting for the clock to show another second.
    Idle,
    /// A tick has fired; its sample is owed.
    Sampling,
}

/// What the machine is told.
#[derive(Debug)]
pub enum Event {
    /// The clock was read: whole seconds since the epoch.
    Clock(u64),
    /// The host was sampled.
    Sampled(Sample),
}

/// What the caller has to do next.
#[derive(Debug)]
pub enum Action {
    /// Nothing is due: sleep for the polling interval, then read the clock.
    Sleep,
    /// A tick has fired: sample what a tick of this format shows.
    Acquire(Format),
    /// The tick is ready: write it out, then sleep.
    Emit(Status),
}

/// The state of the sampling loop.
#[derive(Debug, Clone, Copy, PartialEq, Eq, Structural)]
pub struct Scheduler {
    /// What a tick shows.
    pub format: Format,
    /// How levels reach the display.
    pub colorizer: Colorizer,
    /// Where the loop stands.
    pub phase: Phase,
    /// The second of the last tick.
    pub last_tick: u64,
    /// While sampling: the second of the tick that fired.
    pub fired: u64,
}

impl Scheduler {
    /// Whether a reading of `now` seconds fires a tick: the machine idles,
    /// and the second is another than that of the last tick.
    pub open spec fn fires(self, now: u64) -> bool {
        self.phase == Phase::Idle && now != self.last_tick
    }

    /// Whether the machine takes the sample: it waits for one, and the
    /// sample holds what its ticks show.
    pub open spec fn takes(self, sample: Sample) -> bool {
        self.phase == Phase::Sampling && sample.fits(self.format)
    }

    /// The idle machine at second `now`. The first tick fires when the clock
    /// shows another second.
    pub fn new(format: Format, colorizer: Colorizer, now: u64) -> (machine: Scheduler)
        ensures
            machine == (Scheduler { format, colorizer, phase: Phase::Idle, last_tick: now, fired: now }),
    {
        Scheduler { format, colorizer, phase: Phase::Idle, last_tick: now, fired: now }
    }

    /// Takes one event and says what to do next.
    ///
    /// A clock reading that fires a tick starts the sampling and asks for
    /// the sample. A sample that the machine takes gives the tick: the
    /// machine hands it out, idles again, and the second that fired becomes
    /// the second of the last tick. Every other event leaves the machine as
    /// it is; it then says again what it waits for: a sample while it is
    /// sampling, a later reading of the clock while it idles.
    pub fn step(&mut self, event: Event) -> (action: Action)
        ensures
            match event {
                Event::Clock(now) => if old(self).fires(now) {
                    &&& *final(self) == (Scheduler { phase: Phase::Sampling, fired: now, ..*old(self) })
                    &&& action == Action::Acquire(old(self).format)
                } else {
                    &&& *final(self) == *old(self)
                    &&& action == old(self).waiting()
                },
                Event::Sampled(sample) => if old(self).takes(sample) {
                    &&& *final(self) == (Scheduler {
                        phase: Phase::Idle,
                        last_tick: old(self).fired,
                        ..*old(self)
                    })
                    &&& action matches Action::Emit(status)
                    &&& status@ == sample.tick_view(old(self).colorizer)
                } else {
                    &&& *final(self) == *old(self)
                    &&& action == old(self).waiting()
                },
            },
    {
        match event {
            Event::Clock(now) => {
                match self.phase {
                    Phase::Idle => {
                        if now != self.last_tick {
                            self.phase = Phase::Sampling;
                            self.fired = now;
                            Action::Acquire(self.format)
                        } else {
                            Action::Sleep
                        }
                    },
                    Phase::Sampling => Action::Acquire(self.format),
                }
            },
            Event::Sampled(sample) => {
                match self.phase {
                    Phase::Idle => Action::Sleep,
                    Phase::Sampling => {
                        match sample {
                            Sample::Full { disks, cpu, memory_used, memory_total, now } => {
                                match self.format {
                                    Format::Full => {
                                        let status = full_tick(
                                            disks.as_slice(),
                                            cpu,
                                            memory_used,
                                            memory_total,
                                            &now,
                                            self.colorizer,
                                        );
                                        self.phase = Phase::Idle;
                                        self.last_tick = self.fired;
                                        Action::Emit(status)
                                    },
                                    Format::DateAndTime => Action::Acquire(self.format),
                                }
                            },
                            Sample::Clock { now } => {
                                match self.format {
                                    Format::DateAndTime => {
                                        let status = clock_tick(&now);
                                        self.phase = Phase::Idle;
                                        self.last_tick = self.fired;
                                        Action::Emit(status)
                                    },
                                    Format::Full => Action::Acquire(self.format),
                                }
                            },
                        }
                    },
                }
            },
        }
    }

    /// What the machine waits for when an event changes nothing.
    pub open spec fn waiting(self) -> Action {
        match self.phase {
            Phase::Idle => Action::Sleep,
            Phase::Sampling => Action::Acquire(self.format),
        }
    }
}

} // verus!
