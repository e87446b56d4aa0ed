//! The progress model: byte totals, per-file progress, speed and ETA.
//!
//! Speed is an exponentially weighted moving average of instantaneous
//! throughput, kept in whole bytes per second; the embedding renderer
//! supplies elapsed wall-clock time and draws the state.  The per-file
//! progress never exceeds the announced file size and never decreases
//! between files.

use vstd::prelude::*;

verus! {

use vstd::string::StringExecFns;
use crate::strutil::{dec2_spec, push_dec2};

/// The mutable progress aggregate.
pub struct ProgressData {
    /// Bytes the whole operation will move.
    pub total_bytes: u64,
    /// Bytes moved so far.
    pub current_bytes: u64,
    /// The file currently being processed.
    pub current_file: String,
    /// That file's size in bytes.
    pub current_file_size: u64,
    /// Bytes of the current file processed so far.
    pub current_file_progress: u64,
    /// The value of `current_bytes` at the last speed refresh.
    pub last_bytes: u64,
    /// The smoothed throughput, in bytes per second.
    pub last_speed_bps: u64,
    /// The operation label shown in the header.
    pub operation_type: String,
    /// The number of items, when known.
    pub items_total: Option<usize>,
    /// Items finished so far.
    pub items_processed: usize,
}

impl ProgressData {
    /// The data model's invariant: per-file progress stays within the
    /// announced size, and the speed baseline never runs ahead of the
    /// byte counter.
    pub open spec fn inv(&self) -> bool {
        &&& self.current_file_progress <= self.current_file_size
        &&& self.last_bytes <= self.current_bytes
    }

    /// A fresh aggregate for an operation of `total_bytes`.
    pub fn new(total_bytes: u64) -> (r: ProgressData)
        ensures
            r.inv(),
            r.total_bytes == total_bytes,
            r.current_bytes == 0,
            r.current_file@ == Seq::<char>::empty(),
            r.current_file_size == 0,
            r.current_file_progress == 0,
            r.last_bytes == 0,
            r.last_speed_bps == 0,
            r.operation_type@ == Seq::<char>::empty(),
            r.items_total is None,
            r.items_processed == 0,
    {
        ProgressData {
            total_bytes,
            current_bytes: 0,
            current_file: String::new(),
            current_file_size: 0,
            current_file_progress: 0,
            last_bytes: 0,
            last_speed_bps: 0,
            operation_type: String::new(),
            items_total: None,
            items_processed: 0,
        }
    }

    /// Refreshes the smoothed speed from the bytes moved since the last
    /// refresh.  Under a tenth of a second of elapsed time the old value
    /// stands; otherwise the new instantaneous rate is folded in with a
    /// four-to-one weight in favour of the old average.
    pub fn calculate_speed(&mut self, elapsed_ms: u64) -> (r: u64)
        requires
            old(self).inv(),
        ensures
            final(self).inv(),
            r == final(self).last_speed_bps,
            elapsed_ms < 100 ==> *final(self) == *old(self),
            elapsed_ms >= 100 ==> ({
                let inst = vstd::math::min(
                    ((old(self).current_bytes - old(self).last_bytes) * 1000) / elapsed_ms as int,
                    u64::MAX as int,
                );
                &&& final(self).last_speed_bps == (if old(self).last_speed_bps > 0 {
                    (4 * old(self).last_speed_bps + inst) / 5
                } else {
                    inst
                })
                &&& *final(self) == (ProgressData {
                    last_speed_bps: final(self).last_speed_bps,
                    last_bytes: old(self).current_bytes,
                    ..*old(self)
                })
            }),
    {
        if elapsed_ms < 100 {
            return self.last_speed_bps;
        }
        let moved: u64 = self.current_bytes - self.last_bytes;
        let scaled: u128 = (moved as u128) * 1000 / (elapsed_ms as u128);
        let inst: u64 = if scaled > u64::MAX as u128 {
            u64::MAX
        } else {
            scaled as u64
        };
        let speed: u64 = if self.last_speed_bps > 0 {
            (((4 as u128) * (self.last_speed_bps as u128) + (inst as u128)) / 5) as u64
        } else {
            inst
        };
        self.last_speed_bps = speed;
        self.last_bytes = self.current_bytes;
        speed
    }

    /// The estimated seconds left: zero when nothing is left or nothing
    /// was planned, unknown while the speed is still zero, and otherwise
    /// the remaining bytes over the speed, rounded up.
    pub fn estimate_eta(&self) -> (r: Option<u64>)
        ensures
            self.total_bytes == 0 || self.current_bytes >= self.total_bytes ==> r == Some(0u64),
            self.total_bytes > 0 && self.current_bytes < self.total_bytes
                && self.last_speed_bps == 0 ==> r is None,
            self.total_bytes > 0 && self.current_bytes < self.total_bytes && self.last_speed_bps
                > 0 ==> r == Some(
                (((self.total_bytes - self.current_bytes) + self.last_speed_bps - 1)
                    / self.last_speed_bps as int) as u64,
            ),
    {
        if self.total_bytes == 0 || self.current_bytes >= self.total_bytes {
            return Some(0);
        }
        if self.last_speed_bps == 0 {
            return None;
        }
        let remaining: u64 = self.total_bytes - self.current_bytes;
        let secs: u128 = ((remaining as u128) + (self.last_speed_bps as u128) - 1)
            / (self.last_speed_bps as u128);
        Some(secs as u64)
    }
}

/// The per-file progress after one byte delta: it grows by the delta but
/// never passes the file's size.
pub open spec fn clamped_progress(progress: u64, size: u64, delta: u64) -> u64 {
    if progress + delta <= size {
        (progress + delta) as u64
    } else {
        size
    }
}

/// The per-file progress after a whole train of byte deltas.
pub open spec fn progress_after(progress: u64, size: u64, deltas: Seq<u64>) -> u64
    decreases deltas.len(),
{
    if deltas.len() == 0 {
        progress
    } else {
        clamped_progress(progress_after(progress, size, deltas.drop_last()), size, deltas.last())
    }
}

/// Between two file announcements the per-file progress is
/// non-decreasing and never exceeds the announced size, whatever byte
/// deltas arrive.
pub proof fn lemma_progress_monotonic(progress: u64, size: u64, deltas: Seq<u64>)
    requires
        progress <= size,
    ensures
        progress <= progress_after(progress, size, deltas) <= size,
    decreases deltas.len(),
{
    if deltas.len() > 0 {
        lemma_progress_monotonic(progress, size, deltas.drop_last());
    }
}

/// Which renderer a command gets: the full-screen box is used when the
/// tui flag asks for it, and otherwise unless the plain-progress flag or
/// the configured style pick the plain display.
pub open spec fn plain_renderer_spec(
    tui: bool,
    plain_progress: bool,
    config_style: Seq<char>,
) -> bool {
    !tui && (plain_progress || config_style == "plain"@)
}

/// Decides between the plain (inline) renderer and the full-screen box,
/// from the command's flags and the configured progress style.
pub fn select_plain_renderer(tui: bool, plain_progress: bool, config_style: &str) -> (r: bool)
    ensures
        r == plain_renderer_spec(tui, plain_progress, config_style@),
{
    if tui {
        false
    } else if plain_progress {
        true
    } else {
        crate::strutil::str_eq(config_style, "plain")
    }
}

/// A terminal suspension event forwarded to the renderer, so that raw
/// mode can be reset on suspend and restored on resume.
#[derive(Clone, Copy, Debug, PartialEq, Eq, Structural)]
pub enum SuspendEvent {
    /// The process is being stopped.
    Suspend,
    /// The process continues in the foreground.
    Continue,
}

/// The capability set of a progress renderer.  The library's
/// [`CopyProgress`] keeps the shared state; terminal front ends implement
/// this trait around it and repaint on each call.
pub trait ProgressRenderer {
    /// Announces how many items the operation will touch.
    fn set_total_items(&mut self, total: usize);

    /// Records one finished item.
    fn inc_items_processed(&mut self);

    /// Announces the file now being processed and its size.
    fn set_current_file(&mut self, file_name: &str, file_size: u64);

    /// Announces a byte delta for the current file.
    fn inc_current(&mut self, delta: u64);

    /// Sets the operation label.
    fn set_operation_type(&mut self, operation: &str);

    /// Refreshes time-dependent fields.
    fn tick(&mut self);

    /// Ends the rendering, leaving the last state visible.
    fn finish(&mut self);
}

/// The shared progress state behind every renderer variant.
pub struct CopyProgress {
    /// The aggregate the renderer draws.
    pub data: ProgressData,
    /// Whether the plain (inline) renderer was chosen over the full box.
    pub plain_mode: bool,
    /// Whether the rendering has been finished.
    pub finished: bool,
}

impl CopyProgress {
    /// The state's invariant.
    pub open spec fn inv(&self) -> bool {
        self.data.inv()
    }

    /// A fresh progress state for an operation of `total_bytes`.
    pub fn new(total_bytes: u64, plain_mode: bool) -> (r: CopyProgress)
        ensures
            r.inv(),
            r.data.total_bytes == total_bytes,
            r.data.current_bytes == 0,
            r.data.current_file_progress == 0,
            r.plain_mode == plain_mode,
            !r.finished,
    {
        CopyProgress { data: ProgressData::new(total_bytes), plain_mode, finished: false }
    }

    /// Announces how many items the operation will touch.
    pub fn set_total_items(&mut self, total: usize)
        requires
            old(self).inv(),
        ensures
            final(self).inv(),
            *final(self) == (CopyProgress {
                data: ProgressData { items_total: Some(total), ..old(self).data },
                ..*old(self)
            }),
    {
        self.data.items_total = Some(total);
    }

    /// Records one finished item.
    pub fn inc_items_processed(&mut self)
        requires
            old(self).inv(),
        ensures
            final(self).inv(),
            final(self).data.items_processed == (if old(self).data.items_processed < usize::MAX {
                old(self).data.items_processed + 1
            } else {
                old(self).data.items_processed as int
            }),
            *final(self) == (CopyProgress {
                data: ProgressData {
                    items_processed: final(self).data.items_processed,
                    ..old(self).data
                },
                ..*old(self)
            }),
    {
        if self.data.items_processed < usize::MAX {
            self.data.items_processed = self.data.items_processed + 1;
        }
    }

    /// Announces the file now being processed; its progress restarts at
    /// zero.
    pub fn set_current_file(&mut self, file_name: &str, file_size: u64)
        requires
            old(self).inv(),
        ensures
            final(self).inv(),
            final(self).data.current_file@ == file_name@,
            *final(self) == (CopyProgress {
                data: ProgressData {
                    current_file: final(self).data.current_file,
                    current_file_size: file_size,
                    current_file_progress: 0,
                    ..old(self).data
                },
                ..*old(self)
            }),
    {
        self.data.current_file = file_name.to_owned();
        self.data.current_file_size = file_size;
        self.data.current_file_progress = 0;
    }

    /// Announces a byte delta: the overall counter grows (saturating) and
    /// the per-file progress grows but never passes the file's size.
    pub fn inc_current(&mut self, delta: u64)
        requires
            old(self).inv(),
        ensures
            final(self).inv(),
            final(self).data.current_bytes == vstd::math::min(
                old(self).data.current_bytes + delta,
                u64::MAX as int,
            ),
            old(self).data.current_bytes + delta <= u64::MAX ==> final(self).data.current_bytes
                == old(self).data.current_bytes + delta,
            final(self).data.current_file_progress == clamped_progress(
                old(self).data.current_file_progress,
                old(self).data.current_file_size,
                delta,
            ),
            final(self).data.current_file_progress >= old(self).data.current_file_progress,
            *final(self) == (CopyProgress {
                data: ProgressData {
                    current_bytes: final(self).data.current_bytes,
                    current_file_progress: final(self).data.current_file_progress,
                    ..old(self).data
                },
                ..*old(self)
            }),
    {
        if self.data.current_bytes <= u64::MAX - delta {
            self.data.current_bytes = self.data.current_bytes + delta;
        } else {
            self.data.current_bytes = u64::MAX;
        }
        if delta <= self.data.current_file_size - self.data.current_file_progress {
            self.data.current_file_progress = self.data.current_file_progress + delta;
        } else {
            self.data.current_file_progress = self.data.current_file_size;
        }
    }

    /// Sets the operation label.
    pub fn set_operation_type(&mut self, operation: &str)
        requires
            old(self).inv(),
        ensures
            final(self).inv(),
            final(self).data.operation_type@ == operation@,
            *final(self) == (CopyProgress {
                data: ProgressData {
                    operation_type: final(self).data.operation_type,
                    ..old(self).data
                },
                ..*old(self)
            }),
    {
        self.data.operation_type = operation.to_owned();
    }

    /// Refreshes time-dependent fields; the state itself does not change
    /// here, repainting being the renderer's concern.
    pub fn tick(&mut self)
        requires
            old(self).inv(),
        ensures
            final(self).inv(),
            *final(self) == *old(self),
    {
    }

    /// Ends the rendering, leaving the final counters in place.
    pub fn finish(&mut self)
        requires
            old(self).inv(),
        ensures
            final(self).inv(),
            *final(self) == (CopyProgress { finished: true, ..*old(self) }),
    {
        self.finished = true;
    }
}

/// The duration text of an ETA: hours, minutes and seconds, two digits
/// each, with the hour field only when it is non-zero.
pub open spec fn eta_spec(seconds: u64) -> Seq<char> {
    let h = seconds as int / 3600;
    let m = (seconds as int % 3600) / 60;
    let s = seconds as int % 60;
    if h > 0 {
        dec2_spec(h) + ":"@ + dec2_spec(m) + ":"@ + dec2_spec(s)
    } else {
        dec2_spec(m) + ":"@ + dec2_spec(s)
    }
}

/// Formats a duration in seconds as `HH:MM:SS`, or `MM:SS` below an hour.
pub fn format_eta(seconds: u64) -> (r: String)
    ensures
        r@ == eta_spec(seconds),
{
    let hours = seconds / 3600;
    let minutes = (seconds % 3600) / 60;
    let secs = seconds % 60;
    let mut s = String::new();
    if hours > 0 {
        push_dec2(&mut s, hours);
        s.append(":");
    }
    push_dec2(&mut s, minutes);
    s.append(":");
    push_dec2(&mut s, secs);
    proof {
        assert(s@ =~= eta_spec(seconds));
    }
    s
}

/// The whole-percent completion, saturating like the renderer's display:
/// a zero total shows zero progress rather than dividing by zero.
pub open spec fn percent_spec(current: u64, total: u64) -> int {
    let t = if total == 0 {
        1int
    } else {
        total as int
    };
    vstd::math::min(current as int * 100 / t, u16::MAX as int)
}

/// The whole-percent completion of `current` out of `total`.
pub fn percent_of(current: u64, total: u64) -> (r: u16)
    ensures
        r == percent_spec(current, total),
{
    let t: u128 = if total == 0 {
        1
    } else {
        total as u128
    };
    let p: u128 = (current as u128) * 100 / t;
    if p > u16::MAX as u128 {
        u16::MAX
    } else {
        p as u16
    }
}

/// The filled width of a progress bar of `width` cells at `percent`.
pub open spec fn filled_width_spec(percent: u16, width: usize) -> int {
    vstd::math::min(width as int * percent as int / 100, width as int)
}

/// The filled width of a progress bar of `width` cells at `percent`.
pub fn filled_width(percent: u16, width: usize) -> (r: usize)
    ensures
        r == filled_width_spec(percent, width),
{
    proof {
        assert((width as int) * (percent as int) <= (u64::MAX as int) * (u16::MAX as int))
            by (nonlinear_arith)
            requires
                0 <= width as int <= u64::MAX as int,
                0 <= percent as int <= u16::MAX as int,
        ;
    }
    let wide: u128 = (width as u128) * (percent as u128) / 100;
    if wide > width as u128 {
        width
    } else {
        wide as usize
    }
}

/// A progress bar of `width` cells: equals signs for the filled part,
/// dashes for the rest.
pub fn create_progress_bar(percent: u16, width: usize) -> (r: String)
    ensures
        r@.len() == width,
        r@ == Seq::new(filled_width_spec(percent, width) as nat, |i: int| '=') + Seq::new(
            (width - filled_width_spec(percent, width)) as nat,
            |i: int| '-',
        ),
{
    let filled = filled_width(percent, width);
    let mut s = String::new();
    let mut i: usize = 0;
    while i < filled
        invariant
            i <= filled,
            s@ == Seq::new(i as nat, |k: int| '='),
        decreases filled - i,
    {
        s.push('=');
        i = i + 1;
        assert(s@ =~= Seq::new(i as nat, |k: int| '='));
    }
    let mut j: usize = 0;
    while j < width - filled
        invariant
            filled <= width,
            j <= width - filled,
            s@ == Seq::new(filled as nat, |k: int| '=') + Seq::new(j as nat, |k: int| '-'),
        decreases width - filled - j,
    {
        s.push('-');
        j = j + 1;
        assert(s@ =~= Seq::new(filled as nat, |k: int| '=') + Seq::new(j as nat, |k: int| '-'));
    }
    proof {
        assert(filled == filled_width_spec(percent, width));
    }
    s
}

/// A file name cut to `max` cells with a trailing ellipsis when it does
/// not fit; shorter names pass through unchanged.
pub open spec fn truncated_name_spec(name: Seq<char>, max: int) -> Seq<char> {
    if name.len() <= max {
        name
    } else if max < 3 {
        name.take(max)
    } else {
        name.take(max - 3) + "..."@
    }
}

/// Cuts a file name for a column of `max` cells, appending an ellipsis.
pub fn truncate_name(name: &str, max: usize) -> (r: String)
    ensures
        r@ == truncated_name_spec(name@, max as int),
{
    let v = crate::strutil::str_chars(name);
    if v.len() <= max {
        return name.to_owned();
    }
    let keep: usize = if max < 3 {
        max
    } else {
        max - 3
    };
    let mut kept: Vec<char> = Vec::new();
    let mut i: usize = 0;
    while i < keep
        invariant
            keep <= v@.len(),
            v@ == name@,
            i <= keep,
            kept@ == name@.take(i as int),
        decreases keep - i,
    {
        kept.push(v[i]);
        i = i + 1;
        assert(kept@ =~= name@.take(i as int));
    }
    let mut s = crate::strutil::chars_to_string(&kept);
    if max >= 3 {
        s.append("...");
    }
    s
}

} // verus!
