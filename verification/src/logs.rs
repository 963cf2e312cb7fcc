//! Console logs on disk: the line format, when to rotate, and how the
//! rotated files shift (`console.log` → `console.log.1` → `console.log.2`,
//! the oldest dropped).

use vstd::prelude::*;
use crate::text::{decimal_digits, push_decimal};
use crate::numeric::u32_to_usize;
use crate::types::ws::{LogLine, LogStream};

verus! {

/// How many rotated files are kept besides the current one.
pub const MAX_ROTATED_FILES: u32 = 2;

/// The path of rotated file `index` of `base`; index 0 is `base` itself.
pub open spec fn rotated(base: Seq<char>, index: nat) -> Seq<char> {
    if index == 0 {
        base
    } else {
        base + seq!['.'] + decimal_digits(index)
    }
}

/// The path of rotated file `index` of `base` (`console.log.1`).
pub fn rotated_path(base: &str, index: u32) -> (r: String)
    ensures
        r@ == rotated(base@, index as nat),
{
    let mut s = String::from_str(base);
    if index != 0 {
        s.append(".");
        proof {
            reveal_strlit(".");
        }
        push_decimal(&mut s, u32_to_usize(index));
        assert(s@ =~= base@ + seq!['.'] + decimal_digits(index as nat));
    }
    s
}

/// The current file must be rotated: a limit is set and the file reached it.
pub fn should_rotate(current_size: u64, max_size: u64) -> (r: bool)
    ensures
        r == (current_size >= max_size && max_size > 0),
{
    current_size >= max_size && max_size > 0
}

/// After a batch of `written` bytes is appended to a current file of
/// `current` bytes: whether the file is then rotated (see
/// [`should_rotate`]), and the size of the current file afterwards (a
/// fresh, empty file after a rotation).
pub fn after_batch(current: u64, written: u64, max_size: u64) -> (r: (u64, bool))
    requires
        current + written <= u64::MAX,
    ensures
        r.1 == (current + written >= max_size && max_size > 0),
        r.0 == (if r.1 {
            0
        } else {
            current + written
        }),
{
    let size = current + written;
    if should_rotate(size, max_size) {
        (0, true)
    } else {
        (size, false)
    }
}

/// The size of the current log file after batches of `batches` bytes, from
/// `current` (rotating as [`after_batch`] does).
pub open spec fn size_after_batches(current: int, batches: Seq<int>, max_size: int) -> int
    decreases batches.len(),
{
    if batches.len() == 0 {
        current
    } else {
        let size = current + batches[0];
        size_after_batches(
            if size >= max_size && max_size > 0 {
                0
            } else {
                size
            },
            batches.drop_first(),
            max_size,
        )
    }
}

/// With a limit, the current log file stays below it after every batch: a
/// batch that reaches the limit rotates the file.  Without a limit (0)
/// nothing is rotated and the file only grows.
pub proof fn law_log_file_below_limit(current: int, batches: Seq<int>, max_size: int)
    requires
        0 <= current,
        max_size > 0 ==> current < max_size,
        forall|i: int| 0 <= i < batches.len() ==> 0 <= #[trigger] batches[i],
    ensures
        max_size > 0 ==> 0 <= size_after_batches(current, batches, max_size) < max_size,
        max_size == 0 ==> size_after_batches(current, batches, max_size) >= current,
    decreases batches.len(),
{
    if batches.len() > 0 {
        let size = current + batches[0];
        let next = if size >= max_size && max_size > 0 {
            0
        } else {
            size
        };
        assert forall|i: int| 0 <= i < batches.drop_first().len() implies 0
            <= #[trigger] batches.drop_first()[i] by {
            assert(batches.drop_first()[i] == batches[i + 1]);
        }
        law_log_file_below_limit(next, batches.drop_first(), max_size);
    }
}

/// One file operation of a rotation.
#[derive(Debug)]
pub enum RotationStep {
    /// Delete this file if it exists.
    RemoveIfExists(String),
    /// Rename the first file to the second if the first exists.
    RenameIfExists(String, String),
}

/// A rotation step on paths.
pub enum RotationOp {
    Remove(Seq<char>),
    Rename(Seq<char>, Seq<char>),
}

/// The paths of a rotation step.
pub open spec fn step_op(s: RotationStep) -> RotationOp {
    match s {
        RotationStep::RemoveIfExists(p) => RotationOp::Remove(p@),
        RotationStep::RenameIfExists(a, b) => RotationOp::Rename(a@, b@),
    }
}

/// The steps for rotated indexes `i` down to 1: the oldest file is deleted
/// first, then each file moves one index up.
pub open spec fn rotation_ops_from(base: Seq<char>, i: nat) -> Seq<RotationOp>
    decreases i,
{
    if i == 0 {
        Seq::empty()
    } else {
        let mv = seq![RotationOp::Rename(rotated(base, (i - 1) as nat), rotated(base, i))];
        let here = if i == MAX_ROTATED_FILES {
            seq![RotationOp::Remove(rotated(base, i))] + mv
        } else {
            mv
        };
        here + rotation_ops_from(base, (i - 1) as nat)
    }
}

/// The file operations of one rotation of `base`.
pub fn rotation_steps(base: &str) -> (r: Vec<RotationStep>)
    ensures
        r@.map_values(|s: RotationStep| step_op(s)) == rotation_ops_from(
            base@,
            MAX_ROTATED_FILES as nat,
        ),
{
    let mut r: Vec<RotationStep> = Vec::new();
    let mut i: u32 = MAX_ROTATED_FILES;
    while i >= 1
        invariant
            i <= MAX_ROTATED_FILES,
            r@.map_values(|s: RotationStep| step_op(s)) + rotation_ops_from(base@, i as nat)
                == rotation_ops_from(base@, MAX_ROTATED_FILES as nat),
        decreases i,
    {
        let ghost before = r@.map_values(|s: RotationStep| step_op(s));
        let ghost here = rotation_ops_from(base@, i as nat);
        let dst = rotated_path(base, i);
        if i == MAX_ROTATED_FILES {
            r.push(RotationStep::RemoveIfExists(rotated_path(base, i)));
        }
        let src = rotated_path(base, i - 1);
        r.push(RotationStep::RenameIfExists(src, dst));
        assert(r@.map_values(|s: RotationStep| step_op(s)) + rotation_ops_from(base@, (i - 1) as nat)
            =~= before + here);
        i = i - 1;
    }
    assert(r@.map_values(|s: RotationStep| step_op(s)) + rotation_ops_from(base@, 0) =~= r@.map_values(
        |s: RotationStep| step_op(s),
    ));
    r
}

/// The files after `ops` run on `files` (path to content).
pub open spec fn apply_ops(files: Map<Seq<char>, Seq<u8>>, ops: Seq<RotationOp>) -> Map<
    Seq<char>,
    Seq<u8>,
>
    decreases ops.len(),
{
    if ops.len() == 0 {
        files
    } else {
        let next = match ops[0] {
            RotationOp::Remove(p) => files.remove(p),
            RotationOp::Rename(a, b) => if files.dom().contains(a) {
                files.remove(a).insert(b, files[a])
            } else {
                files
            },
        };
        apply_ops(next, ops.drop_first())
    }
}

proof fn lemma_rotated_distinct(base: Seq<char>)
    ensures
        rotated(base, 0) != rotated(base, 1),
        rotated(base, 0) != rotated(base, 2),
        rotated(base, 1) != rotated(base, 2),
{
    reveal_with_fuel(decimal_digits, 2);
    assert(rotated(base, 1).len() == base.len() + 2);
    assert(rotated(base, 2).len() == base.len() + 2);
    assert(rotated(base, 1)[base.len() as int + 1] == '1');
    assert(rotated(base, 2)[base.len() as int + 1] == '2');
}

/// Law: a rotation moves the current file to `.1` and `.1` to `.2`, drops
/// the old `.2`, and leaves no current file; other files stay as they are.
pub proof fn law_rotation_shifts(base: Seq<char>, files: Map<Seq<char>, Seq<u8>>)
    ensures
        ({
            let after = apply_ops(files, rotation_ops_from(base, MAX_ROTATED_FILES as nat));
            &&& !after.dom().contains(rotated(base, 0))
            &&& after.dom().contains(rotated(base, 1)) == files.dom().contains(rotated(base, 0))
            &&& files.dom().contains(rotated(base, 0)) ==> after[rotated(base, 1)] == files[rotated(
                base,
                0,
            )]
            &&& after.dom().contains(rotated(base, 2)) == files.dom().contains(rotated(base, 1))
            &&& files.dom().contains(rotated(base, 1)) ==> after[rotated(base, 2)] == files[rotated(
                base,
                1,
            )]
            &&& forall|p: Seq<char>|
                p != rotated(base, 0) && p != rotated(base, 1) && p != rotated(base, 2) ==> (
                after.dom().contains(p) == files.dom().contains(p) && (files.dom().contains(p)
                    ==> after[p] == files[p]))
        }),
{
    lemma_rotated_distinct(base);
    let p0 = rotated(base, 0);
    let p1 = rotated(base, 1);
    let p2 = rotated(base, 2);
    let ops = rotation_ops_from(base, 2);
    assert(rotation_ops_from(base, 0) =~= Seq::<RotationOp>::empty());
    assert(rotation_ops_from(base, 1) =~= seq![RotationOp::Rename(p0, p1)]);
    assert(ops =~= seq![RotationOp::Remove(p2), RotationOp::Rename(p1, p2), RotationOp::Rename(p0, p1)]);
    let f1 = files.remove(p2);
    let f2 = if f1.dom().contains(p1) {
        f1.remove(p1).insert(p2, f1[p1])
    } else {
        f1
    };
    let f3 = if f2.dom().contains(p0) {
        f2.remove(p0).insert(p1, f2[p0])
    } else {
        f2
    };
    assert(ops.drop_first() =~= seq![RotationOp::Rename(p1, p2), RotationOp::Rename(p0, p1)]);
    assert(ops.drop_first().drop_first() =~= seq![RotationOp::Rename(p0, p1)]);
    assert(ops.drop_first().drop_first().drop_first() =~= Seq::<RotationOp>::empty());
    assert(apply_ops(f3, Seq::<RotationOp>::empty()) == f3);
    assert(apply_ops(f2, seq![RotationOp::Rename(p0, p1)]) == f3);
    assert(apply_ops(f1, ops.drop_first()) == f3);
    assert(apply_ops(files, ops) == f3);
}

// ─── Line format ───

/// The format of the timestamps in log files: date, time, milliseconds.
pub open spec fn log_time_format() -> Seq<char> {
    "%Y-%m-%d %H:%M:%S%.3f"@
}

/// The text chrono gives the UTC instant `secs`/`nanos` with the format
/// `fmt`; `None` when the instant cannot be represented.
pub uninterp spec fn timestamp_text(secs: i64, nanos: u32, fmt: Seq<char>) -> Option<Seq<char>>;

/// `chrono::DateTime::from_timestamp`, then `format(fmt)` printed.
/// Claimed: the result is `None` exactly when `from_timestamp` gives `None`,
/// and otherwise the formatted text, both named by [`timestamp_text`];
/// nothing more is stated of the text.  Only the log format is passed: a
/// format with an unknown specifier would make the printing panic.
#[verifier::external_body]
fn format_timestamp(secs: i64, nanos: u32, fmt: &str) -> (r: Option<String>)
    requires
        fmt@ == log_time_format(),
    ensures
        match r {
            Some(t) => timestamp_text(secs, nanos, fmt@) == Some(t@),
            None => timestamp_text(secs, nanos, fmt@) is None,
        },
{
    match chrono::DateTime::from_timestamp(secs, nanos) {
        Some(dt) => Some(dt.format(fmt).to_string()),
        None => None,
    }
}

/// The tag of an output stream in the log file.
pub open spec fn stream_tag(s: LogStream) -> Seq<char> {
    match s {
        LogStream::Stdout => "OUT"@,
        LogStream::Stderr => "ERR"@,
    }
}

/// A console line as written to the log file:
/// `[<timestamp>] [OUT|ERR] <text>` and a newline.
pub open spec fn log_file_line(ts: Seq<char>, s: LogStream, text: Seq<char>) -> Seq<char> {
    "["@ + ts + "] ["@ + stream_tag(s) + "] "@ + text + "\n"@
}

/// Format `line` for the log file (see [`log_file_line`]); `None` when its
/// timestamp cannot be represented as a calendar date.
pub fn format_log_line(line: &LogLine) -> (r: Option<String>)
    ensures
        match timestamp_text(line.timestamp.secs, line.timestamp.nanos, log_time_format()) {
            Some(ts) => r matches Some(t) && t@ == log_file_line(ts, line.stream, line.line@),
            None => r is None,
        },
{
    let ts = match format_timestamp(
        line.timestamp.secs,
        line.timestamp.nanos,
        "%Y-%m-%d %H:%M:%S%.3f",
    ) {
        Some(t) => t,
        None => {
            return None;
        },
    };
    let mut s = String::from_str("[");
    s.append(ts.as_str());
    s.append("] [");
    match line.stream {
        LogStream::Stdout => s.append("OUT"),
        LogStream::Stderr => s.append("ERR"),
    }
    s.append("] ");
    s.append(line.line.as_str());
    s.append("\n");
    Some(s)
}

// ─── Batches ───

/// How many console lines the writer gathers before it writes them.
pub const MAX_BATCH_SIZE: usize = 200;

/// A batch is written once it holds [`MAX_BATCH_SIZE`] lines (or its time
/// is up, which the caller knows).
pub fn batch_full(len: usize) -> (r: bool)
    ensures
        r == (len >= MAX_BATCH_SIZE),
{
    len >= MAX_BATCH_SIZE
}

/// The texts the log file receives for `lines`, in order: each line as
/// [`log_file_line`] formats it, a line whose timestamp has no calendar date
/// being left out.
pub open spec fn file_texts(lines: Seq<LogLine>) -> Seq<Seq<char>>
    decreases lines.len(),
{
    if lines.len() == 0 {
        seq![]
    } else {
        let l = lines.last();
        file_texts(lines.drop_last()) + match timestamp_text(
            l.timestamp.secs,
            l.timestamp.nanos,
            log_time_format(),
        ) {
            Some(ts) => seq![log_file_line(ts, l.stream, l.line@)],
            None => seq![],
        }
    }
}

/// The texts to append for a batch (see [`file_texts`]).
pub fn format_batch(lines: &Vec<LogLine>) -> (r: Vec<String>)
    ensures
        r@.map_values(|t: String| t@) == file_texts(lines@),
{
    let mut out: Vec<String> = Vec::new();
    let mut i: usize = 0;
    while i < lines.len()
        invariant
            i <= lines@.len(),
            out@.map_values(|t: String| t@) == file_texts(lines@.take(i as int)),
        decreases lines@.len() - i,
    {
        let ghost before = out@;
        assert(lines@.take(i + 1).drop_last() =~= lines@.take(i as int));
        match format_log_line(&lines[i]) {
            Some(t) => {
                out.push(t);
                assert(out@.map_values(|t: String| t@) =~= before.map_values(|t: String| t@)
                    + seq![out@.last()@]);
            },
            None => {},
        }
        i = i + 1;
    }
    assert(lines@.take(lines@.len() as int) =~= lines@);
    out
}

/// Writing batch after batch appends the texts of all lines in the order
/// they were received: the texts of two batches are those of the lines of
/// both, in turn.
pub proof fn law_batches_keep_order(a: Seq<LogLine>, b: Seq<LogLine>)
    ensures
        file_texts(a + b) == file_texts(a) + file_texts(b),
    decreases b.len(),
{
    if b.len() == 0 {
        assert(a + b =~= a);
        assert(file_texts(a) + file_texts(b) =~= file_texts(a));
    } else {
        assert((a + b).drop_last() =~= a + b.drop_last());
        assert((a + b).last() == b.last());
        law_batches_keep_order(a, b.drop_last());
        let l = b.last();
        let tail = match timestamp_text(l.timestamp.secs, l.timestamp.nanos, log_time_format()) {
            Some(ts) => seq![log_file_line(ts, l.stream, l.line@)],
            None => Seq::<Seq<char>>::empty(),
        };
        assert(file_texts(a) + file_texts(b.drop_last()) + tail =~= file_texts(a) + (file_texts(
            b.drop_last(),
        ) + tail));
    }
}

// ─── The writer ───

/// Where the log writer is.
#[derive(Clone, Copy, Debug, PartialEq, Eq, Structural)]
pub enum WriterPhase {
    /// Gathering lines and writing batches.
    Writing,
    /// The channel closed: the last batch is being written.
    Closing,
    /// The log file cannot be written: lines are received and dropped.
    Broken,
    /// The writer is done.
    Done,
}

/// The log writer: the lines of the batch being gathered, the size of the
/// current file, its size limit (0: no limit), and its phase.
pub struct LogWriter {
    pub pending: Vec<LogLine>,
    pub size: u64,
    pub max_size: u64,
    pub phase: WriterPhase,
}

/// What the writer was told.
#[derive(Debug)]
pub enum WriterEvent {
    /// A console line arrived.
    Line(LogLine),
    /// The batch's time is up.
    TimeUp,
    /// A batch was written; this many bytes reached the file.
    Written(u64),
    /// After a rotation, the new current file was opened (or not; then
    /// every later line is dropped).
    Reopened(bool),
    /// The channel closed: no more lines will come.
    ChannelClosed,
}

/// What the writer's caller does next.
#[derive(Debug)]
pub enum WriterOrder {
    /// Nothing (keep receiving).
    Nothing,
    /// Append these texts to the current file, then report `Written`.
    Write(Vec<String>),
    /// Rotate the files and open a new current one, then report `Reopened`.
    Rotate,
    /// Rotate the files and stop.
    RotateThenStop,
    /// Stop.
    Stop,
}

/// The writer as the laws see it.
pub struct WriterModel {
    pub pending: Seq<LogLine>,
    pub size: u64,
    pub max_size: u64,
    pub phase: WriterPhase,
}

/// An order as the laws see it: the texts of a `Write`, nothing for the
/// others.
pub enum OrderModel {
    Nothing,
    Write(Seq<Seq<char>>),
    Rotate,
    RotateThenStop,
    Stop,
}

impl LogWriter {
    pub open spec fn model(&self) -> WriterModel {
        WriterModel {
            pending: self.pending@,
            size: self.size,
            max_size: self.max_size,
            phase: self.phase,
        }
    }
}

/// The model of an order.
pub open spec fn order_model(o: WriterOrder) -> OrderModel {
    match o {
        WriterOrder::Nothing => OrderModel::Nothing,
        WriterOrder::Write(t) => OrderModel::Write(t@.map_values(|x: String| x@)),
        WriterOrder::Rotate => OrderModel::Rotate,
        WriterOrder::RotateThenStop => OrderModel::RotateThenStop,
        WriterOrder::Stop => OrderModel::Stop,
    }
}

/// The writer after an event, and its order.
pub open spec fn writer_next(w: WriterModel, e: WriterEvent) -> (WriterModel, OrderModel) {
    match (w.phase, e) {
        (WriterPhase::Writing, WriterEvent::Line(l)) => if w.pending.len() + 1 >= MAX_BATCH_SIZE {
            (
                WriterModel { pending: seq![], ..w },
                OrderModel::Write(file_texts(w.pending.push(l))),
            )
        } else {
            (WriterModel { pending: w.pending.push(l), ..w }, OrderModel::Nothing)
        },
        (WriterPhase::Writing, WriterEvent::TimeUp) => if w.pending.len() > 0 {
            (WriterModel { pending: Seq::empty(), ..w }, OrderModel::Write(file_texts(w.pending)))
        } else {
            (w, OrderModel::Nothing)
        },
        (WriterPhase::Writing, WriterEvent::Written(n)) => if w.size + n >= w.max_size && w.max_size
            > 0 {
            (WriterModel { size: 0, ..w }, OrderModel::Rotate)
        } else {
            (WriterModel { size: (w.size + n) as u64, ..w }, OrderModel::Nothing)
        },
        (WriterPhase::Closing, WriterEvent::Written(n)) => if w.size + n >= w.max_size && w.max_size
            > 0 {
            (WriterModel { size: 0, phase: WriterPhase::Done, ..w }, OrderModel::RotateThenStop)
        } else {
            (
                WriterModel { size: (w.size + n) as u64, phase: WriterPhase::Done, ..w },
                OrderModel::Stop,
            )
        },
        (WriterPhase::Writing, WriterEvent::Reopened(ok)) => if ok {
            (w, OrderModel::Nothing)
        } else {
            (WriterModel { phase: WriterPhase::Broken, ..w }, OrderModel::Nothing)
        },
        (WriterPhase::Writing, WriterEvent::ChannelClosed) => if w.pending.len() > 0 {
            (
                WriterModel { pending: Seq::empty(), phase: WriterPhase::Closing, ..w },
                OrderModel::Write(file_texts(w.pending)),
            )
        } else {
            (WriterModel { phase: WriterPhase::Done, ..w }, OrderModel::Stop)
        },
        (WriterPhase::Broken, WriterEvent::ChannelClosed) => (
            WriterModel { phase: WriterPhase::Done, ..w },
            OrderModel::Stop,
        ),
        _ => (w, OrderModel::Nothing),
    }
}

impl LogWriter {
    /// A writer for a log file that was opened with this size (`None`: it
    /// could not be opened, so every line will be dropped).
    pub fn open(opened: Option<u64>, max_size: u64) -> (r: LogWriter)
        ensures
            r.pending@.len() == 0,
            r.max_size == max_size,
            match opened {
                Some(size) => r.size == size && r.phase == WriterPhase::Writing,
                None => r.size == 0 && r.phase == WriterPhase::Broken,
            },
    {
        match opened {
            Some(size) => LogWriter { pending: Vec::new(), size, max_size, phase: WriterPhase::Writing },
            None => LogWriter { pending: Vec::new(), size: 0, max_size, phase: WriterPhase::Broken },
        }
    }

    fn take_batch(&mut self) -> (r: Vec<String>)
        ensures
            final(self).pending@ == Seq::<LogLine>::empty(),
            final(self).size == old(self).size,
            final(self).max_size == old(self).max_size,
            final(self).phase == old(self).phase,
            r@.map_values(|x: String| x@) == file_texts(old(self).pending@),
    {
        let texts = format_batch(&self.pending);
        self.pending = Vec::new();
        assert(self.pending@ =~= Seq::<LogLine>::empty());
        texts
    }

    /// Advance the writer by one event (see [`writer_next`]).
    pub fn on_event(&mut self, e: WriterEvent) -> (r: WriterOrder)
        requires
            e matches WriterEvent::Written(n) ==> old(self).size + n <= u64::MAX,
        ensures
            (final(self).model(), order_model(r)) == writer_next(old(self).model(), e),
    {
        match (self.phase, e) {
            (WriterPhase::Writing, WriterEvent::Line(l)) => {
                self.pending.push(l);
                if batch_full(self.pending.len()) {
                    WriterOrder::Write(self.take_batch())
                } else {
                    WriterOrder::Nothing
                }
            },
            (WriterPhase::Writing, WriterEvent::TimeUp) => {
                if self.pending.len() > 0 {
                    WriterOrder::Write(self.take_batch())
                } else {
                    WriterOrder::Nothing
                }
            },
            (WriterPhase::Writing, WriterEvent::Written(n)) => {
                let (size, rotate) = after_batch(self.size, n, self.max_size);
                self.size = size;
                if rotate {
                    WriterOrder::Rotate
                } else {
                    WriterOrder::Nothing
                }
            },
            (WriterPhase::Closing, WriterEvent::Written(n)) => {
                let (size, rotate) = after_batch(self.size, n, self.max_size);
                self.size = size;
                self.phase = WriterPhase::Done;
                if rotate {
                    WriterOrder::RotateThenStop
                } else {
                    WriterOrder::Stop
                }
            },
            (WriterPhase::Writing, WriterEvent::Reopened(ok)) => {
                if !ok {
                    self.phase = WriterPhase::Broken;
                }
                WriterOrder::Nothing
            },
            (WriterPhase::Writing, WriterEvent::ChannelClosed) => {
                if self.pending.len() > 0 {
                    let texts = self.take_batch();
                    self.phase = WriterPhase::Closing;
                    WriterOrder::Write(texts)
                } else {
                    self.phase = WriterPhase::Done;
                    WriterOrder::Stop
                }
            },
            (WriterPhase::Broken, WriterEvent::ChannelClosed) => {
                self.phase = WriterPhase::Done;
                WriterOrder::Stop
            },
            _ => WriterOrder::Nothing,
        }
    }
}

/// The writer after `events`, in order, and the orders it gave.
pub open spec fn writer_run(w: WriterModel, events: Seq<WriterEvent>) -> (WriterModel, Seq<OrderModel>)
    decreases events.len(),
{
    if events.len() == 0 {
        (w, seq![])
    } else {
        let before = writer_run(w, events.drop_last());
        let (next, order) = writer_next(before.0, events.last());
        (next, before.1.push(order))
    }
}

/// The lines of `events` that the writer accepted: those that arrived while
/// it was writing.
pub open spec fn accepted_lines(w: WriterModel, events: Seq<WriterEvent>) -> Seq<LogLine>
    decreases events.len(),
{
    if events.len() == 0 {
        seq![]
    } else {
        let before = writer_run(w, events.drop_last());
        accepted_lines(w, events.drop_last()) + match (before.0.phase, events.last()) {
            (WriterPhase::Writing, WriterEvent::Line(l)) => seq![l],
            _ => Seq::<LogLine>::empty(),
        }
    }
}

/// The texts that `orders` have written, in order.
pub open spec fn written_texts(orders: Seq<OrderModel>) -> Seq<Seq<char>>
    decreases orders.len(),
{
    if orders.len() == 0 {
        seq![]
    } else {
        written_texts(orders.drop_last()) + match orders.last() {
            OrderModel::Write(t) => t,
            _ => Seq::<Seq<char>>::empty(),
        }
    }
}

/// Over a whole run of the writer: what it ordered written, followed by the
/// batch it still gathers, is the text of every line it accepted, in the
/// order received (the lines it started with first).  A line that arrives
/// when the file cannot be written (or after the channel closed) is not
/// accepted, so it is dropped.
pub proof fn law_writer_keeps_every_accepted_line_in_order(w: WriterModel, events: Seq<WriterEvent>)
    ensures
        written_texts(writer_run(w, events).1) + file_texts(writer_run(w, events).0.pending)
            == file_texts(w.pending + accepted_lines(w, events)),
    decreases events.len(),
{
    if events.len() == 0 {
        assert(w.pending + Seq::<LogLine>::empty() =~= w.pending);
        assert(written_texts(Seq::<OrderModel>::empty()) + file_texts(w.pending) =~= file_texts(
            w.pending,
        ));
    } else {
        let init = events.drop_last();
        law_writer_keeps_every_accepted_line_in_order(w, init);
        let (before, orders) = writer_run(w, init);
        let acc = accepted_lines(w, init);
        let e = events.last();
        let (next, order) = writer_next(before, e);
        let new_lines = match (before.phase, e) {
            (WriterPhase::Writing, WriterEvent::Line(l)) => seq![l],
            _ => Seq::<LogLine>::empty(),
        };
        assert(w.pending + (acc + new_lines) =~= (w.pending + acc) + new_lines);
        law_batches_keep_order(w.pending + acc, new_lines);
        law_batches_keep_order(before.pending, new_lines);
        assert(orders.push(order).drop_last() =~= orders);
        let extra = match order {
            OrderModel::Write(t) => t,
            _ => Seq::<Seq<char>>::empty(),
        };
        assert(written_texts(orders.push(order)) == written_texts(orders) + extra);
        assert(file_texts(Seq::<LogLine>::empty()) =~= Seq::<Seq<char>>::empty());
        assert(before.pending + new_lines =~= match (before.phase, e) {
            (WriterPhase::Writing, WriterEvent::Line(l)) => before.pending.push(l),
            _ => before.pending,
        });
        assert(written_texts(orders) + extra + file_texts(next.pending) =~= written_texts(orders)
            + file_texts(before.pending + new_lines));
    }
}

/// Each step of the writer: it rotates only after a batch that brought the
/// current file to its limit, and never without a limit; a rotation leaves
/// an empty current file; a limited file stays below its limit; a closing
/// channel has the gathered batch written, and after that batch the writer
/// stops; once done it does nothing more.
pub proof fn law_writer_step(w: WriterModel, e: WriterEvent)
    ensures
        (writer_next(w, e).1 is Rotate || writer_next(w, e).1 is RotateThenStop) ==> (e matches WriterEvent::Written(n) && w.max_size > 0 && w.size + n >= w.max_size
            && writer_next(w, e).0.size == 0),
        w.max_size == 0 ==> !(writer_next(w, e).1 is Rotate) && !(writer_next(w, e).1 is RotateThenStop),
        w.max_size > 0 && w.size < w.max_size ==> writer_next(w, e).0.size < w.max_size,
        w.phase == WriterPhase::Writing && e is ChannelClosed && w.pending.len() > 0 ==> (
        writer_next(w, e).1 == OrderModel::Write(file_texts(w.pending))
            && writer_next(w, e).0.phase == WriterPhase::Closing),
        w.phase == WriterPhase::Closing && e is Written ==> writer_next(w, e).0.phase
            == WriterPhase::Done && (writer_next(w, e).1 is Stop || writer_next(w, e).1 is RotateThenStop),
        w.phase == WriterPhase::Done ==> writer_next(w, e).0 == w && writer_next(w, e).1 is Nothing,
{
}

} // verus!
