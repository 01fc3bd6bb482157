//! The time of a directory's last backup, kept in a file beside its content.

use vstd::prelude::*;
use crate::outside::{canonical_timestamp, clock_text, debug_quoted, normalize_timestamp, quote};

verus! {

/// A point in time, held as the text that stands for it in the file and on
/// the screen: local date and time with the offset from UTC.
#[derive(Clone, Debug, PartialEq, Eq)]
pub struct BackupTimestamp {
    text: String,
}

impl View for BackupTimestamp {
    type V = Seq<char>;

    closed spec fn view(&self) -> Seq<char> {
        self.text@
    }
}

impl BackupTimestamp {
    /// The text of this point in time.
    pub fn text(&self) -> (r: &str)
        ensures
            r@ == self@,
    {
        self.text.as_str()
    }

    /// The current time, by the clock and the time zone of the machine, as
    /// one line of text. Every call may give another value.
    pub fn now() -> (r: BackupTimestamp)
        ensures
            is_line(r@),
    {
        BackupTimestamp { text: clock_text() }
    }

    /// The content of the file that records this time: its text and a line end.
    pub fn record(&self) -> (r: String)
        ensures
            r@ == record_text(self@),
    {
        let mut content: String = self.text.clone();
        content.append("\n");
        content
    }
}

/// Whether `text` is the content of one line: not empty, and without a line end.
pub open spec fn is_line(text: Seq<char>) -> bool {
    text.len() > 0 && forall|i: int| 0 <= i < text.len() ==> text[i] != '\n'
}

/// The content of the file that records the time with the text `stamp`.
pub open spec fn record_text(stamp: Seq<char>) -> Seq<char> {
    stamp + "\n"@
}

/// The record of a time that is one line of text is that line and its line
/// end: the file holds one line end, and it is the last character.
pub proof fn lemma_record_is_one_line(stamp: Seq<char>)
    requires
        is_line(stamp),
    ensures
        record_text(stamp).len() == stamp.len() + 1,
        record_text(stamp).last() == '\n',
        record_text(stamp).drop_last() == stamp,
        forall|i: int| 0 <= i < stamp.len() ==> record_text(stamp)[i] != '\n',
{
    reveal_strlit("\n");
    assert(record_text(stamp).drop_last() =~= stamp);
}

/// What looking for the time of the last backup gave.
#[derive(Clone, Debug, PartialEq, Eq)]
pub enum TimestampReading {
    /// There is no record: the directory has no backup yet.
    Absent,
    /// There is a record that is no point in time. This is reported, and
    /// from then on the directory counts as having no backup yet.
    Unparsable,
    /// The time of the last backup.
    Recorded(BackupTimestamp),
}

/// The mathematical content of a [`TimestampReading`].
pub enum TimestampReadingView {
    Absent,
    Unparsable,
    Recorded(Seq<char>),
}

impl View for TimestampReading {
    type V = TimestampReadingView;

    open spec fn view(&self) -> TimestampReadingView {
        match self {
            TimestampReading::Absent => TimestampReadingView::Absent,
            TimestampReading::Unparsable => TimestampReadingView::Unparsable,
            TimestampReading::Recorded(t) => TimestampReadingView::Recorded(t@),
        }
    }
}

impl TimestampReadingView {
    /// The time of the last backup; none where the record is missing or unreadable.
    pub open spec fn last_backup(self) -> Option<Seq<char>> {
        match self {
            TimestampReadingView::Recorded(t) => Some(t),
            _ => None,
        }
    }
}

/// The name of the record inside its directory.
pub open spec fn date_file_name() -> Seq<char> {
    "/.backup_time.txt"@
}

/// Where the time of the last backup of `src_dir` is recorded:
/// `<src_dir>/.backup_time.txt`.
pub fn date_path(src_dir: &str) -> (r: String)
    ensures
        r@ == src_dir@ + date_file_name(),
{
    let mut path: String = String::from_str(src_dir);
    path.append("/.backup_time.txt");
    path
}

/// What a record means, given what reading its content as a point in time
/// gave: the canonical text of that point, or `None` where it is none.
pub fn classify(parsed: Option<String>) -> (r: TimestampReading)
    ensures
        r@ == (match parsed {
            Some(t) => TimestampReadingView::Recorded(t@),
            None => TimestampReadingView::Unparsable,
        }),
{
    match parsed {
        Some(text) => TimestampReading::Recorded(BackupTimestamp { text }),
        None => TimestampReading::Unparsable,
    }
}

/// What a record with the given content means; `None` stands for no record.
pub open spec fn reading_of(content: Option<Seq<char>>) -> TimestampReadingView {
    match content {
        None => TimestampReadingView::Absent,
        Some(c) => match canonical_timestamp(c) {
            Some(t) => TimestampReadingView::Recorded(t),
            None => TimestampReadingView::Unparsable,
        },
    }
}

/// Interprets the content of a directory's record; `None` stands for no record.
pub fn read_timestamp(content: &Option<String>) -> (r: TimestampReading)
    ensures
        r@ == reading_of(crate::text::opt_text(*content)),
{
    match content {
        None => TimestampReading::Absent,
        Some(c) => classify(normalize_timestamp(c.as_str())),
    }
}

impl TimestampReading {
    /// The time of the last backup; none where the record is missing or unreadable.
    pub fn last_backup(&self) -> (r: Option<&BackupTimestamp>)
        ensures
            (match r {
                Some(t) => Some(t@),
                None => None,
            }) == self@.last_backup(),
    {
        match self {
            TimestampReading::Recorded(t) => Some(t),
            _ => None,
        }
    }

    /// Whether the record is there but is no point in time, which is to be reported.
    pub fn is_unparsable(&self) -> (r: bool)
        ensures
            r == (self@ is Unparsable),
    {
        match self {
            TimestampReading::Unparsable => true,
            _ => false,
        }
    }
}

/// The line that tells of a directory, whose name is given as it is to be
/// shown, and of its last backup where there was one.
pub open spec fn info_text(shown_dir: Seq<char>, last: Option<Seq<char>>) -> Seq<char> {
    match last {
        Some(t) => " - folder: "@ + shown_dir + ", last backup: "@ + t,
        None => " - folder: "@ + shown_dir,
    }
}

/// The line that tells of a directory, whose name is given as it is to be
/// shown, and of its last backup where there was one.
pub fn info_line_shown(shown_dir: &str, reading: &TimestampReading) -> (r: String)
    ensures
        r@ == info_text(shown_dir@, reading@.last_backup()),
{
    let mut line: String = String::from_str(" - folder: ");
    line.append(shown_dir);
    match reading.last_backup() {
        Some(t) => {
            line.append(", last backup: ");
            line.append(t.text());
        },
        None => {},
    }
    line
}

/// The line that the `info` subcommand prints for the directory `dir`: its
/// name in quotes and, where there was a backup, the time of the last one.
pub fn info_line(dir: &str, reading: &TimestampReading) -> (r: String)
    ensures
        r@ == info_text(debug_quoted(dir@), reading@.last_backup()),
{
    let shown: String = quote(dir);
    info_line_shown(shown.as_str(), reading)
}

/// What the `when` subcommand does with a directory.
#[derive(Clone, Copy, Debug, PartialEq, Eq, Structural)]
pub enum WhenAction {
    /// Record the current time as the time of the last backup.
    WriteTimestamp,
    /// Print the time of the last backup, if there was one.
    ShowTimestamp,
    /// Do nothing: a record was asked for in a dry run.
    Skip,
}

/// What `when` does: with `write` it records the time, unless this is a dry
/// run, which records nothing; without `write` it shows the last record.
pub open spec fn when_action_of(write: bool, dry_run: bool) -> WhenAction {
    if !write {
        WhenAction::ShowTimestamp
    } else if dry_run {
        WhenAction::Skip
    } else {
        WhenAction::WriteTimestamp
    }
}

/// What the `when` subcommand does with a directory.
pub fn when_action(write: bool, dry_run: bool) -> (r: WhenAction)
    ensures
        r == when_action_of(write, dry_run),
{
    if !write {
        WhenAction::ShowTimestamp
    } else if dry_run {
        WhenAction::Skip
    } else {
        WhenAction::WriteTimestamp
    }
}

/// The line that `when` prints: the time of the last backup, or nothing
/// where there was none.
pub fn when_line(reading: &TimestampReading) -> (r: Option<String>)
    ensures
        crate::text::opt_text(r) == reading@.last_backup(),
{
    match reading.last_backup() {
        Some(t) => Some(String::from_str(t.text())),
        None => None,
    }
}

/// A dry run never records a time: whatever `when` is asked, in a dry run
/// its action is not the writing of the record.
pub proof fn lemma_dry_run_records_nothing(write: bool)
    ensures
        when_action_of(write, true) != WhenAction::WriteTimestamp,
        when_action_of(write, false) == WhenAction::WriteTimestamp <==> write,
{
}

} // verus!
