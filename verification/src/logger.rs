use vstd::prelude::*;

use crate::level::{level_name, level_rank, Level};

verus! {

/// One decimal digit as a character.
pub open spec fn digit_char(d: nat) -> char {
    if d == 0 {
        '0'
    } else if d == 1 {
        '1'
    } else if d == 2 {
        '2'
    } else if d == 3 {
        '3'
    } else if d == 4 {
        '4'
    } else if d == 5 {
        '5'
    } else if d == 6 {
        '6'
    } else if d == 7 {
        '7'
    } else if d == 8 {
        '8'
    } else {
        '9'
    }
}

/// The decimal notation of a natural number, without leading zeros.
pub open spec fn decimal(n: nat) -> Seq<char>
    decreases n,
{
    if n < 10 {
        seq![digit_char(n)]
    } else {
        decimal(n / 10) + seq![digit_char(n % 10)]
    }
}

/// The line of a record as it is printed: a missing line counts as 0.
pub open spec fn line_or_zero(line: Option<u32>) -> nat {
    match line {
        Some(l) => l as nat,
        None => 0,
    }
}

/// The thread name as it is printed: a thread without a name has the empty name.
pub open spec fn name_or_empty(name: Option<Seq<char>>) -> Seq<char> {
    match name {
        Some(n) => n,
        None => Seq::empty(),
    }
}

/// What a log line says about a record:
/// `LEVEL - THREAD_ID:THREAD_NAME - TARGET:LINE -- MESSAGE`.
pub open spec fn record_line(
    level: Level,
    thread_id: Seq<char>,
    thread_name: Option<Seq<char>>,
    target: Seq<char>,
    line: Option<u32>,
    args: Seq<char>,
) -> Seq<char> {
    level_name(level) + " - "@ + thread_id + ":"@ + name_or_empty(thread_name) + " - "@ + target
        + ":"@ + decimal(line_or_zero(line)) + " -- "@ + args
}

/// Everything a log line is made of, as plain values: the record's level,
/// target, line and formatted message, and the thread that logged it.
pub struct LogRecord {
    pub level: Level,
    pub target: String,
    pub line: Option<u32>,
    pub args: String,
    pub thread_id: String,
    pub thread_name: Option<String>,
}

impl LogRecord {
    /// The thread name as a sequence of characters, where there is one.
    pub open spec fn thread_name_view(&self) -> Option<Seq<char>> {
        match self.thread_name {
            Some(n) => Some(n@),
            None => None,
        }
    }

    /// The line this record is printed as.
    pub open spec fn spec_line(&self) -> Seq<char> {
        record_line(self.level, self.thread_id@, self.thread_name_view(), self.target@, self.line, self.args@)
    }
}

/// A logger that lets through the records at most as verbose as its level.
pub struct LogWriter {
    level: Level,
}

/// The string of one decimal digit.
fn digit_str(d: u32) -> (s: &'static str)
    requires
        d < 10,
    ensures
        s@ == seq![digit_char(d as nat)],
{
    proof {
        reveal_strlit("0");
        reveal_strlit("1");
        reveal_strlit("2");
        reveal_strlit("3");
        reveal_strlit("4");
        reveal_strlit("5");
        reveal_strlit("6");
        reveal_strlit("7");
        reveal_strlit("8");
        reveal_strlit("9");
    }
    if d == 0 {
        "0"
    } else if d == 1 {
        "1"
    } else if d == 2 {
        "2"
    } else if d == 3 {
        "3"
    } else if d == 4 {
        "4"
    } else if d == 5 {
        "5"
    } else if d == 6 {
        "6"
    } else if d == 7 {
        "7"
    } else if d == 8 {
        "8"
    } else {
        "9"
    }
}

/// Appends the decimal notation of `n` to `out`.
pub fn push_decimal(out: &mut String, n: u32)
    ensures
        final(out)@ == old(out)@ + decimal(n as nat),
    decreases n,
{
    if n < 10 {
        out.append(digit_str(n));
    } else {
        push_decimal(out, n / 10);
        out.append(digit_str(n % 10));
    }
}

/// Formats a record as one log line:
/// `LEVEL - THREAD_ID:THREAD_NAME - TARGET:LINE -- MESSAGE`, where a missing
/// line is printed as 0 and a missing thread name as the empty string.
pub fn format_record(record: &LogRecord) -> (s: String)
    ensures
        s@ == record.spec_line(),
{
    proof {
        reveal_strlit(" - ");
        reveal_strlit(":");
        reveal_strlit(" -- ");
    }
    let mut s = String::new();
    s.append(record.level.as_str());
    s.append(" - ");
    s.append(record.thread_id.as_str());
    s.append(":");
    match &record.thread_name {
        Some(name) => s.append(name.as_str()),
        None => {},
    }
    s.append(" - ");
    s.append(record.target.as_str());
    s.append(":");
    let line: u32 = match record.line {
        Some(l) => l,
        None => 0,
    };
    push_decimal(&mut s, line);
    s.append(" -- ");
    s.append(record.args.as_str());
    s
}

impl LogWriter {
    /// The level of the logger.
    pub closed spec fn spec_level(&self) -> Level {
        self.level
    }

    /// A logger at the given level.
    pub fn new(level: Level) -> (w: Self)
        ensures
            w.spec_level() == level,
    {
        Self { level }
    }

    /// The level of the logger.
    pub fn level(&self) -> (l: Level)
        ensures
            l == self.spec_level(),
    {
        self.level
    }

    /// Whether a record of level `record_level` passes: it does when it is
    /// at most as verbose as the logger's level.
    pub fn enabled(&self, record_level: Level) -> (r: bool)
        ensures
            r == (level_rank(record_level) <= level_rank(self.spec_level())),
    {
        record_level.le(&self.level)
    }

    /// The line to print for a record, or `None` where the record is more
    /// verbose than the logger's level.
    pub fn log(&self, record: &LogRecord) -> (out: Option<String>)
        ensures
            level_rank(record.level) <= level_rank(self.spec_level()) ==> (out matches Some(s)
                && s@ == record.spec_line()),
            level_rank(record.level) > level_rank(self.spec_level()) ==> out is None,
    {
        if self.enabled(record.level) {
            Some(format_record(record))
        } else {
            None
        }
    }
}

/// A logger's filter is monotone: where a record passes, every record that
/// is less verbose passes too; `Error` records always pass, and a logger at
/// `Trace` lets every record through.
pub proof fn law_filter_monotone(writer: Level, passed: Level, other: Level)
    ensures
        level_rank(passed) <= level_rank(writer) && level_rank(other) <= level_rank(passed)
            ==> level_rank(other) <= level_rank(writer),
        level_rank(Level::Error) <= level_rank(writer),
        level_rank(other) <= level_rank(Level::Trace),
{
}


/// The number that a string of decimal digits spells.
pub open spec fn digits_value(s: Seq<char>) -> int
    decreases s.len(),
{
    if s.len() == 0 {
        0
    } else {
        digits_value(s.drop_last()) * 10 + (s.last() as int - '0' as int)
    }
}

/// Whether a character is a decimal digit.
pub open spec fn is_digit(c: char) -> bool {
    '0' <= c && c <= '9'
}

/// A digit character stands for its digit.
proof fn lemma_digit_value(d: nat)
    requires
        d < 10,
    ensures
        digit_char(d) as int - '0' as int == d,
        is_digit(digit_char(d)),
{
    assert('0' as int == 48);
    assert('1' as int == 49);
    assert('2' as int == 50);
    assert('3' as int == 51);
    assert('4' as int == 52);
    assert('5' as int == 53);
    assert('6' as int == 54);
    assert('7' as int == 55);
    assert('8' as int == 56);
    assert('9' as int == 57);
}

/// The decimal notation of a number spells that number: it is made of
/// digits only, is never empty, starts with a zero only for zero itself, and
/// reads back as the number.
pub proof fn law_decimal_reads_back(n: nat)
    ensures
        decimal(n).len() > 0,
        forall|i: int| 0 <= i < decimal(n).len() ==> is_digit(#[trigger] decimal(n)[i]),
        n > 0 ==> decimal(n)[0] != '0',
        digits_value(decimal(n)) == n,
    decreases n,
{
    if n >= 10 {
        law_decimal_reads_back(n / 10);
        lemma_digit_value(n % 10);
        let d = decimal(n);
        assert(d.drop_last() =~= decimal(n / 10));
        assert(d.last() == digit_char(n % 10));
        assert(digits_value(d) == digits_value(decimal(n / 10)) * 10 + (n % 10));
        assert((n / 10) * 10 + n % 10 == n);
        assert(d[0] == decimal(n / 10)[0]);
        assert forall|i: int| 0 <= i < d.len() implies is_digit(#[trigger] d[i]) by {
            if i < d.len() - 1 {
                assert(d[i] == decimal(n / 10)[i]);
            }
        }
    } else {
        lemma_digit_value(n);
        let d = decimal(n);
        assert(d.drop_last() =~= Seq::<char>::empty());
        assert(digits_value(d) == digits_value(d.drop_last()) * 10 + (d.last() as int - '0' as int));
    }
}

/// A log line starts with the record's own level name followed by " - ",
/// and ends with " -- " followed by the record's message, whatever the
/// other fields hold.
pub proof fn law_line_shape(
    level: Level,
    thread_id: Seq<char>,
    thread_name: Option<Seq<char>>,
    target: Seq<char>,
    line: Option<u32>,
    args: Seq<char>,
)
    ensures
        ({
            let l = record_line(level, thread_id, thread_name, target, line, args);
            &&& l.take(level_name(level).len() + 3int) == level_name(level) + " - "@
            &&& l.skip(l.len() - args.len() - 4) == " -- "@ + args
        }),
{
    reveal_strlit(" - ");
    reveal_strlit(" -- ");
    let l = record_line(level, thread_id, thread_name, target, line, args);
    let head = level_name(level) + " - "@;
    let rest = thread_id + ":"@ + name_or_empty(thread_name) + " - "@ + target + ":"@ + decimal(
        line_or_zero(line),
    );
    assert(l =~= head + rest + (" -- "@ + args));
    assert(l.take(head.len() as int) =~= head);
    assert(l.skip(l.len() - args.len() - 4) =~= " -- "@ + args);
}

/// A thread without a name prints as a thread with the empty name, and a
/// record without a line prints as a record at line 0.
pub proof fn law_missing_fields_print_as_defaults(
    level: Level,
    thread_id: Seq<char>,
    thread_name: Option<Seq<char>>,
    target: Seq<char>,
    line: Option<u32>,
    args: Seq<char>,
)
    ensures
        record_line(level, thread_id, None, target, line, args) == record_line(
            level,
            thread_id,
            Some(Seq::empty()),
            target,
            line,
            args,
        ),
        record_line(level, thread_id, thread_name, target, None, args) == record_line(
            level,
            thread_id,
            thread_name,
            target,
            Some(0u32),
            args,
        ),
{
}

} // verus!
