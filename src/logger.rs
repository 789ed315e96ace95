use vstd::prelude::*;

use crate::guid::{UnityInterfaceGuid, LOGGER_GUID_HIGH, LOGGER_GUID_LOW};
use crate::interfaces::UnityInterface;
use vstd::string::StringSliceAdditionalSpecFns;

verus! {

#[verifier::external_type_specification]
pub struct ExLevel(log::Level);

#[verifier::external_type_specification]
pub struct ExLevelFilter(log::LevelFilter);

/// Relies on log::set_max_level: it stores the process-wide level filter.
/// Nothing is claimed of it.
#[verifier::external_body]
fn set_max_level(level: log::LevelFilter) {
    log::set_max_level(level)
}

/// The text left of `s` once leading and trailing whitespace is removed.
pub uninterp spec fn trimmed(s: Seq<char>) -> Seq<char>;

/// Relies on str::trim: the result depends on the characters of `s` alone.
#[verifier::external_body]
fn trim_str(s: &str) -> (r: String)
    ensures
        r@ == trimmed(s@),
{
    s.trim().to_owned()
}

/// The severities the host's log function knows.
#[derive(Clone, Copy, Debug, PartialEq, Eq, Structural)]
pub enum UnityLogType {
    Info,
    Warning,
    Error,
    Exception,
}

/// The host's numeric code for a severity.
pub open spec fn log_type_code(t: UnityLogType) -> i32 {
    match t {
        UnityLogType::Error => 0,
        UnityLogType::Warning => 2,
        UnityLogType::Info => 3,
        UnityLogType::Exception => 4,
    }
}

/// The host severity that a `log` crate level is reported under.
pub open spec fn log_type_of_level(level: log::Level) -> UnityLogType {
    match level {
        log::Level::Error => UnityLogType::Error,
        log::Level::Warn => UnityLogType::Warning,
        log::Level::Info => UnityLogType::Info,
        log::Level::Debug => UnityLogType::Info,
        log::Level::Trace => UnityLogType::Info,
    }
}

impl UnityLogType {
    /// The host's numeric code for this severity.
    pub fn code(self) -> (r: i32)
        ensures
            r == log_type_code(self),
    {
        match self {
            UnityLogType::Error => 0,
            UnityLogType::Warning => 2,
            UnityLogType::Info => 3,
            UnityLogType::Exception => 4,
        }
    }
}

impl From<log::Level> for UnityLogType {
    fn from(value: log::Level) -> (r: UnityLogType) {
        match value {
            log::Level::Error => UnityLogType::Error,
            log::Level::Warn => UnityLogType::Warning,
            log::Level::Info => UnityLogType::Info,
            log::Level::Debug => UnityLogType::Info,
            log::Level::Trace => UnityLogType::Info,
        }
    }
}

impl vstd::std_specs::convert::FromSpecImpl<log::Level> for UnityLogType {
    open spec fn obeys_from_spec() -> bool {
        true
    }

    open spec fn from_spec(v: log::Level) -> UnityLogType {
        log_type_of_level(v)
    }
}

/// The bytes of `b` with each NUL byte replaced by the UTF-8 encoding of
/// U+FFFD. In UTF-8 a zero byte only ever encodes the character `'\0'`, so
/// on the bytes of a string this replaces exactly its NUL characters.
pub open spec fn nul_replaced(b: Seq<u8>) -> Seq<u8>
    decreases b.len(),
{
    if b.len() == 0 {
        Seq::empty()
    } else {
        nul_replaced(b.drop_last()) + (if b.last() == 0 {
            seq![0xEFu8, 0xBFu8, 0xBDu8]
        } else {
            seq![b.last()]
        })
    }
}

/// A replaced byte sequence holds no NUL byte.
pub proof fn lemma_nul_replaced_has_no_nul(b: Seq<u8>)
    ensures
        !nul_replaced(b).contains(0u8),
    decreases b.len(),
{
    if b.len() > 0 {
        lemma_nul_replaced_has_no_nul(b.drop_last());
        let head = nul_replaced(b.drop_last());
        let tail = if b.last() == 0 {
            seq![0xEFu8, 0xBFu8, 0xBDu8]
        } else {
            seq![b.last()]
        };
        assert forall|i: int| 0 <= i < head.len() + tail.len() implies (head + tail)[i] != 0u8 by {
            if i >= head.len() {
                assert((head + tail)[i] == tail[i - head.len()]);
            } else {
                assert(head[i] == (head + tail)[i]);
            }
        }
    }
}

/// Makes the NUL-terminated text the host reads from `s`: each NUL character
/// becomes U+FFFD, so the message is never cut short, and a NUL ends it.
pub fn filter_str_to_c_string(s: &str) -> (r: Vec<u8>)
    ensures
        r@ == nul_replaced(s.spec_bytes()).push(0u8),
        !r@.drop_last().contains(0u8),
{
    let bytes = s.as_bytes();
    let mut out: Vec<u8> = Vec::new();
    let mut i: usize = 0;
    while i < bytes.len()
        invariant
            bytes@ == s.spec_bytes(),
            0 <= i <= bytes@.len(),
            out@ == nul_replaced(bytes@.subrange(0, i as int)),
        decreases bytes@.len() - i,
    {
        let c = bytes[i];
        if c == 0 {
            out.push(0xEFu8);
            out.push(0xBFu8);
            out.push(0xBDu8);
        } else {
            out.push(c);
        }
        proof {
            assert(bytes@.subrange(0, i + 1).drop_last() =~= bytes@.subrange(0, i as int));
        }
        i = i + 1;
        proof {
            assert(out@ =~= nul_replaced(bytes@.subrange(0, i as int)));
        }
    }
    assert(bytes@.subrange(0, bytes@.len() as int) =~= bytes@);
    proof {
        lemma_nul_replaced_has_no_nul(bytes@);
    }
    out.push(0u8);
    assert(out@.drop_last() =~= nul_replaced(bytes@));
    out
}

/// The line number as the host's C `int`: the number itself where it fits,
/// and the smallest `int` where it does not.
pub open spec fn line_as_c_int(line: u32) -> i32 {
    if line <= i32::MAX as u32 {
        line as i32
    } else {
        i32::MIN
    }
}

/// Converts a line number to the host's C `int`.
pub fn line_to_c_int(line: u32) -> (r: i32)
    ensures
        r == line_as_c_int(line),
{
    if line <= i32::MAX as u32 {
        line as i32
    } else {
        i32::MIN
    }
}

/// One call of the host's log function, with every argument already in the
/// form the host reads: NUL-terminated text and a C `int` line.
#[derive(Debug)]
pub struct LogMessage {
    pub log_type: UnityLogType,
    pub message: Vec<u8>,
    pub filename: Vec<u8>,
    pub line: i32,
}

/// The facade over the host's logging table.
#[derive(Debug)]
pub struct UnityLogger {
    table: usize,
}

impl UnityInterface for UnityLogger {
    type Probe = ();

    type FFIConversionError = ();

    open spec fn spec_guid() -> UnityInterfaceGuid {
        UnityInterfaceGuid { high: LOGGER_GUID_HIGH, low: LOGGER_GUID_LOW }
    }

    open spec fn spec_accepts(probe: ()) -> bool {
        true
    }

    closed spec fn spec_table(&self) -> usize {
        self.table
    }

    fn guid() -> (g: UnityInterfaceGuid) {
        UnityInterfaceGuid { high: LOGGER_GUID_HIGH, low: LOGGER_GUID_LOW }
    }

    fn try_from_table(table: usize, probe: ()) -> (r: Result<UnityLogger, ()>) {
        Ok(UnityLogger { table })
    }
}

impl UnityLogger {
    /// The address of the host's logging table.
    pub fn table(&self) -> (r: usize)
        ensures
            r == self.spec_table(),
    {
        self.table
    }

    /// Prepares a message of severity `level` for the host's log function.
    /// `filename` and `line` name the place in the source that logs.
    pub fn log_generic(&self, level: UnityLogType, msg: &str, filename: &str, line: u32) -> (r:
        LogMessage)
        ensures
            r.log_type == level,
            r.message@ == nul_replaced(msg.spec_bytes()).push(0u8),
            r.filename@ == nul_replaced(filename.spec_bytes()).push(0u8),
            r.line == line_as_c_int(line),
    {
        LogMessage {
            log_type: level,
            message: filter_str_to_c_string(msg),
            filename: filter_str_to_c_string(filename),
            line: line_to_c_int(line),
        }
    }

    /// [`UnityLogger::log_generic`] with severity [`UnityLogType::Info`].
    pub fn log_info(&self, msg: &str, filename: &str, line: u32) -> (r: LogMessage)
        ensures
            r.log_type == UnityLogType::Info,
            r.message@ == nul_replaced(msg.spec_bytes()).push(0u8),
            r.filename@ == nul_replaced(filename.spec_bytes()).push(0u8),
            r.line == line_as_c_int(line),
    {
        self.log_generic(UnityLogType::Info, msg, filename, line)
    }

    /// [`UnityLogger::log_generic`] with severity [`UnityLogType::Warning`].
    pub fn log_warning(&self, msg: &str, filename: &str, line: u32) -> (r: LogMessage)
        ensures
            r.log_type == UnityLogType::Warning,
            r.message@ == nul_replaced(msg.spec_bytes()).push(0u8),
            r.filename@ == nul_replaced(filename.spec_bytes()).push(0u8),
            r.line == line_as_c_int(line),
    {
        self.log_generic(UnityLogType::Warning, msg, filename, line)
    }

    /// [`UnityLogger::log_generic`] with severity [`UnityLogType::Error`].
    pub fn log_error(&self, msg: &str, filename: &str, line: u32) -> (r: LogMessage)
        ensures
            r.log_type == UnityLogType::Error,
            r.message@ == nul_replaced(msg.spec_bytes()).push(0u8),
            r.filename@ == nul_replaced(filename.spec_bytes()).push(0u8),
            r.line == line_as_c_int(line),
    {
        self.log_generic(UnityLogType::Error, msg, filename, line)
    }

    /// [`UnityLogger::log_generic`] with severity [`UnityLogType::Exception`].
    pub fn log_exception(&self, msg: &str, filename: &str, line: u32) -> (r: LogMessage)
        ensures
            r.log_type == UnityLogType::Exception,
            r.message@ == nul_replaced(msg.spec_bytes()).push(0u8),
            r.filename@ == nul_replaced(filename.spec_bytes()).push(0u8),
            r.line == line_as_c_int(line),
    {
        self.log_generic(UnityLogType::Exception, msg, filename, line)
    }

    /// Turns this logger into one for the `log` crate's macros, and sets the
    /// `log` crate's maximum level to `initial_level`.
    pub fn to_rust_logger(self, initial_level: log::LevelFilter) -> (r: UnityRustLogger)
        ensures
            r.app_prefix is None,
            r.logger.spec_table() == self.spec_table(),
    {
        self.make_rust_logger_internal(initial_level, None)
    }

    /// As [`UnityLogger::to_rust_logger`], with every message prefixed by
    /// `app_name` so that its origin shows in the host's console.
    pub fn to_rust_logger_for_app(self, initial_level: log::LevelFilter, app_name: &'static str) -> (r:
        UnityRustLogger)
        ensures
            r.app_prefix == Some(app_name),
            r.logger.spec_table() == self.spec_table(),
    {
        self.make_rust_logger_internal(initial_level, Some(app_name))
    }

    fn make_rust_logger_internal(
        self,
        initial_level: log::LevelFilter,
        app_name: Option<&'static str>,
    ) -> (r: UnityRustLogger)
        ensures
            r.app_prefix == app_name,
            r.logger.spec_table() == self.spec_table(),
    {
        set_max_level(initial_level);
        UnityRustLogger { app_prefix: app_name, logger: self }
    }
}

/// A logger for the `log` crate's macros that writes through the host.
#[derive(Debug)]
pub struct UnityRustLogger {
    pub app_prefix: Option<&'static str>,
    pub logger: UnityLogger,
}

/// The word that names a `log` level in front of a message; errors and
/// warnings carry none, since the host marks those itself.
pub open spec fn level_word(level: log::Level) -> Seq<char> {
    match level {
        log::Level::Error => seq![],
        log::Level::Warn => seq![],
        log::Level::Info => seq!['i', 'n', 'f', 'o'],
        log::Level::Debug => seq!['d', 'e', 'b', 'u', 'g'],
        log::Level::Trace => seq!['t', 'r', 'a', 'c', 'e'],
    }
}

/// Whether a head (prefix or level word) is set off from the message by `": "`.
pub open spec fn needs_colons(app_prefix: Option<Seq<char>>, level: log::Level) -> bool {
    app_prefix is Some || level_word(level).len() > 0
}

/// The text of a log line: the trimmed head made of the application prefix
/// and the level word, then `": "` where a head is owed, then the message.
pub open spec fn log_body(app_prefix: Option<Seq<char>>, level: log::Level, args: Seq<char>) -> Seq<char> {
    let app = match app_prefix {
        Some(p) => p,
        None => Seq::empty(),
    };
    trimmed(app + seq![' '] + level_word(level)) + (if needs_colons(app_prefix, level) {
        seq![':', ' ']
    } else {
        Seq::empty()
    }) + args
}

/// The text a `&'static str` option stands for in a log line.
pub open spec fn prefix_view(p: Option<&'static str>) -> Option<Seq<char>> {
    match p {
        Some(s) => Some(s@),
        None => None,
    }
}

impl UnityRustLogger {
    /// The text of the host log line for a record of `level` whose formatted
    /// arguments are `args`.
    pub fn format_log_body(&self, level: log::Level, args: &str) -> (r: String)
        ensures
            r@ == log_body(prefix_view(self.app_prefix), level, args@),
    {
        let word: &str = match level {
            log::Level::Error => "",
            log::Level::Warn => "",
            log::Level::Info => "info",
            log::Level::Debug => "debug",
            log::Level::Trace => "trace",
        };
        proof {
            reveal_strlit("");
            reveal_strlit("info");
            reveal_strlit("debug");
            reveal_strlit("trace");
            reveal_strlit(" ");
            reveal_strlit(": ");
        }
        assert(word@ == level_word(level));
        let app: &str = match self.app_prefix {
            Some(p) => p,
            None => "",
        };
        let head = app.to_owned().concat(" ").concat(word);
        assert(head@ == app@ + seq![' '] + level_word(level));
        let mut body = trim_str(head.as_str());
        assert(body@ == trimmed(app@ + seq![' '] + level_word(level)));
        let has_word = match level {
            log::Level::Error => false,
            log::Level::Warn => false,
            _ => true,
        };
        let colons = self.app_prefix.is_some() || has_word;
        if colons {
            body = body.concat(": ");
        }
        body.concat(args)
    }
}

} // verus!
