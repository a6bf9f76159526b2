//! The configuration grammar: one device binding per non-blank line,
//! whitespace-separated fields. Parsing is pure; reading the file and
//! loading the named libraries are the host's business.

pub mod try_parse;

use vstd::prelude::*;

use try_parse::{spec_try_parse_number, try_parse_number, NumberParseError};

verus! {

/// Where a parsed device binds: a range of the address space, or one port.
#[derive(Debug, Clone, Copy, PartialEq, Eq, Structural)]
pub enum DeviceType {
    AddressBus { start_address: u64, length: u64 },
    PortBus(u16),
}

impl DeviceType {
    /// A binding to `[start_address, start_address + length)`.
    pub fn new_address_device(start_address: u64, length: u64) -> (r: DeviceType)
        ensures
            r == (DeviceType::AddressBus { start_address, length }),
    {
        DeviceType::AddressBus { start_address, length }
    }

    /// A binding to one port.
    pub fn new_port_device(port: u16) -> (r: DeviceType)
        ensures
            r == DeviceType::PortBus(port),
    {
        DeviceType::PortBus(port)
    }
}

/// What medium holds the device's code.
#[derive(Debug, Clone, Copy, PartialEq, Eq, Structural)]
pub enum LibraryType {
    /// A native shared object.
    SharedLibrary,
    /// A Python module; parsed, though no host here runs one.
    Python,
}

/// The library kind a field names, if any.
pub open spec fn spec_library_type(s: Seq<char>) -> Result<LibraryType, ()> {
    if s == "library"@ {
        Ok(LibraryType::SharedLibrary)
    } else if s == "python"@ {
        Ok(LibraryType::Python)
    } else {
        Err(())
    }
}

impl LibraryType {
    /// The library kind a field names, if any.
    pub fn try_from_str(value: &str) -> (r: Result<LibraryType, ()>)
        ensures
            r == spec_library_type(value@),
    {
        if str_eq(value, "library") {
            Ok(LibraryType::SharedLibrary)
        } else if str_eq(value, "python") {
            Ok(LibraryType::Python)
        } else {
            Err(())
        }
    }
}

/// Why a configuration text was rejected, and on which line.
#[derive(Debug, Clone, Copy, PartialEq, Eq, Structural)]
pub struct ConfigError {
    pub line_number: usize,
    pub kind: ConfigErrorKind,
}

/// The ways one configuration line can be bad.
#[derive(Debug, Clone, Copy, PartialEq, Eq, Structural)]
pub enum ConfigErrorKind {
    /// The first field names no known device kind.
    UnknownDeviceType,
    /// The line has the wrong number of fields for its device kind.
    WrongFieldCount,
    /// The library kind field names no known kind.
    UnknownLibraryType,
    /// A numeric field does not parse.
    InvalidNumber(NumberParseError),
    /// A port number above the port space.
    PortTooLarge,
}

/// One parsed configuration line.
#[derive(Debug)]
pub struct ConfigEntry {
    pub library_path: String,
    pub module_name: String,
    pub device_type: DeviceType,
    pub library_type: LibraryType,
    pub line_number: usize,
}

/// The ghost shape of a parsed line.
pub struct ConfigEntryView {
    pub library_path: Seq<char>,
    pub module_name: Seq<char>,
    pub device_type: DeviceType,
    pub library_type: LibraryType,
    pub line_number: usize,
}

impl View for ConfigEntry {
    type V = ConfigEntryView;

    open spec fn view(&self) -> ConfigEntryView {
        ConfigEntryView {
            library_path: self.library_path@,
            module_name: self.module_name@,
            device_type: self.device_type,
            library_type: self.library_type,
            line_number: self.line_number,
        }
    }
}

impl ConfigEntry {
    /// A parsed line from its fields.
    pub fn new(
        library_path: String,
        module_name: String,
        line_number: usize,
        device_type: DeviceType,
        library_type: LibraryType,
    ) -> (r: ConfigEntry)
        ensures
            r@ == (ConfigEntryView {
                library_path: library_path@,
                module_name: module_name@,
                device_type,
                library_type,
                line_number,
            }),
    {
        ConfigEntry { library_path, module_name, device_type, library_type, line_number }
    }
}

/// The views of a run of parsed lines.
pub open spec fn entries_view(entries: Seq<ConfigEntry>) -> Seq<ConfigEntryView> {
    Seq::new(entries.len(), |i: int| entries[i]@)
}

/// A parsed configuration: the bindings its lines name, in order.
#[derive(Debug)]
pub struct Config {
    entries: Vec<ConfigEntry>,
}

impl View for Config {
    type V = Seq<ConfigEntryView>;

    closed spec fn view(&self) -> Seq<ConfigEntryView> {
        entries_view(self.entries@)
    }
}

impl Config {
    /// The bindings the configuration names, in order of their lines.
    pub fn entries(&self) -> (r: &Vec<ConfigEntry>)
        ensures
            entries_view(r@) == self@,
    {
        &self.entries
    }
}

/// The characters that separate fields: ASCII whitespace.
pub open spec fn is_config_space(c: char) -> bool {
    c == ' ' || c == '\t' || c == '\n' || c == '\x0c' || c == '\r'
}

/// The end of the field starting at `i`: the first separator at or after
/// it, or the end of the text.
pub open spec fn token_end(s: Seq<char>, i: int) -> int
    decreases s.len() - i,
{
    if i < 0 || i >= s.len() || is_config_space(s[i]) {
        i
    } else {
        token_end(s, i + 1)
    }
}

/// The fields of `s` from position `i` on, in order.
pub open spec fn spec_tokens_from(s: Seq<char>, i: int) -> Seq<Seq<char>>
    decreases s.len() - i,
{
    if i < 0 || i >= s.len() {
        Seq::empty()
    } else if is_config_space(s[i]) {
        spec_tokens_from(s, i + 1)
    } else {
        let e = token_end(s, i);
        let e2 = if e < i + 1 {
            i + 1
        } else if e > s.len() {
            s.len() as int
        } else {
            e
        };
        seq![s.subrange(i, e2)] + spec_tokens_from(s, e2)
    }
}

/// The whitespace-separated fields of `s`, in order.
pub open spec fn spec_tokens(s: Seq<char>) -> Seq<Seq<char>> {
    spec_tokens_from(s, 0)
}

/// The end of the line starting at `i`: the first newline at or after it,
/// or the end of the text.
pub open spec fn line_end(s: Seq<char>, i: int) -> int
    decreases s.len() - i,
{
    if i < 0 || i >= s.len() || s[i] == '\n' {
        i
    } else {
        line_end(s, i + 1)
    }
}

/// Whether two strings hold the same characters.
fn str_eq(a: &str, b: &str) -> (r: bool)
    ensures
        r == (a@ == b@),
{
    let n = a.unicode_len();
    let m = b.unicode_len();
    if n != m {
        return false;
    }
    let mut i: usize = 0;
    while i < n
        invariant
            i <= n,
            n == a@.len(),
            n == b@.len(),
            forall|k: int| 0 <= k < i ==> a@[k] == b@[k],
        decreases n - i,
    {
        if a.get_char(i) != b.get_char(i) {
            return false;
        }
        i = i + 1;
    }
    proof {
        assert(a@ =~= b@);
    }
    true
}

/// Marching right over non-separators lands exactly on the field's end.
proof fn lemma_token_end_is(s: Seq<char>, i: int, j: int)
    requires
        0 <= i <= j <= s.len(),
        forall|k: int| i <= k < j ==> !is_config_space(s[k]),
        j == s.len() || is_config_space(s[j]),
    ensures
        token_end(s, i) == j,
    decreases j - i,
{
    if i < j {
        lemma_token_end_is(s, i + 1, j);
    }
}

/// Marching right over non-newlines lands exactly on the line's end.
proof fn lemma_line_end_is(s: Seq<char>, i: int, j: int)
    requires
        0 <= i <= j <= s.len(),
        forall|k: int| i <= k < j ==> s[k] != '\n',
        j == s.len() || s[j] == '\n',
    ensures
        line_end(s, i) == j,
    decreases j - i,
{
    if i < j {
        lemma_line_end_is(s, i + 1, j);
    }
}

/// The whitespace-separated fields of `line`, in order.
fn tokenize<'a>(line: &'a str) -> (r: Vec<&'a str>)
    ensures
        r.deep_view() == spec_tokens(line@),
{
    let n = line.unicode_len();
    let mut r: Vec<&'a str> = Vec::new();
    let mut i: usize = 0;
    while i < n
        invariant
            i <= n,
            n == line@.len(),
            spec_tokens(line@) == r.deep_view() + spec_tokens_from(line@, i as int),
        decreases n - i,
    {
        let c = line.get_char(i);
        if c == ' ' || c == '\t' || c == '\n' || c == '\x0c' || c == '\r' {
            i = i + 1;
        } else {
            let mut j = i + 1;
            while j < n && !is_space_at(line, j)
                invariant
                    i < j <= n,
                    n == line@.len(),
                    forall|k: int| i <= k < j ==> !is_config_space(line@[k]),
                decreases n - j,
            {
                j = j + 1;
            }
            let token = line.substring_char(i, j);
            r.push(token);
            proof {
                lemma_token_end_is(line@, i as int, j as int);
                assert(r.deep_view() =~= r.deep_view().subrange(
                    0,
                    r.deep_view().len() - 1,
                ).push(token@));
            }
            i = j;
        }
    }
    proof {
        assert(spec_tokens(line@) =~= r.deep_view());
    }
    r
}

/// Whether the character at `i` separates fields.
fn is_space_at(s: &str, i: usize) -> (r: bool)
    requires
        i < s@.len(),
    ensures
        r == is_config_space(s@[i as int]),
{
    let c = s.get_char(i);
    c == ' ' || c == '\t' || c == '\n' || c == '\x0c' || c == '\r'
}

/// What an `address-device` line means, from its five fields after the
/// keyword.
pub open spec fn spec_parse_address_device_line(
    library_type: Seq<char>,
    library_path: Seq<char>,
    line_number: usize,
    start_address: Seq<char>,
    length: Seq<char>,
    module_name: Seq<char>,
) -> Result<ConfigEntryView, ConfigError> {
    match spec_library_type(library_type) {
        Err(_) => Err(
            ConfigError { line_number, kind: ConfigErrorKind::UnknownLibraryType },
        ),
        Ok(lt) => match spec_try_parse_number(start_address) {
            Err(e) => Err(ConfigError { line_number, kind: ConfigErrorKind::InvalidNumber(e) }),
            Ok(start) => match spec_try_parse_number(length) {
                Err(e) => Err(
                    ConfigError { line_number, kind: ConfigErrorKind::InvalidNumber(e) },
                ),
                Ok(len) => Ok(
                    ConfigEntryView {
                        library_path,
                        module_name,
                        device_type: DeviceType::AddressBus {
                            start_address: start,
                            length: len,
                        },
                        library_type: lt,
                        line_number,
                    },
                ),
            },
        },
    }
}

/// What a `port-device` line means, from its four fields after the
/// keyword.
pub open spec fn spec_parse_port_bus_line(
    library_type: Seq<char>,
    library_path: Seq<char>,
    line_number: usize,
    port: Seq<char>,
    module_name: Seq<char>,
) -> Result<ConfigEntryView, ConfigError> {
    match spec_library_type(library_type) {
        Err(_) => Err(
            ConfigError { line_number, kind: ConfigErrorKind::UnknownLibraryType },
        ),
        Ok(lt) => match spec_try_parse_number(port) {
            Err(e) => Err(ConfigError { line_number, kind: ConfigErrorKind::InvalidNumber(e) }),
            Ok(p) => if p > 0xffff {
                Err(ConfigError { line_number, kind: ConfigErrorKind::PortTooLarge })
            } else {
                Ok(
                    ConfigEntryView {
                        library_path,
                        module_name,
                        device_type: DeviceType::PortBus(p as u16),
                        library_type: lt,
                        line_number,
                    },
                )
            },
        },
    }
}

/// What one non-blank line means.
pub open spec fn spec_parse_config_line(line: Seq<char>, line_number: usize) -> Result<
    ConfigEntryView,
    ConfigError,
> {
    let ts = spec_tokens(line);
    if ts.len() == 0 {
        Err(ConfigError { line_number, kind: ConfigErrorKind::UnknownDeviceType })
    } else if ts[0] == "address-device"@ {
        if ts.len() == 6 {
            spec_parse_address_device_line(ts[1], ts[2], line_number, ts[3], ts[4], ts[5])
        } else {
            Err(ConfigError { line_number, kind: ConfigErrorKind::WrongFieldCount })
        }
    } else if ts[0] == "port-device"@ {
        if ts.len() == 5 {
            spec_parse_port_bus_line(ts[1], ts[2], line_number, ts[3], ts[4])
        } else {
            Err(ConfigError { line_number, kind: ConfigErrorKind::WrongFieldCount })
        }
    } else {
        Err(ConfigError { line_number, kind: ConfigErrorKind::UnknownDeviceType })
    }
}

/// What the text from position `i` on means, its first line numbered
/// `line_number`: the entries of its non-blank lines in order, or the
/// first line's error.
pub open spec fn spec_parse_config_from(s: Seq<char>, i: int, line_number: usize) -> Result<
    Seq<ConfigEntryView>,
    ConfigError,
>
    decreases s.len() + 1 - i,
{
    if i < 0 || i >= s.len() {
        Ok(Seq::empty())
    } else {
        let e = line_end(s, i);
        let e2 = if e < i {
            i
        } else if e > s.len() {
            s.len() as int
        } else {
            e
        };
        let line = s.subrange(i, e2);
        let rest = spec_parse_config_from(
            s,
            e2 + 1,
            if line_number < usize::MAX {
                (line_number + 1) as usize
            } else {
                line_number
            },
        );
        if spec_tokens(line).len() == 0 {
            rest
        } else {
            match spec_parse_config_line(line, line_number) {
                Err(err) => Err(err),
                Ok(v) => match rest {
                    Err(err) => Err(err),
                    Ok(tail) => Ok(seq![v] + tail),
                },
            }
        }
    }
}

/// What a whole configuration text means.
pub open spec fn spec_parse_config(s: Seq<char>) -> Result<Seq<ConfigEntryView>, ConfigError> {
    spec_parse_config_from(s, 0, 1)
}

/// A parse result with its entry replaced by the entry's ghost shape.
pub open spec fn entry_result_view(r: Result<ConfigEntry, ConfigError>) -> Result<
    ConfigEntryView,
    ConfigError,
> {
    match r {
        Ok(e) => Ok(e@),
        Err(err) => Err(err),
    }
}

/// A parse result with its configuration replaced by the entries' shapes.
pub open spec fn config_result_view(r: Result<Config, ConfigError>) -> Result<
    Seq<ConfigEntryView>,
    ConfigError,
> {
    match r {
        Ok(c) => Ok(c@),
        Err(err) => Err(err),
    }
}

impl Config {
    /// Parse the five fields of an `address-device` line after its keyword.
    pub fn parse_address_device_line(
        library_type: &str,
        library_path: &str,
        line_number: usize,
        start_address: &str,
        length: &str,
        module_name: &str,
    ) -> (r: Result<ConfigEntry, ConfigError>)
        ensures
            entry_result_view(r) == spec_parse_address_device_line(
                library_type@,
                library_path@,
                line_number,
                start_address@,
                length@,
                module_name@,
            ),
    {
        let library_type = match LibraryType::try_from_str(library_type) {
            Ok(lib) => lib,
            Err(_) => {
                return Err(
                    ConfigError { line_number, kind: ConfigErrorKind::UnknownLibraryType },
                );
            },
        };
        let start_address = match try_parse_number(start_address) {
            Ok(addr) => addr,
            Err(e) => {
                return Err(ConfigError { line_number, kind: ConfigErrorKind::InvalidNumber(e) });
            },
        };
        let length = match try_parse_number(length) {
            Ok(len) => len,
            Err(e) => {
                return Err(ConfigError { line_number, kind: ConfigErrorKind::InvalidNumber(e) });
            },
        };
        Ok(
            ConfigEntry::new(
                library_path.to_owned(),
                module_name.to_owned(),
                line_number,
                DeviceType::new_address_device(start_address, length),
                library_type,
            ),
        )
    }

    /// Parse the four fields of a `port-device` line after its keyword.
    pub fn parse_port_bus_line(
        library_type: &str,
        library_path: &str,
        line_number: usize,
        port: &str,
        module_name: &str,
    ) -> (r: Result<ConfigEntry, ConfigError>)
        ensures
            entry_result_view(r) == spec_parse_port_bus_line(
                library_type@,
                library_path@,
                line_number,
                port@,
                module_name@,
            ),
    {
        let library_type = match LibraryType::try_from_str(library_type) {
            Ok(lib) => lib,
            Err(_) => {
                return Err(
                    ConfigError { line_number, kind: ConfigErrorKind::UnknownLibraryType },
                );
            },
        };
        let port: u64 = match try_parse_number(port) {
            Ok(p) => p,
            Err(e) => {
                return Err(ConfigError { line_number, kind: ConfigErrorKind::InvalidNumber(e) });
            },
        };
        if port > 0xffff {
            return Err(ConfigError { line_number, kind: ConfigErrorKind::PortTooLarge });
        }
        Ok(
            ConfigEntry::new(
                library_path.to_owned(),
                module_name.to_owned(),
                line_number,
                DeviceType::new_port_device(port as u16),
                library_type,
            ),
        )
    }

    /// Parse one non-blank line.
    pub fn parse_config_line(line: &str, line_number: usize) -> (r: Result<
        ConfigEntry,
        ConfigError,
    >)
        ensures
            entry_result_view(r) == spec_parse_config_line(line@, line_number),
    {
        let split = tokenize(line);
        if split.len() == 0 {
            return Err(ConfigError { line_number, kind: ConfigErrorKind::UnknownDeviceType });
        }
        proof {
            assert forall|k: int| 0 <= k < split@.len() implies split.deep_view()[k] == (
            #[trigger] split@[k])@ by {}
        }
        if str_eq(split[0], "address-device") {
            if split.len() == 6 {
                Self::parse_address_device_line(
                    split[1],
                    split[2],
                    line_number,
                    split[3],
                    split[4],
                    split[5],
                )
            } else {
                Err(ConfigError { line_number, kind: ConfigErrorKind::WrongFieldCount })
            }
        } else if str_eq(split[0], "port-device") {
            if split.len() == 5 {
                Self::parse_port_bus_line(split[1], split[2], line_number, split[3], split[4])
            } else {
                Err(ConfigError { line_number, kind: ConfigErrorKind::WrongFieldCount })
            }
        } else {
            Err(ConfigError { line_number, kind: ConfigErrorKind::UnknownDeviceType })
        }
    }

    /// Parse a whole configuration text: the entries of its non-blank
    /// lines in order, or the first error with its line number.
    pub fn parse_config(config: &str) -> (r: Result<Config, ConfigError>)
        ensures
            config_result_view(r) == spec_parse_config(config@),
    {
        let n = config.unicode_len();
        let mut entries: Vec<ConfigEntry> = Vec::new();
        let mut i: usize = 0;
        let mut line_number: usize = 1;
        while i < n
            invariant
                i <= n,
                n == config@.len(),
                line_number >= 1,
                i + 1 >= line_number,
                spec_parse_config(config@) == (match spec_parse_config_from(
                    config@,
                    i as int,
                    line_number,
                ) {
                    Ok(tail) => Ok(entries_view(entries@) + tail),
                    Err(err) => Err::<Seq<ConfigEntryView>, ConfigError>(err),
                }),
            decreases n - i,
        {
            let mut j = i;
            while j < n && config.get_char(j) != '\n'
                invariant
                    i <= j <= n,
                    n == config@.len(),
                    forall|k: int| i <= k < j ==> config@[k] != '\n',
                decreases n - j,
            {
                j = j + 1;
            }
            let line = config.substring_char(i, j);
            proof {
                lemma_line_end_is(config@, i as int, j as int);
            }
            let ghost old_entries = entries@;
            let ghost next_line_number: usize = if line_number < usize::MAX {
                (line_number + 1) as usize
            } else {
                line_number
            };
            let toks = tokenize(line);
            if toks.len() > 0 {
                match Self::parse_config_line(line, line_number) {
                    Ok(entry) => {
                        entries.push(entry);
                        proof {
                            let rest = spec_parse_config_from(
                                config@,
                                j as int + 1,
                                next_line_number,
                            );
                            match rest {
                                Ok(tail) => {
                                    assert(entries_view(entries@) + tail =~= entries_view(
                                        old_entries,
                                    ) + (seq![entry@] + tail));
                                },
                                Err(_) => {},
                            }
                        }
                    },
                    Err(err) => {
                        return Err(err);
                    },
                }
            }
            if j < n {
                i = j + 1;
            } else {
                i = n;
                proof {
                    assert(spec_parse_config_from(config@, n as int, next_line_number)
                        == spec_parse_config_from(config@, j as int + 1, next_line_number));
                }
            }
            line_number = if line_number < usize::MAX {
                line_number + 1
            } else {
                line_number
            };
        }
        proof {
            assert(spec_parse_config_from(config@, i as int, line_number) == Ok::<
                Seq<ConfigEntryView>,
                ConfigError,
            >(Seq::empty()));
            assert(entries_view(entries@) + Seq::<ConfigEntryView>::empty() =~= entries_view(
                entries@,
            ));
        }
        Ok(Config { entries })
    }
}

} // verus!
