//! Device configuration and the grammar of the strings that describe it:
//! `physical_path "::" virtual_name ("::" key "=" value)*`.

use vstd::prelude::*;
use vstd::string::*;

verus! {

/// How one SPI device is opened and under which name the guest sees it.
#[derive(Clone, Debug)]
pub struct SpiDeviceConfig {
    pub physical_path: String,
    pub virtual_name: String,
    pub max_speed_hz: u32,
    /// The SPI mode, 0 to 3.
    pub mode: u8,
    pub lsb_first: bool,
    pub bits_per_word: u8,
}

/// The mathematical value of a [`SpiDeviceConfig`].
pub ghost struct ConfigView {
    pub physical_path: Seq<char>,
    pub virtual_name: Seq<char>,
    pub max_speed_hz: u32,
    pub mode: u8,
    pub lsb_first: bool,
    pub bits_per_word: u8,
}

impl View for SpiDeviceConfig {
    type V = ConfigView;

    open spec fn view(&self) -> ConfigView {
        ConfigView {
            physical_path: self.physical_path@,
            virtual_name: self.virtual_name@,
            max_speed_hz: self.max_speed_hz,
            mode: self.mode,
            lsb_first: self.lsb_first,
            bits_per_word: self.bits_per_word,
        }
    }
}

/// The configuration of a device of which only path and name are known:
/// 1 MHz, mode 0, most significant bit first, words of 8 bits.
pub open spec fn default_config(physical_path: Seq<char>, virtual_name: Seq<char>) -> ConfigView {
    ConfigView {
        physical_path,
        virtual_name,
        max_speed_hz: 1_000_000,
        mode: 0,
        lsb_first: false,
        bits_per_word: 8,
    }
}

impl Default for SpiDeviceConfig {
    fn default() -> (config: Self)
        ensures
            config@ == default_config(Seq::empty(), Seq::empty()),
    {
        SpiDeviceConfig {
            physical_path: String::new(),
            virtual_name: String::new(),
            max_speed_hz: 1_000_000,
            mode: 0,
            lsb_first: false,
            bits_per_word: 8,
        }
    }
}

/// Why a configuration string was refused.
#[derive(Clone, Copy, Debug, PartialEq, Eq, Structural)]
pub enum ConfigError {
    /// The string does not hold a path and a name.
    InvalidFormat,
    /// The value of `speed` is no number that fits 32 bits.
    InvalidSpeed,
    /// The value of `mode` is no number from 0 to 3.
    InvalidMode,
    /// The value of `lsb` is neither `true` nor `false`.
    InvalidLsb,
    /// The value of `bits` is no number that fits 8 bits.
    InvalidBits,
}

impl ConfigError {
    /// The error in words.
    pub fn message(&self) -> (text: &'static str)
        ensures
            text@ == match *self {
                ConfigError::InvalidFormat => "Invalid format. Expected 'path::name[::options]'"@,
                ConfigError::InvalidSpeed => "Invalid speed"@,
                ConfigError::InvalidMode => "Invalid mode"@,
                ConfigError::InvalidLsb => "Invalid lsb bool"@,
                ConfigError::InvalidBits => "Invalid bits"@,
            },
    {
        match self {
            ConfigError::InvalidFormat => "Invalid format. Expected 'path::name[::options]'",
            ConfigError::InvalidSpeed => "Invalid speed",
            ConfigError::InvalidMode => "Invalid mode",
            ConfigError::InvalidLsb => "Invalid lsb bool",
            ConfigError::InvalidBits => "Invalid bits",
        }
    }
}

/// Whether `sep` stands in `s` at position `at`.
pub open spec fn occurs_at(s: Seq<char>, sep: Seq<char>, at: int) -> bool {
    &&& 0 <= at
    &&& at + sep.len() <= s.len()
    &&& s.subrange(at, at + sep.len()) == sep
}

/// The first position from `from` on at which `sep` stands in `s`; the
/// length of `s` where there is none.
pub open spec fn find(s: Seq<char>, sep: Seq<char>, from: int) -> int
    decreases s.len() - from,
{
    if from < 0 || from >= s.len() {
        s.len() as int
    } else if occurs_at(s, sep, from) {
        from
    } else {
        find(s, sep, from + 1)
    }
}

/// The pieces of `s` from `from` on that lie between the occurrences of
/// `sep`, found from left to right without overlap.
pub open spec fn split_from(s: Seq<char>, sep: Seq<char>, from: int) -> Seq<Seq<char>>
    decreases s.len() - from,
{
    if sep.len() == 0 || from < 0 || from > s.len() {
        Seq::empty()
    } else {
        let at = find(s, sep, from);
        if at < from || !occurs_at(s, sep, at) {
            seq![s.subrange(from, s.len() as int)]
        } else {
            seq![s.subrange(from, at)] + split_from(s, sep, at + sep.len())
        }
    }
}

/// The pieces of `s` between the occurrences of `sep`.
pub open spec fn split(s: Seq<char>, sep: Seq<char>) -> Seq<Seq<char>> {
    split_from(s, sep, 0)
}

/// The separator of the fields of a configuration string.
pub open spec fn field_separator() -> Seq<char> {
    seq![':', ':']
}

/// The separator of key and value within an option.
pub open spec fn value_separator() -> Seq<char> {
    seq!['=']
}

/// Whether `c` is a decimal digit.
pub open spec fn is_digit(c: char) -> bool {
    '0' <= c && c <= '9'
}

/// The number that a string of decimal digits denotes.
pub open spec fn decimal_value(digits: Seq<char>) -> nat
    decreases digits.len(),
{
    if digits.len() == 0 {
        0
    } else {
        decimal_value(digits.drop_last()) * 10 + (digits.last() as u32 - '0' as u32) as nat
    }
}

/// Whether `s` holds decimal digits and nothing else.
pub open spec fn all_digits(s: Seq<char>) -> bool {
    forall|i: int| 0 <= i < s.len() ==> is_digit(#[trigger] s[i])
}

/// `s` without the plus sign that may stand before a number.
pub open spec fn unsigned(s: Seq<char>) -> Seq<char> {
    if s.len() > 0 && s[0] == '+' {
        s.skip(1)
    } else {
        s
    }
}

/// The number that `s` denotes if it is one of at most `max`: decimal
/// digits, at least one, with or without a plus sign before them.
pub open spec fn parsed_number(s: Seq<char>, max: nat) -> Option<nat> {
    let digits = unsigned(s);
    if digits.len() > 0 && all_digits(digits) && decimal_value(digits) <= max {
        Some(decimal_value(digits))
    } else {
        None
    }
}

/// The truth value that `s` denotes: `true` or `false`, nothing else.
pub open spec fn parsed_bool(s: Seq<char>) -> Option<bool> {
    if s == seq!['t', 'r', 'u', 'e'] {
        Some(true)
    } else if s == seq!['f', 'a', 'l', 's', 'e'] {
        Some(false)
    } else {
        None
    }
}

/// The keys that an option may have.
#[derive(Clone, Copy, Debug, PartialEq, Eq, Structural)]
pub enum ConfigKey {
    Speed,
    Mode,
    Lsb,
    Bits,
    Unknown,
}

/// The key that `s` names.
pub open spec fn key_of(s: Seq<char>) -> ConfigKey {
    if s == seq!['s', 'p', 'e', 'e', 'd'] {
        ConfigKey::Speed
    } else if s == seq!['m', 'o', 'd', 'e'] {
        ConfigKey::Mode
    } else if s == seq!['l', 's', 'b'] {
        ConfigKey::Lsb
    } else if s == seq!['b', 'i', 't', 's'] {
        ConfigKey::Bits
    } else {
        ConfigKey::Unknown
    }
}

/// What one option of a configuration string says.
#[derive(Debug)]
pub enum Setting {
    Speed(u32),
    Mode(u8),
    LsbFirst(bool),
    BitsPerWord(u8),
    /// A key that is not known, with some value.
    Unknown(String),
    /// Not one key with one value.
    Ignored,
}

/// The mathematical value of a [`Setting`].
pub ghost enum SettingView {
    Speed(u32),
    Mode(u8),
    LsbFirst(bool),
    BitsPerWord(u8),
    Unknown(Seq<char>),
    Ignored,
}

impl View for Setting {
    type V = SettingView;

    open spec fn view(&self) -> SettingView {
        match *self {
            Setting::Speed(hz) => SettingView::Speed(hz),
            Setting::Mode(mode) => SettingView::Mode(mode),
            Setting::LsbFirst(lsb) => SettingView::LsbFirst(lsb),
            Setting::BitsPerWord(bits) => SettingView::BitsPerWord(bits),
            Setting::Unknown(key) => SettingView::Unknown(key@),
            Setting::Ignored => SettingView::Ignored,
        }
    }
}

/// What the option `option` says: nothing unless it is one key and one
/// value; an error where the key is known and the value is not one of its.
pub open spec fn read_option(option: Seq<char>) -> Result<SettingView, ConfigError> {
    let pieces = split(option, value_separator());
    if pieces.len() != 2 {
        Ok(SettingView::Ignored)
    } else {
        let value = pieces[1];
        match key_of(pieces[0]) {
            ConfigKey::Speed => match parsed_number(value, u32::MAX as nat) {
                Some(n) => Ok(SettingView::Speed(n as u32)),
                None => Err(ConfigError::InvalidSpeed),
            },
            ConfigKey::Mode => match parsed_number(value, 3) {
                Some(n) => Ok(SettingView::Mode(n as u8)),
                None => Err(ConfigError::InvalidMode),
            },
            ConfigKey::Lsb => match parsed_bool(value) {
                Some(b) => Ok(SettingView::LsbFirst(b)),
                None => Err(ConfigError::InvalidLsb),
            },
            ConfigKey::Bits => match parsed_number(value, u8::MAX as nat) {
                Some(n) => Ok(SettingView::BitsPerWord(n as u8)),
                None => Err(ConfigError::InvalidBits),
            },
            ConfigKey::Unknown => Ok(SettingView::Unknown(pieces[0])),
        }
    }
}

/// What a setting makes of a configuration.
pub open spec fn with_setting(config: ConfigView, setting: SettingView) -> ConfigView {
    match setting {
        SettingView::Speed(hz) => ConfigView { max_speed_hz: hz, ..config },
        SettingView::Mode(mode) => ConfigView { mode, ..config },
        SettingView::LsbFirst(lsb) => ConfigView { lsb_first: lsb, ..config },
        SettingView::BitsPerWord(bits) => ConfigView { bits_per_word: bits, ..config },
        _ => config,
    }
}

/// What the options `fields[from..]` make of a configuration, applied from
/// left to right up to the first that is refused.
pub open spec fn with_options(config: ConfigView, fields: Seq<Seq<char>>, from: int) -> Result<
    ConfigView,
    ConfigError,
>
    decreases fields.len() - from,
{
    if from < 0 || from >= fields.len() {
        Ok(config)
    } else {
        match read_option(fields[from]) {
            Ok(setting) => with_options(with_setting(config, setting), fields, from + 1),
            Err(e) => Err(e),
        }
    }
}

/// The keys among the options `fields[from..]` that are not known, from
/// left to right up to the first option that is refused.
pub open spec fn unknown_keys(fields: Seq<Seq<char>>, from: int) -> Seq<Seq<char>>
    decreases fields.len() - from,
{
    if from < 0 || from >= fields.len() {
        Seq::empty()
    } else {
        match read_option(fields[from]) {
            Ok(SettingView::Unknown(key)) => seq![key] + unknown_keys(fields, from + 1),
            Ok(_) => unknown_keys(fields, from + 1),
            Err(_) => Seq::empty(),
        }
    }
}

/// The configuration that the string `s` describes.
pub open spec fn parsed_config(s: Seq<char>) -> Result<ConfigView, ConfigError> {
    let fields = split(s, field_separator());
    if fields.len() < 2 {
        Err(ConfigError::InvalidFormat)
    } else {
        with_options(default_config(fields[0], fields[1]), fields, 2)
    }
}

/// The keys of the string `s` that are to be warned of.
pub open spec fn parsed_warnings(s: Seq<char>) -> Seq<Seq<char>> {
    unknown_keys(split(s, field_separator()), 2)
}

/// The contents of a list of strings, in order.
pub open spec fn strings_view(strings: Seq<String>) -> Seq<Seq<char>> {
    Seq::new(strings.len(), |i: int| strings[i]@)
}

/// The value of what parsing returns.
pub open spec fn config_view(res: Result<SpiDeviceConfig, ConfigError>) -> Result<
    ConfigView,
    ConfigError,
> {
    match res {
        Ok(config) => Ok(config@),
        Err(e) => Err(e),
    }
}

/// The contents of a list of pieces, in order.
pub open spec fn pieces_view(pieces: Seq<Vec<char>>) -> Seq<Seq<char>> {
    Seq::new(pieces.len(), |i: int| pieces[i]@)
}

/// The characters of `s`.
pub fn chars_of(s: &str) -> (chars: Vec<char>)
    ensures
        chars@ == s@,
{
    let n = s.unicode_len();
    let mut chars: Vec<char> = Vec::with_capacity(n);
    let mut i: usize = 0;
    while i < n
        invariant
            i <= n,
            n == s@.len(),
            chars@ == s@.take(i as int),
        decreases n - i,
    {
        chars.push(s.get_char(i));
        i += 1;
    }
    chars
}

/// The string that holds `chars`.
pub fn string_of(chars: &Vec<char>) -> (s: String)
    ensures
        s@ == chars@,
{
    let mut s = String::new();
    let n = chars.len();
    let mut i: usize = 0;
    while i < n
        invariant
            i <= n,
            n == chars@.len(),
            s@ == chars@.take(i as int),
        decreases n - i,
    {
        push_char(&mut s, chars[i]);
        i += 1;
    }
    s
}

/// `String::push`: appends one character to the string.
#[verifier::external_body]
fn push_char(s: &mut String, c: char)
    ensures
        final(s)@ == old(s)@.push(c),
{
    s.push(c);
}

/// Tells whether `sep` stands in `s` at position `at`.
pub fn matches_at(s: &Vec<char>, sep: &Vec<char>, at: usize) -> (found: bool)
    ensures
        found == occurs_at(s@, sep@, at as int),
{
    let n = s.len();
    let m = sep.len();
    if m > n || at > n - m {
        return false;
    }
    let mut j: usize = 0;
    while j < m
        invariant
            j <= m,
            m == sep@.len(),
            n == s@.len(),
            at + m <= n,
            forall|k: int| 0 <= k < j ==> s@[at + k] == sep@[k],
        decreases m - j,
    {
        if s[at + j] != sep[j] {
            return false;
        }
        j += 1;
    }
    assert(s@.subrange(at as int, at + m) =~= sep@);
    true
}

/// Finds the first position from `from` on at which `sep` stands in `s`.
pub fn find_from(s: &Vec<char>, sep: &Vec<char>, from: usize) -> (at: usize)
    requires
        from <= s@.len(),
    ensures
        at == find(s@, sep@, from as int),
        from <= at <= s@.len(),
        at < s@.len() ==> occurs_at(s@, sep@, at as int),
{
    let n = s.len();
    let mut at = from;
    while at < n
        invariant
            from <= at <= n,
            n == s@.len(),
            find(s@, sep@, from as int) == find(s@, sep@, at as int),
        decreases n - at,
    {
        if matches_at(s, sep, at) {
            return at;
        }
        at += 1;
    }
    n
}

/// Copies the characters `s[from..to]`.
pub fn piece(s: &Vec<char>, from: usize, to: usize) -> (part: Vec<char>)
    requires
        from <= to <= s@.len(),
    ensures
        part@ == s@.subrange(from as int, to as int),
{
    let mut part: Vec<char> = Vec::with_capacity(to - from);
    let mut i = from;
    while i < to
        invariant
            from <= i <= to,
            to <= s@.len(),
            part@ == s@.subrange(from as int, i as int),
        decreases to - i,
    {
        part.push(s[i]);
        i += 1;
    }
    part
}

/// Splits `s` at every occurrence of `sep`, which is not empty.
pub fn split_at_each(s: &Vec<char>, sep: &Vec<char>) -> (pieces: Vec<Vec<char>>)
    requires
        sep@.len() > 0,
    ensures
        pieces_view(pieces@) == split(s@, sep@),
        pieces@.len() >= 1,
{
    let n = s.len();
    let m = sep.len();
    let mut pieces: Vec<Vec<char>> = Vec::new();
    let mut from: usize = 0;
    loop
        invariant
            from <= n,
            n == s@.len(),
            m == sep@.len(),
            m > 0,
            pieces_view(pieces@) + split_from(s@, sep@, from as int) == split(s@, sep@),
        decreases n - from,
    {
        let at = find_from(s, sep, from);
        pieces.push(piece(s, from, at));
        if at >= n {
            return pieces;
        }
        from = at + m;
    }
}

/// Reads `s` as a number of at most `max`.
pub fn parse_number(s: &Vec<char>, max: u32) -> (value: Option<u32>)
    ensures
        match parsed_number(s@, max as nat) {
            Some(n) => value == Some(n as u32),
            None => value is None,
        },
{
    let n = s.len();
    let start: usize = if n > 0 && s[0] == '+' {
        1
    } else {
        0
    };
    let ghost digits = unsigned(s@);
    if start == n {
        return None;
    }
    let mut acc: u64 = 0;
    let mut over = false;
    let mut i = start;
    while i < n
        invariant
            start <= i <= n,
            n == s@.len(),
            digits == s@.subrange(start as int, n as int),
            digits == unsigned(s@),
            forall|k: int| 0 <= k < i - start ==> is_digit(#[trigger] digits[k]),
            !over ==> acc == decimal_value(digits.take(i - start)) && acc <= max,
            over ==> decimal_value(digits.take(i - start)) > max,
        decreases n - i,
    {
        let c = s[i];
        if !('0' <= c && c <= '9') {
            assert(!is_digit(digits[i - start]));
            return None;
        }
        assert(digits.take(i - start + 1).drop_last() =~= digits.take(i - start));
        if !over {
            acc = acc * 10 + (c as u32 - '0' as u32) as u64;
            if acc > max as u64 {
                over = true;
            }
        }
        i += 1;
    }
    assert(digits.take(n - start) =~= digits);
    if over {
        None
    } else {
        Some(acc as u32)
    }
}

/// Reads `s` as a truth value.
pub fn parse_bool(s: &Vec<char>) -> (value: Option<bool>)
    ensures
        value == parsed_bool(s@),
{
    if s.len() == 4 && s[0] == 't' && s[1] == 'r' && s[2] == 'u' && s[3] == 'e' {
        assert(s@ =~= seq!['t', 'r', 'u', 'e']);
        Some(true)
    } else if s.len() == 5 && s[0] == 'f' && s[1] == 'a' && s[2] == 'l' && s[3] == 's' && s[4]
        == 'e' {
        assert(s@ =~= seq!['f', 'a', 'l', 's', 'e']);
        Some(false)
    } else {
        None
    }
}

/// Tells which key `s` names.
pub fn read_key(s: &Vec<char>) -> (key: ConfigKey)
    ensures
        key == key_of(s@),
{
    if s.len() == 5 && s[0] == 's' && s[1] == 'p' && s[2] == 'e' && s[3] == 'e' && s[4] == 'd' {
        assert(s@ =~= seq!['s', 'p', 'e', 'e', 'd']);
        ConfigKey::Speed
    } else if s.len() == 4 && s[0] == 'm' && s[1] == 'o' && s[2] == 'd' && s[3] == 'e' {
        assert(s@ =~= seq!['m', 'o', 'd', 'e']);
        ConfigKey::Mode
    } else if s.len() == 3 && s[0] == 'l' && s[1] == 's' && s[2] == 'b' {
        assert(s@ =~= seq!['l', 's', 'b']);
        ConfigKey::Lsb
    } else if s.len() == 4 && s[0] == 'b' && s[1] == 'i' && s[2] == 't' && s[3] == 's' {
        assert(s@ =~= seq!['b', 'i', 't', 's']);
        ConfigKey::Bits
    } else {
        ConfigKey::Unknown
    }
}

/// Reads one option.
pub fn parse_option(option: &Vec<char>) -> (res: Result<Setting, ConfigError>)
    ensures
        match res {
            Ok(setting) => read_option(option@) == Ok::<SettingView, ConfigError>(setting@),
            Err(e) => read_option(option@) == Err::<SettingView, ConfigError>(e),
        },
{
    let sep = vec!['='];
    assert(sep@ =~= value_separator());
    let pieces = split_at_each(option, &sep);
    if pieces.len() != 2 {
        return Ok(Setting::Ignored);
    }
    let value = &pieces[1];
    match read_key(&pieces[0]) {
        ConfigKey::Speed => match parse_number(value, u32::MAX) {
            Some(n) => Ok(Setting::Speed(n)),
            None => Err(ConfigError::InvalidSpeed),
        },
        ConfigKey::Mode => match parse_number(value, 3) {
            Some(n) => Ok(Setting::Mode(n as u8)),
            None => Err(ConfigError::InvalidMode),
        },
        ConfigKey::Lsb => match parse_bool(value) {
            Some(b) => Ok(Setting::LsbFirst(b)),
            None => Err(ConfigError::InvalidLsb),
        },
        ConfigKey::Bits => match parse_number(value, 255) {
            Some(n) => Ok(Setting::BitsPerWord(n as u8)),
            None => Err(ConfigError::InvalidBits),
        },
        ConfigKey::Unknown => Ok(Setting::Unknown(string_of(&pieces[0]))),
    }
}

impl SpiDeviceConfig {
    /// Takes a setting over; one that says nothing changes nothing.
    pub fn apply(&mut self, setting: &Setting)
        ensures
            final(self)@ == with_setting(old(self)@, setting@),
    {
        match setting {
            Setting::Speed(hz) => {
                self.max_speed_hz = *hz;
            },
            Setting::Mode(mode) => {
                self.mode = *mode;
            },
            Setting::LsbFirst(lsb) => {
                self.lsb_first = *lsb;
            },
            Setting::BitsPerWord(bits) => {
                self.bits_per_word = *bits;
            },
            _ => {},
        }
    }
}

/// Reads a configuration string, and gathers the keys that it does not
/// know: they are ignored, and the caller may warn of them.
pub fn parse_spi_config_verbose(s: &str) -> (res: (
    Result<SpiDeviceConfig, ConfigError>,
    Vec<String>,
))
    ensures
        config_view(res.0) == parsed_config(s@),
        strings_view(res.1@) == parsed_warnings(s@),
        res.0 matches Ok(config) ==> config.mode <= 3,
{
    let chars = chars_of(s);
    let sep = vec![':', ':'];
    let fields = split_at_each(&chars, &sep);
    let mut warnings: Vec<String> = Vec::new();
    let n = fields.len();
    if n < 2 {
        return (Err(ConfigError::InvalidFormat), warnings);
    }
    let ghost all = pieces_view(fields@);
    let mut config = SpiDeviceConfig {
        physical_path: string_of(&fields[0]),
        virtual_name: string_of(&fields[1]),
        max_speed_hz: 1_000_000,
        mode: 0,
        lsb_first: false,
        bits_per_word: 8,
    };
    let mut i: usize = 2;
    while i < n
        invariant
            2 <= i <= n,
            n == fields@.len(),
            all == pieces_view(fields@),
            all == split(s@, field_separator()),
            with_options(config@, all, i as int) == parsed_config(s@),
            strings_view(warnings@) + unknown_keys(all, i as int) == parsed_warnings(s@),
            config.mode <= 3,
        decreases n - i,
    {
        let ghost seen = strings_view(warnings@);
        match parse_option(&fields[i]) {
            Ok(setting) => {
                config.apply(&setting);
                if let Setting::Unknown(key) = setting {
                    warnings.push(key);
                    assert(seen + seq![key@] + unknown_keys(all, i + 1) =~= seen + (seq![key@]
                        + unknown_keys(all, i + 1)));
                }
            },
            Err(e) => {
                return (Err(e), warnings);
            },
        }
        i += 1;
    }
    (Ok(config), warnings)
}

/// Reads a configuration string.
pub fn parse_spi_config(s: &str) -> (res: Result<SpiDeviceConfig, ConfigError>)
    ensures
        config_view(res) == parsed_config(s@),
        res matches Ok(config) ==> config.mode <= 3,
{
    parse_spi_config_verbose(s).0
}

} // verus!
