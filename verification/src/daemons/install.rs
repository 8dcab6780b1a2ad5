//! Install artifacts of a freshly provisioned daemon: the per-platform
//! install commands, and the MSI filename that carries the daemon's
//! non-secret configuration.
use vstd::prelude::*;

use crate::text::{chars_of, decimal, decimal_string, has_char, is_ascii_alphanumeric, join, push_char, push_chars};

verus! {

broadcast use vstd::string::group_string_axioms;

/// How a daemon and the server reach each other.
#[derive(Debug, Clone, Copy, PartialEq, Eq, Structural, Hash)]
pub enum DaemonMode {
    /// The daemon dials the server.
    DaemonPoll,
    /// The server dials the daemon.
    ServerPoll,
}

impl DaemonMode {
    /// The mode's snake_case identifier, as the MSI filename and the
    /// daemon's configuration write it.
    pub fn id(&self) -> (s: &'static str)
        ensures
            s@ == (match *self {
                DaemonMode::DaemonPoll => "daemon_poll"@,
                DaemonMode::ServerPoll => "server_poll"@,
            }),
    {
        proof {
            reveal_strlit("daemon_poll");
            reveal_strlit("server_poll");
        }
        match self {
            DaemonMode::DaemonPoll => "daemon_poll",
            DaemonMode::ServerPoll => "server_poll",
        }
    }
}

/// One setting of a daemon's install configuration: the command-line flag
/// that sets it, the key it has in the MSI filename query, and its value.
/// A setting without a flag is left out of the command; one without a key
/// is left out of the MSI filename.
pub struct InstallConfigPair {
    pub cli_flag: Option<String>,
    pub msi_key: Option<String>,
    pub value: String,
}

/// An optional text by its characters.
pub open spec fn opt_text(o: Option<String>) -> Option<Seq<char>> {
    match o {
        Some(s) => Some(s@),
        None => None,
    }
}

impl View for InstallConfigPair {
    /// The flag, the MSI key and the value, as texts.
    type V = (Option<Seq<char>>, Option<Seq<char>>, Seq<char>);

    open spec fn view(&self) -> (Option<Seq<char>>, Option<Seq<char>>, Seq<char>) {
        (opt_text(self.cli_flag), opt_text(self.msi_key), self.value@)
    }
}

/// The views of a sequence of settings.
pub open spec fn pair_views(pairs: Seq<InstallConfigPair>) -> Seq<(Option<Seq<char>>, Option<Seq<char>>, Seq<char>)> {
    pairs.map_values(|p: InstallConfigPair| p@)
}

/// One ready-to-paste install command for a platform.
pub struct PlatformInstallCommand {
    /// `linux`, `macos`, `windows` or `freebsd`.
    pub platform: String,
    pub command: String,
}

/// Everything needed to install a just-provisioned daemon.
pub struct InstallArtifacts {
    pub commands: Vec<PlatformInstallCommand>,
    /// `scanopy-daemon-<base64url query>.msi`.
    pub msi_filename: String,
    /// MSI keys that did not fit in the filename.
    pub msi_omitted_config_keys: Vec<String>,
}

/// The longest a filename may be.
pub const MAX_MSI_FILENAME_LEN: usize = 255;

// ---------------------------------------------------------------------------
// Percent-escaping of MSI values
// ---------------------------------------------------------------------------

pub open spec fn hex_digit(d: nat) -> char {
    if d < 10 {
        crate::text::digit_char(d)
    } else if d == 10 { 'A' }
    else if d == 11 { 'B' }
    else if d == 12 { 'C' }
    else if d == 13 { 'D' }
    else if d == 14 { 'E' }
    else { 'F' }
}

/// `%` and the two uppercase hex digits of `b`.
pub open spec fn percent_byte(b: nat) -> Seq<char> {
    seq!['%', hex_digit(b / 16), hex_digit(b % 16)]
}

/// The UTF-8 encoding of a character.
pub open spec fn utf8_bytes(c: char) -> Seq<nat> {
    let n = c as nat;
    if n < 0x80 {
        seq![n]
    } else if n < 0x800 {
        seq![0xC0 + n / 64, 0x80 + n % 64]
    } else if n < 0x10000 {
        seq![0xE0 + n / 4096, 0x80 + (n / 64) % 64, 0x80 + n % 64]
    } else {
        seq![0xF0 + n / 262144, 0x80 + (n / 4096) % 64, 0x80 + (n / 64) % 64, 0x80 + n % 64]
    }
}

/// Percent-escapes of a byte sequence.
pub open spec fn percent_bytes(bs: Seq<nat>) -> Seq<char>
    decreases bs.len(),
{
    if bs.len() == 0 {
        Seq::empty()
    } else {
        percent_bytes(bs.drop_last()) + percent_byte(bs.last())
    }
}

/// How one character is written in an MSI value: the delimiters `%`, `&`
/// and `=` and every non-ASCII character are percent-escaped (the latter
/// byte by byte), everything else is kept.
pub open spec fn escape_msi_char(c: char) -> Seq<char> {
    if c == '%' {
        seq!['%', '2', '5']
    } else if c == '&' {
        seq!['%', '2', '6']
    } else if c == '=' {
        seq!['%', '3', 'D']
    } else if (c as nat) < 128 {
        seq![c]
    } else {
        percent_bytes(utf8_bytes(c))
    }
}

pub open spec fn escape_msi(s: Seq<char>) -> Seq<char>
    decreases s.len(),
{
    if s.len() == 0 {
        Seq::empty()
    } else {
        escape_msi(s.drop_last()) + escape_msi_char(s.last())
    }
}

/// Every character is ASCII.
pub open spec fn all_ascii(s: Seq<char>) -> bool {
    forall|i: int| 0 <= i < s.len() ==> (#[trigger] s[i] as nat) < 128
}

fn hex_of(d: u32) -> (c: char)
    requires
        d < 16,
    ensures
        c == hex_digit(d as nat),
{
    if d < 10 {
        crate::text::digit(d as u64)
    } else if d == 10 { 'A' }
    else if d == 11 { 'B' }
    else if d == 12 { 'C' }
    else if d == 13 { 'D' }
    else if d == 14 { 'E' }
    else { 'F' }
}

fn push_percent_byte(out: &mut String, b: u32)
    requires
        b < 256,
    ensures
        final(out)@ == old(out)@ + percent_byte(b as nat),
{
    push_char(out, '%');
    push_char(out, hex_of(b / 16));
    push_char(out, hex_of(b % 16));
    assert(final(out)@ =~= old(out)@ + percent_byte(b as nat));
}

proof fn lemma_percent_bytes_snoc(bs: Seq<nat>, b: nat)
    ensures
        percent_bytes(bs.push(b)) == percent_bytes(bs) + percent_byte(b),
{
    assert(bs.push(b).drop_last() =~= bs);
}

/// Appends the escaped form of one character.
fn push_escaped_char(out: &mut String, c: char)
    ensures
        final(out)@ == old(out)@ + escape_msi_char(c),
{
    if c == '%' {
        push_char(out, '%');
        push_char(out, '2');
        push_char(out, '5');
        assert(final(out)@ =~= old(out)@ + escape_msi_char(c));
    } else if c == '&' {
        push_char(out, '%');
        push_char(out, '2');
        push_char(out, '6');
        assert(final(out)@ =~= old(out)@ + escape_msi_char(c));
    } else if c == '=' {
        push_char(out, '%');
        push_char(out, '3');
        push_char(out, 'D');
        assert(final(out)@ =~= old(out)@ + escape_msi_char(c));
    } else if (c as u32) < 128 {
        push_char(out, c);
    } else {
        push_percent_utf8(out, c);
    }
}

/// Appends the percent-escapes of the UTF-8 bytes of one character.
pub fn push_percent_utf8(out: &mut String, c: char)
    ensures
        final(out)@ == old(out)@ + percent_bytes(utf8_bytes(c)),
{
    let n = c as u32;
    let ghost bs = utf8_bytes(c);
    proof {
        lemma_percent_bytes_snoc(Seq::empty(), bs[0]);
    }
    if n < 128 {
        push_percent_byte(out, n);
        assert(Seq::<nat>::empty().push(bs[0]) =~= bs);
    } else if n < 0x800 {
        push_percent_byte(out, 0xC0 + n / 64);
        push_percent_byte(out, 0x80 + n % 64);
        proof {
            lemma_percent_bytes_snoc(seq![bs[0]], bs[1]);
            assert(seq![bs[0]].push(bs[1]) =~= bs);
            assert(seq![bs[0]] =~= Seq::<nat>::empty().push(bs[0]));
        }
    } else if n < 0x10000 {
        push_percent_byte(out, 0xE0 + n / 4096);
        push_percent_byte(out, 0x80 + (n / 64) % 64);
        push_percent_byte(out, 0x80 + n % 64);
        proof {
            lemma_percent_bytes_snoc(seq![bs[0]], bs[1]);
            lemma_percent_bytes_snoc(seq![bs[0], bs[1]], bs[2]);
            assert(seq![bs[0], bs[1]].push(bs[2]) =~= bs);
            assert(seq![bs[0]].push(bs[1]) =~= seq![bs[0], bs[1]]);
            assert(seq![bs[0]] =~= Seq::<nat>::empty().push(bs[0]));
        }
    } else {
        assert(n <= 0x10FFFF);
        push_percent_byte(out, 0xF0 + n / 262144);
        push_percent_byte(out, 0x80 + (n / 4096) % 64);
        push_percent_byte(out, 0x80 + (n / 64) % 64);
        push_percent_byte(out, 0x80 + n % 64);
        proof {
            lemma_percent_bytes_snoc(seq![bs[0]], bs[1]);
            lemma_percent_bytes_snoc(seq![bs[0], bs[1]], bs[2]);
            lemma_percent_bytes_snoc(seq![bs[0], bs[1], bs[2]], bs[3]);
            assert(seq![bs[0], bs[1], bs[2]].push(bs[3]) =~= bs);
            assert(seq![bs[0], bs[1]].push(bs[2]) =~= seq![bs[0], bs[1], bs[2]]);
            assert(seq![bs[0]].push(bs[1]) =~= seq![bs[0], bs[1]]);
            assert(seq![bs[0]] =~= Seq::<nat>::empty().push(bs[0]));
        }
    }
}

/// Percent-escapes an MSI value: only the query delimiters `&` and `=`, the
/// escape marker `%`, and non-ASCII characters (as their UTF-8 bytes, in
/// uppercase hex); everything else is kept.
pub fn escape_msi_value(value: &str) -> (r: String)
    ensures
        r@ == escape_msi(value@),
{
    let v = chars_of(value);
    let mut r = String::new();
    let mut i: usize = 0;
    while i < v.len()
        invariant
            i <= v@.len(),
            v@ == value@,
            r@ == escape_msi(v@.take(i as int)),
        decreases v.len() - i,
    {
        push_escaped_char(&mut r, v[i]);
        assert(v@.take(i + 1).drop_last() =~= v@.take(i as int));
        i = i + 1;
    }
    assert(v@.take(v@.len() as int) =~= v@);
    r
}

proof fn lemma_percent_bytes_ascii(bs: Seq<nat>)
    ensures
        all_ascii(percent_bytes(bs)),
    decreases bs.len(),
{
    if bs.len() > 0 {
        lemma_percent_bytes_ascii(bs.drop_last());
        let b = bs.last();
        assert(all_ascii(percent_byte(b)));
    }
}

/// Escaped values are ASCII, so their length in bytes is their length in
/// characters.
pub proof fn lemma_escape_msi_ascii(s: Seq<char>)
    ensures
        all_ascii(escape_msi(s)),
    decreases s.len(),
{
    if s.len() > 0 {
        lemma_escape_msi_ascii(s.drop_last());
        let c = s.last();
        if (c as nat) >= 128 && c != '%' && c != '&' && c != '=' {
            lemma_percent_bytes_ascii(utf8_bytes(c));
        }
        assert(all_ascii(escape_msi_char(c)));
    }
}

/// The value of a hex digit (either case).
pub open spec fn hex_value(c: char) -> Option<nat> {
    if '0' <= c && c <= '9' {
        Some(((c as int) - ('0' as int)) as nat)
    } else if 'A' <= c && c <= 'F' {
        Some(((c as int) - ('A' as int) + 10) as nat)
    } else if 'a' <= c && c <= 'f' {
        Some(((c as int) - ('a' as int) + 10) as nat)
    } else {
        None
    }
}

/// The bytes a percent-decoder reads from a text: `%` and two hex digits
/// is one byte; any other character stands for its UTF-8 bytes.
pub open spec fn percent_decode(s: Seq<char>) -> Seq<nat>
    decreases s.len(),
{
    if s.len() == 0 {
        Seq::empty()
    } else if s[0] == '%' && s.len() >= 3 && hex_value(s[1]) is Some && hex_value(s[2]) is Some {
        seq![hex_value(s[1])->Some_0 * 16 + hex_value(s[2])->Some_0] + percent_decode(s.subrange(3, s.len() as int))
    } else {
        utf8_bytes(s[0]) + percent_decode(s.drop_first())
    }
}

/// The UTF-8 encoding of a text.
pub open spec fn utf8_text(s: Seq<char>) -> Seq<nat>
    decreases s.len(),
{
    if s.len() == 0 {
        Seq::empty()
    } else {
        utf8_bytes(s[0]) + utf8_text(s.drop_first())
    }
}

proof fn lemma_escape_msi_first(s: Seq<char>)
    requires
        s.len() > 0,
    ensures
        escape_msi(s) == escape_msi_char(s[0]) + escape_msi(s.drop_first()),
    decreases s.len(),
{
    if s.len() == 1 {
        assert(s.drop_last() =~= Seq::<char>::empty());
        assert(s.drop_first() =~= Seq::<char>::empty());
        assert(s.last() == s[0]);
        assert(escape_msi(s.drop_first()) == Seq::<char>::empty());
        assert(escape_msi(s) =~= escape_msi_char(s[0]));
    } else {
        lemma_escape_msi_first(s.drop_last());
        assert(s.drop_last().drop_first() =~= s.drop_first().drop_last());
        assert(s.drop_first().last() == s.last());
        assert(s.drop_last()[0] == s[0]);
        assert(escape_msi(s) =~= escape_msi_char(s[0]) + escape_msi(s.drop_first()));
    }
}

proof fn lemma_percent_bytes_first(bs: Seq<nat>)
    requires
        bs.len() > 0,
    ensures
        percent_bytes(bs) == percent_byte(bs[0]) + percent_bytes(bs.drop_first()),
    decreases bs.len(),
{
    if bs.len() == 1 {
        assert(bs.drop_last() =~= Seq::<nat>::empty());
        assert(bs.drop_first() =~= Seq::<nat>::empty());
        assert(bs.last() == bs[0]);
        assert(percent_bytes(bs.drop_first()) == Seq::<char>::empty());
        assert(percent_bytes(bs) =~= percent_byte(bs[0]));
    } else {
        lemma_percent_bytes_first(bs.drop_last());
        assert(bs.drop_last().drop_first() =~= bs.drop_first().drop_last());
        assert(bs.drop_first().last() == bs.last());
        assert(bs.drop_last()[0] == bs[0]);
        assert(percent_bytes(bs) =~= percent_byte(bs[0]) + percent_bytes(bs.drop_first()));
    }
}

proof fn lemma_hex_digit_value(d: nat)
    requires
        d < 16,
    ensures
        hex_value(hex_digit(d)) == Some(d),
{
}

proof fn lemma_decode_percent_byte(b: nat, rest: Seq<char>)
    requires
        b < 256,
    ensures
        percent_decode(percent_byte(b) + rest) == seq![b] + percent_decode(rest),
{
    let x = percent_byte(b) + rest;
    lemma_hex_digit_value(b / 16);
    lemma_hex_digit_value(b % 16);
    assert(x[0] == '%' && x[1] == hex_digit(b / 16) && x[2] == hex_digit(b % 16));
    assert(x.subrange(3, x.len() as int) =~= rest);
    assert(b == (b / 16) * 16 + b % 16);
}

proof fn lemma_decode_percent_bytes(bs: Seq<nat>, rest: Seq<char>)
    requires
        forall|i: int| 0 <= i < bs.len() ==> #[trigger] bs[i] < 256,
    ensures
        percent_decode(percent_bytes(bs) + rest) == bs + percent_decode(rest),
    decreases bs.len(),
{
    if bs.len() == 0 {
        assert(percent_bytes(bs) + rest =~= rest);
        assert(bs + percent_decode(rest) =~= percent_decode(rest));
    } else {
        lemma_percent_bytes_first(bs);
        let tail = bs.drop_first();
        assert forall|i: int| 0 <= i < tail.len() implies #[trigger] tail[i] < 256 by {
            assert(tail[i] == bs[i + 1]);
        }
        lemma_decode_percent_bytes(tail, rest);
        assert(bs[0] < 256);
        lemma_decode_percent_byte(bs[0], percent_bytes(tail) + rest);
        assert(percent_bytes(bs) + rest =~= percent_byte(bs[0]) + (percent_bytes(tail) + rest));
        assert(seq![bs[0]] + (tail + percent_decode(rest)) =~= bs + percent_decode(rest));
    }
}

proof fn lemma_utf8_bytes_small(c: char)
    ensures
        forall|i: int| 0 <= i < utf8_bytes(c).len() ==> #[trigger] utf8_bytes(c)[i] < 256,
{
    let n = c as nat;
    assert(n <= 0x10FFFF);
}

proof fn lemma_decode_escaped_char(c: char, rest: Seq<char>)
    ensures
        percent_decode(escape_msi_char(c) + rest) == utf8_bytes(c) + percent_decode(rest),
{
    let x = escape_msi_char(c) + rest;
    if c == '%' {
        assert(x[0] == '%' && x[1] == '2' && x[2] == '5');
        assert(x.subrange(3, x.len() as int) =~= rest);
        assert(('%' as nat) == 37);
    } else if c == '&' {
        assert(x[0] == '%' && x[1] == '2' && x[2] == '6');
        assert(x.subrange(3, x.len() as int) =~= rest);
        assert(('&' as nat) == 38);
    } else if c == '=' {
        assert(x[0] == '%' && x[1] == '3' && x[2] == 'D');
        assert(x.subrange(3, x.len() as int) =~= rest);
        assert(('=' as nat) == 61);
    } else if (c as nat) < 128 {
        assert(x[0] == c);
        assert(x.drop_first() =~= rest);
    } else {
        lemma_utf8_bytes_small(c);
        lemma_decode_percent_bytes(utf8_bytes(c), rest);
    }
}

/// An escaped MSI value carries no query delimiter, and percent-decoding
/// it gives back the value's UTF-8 bytes: the installer reads each value
/// exactly as it was configured.
pub proof fn lemma_escape_msi_reads_back(s: Seq<char>)
    ensures
        percent_decode(escape_msi(s)) == utf8_text(s),
        !has_char(escape_msi(s), '&'),
        !has_char(escape_msi(s), '='),
    decreases s.len(),
{
    if s.len() > 0 {
        let rest = s.drop_first();
        lemma_escape_msi_first(s);
        lemma_escape_msi_reads_back(rest);
        lemma_decode_escaped_char(s[0], escape_msi(rest));
        let e = escape_msi(s);
        let head = escape_msi_char(s[0]);
        if (s[0] as nat) >= 128 && s[0] != '%' && s[0] != '&' && s[0] != '=' {
            lemma_percent_bytes_ascii_only(utf8_bytes(s[0]));
        }
        assert forall|i: int| 0 <= i < e.len() implies e[i] != '&' && e[i] != '=' by {
            if i < head.len() {
                assert(e[i] == head[i]);
            } else {
                assert(e[i] == escape_msi(rest)[i - head.len()]);
            }
        }
    }
}

proof fn lemma_percent_bytes_ascii_only(bs: Seq<nat>)
    ensures
        forall|i: int| 0 <= i < percent_bytes(bs).len() ==> #[trigger] percent_bytes(bs)[i] != '&'
            && percent_bytes(bs)[i] != '=',
    decreases bs.len(),
{
    if bs.len() > 0 {
        lemma_percent_bytes_ascii_only(bs.drop_last());
        let p = percent_bytes(bs);
        let prev = percent_bytes(bs.drop_last());
        let last = percent_byte(bs.last());
        assert forall|i: int| 0 <= i < p.len() implies p[i] != '&' && p[i] != '=' by {
            if i < prev.len() {
                assert(p[i] == prev[i]);
            } else {
                assert(p[i] == last[i - prev.len()]);
            }
        }
    }
}

// ---------------------------------------------------------------------------
// Shell quoting
// ---------------------------------------------------------------------------

/// Characters that need no quoting in either shell.
pub open spec fn shell_safe_char(c: char) -> bool {
    is_ascii_alphanumeric(c) || c == '-' || c == '_' || c == '.' || c == '/' || c == ':'
        || c == ',' || c == '=' || c == '@' || c == '+'
}

/// A non-empty value made of shell-safe characters only.
pub open spec fn shell_safe(s: Seq<char>) -> bool {
    s.len() > 0 && forall|i: int| 0 <= i < s.len() ==> shell_safe_char(#[trigger] s[i])
}

/// `s` with every `'` replaced by `rep`.
pub open spec fn replace_quote(s: Seq<char>, rep: Seq<char>) -> Seq<char>
    decreases s.len(),
{
    if s.len() == 0 {
        Seq::empty()
    } else {
        replace_quote(s.drop_last(), rep) + (if s.last() == '\'' { rep } else { seq![s.last()] })
    }
}

/// How a value is written on a command line: bare when shell-safe, else
/// single-quoted with each inner quote written as `posix_rep` (POSIX shells:
/// close, escaped quote, reopen) or doubled (PowerShell).
pub open spec fn quoted(s: Seq<char>, posix: bool) -> Seq<char> {
    if shell_safe(s) {
        s
    } else {
        seq!['\''] + replace_quote(s, if posix { seq!['\'', '\\', '\'', '\''] } else { seq!['\'', '\''] })
            + seq!['\'']
    }
}

/// How a POSIX shell reads one word: outside quotes a backslash takes the
/// next character literally and `'` opens a quote; inside, everything up
/// to the closing `'` is literal.
pub open spec fn posix_read(s: Seq<char>, in_quotes: bool) -> Seq<char>
    decreases s.len(),
{
    if s.len() == 0 {
        Seq::empty()
    } else if in_quotes {
        if s[0] == '\'' {
            posix_read(s.drop_first(), false)
        } else {
            seq![s[0]] + posix_read(s.drop_first(), true)
        }
    } else if s[0] == '\'' {
        posix_read(s.drop_first(), true)
    } else if s[0] == '\\' && s.len() >= 2 {
        seq![s[1]] + posix_read(s.subrange(2, s.len() as int), false)
    } else {
        seq![s[0]] + posix_read(s.drop_first(), false)
    }
}

/// How PowerShell reads one word: `'` opens and closes a literal string,
/// inside which `''` stands for one quote.
pub open spec fn powershell_read(s: Seq<char>, in_quotes: bool) -> Seq<char>
    decreases s.len(),
{
    if s.len() == 0 {
        Seq::empty()
    } else if in_quotes {
        if s[0] == '\'' {
            if s.len() >= 2 && s[1] == '\'' {
                seq!['\''] + powershell_read(s.subrange(2, s.len() as int), true)
            } else {
                powershell_read(s.drop_first(), false)
            }
        } else {
            seq![s[0]] + powershell_read(s.drop_first(), true)
        }
    } else if s[0] == '\'' {
        powershell_read(s.drop_first(), true)
    } else {
        seq![s[0]] + powershell_read(s.drop_first(), false)
    }
}

proof fn lemma_replace_quote_first(s: Seq<char>, rep: Seq<char>)
    requires
        s.len() > 0,
    ensures
        replace_quote(s, rep) == (if s[0] == '\'' { rep } else { seq![s[0]] }) + replace_quote(s.drop_first(), rep),
    decreases s.len(),
{
    if s.len() == 1 {
        assert(s.drop_last() =~= Seq::<char>::empty());
        assert(s.drop_first() =~= Seq::<char>::empty());
        assert(s.last() == s[0]);
    } else {
        lemma_replace_quote_first(s.drop_last(), rep);
        assert(s.drop_last().drop_first() =~= s.drop_first().drop_last());
        assert(s.drop_first().last() == s.last());
        assert(s.drop_last()[0] == s[0]);
    }
}

proof fn lemma_safe_reads_as_is(s: Seq<char>)
    requires
        forall|i: int| 0 <= i < s.len() ==> shell_safe_char(#[trigger] s[i]),
    ensures
        posix_read(s, false) == s,
        powershell_read(s, false) == s,
    decreases s.len(),
{
    if s.len() > 0 {
        let rest = s.drop_first();
        assert forall|i: int| 0 <= i < rest.len() implies shell_safe_char(#[trigger] rest[i]) by {
            assert(rest[i] == s[i + 1]);
        }
        lemma_safe_reads_as_is(rest);
        assert(shell_safe_char(s[0]));
        assert(seq![s[0]] + rest =~= s);
    }
}

proof fn lemma_posix_body(s: Seq<char>)
    ensures
        posix_read(replace_quote(s, seq!['\'', '\\', '\'', '\'']) + seq!['\''], true) == s,
    decreases s.len(),
{
    let rep = seq!['\'', '\\', '\'', '\''];
    let x = replace_quote(s, rep) + seq!['\''];
    if s.len() == 0 {
        assert(replace_quote(s, rep) == Seq::<char>::empty());
        assert(x =~= seq!['\'']);
        assert(x[0] == '\'');
        assert(x.drop_first() =~= Seq::<char>::empty());
        assert(posix_read(x, true) == posix_read(x.drop_first(), false));
    } else {
        let rest = s.drop_first();
        lemma_replace_quote_first(s, rep);
        lemma_posix_body(rest);
        let tail = replace_quote(rest, rep) + seq!['\''];
        assert(posix_read(tail, true) == rest);
        if s[0] == '\'' {
            assert(x =~= rep + tail);
            assert(x[0] == '\'');
            let x1 = x.drop_first();
            assert(posix_read(x, true) == posix_read(x1, false));
            assert(x1 =~= seq!['\\', '\'', '\''] + tail);
            assert(x1[0] == '\\' && x1[1] == '\'' && x1.len() >= 2);
            let x2 = x1.subrange(2, x1.len() as int);
            assert(posix_read(x1, false) == seq!['\''] + posix_read(x2, false));
            assert(x2 =~= seq!['\''] + tail);
            assert(x2[0] == '\'');
            assert(posix_read(x2, false) == posix_read(x2.drop_first(), true));
            assert(x2.drop_first() =~= tail);
            assert(seq!['\''] + rest =~= s);
        } else {
            assert(x =~= seq![s[0]] + tail);
            assert(x[0] == s[0]);
            assert(posix_read(x, true) == seq![s[0]] + posix_read(x.drop_first(), true));
            assert(x.drop_first() =~= tail);
            assert(seq![s[0]] + rest =~= s);
        }
    }
}

proof fn lemma_powershell_body(s: Seq<char>)
    ensures
        powershell_read(replace_quote(s, seq!['\'', '\'']) + seq!['\''], true) == s,
    decreases s.len(),
{
    let rep = seq!['\'', '\''];
    let x = replace_quote(s, rep) + seq!['\''];
    if s.len() == 0 {
        assert(replace_quote(s, rep) == Seq::<char>::empty());
        assert(x =~= seq!['\'']);
        assert(x[0] == '\'');
        assert(x.drop_first() =~= Seq::<char>::empty());
        assert(powershell_read(x, true) == powershell_read(x.drop_first(), false));
    } else {
        let rest = s.drop_first();
        lemma_replace_quote_first(s, rep);
        lemma_powershell_body(rest);
        let tail = replace_quote(rest, rep) + seq!['\''];
        assert(powershell_read(tail, true) == rest);
        if s[0] == '\'' {
            assert(x =~= rep + tail);
            assert(x[0] == '\'' && x[1] == '\'' && x.len() >= 2);
            assert(powershell_read(x, true) == seq!['\''] + powershell_read(x.subrange(2, x.len() as int), true));
            assert(x.subrange(2, x.len() as int) =~= tail);
            assert(seq!['\''] + rest =~= s);
        } else {
            assert(x =~= seq![s[0]] + tail);
            assert(x[0] == s[0]);
            assert(powershell_read(x, true) == seq![s[0]] + powershell_read(x.drop_first(), true));
            assert(x.drop_first() =~= tail);
            assert(seq![s[0]] + rest =~= s);
        }
    }
}

/// A quoted value reads back as the value: a POSIX shell reads the POSIX
/// quoting, and PowerShell its own, as exactly the characters quoted.
pub proof fn lemma_quoting_reads_back(s: Seq<char>)
    ensures
        posix_read(quoted(s, true), false) == s,
        powershell_read(quoted(s, false), false) == s,
{
    if shell_safe(s) {
        lemma_safe_reads_as_is(s);
    } else {
        lemma_posix_body(s);
        lemma_powershell_body(s);
        let p = seq!['\''] + replace_quote(s, seq!['\'', '\\', '\'', '\'']) + seq!['\''];
        assert(p.drop_first() =~= replace_quote(s, seq!['\'', '\\', '\'', '\'']) + seq!['\'']);
        let q = seq!['\''] + replace_quote(s, seq!['\'', '\'']) + seq!['\''];
        assert(q.drop_first() =~= replace_quote(s, seq!['\'', '\'']) + seq!['\'']);
    }
}

/// A blank: what separates words on a command line.
pub open spec fn is_blank(c: char) -> bool {
    c == ' ' || c == '\t' || c == '\n'
}

/// Whether a POSIX shell reads `s` as a single word: no blank outside
/// quotes, and no quote left open at the end.
pub open spec fn posix_one_word(s: Seq<char>, in_quotes: bool) -> bool
    decreases s.len(),
{
    if s.len() == 0 {
        !in_quotes
    } else if in_quotes {
        if s[0] == '\'' {
            posix_one_word(s.drop_first(), false)
        } else {
            posix_one_word(s.drop_first(), true)
        }
    } else if s[0] == '\'' {
        posix_one_word(s.drop_first(), true)
    } else if s[0] == '\\' && s.len() >= 2 {
        posix_one_word(s.subrange(2, s.len() as int), false)
    } else {
        !is_blank(s[0]) && posix_one_word(s.drop_first(), false)
    }
}

proof fn lemma_safe_one_word(s: Seq<char>)
    requires
        forall|i: int| 0 <= i < s.len() ==> shell_safe_char(#[trigger] s[i]),
    ensures
        posix_one_word(s, false),
    decreases s.len(),
{
    if s.len() > 0 {
        let rest = s.drop_first();
        assert forall|i: int| 0 <= i < rest.len() implies shell_safe_char(#[trigger] rest[i]) by {
            assert(rest[i] == s[i + 1]);
        }
        lemma_safe_one_word(rest);
        assert(shell_safe_char(s[0]));
    }
}

proof fn lemma_posix_body_one_word(s: Seq<char>)
    ensures
        posix_one_word(replace_quote(s, seq!['\'', '\\', '\'', '\'']) + seq!['\''], true),
    decreases s.len(),
{
    let rep = seq!['\'', '\\', '\'', '\''];
    let x = replace_quote(s, rep) + seq!['\''];
    if s.len() == 0 {
        assert(replace_quote(s, rep) == Seq::<char>::empty());
        assert(x =~= seq!['\'']);
        assert(x[0] == '\'');
        assert(x.drop_first() =~= Seq::<char>::empty());
        assert(posix_one_word(x, true) == posix_one_word(x.drop_first(), false));
    } else {
        let rest = s.drop_first();
        lemma_replace_quote_first(s, rep);
        lemma_posix_body_one_word(rest);
        let tail = replace_quote(rest, rep) + seq!['\''];
        if s[0] == '\'' {
            assert(x =~= rep + tail);
            assert(x[0] == '\'');
            let x1 = x.drop_first();
            assert(x1 =~= seq!['\\', '\'', '\''] + tail);
            assert(x1[0] == '\\' && x1[1] == '\'' && x1.len() >= 2);
            let x2 = x1.subrange(2, x1.len() as int);
            assert(x2 =~= seq!['\''] + tail);
            assert(x2[0] == '\'');
            assert(x2.drop_first() =~= tail);
            assert(posix_one_word(x, true) == posix_one_word(x1, false));
            assert(posix_one_word(x1, false) == posix_one_word(x2, false));
            assert(posix_one_word(x2, false) == posix_one_word(x2.drop_first(), true));
        } else {
            assert(x =~= seq![s[0]] + tail);
            assert(x[0] == s[0]);
            assert(x.drop_first() =~= tail);
            assert(posix_one_word(x, true) == posix_one_word(x.drop_first(), true));
        }
    }
}

/// A value quoted for a POSIX shell is never empty and is read as exactly
/// one word.
pub proof fn lemma_posix_quoting_one_word(s: Seq<char>)
    ensures
        quoted(s, true).len() > 0,
        posix_one_word(quoted(s, true), false),
{
    if shell_safe(s) {
        lemma_safe_one_word(s);
    } else {
        lemma_posix_body_one_word(s);
        let p = seq!['\''] + replace_quote(s, seq!['\'', '\\', '\'', '\'']) + seq!['\''];
        assert(p[0] == '\'');
        assert(p.drop_first() =~= replace_quote(s, seq!['\'', '\\', '\'', '\'']) + seq!['\'']);
        assert(posix_one_word(p, false) == posix_one_word(p.drop_first(), true));
    }
}

fn is_shell_safe_char(c: char) -> (b: bool)
    ensures
        b == shell_safe_char(c),
{
    ('a' <= c && c <= 'z') || ('A' <= c && c <= 'Z') || ('0' <= c && c <= '9') || c == '-' || c == '_'
        || c == '.' || c == '/' || c == ':' || c == ',' || c == '=' || c == '@' || c == '+'
}

/// Whether a value can stand unquoted on a command line.
pub fn is_shell_safe(value: &str) -> (b: bool)
    ensures
        b == shell_safe(value@),
{
    let v = chars_of(value);
    if v.len() == 0 {
        return false;
    }
    let mut i: usize = 0;
    while i < v.len()
        invariant
            i <= v@.len(),
            v@ == value@,
            forall|j: int| 0 <= j < i ==> shell_safe_char(#[trigger] v@[j]),
        decreases v.len() - i,
    {
        if !is_shell_safe_char(v[i]) {
            return false;
        }
        i = i + 1;
    }
    true
}

fn quote_value(value: &str, posix: bool) -> (r: String)
    ensures
        r@ == quoted(value@, posix),
{
    if is_shell_safe(value) {
        let mut r = String::new();
        r.append(value);
        return r;
    }
    let v = chars_of(value);
    let mut r = String::new();
    push_char(&mut r, '\'');
    let ghost rep = if posix { seq!['\'', '\\', '\'', '\''] } else { seq!['\'', '\''] };
    let mut i: usize = 0;
    while i < v.len()
        invariant
            i <= v@.len(),
            v@ == value@,
            rep == (if posix { seq!['\'', '\\', '\'', '\''] } else { seq!['\'', '\''] }),
            r@ == seq!['\''] + replace_quote(v@.take(i as int), rep),
        decreases v.len() - i,
    {
        let c = v[i];
        let ghost before = r@;
        if c == '\'' {
            if posix {
                push_char(&mut r, '\'');
                push_char(&mut r, '\\');
                push_char(&mut r, '\'');
                push_char(&mut r, '\'');
            } else {
                push_char(&mut r, '\'');
                push_char(&mut r, '\'');
            }
        } else {
            push_char(&mut r, c);
        }
        proof {
            assert(v@.take(i + 1).drop_last() =~= v@.take(i as int));
            assert(r@ =~= seq!['\''] + replace_quote(v@.take(i + 1), rep));
        }
        i = i + 1;
    }
    push_char(&mut r, '\'');
    assert(v@.take(v@.len() as int) =~= v@);
    assert(r@ =~= quoted(value@, posix));
    r
}

/// Quotes a value for a POSIX shell.
pub fn quote_posix(value: &str) -> (r: String)
    ensures
        r@ == quoted(value@, true),
{
    quote_value(value, true)
}

/// Quotes a value for PowerShell.
pub fn quote_powershell(value: &str) -> (r: String)
    ensures
        r@ == quoted(value@, false),
{
    quote_value(value, false)
}

// ---------------------------------------------------------------------------
// Install command flags
// ---------------------------------------------------------------------------

/// `flag value` for each setting with a flag, in order.
pub open spec fn flag_parts(pairs: Seq<(Option<Seq<char>>, Option<Seq<char>>, Seq<char>)>, posix: bool) -> Seq<Seq<char>>
    decreases pairs.len(),
{
    if pairs.len() == 0 {
        Seq::empty()
    } else {
        let p = pairs.last();
        flag_parts(pairs.drop_last(), posix) + (match p.0 {
            Some(f) => seq![f + seq![' '] + quoted(p.2, posix)],
            None => Seq::empty(),
        })
    }
}

/// The install flags of a configuration, separated by single spaces.
pub open spec fn flags_text(pairs: Seq<(Option<Seq<char>>, Option<Seq<char>>, Seq<char>)>, posix: bool) -> Seq<char> {
    join(flag_parts(pairs, posix), seq![' '])
}

proof fn lemma_join_push(parts: Seq<Seq<char>>, p: Seq<char>, sep: Seq<char>)
    ensures
        join(parts.push(p), sep) == (if parts.len() == 0 { p } else { join(parts, sep) + sep + p }),
{
    assert(parts.push(p).drop_last() =~= parts);
    if parts.len() == 0 {
        assert(parts.push(p)[0] == p);
    }
}

/// Joins strings with single spaces.
fn join_spaces(parts: &Vec<String>) -> (r: String)
    ensures
        r@ == join(parts@.map_values(|s: String| s@), seq![' ']),
{
    join_with(parts, ' ')
}

/// Joins strings with a separator character.
fn join_with(parts: &Vec<String>, sep: char) -> (r: String)
    ensures
        r@ == join(parts@.map_values(|s: String| s@), seq![sep]),
{
    let ghost views = parts@.map_values(|s: String| s@);
    let mut r = String::new();
    let mut i: usize = 0;
    while i < parts.len()
        invariant
            i <= parts@.len(),
            views == parts@.map_values(|s: String| s@),
            r@ == join(views.take(i as int), seq![sep]),
        decreases parts.len() - i,
    {
        proof {
            lemma_join_push(views.take(i as int), views[i as int], seq![sep]);
            assert(views.take(i as int).push(views[i as int]) =~= views.take(i + 1));
        }
        if i > 0 {
            push_char(&mut r, sep);
        }
        r.append(parts[i].as_str());
        i = i + 1;
    }
    assert(views.take(parts@.len() as int) =~= views);
    r
}

/// The install flags of a configuration, each value quoted for the target
/// shell (`posix`, or PowerShell).
pub fn install_flags(pairs: &Vec<InstallConfigPair>, posix: bool) -> (r: String)
    ensures
        r@ == flags_text(pair_views(pairs@), posix),
{
    let ghost pv = pair_views(pairs@);
    let mut parts: Vec<String> = Vec::new();
    let mut i: usize = 0;
    while i < pairs.len()
        invariant
            i <= pairs@.len(),
            pv == pair_views(pairs@),
            parts@.map_values(|s: String| s@) == flag_parts(pv.take(i as int), posix),
        decreases pairs.len() - i,
    {
        let p = &pairs[i];
        let ghost before = parts@;
        match &p.cli_flag {
            Some(f) => {
                let mut part = String::new();
                part.append(f.as_str());
                push_char(&mut part, ' ');
                let q = quote_value(p.value.as_str(), posix);
                part.append(q.as_str());
                assert(part@ =~= f@ + seq![' '] + quoted(p.value@, posix));
                parts.push(part);
                assert(parts@.map_values(|s: String| s@) =~= before.map_values(|s: String| s@).push(
                    f@ + seq![' '] + quoted(p.value@, posix),
                ));
            },
            None => {},
        }
        proof {
            assert(pv.take(i + 1).drop_last() =~= pv.take(i as int));
            assert(pv.take(i + 1).last() == pairs@[i as int]@);
        }
        i = i + 1;
    }
    assert(pv.take(pairs@.len() as int) =~= pv);
    join_spaces(&parts)
}

// ---------------------------------------------------------------------------
// The MSI filename
// ---------------------------------------------------------------------------

/// Packs `key=escaped value` items, `&`-separated, into a query of at most
/// `budget` characters: items are taken in order, and one that does not fit
/// is left out and its key reported. Returns the query and the keys left
/// out.
pub open spec fn pack_query(pairs: Seq<(Option<Seq<char>>, Option<Seq<char>>, Seq<char>)>, budget: nat) -> (Seq<char>, Seq<Seq<char>>)
    decreases pairs.len(),
{
    if pairs.len() == 0 {
        (Seq::empty(), Seq::empty())
    } else {
        let prev = pack_query(pairs.drop_last(), budget);
        let q = prev.0;
        let om = prev.1;
        let p = pairs.last();
        match p.1 {
            None => (q, om),
            Some(k) => {
                let enc = k + seq!['='] + escape_msi(p.2);
                let sep: nat = if q.len() == 0 { 0 } else { 1 };
                if q.len() + sep + enc.len() > budget {
                    (q, om.push(k))
                } else if sep == 1 {
                    (q + seq!['&'] + enc, om)
                } else {
                    (q + enc, om)
                }
            },
        }
    }
}

/// Every MSI key of the configuration is ASCII.
pub open spec fn ascii_keys(pairs: Seq<(Option<Seq<char>>, Option<Seq<char>>, Seq<char>)>) -> bool {
    forall|i: int| 0 <= i < pairs.len() ==> ((#[trigger] pairs[i]).1 matches Some(k) ==> all_ascii(k))
}

/// The packed query never exceeds its budget, and with ASCII keys it is
/// ASCII throughout.
pub proof fn lemma_pack_query_fits(pairs: Seq<(Option<Seq<char>>, Option<Seq<char>>, Seq<char>)>, budget: nat)
    ensures
        pack_query(pairs, budget).0.len() <= budget,
        ascii_keys(pairs) ==> all_ascii(pack_query(pairs, budget).0),
    decreases pairs.len(),
{
    if pairs.len() > 0 {
        let rest = pairs.drop_last();
        lemma_pack_query_fits(rest, budget);
        let p = pairs.last();
        lemma_escape_msi_ascii(p.2);
        if ascii_keys(pairs) {
            assert forall|i: int| 0 <= i < rest.len() implies ((#[trigger] rest[i]).1 matches Some(k) ==> all_ascii(k)) by {
                assert(rest[i] == pairs[i]);
            }
            assert(pairs[pairs.len() - 1] == p);
        }
    }
}

/// The `key=escaped value` item of a keyed setting.
pub open spec fn msi_item(p: (Option<Seq<char>>, Option<Seq<char>>, Seq<char>)) -> Seq<char> {
    p.1->Some_0 + seq!['='] + escape_msi(p.2)
}

/// Whether the keyed setting at `i` fits when its turn comes: the query
/// built from the settings before it, a `&` if that is not empty, and its
/// item stay within the budget.
pub open spec fn fits_at(pairs: Seq<(Option<Seq<char>>, Option<Seq<char>>, Seq<char>)>, budget: nat, i: int) -> bool {
    let q = pack_query(pairs.take(i), budget).0;
    q.len() + (if q.len() == 0 { 0nat } else { 1nat }) + msi_item(pairs[i]).len() <= budget
}

/// The items packed into the query, in order.
pub open spec fn packed_items(pairs: Seq<(Option<Seq<char>>, Option<Seq<char>>, Seq<char>)>, budget: nat) -> Seq<Seq<char>>
    decreases pairs.len(),
{
    if pairs.len() == 0 {
        Seq::empty()
    } else {
        let i = pairs.len() - 1;
        packed_items(pairs.drop_last(), budget) + (if pairs[i].1 is Some && fits_at(pairs, budget, i) {
            seq![msi_item(pairs[i])]
        } else {
            Seq::empty()
        })
    }
}

/// Each keyed setting lands in exactly one place: its item in the query
/// when it fits at its turn, else its key in the omitted list. The query
/// is the packed items joined by `&`, and the omitted keys are those of
/// the keyed settings that did not fit, in order; a setting is omitted
/// only when its item would overflow the budget.
pub proof fn lemma_pack_query_places(pairs: Seq<(Option<Seq<char>>, Option<Seq<char>>, Seq<char>)>, budget: nat)
    ensures
        pack_query(pairs, budget).0 == join(packed_items(pairs, budget), seq!['&']),
        pack_query(pairs, budget).1 == omitted_keys(pairs, budget),
        forall|j: int| 0 <= j < packed_items(pairs, budget).len() ==> (#[trigger] packed_items(pairs, budget)[j]).len() > 0,
    decreases pairs.len(),
{
    if pairs.len() > 0 {
        let rest = pairs.drop_last();
        let i = pairs.len() - 1;
        lemma_pack_query_places(rest, budget);
        assert(pairs.take(i) =~= rest);
        assert(pairs.last() == pairs[i]);
        let items = packed_items(rest, budget);
        if pairs[i].1 is Some && fits_at(pairs, budget, i) {
            let all = packed_items(pairs, budget);
            assert(all == items.push(msi_item(pairs[i])));
            assert forall|j: int| 0 <= j < all.len() implies (#[trigger] all[j]).len() > 0 by {
                if j < items.len() {
                    assert(all[j] == items[j]);
                }
            }
            lemma_join_push(items, msi_item(pairs[i]), seq!['&']);
            if items.len() == 0 {
                assert(join(items, seq!['&']) =~= Seq::<char>::empty());
            } else {
                lemma_join_nonempty(items, seq!['&']);
            }
        } else {
            assert(items + Seq::<Seq<char>>::empty() =~= items);
            assert(packed_items(pairs, budget) == items);
        }
    }
}

proof fn lemma_join_nonempty(parts: Seq<Seq<char>>, sep: Seq<char>)
    requires
        parts.len() > 0,
        parts[0].len() > 0,
    ensures
        join(parts, sep).len() > 0,
    decreases parts.len(),
{
    if parts.len() > 1 {
        lemma_join_nonempty(parts.drop_last(), sep);
    }
}

/// The keys of the keyed settings that did not fit at their turn, in
/// order.
pub open spec fn omitted_keys(pairs: Seq<(Option<Seq<char>>, Option<Seq<char>>, Seq<char>)>, budget: nat) -> Seq<Seq<char>>
    decreases pairs.len(),
{
    if pairs.len() == 0 {
        Seq::empty()
    } else {
        let i = pairs.len() - 1;
        omitted_keys(pairs.drop_last(), budget) + (if pairs[i].1 is Some && !fits_at(pairs, budget, i) {
            seq![pairs[i].1->Some_0]
        } else {
            Seq::empty()
        })
    }
}

/// The keys of the items packed into the query, in order.
pub open spec fn packed_keys(pairs: Seq<(Option<Seq<char>>, Option<Seq<char>>, Seq<char>)>, budget: nat) -> Seq<Seq<char>>
    decreases pairs.len(),
{
    if pairs.len() == 0 {
        Seq::empty()
    } else {
        let i = pairs.len() - 1;
        packed_keys(pairs.drop_last(), budget) + (if pairs[i].1 is Some && fits_at(pairs, budget, i) {
            seq![pairs[i].1->Some_0]
        } else {
            Seq::empty()
        })
    }
}

/// No two keyed settings share a key.
pub open spec fn distinct_keys(pairs: Seq<(Option<Seq<char>>, Option<Seq<char>>, Seq<char>)>) -> bool {
    forall|m: int, n: int| 0 <= m < n < pairs.len() && (#[trigger] pairs[m]).1 is Some && (#[trigger] pairs[n]).1 is Some
        ==> pairs[m].1 != pairs[n].1
}

/// Every packed item is its key, `=` and the escaped value; and, when the
/// settings' keys are distinct, no key is both packed and omitted: an
/// omitted key never appears as an item's key in the query.
pub proof fn lemma_omitted_keys_not_packed(pairs: Seq<(Option<Seq<char>>, Option<Seq<char>>, Seq<char>)>, budget: nat)
    ensures
        packed_items(pairs, budget).len() == packed_keys(pairs, budget).len(),
        forall|j: int| 0 <= j < packed_items(pairs, budget).len() ==> (#[trigger] packed_items(pairs, budget)[j]).take(
            packed_keys(pairs, budget)[j].len() as int + 1) == packed_keys(pairs, budget)[j] + seq!['='],
        forall|x: Seq<char>| #[trigger] packed_keys(pairs, budget).contains(x)
            ==> exists|m: int| 0 <= m < pairs.len() && (#[trigger] pairs[m]).1 == Some(x) && fits_at(pairs, budget, m),
        forall|x: Seq<char>| #[trigger] omitted_keys(pairs, budget).contains(x)
            ==> exists|m: int| 0 <= m < pairs.len() && (#[trigger] pairs[m]).1 == Some(x) && !fits_at(pairs, budget, m),
        distinct_keys(pairs) ==> forall|x: Seq<char>| #[trigger] omitted_keys(pairs, budget).contains(x)
            ==> !packed_keys(pairs, budget).contains(x),
    decreases pairs.len(),
{
    if pairs.len() > 0 {
        let rest = pairs.drop_last();
        let i = pairs.len() - 1;
        lemma_omitted_keys_not_packed(rest, budget);
        let pk0 = packed_keys(rest, budget);
        let om0 = omitted_keys(rest, budget);
        let it0 = packed_items(rest, budget);
        let pk = packed_keys(pairs, budget);
        let om = omitted_keys(pairs, budget);
        let it = packed_items(pairs, budget);
        assert forall|m: int| 0 <= m < rest.len() implies #[trigger] fits_at(rest, budget, m) == fits_at(pairs, budget, m) by {
            assert(rest.take(m) =~= pairs.take(m));
            assert(rest[m] == pairs[m]);
        }
        assert forall|m: int| 0 <= m < rest.len() implies #[trigger] rest[m] == pairs[m] by {}
        if pairs[i].1 is Some && fits_at(pairs, budget, i) {
            let k = pairs[i].1->Some_0;
            assert(pk == pk0.push(k));
            assert(it == it0.push(msi_item(pairs[i])));
            assert(om == om0);
            assert(msi_item(pairs[i]).take(k.len() as int + 1) =~= k + seq!['=']);
            assert forall|j: int| 0 <= j < it.len() implies (#[trigger] it[j]).take(pk[j].len() as int + 1) == pk[j] + seq!['='] by {
                if j < it0.len() {
                    assert(it[j] == it0[j] && pk[j] == pk0[j]);
                }
            }
            assert forall|x: Seq<char>| #[trigger] pk.contains(x)
                implies exists|m: int| 0 <= m < pairs.len() && (#[trigger] pairs[m]).1 == Some(x) && fits_at(pairs, budget, m) by {
                let j = choose|j: int| 0 <= j < pk.len() && pk[j] == x;
                if j < pk0.len() {
                    assert(pk0[j] == x);
                    assert(pk0.contains(x));
                    let m = choose|m: int| 0 <= m < rest.len() && (#[trigger] rest[m]).1 == Some(x) && fits_at(rest, budget, m);
                    assert(pairs[m] == rest[m]);
                } else {
                    assert(pairs[i].1 == Some(x));
                }
            }
            assert forall|x: Seq<char>| #[trigger] om.contains(x)
                implies exists|m: int| 0 <= m < pairs.len() && (#[trigger] pairs[m]).1 == Some(x) && !fits_at(pairs, budget, m) by {
                let m = choose|m: int| 0 <= m < rest.len() && (#[trigger] rest[m]).1 == Some(x) && !fits_at(rest, budget, m);
                assert(pairs[m] == rest[m]);
            }
            if distinct_keys(pairs) {
                assert(distinct_keys(rest)) by {
                    assert forall|m: int, n: int| 0 <= m < n < rest.len() && (#[trigger] rest[m]).1 is Some && (#[trigger] rest[n]).1 is Some
                        implies rest[m].1 != rest[n].1 by {
                        assert(rest[m] == pairs[m] && rest[n] == pairs[n]);
                    }
                }
                assert forall|x: Seq<char>| #[trigger] om.contains(x) implies !pk.contains(x) by {
                    let m = choose|m: int| 0 <= m < rest.len() && (#[trigger] rest[m]).1 == Some(x) && !fits_at(rest, budget, m);
                    assert(pairs[m] == rest[m]);
                    if pk.contains(x) {
                        let j = choose|j: int| 0 <= j < pk.len() && pk[j] == x;
                        if j < pk0.len() {
                            assert(pk0[j] == x);
                            assert(pk0.contains(x));
                        } else {
                            assert(pairs[i].1 == Some(x));
                            assert(m < i);
                        }
                    }
                }
            }
        } else if pairs[i].1 is Some {
            let k = pairs[i].1->Some_0;
            assert(pk == pk0);
            assert(it == it0);
            assert(om == om0.push(k));
            assert forall|x: Seq<char>| #[trigger] pk.contains(x)
                implies exists|m: int| 0 <= m < pairs.len() && (#[trigger] pairs[m]).1 == Some(x) && fits_at(pairs, budget, m) by {
                assert(pk0.contains(x));
                let m = choose|m: int| 0 <= m < rest.len() && (#[trigger] rest[m]).1 == Some(x) && fits_at(rest, budget, m);
                assert(pairs[m] == rest[m]);
            }
            assert forall|x: Seq<char>| #[trigger] om.contains(x)
                implies exists|m: int| 0 <= m < pairs.len() && (#[trigger] pairs[m]).1 == Some(x) && !fits_at(pairs, budget, m) by {
                let j = choose|j: int| 0 <= j < om.len() && om[j] == x;
                if j < om0.len() {
                    assert(om0[j] == x);
                    assert(om0.contains(x));
                    let m = choose|m: int| 0 <= m < rest.len() && (#[trigger] rest[m]).1 == Some(x) && !fits_at(rest, budget, m);
                    assert(pairs[m] == rest[m]);
                } else {
                    assert(pairs[i].1 == Some(x));
                }
            }
            if distinct_keys(pairs) {
                assert(distinct_keys(rest)) by {
                    assert forall|m: int, n: int| 0 <= m < n < rest.len() && (#[trigger] rest[m]).1 is Some && (#[trigger] rest[n]).1 is Some
                        implies rest[m].1 != rest[n].1 by {
                        assert(rest[m] == pairs[m] && rest[n] == pairs[n]);
                    }
                }
                assert forall|x: Seq<char>| #[trigger] om.contains(x) implies !pk.contains(x) by {
                    if pk.contains(x) {
                        assert(pk0.contains(x));
                        let m = choose|m: int| 0 <= m < rest.len() && (#[trigger] rest[m]).1 == Some(x) && fits_at(rest, budget, m);
                        assert(pairs[m] == rest[m]);
                        let j = choose|j: int| 0 <= j < om.len() && om[j] == x;
                        if j < om0.len() {
                            assert(om0[j] == x);
                            assert(om0.contains(x));
                        } else {
                            assert(pairs[i].1 == Some(x));
                            assert(m < i);
                        }
                    }
                }
            }
        } else {
            assert(pk == pk0);
            assert(it == it0);
            assert(om == om0);
            assert forall|x: Seq<char>| #[trigger] pk.contains(x)
                implies exists|m: int| 0 <= m < pairs.len() && (#[trigger] pairs[m]).1 == Some(x) && fits_at(pairs, budget, m) by {
                let m = choose|m: int| 0 <= m < rest.len() && (#[trigger] rest[m]).1 == Some(x) && fits_at(rest, budget, m);
                assert(pairs[m] == rest[m]);
            }
            assert forall|x: Seq<char>| #[trigger] om.contains(x)
                implies exists|m: int| 0 <= m < pairs.len() && (#[trigger] pairs[m]).1 == Some(x) && !fits_at(pairs, budget, m) by {
                let m = choose|m: int| 0 <= m < rest.len() && (#[trigger] rest[m]).1 == Some(x) && !fits_at(rest, budget, m);
                assert(pairs[m] == rest[m]);
            }
            if distinct_keys(pairs) {
                assert(distinct_keys(rest)) by {
                    assert forall|m: int, n: int| 0 <= m < n < rest.len() && (#[trigger] rest[m]).1 is Some && (#[trigger] rest[n]).1 is Some
                        implies rest[m].1 != rest[n].1 by {
                        assert(rest[m] == pairs[m] && rest[n] == pairs[n]);
                    }
                }
            }
        }
    }
}

/// The filename prefix and suffix, and their lengths.
pub const MSI_FILENAME_PREFIX: &'static str = "scanopy-daemon-";
pub const MSI_FILENAME_SUFFIX: &'static str = ".msi";
pub const MSI_FILENAME_PREFIX_LEN: usize = 15;
pub const MSI_FILENAME_SUFFIX_LEN: usize = 4;

/// The longest query that still fits in a filename once base64 has expanded
/// every 3 bytes to 4 characters.
pub fn max_msi_query_len() -> (r: usize)
    ensures
        r == (MAX_MSI_FILENAME_LEN - MSI_FILENAME_PREFIX_LEN - MSI_FILENAME_SUFFIX_LEN) / 4 * 3,
        r == 177,
{
    let budget = MAX_MSI_FILENAME_LEN - MSI_FILENAME_PREFIX_LEN - MSI_FILENAME_SUFFIX_LEN;
    budget / 4 * 3
}

/// Builds the query the MSI filename encodes: `key=value` items in order,
/// `&`-separated, within the query budget. Returns the query and the keys
/// that did not fit.
pub fn msi_config_query(pairs: &Vec<InstallConfigPair>) -> (r: (String, Vec<String>))
    requires
        ascii_keys(pair_views(pairs@)),
    ensures
        r.0@ == pack_query(pair_views(pairs@), 177).0,
        r.1@.map_values(|s: String| s@) == pack_query(pair_views(pairs@), 177).1,
{
    let ghost pv = pair_views(pairs@);
    let budget = max_msi_query_len();
    let mut query = String::new();
    let mut qlen: usize = 0;
    let mut omitted: Vec<String> = Vec::new();
    let mut i: usize = 0;
    while i < pairs.len()
        invariant
            i <= pairs@.len(),
            budget == 177,
            pv == pair_views(pairs@),
            ascii_keys(pv),
            query@ == pack_query(pv.take(i as int), 177).0,
            omitted@.map_values(|s: String| s@) == pack_query(pv.take(i as int), 177).1,
            qlen == query@.len(),
            qlen <= budget,
        decreases pairs.len() - i,
    {
        proof {
            assert(pv.take(i + 1).drop_last() =~= pv.take(i as int));
            assert(pv.take(i + 1).last() == pairs@[i as int]@);
            lemma_pack_query_fits(pv.take(i + 1), 177);
        }
        let p = &pairs[i];
        match &p.msi_key {
            None => {},
            Some(k) => {
                let mut enc = String::new();
                enc.append(k.as_str());
                push_char(&mut enc, '=');
                let esc = escape_msi_value(p.value.as_str());
                enc.append(esc.as_str());
                let enc_len = chars_of(enc.as_str()).len();
                let sep: usize = if qlen == 0 { 0 } else { 1 };
                if qlen + sep > budget || enc_len > budget - qlen - sep {
                    let ghost before = omitted@;
                    let mut key = String::new();
                    key.append(k.as_str());
                    omitted.push(key);
                    assert(omitted@.map_values(|s: String| s@) =~= before.map_values(|s: String| s@).push(k@));
                } else {
                    if sep == 1 {
                        push_char(&mut query, '&');
                    }
                    query.append(enc.as_str());
                    qlen = qlen + sep + enc_len;
                }
            },
        }
        i = i + 1;
    }
    assert(pv.take(pairs@.len() as int) =~= pv);
    (query, omitted)
}

/// A digit of the base64url alphabet: `A`-`Z`, `a`-`z`, `0`-`9`, `-`, `_`.
pub open spec fn base64url_digit(v: nat) -> char {
    if v < 26 {
        ('A' as nat + v) as char
    } else if v < 52 {
        ('a' as nat + (v - 26)) as char
    } else if v < 62 {
        ('0' as nat + (v - 52)) as char
    } else if v == 62 {
        '-'
    } else {
        '_'
    }
}

/// The base64url encoding of bytes without padding: each three bytes give
/// four digits of six bits, most significant first; a last one or two
/// bytes give two or three digits, the last filled with zero bits.
pub open spec fn base64url_bytes(b: Seq<nat>) -> Seq<char>
    decreases b.len(),
{
    if b.len() == 0 {
        Seq::empty()
    } else if b.len() == 1 {
        seq![base64url_digit(b[0] / 4), base64url_digit((b[0] % 4) * 16)]
    } else if b.len() == 2 {
        seq![base64url_digit(b[0] / 4), base64url_digit((b[0] % 4) * 16 + b[1] / 16), base64url_digit((b[1] % 16) * 4)]
    } else {
        seq![
            base64url_digit(b[0] / 4),
            base64url_digit((b[0] % 4) * 16 + b[1] / 16),
            base64url_digit((b[1] % 16) * 4 + b[2] / 64),
            base64url_digit(b[2] % 64),
        ] + base64url_bytes(b.skip(3))
    }
}

/// The base64url encoding, without padding, of the UTF-8 bytes of a text.
pub open spec fn base64url_unpadded(text: Seq<char>) -> Seq<char> {
    base64url_bytes(utf8_text(text))
}

/// Length of the unpadded base64 encoding of `n` bytes.
pub open spec fn base64_unpadded_len(n: nat) -> nat {
    (4 * n) / 3 + (if (4 * n) % 3 != 0 { 1nat } else { 0nat })
}

proof fn lemma_base64url_bytes_len(b: Seq<nat>)
    ensures
        base64url_bytes(b).len() == base64_unpadded_len(b.len()),
    decreases b.len(),
{
    if b.len() >= 3 {
        lemma_base64url_bytes_len(b.skip(3));
        let m = (b.len() - 3) as nat;
        assert((4 * (m + 3)) / 3 == (4 * m) / 3 + 4) by (nonlinear_arith);
        assert((4 * (m + 3)) % 3 == (4 * m) % 3) by (nonlinear_arith);
    }
}

proof fn lemma_utf8_text_ascii_len(s: Seq<char>)
    requires
        all_ascii(s),
    ensures
        utf8_text(s).len() == s.len(),
    decreases s.len(),
{
    if s.len() > 0 {
        let t = s.drop_first();
        assert forall|i: int| 0 <= i < t.len() implies (#[trigger] t[i] as nat) < 128 by {
            assert(t[i] == s[i + 1]);
        }
        lemma_utf8_text_ascii_len(t);
        assert((s[0] as nat) < 128);
    }
}

/// The encoding of an ASCII text of `n` characters has `4n / 3` digits,
/// rounded up.
pub proof fn lemma_base64url_unpadded_len(text: Seq<char>)
    requires
        all_ascii(text),
    ensures
        base64url_unpadded(text).len() == base64_unpadded_len(text.len()),
{
    lemma_utf8_text_ascii_len(text);
    lemma_base64url_bytes_len(utf8_text(text));
}

/// The six-bit value of a base64url digit.
pub open spec fn base64url_value(c: char) -> nat {
    let n = c as nat;
    if 65 <= n && n <= 90 {
        (n - 65) as nat
    } else if 97 <= n && n <= 122 {
        (n - 97 + 26) as nat
    } else if 48 <= n && n <= 57 {
        (n - 48 + 52) as nat
    } else if c == '-' {
        62
    } else {
        63
    }
}

/// Decodes unpadded base64url digits back to bytes: each four digits give
/// three bytes, a last two or three give one or two.
pub open spec fn base64url_decode(d: Seq<char>) -> Seq<nat>
    decreases d.len(),
{
    let v0 = base64url_value(d[0]);
    let v1 = base64url_value(d[1]);
    let v2 = base64url_value(d[2]);
    let v3 = base64url_value(d[3]);
    if d.len() < 2 {
        Seq::empty()
    } else if d.len() == 2 {
        seq![v0 * 4 + v1 / 16]
    } else if d.len() == 3 {
        seq![v0 * 4 + v1 / 16, (v1 % 16) * 16 + v2 / 4]
    } else {
        seq![v0 * 4 + v1 / 16, (v1 % 16) * 16 + v2 / 4, (v2 % 4) * 64 + v3] + base64url_decode(d.skip(4))
    }
}

proof fn lemma_digit_value(v: nat)
    requires
        v < 64,
    ensures
        base64url_value(base64url_digit(v)) == v,
{
    if v < 26 {
        assert((('A' as nat + v) as char) as nat == 65 + v);
    } else if v < 52 {
        assert((('a' as nat + (v - 26)) as char) as nat == 97 + (v - 26));
    } else if v < 62 {
        assert((('0' as nat + (v - 52)) as char) as nat == 48 + (v - 52));
    } else if v == 62 {
        assert(('-' as nat) == 45);
    } else {
        assert(('_' as nat) == 95);
    }
}

proof fn lemma_group_reads_back(b0: nat, b1: nat, b2: nat)
    requires
        b0 < 256,
        b1 < 256,
        b2 < 256,
    ensures
        b0 / 4 < 64,
        (b0 % 4) * 16 + b1 / 16 < 64,
        (b1 % 16) * 4 + b2 / 64 < 64,
        (b0 % 4) * 16 < 64,
        (b1 % 16) * 4 < 64,
        b2 % 64 < 64,
        (b0 / 4) * 4 + ((b0 % 4) * 16 + b1 / 16) / 16 == b0,
        (b0 / 4) * 4 + ((b0 % 4) * 16) / 16 == b0,
        (((b0 % 4) * 16 + b1 / 16) % 16) * 16 + ((b1 % 16) * 4 + b2 / 64) / 4 == b1,
        (((b0 % 4) * 16 + b1 / 16) % 16) * 16 + ((b1 % 16) * 4) / 4 == b1,
        (((b1 % 16) * 4 + b2 / 64) % 4) * 64 + b2 % 64 == b2,
{
    assert((b0 / 4) * 4 + b0 % 4 == b0) by (nonlinear_arith);
    assert(b1 / 16 < 16) by (nonlinear_arith) requires b1 < 256;
    assert(((b0 % 4) * 16 + b1 / 16) / 16 == b0 % 4) by (nonlinear_arith) requires b1 / 16 < 16;
    assert(((b0 % 4) * 16 + b1 / 16) % 16 == b1 / 16) by (nonlinear_arith) requires b1 / 16 < 16;
    assert(b2 / 64 < 4) by (nonlinear_arith) requires b2 < 256;
    assert(((b1 % 16) * 4 + b2 / 64) / 4 == b1 % 16) by (nonlinear_arith) requires b2 / 64 < 4;
    assert(((b1 % 16) * 4 + b2 / 64) % 4 == b2 / 64) by (nonlinear_arith) requires b2 / 64 < 4;
    assert((b1 / 16) * 16 + b1 % 16 == b1) by (nonlinear_arith);
    assert((b2 / 64) * 64 + b2 % 64 == b2) by (nonlinear_arith);
    assert(b0 / 4 < 64) by (nonlinear_arith) requires b0 < 256;
}

/// Decoding base64url digits gives back the bytes they encode.
pub proof fn lemma_base64url_reads_back(b: Seq<nat>)
    requires
        forall|i: int| 0 <= i < b.len() ==> #[trigger] b[i] < 256,
    ensures
        base64url_decode(base64url_bytes(b)) == b,
    decreases b.len(),
{
    let d = base64url_bytes(b);
    if b.len() == 0 {
    } else if b.len() == 1 {
        lemma_group_reads_back(b[0], 0, 0);
        lemma_digit_value(b[0] / 4);
        lemma_digit_value((b[0] % 4) * 16);
        assert(base64url_decode(d) =~= b);
    } else if b.len() == 2 {
        lemma_group_reads_back(b[0], b[1], 0);
        lemma_digit_value(b[0] / 4);
        lemma_digit_value((b[0] % 4) * 16 + b[1] / 16);
        lemma_digit_value((b[1] % 16) * 4);
        assert(base64url_decode(d) =~= b);
    } else {
        let rest = b.skip(3);
        assert forall|i: int| 0 <= i < rest.len() implies #[trigger] rest[i] < 256 by {
            assert(rest[i] == b[i + 3]);
        }
        lemma_base64url_reads_back(rest);
        lemma_group_reads_back(b[0], b[1], b[2]);
        lemma_digit_value(b[0] / 4);
        lemma_digit_value((b[0] % 4) * 16 + b[1] / 16);
        lemma_digit_value((b[1] % 16) * 4 + b[2] / 64);
        lemma_digit_value(b[2] % 64);
        let head = seq![
            base64url_digit(b[0] / 4),
            base64url_digit((b[0] % 4) * 16 + b[1] / 16),
            base64url_digit((b[1] % 16) * 4 + b[2] / 64),
            base64url_digit(b[2] % 64),
        ];
        assert(d == head + base64url_bytes(rest));
        assert(d.skip(4) =~= base64url_bytes(rest));
        assert(base64url_decode(d) =~= seq![b[0], b[1], b[2]] + rest);
        assert(seq![b[0], b[1], b[2]] + rest =~= b);
    }
}

proof fn lemma_utf8_text_small(s: Seq<char>)
    ensures
        forall|i: int| 0 <= i < utf8_text(s).len() ==> #[trigger] utf8_text(s)[i] < 256,
    decreases s.len(),
{
    if s.len() > 0 {
        lemma_utf8_bytes_small(s[0]);
        lemma_utf8_text_small(s.drop_first());
        let a = utf8_bytes(s[0]);
        let t = utf8_text(s.drop_first());
        assert forall|i: int| 0 <= i < utf8_text(s).len() implies #[trigger] utf8_text(s)[i] < 256 by {
            if i < a.len() {
                assert(utf8_text(s)[i] == a[i]);
            } else {
                assert(utf8_text(s)[i] == t[i - a.len()]);
            }
        }
    }
}

/// The middle of an MSI filename decodes back to the UTF-8 bytes of the
/// configuration query: the installer reads the query it was given.
pub proof fn lemma_base64url_unpadded_reads_back(text: Seq<char>)
    ensures
        base64url_decode(base64url_unpadded(text)) == utf8_text(text),
{
    lemma_utf8_text_small(text);
    lemma_base64url_reads_back(utf8_text(text));
}

/// `base64ct::Base64UrlUnpadded::encode_string` on the UTF-8 bytes of
/// `text`: their base64url encoding without padding. `encode_string`
/// panics beyond `usize::MAX / 4` bytes, so the input is kept below that.
#[verifier::external_body]
fn base64url_encode(text: &str) -> (r: String)
    requires
        4 * text@.len() <= usize::MAX / 4,
    ensures
        r@ == base64url_unpadded(text@),
{
    <base64ct::Base64UrlUnpadded as base64ct::Encoding>::encode_string(text.as_bytes())
}

/// `scanopy-daemon-<query, base64url>.msi`.
pub open spec fn msi_filename(query: Seq<char>) -> Seq<char> {
    "scanopy-daemon-"@ + base64url_unpadded(query) + ".msi"@
}

/// Builds the MSI filename: the configuration query as one base64url
/// segment between the prefix and `.msi`. Also returns the keys that did not
/// fit in the query. The filename never exceeds 255 characters.
pub fn encode_msi_filename(pairs: &Vec<InstallConfigPair>) -> (r: (String, Vec<String>))
    requires
        ascii_keys(pair_views(pairs@)),
    ensures
        r.0@ == msi_filename(pack_query(pair_views(pairs@), 177).0),
        r.1@.map_values(|s: String| s@) == pack_query(pair_views(pairs@), 177).1,
        r.0@.len() <= MAX_MSI_FILENAME_LEN,
{
    let (query, omitted) = msi_config_query(pairs);
    proof {
        lemma_pack_query_fits(pair_views(pairs@), 177);
        reveal_strlit("scanopy-daemon-");
        reveal_strlit(".msi");
    }
    let blob = base64url_encode(query.as_str());
    proof {
        lemma_base64url_unpadded_len(query@);
    }
    let mut name = String::new();
    name.append(MSI_FILENAME_PREFIX);
    name.append(blob.as_str());
    name.append(MSI_FILENAME_SUFFIX);
    (name, omitted)
}

// ---------------------------------------------------------------------------
// Server-controlled settings and the artifacts
// ---------------------------------------------------------------------------

/// The daemon record an install is built for.
pub struct DaemonRecord {
    pub name: String,
    pub mode: DaemonMode,
    /// The url the server dials (empty for a daemon that dials the server).
    pub url: String,
}

/// The settings the server imposes on an install, whatever the caller asked
/// for: the daemon's name and mode, its api key, the server url (only for a
/// daemon that dials the server, and only when the server knows its own
/// url), and the port (only for a daemon the server dials: the port of its
/// url).
pub struct ServerControlledArgs {
    pub name: String,
    pub mode: DaemonMode,
    pub daemon_api_key: String,
    pub server_url: Option<String>,
    pub daemon_port: Option<u16>,
}

/// `s` without its trailing `/` characters.
pub open spec fn trim_slashes(s: Seq<char>) -> Seq<char>
    decreases s.len(),
{
    if s.len() > 0 && s.last() == '/' {
        trim_slashes(s.drop_last())
    } else {
        s
    }
}

/// Removes trailing `/` characters.
pub fn trim_trailing_slashes(s: &str) -> (r: String)
    ensures
        r@ == trim_slashes(s@),
{
    let v = chars_of(s);
    let mut n: usize = v.len();
    assert(v@.take(n as int) =~= v@);
    while n > 0 && v[n - 1] == '/'
        invariant
            n <= v@.len(),
            v@ == s@,
            trim_slashes(s@) == trim_slashes(v@.take(n as int)),
        decreases n,
    {
        assert(v@.take(n as int).drop_last() =~= v@.take(n - 1));
        n = n - 1;
    }
    let mut r = String::new();
    push_chars(&mut r, &v, 0, n);
    assert(v@.subrange(0, n as int) =~= v@.take(n as int));
    r
}

/// The port of a url, or its scheme's known default port; `None` when the
/// text does not parse as a url or has neither.
pub uninterp spec fn url_port_or_known_default(url: Seq<char>) -> Option<u16>;

/// `url::Url::parse` followed by `port_or_known_default`. The result is
/// named: it is a function of the text alone.
#[verifier::external_body]
pub(crate) fn url_port(url: &str) -> (r: Option<u16>)
    ensures
        r == url_port_or_known_default(url@),
{
    match url::Url::parse(url) {
        Ok(u) => u.port_or_known_default(),
        Err(_) => None,
    }
}

/// Resolves the server-controlled settings of an install: every one is
/// taken from the daemon record and the server, never from the caller.
pub fn install_args(public_url: &str, daemon: &DaemonRecord, api_key: &str) -> (a: ServerControlledArgs)
    ensures
        a.name@ == daemon.name@,
        a.mode == daemon.mode,
        a.daemon_api_key@ == api_key@,
        a.server_url matches Some(u) ==> u@ == public_url@,
        a.server_url is Some <==> (daemon.mode == DaemonMode::DaemonPoll && public_url@.len() > 0),
        a.daemon_port == (if daemon.mode == DaemonMode::ServerPoll {
            url_port_or_known_default(daemon.url@)
        } else {
            None
        }),
{
    let mut name = String::new();
    name.append(daemon.name.as_str());
    let mut key = String::new();
    key.append(api_key);
    let empty_url = chars_of(public_url).len() == 0;
    let server_url = match daemon.mode {
        DaemonMode::DaemonPoll => if !empty_url {
            let mut u = String::new();
            u.append(public_url);
            Some(u)
        } else {
            None
        },
        DaemonMode::ServerPoll => None,
    };
    let daemon_port = match daemon.mode {
        DaemonMode::ServerPoll => url_port(daemon.url.as_str()),
        DaemonMode::DaemonPoll => None,
    };
    ServerControlledArgs { name, mode: daemon.mode, daemon_api_key: key, server_url, daemon_port }
}

pub const UNIX_INSTALL_SCRIPT: &'static str = "bash -c \"$(curl -fsSL https://raw.githubusercontent.com/scanopy/scanopy/refs/heads/main/install.sh)\"";
pub const WINDOWS_EXE_URL: &'static str = "https://github.com/scanopy/scanopy/releases/latest/download/scanopy-daemon-windows-amd64.exe";
pub const WINDOWS_MSI_URL: &'static str = "https://github.com/scanopy/scanopy/releases/latest/download/scanopy-daemon-windows-amd64.msi";

/// The command for the Unix platforms: fetch the installer, then install
/// with the given flags.
pub open spec fn unix_command(flags: Seq<char>) -> Seq<char> {
    UNIX_INSTALL_SCRIPT@ + " && sudo scanopy-daemon install "@ + flags
}

/// The Windows command: download the executable, then install with the
/// given flags.
pub open spec fn windows_command(flags: Seq<char>) -> Seq<char> {
    "Invoke-WebRequest -Uri \""@ + WINDOWS_EXE_URL@
        + "\" -OutFile \"scanopy-daemon-windows-amd64.exe\"; .\\scanopy-daemon-windows-amd64.exe install "@
        + flags
}

fn platform_command(platform: &str, command: &str) -> (c: PlatformInstallCommand)
    ensures
        c.platform@ == platform@,
        c.command@ == command@,
{
    let mut p = String::new();
    p.append(platform);
    let mut cmd = String::new();
    cmd.append(command);
    PlatformInstallCommand { platform: p, command: cmd }
}

/// Assembles the install artifacts of a provisioned daemon from its
/// resolved configuration: `command_pairs` for the install commands (they
/// carry the api key), `msi_pairs` for the MSI filename (resolved with an
/// empty api key, which has no MSI key). The Unix platforms share one
/// command; Windows gets the PowerShell one.
pub fn assemble_install_artifacts(command_pairs: &Vec<InstallConfigPair>, msi_pairs: &Vec<InstallConfigPair>) -> (a: InstallArtifacts)
    requires
        ascii_keys(pair_views(msi_pairs@)),
    ensures
        a.commands@.len() == 4,
        a.commands@[0].platform@ == "linux"@,
        a.commands@[1].platform@ == "macos"@,
        a.commands@[2].platform@ == "freebsd"@,
        a.commands@[3].platform@ == "windows"@,
        a.commands@[0].command@ == unix_command(flags_text(pair_views(command_pairs@), true)),
        a.commands@[1].command@ == unix_command(flags_text(pair_views(command_pairs@), true)),
        a.commands@[2].command@ == unix_command(flags_text(pair_views(command_pairs@), true)),
        a.commands@[3].command@ == windows_command(flags_text(pair_views(command_pairs@), false)),
        a.msi_filename@ == msi_filename(pack_query(pair_views(msi_pairs@), 177).0),
        a.msi_omitted_config_keys@.map_values(|s: String| s@) == pack_query(pair_views(msi_pairs@), 177).1,
        a.msi_filename@.len() <= MAX_MSI_FILENAME_LEN,
{
    let posix_flags = install_flags(command_pairs, true);
    let mut unix = String::new();
    unix.append(UNIX_INSTALL_SCRIPT);
    unix.append(" && sudo scanopy-daemon install ");
    unix.append(posix_flags.as_str());
    let ps_flags = install_flags(command_pairs, false);
    let mut windows = String::new();
    windows.append("Invoke-WebRequest -Uri \"");
    windows.append(WINDOWS_EXE_URL);
    windows.append("\" -OutFile \"scanopy-daemon-windows-amd64.exe\"; .\\scanopy-daemon-windows-amd64.exe install ");
    windows.append(ps_flags.as_str());
    let commands = vec![
        platform_command("linux", unix.as_str()),
        platform_command("macos", unix.as_str()),
        platform_command("freebsd", unix.as_str()),
        platform_command("windows", windows.as_str()),
    ];
    let (msi_filename, msi_omitted_config_keys) = encode_msi_filename(msi_pairs);
    InstallArtifacts { commands, msi_filename, msi_omitted_config_keys }
}

// ---------------------------------------------------------------------------
// Resolving the configuration
// ---------------------------------------------------------------------------

/// The settings a caller may give an install: the advanced ones. They are
/// the only part of a daemon's configuration a client sets; name, mode,
/// api key, server url and port come from the daemon record and the
/// server.
#[derive(Default)]
pub struct AdvancedInstallConfig {
    pub log_level: Option<String>,
    pub log_file: Option<String>,
    pub heartbeat_interval: Option<u64>,
    pub bind_address: Option<String>,
    pub interfaces: Option<Vec<String>>,
    pub allow_self_signed_certs: Option<bool>,
    pub accept_invalid_scan_certs: Option<bool>,
}

/// A setting's view: its flag, its MSI key and its value.
pub open spec fn setting(flag: Option<Seq<char>>, key: Option<Seq<char>>, value: Seq<char>) -> (Option<Seq<char>>, Option<Seq<char>>, Seq<char>) {
    (flag, key, value)
}

/// One flagged, keyed setting when there is a value, else none.
pub open spec fn opt_setting(flag: Seq<char>, key: Seq<char>, value: Option<Seq<char>>) -> Seq<(Option<Seq<char>>, Option<Seq<char>>, Seq<char>)> {
    match value {
        Some(v) => seq![setting(Some(flag), Some(key), v)],
        None => Seq::empty(),
    }
}

/// `true` or `false`.
pub open spec fn bool_text(b: bool) -> Seq<char> {
    if b { "true"@ } else { "false"@ }
}

/// A mode's identifier.
pub open spec fn mode_id(m: DaemonMode) -> Seq<char> {
    match m {
        DaemonMode::DaemonPoll => "daemon_poll"@,
        DaemonMode::ServerPoll => "server_poll"@,
    }
}

/// The logging settings, in order, each one that is set.
pub open spec fn logging_settings(c: AdvancedInstallConfig) -> Seq<(Option<Seq<char>>, Option<Seq<char>>, Seq<char>)> {
    opt_setting("--log-level"@, "loglevel"@, opt_text(c.log_level))
        + opt_setting("--log-file"@, "logfile"@, opt_text(c.log_file))
        + opt_setting("--heartbeat-interval"@, "heartbeat"@, match c.heartbeat_interval {
            Some(n) => Some(decimal(n as nat)),
            None => None,
        })
}

/// The network settings, in order, each one that is set.
pub open spec fn network_settings(c: AdvancedInstallConfig) -> Seq<(Option<Seq<char>>, Option<Seq<char>>, Seq<char>)> {
    opt_setting("--bind-address"@, "bindaddress"@, opt_text(c.bind_address))
        + opt_setting("--interfaces"@, "interfaces"@, match c.interfaces {
            Some(v) => Some(join(v@.map_values(|x: String| x@), seq![','])),
            None => None,
        })
        + opt_setting("--allow-self-signed-certs"@, "allowselfsigned"@, match c.allow_self_signed_certs {
            Some(b) => Some(bool_text(b)),
            None => None,
        })
        + opt_setting("--accept-invalid-scan-certs"@, "acceptinvalidscancerts"@, match c.accept_invalid_scan_certs {
            Some(b) => Some(bool_text(b)),
            None => None,
        })
}

/// The advanced settings, in order, each one that is set.
pub open spec fn advanced_settings(c: AdvancedInstallConfig) -> Seq<(Option<Seq<char>>, Option<Seq<char>>, Seq<char>)> {
    logging_settings(c) + network_settings(c)
}

/// The server-controlled settings, identity first: mode and name (MSI
/// only), the server url, the api key (command only, when there is one)
/// and the port.
pub open spec fn server_settings(s: ServerControlledArgs) -> Seq<(Option<Seq<char>>, Option<Seq<char>>, Seq<char>)> {
    seq![setting(None, Some("mode"@), mode_id(s.mode)), setting(None, Some("name"@), s.name@)]
        + opt_setting("--server-url"@, "url"@, opt_text(s.server_url))
        + (if s.daemon_api_key@.len() > 0 {
            seq![setting(Some("--daemon-api-key"@), None, s.daemon_api_key@)]
        } else {
            Seq::empty()
        })
        + opt_setting("--daemon-port"@, "port"@, match s.daemon_port {
            Some(p) => Some(decimal(p as nat)),
            None => None,
        })
}

fn make_setting(flag: Option<&str>, key: Option<&str>, value: String) -> (p: InstallConfigPair)
    ensures
        p@ == setting(
            match flag { Some(f) => Some(f@), None => None },
            match key { Some(k) => Some(k@), None => None },
            value@,
        ),
{
    let cli_flag = match flag {
        Some(f) => {
            let mut t = String::new();
            t.append(f);
            Some(t)
        },
        None => None,
    };
    let msi_key = match key {
        Some(k) => {
            let mut t = String::new();
            t.append(k);
            Some(t)
        },
        None => None,
    };
    InstallConfigPair { cli_flag, msi_key, value }
}

fn copy_string(s: &String) -> (r: String)
    ensures
        r@ == s@,
{
    let mut t = String::new();
    t.append(s.as_str());
    t
}

fn push_opt_setting(out: &mut Vec<InstallConfigPair>, flag: &str, key: &str, value: Option<String>)
    ensures
        pair_views(final(out)@) == pair_views(old(out)@) + opt_setting(flag@, key@, opt_text(value)),
{
    let ghost before = pair_views(out@);
    match value {
        Some(v) => {
            let p = make_setting(Some(flag), Some(key), v);
            out.push(p);
            assert(pair_views(out@) =~= before + opt_setting(flag@, key@, opt_text(value)));
        },
        None => {
            assert(before + opt_setting(flag@, key@, opt_text(value)) =~= before);
        },
    }
}

fn bool_string(b: bool) -> (r: String)
    ensures
        r@ == bool_text(b),
{
    let mut t = String::new();
    if b {
        t.append("true");
    } else {
        t.append("false");
    }
    t
}

fn push_server_settings(out: &mut Vec<InstallConfigPair>, server: &ServerControlledArgs)
    ensures
        pair_views(final(out)@) == pair_views(old(out)@) + server_settings(*server),
{
    let ghost start = pair_views(out@);
    let mode = server.mode.id();
    let mut mode_text = String::new();
    mode_text.append(mode);
    out.push(make_setting(None, Some("mode"), mode_text));
    out.push(make_setting(None, Some("name"), copy_string(&server.name)));
    assert(pair_views(out@) =~= start + seq![setting(None, Some("mode"@), mode_id(server.mode)), setting(None, Some("name"@), server.name@)]);
    let url = match &server.server_url {
        Some(u) => Some(copy_string(u)),
        None => None,
    };
    push_opt_setting(out, "--server-url", "url", url);
    let ghost with_url = pair_views(out@);
    if chars_of(server.daemon_api_key.as_str()).len() > 0 {
        out.push(make_setting(Some("--daemon-api-key"), None, copy_string(&server.daemon_api_key)));
        assert(pair_views(out@) =~= with_url + seq![setting(Some("--daemon-api-key"@), None, server.daemon_api_key@)]);
    } else {
        assert(with_url + Seq::empty() =~= with_url);
    }
    let port = match server.daemon_port {
        Some(p) => Some(decimal_string(p as u64)),
        None => None,
    };
    push_opt_setting(out, "--daemon-port", "port", port);
    assert(pair_views(out@) =~= start + server_settings(*server));
}

fn copy_opt(o: &Option<String>) -> (r: Option<String>)
    ensures
        opt_text(r) == opt_text(*o),
{
    match o {
        Some(x) => Some(copy_string(x)),
        None => None,
    }
}

fn push_logging_settings(out: &mut Vec<InstallConfigPair>, adv: &AdvancedInstallConfig)
    ensures
        pair_views(final(out)@) == pair_views(old(out)@) + logging_settings(*adv),
{
    let ghost start = pair_views(out@);
    push_opt_setting(out, "--log-level", "loglevel", copy_opt(&adv.log_level));
    push_opt_setting(out, "--log-file", "logfile", copy_opt(&adv.log_file));
    let beat = match adv.heartbeat_interval {
        Some(n) => Some(decimal_string(n)),
        None => None,
    };
    push_opt_setting(out, "--heartbeat-interval", "heartbeat", beat);
    assert(pair_views(out@) =~= start + logging_settings(*adv));
}

fn push_network_settings(out: &mut Vec<InstallConfigPair>, adv: &AdvancedInstallConfig)
    ensures
        pair_views(final(out)@) == pair_views(old(out)@) + network_settings(*adv),
{
    let ghost start = pair_views(out@);
    push_opt_setting(out, "--bind-address", "bindaddress", copy_opt(&adv.bind_address));
    let ifs = match &adv.interfaces {
        Some(list) => Some(join_with(list, ',')),
        None => None,
    };
    push_opt_setting(out, "--interfaces", "interfaces", ifs);
    let self_signed = match adv.allow_self_signed_certs {
        Some(b) => Some(bool_string(b)),
        None => None,
    };
    push_opt_setting(out, "--allow-self-signed-certs", "allowselfsigned", self_signed);
    let invalid = match adv.accept_invalid_scan_certs {
        Some(b) => Some(bool_string(b)),
        None => None,
    };
    push_opt_setting(out, "--accept-invalid-scan-certs", "acceptinvalidscancerts", invalid);
    assert(pair_views(out@) =~= start + network_settings(*adv));
}

fn push_advanced_settings(out: &mut Vec<InstallConfigPair>, adv: &AdvancedInstallConfig)
    ensures
        pair_views(final(out)@) == pair_views(old(out)@) + advanced_settings(*adv),
{
    let ghost start = pair_views(out@);
    push_logging_settings(out, adv);
    let ghost mid = pair_views(out@);
    push_network_settings(out, adv);
    assert(start + logging_settings(*adv) + network_settings(*adv) =~= start + advanced_settings(*adv));
}

/// The settings of a resolved configuration, in order: the server-controlled
/// ones (identity first), then the caller's advanced ones.
pub fn install_config_pairs(server: &ServerControlledArgs, adv: &AdvancedInstallConfig) -> (v: Vec<InstallConfigPair>)
    ensures
        pair_views(v@) == server_settings(*server) + advanced_settings(*adv),
{
    let mut v: Vec<InstallConfigPair> = Vec::new();
    assert(pair_views(v@) =~= Seq::empty());
    push_server_settings(&mut v, server);
    push_advanced_settings(&mut v, adv);
    assert(Seq::<(Option<Seq<char>>, Option<Seq<char>>, Seq<char>)>::empty() + server_settings(*server) =~= server_settings(*server));
    v
}
/// The server-controlled settings of an install, from the server's public
/// url (its trailing slashes dropped), the daemon record and the api key:
/// mode and name; the server url for a daemon that dials the server, when
/// the server knows its url; the api key when there is one; and, for a
/// daemon the server dials, the port of its url.
pub open spec fn resolved_server_settings(public_url: Seq<char>, d: DaemonRecord, key: Seq<char>) -> Seq<(Option<Seq<char>>, Option<Seq<char>>, Seq<char>)> {
    let url = trim_slashes(public_url);
    seq![setting(None, Some("mode"@), mode_id(d.mode)), setting(None, Some("name"@), d.name@)]
        + (if d.mode == DaemonMode::DaemonPoll && url.len() > 0 {
            seq![setting(Some("--server-url"@), Some("url"@), url)]
        } else {
            Seq::empty()
        })
        + (if key.len() > 0 {
            seq![setting(Some("--daemon-api-key"@), None, key)]
        } else {
            Seq::empty()
        })
        + (if d.mode == DaemonMode::ServerPoll {
            opt_setting("--daemon-port"@, "port"@, match url_port_or_known_default(d.url@) {
                Some(p) => Some(decimal(p as nat)),
                None => None,
            })
        } else {
            Seq::empty()
        })
}

/// All settings of an install: the server-controlled ones, then the
/// caller's advanced ones, if any.
pub open spec fn resolved_settings(public_url: Seq<char>, d: DaemonRecord, key: Seq<char>, cfg: Option<AdvancedInstallConfig>) -> Seq<(Option<Seq<char>>, Option<Seq<char>>, Seq<char>)> {
    resolved_server_settings(public_url, d, key) + match cfg {
        Some(c) => advanced_settings(c),
        None => Seq::empty(),
    }
}

fn resolved_pairs(public_url: &str, daemon: &DaemonRecord, api_key: &str, install_config: Option<&AdvancedInstallConfig>) -> (v: Vec<InstallConfigPair>)
    ensures
        pair_views(v@) == resolved_settings(public_url@, *daemon, api_key@, match install_config {
            Some(c) => Some(*c),
            None => None,
        }),
{
    let url = trim_trailing_slashes(public_url);
    let server = install_args(url.as_str(), daemon, api_key);
    assert(server_settings(server) =~= resolved_server_settings(public_url@, *daemon, api_key@));
    match install_config {
        Some(c) => install_config_pairs(&server, c),
        None => {
            let none = AdvancedInstallConfig {
                log_level: None,
                log_file: None,
                heartbeat_interval: None,
                bind_address: None,
                interfaces: None,
                allow_self_signed_certs: None,
                accept_invalid_scan_certs: None,
            };
            let v = install_config_pairs(&server, &none);
            assert(advanced_settings(none) =~= Seq::empty());
            assert(resolved_settings(public_url@, *daemon, api_key@, None) =~= server_settings(server) + advanced_settings(none));
            v
        },
    }
}

/// Two texts that differ in length or at some position below both lengths.
pub open spec fn differ(a: Seq<char>, b: Seq<char>) -> bool {
    a.len() != b.len() || exists|i: int| 0 <= i < a.len() && #[trigger] a[i] != b[i]
}

/// Every setting of `v` satisfies `p`.
pub open spec fn all_settings(v: Seq<(Option<Seq<char>>, Option<Seq<char>>, Seq<char>)>, p: spec_fn((Option<Seq<char>>, Option<Seq<char>>, Seq<char>)) -> bool) -> bool {
    forall|i: int| 0 <= i < v.len() ==> p(#[trigger] v[i])
}

proof fn lemma_all_settings_concat(
    a: Seq<(Option<Seq<char>>, Option<Seq<char>>, Seq<char>)>,
    b: Seq<(Option<Seq<char>>, Option<Seq<char>>, Seq<char>)>,
    p: spec_fn((Option<Seq<char>>, Option<Seq<char>>, Seq<char>)) -> bool,
)
    requires
        all_settings(a, p),
        all_settings(b, p),
    ensures
        all_settings(a + b, p),
{
    assert forall|i: int| 0 <= i < (a + b).len() implies p(#[trigger] (a + b)[i]) by {
        if i < a.len() {
            assert((a + b)[i] == a[i]);
        } else {
            assert((a + b)[i] == b[i - a.len()]);
        }
    }
}

proof fn lemma_all_settings_pieces(
    public_url: Seq<char>,
    d: DaemonRecord,
    key: Seq<char>,
    cfg: Option<AdvancedInstallConfig>,
    p: spec_fn((Option<Seq<char>>, Option<Seq<char>>, Seq<char>)) -> bool,
)
    requires
        ({
            let v = resolved_settings(public_url, d, key, cfg);
            let url = trim_slashes(public_url);
            &&& p(setting(None, Some("mode"@), mode_id(d.mode)))
            &&& p(setting(None, Some("name"@), d.name@))
            &&& (d.mode == DaemonMode::DaemonPoll && url.len() > 0) ==> p(setting(Some("--server-url"@), Some("url"@), url))
            &&& key.len() > 0 ==> p(setting(Some("--daemon-api-key"@), None, key))
            &&& forall|t: Seq<char>| p(#[trigger] setting(Some("--daemon-port"@), Some("port"@), t))
            &&& forall|t: Seq<char>| p(#[trigger] setting(Some("--log-level"@), Some("loglevel"@), t))
            &&& forall|t: Seq<char>| p(#[trigger] setting(Some("--log-file"@), Some("logfile"@), t))
            &&& forall|t: Seq<char>| p(#[trigger] setting(Some("--heartbeat-interval"@), Some("heartbeat"@), t))
            &&& forall|t: Seq<char>| p(#[trigger] setting(Some("--bind-address"@), Some("bindaddress"@), t))
            &&& forall|t: Seq<char>| p(#[trigger] setting(Some("--interfaces"@), Some("interfaces"@), t))
            &&& forall|t: Seq<char>| p(#[trigger] setting(Some("--allow-self-signed-certs"@), Some("allowselfsigned"@), t))
            &&& forall|t: Seq<char>| p(#[trigger] setting(Some("--accept-invalid-scan-certs"@), Some("acceptinvalidscancerts"@), t))
        }),
    ensures
        all_settings(resolved_settings(public_url, d, key, cfg), p),
{
    let url = trim_slashes(public_url);
    let s0 = seq![setting(None, Some("mode"@), mode_id(d.mode)), setting(None, Some("name"@), d.name@)];
    let s1: Seq<(Option<Seq<char>>, Option<Seq<char>>, Seq<char>)> = if d.mode == DaemonMode::DaemonPoll && url.len() > 0 {
        seq![setting(Some("--server-url"@), Some("url"@), url)]
    } else {
        Seq::empty()
    };
    let s2: Seq<(Option<Seq<char>>, Option<Seq<char>>, Seq<char>)> = if key.len() > 0 {
        seq![setting(Some("--daemon-api-key"@), None, key)]
    } else {
        Seq::empty()
    };
    let s3: Seq<(Option<Seq<char>>, Option<Seq<char>>, Seq<char>)> = if d.mode == DaemonMode::ServerPoll {
        opt_setting("--daemon-port"@, "port"@, match url_port_or_known_default(d.url@) {
            Some(q) => Some(decimal(q as nat)),
            None => None,
        })
    } else {
        Seq::empty()
    };
    assert(all_settings(s0, p)) by {
        assert forall|i: int| 0 <= i < s0.len() implies p(#[trigger] s0[i]) by {
            if i == 0 { assert(s0[0] == setting(None, Some("mode"@), mode_id(d.mode))); }
            else { assert(s0[1] == setting(None, Some("name"@), d.name@)); }
        }
    }
    assert(all_settings(s1, p));
    assert(all_settings(s2, p));
    assert(all_settings(s3, p)) by {
        assert forall|i: int| 0 <= i < s3.len() implies p(#[trigger] s3[i]) by {
            assert(s3[i].0 == Some("--daemon-port"@) && s3[i].1 == Some("port"@));
            assert(s3[i] == setting(Some("--daemon-port"@), Some("port"@), s3[i].2));
        }
    }
    lemma_all_settings_concat(s0, s1, p);
    lemma_all_settings_concat(s0 + s1, s2, p);
    lemma_all_settings_concat(s0 + s1 + s2, s3, p);
    let server = s0 + s1 + s2 + s3;
    assert(server == resolved_server_settings(public_url, d, key));
    let adv: Seq<(Option<Seq<char>>, Option<Seq<char>>, Seq<char>)> = match cfg {
        Some(c) => advanced_settings(c),
        None => Seq::empty(),
    };
    match cfg {
        Some(c) => {
            lemma_opt_setting_all("--log-level"@, "loglevel"@, opt_text(c.log_level), p);
            lemma_opt_setting_all("--log-file"@, "logfile"@, opt_text(c.log_file), p);
            lemma_opt_setting_all("--heartbeat-interval"@, "heartbeat"@, match c.heartbeat_interval {
                Some(n) => Some(decimal(n as nat)),
                None => None,
            }, p);
            lemma_opt_setting_all("--bind-address"@, "bindaddress"@, opt_text(c.bind_address), p);
            lemma_opt_setting_all("--interfaces"@, "interfaces"@, match c.interfaces {
                Some(v) => Some(join(v@.map_values(|x: String| x@), seq![','])),
                None => None,
            }, p);
            lemma_opt_setting_all("--allow-self-signed-certs"@, "allowselfsigned"@, match c.allow_self_signed_certs {
                Some(b) => Some(bool_text(b)),
                None => None,
            }, p);
            lemma_opt_setting_all("--accept-invalid-scan-certs"@, "acceptinvalidscancerts"@, match c.accept_invalid_scan_certs {
                Some(b) => Some(bool_text(b)),
                None => None,
            }, p);
            let l1 = opt_setting("--log-level"@, "loglevel"@, opt_text(c.log_level));
            let l2 = opt_setting("--log-file"@, "logfile"@, opt_text(c.log_file));
            let l3 = opt_setting("--heartbeat-interval"@, "heartbeat"@, match c.heartbeat_interval {
                Some(n) => Some(decimal(n as nat)),
                None => None,
            });
            let n1 = opt_setting("--bind-address"@, "bindaddress"@, opt_text(c.bind_address));
            let n2 = opt_setting("--interfaces"@, "interfaces"@, match c.interfaces {
                Some(v) => Some(join(v@.map_values(|x: String| x@), seq![','])),
                None => None,
            });
            let n3 = opt_setting("--allow-self-signed-certs"@, "allowselfsigned"@, match c.allow_self_signed_certs {
                Some(b) => Some(bool_text(b)),
                None => None,
            });
            let n4 = opt_setting("--accept-invalid-scan-certs"@, "acceptinvalidscancerts"@, match c.accept_invalid_scan_certs {
                Some(b) => Some(bool_text(b)),
                None => None,
            });
            lemma_all_settings_concat(l1, l2, p);
            lemma_all_settings_concat(l1 + l2, l3, p);
            lemma_all_settings_concat(n1, n2, p);
            lemma_all_settings_concat(n1 + n2, n3, p);
            lemma_all_settings_concat(n1 + n2 + n3, n4, p);
            lemma_all_settings_concat(l1 + l2 + l3, n1 + n2 + n3 + n4, p);
            assert(adv == (l1 + l2 + l3) + (n1 + n2 + n3 + n4));
        },
        None => {},
    }
    lemma_all_settings_concat(server, adv, p);
}

proof fn lemma_opt_setting_all(
    flag: Seq<char>,
    key: Seq<char>,
    value: Option<Seq<char>>,
    p: spec_fn((Option<Seq<char>>, Option<Seq<char>>, Seq<char>)) -> bool,
)
    requires
        forall|t: Seq<char>| p(#[trigger] setting(Some(flag), Some(key), t)),
    ensures
        all_settings(opt_setting(flag, key, value), p),
{
    match value {
        Some(v) => {
            assert(opt_setting(flag, key, value)[0] == setting(Some(flag), Some(key), v));
        },
        None => {},
    }
}

proof fn lemma_settings_keys_ascii(public_url: Seq<char>, d: DaemonRecord, key: Seq<char>, cfg: Option<AdvancedInstallConfig>)
    ensures
        ascii_keys(resolved_settings(public_url, d, key, cfg)),
{
    reveal_strlit("mode");
    reveal_strlit("name");
    reveal_strlit("url");
    reveal_strlit("port");
    reveal_strlit("loglevel");
    reveal_strlit("logfile");
    reveal_strlit("heartbeat");
    reveal_strlit("bindaddress");
    reveal_strlit("interfaces");
    reveal_strlit("allowselfsigned");
    reveal_strlit("acceptinvalidscancerts");
    let p = |x: (Option<Seq<char>>, Option<Seq<char>>, Seq<char>)| x.1 matches Some(k) ==> all_ascii(k);
    assert(all_ascii("mode"@));
    assert(all_ascii("name"@));
    assert(all_ascii("url"@));
    assert(all_ascii("port"@));
    assert(all_ascii("loglevel"@));
    assert(all_ascii("logfile"@));
    assert(all_ascii("heartbeat"@));
    assert(all_ascii("bindaddress"@));
    assert(all_ascii("interfaces"@));
    assert(all_ascii("allowselfsigned"@));
    assert(all_ascii("acceptinvalidscancerts"@));
    lemma_all_settings_pieces(public_url, d, key, cfg, p);
    let v = resolved_settings(public_url, d, key, cfg);
    assert forall|i: int| 0 <= i < v.len() implies ((#[trigger] v[i]).1 matches Some(k) ==> all_ascii(k)) by {
        assert(p(v[i]));
    }
}

/// The place of an MSI key in the fixed order of the install settings.
pub open spec fn msi_key_rank(k: Seq<char>) -> int {
    if k == "mode"@ {
        0
    } else if k == "name"@ {
        1
    } else if k == "url"@ {
        2
    } else if k == "port"@ {
        3
    } else if k == "loglevel"@ {
        4
    } else if k == "logfile"@ {
        5
    } else if k == "heartbeat"@ {
        6
    } else if k == "bindaddress"@ {
        7
    } else if k == "interfaces"@ {
        8
    } else if k == "allowselfsigned"@ {
        9
    } else if k == "acceptinvalidscancerts"@ {
        10
    } else {
        11
    }
}

/// The keyed settings of `v` come in strictly increasing key order.
pub open spec fn keys_ascend(v: Seq<(Option<Seq<char>>, Option<Seq<char>>, Seq<char>)>) -> bool {
    forall|m: int, n: int| 0 <= m < n < v.len() && (#[trigger] v[m]).1 is Some && (#[trigger] v[n]).1 is Some
        ==> msi_key_rank(v[m].1->Some_0) < msi_key_rank(v[n].1->Some_0)
}

/// Every keyed setting of `v` has a key ranked in `(lo, hi]`.
pub open spec fn keys_ranked_in(v: Seq<(Option<Seq<char>>, Option<Seq<char>>, Seq<char>)>, lo: int, hi: int) -> bool {
    forall|m: int| 0 <= m < v.len() && (#[trigger] v[m]).1 is Some
        ==> lo < msi_key_rank(v[m].1->Some_0) <= hi
}

proof fn lemma_keys_ascend_concat(
    a: Seq<(Option<Seq<char>>, Option<Seq<char>>, Seq<char>)>,
    b: Seq<(Option<Seq<char>>, Option<Seq<char>>, Seq<char>)>,
    lo: int,
    mid: int,
    hi: int,
)
    requires
        lo <= mid <= hi,
        keys_ascend(a),
        keys_ascend(b),
        keys_ranked_in(a, lo, mid),
        keys_ranked_in(b, mid, hi),
    ensures
        keys_ascend(a + b),
        keys_ranked_in(a + b, lo, hi),
{
    let c = a + b;
    assert forall|m: int, n: int| 0 <= m < n < c.len() && (#[trigger] c[m]).1 is Some && (#[trigger] c[n]).1 is Some
        implies msi_key_rank(c[m].1->Some_0) < msi_key_rank(c[n].1->Some_0) by {
        if n < a.len() {
            assert(c[m] == a[m] && c[n] == a[n]);
        } else if m >= a.len() {
            assert(c[m] == b[m - a.len()] && c[n] == b[n - a.len()]);
        } else {
            assert(c[m] == a[m] && c[n] == b[n - a.len()]);
        }
    }
    assert forall|m: int| 0 <= m < c.len() && (#[trigger] c[m]).1 is Some
        implies lo < msi_key_rank(c[m].1->Some_0) <= hi by {
        if m < a.len() {
            assert(c[m] == a[m]);
        } else {
            assert(c[m] == b[m - a.len()]);
        }
    }
}

proof fn lemma_one_setting_ranked(flag: Option<Seq<char>>, key: Seq<char>, value: Option<Seq<char>>, r: int)
    requires
        msi_key_rank(key) == r,
    ensures
        keys_ascend(match value { Some(v) => seq![setting(flag, Some(key), v)], None => Seq::empty() }),
        keys_ranked_in(match value { Some(v) => seq![setting(flag, Some(key), v)], None => Seq::empty() }, r - 1, r),
{
}

/// The settings of an install have distinct MSI keys, so the omitted keys
/// of its MSI filename are never among the packed ones (see
/// `lemma_omitted_keys_not_packed`).
pub proof fn lemma_resolved_settings_distinct_keys(public_url: Seq<char>, d: DaemonRecord, key: Seq<char>, cfg: Option<AdvancedInstallConfig>)
    ensures
        distinct_keys(resolved_settings(public_url, d, key, cfg)),
{
    reveal_strlit("mode");
    reveal_strlit("name");
    reveal_strlit("url");
    reveal_strlit("port");
    reveal_strlit("loglevel");
    reveal_strlit("logfile");
    reveal_strlit("heartbeat");
    reveal_strlit("bindaddress");
    reveal_strlit("interfaces");
    reveal_strlit("allowselfsigned");
    reveal_strlit("acceptinvalidscancerts");
    assert("name"@[0] != "mode"@[0]);
    assert("url"@.len() != "mode"@.len());
    assert("url"@.len() != "name"@.len());
    assert("port"@[0] != "mode"@[0]);
    assert("port"@[0] != "name"@[0]);
    assert("port"@.len() != "url"@.len());
    assert("loglevel"@.len() != "mode"@.len());
    assert("loglevel"@.len() != "name"@.len());
    assert("loglevel"@.len() != "url"@.len());
    assert("loglevel"@.len() != "port"@.len());
    assert("logfile"@.len() != "mode"@.len());
    assert("logfile"@.len() != "name"@.len());
    assert("logfile"@.len() != "url"@.len());
    assert("logfile"@.len() != "port"@.len());
    assert("logfile"@.len() != "loglevel"@.len());
    assert("heartbeat"@.len() != "mode"@.len());
    assert("heartbeat"@.len() != "name"@.len());
    assert("heartbeat"@.len() != "url"@.len());
    assert("heartbeat"@.len() != "port"@.len());
    assert("heartbeat"@.len() != "loglevel"@.len());
    assert("heartbeat"@.len() != "logfile"@.len());
    assert("bindaddress"@.len() != "mode"@.len());
    assert("bindaddress"@.len() != "name"@.len());
    assert("bindaddress"@.len() != "url"@.len());
    assert("bindaddress"@.len() != "port"@.len());
    assert("bindaddress"@.len() != "loglevel"@.len());
    assert("bindaddress"@.len() != "logfile"@.len());
    assert("bindaddress"@.len() != "heartbeat"@.len());
    assert("interfaces"@.len() != "mode"@.len());
    assert("interfaces"@.len() != "name"@.len());
    assert("interfaces"@.len() != "url"@.len());
    assert("interfaces"@.len() != "port"@.len());
    assert("interfaces"@.len() != "loglevel"@.len());
    assert("interfaces"@.len() != "logfile"@.len());
    assert("interfaces"@.len() != "heartbeat"@.len());
    assert("interfaces"@.len() != "bindaddress"@.len());
    assert("allowselfsigned"@.len() != "mode"@.len());
    assert("allowselfsigned"@.len() != "name"@.len());
    assert("allowselfsigned"@.len() != "url"@.len());
    assert("allowselfsigned"@.len() != "port"@.len());
    assert("allowselfsigned"@.len() != "loglevel"@.len());
    assert("allowselfsigned"@.len() != "logfile"@.len());
    assert("allowselfsigned"@.len() != "heartbeat"@.len());
    assert("allowselfsigned"@.len() != "bindaddress"@.len());
    assert("allowselfsigned"@.len() != "interfaces"@.len());
    assert("acceptinvalidscancerts"@.len() != "mode"@.len());
    assert("acceptinvalidscancerts"@.len() != "name"@.len());
    assert("acceptinvalidscancerts"@.len() != "url"@.len());
    assert("acceptinvalidscancerts"@.len() != "port"@.len());
    assert("acceptinvalidscancerts"@.len() != "loglevel"@.len());
    assert("acceptinvalidscancerts"@.len() != "logfile"@.len());
    assert("acceptinvalidscancerts"@.len() != "heartbeat"@.len());
    assert("acceptinvalidscancerts"@.len() != "bindaddress"@.len());
    assert("acceptinvalidscancerts"@.len() != "interfaces"@.len());
    assert("acceptinvalidscancerts"@.len() != "allowselfsigned"@.len());
    assert(msi_key_rank("mode"@) == 0);
    assert(msi_key_rank("name"@) == 1);
    assert(msi_key_rank("url"@) == 2);
    assert(msi_key_rank("port"@) == 3);
    assert(msi_key_rank("loglevel"@) == 4);
    assert(msi_key_rank("logfile"@) == 5);
    assert(msi_key_rank("heartbeat"@) == 6);
    assert(msi_key_rank("bindaddress"@) == 7);
    assert(msi_key_rank("interfaces"@) == 8);
    assert(msi_key_rank("allowselfsigned"@) == 9);
    assert(msi_key_rank("acceptinvalidscancerts"@) == 10);
    let url = trim_slashes(public_url);
    let s0 = seq![setting(None, Some("mode"@), mode_id(d.mode)), setting(None, Some("name"@), d.name@)];
    assert(s0[0].1 == Some("mode"@) && s0[1].1 == Some("name"@));
    assert(keys_ascend(s0));
    assert(keys_ranked_in(s0, -1, 1));
    let s1: Seq<(Option<Seq<char>>, Option<Seq<char>>, Seq<char>)> = if d.mode == DaemonMode::DaemonPoll && url.len() > 0 {
        seq![setting(Some("--server-url"@), Some("url"@), url)]
    } else {
        Seq::empty()
    };
    lemma_one_setting_ranked(Some("--server-url"@), "url"@, if d.mode == DaemonMode::DaemonPoll && url.len() > 0 { Some(url) } else { None }, 2);
    let s2: Seq<(Option<Seq<char>>, Option<Seq<char>>, Seq<char>)> = if key.len() > 0 {
        seq![setting(Some("--daemon-api-key"@), None, key)]
    } else {
        Seq::empty()
    };
    assert(keys_ascend(s2));
    assert(keys_ranked_in(s2, 2, 2));
    let pv: Option<Seq<char>> = if d.mode == DaemonMode::ServerPoll {
        match url_port_or_known_default(d.url@) {
            Some(q) => Some(decimal(q as nat)),
            None => None,
        }
    } else {
        None
    };
    let s3 = opt_setting("--daemon-port"@, "port"@, pv);
    lemma_one_setting_ranked(Some("--daemon-port"@), "port"@, pv, 3);
    lemma_keys_ascend_concat(s0, s1, -1, 1, 2);
    lemma_keys_ascend_concat(s0 + s1, s2, -1, 2, 2);
    lemma_keys_ascend_concat(s0 + s1 + s2, s3, -1, 2, 3);
    let server = s0 + s1 + s2 + s3;
    assert(server == resolved_server_settings(public_url, d, key));
    let adv: Seq<(Option<Seq<char>>, Option<Seq<char>>, Seq<char>)> = match cfg {
        Some(c) => advanced_settings(c),
        None => Seq::empty(),
    };
    match cfg {
        Some(c) => {
            let v1 = opt_text(c.log_level);
            let v2 = opt_text(c.log_file);
            let v3 = match c.heartbeat_interval { Some(n) => Some(decimal(n as nat)), None => None };
            let v4 = opt_text(c.bind_address);
            let v5 = match c.interfaces { Some(v) => Some(join(v@.map_values(|x: String| x@), seq![','])), None => None };
            let v6 = match c.allow_self_signed_certs { Some(b) => Some(bool_text(b)), None => None };
            let v7 = match c.accept_invalid_scan_certs { Some(b) => Some(bool_text(b)), None => None };
            lemma_one_setting_ranked(Some("--log-level"@), "loglevel"@, v1, 4);
            lemma_one_setting_ranked(Some("--log-file"@), "logfile"@, v2, 5);
            lemma_one_setting_ranked(Some("--heartbeat-interval"@), "heartbeat"@, v3, 6);
            lemma_one_setting_ranked(Some("--bind-address"@), "bindaddress"@, v4, 7);
            lemma_one_setting_ranked(Some("--interfaces"@), "interfaces"@, v5, 8);
            lemma_one_setting_ranked(Some("--allow-self-signed-certs"@), "allowselfsigned"@, v6, 9);
            lemma_one_setting_ranked(Some("--accept-invalid-scan-certs"@), "acceptinvalidscancerts"@, v7, 10);
            let l1 = opt_setting("--log-level"@, "loglevel"@, v1);
            let l2 = opt_setting("--log-file"@, "logfile"@, v2);
            let l3 = opt_setting("--heartbeat-interval"@, "heartbeat"@, v3);
            let n1 = opt_setting("--bind-address"@, "bindaddress"@, v4);
            let n2 = opt_setting("--interfaces"@, "interfaces"@, v5);
            let n3 = opt_setting("--allow-self-signed-certs"@, "allowselfsigned"@, v6);
            let n4 = opt_setting("--accept-invalid-scan-certs"@, "acceptinvalidscancerts"@, v7);
            lemma_keys_ascend_concat(l1, l2, 3, 4, 5);
            lemma_keys_ascend_concat(l1 + l2, l3, 3, 5, 6);
            lemma_keys_ascend_concat(n1, n2, 6, 7, 8);
            lemma_keys_ascend_concat(n1 + n2, n3, 6, 8, 9);
            lemma_keys_ascend_concat(n1 + n2 + n3, n4, 6, 9, 10);
            lemma_keys_ascend_concat(l1 + l2 + l3, n1 + n2 + n3 + n4, 3, 6, 10);
            assert(adv == (l1 + l2 + l3) + (n1 + n2 + n3 + n4));
            lemma_keys_ascend_concat(server, adv, -1, 3, 10);
        },
        None => {
            assert(server + adv =~= server);
        },
    }
    let v = resolved_settings(public_url, d, key, cfg);
    assert(keys_ascend(v));
    assert forall|m: int, n: int| 0 <= m < n < v.len() && (#[trigger] v[m]).1 is Some && (#[trigger] v[n]).1 is Some
        implies v[m].1 != v[n].1 by {
        assert(msi_key_rank(v[m].1->Some_0) < msi_key_rank(v[n].1->Some_0));
    }
}

/// Assembles the install artifacts of a freshly provisioned daemon: the
/// caller's advanced settings, with every server-controlled setting taken
/// from the daemon record, the server's public url (trailing slashes
/// dropped) and the api key. The commands carry the api key; the MSI
/// filename is resolved without it.
pub fn build_install_artifacts(public_url: &str, daemon: &DaemonRecord, api_key: &str, install_config: Option<&AdvancedInstallConfig>) -> (a: InstallArtifacts)
    ensures
        ({
            let cfg = match install_config { Some(c) => Some(*c), None => None };
            let cmd = resolved_settings(public_url@, *daemon, api_key@, cfg);
            let msi = resolved_settings(public_url@, *daemon, Seq::empty(), cfg);
            &&& a.commands@.len() == 4
            &&& a.commands@[0].platform@ == "linux"@
            &&& a.commands@[1].platform@ == "macos"@
            &&& a.commands@[2].platform@ == "freebsd"@
            &&& a.commands@[3].platform@ == "windows"@
            &&& a.commands@[0].command@ == unix_command(flags_text(cmd, true))
            &&& a.commands@[1].command@ == unix_command(flags_text(cmd, true))
            &&& a.commands@[2].command@ == unix_command(flags_text(cmd, true))
            &&& a.commands@[3].command@ == windows_command(flags_text(cmd, false))
            &&& a.msi_filename@ == msi_filename(pack_query(msi, 177).0)
            &&& a.msi_omitted_config_keys@.map_values(|s: String| s@) == pack_query(msi, 177).1
            &&& a.msi_filename@.len() <= MAX_MSI_FILENAME_LEN
        }),
{
    let command_pairs = resolved_pairs(public_url, daemon, api_key, install_config);
    let msi_pairs = resolved_pairs(public_url, daemon, "", install_config);
    proof {
        reveal_strlit("");
        let cfg = match install_config { Some(c) => Some(*c), None => None };
        lemma_settings_keys_ascii(public_url@, *daemon, Seq::empty(), cfg);
    }
    assemble_install_artifacts(&command_pairs, &msi_pairs)
}

/// Whatever the caller's advanced settings, an install's settings carry the
/// provisioned record and the server's values: no setting has a `--name`
/// flag; a `--server-url` flag appears only for a daemon that dials the
/// server, carrying the server's url, and always does for such a daemon
/// when the server knows its url; a `--daemon-api-key` flag carries the
/// api key; the MSI `name` key carries the record's name.
pub proof fn lemma_server_controlled_settings(public_url: Seq<char>, d: DaemonRecord, key: Seq<char>, cfg: Option<AdvancedInstallConfig>)
    ensures
        ({
            let v = resolved_settings(public_url, d, key, cfg);
            let url = trim_slashes(public_url);
            &&& forall|i: int| 0 <= i < v.len() ==> (#[trigger] v[i]).0 != Some("--name"@)
            &&& forall|i: int| 0 <= i < v.len() && (#[trigger] v[i]).0 == Some("--server-url"@)
                ==> d.mode == DaemonMode::DaemonPoll && url.len() > 0 && v[i].2 == url
            &&& (d.mode == DaemonMode::DaemonPoll && url.len() > 0) ==> v[2] == setting(Some("--server-url"@), Some("url"@), url)
            &&& forall|i: int| 0 <= i < v.len() && (#[trigger] v[i]).0 == Some("--daemon-api-key"@) ==> v[i].2 == key
            &&& forall|i: int| 0 <= i < v.len() && (#[trigger] v[i]).1 == Some("name"@) ==> v[i].2 == d.name@
        }),
{
    reveal_strlit("--name");
    reveal_strlit("--server-url");
    reveal_strlit("--daemon-api-key");
    reveal_strlit("--daemon-port");
    reveal_strlit("--log-level");
    reveal_strlit("--log-file");
    reveal_strlit("--heartbeat-interval");
    reveal_strlit("--bind-address");
    reveal_strlit("--interfaces");
    reveal_strlit("--allow-self-signed-certs");
    reveal_strlit("--accept-invalid-scan-certs");
    reveal_strlit("mode");
    reveal_strlit("name");
    reveal_strlit("url");
    reveal_strlit("port");
    reveal_strlit("loglevel");
    reveal_strlit("logfile");
    reveal_strlit("heartbeat");
    reveal_strlit("bindaddress");
    reveal_strlit("interfaces");
    reveal_strlit("allowselfsigned");
    reveal_strlit("acceptinvalidscancerts");
    let url = trim_slashes(public_url);
    let p = |x: (Option<Seq<char>>, Option<Seq<char>>, Seq<char>)|
        x.0 != Some("--name"@)
        && (x.0 == Some("--server-url"@) ==> d.mode == DaemonMode::DaemonPoll && url.len() > 0 && x.2 == url)
        && (x.0 == Some("--daemon-api-key"@) ==> x.2 == key)
        && (x.1 == Some("name"@) ==> x.2 == d.name@);
    assert("port"@[0] != "name"@[0]);
    assert("--interfaces"@[2] != "--server-url"@[2]);
    assert(differ("--daemon-port"@, "--name"@) && differ("--daemon-port"@, "--server-url"@) && differ("--daemon-port"@, "--daemon-api-key"@) && differ("port"@, "name"@));
    assert forall|t: Seq<char>| p(#[trigger] setting(Some("--daemon-port"@), Some("port"@), t)) by {}
    assert(differ("--log-level"@, "--name"@) && differ("--log-level"@, "--server-url"@) && differ("--log-level"@, "--daemon-api-key"@) && differ("loglevel"@, "name"@));
    assert forall|t: Seq<char>| p(#[trigger] setting(Some("--log-level"@), Some("loglevel"@), t)) by {}
    assert(differ("--log-file"@, "--name"@) && differ("--log-file"@, "--server-url"@) && differ("--log-file"@, "--daemon-api-key"@) && differ("logfile"@, "name"@));
    assert forall|t: Seq<char>| p(#[trigger] setting(Some("--log-file"@), Some("logfile"@), t)) by {}
    assert(differ("--heartbeat-interval"@, "--name"@) && differ("--heartbeat-interval"@, "--server-url"@) && differ("--heartbeat-interval"@, "--daemon-api-key"@) && differ("heartbeat"@, "name"@));
    assert forall|t: Seq<char>| p(#[trigger] setting(Some("--heartbeat-interval"@), Some("heartbeat"@), t)) by {}
    assert(differ("--bind-address"@, "--name"@) && differ("--bind-address"@, "--server-url"@) && differ("--bind-address"@, "--daemon-api-key"@) && differ("bindaddress"@, "name"@));
    assert forall|t: Seq<char>| p(#[trigger] setting(Some("--bind-address"@), Some("bindaddress"@), t)) by {}
    assert(differ("--interfaces"@, "--name"@) && differ("--interfaces"@, "--server-url"@) && differ("--interfaces"@, "--daemon-api-key"@) && differ("interfaces"@, "name"@));
    assert forall|t: Seq<char>| p(#[trigger] setting(Some("--interfaces"@), Some("interfaces"@), t)) by {}
    assert(differ("--allow-self-signed-certs"@, "--name"@) && differ("--allow-self-signed-certs"@, "--server-url"@) && differ("--allow-self-signed-certs"@, "--daemon-api-key"@) && differ("allowselfsigned"@, "name"@));
    assert forall|t: Seq<char>| p(#[trigger] setting(Some("--allow-self-signed-certs"@), Some("allowselfsigned"@), t)) by {}
    assert(differ("--accept-invalid-scan-certs"@, "--name"@) && differ("--accept-invalid-scan-certs"@, "--server-url"@) && differ("--accept-invalid-scan-certs"@, "--daemon-api-key"@) && differ("acceptinvalidscancerts"@, "name"@));
    assert forall|t: Seq<char>| p(#[trigger] setting(Some("--accept-invalid-scan-certs"@), Some("acceptinvalidscancerts"@), t)) by {}
    assert(differ("--server-url"@, "--name"@) && differ("--server-url"@, "--daemon-api-key"@) && differ("url"@, "name"@));
    assert("mode"@[0] != "name"@[0]);
    assert(differ("--daemon-api-key"@, "--name"@) && differ("mode"@, "name"@));
    lemma_all_settings_pieces(public_url, d, key, cfg, p);
    let v = resolved_settings(public_url, d, key, cfg);
    assert forall|i: int| 0 <= i < v.len() implies p(#[trigger] v[i]) by {}
    if d.mode == DaemonMode::DaemonPoll && url.len() > 0 {
        assert(v[2] == setting(Some("--server-url"@), Some("url"@), url));
    }
}

} // verus!
