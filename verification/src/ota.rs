//! Over-the-air update logic: the invite that starts an update, the bookkeeping of an update
//! session, and the HTTP exchange that downloads the image.

use vstd::prelude::*;

use crate::parse::{
    parse_unsigned, spec_parse_unsigned, str_chars, str_from_utf8, string_from_chars, trim,
    trim_bounds,
};
use crate::topic::utf8_len;

verus! {

/// Maximum host length of an invite, in bytes.
pub const MAX_HOST_LEN: usize = 64;

/// Maximum path length of an invite, in bytes.
pub const MAX_PATH_LEN: usize = 128;

/// Index of the first `c` in `s`, if any.
pub open spec fn first_index_of(s: Seq<char>, c: char) -> Option<int>
    decreases s.len(),
{
    if s.len() == 0 {
        None
    } else if s[0] == c {
        Some(0)
    } else {
        match first_index_of(s.drop_first(), c) {
            Some(i) => Some(i + 1),
            None => None,
        }
    }
}

pub proof fn lemma_first_index_bound(s: Seq<char>, c: char)
    ensures
        first_index_of(s, c) matches Some(i) ==> 0 <= i < s.len() && s[i] == c,
    decreases s.len(),
{
    if s.len() > 0 && s[0] != c {
        lemma_first_index_bound(s.drop_first(), c);
    }
}

proof fn lemma_first_index_of(s: Seq<char>, c: char, k: int)
    requires
        0 <= k <= s.len(),
        forall|j: int| 0 <= j < k ==> #[trigger] s[j] != c,
        k < s.len() ==> s[k] == c,
    ensures
        first_index_of(s, c) == if k == s.len() {
            None::<int>
        } else {
            Some(k)
        },
    decreases s.len(),
{
    if s.len() > 0 && k > 0 {
        let t = s.drop_first();
        assert forall|j: int| 0 <= j < k - 1 implies #[trigger] t[j] != c by {
            assert(t[j] == s[j + 1]);
        }
        if k < s.len() {
            assert(t[k - 1] == s[k]);
        }
        lemma_first_index_of(t, c, k - 1);
    }
}

/// The fields an invite has gathered so far.
pub struct InviteFields {
    pub host: Option<Seq<char>>,
    pub port: Option<u16>,
    pub path: Option<Seq<char>>,
    pub size: Option<u32>,
}

/// The effect of one line of an invite: `KEY=VALUE` with white space around both parts.
/// `HOST` and `PATH` are kept when they fit their buffers (64 and 128 bytes), otherwise the
/// earlier value stays; `PORT` and `SIZE` take the parsed number, or nothing when it does not
/// parse. Other keys, blank lines and lines without `=` change nothing.
pub open spec fn apply_line(acc: InviteFields, line: Seq<char>) -> InviteFields {
    let t = trim(line);
    if t.len() == 0 {
        acc
    } else {
        match first_index_of(t, '=') {
            None => acc,
            Some(k) => {
                let key = trim(t.take(k));
                let value = trim(t.skip(k + 1));
                if key == "HOST"@ {
                    if utf8_len(value) <= 64 {
                        InviteFields { host: Some(value), ..acc }
                    } else {
                        acc
                    }
                } else if key == "PORT"@ {
                    InviteFields {
                        port: match spec_parse_unsigned(value, 0xffff) {
                            Some(v) => Some(v as u16),
                            None => None,
                        },
                        ..acc
                    }
                } else if key == "PATH"@ {
                    if utf8_len(value) <= 128 {
                        InviteFields { path: Some(value), ..acc }
                    } else {
                        acc
                    }
                } else if key == "SIZE"@ {
                    InviteFields {
                        size: match spec_parse_unsigned(value, 0xffff_ffff) {
                            Some(v) => Some(v as u32),
                            None => None,
                        },
                        ..acc
                    }
                } else {
                    acc
                }
            },
        }
    }
}

/// Apply the lines of `rest` (separated by `\n`) in order.
pub open spec fn apply_lines(acc: InviteFields, rest: Seq<char>) -> InviteFields
    decreases rest.len(),
{
    match first_index_of(rest, '\n') {
        None => apply_line(acc, rest),
        Some(i) => {
            proof {
                lemma_first_index_bound(rest, '\n');
            }
            apply_lines(apply_line(acc, rest.take(i)), rest.skip(i + 1))
        },
    }
}

/// No field gathered yet.
pub open spec fn no_fields() -> InviteFields {
    InviteFields { host: None, port: None, path: None, size: None }
}

/// The invite carried by `data`, as `(host, port, path, size)`: the text must be UTF-8 and
/// its lines must give all four fields.
pub open spec fn spec_parse_invite(data: Seq<u8>) -> Option<(Seq<char>, u16, Seq<char>, u32)> {
    if !vstd::utf8::valid_utf8(data) {
        None
    } else {
        let f = apply_lines(no_fields(), vstd::utf8::decode_utf8(data));
        match (f.host, f.port, f.path, f.size) {
            (Some(h), Some(p), Some(q), Some(s)) => Some((h, p, q, s)),
            _ => None,
        }
    }
}

/// Parsed OTA invite: where to download the image and how large it is.
///
/// The invite text has `KEY=VALUE` lines:
/// ```text
/// HOST=192.168.1.100
/// PORT=8000
/// PATH=/firmware.bin
/// SIZE=552672
/// MD5=abc123...
/// ```
pub struct OtaInvite {
    /// HTTP server host (IP or domain)
    pub host: String,
    /// HTTP server port
    pub port: u16,
    /// Path to the firmware file
    pub path: String,
    /// Expected firmware size in bytes
    pub size: u32,
}

/// Fields gathered by the executable parser.
struct Gathered {
    host: Option<String>,
    port: Option<u16>,
    path: Option<String>,
    size: Option<u32>,
}

spec fn gathered_view(g: Gathered) -> InviteFields {
    InviteFields {
        host: match g.host {
            Some(s) => Some(s@),
            None => None,
        },
        port: g.port,
        path: match g.path {
            Some(s) => Some(s@),
            None => None,
        },
        size: g.size,
    }
}

fn is_key(text: &Vec<char>, lo: usize, hi: usize, key: &str) -> (b: bool)
    requires
        lo <= hi <= text@.len(),
        key@.len() == 4,
    ensures
        b == (text@.subrange(lo as int, hi as int) == key@),
{
    if hi - lo != 4 {
        return false;
    }
    let k = str_chars(key);
    let mut i: usize = 0;
    while i < 4
        invariant
            hi - lo == 4,
            key@.len() == 4,
            hi <= text@.len(),
            k@ == key@,
            i <= 4,
            forall|j: int| 0 <= j < i ==> text@[lo + j] == #[trigger] key@[j],
        decreases 4 - i,
    {
        if text[lo + i] != k[i] {
            assert(text@.subrange(lo as int, hi as int)[i as int] != key@[i as int]);
            return false;
        }
        i += 1;
    }
    assert(text@.subrange(lo as int, hi as int) =~= key@);
    true
}

/// A piece of a text takes no more bytes than the whole text.
proof fn lemma_utf8_len_subrange(s: Seq<char>, a: int, b: int)
    requires
        0 <= a <= b <= s.len(),
    ensures
        utf8_len(s.subrange(a, b)) <= utf8_len(s),
{
    let x = s.take(a);
    let y = s.subrange(a, b);
    let z = s.skip(b);
    assert(s =~= x + y + z);
    crate::topic::lemma_encode_concat(x + y, z);
    crate::topic::lemma_encode_concat(x, y);
}

/// Apply one line `text[lo..hi]` to the gathered fields.
fn gather_line(g: &mut Gathered, text: &Vec<char>, lo: usize, hi: usize)
    requires
        lo <= hi <= text@.len(),
        utf8_len(text@) <= usize::MAX,
    ensures
        gathered_view(*final(g)) == apply_line(gathered_view(*old(g)), text@.subrange(lo as int, hi as int)),
{
    let ghost line = text@.subrange(lo as int, hi as int);
    let (a, b) = trim_bounds(text, lo, hi);
    let ghost t = trim(line);
    assert(t == text@.subrange(a as int, b as int));
    if a == b {
        return;
    }
    let mut e = a;
    while e < b && text[e] != '='
        invariant
            a <= e <= b,
            b <= text@.len(),
            forall|j: int| a <= j < e ==> #[trigger] text@[j] != '=',
        decreases b - e,
    {
        e += 1;
    }
    proof {
        assert forall|j: int| 0 <= j < e - a implies #[trigger] t[j] != '=' by {
            assert(t[j] == text@[a + j]);
        }
        if e < b {
            assert(t[e - a] == text@[e as int]);
        }
        lemma_first_index_of(t, '=', e - a);
    }
    if e == b {
        return;
    }
    let (ka, kb) = trim_bounds(text, a, e);
    let (va, vb) = trim_bounds(text, e + 1, b);
    assert(t.take(e - a) =~= text@.subrange(a as int, e as int));
    assert(t.skip(e - a + 1) =~= text@.subrange(e + 1, b as int));
    proof {
        reveal_strlit("HOST");
        reveal_strlit("PORT");
        reveal_strlit("PATH");
        reveal_strlit("SIZE");
    }
    proof {
        lemma_utf8_len_subrange(text@, va as int, vb as int);
    }
    if is_key(text, ka, kb, "HOST") {
        let value = string_from_chars(text, va, vb);
        if value.as_str().len() <= MAX_HOST_LEN {
            g.host = Some(value);
        }
    } else if is_key(text, ka, kb, "PORT") {
        g.port = match parse_unsigned(text, va, vb, 0xffff) {
            Some(v) => Some(v as u16),
            None => None,
        };
    } else if is_key(text, ka, kb, "PATH") {
        let value = string_from_chars(text, va, vb);
        if value.as_str().len() <= MAX_PATH_LEN {
            g.path = Some(value);
        }
    } else if is_key(text, ka, kb, "SIZE") {
        g.size = match parse_unsigned(text, va, vb, 0xffff_ffff) {
            Some(v) => Some(v as u32),
            None => None,
        };
    }
}

impl OtaInvite {
    /// Parse an invite from a text buffer.
    ///
    /// Returns `None` when the buffer is not UTF-8 or when HOST, PORT, PATH or SIZE is missing
    /// or malformed. Other keys (MD5 among them) are ignored.
    pub fn parse(data: &[u8]) -> (r: Option<OtaInvite>)
        ensures
            r matches Some(inv) ==> spec_parse_invite(data@) == Some(
                (inv.host@, inv.port, inv.path@, inv.size),
            ),
            r is None ==> spec_parse_invite(data@) is None,
    {
        let text = match str_from_utf8(data) {
            Some(t) => t,
            None => return None,
        };
        let chars = str_chars(text);
        proof {
            vstd::utf8::decode_utf8_encode_utf8(data@);
        }
        let data_len = data.len();
        assert(utf8_len(chars@) == data_len);
        let n = chars.len();
        let mut g = Gathered { host: None, port: None, path: None, size: None };
        let mut start: usize = 0;
        let ghost whole = chars@;
        assert(chars@.skip(0) =~= chars@);
        assert(gathered_view(g) == no_fields());
        loop
            invariant
                whole == chars@,
                n == chars@.len(),
                start <= n,
                utf8_len(chars@) <= usize::MAX,
                apply_lines(gathered_view(g), chars@.skip(start as int)) == apply_lines(
                    no_fields(),
                    whole,
                ),
            ensures
                gathered_view(g) == apply_lines(no_fields(), whole),
            decreases n - start,
        {
            let mut i = start;
            while i < n && chars[i] != '\n'
                invariant
                    start <= i <= n,
                    n == chars@.len(),
                    forall|j: int| start <= j < i ==> #[trigger] chars@[j] != '\n',
                decreases n - i,
            {
                i += 1;
            }
            let ghost rest = chars@.skip(start as int);
            proof {
                assert forall|j: int| 0 <= j < i - start implies #[trigger] rest[j] != '\n' by {
                    assert(rest[j] == chars@[start + j]);
                }
                if i < n {
                    assert(rest[i - start] == chars@[i as int]);
                }
                lemma_first_index_of(rest, '\n', i - start);
                assert(rest.take(i - start) =~= chars@.subrange(start as int, i as int));
            }
            let ghost before = gathered_view(g);
            gather_line(&mut g, &chars, start, i);
            if i == n {
                assert(rest =~= chars@.subrange(start as int, i as int));
                assert(gathered_view(g) == apply_lines(before, rest));
                break;
            }
            assert(rest.skip(i - start + 1) =~= chars@.skip(i + 1));
            start = i + 1;
        }
        proof {
            assert(chars@ =~= vstd::utf8::decode_utf8(data@));
        }
        match (g.host, g.port, g.path, g.size) {
            (Some(host), Some(port), Some(path), Some(size)) => Some(OtaInvite { host, port, path, size }),
            _ => None,
        }
    }
}

/// Log progress every this many percent.
pub const PROGRESS_LOG_STEP: u8 = 10;

/// Bookkeeping of an update session: where the image goes and how much of it was written.
#[derive(Clone, Copy, Debug, PartialEq, Eq, Structural)]
pub struct OtaProgress {
    /// Offset of the target OTA app partition
    pub target_partition_offset: u32,
    /// Number of bytes written so far
    pub bytes_written: u32,
    /// Total expected size
    pub total_size: u32,
}

/// Progress in percent as the session reports it: `written * 100 / total`, kept to its low
/// byte; 0 for an empty image.
pub open spec fn spec_progress_percent(written: u32, total: u32) -> u8 {
    if total == 0 {
        0
    } else {
        (((written * 100) / (total as int)) % 256) as u8
    }
}

impl OtaProgress {
    /// A session that has written nothing yet.
    pub fn new(target_partition_offset: u32, total_size: u32) -> (p: Self)
        ensures
            p == (OtaProgress { target_partition_offset, bytes_written: 0, total_size }),
    {
        OtaProgress { target_partition_offset, bytes_written: 0, total_size }
    }

    /// Flash offset at which the next chunk goes.
    pub fn write_offset(&self) -> (o: u32)
        requires
            self.target_partition_offset + self.bytes_written <= u32::MAX,
        ensures
            o == self.target_partition_offset + self.bytes_written,
    {
        self.target_partition_offset + self.bytes_written
    }

    /// Account for a chunk of `len` bytes that was written.
    pub fn record_written(&mut self, len: usize)
        requires
            old(self).bytes_written + len <= u32::MAX,
        ensures
            *final(self) == (OtaProgress { bytes_written: (old(self).bytes_written + len) as u32, ..*old(self) }),
    {
        self.bytes_written = self.bytes_written + len as u32;
    }

    /// Number of bytes written so far.
    pub fn bytes_written(&self) -> (n: u32)
        ensures
            n == self.bytes_written,
    {
        self.bytes_written
    }

    /// Total expected size.
    pub fn total_size(&self) -> (n: u32)
        ensures
            n == self.total_size,
    {
        self.total_size
    }

    /// Progress percentage (0-100 while the image is not exceeded).
    pub fn progress_percent(&self) -> (p: u8)
        ensures
            p == spec_progress_percent(self.bytes_written, self.total_size),
    {
        if self.total_size == 0 {
            return 0;
        }
        let q: u64 = (self.bytes_written as u64 * 100) / (self.total_size as u64);
        (q % 256) as u8
    }
}

/// Whether progress is worth a log line: it has advanced by at least the log step since the
/// last logged value.
pub fn should_log_progress(progress: u8, last_logged: u8) -> (b: bool)
    requires
        last_logged + PROGRESS_LOG_STEP <= u8::MAX,
    ensures
        b == (progress >= last_logged + PROGRESS_LOG_STEP),
{
    progress >= last_logged + PROGRESS_LOG_STEP
}

/// An OTA slot of the bootloader.
#[derive(Clone, Copy, Debug, PartialEq, Eq, Structural)]
pub enum Slot {
    Inactive,
    Slot0,
    Slot1,
}

/// An OTA app partition.
#[derive(Clone, Copy, Debug, PartialEq, Eq, Structural)]
pub enum AppPartition {
    Ota0,
    Ota1,
}

impl Slot {
    /// The slot an update is written to: the other slot, or slot 0 when none is active.
    pub fn next(self) -> (s: Slot)
        ensures
            s == match self {
                Slot::Inactive => Slot::Slot0,
                Slot::Slot0 => Slot::Slot1,
                Slot::Slot1 => Slot::Slot0,
            },
    {
        match self {
            Slot::Inactive => Slot::Slot0,
            Slot::Slot0 => Slot::Slot1,
            Slot::Slot1 => Slot::Slot0,
        }
    }

    /// The app partition that holds this slot's image.
    pub fn partition(self) -> (p: AppPartition)
        ensures
            p == match self {
                Slot::Slot1 => AppPartition::Ota1,
                _ => AppPartition::Ota0,
            },
    {
        match self {
            Slot::Inactive | Slot::Slot0 => AppPartition::Ota0,
            Slot::Slot1 => AppPartition::Ota1,
        }
    }
}

/// State of the running image as the bootloader records it.
#[derive(Clone, Copy, Debug, PartialEq, Eq, Structural)]
pub enum OtaImageState {
    New,
    PendingVerify,
    Valid,
    Invalid,
    Aborted,
    Undefined,
}

/// Whether the running image must be marked valid at boot: an image is confirmed when it
/// runs from a slot and is new or pending verification.
pub fn should_mark_valid(current_slot: Slot, state: OtaImageState) -> (b: bool)
    ensures
        b == (current_slot != Slot::Inactive && (state == OtaImageState::New || state
            == OtaImageState::PendingVerify)),
{
    match current_slot {
        Slot::Inactive => false,
        _ => match state {
            OtaImageState::New | OtaImageState::PendingVerify => true,
            _ => false,
        },
    }
}

/// Whether `pat` occurs in `s` starting at `i`.
pub open spec fn occurs_at(s: Seq<u8>, pat: Seq<u8>, i: int) -> bool {
    0 <= i && i + pat.len() <= s.len() && s.subrange(i, i + pat.len()) == pat
}

/// Whether `pat` occurs anywhere in `s`.
pub open spec fn occurs(s: Seq<u8>, pat: Seq<u8>) -> bool {
    exists|i: int| occurs_at(s, pat, i)
}

fn matches_at(s: &[u8], len: usize, pat: &[u8], i: usize) -> (b: bool)
    requires
        len <= s@.len(),
        i <= len,
    ensures
        b == occurs_at(s@.subrange(0, len as int), pat@, i as int),
{
    let ghost sv = s@.subrange(0, len as int);
    if pat.len() > len - i {
        return false;
    }
    let mut k: usize = 0;
    while k < pat.len()
        invariant
            len <= s@.len(),
            i + pat@.len() <= len,
            k <= pat@.len(),
            sv == s@.subrange(0, len as int),
            forall|j: int| 0 <= j < k ==> s@[i + j] == #[trigger] pat@[j],
        decreases pat@.len() - k,
    {
        if s[i + k] != pat[k] {
            assert(sv.subrange(i as int, i + pat@.len())[k as int] != pat@[k as int]);
            return false;
        }
        k += 1;
    }
    assert(sv.subrange(i as int, i + pat@.len()) =~= pat@);
    true
}

/// First position of `pat` within `s[..len]`, if any.
pub fn find_pattern(s: &[u8], len: usize, pat: &[u8]) -> (r: Option<usize>)
    requires
        len <= s@.len(),
    ensures
        r matches Some(i) ==> occurs_at(s@.subrange(0, len as int), pat@, i as int) && forall|j: int|
            0 <= j < i ==> !occurs_at(s@.subrange(0, len as int), pat@, j),
        r is None ==> !occurs(s@.subrange(0, len as int), pat@),
{
    let ghost sv = s@.subrange(0, len as int);
    let mut i: usize = 0;
    while i <= len
        invariant
            len <= s@.len(),
            sv == s@.subrange(0, len as int),
            forall|j: int| 0 <= j < i ==> !occurs_at(sv, pat@, j),
        decreases len + 1 - i,
    {
        if matches_at(s, len, pat, i) {
            return Some(i);
        }
        if i == len {
            assert forall|j: int| #![trigger occurs_at(sv, pat@, j)] !occurs_at(sv, pat@, j) by {
                if 0 <= j && j + pat@.len() <= sv.len() {
                    assert(j <= len);
                }
            }
            return None;
        }
        i += 1;
    }
    None
}

/// Whether an invite read so far is complete: it holds a blank line (`\n\n` or
/// `\r\n\r\n`).
pub fn invite_complete(buf: &[u8], len: usize) -> (b: bool)
    requires
        len <= buf@.len(),
    ensures
        b == (occurs(buf@.subrange(0, len as int), seq![10u8, 10u8]) || occurs(
            buf@.subrange(0, len as int),
            seq![13u8, 10u8, 13u8, 10u8],
        )),
{
    let lf2: [u8; 2] = [10u8, 10u8];
    let crlf2: [u8; 4] = [13u8, 10u8, 13u8, 10u8];
    assert(lf2@ =~= seq![10u8, 10u8]);
    assert(crlf2@ =~= seq![13u8, 10u8, 13u8, 10u8]);
    find_pattern(buf, len, &lf2).is_some() || find_pattern(buf, len, &crlf2).is_some()
}

/// Where the body of an HTTP response starts: just after the first `\r\n\r\n` of the
/// headers read so far.
pub fn body_start(buf: &[u8], len: usize) -> (r: Option<usize>)
    requires
        len <= buf@.len(),
    ensures
        r matches Some(p) ==> p >= 4 && occurs_at(buf@.subrange(0, len as int), seq![13u8, 10u8, 13u8, 10u8], p - 4)
            && forall|j: int| 0 <= j < p - 4 ==> !occurs_at(buf@.subrange(0, len as int), seq![13u8, 10u8, 13u8, 10u8], j),
        r is None ==> !occurs(buf@.subrange(0, len as int), seq![13u8, 10u8, 13u8, 10u8]),
{
    let crlf2: [u8; 4] = [13u8, 10u8, 13u8, 10u8];
    assert(crlf2@ =~= seq![13u8, 10u8, 13u8, 10u8]);
    match find_pattern(buf, len, &crlf2) {
        Some(p) => Some(p + 4),
        None => None,
    }
}

/// Whether reading an invite stops once `len` bytes of `buf` are filled: the invite is
/// complete or the buffer is full.
pub fn invite_read_done(buf: &[u8], len: usize) -> (b: bool)
    requires
        len <= buf@.len(),
    ensures
        b == (occurs(buf@.subrange(0, len as int), seq![10u8, 10u8]) || occurs(
            buf@.subrange(0, len as int),
            seq![13u8, 10u8, 13u8, 10u8],
        ) || len == buf@.len()),
{
    invite_complete(buf, len) || len >= buf.len()
}

/// Where reading response headers stands after `len` bytes of `buf` are filled.
#[derive(Clone, Copy, Debug, PartialEq, Eq, Structural)]
pub enum HeaderProgress {
    /// The headers end; the body starts at this offset.
    Body(usize),
    /// The headers go on and there is room to read more.
    More,
    /// The headers go on but the buffer is full.
    Overflow,
}

/// The next step of reading response headers: the body once `\r\n\r\n` has arrived,
/// otherwise more reading while the buffer has room.
pub fn header_read_step(buf: &[u8], len: usize) -> (r: HeaderProgress)
    requires
        len <= buf@.len(),
    ensures
        r matches HeaderProgress::Body(p) ==> p >= 4 && occurs_at(
            buf@.subrange(0, len as int),
            seq![13u8, 10u8, 13u8, 10u8],
            p - 4,
        ) && forall|j: int|
            0 <= j < p - 4 ==> !occurs_at(
                buf@.subrange(0, len as int),
                seq![13u8, 10u8, 13u8, 10u8],
                j,
            ),
        r is More <==> !occurs(buf@.subrange(0, len as int), seq![13u8, 10u8, 13u8, 10u8]) && len
            < buf@.len(),
        r is Overflow <==> !occurs(buf@.subrange(0, len as int), seq![13u8, 10u8, 13u8, 10u8])
            && len == buf@.len(),
{
    match body_start(buf, len) {
        Some(p) => HeaderProgress::Body(p),
        None => if len >= buf.len() {
            HeaderProgress::Overflow
        } else {
            HeaderProgress::More
        },
    }
}

/// Whether response headers report success: UTF-8 text that starts with `HTTP/1.` and
/// contains ` 200 `.
pub open spec fn spec_http_ok(header: Seq<u8>) -> bool {
    vstd::utf8::valid_utf8(header) && occurs_at(header, "HTTP/1."@.map_values(|c: char| c as u8), 0)
        && occurs(header, " 200 "@.map_values(|c: char| c as u8))
}

/// Whether the response headers `header` report success.
pub fn http_status_ok(header: &[u8]) -> (b: bool)
    ensures
        b == spec_http_ok(header@),
{
    if str_from_utf8(header).is_none() {
        return false;
    }
    let prefix: [u8; 7] = [72u8, 84u8, 84u8, 80u8, 47u8, 49u8, 46u8];
    let status: [u8; 5] = [32u8, 50u8, 48u8, 48u8, 32u8];
    proof {
        reveal_strlit("HTTP/1.");
        reveal_strlit(" 200 ");
    }
    assert(prefix@ =~= "HTTP/1."@.map_values(|c: char| c as u8));
    assert(status@ =~= " 200 "@.map_values(|c: char| c as u8));
    assert(header@.subrange(0, header@.len() as int) =~= header@);
    matches_at(header, header.len(), &prefix, 0) && find_pattern(header, header.len(), &status).is_some()
}

/// Capacity of the HTTP request buffer.
pub const REQUEST_CAPACITY: usize = 256;

/// Appends `piece` to `buf` when the result fits in `cap` bytes.
pub open spec fn bounded_extend(buf: Seq<u8>, piece: Seq<u8>, cap: int) -> Seq<u8> {
    if buf.len() + piece.len() <= cap {
        buf + piece
    } else {
        buf
    }
}

/// The image download request for `path` on `host`, in a buffer of 256 bytes where a piece
/// that does not fit is left out.
pub open spec fn spec_get_request(path: Seq<u8>, host: Seq<u8>) -> Seq<u8> {
    let p0 = "GET "@.map_values(|c: char| c as u8);
    let p2 = " HTTP/1.0\r\nHost: "@.map_values(|c: char| c as u8);
    let p4 = "\r\nConnection: close\r\n\r\n"@.map_values(|c: char| c as u8);
    bounded_extend(
        bounded_extend(
            bounded_extend(bounded_extend(bounded_extend(Seq::empty(), p0, 256), path, 256), p2, 256),
            host,
            256,
        ),
        p4,
        256,
    )
}

fn extend_bounded(buf: &mut Vec<u8>, piece: &[u8])
    requires
        old(buf)@.len() <= REQUEST_CAPACITY,
    ensures
        final(buf)@ == bounded_extend(old(buf)@, piece@, REQUEST_CAPACITY as int),
        final(buf)@.len() <= REQUEST_CAPACITY,
{
    if piece.len() <= REQUEST_CAPACITY - buf.len() {
        buf.extend_from_slice(piece);
    }
}

/// Build the HTTP GET request that downloads the image at `path` from `host`.
pub fn build_get_request(path: &[u8], host: &[u8]) -> (req: Vec<u8>)
    ensures
        req@ == spec_get_request(path@, host@),
{
    let mut req: Vec<u8> = Vec::new();
    let get = "GET ".as_bytes();
    let mid = " HTTP/1.0\r\nHost: ".as_bytes();
    let tail = "\r\nConnection: close\r\n\r\n".as_bytes();
    proof {
        reveal_strlit("GET ");
        reveal_strlit(" HTTP/1.0\r\nHost: ");
        reveal_strlit("\r\nConnection: close\r\n\r\n");
        vstd::string::is_ascii_spec_bytes("GET ");
        vstd::string::is_ascii_spec_bytes(" HTTP/1.0\r\nHost: ");
        vstd::string::is_ascii_spec_bytes("\r\nConnection: close\r\n\r\n");
    }
    assert(get@ =~= "GET "@.map_values(|c: char| c as u8));
    assert(mid@ =~= " HTTP/1.0\r\nHost: "@.map_values(|c: char| c as u8));
    assert(tail@ =~= "\r\nConnection: close\r\n\r\n"@.map_values(|c: char| c as u8));
    extend_bounded(&mut req, get);
    extend_bounded(&mut req, path);
    extend_bounded(&mut req, mid);
    extend_bounded(&mut req, host);
    extend_bounded(&mut req, tail);
    req
}

/// A request whose path and host leave room for the fixed text (45 bytes) is the whole
/// request: `GET {path} HTTP/1.0`, the `Host` header, and `Connection: close`.
pub proof fn law_get_request_exact(path: Seq<u8>, host: Seq<u8>)
    requires
        path.len() + host.len() + 45 <= 256,
    ensures
        spec_get_request(path, host) == "GET "@.map_values(|c: char| c as u8) + path
            + " HTTP/1.0\r\nHost: "@.map_values(|c: char| c as u8) + host
            + "\r\nConnection: close\r\n\r\n"@.map_values(|c: char| c as u8),
{
    reveal_strlit("GET ");
    reveal_strlit(" HTTP/1.0\r\nHost: ");
    reveal_strlit("\r\nConnection: close\r\n\r\n");
}

/// The status check accepts only HTTP/1.x answers whose status line carries ` 200 `:
/// accepted headers start with `HTTP/1.` and contain ` 200 `, so a `500` or `302` answer
/// without ` 200 ` is refused.
pub proof fn law_http_ok_needs_200(header: Seq<u8>)
    ensures
        spec_http_ok(header) ==> occurs(header, seq![32u8, 50u8, 48u8, 48u8, 32u8]),
        spec_http_ok(header) ==> occurs_at(header, seq![72u8, 84u8, 84u8, 80u8, 47u8, 49u8, 46u8], 0),
        spec_http_ok(header) ==> vstd::utf8::valid_utf8(header),
{
    reveal_strlit(" 200 ");
    reveal_strlit("HTTP/1.");
    assert(" 200 "@.map_values(|c: char| c as u8) =~= seq![32u8, 50u8, 48u8, 48u8, 32u8]);
    assert("HTTP/1."@.map_values(|c: char| c as u8) =~= seq![72u8, 84u8, 84u8, 80u8, 47u8, 49u8, 46u8]);
}

/// An invite line `PATH=v`, where `v` has no white space at either end and is at most 128
/// bytes, sets the path to `v` and leaves the other fields as they were.
pub proof fn law_invite_path_line(acc: InviteFields, v: Seq<char>)
    requires
        v.len() > 0,
        !crate::parse::is_ws(v[0]),
        !crate::parse::is_ws(v.last()),
        utf8_len(v) <= 128,
    ensures
        apply_line(acc, "PATH="@ + v) == (InviteFields { path: Some(v), ..acc }),
{
    reveal_strlit("PATH=");
    reveal_strlit("PATH");
    reveal_strlit("HOST");
    reveal_strlit("PORT");
    assert forall|i: int| 0 <= i < 4 implies !crate::parse::is_ws(#[trigger] "PATH"@[i]) && "PATH"@[i]
        != '=' by {
        assert(i == 0 || i == 1 || i == 2 || i == 3);
    }
    lemma_key_value_line("PATH"@, v);
    assert("PATH="@ =~= "PATH"@ + seq!['=']);
    assert("PATH"@ != "HOST"@) by {
        assert("PATH"@[0] != "HOST"@[0]);
    }
    assert("PATH"@ != "PORT"@) by {
        assert("PATH"@[1] != "PORT"@[1]);
    }
}

/// An invite line `HOST=v`, where `v` has no white space at either end and is at most 64
/// bytes, sets the host to `v` and leaves the other fields as they were.
pub proof fn law_invite_host_line(acc: InviteFields, v: Seq<char>)
    requires
        v.len() > 0,
        !crate::parse::is_ws(v[0]),
        !crate::parse::is_ws(v.last()),
        utf8_len(v) <= 64,
    ensures
        apply_line(acc, "HOST="@ + v) == (InviteFields { host: Some(v), ..acc }),
{
    reveal_strlit("HOST=");
    reveal_strlit("HOST");
    assert forall|i: int| 0 <= i < 4 implies !crate::parse::is_ws(#[trigger] "HOST"@[i]) && "HOST"@[i]
        != '=' by {
        assert(i == 0 || i == 1 || i == 2 || i == 3);
    }
    lemma_key_value_line("HOST"@, v);
    assert("HOST="@ =~= "HOST"@ + seq!['=']);
}

/// In a line `key=v` with a four-letter key of non-space, non-`=` characters and a value
/// without white space at its ends, the trimmed line splits into exactly `key` and `v`.
proof fn lemma_key_value_line(key: Seq<char>, v: Seq<char>)
    requires
        key.len() == 4,
        forall|i: int| 0 <= i < 4 ==> !crate::parse::is_ws(#[trigger] key[i]) && key[i] != '=',
        v.len() > 0,
        !crate::parse::is_ws(v[0]),
        !crate::parse::is_ws(v.last()),
    ensures
        ({
            let line = key + seq!['='] + v;
            let t = trim(line);
            &&& t == line
            &&& first_index_of(t, '=') == Some(4int)
            &&& trim(t.take(4)) == key
            &&& trim(t.skip(5)) == v
        }),
{
    let line = key + seq!['='] + v;
    lemma_trim_unchanged(line);
    lemma_trim_unchanged(v);
    lemma_trim_unchanged(key);
    assert(line.take(4) =~= key);
    assert(line.skip(5) =~= v);
    assert forall|j: int| 0 <= j < 4 implies #[trigger] line[j] != '=' by {
        assert(line[j] == key[j]);
    }
    assert(line[4] == '=');
    lemma_first_index_of(line, '=', 4);
}

/// A sequence without white space at its ends is its own trim.
proof fn lemma_trim_unchanged(s: Seq<char>)
    requires
        s.len() > 0,
        !crate::parse::is_ws(s[0]),
        !crate::parse::is_ws(s.last()),
    ensures
        trim(s) == s,
{
    assert(crate::parse::leading_ws(s) == 0);
    assert(s.skip(0) =~= s);
    assert(crate::parse::trailing_ws(s) == 0);
    assert(s.take(s.len() as int) =~= s);
}

} // verus!
