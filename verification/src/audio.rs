//! Media panel data: the two-phase cover-art cache, image sniffing into data
//! URLs, sample-format parsing, the loudness-based fallback panel, media
//! control actions and the module's run flags.
use vstd::prelude::*;
use crate::text::{chars_of, owned, push_str, str_eq};
use base64::Engine;

verus! {

// ---------------------------------------------------------------------------
// Cover-art cache
// ---------------------------------------------------------------------------

/// Re-read interval for an unconfirmed non-empty cover (ms).
pub const THUMB_SETTLE_MS: u64 = 400;
/// A non-empty cover must have been stable this long since the track changed (ms).
pub const THUMB_CONFIRM_MS: u64 = 1500;
/// Re-read interval for an empty cover (ms).
pub const THUMB_EMPTY_RETRY_MS: u64 = 1000;
/// Empty reads after which "no cover" is accepted.
pub const THUMB_EMPTY_MAX_TRIES: u32 = 3;

/// The cache's single entry: candidate or confirmed cover of one track.
pub struct ThumbEntry {
    /// Track key (title|artist|album|app).
    pub key: String,
    /// Data URL (empty = no cover / not ready).
    pub value: String,
    /// Confirmed: shown from now on without reloading.
    pub confirmed: bool,
    /// When the track key entered the entry (ms).
    pub key_at: u64,
    /// Last read (ms).
    pub last_read_at: u64,
    /// Consecutive identical reads of the current value.
    pub reads: u32,
    /// Empty reads so far.
    pub empty_tries: u32,
}

/// Cover-art cache: a cover is shown only once it is confirmed, so that the
/// previous track's cover, still reported right after a track change, is
/// never shown for the new track.
pub struct ThumbCache {
    pub entry: Option<ThumbEntry>,
}

/// Outcome of recording a read: the entry afterwards and the value to show.
pub open spec fn spec_record(entry: Option<ThumbEntry>, key: Seq<char>, value: Seq<char>, now: u64)
    -> (Option<(Seq<char>, Seq<char>, bool, u64, u64, u32, u32)>, Seq<char>)
{
    match entry {
        Some(e) if e.key@ == key && !e.confirmed => {
            if value.len() == 0 {
                let tries = if e.empty_tries == u32::MAX { u32::MAX } else { (e.empty_tries + 1) as u32 };
                (Some((e.key@, e.value@, tries >= THUMB_EMPTY_MAX_TRIES, e.key_at, now, e.reads, tries)), Seq::empty())
            } else if e.value@ == value {
                let reads = if e.reads == u32::MAX { u32::MAX } else { (e.reads + 1) as u32 };
                let stable = now >= e.key_at && now - e.key_at >= THUMB_CONFIRM_MS;
                let ok = reads >= 2 && stable;
                (Some((e.key@, e.value@, ok, e.key_at, now, reads, e.empty_tries)), if ok { e.value@ } else { Seq::empty() })
            } else {
                (Some((e.key@, value, false, e.key_at, now, 1u32, 0u32)), Seq::empty())
            }
        },
        _ => (Some((key, value, false, now, now, 1u32, 0u32)), Seq::empty()),
    }
}

pub open spec fn entry_tuple(e: Option<ThumbEntry>) -> Option<(Seq<char>, Seq<char>, bool, u64, u64, u32, u32)> {
    match e {
        Some(e) => Some((e.key@, e.value@, e.confirmed, e.key_at, e.last_read_at, e.reads, e.empty_tries)),
        None => None,
    }
}

impl ThumbCache {
    pub fn new() -> (c: Self)
        ensures
            c.entry is None,
    {
        ThumbCache { entry: None }
    }

    /// The confirmed cover of `key`, if there is one (no reload needed).
    pub fn cached(&self, key: &str) -> (r: Option<String>)
        ensures
            match r {
                Some(v) => self.entry is Some && self.entry->0.key@ == key@ && self.entry->0.confirmed
                    && v@ == self.entry->0.value@,
                None => !(self.entry is Some && self.entry->0.key@ == key@ && self.entry->0.confirmed),
            },
    {
        match &self.entry {
            Some(e) => {
                if e.confirmed && str_eq(e.key.as_str(), key) {
                    Some(e.value.clone())
                } else {
                    None
                }
            },
            None => None,
        }
    }

    /// Records a freshly loaded cover `value` for `key` at `now` (ms) and
    /// returns what to show: the cover once it is confirmed, otherwise empty.
    /// A new key starts a candidate; an unchanged non-empty cover is confirmed
    /// on its second identical read at least 1500 ms after the key appeared;
    /// a changed cover restarts the count; an empty cover is accepted after
    /// three empty reads.
    pub fn record(&mut self, key: &str, value: String, now: u64) -> (shown: String)
        ensures
            (entry_tuple(final(self).entry), shown@) == spec_record(old(self).entry, key@, value@, now),
    {
        let same_unconfirmed = match &self.entry {
            Some(e) => !e.confirmed && str_eq(e.key.as_str(), key),
            None => false,
        };
        if same_unconfirmed {
            let mut e = self.entry.take().unwrap();
            e.last_read_at = now;
            let vchars = chars_of(value.as_str());
            let shown: String;
            if vchars.len() == 0 {
                e.empty_tries = e.empty_tries.saturating_add(1);
                if e.empty_tries >= THUMB_EMPTY_MAX_TRIES {
                    e.confirmed = true;
                }
                shown = String::new();
            } else if str_eq(e.value.as_str(), value.as_str()) {
                e.reads = e.reads.saturating_add(1);
                let stable = now >= e.key_at && now - e.key_at >= THUMB_CONFIRM_MS;
                if e.reads >= 2 && stable {
                    e.confirmed = true;
                    shown = e.value.clone();
                } else {
                    shown = String::new();
                }
            } else {
                e.value = value;
                e.reads = 1;
                e.empty_tries = 0;
                shown = String::new();
            }
            self.entry = Some(e);
            shown
        } else {
            let k = owned(key);
            self.entry = Some(ThumbEntry {
                key: k,
                value,
                confirmed: false,
                key_at: now,
                last_read_at: now,
                reads: 1,
                empty_tries: 0,
            });
            String::new()
        }
    }

    /// The cover to show for `key` at `now`: the confirmed one without calling
    /// `load` (so `load` need only be callable when nothing is confirmed for
    /// `key`), otherwise `load()` is recorded (see `record`).
    pub fn cached_thumbnail<F: FnOnce() -> String>(&mut self, key: &str, now: u64, load: F) -> (shown: String)
        requires
            !confirmed_for(old(self).entry, key@) ==> call_requires(load, ()),
        ensures
            confirmed_for(old(self).entry, key@) ==> ({
                &&& shown@ == old(self).entry->0.value@
                &&& entry_tuple(final(self).entry) == entry_tuple(old(self).entry)
            }),
            !confirmed_for(old(self).entry, key@) ==>
                exists|v: String| call_ensures(load, (), v)
                    && (entry_tuple(final(self).entry), shown@) == spec_record(old(self).entry, key@, v@, now),
    {
        if let Some(v) = self.cached(key) {
            return v;
        }
        let value = load();
        let ghost vv = value;
        let shown = self.record(key, value, now);
        assert(call_ensures(load, (), vv));
        shown
    }

    /// Whether the unconfirmed cover of `key` is due for a forced re-read at
    /// `now`: 400 ms after the last read for a candidate, 1000 ms for an empty one.
    pub fn refresh_due_for(&self, key: &str, now: u64) -> (due: bool)
        ensures
            due == (self.entry is Some && self.entry->0.key@ == key@ && !self.entry->0.confirmed
                && now >= self.entry->0.last_read_at
                && now - self.entry->0.last_read_at >= (if self.entry->0.value@.len() == 0 { THUMB_EMPTY_RETRY_MS } else { THUMB_SETTLE_MS })),
    {
        match &self.entry {
            Some(e) => {
                if !e.confirmed && str_eq(e.key.as_str(), key) {
                    let v = chars_of(e.value.as_str());
                    let delay = if v.len() == 0 { THUMB_EMPTY_RETRY_MS } else { THUMB_SETTLE_MS };
                    now >= e.last_read_at && now - e.last_read_at >= delay
                } else {
                    false
                }
            },
            None => false,
        }
    }
}

/// The cache holds a confirmed cover for `key`.
pub open spec fn confirmed_for(entry: Option<ThumbEntry>, key: Seq<char>) -> bool {
    entry is Some && entry->0.key@ == key && entry->0.confirmed
}

/// Law: a non-empty cover is shown for a track only when it was read at least
/// twice identically and at least 1500 ms after the track appeared, or it had
/// been confirmed already.
pub proof fn law_cover_shown_only_when_confirmed(entry: Option<ThumbEntry>, key: Seq<char>, value: Seq<char>, now: u64)
    requires
        spec_record(entry, key, value, now).1.len() > 0,
    ensures
        ({
            let e = spec_record(entry, key, value, now).0->0;
            &&& e.2
            &&& e.1 == spec_record(entry, key, value, now).1
            &&& e.5 >= 2
            &&& now - e.3 >= THUMB_CONFIRM_MS
        }),
{
}

/// Cache key of the current track.
pub fn thumb_key(title: &str, artist: &str, album: &str, app_name: &str) -> (k: String)
    ensures
        k@ == title@ + "|"@ + artist@ + "|"@ + album@ + "|"@ + app_name@,
{
    let mut k = owned(title);
    push_str(&mut k, "|");
    push_str(&mut k, artist);
    push_str(&mut k, "|");
    push_str(&mut k, album);
    push_str(&mut k, "|");
    push_str(&mut k, app_name);
    k
}

// ---------------------------------------------------------------------------
// Cover images as data URLs
// ---------------------------------------------------------------------------

/// The character of a 6-bit value in the standard Base64 alphabet
/// (`A`–`Z`, `a`–`z`, `0`–`9`, `+`, `/`).
pub open spec fn base64_digit(v: int) -> char {
    if v < 26 {
        (65 + v) as char
    } else if v < 52 {
        (97 + v - 26) as char
    } else if v < 62 {
        (48 + v - 52) as char
    } else if v == 62 {
        '+'
    } else {
        '/'
    }
}

/// Standard Base64 with padding (RFC 4648): every three bytes give four
/// characters; a final one or two bytes give two or three characters padded
/// with `=` to four.
pub open spec fn base64_standard(bytes: Seq<u8>) -> Seq<char>
    decreases bytes.len(),
{
    if bytes.len() == 0 {
        seq![]
    } else if bytes.len() == 1 {
        let x = bytes[0] as int;
        seq![base64_digit(x / 4), base64_digit((x % 4) * 16), '=', '=']
    } else if bytes.len() == 2 {
        let x = bytes[0] as int;
        let y = bytes[1] as int;
        seq![base64_digit(x / 4), base64_digit((x % 4) * 16 + y / 16), base64_digit((y % 16) * 4), '=']
    } else {
        let x = bytes[0] as int;
        let y = bytes[1] as int;
        let z = bytes[2] as int;
        seq![base64_digit(x / 4), base64_digit((x % 4) * 16 + y / 16), base64_digit((y % 16) * 4 + z / 64), base64_digit(z % 64)]
            + base64_standard(bytes.subrange(3, bytes.len() as int))
    }
}

/// `base64::engine::general_purpose::STANDARD.encode(bytes)`: the standard
/// alphabet with `=` padding, as `base64_standard` states it.
#[verifier::external_body]
pub(crate) fn base64_encode(bytes: &[u8]) -> (s: String)
    ensures
        s@ == base64_standard(bytes@),
{
    base64::engine::general_purpose::STANDARD.encode(bytes)
}

pub open spec fn bytes_at(b: Seq<u8>, at: int, p: Seq<u8>) -> bool {
    at + p.len() <= b.len() && b.subrange(at, at + p.len() as int) == p
}

/// Image type recognised from the file header (the reported content type is unreliable).
pub open spec fn spec_sniff_mime(b: Seq<u8>) -> Option<Seq<char>> {
    if bytes_at(b, 0, seq![0x89u8, 0x50u8, 0x4Eu8, 0x47u8, 0x0Du8, 0x0Au8, 0x1Au8, 0x0Au8]) {
        Some("image/png"@)
    } else if bytes_at(b, 0, seq![0xFFu8, 0xD8u8, 0xFFu8]) {
        Some("image/jpeg"@)
    } else if bytes_at(b, 0, seq![0x47u8, 0x49u8, 0x46u8, 0x38u8]) {
        Some("image/gif"@)
    } else if bytes_at(b, 0, seq![0x42u8, 0x4Du8]) {
        Some("image/bmp"@)
    } else if b.len() >= 12 && bytes_at(b, 0, seq![0x52u8, 0x49u8, 0x46u8, 0x46u8])
        && bytes_at(b, 8, seq![0x57u8, 0x45u8, 0x42u8, 0x50u8]) {
        Some("image/webp"@)
    } else if b.len() >= 12 && bytes_at(b, 4, seq![0x66u8, 0x74u8, 0x79u8, 0x70u8])
        && (bytes_at(b, 8, seq![0x61u8, 0x76u8, 0x69u8, 0x66u8]) || bytes_at(b, 8, seq![0x61u8, 0x76u8, 0x69u8, 0x73u8])) {
        Some("image/avif"@)
    } else {
        None
    }
}

fn bytes_at_exec(b: &[u8], at: usize, p: &[u8]) -> (r: bool)
    ensures
        r == bytes_at(b@, at as int, p@),
{
    if at > b.len() || p.len() > b.len() - at {
        return false;
    }
    let mut i: usize = 0;
    while i < p.len()
        invariant
            i <= p.len(),
            at + p.len() <= b.len(),
            forall|k: int| 0 <= k < i ==> b@[at + k] == p@[k],
        decreases p.len() - i,
    {
        if b[at + i] != p[i] {
            assert(b@.subrange(at as int, at + p.len())[i as int] != p@[i as int]);
            return false;
        }
        i += 1;
    }
    assert(b@.subrange(at as int, at + p.len()) =~= p@);
    true
}

/// The image type of a cover image from its first bytes.
pub fn sniff_mime(b: &[u8]) -> (r: Option<&'static str>)
    ensures
        match r {
            Some(m) => spec_sniff_mime(b@) == Some(m@),
            None => spec_sniff_mime(b@) is None,
        },
{
    let png: [u8; 8] = [0x89, 0x50, 0x4E, 0x47, 0x0D, 0x0A, 0x1A, 0x0A];
    let jpg: [u8; 3] = [0xFF, 0xD8, 0xFF];
    let gif: [u8; 4] = [0x47, 0x49, 0x46, 0x38];
    let bmp: [u8; 2] = [0x42, 0x4D];
    let riff: [u8; 4] = [0x52, 0x49, 0x46, 0x46];
    let webp: [u8; 4] = [0x57, 0x45, 0x42, 0x50];
    let ftyp: [u8; 4] = [0x66, 0x74, 0x79, 0x70];
    let avif: [u8; 4] = [0x61, 0x76, 0x69, 0x66];
    let avis: [u8; 4] = [0x61, 0x76, 0x69, 0x73];
    assert(png@ =~= seq![0x89u8, 0x50u8, 0x4Eu8, 0x47u8, 0x0Du8, 0x0Au8, 0x1Au8, 0x0Au8]);
    assert(jpg@ =~= seq![0xFFu8, 0xD8u8, 0xFFu8]);
    assert(gif@ =~= seq![0x47u8, 0x49u8, 0x46u8, 0x38u8]);
    assert(bmp@ =~= seq![0x42u8, 0x4Du8]);
    assert(riff@ =~= seq![0x52u8, 0x49u8, 0x46u8, 0x46u8]);
    assert(webp@ =~= seq![0x57u8, 0x45u8, 0x42u8, 0x50u8]);
    assert(ftyp@ =~= seq![0x66u8, 0x74u8, 0x79u8, 0x70u8]);
    assert(avif@ =~= seq![0x61u8, 0x76u8, 0x69u8, 0x66u8]);
    assert(avis@ =~= seq![0x61u8, 0x76u8, 0x69u8, 0x73u8]);
    if bytes_at_exec(b, 0, &png) {
        Some("image/png")
    } else if bytes_at_exec(b, 0, &jpg) {
        Some("image/jpeg")
    } else if bytes_at_exec(b, 0, &gif) {
        Some("image/gif")
    } else if bytes_at_exec(b, 0, &bmp) {
        Some("image/bmp")
    } else if b.len() >= 12 && bytes_at_exec(b, 0, &riff) && bytes_at_exec(b, 8, &webp) {
        Some("image/webp")
    } else if b.len() >= 12 && bytes_at_exec(b, 4, &ftyp) && (bytes_at_exec(b, 8, &avif) || bytes_at_exec(b, 8, &avis)) {
        Some("image/avif")
    } else {
        None
    }
}

/// `data:<mime>;base64,<payload>`.
pub open spec fn data_url(mime: Seq<char>, bytes: Seq<u8>) -> Seq<char> {
    "data:"@ + mime + ";base64,"@ + base64_standard(bytes)
}

/// Builds a data URL of the given type.
pub fn make_data_url(mime: &str, bytes: &[u8]) -> (r: String)
    ensures
        r@ == data_url(mime@, bytes@),
{
    let mut r = owned("data:");
    push_str(&mut r, mime);
    push_str(&mut r, ";base64,");
    let b = base64_encode(bytes);
    push_str(&mut r, b.as_str());
    r
}

/// The cover read from the media session as a data URL; empty when the
/// image type is not recognised.
pub fn thumbnail_data_url(bytes: &[u8]) -> (r: String)
    ensures
        r@ == match spec_sniff_mime(bytes@) {
            Some(m) => data_url(m, bytes@),
            None => Seq::empty(),
        },
{
    match sniff_mime(bytes) {
        Some(m) => make_data_url(m, bytes),
        None => String::new(),
    }
}

// ---------------------------------------------------------------------------
// Sample format
// ---------------------------------------------------------------------------

/// Sample format of the captured stream.
#[derive(Clone, Copy, Debug, PartialEq, Eq, Structural)]
pub struct AudioFormat {
    pub sample_rate: u32,
    pub channels: usize,
    pub bits: usize,
    pub is_float: bool,
}

pub const WAVE_FORMAT_IEEE_FLOAT: u16 = 0x0003;
pub const WAVE_FORMAT_EXTENSIBLE: u16 = 0xFFFE;

/// Whether the extensible header's sub-format has to be inspected.
pub fn needs_subformat(format_tag: u16, cb_size: u16) -> (b: bool)
    ensures
        b == (format_tag == WAVE_FORMAT_EXTENSIBLE && cb_size >= 22),
{
    format_tag == WAVE_FORMAT_EXTENSIBLE && cb_size >= 22
}

/// Sample format from the mix-format header fields: float when the tag says
/// IEEE float, or the extensible header's sub-format (consulted only when
/// `needs_subformat`) is IEEE float; rate, channel count and bit depth are
/// raised to at least 44100, 1 and 16.
pub fn parse_format(format_tag: u16, cb_size: u16, subformat_is_float: bool, samples_per_sec: u32, channels: u16, bits_per_sample: u16) -> (f: AudioFormat)
    ensures
        f.is_float == (format_tag == WAVE_FORMAT_IEEE_FLOAT
            || (format_tag == WAVE_FORMAT_EXTENSIBLE && cb_size >= 22 && subformat_is_float)),
        f.sample_rate == (if samples_per_sec < 44100 { 44100 } else { samples_per_sec }),
        f.channels == (if channels < 1 { 1 } else { channels }) as usize,
        f.bits == (if bits_per_sample < 16 { 16 } else { bits_per_sample }) as usize,
{
    let is_float = if format_tag == WAVE_FORMAT_IEEE_FLOAT {
        true
    } else if needs_subformat(format_tag, cb_size) {
        subformat_is_float
    } else {
        false
    };
    AudioFormat {
        sample_rate: if samples_per_sec < 44100 { 44100 } else { samples_per_sec },
        channels: (if channels < 1 { 1 } else { channels }) as usize,
        bits: (if bits_per_sample < 16 { 16 } else { bits_per_sample }) as usize,
        is_float,
    }
}

// ---------------------------------------------------------------------------
// Application name
// ---------------------------------------------------------------------------

/// The part of `s` before the first `!`.
pub open spec fn before_bang(s: Seq<char>) -> Seq<char>
    decreases s.len(),
{
    if s.len() == 0 {
        s
    } else if s[0] == '!' {
        Seq::empty()
    } else {
        seq![s[0]] + before_bang(s.drop_first())
    }
}

/// Human-readable name of a media application: empty for an empty model id;
/// the system's display name when it has a non-empty one; otherwise the id
/// up to its `!` suffix.
pub fn app_display_name(aumid: &str, display_name: Option<String>) -> (r: String)
    ensures
        aumid@.len() == 0 ==> r@.len() == 0,
        aumid@.len() > 0 ==> r@ == match display_name {
            Some(d) => if d@.len() > 0 { d@ } else { before_bang(aumid@) },
            None => before_bang(aumid@),
        },
{
    let a = chars_of(aumid);
    if a.len() == 0 {
        return String::new();
    }
    if let Some(d) = display_name {
        let dc = chars_of(d.as_str());
        if dc.len() > 0 {
            return d;
        }
    }
    let mut r = String::new();
    let mut i: usize = 0;
    assert(a@.skip(0) =~= a@);
    assert(r@ + before_bang(a@) =~= before_bang(a@));
    while i < a.len() && a[i] != '!'
        invariant
            i <= a@.len(),
            forall|k: int| 0 <= k < i ==> a@[k] != '!',
            r@ == a@.take(i as int),
            before_bang(a@) == r@ + before_bang(a@.skip(i as int)),
        decreases a@.len() - i,
    {
        crate::text::push_char(&mut r, a[i]);
        proof {
            let s = a@.skip(i as int);
            assert(s.drop_first() =~= a@.skip(i + 1));
            assert(s[0] == a@[i as int]);
            assert(r@ =~= a@.take(i + 1));
            assert(r@ + before_bang(a@.skip(i + 1)) =~= a@.take(i as int) + (seq![a@[i as int]] + before_bang(a@.skip(i + 1))));
        }
        i += 1;
    }
    proof {
        let s = a@.skip(i as int);
        if i < a@.len() {
            assert(s[0] == '!');
        } else {
            assert(s.len() == 0);
        }
        assert(r@ + Seq::<char>::empty() =~= r@);
    }
    r
}

// ---------------------------------------------------------------------------
// Media control
// ---------------------------------------------------------------------------

/// A media-control command of the panel buttons.
#[derive(Clone, Copy, Debug, PartialEq, Eq, Structural)]
pub enum MediaAction {
    Play,
    Pause,
    Next,
    Prev,
}

/// The command named by a button action ("play" / "pause" / "next" /
/// "prev"); any other name does nothing.
pub fn media_action(action: &str) -> (r: Option<MediaAction>)
    ensures
        r == (if action@ == "play"@ { Some(MediaAction::Play) }
            else if action@ == "pause"@ { Some(MediaAction::Pause) }
            else if action@ == "next"@ { Some(MediaAction::Next) }
            else if action@ == "prev"@ { Some(MediaAction::Prev) }
            else { None }),
{
    if str_eq(action, "play") { Some(MediaAction::Play) }
    else if str_eq(action, "pause") { Some(MediaAction::Pause) }
    else if str_eq(action, "next") { Some(MediaAction::Next) }
    else if str_eq(action, "prev") { Some(MediaAction::Prev) }
    else { None }
}

// ---------------------------------------------------------------------------
// Fallback panel (sound without a playing media session)
// ---------------------------------------------------------------------------

/// Frame interval of the level capture (ms).
pub const WAVE_POLL_MS: u64 = 100;
/// Sound must last this long before the fallback panel appears (ms).
pub const FALLBACK_ARM_MS: u64 = 2000;
/// Silence must last this long before the fallback panel hides (ms).
pub const FALLBACK_HIDE_MS: u64 = 1000;

/// What a frame asks the panel to do.
#[derive(Clone, Copy, Debug, PartialEq, Eq, Structural)]
pub enum PanelEvent {
    Nothing,
    /// Show the generic "playing audio" state.
    ShowFallback,
    /// Return to the idle state.
    HideFallback,
}

/// A counter that stops at `u32::MAX`, one step up.
pub open spec fn sat_inc(x: u32) -> u32 {
    if x == u32::MAX { u32::MAX } else { (x + 1) as u32 }
}

/// One frame on the counters `(silent, energy, fallback shown)`: `loud`
/// whether any band was non-zero, `smtc` whether a media session plays.
/// Sound lasting `FALLBACK_ARM_MS` without a session shows the fallback;
/// silence lasting `FALLBACK_HIDE_MS` hides it.
pub open spec fn spec_wave_step(s: (u32, u32, bool), loud: bool, smtc: bool) -> ((u32, u32, bool), PanelEvent) {
    if loud {
        let e = sat_inc(s.1);
        if !s.2 && !smtc && e * WAVE_POLL_MS >= FALLBACK_ARM_MS {
            ((0, e, true), PanelEvent::ShowFallback)
        } else {
            ((0, e, s.2), PanelEvent::Nothing)
        }
    } else {
        let q = sat_inc(s.0);
        if s.2 && q * WAVE_POLL_MS >= FALLBACK_HIDE_MS {
            ((q, 0, false), PanelEvent::HideFallback)
        } else {
            ((q, 0, s.2), PanelEvent::Nothing)
        }
    }
}

/// The counters after a run of frames `(loud, smtc)` from a fresh monitor.
pub open spec fn spec_wave_run(frames: Seq<(bool, bool)>) -> (u32, u32, bool)
    decreases frames.len(),
{
    if frames.len() == 0 {
        (0, 0, false)
    } else {
        spec_wave_step(spec_wave_run(frames.drop_last()), frames.last().0, frames.last().1).0
    }
}

/// What frame `i` of a run asks the panel to do.
pub open spec fn spec_wave_event(frames: Seq<(bool, bool)>, i: int) -> PanelEvent {
    spec_wave_step(spec_wave_run(frames.take(i)), frames[i].0, frames[i].1).1
}

/// After any run the sound counter counts only the loud frames at its end,
/// and the silence counter only the silent ones.
proof fn lemma_wave_counters(frames: Seq<(bool, bool)>)
    ensures
        spec_wave_run(frames).1 <= frames.len(),
        spec_wave_run(frames).0 <= frames.len(),
        forall|k: int| frames.len() - spec_wave_run(frames).1 <= k < frames.len() ==> (#[trigger] frames[k]).0,
        forall|k: int| frames.len() - spec_wave_run(frames).0 <= k < frames.len() ==> !(#[trigger] frames[k]).0,
    decreases frames.len(),
{
    if frames.len() > 0 {
        let init = frames.drop_last();
        lemma_wave_counters(init);
        let prev = spec_wave_run(init);
        let n = frames.len() as int;
        assert(frames.last() == frames[n - 1]);
        let cur = spec_wave_run(frames);
        assert forall|k: int| n - cur.1 <= k < n implies (#[trigger] frames[k]).0 by {
            if k < n - 1 {
                assert(init[k] == frames[k]);
                assert(init.len() - prev.1 <= k);
            }
        }
        assert forall|k: int| n - cur.0 <= k < n implies !(#[trigger] frames[k]).0 by {
            if k < n - 1 {
                assert(init[k] == frames[k]);
                assert(init.len() - prev.0 <= k);
            }
        }
    }
}

/// The fallback panel follows sound over time, not single frames: from a
/// fresh monitor, it is shown only at the end of at least 20 loud frames in a
/// row (2000 ms of sound; a short beep never shows it) with no media session
/// playing, and it is hidden only at the end of at least 10 silent frames in
/// a row (1000 ms of silence).
pub proof fn law_fallback_follows_sustained_sound(frames: Seq<(bool, bool)>, i: int)
    requires
        0 <= i < frames.len(),
    ensures
        spec_wave_event(frames, i) == PanelEvent::ShowFallback ==> {
            &&& i >= 19
            &&& !frames[i].1
            &&& forall|k: int| i - 19 <= k <= i ==> (#[trigger] frames[k]).0
        },
        spec_wave_event(frames, i) == PanelEvent::HideFallback ==> {
            &&& i >= 9
            &&& forall|k: int| i - 9 <= k <= i ==> !(#[trigger] frames[k]).0
        },
{
    let pre = frames.take(i + 1);
    assert(pre.drop_last() =~= frames.take(i));
    assert(pre.last() == frames[i]);
    let st = spec_wave_step(spec_wave_run(frames.take(i)), frames[i].0, frames[i].1);
    assert(spec_wave_run(pre) == st.0);
    lemma_wave_counters(pre);
    if st.1 == PanelEvent::ShowFallback {
        assert(st.0.1 >= 20);
        assert forall|k: int| i - 19 <= k <= i implies (#[trigger] frames[k]).0 by {
            assert(pre[k] == frames[k]);
            assert(pre.len() - spec_wave_run(pre).1 <= k);
        }
    }
    if st.1 == PanelEvent::HideFallback {
        assert(st.0.0 >= 10);
        assert forall|k: int| i - 9 <= k <= i implies !(#[trigger] frames[k]).0 by {
            assert(pre[k] == frames[k]);
            assert(pre.len() - spec_wave_run(pre).0 <= k);
        }
    }
}

/// Counters of the level-capture loop.
pub struct WaveMonitor {
    pub silent_ticks: u32,
    pub energy_ticks: u32,
    pub fallback_on: bool,
}

impl WaveMonitor {
    pub fn new() -> (m: Self)
        ensures
            m.silent_ticks == 0 && m.energy_ticks == 0 && !m.fallback_on,
    {
        WaveMonitor { silent_ticks: 0, energy_ticks: 0, fallback_on: false }
    }

    /// The panel switch was turned off: returns whether the fallback panel has
    /// to be hidden.
    pub fn on_disabled(&mut self) -> (must_hide: bool)
        ensures
            must_hide == old(self).fallback_on,
            !final(self).fallback_on,
            final(self).silent_ticks == old(self).silent_ticks,
            final(self).energy_ticks == old(self).energy_ticks,
    {
        let must_hide = self.fallback_on;
        self.fallback_on = false;
        must_hide
    }

    /// A media session plays again: the fallback gives way without an event.
    pub fn yield_to_session(&mut self, smtc_playing: bool)
        ensures
            final(self).fallback_on == (old(self).fallback_on && !smtc_playing),
            final(self).silent_ticks == old(self).silent_ticks,
            final(self).energy_ticks == old(self).energy_ticks,
    {
        if self.fallback_on && smtc_playing {
            self.fallback_on = false;
        }
    }

    /// One captured frame: `has_energy` whether any band was non-zero,
    /// `smtc_playing` whether a media session is playing.
    pub fn on_frame(&mut self, has_energy: bool, smtc_playing: bool) -> (ev: PanelEvent)
        ensures
            ((final(self).silent_ticks, final(self).energy_ticks, final(self).fallback_on), ev)
                == spec_wave_step((old(self).silent_ticks, old(self).energy_ticks, old(self).fallback_on), has_energy, smtc_playing),
            ev == PanelEvent::ShowFallback ==> has_energy && !smtc_playing && final(self).energy_ticks >= 20,
            ev == PanelEvent::HideFallback ==> !has_energy && final(self).silent_ticks >= 10,
            has_energy ==> ({
                let e = if old(self).energy_ticks == u32::MAX { u32::MAX } else { (old(self).energy_ticks + 1) as u32 };
                &&& final(self).silent_ticks == 0
                &&& final(self).energy_ticks == e
                &&& (!old(self).fallback_on && !smtc_playing && e * WAVE_POLL_MS >= FALLBACK_ARM_MS)
                    ==> ev == PanelEvent::ShowFallback && final(self).fallback_on
                &&& !(!old(self).fallback_on && !smtc_playing && e * WAVE_POLL_MS >= FALLBACK_ARM_MS)
                    ==> ev == PanelEvent::Nothing && final(self).fallback_on == old(self).fallback_on
            }),
            !has_energy ==> ({
                let s = if old(self).silent_ticks == u32::MAX { u32::MAX } else { (old(self).silent_ticks + 1) as u32 };
                &&& final(self).silent_ticks == s
                &&& final(self).energy_ticks == 0
                &&& (old(self).fallback_on && s * WAVE_POLL_MS >= FALLBACK_HIDE_MS)
                    ==> ev == PanelEvent::HideFallback && !final(self).fallback_on
                &&& !(old(self).fallback_on && s * WAVE_POLL_MS >= FALLBACK_HIDE_MS)
                    ==> ev == PanelEvent::Nothing && final(self).fallback_on == old(self).fallback_on
            }),
    {
        if has_energy {
            self.silent_ticks = 0;
            self.energy_ticks = self.energy_ticks.saturating_add(1);
            if !self.fallback_on && !smtc_playing && (self.energy_ticks as u64) * WAVE_POLL_MS >= FALLBACK_ARM_MS {
                self.fallback_on = true;
                return PanelEvent::ShowFallback;
            }
            PanelEvent::Nothing
        } else {
            self.silent_ticks = self.silent_ticks.saturating_add(1);
            self.energy_ticks = 0;
            if self.fallback_on && (self.silent_ticks as u64) * WAVE_POLL_MS >= FALLBACK_HIDE_MS {
                self.fallback_on = false;
                return PanelEvent::HideFallback;
            }
            PanelEvent::Nothing
        }
    }

    /// The capture device went away: the silence count restarts.
    pub fn on_invalidated(&mut self)
        ensures
            final(self).silent_ticks == 0,
            final(self).energy_ticks == old(self).energy_ticks,
            final(self).fallback_on == old(self).fallback_on,
    {
        self.silent_ticks = 0;
    }

    /// After about two seconds of silence the capture client is released
    /// (and re-created when sound returns); returns whether to release now.
    pub fn release_when_silent(&mut self, capturing: bool) -> (release: bool)
        ensures
            release == (old(self).silent_ticks >= 20 && capturing),
            final(self).silent_ticks == (if release { 0 } else { old(self).silent_ticks }),
            final(self).energy_ticks == old(self).energy_ticks,
            final(self).fallback_on == old(self).fallback_on,
    {
        if self.silent_ticks >= 20 && capturing {
            self.silent_ticks = 0;
            true
        } else {
            false
        }
    }
}

// ---------------------------------------------------------------------------
// Run flags
// ---------------------------------------------------------------------------

/// Run flags shared by the session loop and the capture loop.
pub struct AudioFlags {
    pub running: bool,
    pub enabled: bool,
    /// A media session is active and playing.
    pub smtc_playing: bool,
}

impl AudioFlags {
    pub fn new() -> (f: Self)
        ensures
            f.running && !f.enabled && !f.smtc_playing,
    {
        AudioFlags { running: true, enabled: false, smtc_playing: false }
    }

    /// Stops both loops (on exit): nothing is playing any more.
    pub fn stop(&mut self)
        ensures
            !final(self).running,
            !final(self).smtc_playing,
            final(self).enabled == old(self).enabled,
    {
        self.running = false;
        self.smtc_playing = false;
    }

    /// Panel switch: when off, capture stops and the idle state is shown.
    pub fn set_enabled(&mut self, enabled: bool)
        ensures
            final(self).enabled == enabled,
            final(self).running == old(self).running,
            final(self).smtc_playing == old(self).smtc_playing,
    {
        self.enabled = enabled;
    }
}

} // verus!
