//! Decision logic of the background screenshot watcher: which files look
//! like screenshots, which directory entry is the newest candidate, when
//! the capture signal is considered active, and when a detected image is
//! actually emitted. All file and clipboard I/O stays with the caller,
//! which hands in plain values (names, times in milliseconds, counters,
//! fingerprints).

use vstd::prelude::*;

use vstd::string::StrSliceExecFns;
use vstd::string::StringSliceAdditionalSpecFns;

verus! {

/// How long after the capture tool was last seen running the "a screenshot
/// is coming" signal stays active, in milliseconds.
pub const SCREENSHOT_SIGNAL_GRACE_MS: u64 = 2000;

/// True iff the character is `lo` or its uppercase partner `up`.
pub open spec fn char_ci(c: char, lo: char, up: char) -> bool {
    c == lo || c == up
}

/// The position of the last dot in a name, or -1 when there is none.
pub open spec fn last_dot(s: Seq<char>) -> int
    decreases s.len(),
{
    if s.len() == 0 {
        -1
    } else if s.last() == '.' {
        s.len() - 1
    } else {
        last_dot(s.drop_last())
    }
}

/// True iff the name carries one of the image extensions png, jpg, jpeg or
/// tiff (any letter case). A name without an extension — no dot, or only
/// the leading dot of a hidden file — carries none.
pub open spec fn is_image_name(s: Seq<char>) -> bool {
    let d = last_dot(s);
    if d <= 0 {
        false
    } else {
        let e = s.subrange(d + 1, s.len() as int);
        ||| (e.len() == 3 && char_ci(e[0], 'p', 'P') && char_ci(e[1], 'n', 'N') && char_ci(
            e[2],
            'g',
            'G',
        ))
        ||| (e.len() == 3 && char_ci(e[0], 'j', 'J') && char_ci(e[1], 'p', 'P') && char_ci(
            e[2],
            'g',
            'G',
        ))
        ||| (e.len() == 4 && char_ci(e[0], 'j', 'J') && char_ci(e[1], 'p', 'P') && char_ci(
            e[2],
            'e',
            'E',
        ) && char_ci(e[3], 'g', 'G'))
        ||| (e.len() == 4 && char_ci(e[0], 't', 'T') && char_ci(e[1], 'i', 'I') && char_ci(
            e[2],
            'f',
            'F',
        ) && char_ci(e[3], 'f', 'F'))
    }
}

fn char_ci_at(c: char, lo: char, up: char) -> (r: bool)
    ensures
        r == char_ci(c, lo, up),
{
    c == lo || c == up
}

/// True iff the file name looks like an image by its extension.
pub fn is_image_file(name: &str) -> (r: bool)
    ensures
        r == is_image_name(name@),
{
    let n = name.unicode_len();
    let ghost s = name@;
    proof {
        assert(s.subrange(0, s.len() as int) =~= s);
    }
    // find the last dot
    let mut i: usize = n;
    let mut dot: Option<usize> = None;
    while i > 0
        invariant
            i <= n,
            n == s.len(),
            s == name@,
            match dot {
                Some(d) => d < n && s[d as int] == '.' && last_dot(s) == d,
                None => last_dot(s.subrange(0, i as int)) == last_dot(s),
            },
            dot is Some ==> i == 0,
        decreases i,
    {
        proof {
            assert(s.subrange(0, i as int).last() == s[i - 1]);
            assert(s.subrange(0, i as int).drop_last() =~= s.subrange(0, i - 1));
        }
        if name.get_char(i - 1) == '.' {
            dot = Some(i - 1);
            i = 0;
        } else {
            i = i - 1;
        }
    }
    proof {
        assert(s.subrange(0, 0) =~= Seq::<char>::empty());
    }
    let d = match dot {
        None => {
            return false;
        },
        Some(d) => d,
    };
    if d == 0 {
        return false;
    }
    let elen = n - d - 1;
    proof {
        let e = s.subrange(d + 1, s.len() as int);
        assert(e.len() == n - d - 1);
        assert forall|j: int| 0 <= j < e.len() implies e[j] == s[d + 1 + j] by {}
    }
    if elen == 3 {
        let e0 = name.get_char(d + 1);
        let e1 = name.get_char(d + 2);
        let e2 = name.get_char(d + 3);
        (char_ci_at(e0, 'p', 'P') && char_ci_at(e1, 'n', 'N') && char_ci_at(e2, 'g', 'G'))
            || (char_ci_at(e0, 'j', 'J') && char_ci_at(e1, 'p', 'P') && char_ci_at(e2, 'g', 'G'))
    } else if elen == 4 {
        let e0 = name.get_char(d + 1);
        let e1 = name.get_char(d + 2);
        let e2 = name.get_char(d + 3);
        let e3 = name.get_char(d + 4);
        (char_ci_at(e0, 'j', 'J') && char_ci_at(e1, 'p', 'P') && char_ci_at(e2, 'e', 'E')
            && char_ci_at(e3, 'g', 'G')) || (char_ci_at(e0, 't', 'T') && char_ci_at(e1, 'i', 'I')
            && char_ci_at(e2, 'f', 'F') && char_ci_at(e3, 'f', 'F'))
    } else {
        false
    }
}

/// True iff `s` begins with `p`.
pub open spec fn starts_with_chars(s: Seq<char>, p: Seq<char>) -> bool {
    p.len() <= s.len() && s.subrange(0, p.len() as int) == p
}

/// True iff the string begins with the given prefix.
pub fn str_starts_with(s: &str, prefix: &str) -> (r: bool)
    ensures
        r == starts_with_chars(s@, prefix@),
{
    let n = s.unicode_len();
    let m = prefix.unicode_len();
    if m > n {
        proof {
            assert(!starts_with_chars(s@, prefix@));
        }
        return false;
    }
    let mut i: usize = 0;
    while i < m
        invariant
            i <= m,
            m == prefix@.len(),
            n == s@.len(),
            m <= n,
            forall|j: int| 0 <= j < i ==> s@[j] == prefix@[j],
        decreases m - i,
    {
        if s.get_char(i) != prefix.get_char(i) {
            proof {
                if starts_with_chars(s@, prefix@) {
                    assert(s@.subrange(0, m as int)[i as int] == prefix@[i as int]);
                }
            }
            return false;
        }
        i = i + 1;
    }
    proof {
        assert(s@.subrange(0, m as int) =~= prefix@);
    }
    true
}

/// The screenshot file-name prefixes the watcher recognizes, across the
/// localizations the capture tool writes.
pub open spec fn is_screenshot_name(s: Seq<char>) -> bool {
    ||| starts_with_chars(s, "Screenshot"@)
    ||| starts_with_chars(s, "Screen Shot"@)
    ||| starts_with_chars(s, "Снимок экрана"@)
    ||| starts_with_chars(s, "スクリーンショット"@)
    ||| starts_with_chars(s, "Captura de pantalla"@)
    ||| starts_with_chars(s, "Bildschirmfoto"@)
}

/// True iff the file name begins with a known screenshot prefix.
pub fn is_screenshot_file_name(name: &str) -> (r: bool)
    ensures
        r == is_screenshot_name(name@),
{
    str_starts_with(name, "Screenshot") || str_starts_with(name, "Screen Shot")
        || str_starts_with(name, "Снимок экрана") || str_starts_with(name, "スクリーンショット")
        || str_starts_with(name, "Captura de pantalla") || str_starts_with(name, "Bildschirmfoto")
}

/// A path with a leading `~` or `~/` replaced by the home directory, when
/// one is known.
pub open spec fn expanded_user_path(p: Seq<char>, home: Option<Seq<char>>) -> Seq<char> {
    if p.len() == 1 && p[0] == '~' {
        match home {
            Some(h) => h,
            None => p,
        }
    } else if p.len() >= 2 && p[0] == '~' && p[1] == '/' {
        match home {
            Some(h) => h + seq!['/'] + p.subrange(2, p.len() as int),
            None => p,
        }
    } else {
        p
    }
}

/// Expand a leading tilde against the home directory the caller read from
/// the environment.
pub fn expand_user_path(path: &str, home: Option<&str>) -> (r: String)
    ensures
        r@ == expanded_user_path(
            path@,
            match home {
                Some(h) => Some(h@),
                None => None,
            },
        ),
{
    let n = path.unicode_len();
    if n == 1 && path.get_char(0) == '~' {
        match home {
            Some(h) => {
                return h.to_owned();
            },
            None => {
                return path.to_owned();
            },
        }
    }
    if n >= 2 && path.get_char(0) == '~' && path.get_char(1) == '/' {
        match home {
            Some(h) => {
                let rest = path.substring_char(2, n);
                let joined = h.to_owned().concat("/").concat(rest);
                proof {
                    reveal_strlit("/");
                    assert("/"@ =~= seq!['/']);
                }
                return joined;
            },
            None => {
                return path.to_owned();
            },
        }
    }
    path.to_owned()
}

/// A directory entry as the watcher sees it: the file name and its
/// modification time, in milliseconds of some monotone file-time scale.
#[derive(Clone, Debug)]
pub struct FileEntry {
    pub name: String,
    pub modified_ms: u64,
    pub is_file: bool,
}

/// The index of the newest eligible entry, scanning in order and keeping a
/// later entry on a strictly newer time, or on an equal time with a
/// different name.
pub open spec fn latest_pick(s: Seq<FileEntry>, loose: bool) -> Option<int>
    decreases s.len(),
{
    if s.len() == 0 {
        None
    } else {
        let prev = latest_pick(s.drop_last(), loose);
        let e = s.last();
        if !eligible_spec(e, loose) {
            prev
        } else {
            match prev {
                None => Some(s.len() - 1),
                Some(j) => if e.modified_ms > s[j].modified_ms || (e.modified_ms
                    == s[j].modified_ms && e.name@ != s[j].name@) {
                    Some(s.len() - 1)
                } else {
                    prev
                },
            }
        }
    }
}

/// True iff the watcher considers the entry at all (see [`latest_pick`]).
pub open spec fn eligible_spec(e: FileEntry, loose: bool) -> bool {
    &&& e.is_file
    &&& is_image_name(e.name@)
    &&& (loose || is_screenshot_name(e.name@))
}

fn entry_is_eligible(e: &FileEntry, loose: bool) -> (r: bool)
    ensures
        r == eligible_spec(*e, loose),
{
    e.is_file && is_image_file(e.name.as_str()) && (loose || is_screenshot_file_name(
        e.name.as_str(),
    ))
}

/// The newest screenshot candidate among the directory entries: latest
/// modification time wins; an equally new but differently named file
/// displaces an earlier pick.
pub fn latest_screenshot_file(entries: &Vec<FileEntry>, allow_loose_match: bool) -> (r: Option<
    usize,
>)
    ensures
        match r {
            Some(i) => i < entries@.len() && latest_pick(entries@, allow_loose_match) == Some(
                i as int,
            ),
            None => latest_pick(entries@, allow_loose_match) is None,
        },
{
    let ghost s = entries@;
    proof {
        assert(s.subrange(0, s.len() as int) =~= s);
    }
    let n = entries.len();
    let mut best: Option<usize> = None;
    let mut k: usize = 0;
    while k < n
        invariant
            k <= n,
            n == s.len(),
            s == entries@,
            match best {
                Some(b) => b < k && latest_pick(s.subrange(0, k as int), allow_loose_match)
                    == Some(b as int),
                None => latest_pick(s.subrange(0, k as int), allow_loose_match) is None,
            },
        decreases n - k,
    {
        proof {
            assert(s.subrange(0, k + 1).last() == s[k as int]);
            assert(s.subrange(0, k + 1).drop_last() =~= s.subrange(0, k as int));
        }
        let e = &entries[k];
        if entry_is_eligible(e, allow_loose_match) {
            match best {
                None => {
                    best = Some(k);
                },
                Some(b) => {
                    let cur = &entries[b];
                    if e.modified_ms > cur.modified_ms || (e.modified_ms == cur.modified_ms
                        && !strings_equal(&e.name, &cur.name)) {
                        best = Some(k);
                    }
                },
            }
        }
        k = k + 1;
    }
    best
}

fn strings_equal(a: &String, b: &String) -> (r: bool)
    ensures
        r == (a@ == b@),
{
    *a == *b
}

/// The cross-frame memory of the screenshot poller: the newest file seen so
/// far, the last clipboard change counter, the fingerprint of the last
/// image handed out, and whether the capture tool was recently seen.
#[derive(Clone, Debug)]
pub struct ScreenshotPollState {
    pub last_seen: Option<(u64, String)>,
    pub last_clipboard_change_count: Option<i64>,
    pub last_emitted_fingerprint: Option<u64>,
    pub screencapture_running: bool,
    pub screenshot_signal_until: Option<u64>,
}

impl ScreenshotPollState {
    /// Start from what the caller found at startup: the newest screenshot
    /// already on disk (so it is not re-reported) and the clipboard's
    /// current change counter.
    pub fn new(initial_latest: Option<(u64, String)>, initial_change_count: Option<i64>) -> (r:
        ScreenshotPollState)
        ensures
            r.last_seen == initial_latest,
            r.last_clipboard_change_count == initial_change_count,
            r.last_emitted_fingerprint is None,
            r.screencapture_running == false,
            r.screenshot_signal_until is None,
    {
        ScreenshotPollState {
            last_seen: initial_latest,
            last_clipboard_change_count: initial_change_count,
            last_emitted_fingerprint: None,
            screencapture_running: false,
            screenshot_signal_until: None,
        }
    }

    /// Note whether the capture tool is running right now. Seeing it run —
    /// or seeing it stop — arms the signal for a grace period; an expired
    /// signal is cleared.
    pub fn observe_screencapture_signal(&mut self, now_ms: u64, running: bool)
        requires
            now_ms <= u64::MAX - SCREENSHOT_SIGNAL_GRACE_MS,
        ensures
            running ==> *final(self) == (ScreenshotPollState {
                screencapture_running: true,
                screenshot_signal_until: Some((now_ms + SCREENSHOT_SIGNAL_GRACE_MS) as u64),
                ..*old(self)
            }),
            !running && old(self).screencapture_running ==> *final(self) == (ScreenshotPollState {
                screencapture_running: false,
                screenshot_signal_until: Some((now_ms + SCREENSHOT_SIGNAL_GRACE_MS) as u64),
                ..*old(self)
            }),
            !running && !old(self).screencapture_running ==> *final(self) == (ScreenshotPollState {
                screenshot_signal_until: match old(self).screenshot_signal_until {
                    Some(until) => if now_ms > until {
                        None
                    } else {
                        Some(until)
                    },
                    None => None,
                },
                ..*old(self)
            }),
    {
        if running {
            self.screencapture_running = true;
            self.screenshot_signal_until = Some(now_ms + SCREENSHOT_SIGNAL_GRACE_MS);
            return ;
        }
        if self.screencapture_running {
            self.screencapture_running = false;
            self.screenshot_signal_until = Some(now_ms + SCREENSHOT_SIGNAL_GRACE_MS);
            return ;
        }
        match self.screenshot_signal_until {
            Some(until) => {
                if now_ms > until {
                    self.screenshot_signal_until = None;
                }
            },
            None => {},
        }
    }

    /// True while the capture tool runs or its grace period lasts.
    pub fn is_screenshot_signal_active(&self, now_ms: u64) -> (r: bool)
        ensures
            r == (self.screencapture_running || match self.screenshot_signal_until {
                Some(until) => now_ms <= until,
                None => false,
            }),
    {
        if self.screencapture_running {
            return true;
        }
        match self.screenshot_signal_until {
            Some(until) => now_ms <= until,
            None => false,
        }
    }

    /// The newest screenshot among the directory entries, if it is new
    /// against what was seen before: strictly newer, or equally new under a
    /// different name. A reported file becomes the new baseline. An active
    /// capture signal loosens the name filter.
    pub fn poll_new_screenshot_path(&mut self, entries: &Vec<FileEntry>, now_ms: u64) -> (r:
        Option<String>)
        ensures
            ({
                let loose = old(self).screencapture_running || match old(
                    self,
                ).screenshot_signal_until {
                    Some(until) => now_ms <= until,
                    None => false,
                };
                match latest_pick(entries@, loose) {
                    None => r is None && *final(self) == *old(self),
                    Some(i) => {
                        let e = entries@[i];
                        let changed = match old(self).last_seen {
                            Some(seen) => e.modified_ms > seen.0 || (e.modified_ms == seen.0
                                && e.name@ != seen.1@),
                            None => true,
                        };
                        if changed {
                            &&& r matches Some(name) && name@ == e.name@
                            &&& final(self).last_seen matches Some(seen2) && seen2.0
                                == e.modified_ms && seen2.1@ == e.name@
                            &&& final(self).last_clipboard_change_count == old(
                                self,
                            ).last_clipboard_change_count
                            &&& final(self).last_emitted_fingerprint == old(
                                self,
                            ).last_emitted_fingerprint
                            &&& final(self).screencapture_running == old(
                                self,
                            ).screencapture_running
                            &&& final(self).screenshot_signal_until == old(
                                self,
                            ).screenshot_signal_until
                        } else {
                            r is None && *final(self) == *old(self)
                        }
                    },
                }
            }),
    {
        let allow_loose = self.is_screenshot_signal_active(now_ms);
        let found = latest_screenshot_file(entries, allow_loose);
        let i = match found {
            None => {
                return None;
            },
            Some(i) => i,
        };
        let modified = entries[i].modified_ms;
        let changed = match &self.last_seen {
            Some((seen_modified, seen_name)) => modified > *seen_modified || (modified
                == *seen_modified && !strings_equal(&entries[i].name, seen_name)),
            None => true,
        };
        if !changed {
            return None;
        }
        let name = entries[i].name.clone();
        self.last_seen = Some((modified, entries[i].name.clone()));
        Some(name)
    }

    /// An image is handed out only once: a fingerprint equal to the last
    /// emitted one is dropped, anything else becomes the new baseline.
    pub fn should_emit_payload(&mut self, fingerprint: u64) -> (r: bool)
        ensures
            r == (old(self).last_emitted_fingerprint != Some(fingerprint)),
            r ==> *final(self) == (ScreenshotPollState {
                last_emitted_fingerprint: Some(fingerprint),
                ..*old(self)
            }),
            !r ==> *final(self) == *old(self),
    {
        match self.last_emitted_fingerprint {
            Some(last) => {
                if last == fingerprint {
                    return false;
                }
            },
            None => {},
        }
        self.last_emitted_fingerprint = Some(fingerprint);
        true
    }

    /// Whether the clipboard should be read at all this round: with a
    /// change counter available, only when it moved (and the new value
    /// becomes the baseline); without one, always.
    pub fn should_poll_clipboard(&mut self, current_count: Option<i64>) -> (r: bool)
        ensures
            match current_count {
                Some(c) => if old(self).last_clipboard_change_count == Some(c) {
                    !r && *final(self) == *old(self)
                } else {
                    r && *final(self) == (ScreenshotPollState {
                        last_clipboard_change_count: Some(c),
                        ..*old(self)
                    })
                },
                None => r && *final(self) == *old(self),
            },
    {
        match current_count {
            Some(c) => {
                match self.last_clipboard_change_count {
                    Some(last) => {
                        if last == c {
                            return false;
                        }
                    },
                    None => {},
                }
                self.last_clipboard_change_count = Some(c);
                true
            },
            None => true,
        }
    }
}

/// The raster formats an annotated image can be exported as.
#[derive(Clone, Copy, Debug, PartialEq, Eq, Structural)]
pub enum ExportFormat {
    Png,
    Jpeg,
}

/// The export format a file extension asks for: jpg or jpeg (any letter
/// case) mean JPEG, everything else falls back to PNG.
pub open spec fn format_for_extension(e: Seq<char>) -> ExportFormat {
    if (e.len() == 3 && char_ci(e[0], 'j', 'J') && char_ci(e[1], 'p', 'P') && char_ci(
        e[2],
        'g',
        'G',
    )) || (e.len() == 4 && char_ci(e[0], 'j', 'J') && char_ci(e[1], 'p', 'P') && char_ci(
        e[2],
        'e',
        'E',
    ) && char_ci(e[3], 'g', 'G')) {
        ExportFormat::Jpeg
    } else {
        ExportFormat::Png
    }
}

pub fn export_format_for_extension(ext: &str) -> (r: ExportFormat)
    ensures
        r == format_for_extension(ext@),
{
    let n = ext.unicode_len();
    if n == 3 {
        let e0 = ext.get_char(0);
        let e1 = ext.get_char(1);
        let e2 = ext.get_char(2);
        if char_ci_at(e0, 'j', 'J') && char_ci_at(e1, 'p', 'P') && char_ci_at(e2, 'g', 'G') {
            return ExportFormat::Jpeg;
        }
    }
    if n == 4 {
        let e0 = ext.get_char(0);
        let e1 = ext.get_char(1);
        let e2 = ext.get_char(2);
        let e3 = ext.get_char(3);
        if char_ci_at(e0, 'j', 'J') && char_ci_at(e1, 'p', 'P') && char_ci_at(e2, 'e', 'E')
            && char_ci_at(e3, 'g', 'G') {
            return ExportFormat::Jpeg;
        }
    }
    ExportFormat::Png
}

} // verus!
