use vstd::prelude::*;
use crate::text::push_char;

verus! {

/// The narrowest a notification window is drawn.
pub const ERROR_NOTIFICATION_WINDOW_MAX_WIDTH: u16 = 50;

/// The height of a notification window.
pub const ERROR_NOTIFICATION_WINDOW_HEIGHT: u16 = 3;

/// How long a notification stays on screen, in milliseconds.
pub const ERROR_NOTIFICATION_LIFETIME_MS: i64 = 3000;

/// An error shown to the user as a transient notification: a short title,
/// a longer text and the time it was raised, in milliseconds since the epoch.
#[derive(Debug)]
pub struct ErrorInfo {
    pub short: String,
    pub long: String,
    pub created_at_ms: i64,
}

/// Relies on `chrono::Utc::now` and `DateTime::timestamp_millis`: the
/// current time in milliseconds since the epoch. Nothing is known of the
/// value.
#[verifier::external_body]
fn now_millis() -> i64 {
    chrono::Utc::now().timestamp_millis()
}

/// Whether a notification raised at `created_at_ms` has expired at `now_ms`.
pub open spec fn expired(created_at_ms: i64, now_ms: i64) -> bool {
    now_ms > created_at_ms + ERROR_NOTIFICATION_LIFETIME_MS
}

/// A text cut to at most `max_width` characters; a cut text ends in three
/// dots, or is all dots when the width leaves no room for more.
pub open spec fn truncated(s: Seq<char>, max_width: nat) -> Seq<char> {
    if s.len() <= max_width {
        s
    } else if max_width <= 3 {
        Seq::new(max_width, |i: int| '.')
    } else {
        s.subrange(0, max_width - 3) + seq!['.', '.', '.']
    }
}

/// The width a notification needs: the longer of its two texts, but never
/// less than the window's minimum width.
pub open spec fn required_width(short_len: nat, long_len: nat) -> u16 {
    let text = if short_len >= long_len { short_len } else { long_len };
    let text16: u16 = if text > u16::MAX { u16::MAX } else { text as u16 };
    if text16 >= ERROR_NOTIFICATION_WINDOW_MAX_WIDTH {
        text16
    } else {
        ERROR_NOTIFICATION_WINDOW_MAX_WIDTH
    }
}

impl Clone for ErrorInfo {
    fn clone(&self) -> (r: Self)
        ensures
            r == *self,
    {
        ErrorInfo { short: self.short.clone(), long: self.long.clone(), created_at_ms: self.created_at_ms }
    }
}

impl ErrorInfo {
    /// The width, in characters, that the notification window needs.
    pub fn get_required_width(&self) -> (r: u16)
        ensures
            r == required_width(self.short@.len(), self.long@.len()),
    {
        let s = self.short.as_str().unicode_len();
        let l = self.long.as_str().unicode_len();
        let text = if s >= l { s } else { l };
        let text16: u16 = if text > 65535 { 65535 } else { text as u16 };
        if text16 >= ERROR_NOTIFICATION_WINDOW_MAX_WIDTH {
            text16
        } else {
            ERROR_NOTIFICATION_WINDOW_MAX_WIDTH
        }
    }

    /// Whether the notification has expired at the given time.
    pub fn is_expired_at(&self, now_ms: i64) -> (r: bool)
        ensures
            r == expired(self.created_at_ms, now_ms),
    {
        (now_ms as i128) > (self.created_at_ms as i128) + (ERROR_NOTIFICATION_LIFETIME_MS as i128)
    }

    /// Whether the notification has expired now; what that means at a given
    /// time is `is_expired_at`.
    pub fn is_expired(&self) -> bool {
        let now = now_millis();
        self.is_expired_at(now)
    }

    /// A notification raised at the given time.
    pub fn new_at(short: String, long: String, created_at_ms: i64) -> (r: ErrorInfo)
        ensures
            r.short == short,
            r.long == long,
            r.created_at_ms == created_at_ms,
    {
        ErrorInfo { short, long, created_at_ms }
    }

    /// A notification raised now.
    pub fn new(short: String, long: String) -> (r: ErrorInfo)
        ensures
            r.short == short,
            r.long == long,
    {
        let now = now_millis();
        ErrorInfo::new_at(short, long, now)
    }
}

/// Cuts a text to at most `max_width` characters, marking a cut with dots.
pub fn truncate(s: &str, max_width: usize) -> (r: String)
    ensures
        r@ == truncated(s@, max_width as nat),
{
    let n = s.unicode_len();
    if n <= max_width {
        String::from_str(s)
    } else if max_width <= 3 {
        let mut r = String::new();
        let mut i: usize = 0;
        while i < max_width
            invariant
                i <= max_width,
                r@ == Seq::new(i as nat, |j: int| '.'),
            decreases max_width - i,
        {
            push_char(&mut r, '.');
            i = i + 1;
            assert(r@ =~= Seq::new(i as nat, |j: int| '.'));
        }
        r
    } else {
        let mut r = String::from_str(s.substring_char(0, max_width - 3));
        push_char(&mut r, '.');
        push_char(&mut r, '.');
        push_char(&mut r, '.');
        assert(r@ =~= truncated(s@, max_width as nat));
        r
    }
}

} // verus!
