use vstd::prelude::*;
use vstd::string::*;
use chrono::Timelike;
use poise::serenity_prelude::Timestamp;
use crate::numparse::{chars_of, parse_field, parse_unsigned};
use crate::text::{nat_decimal, push_char, push_decimal};

verus! {

/// `t` is where the first `T` of `s` stands.
pub open spec fn first_t_at(s: Seq<char>, t: int) -> bool {
    &&& 0 <= t < s.len()
    &&& s[t] == 'T'
    &&& forall|j: int| 0 <= j < t ==> s[j] != 'T'
}

/// The position of the first `T` of `s` (meaningful when there is one).
pub open spec fn first_t(s: Seq<char>) -> int {
    choose|t: int| first_t_at(s, t)
}

/// The number in `s[lo..hi]`, as `str::parse` reads it into a type whose largest value is `max`.
pub open spec fn field(s: Seq<char>, lo: int, hi: int, max: nat) -> Option<nat> {
    parse_unsigned(s.subrange(lo, hi), max)
}

/// The layout that `Time::standardising` reads around the first `T` at `t`:
/// `YYYY…MMDD` before it, `hhmmss`, one ASCII separator and three digits of milliseconds after it.
pub open spec fn layout_at(s: Seq<char>, t: int) -> bool {
    &&& 4 <= t
    &&& t + 11 <= s.len()
    &&& (s[t + 7] as u32) < 128
    &&& field(s, 0, t - 4, 4294967295) is Some
    &&& field(s, t - 4, t - 2, 255) is Some
    &&& field(s, t - 2, t, 255) is Some
    &&& field(s, t + 1, t + 3, 255) is Some
    &&& field(s, t + 3, t + 5, 255) is Some
    &&& field(s, t + 5, t + 7, 255) is Some
    &&& field(s, t + 8, t + 11, 65535) is Some
}

/// Whether `s` is a timestamp that `Time::standardising` reads without failing.
pub open spec fn standard_time(s: Seq<char>) -> bool {
    exists|t: int| first_t_at(s, t) && layout_at(s, t)
}

/// The text `{years}-{months}-{days}T{hours}:{minutes}:{seconds}Z`, numbers in plain decimal.
pub open spec fn time_text(
    years: nat,
    months: nat,
    days: nat,
    hours: nat,
    minutes: nat,
    seconds: nat,
) -> Seq<char> {
    nat_decimal(years) + seq!['-'] + nat_decimal(months) + seq!['-'] + nat_decimal(days) + seq![
        'T',
    ] + nat_decimal(hours) + seq![':'] + nat_decimal(minutes) + seq![':'] + nat_decimal(seconds)
        + seq!['Z']
}

/// The first `T` is at one place only.
pub proof fn lemma_first_t_unique(s: Seq<char>, t: int)
    requires
        first_t_at(s, t),
    ensures
        first_t(s) == t,
{
    let u = first_t(s);
    assert(first_t_at(s, u));
    if u < t {
        assert(s[u] != 'T');
    } else if t < u {
        assert(s[t] != 'T');
    }
}

/// Where the first `T` of `chars` stands, if anywhere.
pub fn find_t(chars: &Vec<char>) -> (r: Option<usize>)
    ensures
        match r {
            Some(t) => first_t_at(chars@, t as int),
            None => forall|j: int| 0 <= j < chars@.len() ==> chars@[j] != 'T',
        },
{
    let mut i: usize = 0;
    while i < chars.len()
        invariant
            i <= chars@.len(),
            forall|j: int| 0 <= j < i ==> chars@[j] != 'T',
        decreases chars@.len() - i,
    {
        if chars[i] == 'T' {
            return Some(i);
        }
        i = i + 1;
    }
    None
}

/// The seven numbers of a standard timestamp: years, months, days, hours, minutes,
/// seconds and milliseconds.
pub fn parse_standard_fields(time: &str) -> (r: (u32, u8, u8, u8, u8, u8, u16))
    requires
        standard_time(time@),
    ensures
        ({
            let s = time@;
            let t = first_t(s);
            &&& Some(r.0 as nat) == field(s, 0, t - 4, 4294967295)
            &&& Some(r.1 as nat) == field(s, t - 4, t - 2, 255)
            &&& Some(r.2 as nat) == field(s, t - 2, t, 255)
            &&& Some(r.3 as nat) == field(s, t + 1, t + 3, 255)
            &&& Some(r.4 as nat) == field(s, t + 3, t + 5, 255)
            &&& Some(r.5 as nat) == field(s, t + 5, t + 7, 255)
            &&& Some(r.6 as nat) == field(s, t + 8, t + 11, 65535)
        }),
{
    let chars = chars_of(time);
    let ghost s = time@;
    let ghost tw = choose|t: int| first_t_at(s, t) && layout_at(s, t);
    proof {
        lemma_first_t_unique(s, tw);
    }
    let t = match find_t(&chars) {
        Some(t) => t,
        None => {
            proof {
                assert(chars@[tw] == 'T');
            }
            0
        },
    };
    proof {
        lemma_first_t_unique(s, t as int);
    }
    let years = parse_field(&chars, 0, t - 4, 4294967295).unwrap();
    let months = parse_field(&chars, t - 4, t - 2, 255).unwrap();
    let days = parse_field(&chars, t - 2, t, 255).unwrap();
    let hours = parse_field(&chars, t + 1, t + 3, 255).unwrap();
    let minutes = parse_field(&chars, t + 3, t + 5, 255).unwrap();
    let seconds = parse_field(&chars, t + 5, t + 7, 255).unwrap();
    let millis = parse_field(&chars, t + 8, t + 11, 65535).unwrap();
    (years as u32, months as u8, days as u8, hours as u8, minutes as u8, seconds as u8, millis as u16)
}

/// Writes `{years}-{months}-{days}T{hours}:{minutes}:{seconds}Z`.
pub fn write_time_text(years: u32, months: u8, days: u8, hours: u8, minutes: u8, seconds: u8) -> (r:
    String)
    ensures
        r@ == time_text(
            years as nat,
            months as nat,
            days as nat,
            hours as nat,
            minutes as nat,
            seconds as nat,
        ),
{
    let mut s = String::new();
    push_decimal(&mut s, years as u64);
    push_char(&mut s, '-');
    push_decimal(&mut s, months as u64);
    push_char(&mut s, '-');
    push_decimal(&mut s, days as u64);
    push_char(&mut s, 'T');
    push_decimal(&mut s, hours as u64);
    push_char(&mut s, ':');
    push_decimal(&mut s, minutes as u64);
    push_char(&mut s, ':');
    push_decimal(&mut s, seconds as u64);
    push_char(&mut s, 'Z');
    assert(s@ =~= time_text(
        years as nat,
        months as nat,
        days as nat,
        hours as nat,
        minutes as nat,
        seconds as nat,
    ));
    s
}

/// `a - b` on `u32` with wrap-around, as the compiled release build computes it.
pub open spec fn wrapped_diff(a: u32, b: u32) -> nat {
    if a >= b {
        (a - b) as nat
    } else {
        (a - b + 4294967296) as nat
    }
}

/// `a - b` on `u32` with wrap-around.
pub fn wrapping_diff(a: u32, b: u32) -> (r: u32)
    ensures
        r as nat == wrapped_diff(a, b),
{
    if a >= b {
        a - b
    } else {
        ((a as u64 + 4294967296u64) - b as u64) as u32
    }
}

#[verifier::external_type_specification]
#[verifier::external_body]
pub struct ExTimestamp(poise::serenity_prelude::Timestamp);

/// What `Timestamp::parse` gives for an RFC 3339 text: the instant it names, or nothing
/// when the text is not RFC 3339.
pub uninterp spec fn rfc3339_timestamp(text: Seq<char>) -> Option<Timestamp>;

/// `Timestamp::parse` of serenity (through poise): reads an RFC 3339 date and time.
/// Claimed: its result depends on the text alone; what it accepts is left to the name.
#[verifier::external_body]
pub(crate) fn parse_rfc3339(text: &str) -> (r: Option<Timestamp>)
    ensures
        r == rfc3339_timestamp(text@),
{
    Timestamp::parse(text).ok()
}

/// `chrono::Local::now`, read as hour, minute and second of the local clock.
/// Claimed: only the ranges that chrono's `Timelike` documents (0..=23, 0..=59, 0..=59);
/// the values themselves depend on the moment of the call.
#[verifier::external_body]
pub(crate) fn local_clock() -> (r: (u32, u32, u32))
    ensures
        r.0 < 24,
        r.1 < 60,
        r.2 < 60,
{
    let now = chrono::Local::now();
    (now.hour(), now.minute(), now.second())
}

/// A moment as the Brawl Stars API writes it, taken apart into numbers.
pub struct Time {
    pub years: u32,
    pub months: u8,
    pub days: u8,
    pub hours: u8,
    pub minutes: u8,
    pub seconds: u8,
    pub milliseconds: u16,
    pub time: Option<String>,
}

impl Time {
    /// The standard text of this moment, `{years}-{months}-{days}T{hours}:{minutes}:{seconds}Z`.
    pub open spec fn text(&self) -> Seq<char> {
        time_text(
            self.years as nat,
            self.months as nat,
            self.days as nat,
            self.hours as nat,
            self.minutes as nat,
            self.seconds as nat,
        )
    }

    /// Reads a timestamp such as `20231211T123456.000Z`: the digits before the first `T`
    /// are years, months (two) and days (two); after it come hours, minutes and seconds
    /// (two each), one separator and milliseconds (three). The standard text is filled in.
    pub fn standardising(time: &str) -> (r: Time)
        requires
            standard_time(time@),
        ensures
            ({
                let s = time@;
                let t = first_t(s);
                &&& Some(r.years as nat) == field(s, 0, t - 4, 4294967295)
                &&& Some(r.months as nat) == field(s, t - 4, t - 2, 255)
                &&& Some(r.days as nat) == field(s, t - 2, t, 255)
                &&& Some(r.hours as nat) == field(s, t + 1, t + 3, 255)
                &&& Some(r.minutes as nat) == field(s, t + 3, t + 5, 255)
                &&& Some(r.seconds as nat) == field(s, t + 5, t + 7, 255)
                &&& Some(r.milliseconds as nat) == field(s, t + 8, t + 11, 65535)
            }),
            r.time is Some,
            r.time.unwrap()@ == r.text(),
    {
        let f = parse_standard_fields(time);
        let mut t = Time {
            years: f.0,
            months: f.1,
            days: f.2,
            hours: f.3,
            minutes: f.4,
            seconds: f.5,
            milliseconds: f.6,
            time: None,
        };
        t.format();
        t
    }

    /// Fills in the standard text of this moment.
    pub fn format(&mut self)
        ensures
            final(self).years == old(self).years,
            final(self).months == old(self).months,
            final(self).days == old(self).days,
            final(self).hours == old(self).hours,
            final(self).minutes == old(self).minutes,
            final(self).seconds == old(self).seconds,
            final(self).milliseconds == old(self).milliseconds,
            final(self).time is Some,
            final(self).time.unwrap()@ == old(self).text(),
    {
        self.time = Some(
            write_time_text(
                self.years,
                self.months,
                self.days,
                self.hours,
                self.minutes,
                self.seconds,
            ),
        );
    }

    /// The instant of this moment, read back from its standard text as RFC 3339.
    pub fn get_unix(&self) -> (r: Timestamp)
        requires
            rfc3339_timestamp(self.text()) is Some,
        ensures
            r == rfc3339_timestamp(self.text()).unwrap(),
    {
        let text = write_time_text(
            self.years,
            self.months,
            self.days,
            self.hours,
            self.minutes,
            self.seconds,
        );
        parse_rfc3339(text.as_str()).unwrap()
    }

    /// `get_unix` where the standard text is RFC 3339, and `None` where it is not
    /// (a field with one digit, a month out of range, ...).
    pub fn get_unix_checked(&self) -> (r: Option<Timestamp>)
        ensures
            r == rfc3339_timestamp(self.text()),
    {
        let text = write_time_text(
            self.years,
            self.months,
            self.days,
            self.hours,
            self.minutes,
            self.seconds,
        );
        match parse_rfc3339(text.as_str()) {
            Some(_) => Some(self.get_unix()),
            None => None,
        }
    }

    /// `{h}h {m}m {s}s ago` for the differences between the clock reading and this moment.
    pub open spec fn relative_text(&self, now_hours: u32, now_minutes: u32, now_seconds: u32) -> Seq<
        char,
    > {
        nat_decimal(wrapped_diff(now_hours, self.hours as u32)) + "h "@ + nat_decimal(
            wrapped_diff(now_minutes, self.minutes as u32),
        ) + "m "@ + nat_decimal(wrapped_diff(now_seconds, self.seconds as u32)) + "s ago"@
    }

    /// How long ago this moment was, by the given clock reading, as `{h}h {m}m {s}s ago`;
    /// each difference is taken on its own, on `u32` with wrap-around.
    pub fn relative_to(&self, now_hours: u32, now_minutes: u32, now_seconds: u32) -> (r: String)
        ensures
            r@ == self.relative_text(now_hours, now_minutes, now_seconds),
    {
        let h = wrapping_diff(now_hours, self.hours as u32);
        let m = wrapping_diff(now_minutes, self.minutes as u32);
        let sec = wrapping_diff(now_seconds, self.seconds as u32);
        let mut s = String::new();
        push_decimal(&mut s, h as u64);
        s.append("h ");
        push_decimal(&mut s, m as u64);
        s.append("m ");
        push_decimal(&mut s, sec as u64);
        s.append("s ago");
        assert(s@ =~= nat_decimal(wrapped_diff(now_hours, self.hours as u32)) + "h "@ + nat_decimal(
            wrapped_diff(now_minutes, self.minutes as u32),
        ) + "m "@ + nat_decimal(wrapped_diff(now_seconds, self.seconds as u32)) + "s ago"@);
        s
    }

    /// How long ago this moment was by the local clock now (see `relative_to`).
    pub fn get_relative(&self) -> (r: String)
        ensures
            exists|h: u32, m: u32, sec: u32|
                h < 24 && m < 60 && sec < 60 && r@ == #[trigger] self.relative_text(h, m, sec),
    {
        let now = local_clock();
        self.relative_to(now.0, now.1, now.2)
    }

    /// `{h} hours, {m} minutes, {s} seconds ago` for the differences between the clock
    /// reading and this moment.
    pub open spec fn relative_words(&self, now_hours: u32, now_minutes: u32, now_seconds: u32) -> Seq<
        char,
    > {
        nat_decimal(wrapped_diff(now_hours, self.hours as u32)) + " hours, "@ + nat_decimal(
            wrapped_diff(now_minutes, self.minutes as u32),
        ) + " minutes, "@ + nat_decimal(wrapped_diff(now_seconds, self.seconds as u32))
            + " seconds ago"@
    }

    /// How long ago this moment was, by the given clock reading, in words (see
    /// `relative_words`); each difference is taken on its own, on `u32` with wrap-around.
    pub fn relative_words_to(&self, now_hours: u32, now_minutes: u32, now_seconds: u32) -> (r: String)
        ensures
            r@ == self.relative_words(now_hours, now_minutes, now_seconds),
    {
        let h = wrapping_diff(now_hours, self.hours as u32);
        let m = wrapping_diff(now_minutes, self.minutes as u32);
        let sec = wrapping_diff(now_seconds, self.seconds as u32);
        let mut s = String::new();
        push_decimal(&mut s, h as u64);
        s.append(" hours, ");
        push_decimal(&mut s, m as u64);
        s.append(" minutes, ");
        push_decimal(&mut s, sec as u64);
        s.append(" seconds ago");
        assert(s@ =~= self.relative_words(now_hours, now_minutes, now_seconds));
        s
    }

    /// How long ago this moment was by the local clock now, in words (see `relative_words_to`).
    pub fn get_relative_words(&self) -> (r: String)
        ensures
            exists|h: u32, m: u32, sec: u32|
                h < 24 && m < 60 && sec < 60 && r@ == #[trigger] self.relative_words(h, m, sec),
    {
        let now = local_clock();
        self.relative_words_to(now.0, now.1, now.2)
    }
}

} // verus!
