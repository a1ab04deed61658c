//! Device routing for subscription messages (buyer side): the logged-in device
//! list, paginated to completion, and the batch overwrite of each
//! subscription's receive-device list (an empty list clears it).

use vstd::prelude::*;
use chrono::TimeZone;
use crate::subscription::int_text;
use crate::trade_signal::fields::days_in_month;
use crate::text::{
    chars_of, contains_str, digit_char, nat_text, push_chars, push_str, split_chars, split_on, str_eq,
    string_from_chars, strings_view, trim, trim_chars, u64_text, views,
};

verus! {

/// The wallet endpoint that lists the agent's devices.
pub const DEVICE_LIST_PATH: &'static str = "/priapi/v5/wallet/agentic/agent/device-list";
/// At most this many subscriptions per batch update.
pub const MAX_UPDATE_ITEMS: usize = 100;
/// The page size used when the caller passes one below 1.
pub const DEFAULT_PAGE_SIZE: i64 = 20;
/// The most pages fetched after the first (a faulty backend must not loop).
pub const MAX_PAGES: i64 = 10_000;

// ── Local time of a millisecond timestamp ───────────────────────────────────

/// The earliest millisecond timestamp that has a date: January 1, 262144 BCE,
/// 00:00:00.000 UTC (`NaiveDate::MIN`).
pub const MIN_DATED_MILLIS: i64 = -8_334_601_228_800_000;
/// The latest millisecond timestamp that has a date: December 31, 262142 CE,
/// 23:59:59.999 UTC (`NaiveDate::MAX`).
pub const MAX_DATED_MILLIS: i64 = 8_210_266_876_799_999;
/// One day in milliseconds: the margin kept for a local offset.
pub const DAY_MILLIS: i64 = 86_400_000;

/// Whether a millisecond timestamp has a date at all.
pub open spec fn has_date(ts_ms: i64) -> bool {
    MIN_DATED_MILLIS <= ts_ms <= MAX_DATED_MILLIS
}

/// Whether a millisecond timestamp lies a day or more inside the dated range,
/// so that its local time has a date whatever the local offset.
pub open spec fn well_dated(ts_ms: i64) -> bool {
    MIN_DATED_MILLIS + DAY_MILLIS <= ts_ms <= MAX_DATED_MILLIS - DAY_MILLIS
}

/// The first millisecond of January 1, 0001 UTC.
pub const MIN_FOUR_DIGIT_MILLIS: i64 = -62_135_596_800_000;
/// The last millisecond of December 31, 9999 UTC.
pub const MAX_FOUR_DIGIT_MILLIS: i64 = 253_402_300_799_999;

/// Whether a millisecond timestamp lies a day or more inside the years
/// 0001 to 9999, so that its local date has a four-digit year whatever the
/// local offset.
pub open spec fn four_digit_year(ts_ms: i64) -> bool {
    MIN_FOUR_DIGIT_MILLIS + DAY_MILLIS <= ts_ms <= MAX_FOUR_DIGIT_MILLIS - DAY_MILLIS
}

/// Days from January 1, 0001 to January 1 of year `y` (proleptic Gregorian).
pub open spec fn days_before_year(y: int) -> int {
    let p = y - 1;
    365 * p + p / 4 - p / 100 + p / 400
}

/// Days from January 1 of year `y` to the first of month `m`.
pub open spec fn days_before_month(y: int, m: int) -> int
    decreases m,
{
    if m <= 1 {
        0
    } else {
        days_before_month(y, m - 1) + days_in_month(y, m - 1)
    }
}

/// The day number of a date counted from January 1, 1970 (day 0).
pub open spec fn epoch_day(y: int, m: int, d: int) -> int {
    days_before_year(y) + days_before_month(y, m) + d - 1 - 719_162
}

/// Two decimal digits, zero-padded.
pub open spec fn two_digits(n: int) -> Seq<char> {
    seq![digit_char((n / 10) as nat), digit_char((n % 10) as nat)]
}

/// Four decimal digits, zero-padded.
pub open spec fn four_digits(n: int) -> Seq<char> {
    two_digits(n / 100) + two_digits(n % 100)
}

/// `clock` is `YYYY-MM-DD HH:MM:SS` of the instant `secs` seconds after the
/// epoch, read on a clock that shows UTC, for a date in the years 0001 to
/// 9999.
pub open spec fn wall_clock_text(secs: int, clock: Seq<char>) -> bool {
    let sod = secs % 86_400;
    exists|y: int, m: int, d: int|
        #![trigger epoch_day(y, m, d)]
        1 <= y <= 9999 && 1 <= m <= 12 && 1 <= d <= days_in_month(y, m) && epoch_day(y, m, d) == secs / 86_400
            && clock == four_digits(y) + "-"@ + two_digits(m) + "-"@ + two_digits(d) + " "@ + two_digits(sod / 3600)
            + ":"@ + two_digits(sod % 3600 / 60) + ":"@ + two_digits(sod % 60)
}

/// `text` is a local time of the millisecond timestamp `ts_ms`: the
/// wall-clock text of the timestamp's whole seconds moved by a local offset
/// of less than a day, then a space (and the zone).
pub open spec fn local_time_of(ts_ms: i64, text: Seq<char>) -> bool {
    &&& text.len() > 19
    &&& text[19] == ' '
    &&& exists|local_secs: int|
        #![trigger wall_clock_text(local_secs, text.take(19))]
        (ts_ms as int) / 1000 - 86_400 < local_secs < (ts_ms as int) / 1000 + 86_400 && wall_clock_text(
            local_secs,
            text.take(19),
        )
}

/// `chrono::Local.timestamp_millis_opt(ts).single()` formatted as
/// `%Y-%m-%d %H:%M:%S %Z`. chrono's `DateTime::from_timestamp_millis` gives
/// `None` exactly for a timestamp without a date, and `timestamp_millis_opt`
/// passes that on; a timestamp well inside the range gets a local time, whose
/// text holds the `:` of the format. That local time is the timestamp's
/// whole seconds (`div_euclid(1000)`) moved by the machine's UTC offset,
/// which chrono keeps under a day (`FixedOffset`), and `%Y` writes a year of
/// 0001 to 9999 as four digits, `%m %d %H %M %S` two each. The offset and the
/// zone text depend on the machine's time zone and are not stated.
#[verifier::external_body]
fn local_time_text(ts_ms: i64) -> (r: Option<String>)
    ensures
        !has_date(ts_ms) ==> r is None,
        well_dated(ts_ms) ==> r is Some,
        r matches Some(t) ==> t@.contains(':'),
        r matches Some(t) ==> (four_digit_year(ts_ms) ==> local_time_of(ts_ms, t@)),
{
    match chrono::Local.timestamp_millis_opt(ts_ms).single() {
        Some(dt) => Some(dt.format("%Y-%m-%d %H:%M:%S %Z").to_string()),
        None => None,
    }
}

/// The text of a timestamp without a local time: `"<ts> (unparseable)"`.
pub open spec fn unparseable_text(ts_ms: i64) -> Seq<char> {
    int_text(ts_ms as int) + " (unparseable)"@
}

/// What the display text of a timestamp is known to be: `"0"` for 0, the
/// unparseable text for an instant without a date, a local time (with its
/// `:`, so never the unparseable text) for an instant well inside the dated
/// range, and for one in the years 0001 to 9999 the wall clock of its
/// milliseconds read as milliseconds, moved by a local offset under a day.
pub open spec fn millis_text_ok(ts_ms: i64, text: Seq<char>) -> bool {
    &&& exists|local: Option<Seq<char>>| text == spec_millis_text(ts_ms, local)
    &&& ts_ms == 0 ==> text == "0"@
    &&& ts_ms != 0 && !has_date(ts_ms) ==> text == unparseable_text(ts_ms)
    &&& ts_ms != 0 && well_dated(ts_ms) ==> text.contains(':') && text != unparseable_text(ts_ms)
    &&& ts_ms != 0 && four_digit_year(ts_ms) ==> local_time_of(ts_ms, text)
}

proof fn lemma_unparseable_no_colon(ts_ms: i64)
    ensures
        !unparseable_text(ts_ms).contains(':'),
{
    reveal_strlit(" (unparseable)");
    let n = if ts_ms < 0 { (-(ts_ms as int)) as nat } else { ts_ms as nat };
    crate::text::lemma_nat_text_digits(n);
    let t = unparseable_text(ts_ms);
    let head = int_text(ts_ms as int);
    assert forall|i: int| 0 <= i < t.len() implies t[i] != ':' by {
        if i < head.len() {
            if ts_ms < 0 && i == 0 {
            } else if ts_ms < 0 {
                assert(head[i] == nat_text(n)[i - 1]);
                assert(crate::text::is_digit(nat_text(n)[i - 1]));
            } else {
                assert(crate::text::is_digit(nat_text(n)[i]));
            }
        }
    }
}

/// The display text of a millisecond timestamp given its local-time text:
/// `0` stays `"0"`, a formatted time is used as is, and an instant without one
/// reads `"<ts> (unparseable)"`.
pub open spec fn spec_millis_text(ts_ms: i64, local: Option<Seq<char>>) -> Seq<char> {
    if ts_ms == 0 {
        "0"@
    } else {
        match local {
            Some(t) => t,
            None => int_text(ts_ms as int) + " (unparseable)"@,
        }
    }
}

fn int_chars(n: i64) -> (r: Vec<char>)
    ensures
        r@ == int_text(n as int),
{
    let mut v: Vec<char> = Vec::new();
    if n < 0 {
        v.push('-');
        let mag: u64 = if n == i64::MIN {
            9223372036854775808u64
        } else {
            (-n) as u64
        };
        let d = u64_text(mag);
        push_chars(&mut v, d.as_slice());
        assert(v@ =~= int_text(n as int));
    } else {
        let d = u64_text(n as u64);
        push_chars(&mut v, d.as_slice());
        assert(v@ =~= int_text(n as int));
    }
    v
}

/// The display text of a millisecond timestamp (see [`spec_millis_text`]).
pub fn millis_text(ts_ms: i64, local: Option<String>) -> (r: String)
    ensures
        r@ == spec_millis_text(ts_ms, match local {
            Some(t) => Some(t@),
            None => None,
        }),
{
    if ts_ms == 0 {
        return String::from_str("0");
    }
    match local {
        Some(t) => t,
        None => {
            let mut v = int_chars(ts_ms);
            push_str(&mut v, " (unparseable)");
            string_from_chars(v.as_slice())
        },
    }
}

/// Formats a Unix-milliseconds timestamp as local wall-clock time: `"0"` for
/// 0, the local time when the instant has one, `"<ts> (unparseable)"`
/// otherwise.
pub fn fmt_unix_millis(ts_ms: i64) -> (r: String)
    ensures
        millis_text_ok(ts_ms, r@),
{
    let local = if ts_ms == 0 {
        None
    } else {
        local_time_text(ts_ms)
    };
    let ghost lv = match &local {
        Some(t) => Some(t@),
        None => None::<Seq<char>>,
    };
    let r = millis_text(ts_ms, local);
    assert(r@ == spec_millis_text(ts_ms, lv));
    proof {
        lemma_unparseable_no_colon(ts_ms);
    }
    r
}

// ── Device list ─────────────────────────────────────────────────────────────

/// One device row as the backend sends it.
#[derive(Debug, Clone, Default, PartialEq, Eq)]
pub struct DeviceRow {
    pub device_id: String,
    pub device_name: String,
    /// Unix milliseconds.
    pub last_online_time: i64,
}

/// A ready-to-print device row.
#[derive(Debug, Clone, PartialEq, Eq)]
pub struct DeviceOut {
    pub device_id: String,
    pub device_name: String,
    pub last_online_time: i64,
    pub last_online_local: String,
    pub is_this_device: bool,
}

/// The printed form of a device row: the local time of its last-online
/// stamp, and whether it is this device.
pub fn device_out(row: &DeviceRow, this_device_id: Option<&str>) -> (r: DeviceOut)
    ensures
        r.device_id == row.device_id,
        r.device_name == row.device_name,
        r.last_online_time == row.last_online_time,
        millis_text_ok(row.last_online_time, r.last_online_local@),
        r.is_this_device == (this_device_id matches Some(id) && id@ == row.device_id@),
{
    let is_this = match this_device_id {
        Some(id) => str_eq(id, row.device_id.as_str()),
        None => false,
    };
    DeviceOut {
        device_id: row.device_id.clone(),
        device_name: row.device_name.clone(),
        last_online_time: row.last_online_time,
        last_online_local: fmt_unix_millis(row.last_online_time),
        is_this_device: is_this,
    }
}

/// Walks the pages of the device list: the page number and size normalized
/// (`page < 1` → 1, `page_size < 1` → 20), the rows counted so far.
pub struct DevicePager {
    start_page: i64,
    page_size: i64,
    cur: i64,
    fetched: usize,
}

/// The view of a pager: first page, page size, current page, rows so far.
pub struct DevicePagerV {
    pub start_page: int,
    pub page_size: int,
    pub cur: int,
    pub fetched: int,
}

impl View for DevicePager {
    type V = DevicePagerV;

    closed spec fn view(&self) -> DevicePagerV {
        DevicePagerV {
            start_page: self.start_page as int,
            page_size: self.page_size as int,
            cur: self.cur as int,
            fetched: self.fetched as int,
        }
    }
}

/// Whether the walk stops after a page: an empty page, a short page, the
/// counted rows reaching a positive total, or the page cap.
pub open spec fn stops_after(p: DevicePagerV, got: int, page_total: int) -> bool {
    ||| got == 0
    ||| got < p.page_size
    ||| (page_total > 0 && p.fetched + got >= page_total)
    ||| p.cur - p.start_page >= MAX_PAGES
}

impl DevicePager {
    #[verifier::type_invariant]
    closed spec fn inv(self) -> bool {
        &&& 1 <= self.start_page <= self.cur <= self.start_page + MAX_PAGES
        &&& self.page_size >= 1
    }

    /// Starts a walk at `page` with `page_size` rows per page.
    pub fn new(page: i64, page_size: i64) -> (r: DevicePager)
        ensures
            r@.start_page == (if page < 1 { 1 } else { page as int }),
            r@.cur == r@.start_page,
            r@.page_size == (if page_size < 1 { DEFAULT_PAGE_SIZE as int } else { page_size as int }),
            r@.fetched == 0,
    {
        let start = if page < 1 { 1 } else { page };
        let size = if page_size < 1 { DEFAULT_PAGE_SIZE } else { page_size };
        DevicePager { start_page: start, page_size: size, cur: start, fetched: 0 }
    }

    /// The first page requested (echoed in the output).
    pub fn start_page(&self) -> (r: i64)
        ensures
            r == self@.start_page,
    {
        self.start_page
    }

    /// The page size requested (echoed in the output).
    pub fn page_size(&self) -> (r: i64)
        ensures
            r == self@.page_size,
    {
        self.page_size
    }

    /// The request path of the current page.
    pub fn page_path(&self) -> (r: String)
        ensures
            r@ == DEVICE_LIST_PATH@ + "?page="@ + int_text(self@.cur) + "&pageSize="@ + int_text(
                self@.page_size,
            ),
    {
        let mut v: Vec<char> = Vec::new();
        push_str(&mut v, DEVICE_LIST_PATH);
        push_str(&mut v, "?page=");
        let c = int_chars(self.cur);
        push_chars(&mut v, c.as_slice());
        push_str(&mut v, "&pageSize=");
        let s = int_chars(self.page_size);
        push_chars(&mut v, s.as_slice());
        string_from_chars(v.as_slice())
    }

    /// The page being fetched.
    pub fn current_page(&self) -> (r: i64)
        ensures
            r == self@.cur,
    {
        self.cur
    }

    /// The total reported for the walk: the last page's total, or the rows
    /// gathered when there are more (an empty last page reporting `0` never
    /// under-reports them).
    pub fn total(&self, last_page_total: i64) -> (r: i64)
        requires
            self@.fetched <= i64::MAX,
        ensures
            r == (if last_page_total as int >= self@.fetched { last_page_total as int } else { self@.fetched }),
    {
        let fetched = self.fetched as i64;
        if last_page_total >= fetched {
            last_page_total
        } else {
            fetched
        }
    }

    /// Whether a page of `got` rows reporting `page_total` ends the walk.
    pub fn stops(&self, got: usize, page_total: i64) -> (r: bool)
        ensures
            r == stops_after(self@, got as int, page_total as int),
    {
        proof {
            use_type_invariant(self);
        }
        let reached_total = page_total > 0 && (self.fetched as u128) + (got as u128) >= (page_total as u128);
        let short = (got as u128) < (self.page_size as u128);
        let capped = self.cur - self.start_page >= MAX_PAGES;
        got == 0 || short || reached_total || capped
    }

    /// Records a page of `got` rows reporting `page_total`; returns whether the
    /// walk is done. Otherwise the next page becomes current (past
    /// `i64::MAX` there is no next page).
    pub fn after_page(&mut self, got: usize, page_total: i64) -> (done: bool)
        requires
            old(self)@.fetched + got <= usize::MAX,
            !stops_after(old(self)@, got as int, page_total as int) ==> old(self)@.cur < i64::MAX,
        ensures
            done == stops_after(old(self)@, got as int, page_total as int),
            final(self)@.start_page == old(self)@.start_page,
            final(self)@.page_size == old(self)@.page_size,
            final(self)@.fetched == old(self)@.fetched + got,
            final(self)@.cur == (if done { old(self)@.cur } else { old(self)@.cur + 1 }),
            final(self)@.cur - final(self)@.start_page <= MAX_PAGES,
    {
        proof {
            use_type_invariant(&*self);
        }
        let done = self.stops(got, page_total);
        let fetched = self.fetched + got;
        if done {
            self.fetched = fetched;
        } else {
            self.fetched = fetched;
            self.cur = self.cur + 1;
        }
        done
    }
}

/// The non-empty device ids of the rows, in order.
pub open spec fn spec_device_ids(rows: Seq<DeviceRow>) -> Seq<Seq<char>> {
    rows.map_values(|r: DeviceRow| r.device_id@).filter(|id: Seq<char>| id.len() > 0)
}

/// The device ids of fetched rows; rows without an id are dropped.
pub fn device_ids(rows: &Vec<DeviceRow>) -> (r: Vec<String>)
    ensures
        strings_view(r@) == spec_device_ids(rows@),
{
    let ghost ids = rows@.map_values(|r: DeviceRow| r.device_id@);
    let ghost pred = |id: Seq<char>| id.len() > 0;
    let mut out: Vec<String> = Vec::new();
    let mut i: usize = 0;
    proof {
        reveal(Seq::filter);
        assert(ids.take(0) =~= Seq::<Seq<char>>::empty());
    }
    while i < rows.len()
        invariant
            i <= rows@.len(),
            ids == rows@.map_values(|r: DeviceRow| r.device_id@),
            pred == (|id: Seq<char>| id.len() > 0),
            strings_view(out@) == ids.take(i as int).filter(pred),
        decreases rows@.len() - i,
    {
        proof {
            reveal(Seq::filter);
            assert(ids.take(i + 1).drop_last() =~= ids.take(i as int));
            assert(ids.take(i + 1).last() == rows@[i as int].device_id@);
        }
        let ghost before = out@;
        if rows[i].device_id.as_str().unicode_len() > 0 {
            out.push(rows[i].device_id.clone());
            assert(strings_view(out@) =~= strings_view(before).push(rows@[i as int].device_id@));
        }
        i = i + 1;
    }
    assert(ids.take(rows@.len() as int) =~= ids);
    out
}

// ── Create-subscribe device set ─────────────────────────────────────────────

/// This device alone, or no device when it is unknown.
pub open spec fn this_device_only(this_device_id: Option<Seq<char>>) -> Seq<Seq<char>> {
    match this_device_id {
        Some(id) => seq![id],
        None => Seq::empty(),
    }
}

/// The devices that receive a new subscription, and whether routing
/// degraded:
/// - the fetch found devices and some are not excluded: those, in order (not
///   degraded);
/// - the fetch found devices but every one is excluded: this device unless
///   it is excluded too, else none (degraded);
/// - the fetch failed or found nothing: this device alone, or none when it
///   is unknown (degraded).
pub open spec fn spec_create_device_set(
    fetched: Option<Seq<Seq<char>>>,
    excluded: Seq<Seq<char>>,
    this_device_id: Option<Seq<char>>,
) -> (Seq<Seq<char>>, bool) {
    match fetched {
        Some(ids) if ids.len() > 0 => {
            let kept = ids.filter(|id: Seq<char>| !excluded.contains(id));
            if kept.len() > 0 {
                (kept, false)
            } else {
                (
                    match this_device_id {
                        Some(d) if !excluded.contains(d) => seq![d],
                        _ => Seq::empty(),
                    },
                    true,
                )
            }
        },
        _ => (this_device_only(this_device_id), true),
    }
}

/// Resolves the receive-device list of a new subscription and whether device
/// routing degraded.
pub fn resolve_create_device_set(
    fetched: Option<Vec<String>>,
    excluded: &[String],
    this_device_id: Option<&str>,
) -> (r: (Vec<String>, bool))
    ensures
        (strings_view(r.0@), r.1) == spec_create_device_set(
            match fetched {
                Some(v) => Some(strings_view(v@)),
                None => None,
            },
            strings_view(excluded@),
            match this_device_id {
                Some(s) => Some(s@),
                None => None,
            },
        ),
{
    let ghost ex = strings_view(excluded@);
    match fetched {
        Some(ids) if ids.len() > 0 => {
            let ghost pred = |id: Seq<char>| !ex.contains(id);
            let ghost orig = strings_view(ids@);
            let mut kept: Vec<String> = Vec::new();
            let n = ids.len();
            let mut i: usize = 0;
            proof {
                reveal(Seq::filter);
                assert(orig.take(0) =~= Seq::<Seq<char>>::empty());
            }
            while i < n
                invariant
                    n == ids@.len(),
                    i <= n,
                    orig == strings_view(ids@),
                    ex == strings_view(excluded@),
                    pred == (|id: Seq<char>| !ex.contains(id)),
                    strings_view(kept@) == orig.take(i as int).filter(pred),
                decreases n - i,
            {
                proof {
                    reveal(Seq::filter);
                    assert(orig.take(i + 1).drop_last() =~= orig.take(i as int));
                    assert(orig.take(i + 1).last() == ids@[i as int]@);
                }
                let ghost before = kept@;
                if !contains_str(excluded, ids[i].as_str()) {
                    kept.push(ids[i].clone());
                    assert(strings_view(kept@) =~= strings_view(before).push(ids@[i as int]@));
                }
                i = i + 1;
            }
            assert(orig.take(n as int) =~= orig);
            if kept.len() > 0 {
                return (kept, false);
            }
            let mut v: Vec<String> = Vec::new();
            match this_device_id {
                Some(d) => {
                    if !contains_str(excluded, d) {
                        v.push(String::from_str(d));
                        assert(strings_view(v@) =~= seq![d@]);
                    } else {
                        assert(strings_view(v@) =~= Seq::<Seq<char>>::empty());
                    }
                },
                None => {
                    assert(strings_view(v@) =~= Seq::<Seq<char>>::empty());
                },
            }
            (v, true)
        },
        _ => {
            let mut v: Vec<String> = Vec::new();
            match this_device_id {
                Some(id) => {
                    v.push(String::from_str(id));
                    assert(strings_view(v@) =~= seq![id@]);
                },
                None => {
                    assert(strings_view(v@) =~= Seq::<Seq<char>>::empty());
                },
            }
            (v, true)
        },
    }
}

// ── Batch update of receive devices ─────────────────────────────────────────

/// One subscription's new receive-device list (empty clears it).
#[derive(Debug, Clone, PartialEq, Eq)]
pub struct UpdateItem {
    pub job_id: String,
    pub device_list: Vec<String>,
}

/// The device ids of a comma-separated list: each trimmed, blanks dropped;
/// absent → none.
pub open spec fn spec_csv_devices(csv: Option<Seq<char>>) -> Seq<Seq<char>> {
    match csv {
        None => Seq::empty(),
        Some(s) => split_on(s, ',').map_values(|p: Seq<char>| trim(p)).filter(|d: Seq<char>| d.len() > 0),
    }
}

/// Splits a comma-separated device-id list; blanks are dropped.
pub fn parse_csv_devices(csv: Option<&str>) -> (r: Vec<String>)
    ensures
        strings_view(r@) == spec_csv_devices(match csv {
            Some(s) => Some(s@),
            None => None,
        }),
{
    match csv {
        None => {
            let v: Vec<String> = Vec::new();
            assert(strings_view(v@) =~= Seq::<Seq<char>>::empty());
            v
        },
        Some(s) => {
            let cv = chars_of(s);
            let parts = split_chars(cv.as_slice(), ',');
            let ghost trimmed = views(parts@).map_values(|p: Seq<char>| trim(p));
            let ghost pred = |d: Seq<char>| d.len() > 0;
            let mut out: Vec<String> = Vec::new();
            let mut i: usize = 0;
            proof {
                reveal(Seq::filter);
                assert(trimmed.take(0) =~= Seq::<Seq<char>>::empty());
            }
            while i < parts.len()
                invariant
                    i <= parts@.len(),
                    trimmed == views(parts@).map_values(|p: Seq<char>| trim(p)),
                    views(parts@) == split_on(s@, ','),
                    pred == (|d: Seq<char>| d.len() > 0),
                    strings_view(out@) == trimmed.take(i as int).filter(pred),
                decreases parts@.len() - i,
            {
                proof {
                    reveal(Seq::filter);
                    assert(trimmed.take(i + 1).drop_last() =~= trimmed.take(i as int));
                    assert(trimmed.take(i + 1).last() == trim(parts@[i as int]@));
                }
                let t = trim_chars(parts[i].as_slice());
                let ghost before = out@;
                if t.len() > 0 {
                    out.push(string_from_chars(t.as_slice()));
                    assert(strings_view(out@) =~= strings_view(before).push(t@));
                }
                i = i + 1;
            }
            assert(trimmed.take(parts@.len() as int) =~= trimmed);
            out
        },
    }
}

/// Whether some item of a batch has an empty job id.
pub open spec fn has_blank_job(items: Seq<UpdateItem>) -> bool {
    exists|i: int| 0 <= i < items.len() && (#[trigger] items[i]).job_id@.len() == 0
}

fn first_blank_job(items: &Vec<UpdateItem>) -> (r: bool)
    ensures
        r == has_blank_job(items@),
{
    let mut i: usize = 0;
    while i < items.len()
        invariant
            i <= items@.len(),
            forall|j: int| 0 <= j < i ==> (#[trigger] items@[j]).job_id@.len() != 0,
        decreases items@.len() - i,
    {
        if items[i].job_id.as_str().unicode_len() == 0 {
            assert(items@[i as int].job_id@.len() == 0);
            return true;
        }
        i = i + 1;
    }
    false
}

/// The items of a batch update. The item list (form B), when given, wins; an
/// item with an empty job id is refused, as form A refuses an empty job id.
/// Otherwise one item from the job id and the comma-separated devices (form
/// A); a missing or empty job id is refused.
pub fn normalize_items(job_id: Option<&str>, device_list: Option<&str>, items: Option<Vec<UpdateItem>>) -> (r: Result<Vec<UpdateItem>, String>)
    ensures
        items is Some ==> if has_blank_job(items->0@) {
            r matches Err(m) && m@ == "--items: every entry needs a non-empty jobId"@
        } else {
            r == Ok::<Vec<UpdateItem>, String>(items->0)
        },
        items is None ==> match job_id {
            None => r matches Err(m) && m@ == "either --job-id (form A) or --items (form B) is required"@,
            Some(j) => if j@.len() == 0 {
                r matches Err(m) && m@ == "--job-id must not be empty"@
            } else {
                r matches Ok(v) && v@.len() == 1 && v@[0].job_id@ == j@ && strings_view(v@[0].device_list@)
                    == spec_csv_devices(match device_list {
                    Some(d) => Some(d@),
                    None => None,
                })
            },
        },
{
    match items {
        Some(v) => {
            if first_blank_job(&v) {
                return Err(String::from_str("--items: every entry needs a non-empty jobId"));
            }
            Ok(v)
        },
        None => match job_id {
            None => Err(String::from_str("either --job-id (form A) or --items (form B) is required")),
            Some(j) => {
                let jv = chars_of(j);
                if jv.len() == 0 {
                    return Err(String::from_str("--job-id must not be empty"));
                }
                let mut v: Vec<UpdateItem> = Vec::new();
                v.push(UpdateItem { job_id: String::from_str(j), device_list: parse_csv_devices(device_list) });
                Ok(v)
            },
        },
    }
}

/// Client pre-validation of a batch: 1 to 100 items.
pub fn validate_items_len(len: usize) -> (r: Result<(), String>)
    ensures
        len == 0 ==> (r matches Err(m)
            && m@ == "no subscriptions to update: provide --job-id or a non-empty --items array"@),
        len > MAX_UPDATE_ITEMS ==> (r matches Err(m) && m@ == "too many items ("@ + nat_text(len as nat)
            + "); at most 100 subscriptions per batch"@),
        1 <= len <= MAX_UPDATE_ITEMS ==> r is Ok,
{
    if len == 0 {
        return Err(String::from_str("no subscriptions to update: provide --job-id or a non-empty --items array"));
    }
    if len > MAX_UPDATE_ITEMS {
        let mut v: Vec<char> = Vec::new();
        push_str(&mut v, "too many items (");
        let d = u64_text(len as u64);
        push_chars(&mut v, d.as_slice());
        push_str(&mut v, "); at most 100 subscriptions per batch");
        return Err(string_from_chars(v.as_slice()));
    }
    Ok(())
}

/// Routing degrades exactly when no fetched device is kept. When some
/// fetched device is not excluded, routing is not degraded, every kept device
/// was fetched and is not excluded, and every fetched device that is not
/// excluded is kept. When every fetched device is excluded, routing is
/// degraded and no excluded device receives the subscription.
pub proof fn lemma_device_set(fetched: Seq<Seq<char>>, excluded: Seq<Seq<char>>, this_device_id: Option<Seq<char>>)
    requires
        fetched.len() > 0,
    ensures
        ({
            let (kept, degraded) = spec_create_device_set(Some(fetched), excluded, this_device_id);
            &&& degraded <==> (forall|i: int| 0 <= i < fetched.len() ==> excluded.contains(#[trigger] fetched[i]))
            &&& forall|i: int| 0 <= i < kept.len() ==> !excluded.contains(#[trigger] kept[i])
            &&& !degraded ==> forall|i: int| 0 <= i < kept.len() ==> fetched.contains(#[trigger] kept[i])
            &&& !degraded ==> forall|i: int| 0 <= i < fetched.len() && !excluded.contains(#[trigger] fetched[i]) ==> kept.contains(fetched[i])
            &&& degraded ==> kept.len() <= 1
        }),
{
    broadcast use vstd::seq_lib::group_filter_ensures;
    let pred = |id: Seq<char>| !excluded.contains(id);
    let kept = fetched.filter(pred);
    assert forall|i: int| 0 <= i < kept.len() implies fetched.contains(#[trigger] kept[i]) && !excluded.contains(kept[i]) by {
        assert(kept.contains(kept[i]));
        fetched.lemma_filter_contains_rev(pred, kept[i]);
    }
    if kept.len() == 0 {
        assert forall|i: int| 0 <= i < fetched.len() implies excluded.contains(#[trigger] fetched[i]) by {
            if !excluded.contains(fetched[i]) {
                assert(pred(fetched[i]));
                assert(kept.contains(fetched[i]));
            }
        }
    } else {
        let k = kept[0];
        assert(kept.contains(k));
        fetched.lemma_filter_contains_rev(pred, k);
        let j = choose|j: int| 0 <= j < fetched.len() && fetched[j] == k;
        assert(!excluded.contains(fetched[j]));
    }
}

} // verus!
