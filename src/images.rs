//! On-disk layout of captured frames: `<base>/YYYY-MM-DD/<uuid>.jpg`, with the
//! date taken in UTC from the capture instant; the JPEG encoding of a frame;
//! and which date directories a retention cleanup removes.
use vstd::prelude::*;

use crate::metrics::saturating_sum;
use crate::raster::Raster;

verus! {

/// Milliseconds per day.
pub const MILLIS_PER_DAY: i64 = 86400000;

/// Default JPEG quality.
pub const DEFAULT_JPEG_QUALITY: u8 = 85;

/// The UTC calendar date `(year, month, day)` of a Unix instant in
/// milliseconds, as the date-time library computes it; `None` outside its range.
pub uninterp spec fn utc_date_of(unix_millis: i64) -> Option<(i32, u32, u32)>;

/// The JPEG file of an RGBA raster at the given quality, as the imaging
/// library encodes it (alpha dropped); `None` when the encoder refuses it.
pub uninterp spec fn jpeg_of(width: u32, height: u32, rgba: Seq<u8>, quality: u8) -> Option<Seq<u8>>;

/// Relies on `String::push`: appends one character.
#[verifier::external_body]
fn push_char(s: &mut String, c: char)
    ensures
        final(s)@ == old(s)@.push(c),
{
    s.push(c)
}

/// Relies on chrono's `DateTime::<Utc>::from_timestamp_millis` and the
/// `Datelike` accessors: the UTC date of an instant, month in 1..=12 and day in
/// 1..=31.
#[verifier::external_body]
fn utc_date(unix_millis: i64) -> (r: Option<(i32, u32, u32)>)
    ensures
        r == utc_date_of(unix_millis),
        r matches Some(d) ==> 1 <= d.1 <= 12 && 1 <= d.2 <= 31,
{
    match chrono::DateTime::from_timestamp_millis(unix_millis) {
        Some(t) => Some((
            chrono::Datelike::year(&t),
            chrono::Datelike::month(&t),
            chrono::Datelike::day(&t),
        )),
        None => None,
    }
}

/// Relies on chrono's `Utc::now`: the current wall-clock instant in Unix
/// milliseconds. Nothing is promised of its value.
#[verifier::external_body]
fn now_unix_millis() -> (r: i64) {
    chrono::Utc::now().timestamp_millis()
}

/// Relies on uuid's `Uuid::new_v4`: a fresh random identifier. Nothing is
/// promised of its value.
#[verifier::external_body]
fn new_v4_id() -> (r: u128) {
    uuid::Uuid::new_v4().as_u128()
}

/// Relies on image's `DynamicImage::to_rgb8` and `JpegEncoder::new_with_quality`
/// with `write_with_encoder`: the encoded bytes depend on the arguments alone.
#[verifier::external_body]
fn jpeg_bytes(r: &Raster, quality: u8) -> (out: Option<Vec<u8>>)
    requires
        r.wf(),
    ensures
        out matches Some(b) ==> jpeg_of(r.spec_width(), r.spec_height(), r.bytes(), quality) == Some(
            b@,
        ),
        out is None ==> jpeg_of(r.spec_width(), r.spec_height(), r.bytes(), quality) is None,
{
    let rgba = image::RgbaImage::from_raw(r.width(), r.height(), r.as_bytes().clone()).unwrap();
    let rgb = image::DynamicImage::ImageRgba8(rgba).to_rgb8();
    let mut buf: Vec<u8> = Vec::new();
    let encoder = image::codecs::jpeg::JpegEncoder::new_with_quality(&mut buf, quality);
    match rgb.write_with_encoder(encoder) {
        Ok(()) => Some(buf),
        Err(_) => None,
    }
}

/// The character of a decimal digit.
pub open spec fn digit_char(d: int) -> char {
    ((48 + d) as u8) as char
}

/// The character of a lower-case hexadecimal digit.
pub open spec fn hex_char(d: int) -> char {
    if d < 10 {
        ((48 + d) as u8) as char
    } else {
        ((87 + d) as u8) as char
    }
}

/// `YYYY-MM-DD`.
pub open spec fn date_text(year: int, month: int, day: int) -> Seq<char> {
    seq![
        digit_char(year / 1000),
        digit_char(year / 100 % 10),
        digit_char(year / 10 % 10),
        digit_char(year % 10),
        '-',
        digit_char(month / 10),
        digit_char(month % 10),
        '-',
        digit_char(day / 10),
        digit_char(day % 10),
    ]
}

/// Nibble `k` of a 128-bit identifier, counting from the most significant.
pub open spec fn nibble(id: u128, k: int) -> int {
    ((id >> ((124 - 4 * k) as u128)) & 15) as int
}

/// Number of hex digits before position `p` of the hyphenated form; for a
/// digit position, the index of the nibble it shows.
pub open spec fn nibble_index(p: int) -> int {
    if p <= 8 {
        p
    } else if p <= 13 {
        p - 1
    } else if p <= 18 {
        p - 2
    } else if p <= 23 {
        p - 3
    } else {
        p - 4
    }
}

pub open spec fn is_hyphen_position(p: int) -> bool {
    p == 8 || p == 13 || p == 18 || p == 23
}

/// The hyphenated lower-case form of an identifier: 8-4-4-4-12 hex digits.
pub open spec fn uuid_text(id: u128) -> Seq<char> {
    Seq::new(
        36,
        |p: int|
            if is_hyphen_position(p) {
                '-'
            } else {
                hex_char(nibble(id, nibble_index(p)))
            },
    )
}

/// `.jpg`
pub open spec fn jpg_suffix() -> Seq<char> {
    seq!['.', 'j', 'p', 'g']
}

/// The image reference of a frame file: `YYYY-MM-DD/<uuid>.jpg`.
pub open spec fn image_ref_text(year: int, month: int, day: int, id: u128) -> Seq<char> {
    date_text(year, month, day) + seq!['/'] + uuid_text(id) + jpg_suffix()
}

/// A calendar date whose year has at most four digits.
pub open spec fn valid_date(d: (i32, u32, u32)) -> bool {
    0 <= d.0 <= 9999 && 1 <= d.1 <= 12 && 1 <= d.2 <= 31
}

fn digit(d: u32) -> (c: char)
    requires
        d < 10,
    ensures
        c == digit_char(d as int),
{
    ((48u32 + d) as u8) as char
}

fn hex_digit(d: u128) -> (c: char)
    requires
        d < 16,
    ensures
        c == hex_char(d as int),
{
    if d < 10 {
        ((48u128 + d) as u8) as char
    } else {
        ((87u128 + d) as u8) as char
    }
}

/// Append `YYYY-MM-DD`.
fn push_date(s: &mut String, year: u32, month: u32, day: u32)
    requires
        year <= 9999,
        month <= 99,
        day <= 99,
    ensures
        final(s)@ == old(s)@ + date_text(year as int, month as int, day as int),
{
    push_char(s, digit(year / 1000));
    push_char(s, digit(year / 100 % 10));
    push_char(s, digit(year / 10 % 10));
    push_char(s, digit(year % 10));
    push_char(s, '-');
    push_char(s, digit(month / 10));
    push_char(s, digit(month % 10));
    push_char(s, '-');
    push_char(s, digit(day / 10));
    push_char(s, digit(day % 10));
    assert(s@ =~= old(s)@ + date_text(year as int, month as int, day as int));
}

/// Append the hyphenated form of `id`.
fn push_uuid(s: &mut String, id: u128)
    ensures
        final(s)@ == old(s)@ + uuid_text(id),
{
    let ghost start = s@;
    let mut p: u32 = 0;
    let mut k: u32 = 0;
    while p < 36
        invariant
            p <= 36,
            k == nibble_index(p as int),
            s@ == start + uuid_text(id).take(p as int),
        decreases 36 - p,
    {
        if p == 8 || p == 13 || p == 18 || p == 23 {
            push_char(s, '-');
        } else {
            let shift: u128 = (124 - 4 * k) as u128;
            let n = (id >> shift) & 15;
            assert(n < 16) by (bit_vector)
                requires
                    n == (id >> shift) & 15,
            ;
            push_char(s, hex_digit(n));
            k = k + 1;
        }
        assert(uuid_text(id).take(p + 1) =~= uuid_text(id).take(p as int).push(uuid_text(id)[p as int]));
        p = p + 1;
    }
    assert(uuid_text(id).take(36) =~= uuid_text(id));
}

/// The image reference `YYYY-MM-DD/<uuid>.jpg` for a date and a file identifier.
pub fn image_ref_for(year: u32, month: u32, day: u32, id: u128) -> (r: String)
    requires
        year <= 9999,
        month <= 99,
        day <= 99,
    ensures
        r@ == image_ref_text(year as int, month as int, day as int, id),
{
    let mut s = String::new();
    push_date(&mut s, year, month, day);
    push_char(&mut s, '/');
    push_uuid(&mut s, id);
    push_char(&mut s, '.');
    push_char(&mut s, 'j');
    push_char(&mut s, 'p');
    push_char(&mut s, 'g');
    assert(s@ =~= image_ref_text(year as int, month as int, day as int, id));
    s
}

/// `s` has the shape `DDDD-DD-DD` of a date directory.
pub open spec fn is_date_name(s: Seq<char>) -> bool {
    &&& s.len() == 10
    &&& forall|i: int|
        0 <= i < 10 ==> if i == 4 || i == 7 {
            s[i] == '-'
        } else {
            '0' <= #[trigger] s[i] <= '9'
        }
}

/// Lexicographic order of `a` and `b` from position `i` on.
pub open spec fn less_from(a: Seq<char>, b: Seq<char>, i: int) -> bool
    decreases a.len() - i,
{
    if i < 0 || i >= a.len() {
        0 <= i < b.len()
    } else if i >= b.len() {
        false
    } else if a[i] < b[i] {
        true
    } else if a[i] > b[i] {
        false
    } else {
        less_from(a, b, i + 1)
    }
}

/// `a` sorts strictly before `b`, character by character.
pub open spec fn text_less(a: Seq<char>, b: Seq<char>) -> bool {
    less_from(a, b, 0)
}

/// Whether `name` has the shape of a date directory, `DDDD-DD-DD`.
pub fn is_date_dir_name(name: &str) -> (r: bool)
    ensures
        r == is_date_name(name@),
{
    if name.unicode_len() != 10 {
        return false;
    }
    let mut i: usize = 0;
    while i < 10
        invariant
            name@.len() == 10,
            i <= 10,
            forall|j: int|
                0 <= j < i ==> if j == 4 || j == 7 {
                    name@[j] == '-'
                } else {
                    '0' <= #[trigger] name@[j] <= '9'
                },
        decreases 10 - i,
    {
        let c = name.get_char(i);
        if i == 4 || i == 7 {
            if c != '-' {
                return false;
            }
        } else if !('0' <= c && c <= '9') {
            return false;
        }
        i = i + 1;
    }
    true
}

/// Whether `a` sorts strictly before `b`, character by character (for the
/// ASCII names compared here, the order of their bytes).
pub fn sorts_before(a: &str, b: &str) -> (r: bool)
    ensures
        r == text_less(a@, b@),
{
    let la = a.unicode_len();
    let lb = b.unicode_len();
    let mut i: usize = 0;
    while i < la && i < lb
        invariant
            la == a@.len(),
            lb == b@.len(),
            i <= la,
            i <= lb,
            less_from(a@, b@, 0) == less_from(a@, b@, i as int),
        decreases la - i,
    {
        let ca = a.get_char(i);
        let cb = b.get_char(i);
        if ca < cb {
            return true;
        }
        if ca > cb {
            return false;
        }
        i = i + 1;
    }
    i == la && i < lb
}

/// The date directory name of an instant: `Some` exactly when the date-time
/// library gives a date whose year has at most four digits.
pub open spec fn date_dir_text(unix_millis: i64) -> Option<Seq<char>> {
    match utc_date_of(unix_millis) {
        Some(d) => if valid_date(d) {
            Some(date_text(d.0 as int, d.1 as int, d.2 as int))
        } else {
            None
        },
        None => None,
    }
}

/// The date directory `YYYY-MM-DD` (UTC) of an instant in Unix milliseconds.
pub fn date_dir_name(unix_millis: i64) -> (r: Option<String>)
    ensures
        r is Some <==> date_dir_text(unix_millis) is Some,
        r matches Some(s) ==> date_dir_text(unix_millis) == Some(s@),
{
    match utc_date(unix_millis) {
        Some((y, m, d)) => {
            if 0 <= y && y <= 9999 {
                let mut s = String::new();
                push_date(&mut s, y as u32, m, d);
                assert(s@ =~= date_text(y as int, m as int, d as int));
                Some(s)
            } else {
                None
            }
        },
        None => None,
    }
}

/// The instant `retention_days` days before `now_millis`, if it is representable.
pub open spec fn cutoff_instant(now_millis: i64, retention_days: u32) -> Option<i64> {
    let t = now_millis - retention_days * MILLIS_PER_DAY;
    if i64::MIN <= t {
        Some(t as i64)
    } else {
        None
    }
}

/// The date name before which date directories are expired: the date of
/// `retention_days` days before `now_millis`.
pub open spec fn cutoff_text(now_millis: i64, retention_days: u32) -> Option<Seq<char>> {
    match cutoff_instant(now_millis, retention_days) {
        Some(t) => date_dir_text(t),
        None => None,
    }
}

/// The name of the oldest date directory a cleanup with `retention_days` keeps.
pub fn cleanup_cutoff(now_millis: i64, retention_days: u32) -> (r: Option<String>)
    ensures
        r is Some <==> cutoff_text(now_millis, retention_days) is Some,
        r matches Some(s) ==> cutoff_text(now_millis, retention_days) == Some(s@),
{
    assert((retention_days as int) * 86400000 <= 0x1_0000_0000 * 86400000) by (nonlinear_arith)
        requires
            retention_days <= u32::MAX,
    ;
    let span: i128 = retention_days as i128 * (MILLIS_PER_DAY as i128);
    let t: i128 = now_millis as i128 - span;
    if t < i64::MIN as i128 {
        return None;
    }
    date_dir_name(t as i64)
}

/// A directory entry of the image base directory: its name, whether it is a
/// directory, and how many regular files it holds.
#[derive(Debug, Clone)]
pub struct DirEntryInfo {
    pub name: String,
    pub is_dir: bool,
    pub file_count: u64,
}

/// A cleanup removes a directory whose name is a date sorting before the cutoff.
pub open spec fn is_expired(e: DirEntryInfo, cutoff: Seq<char>) -> bool {
    e.is_dir && is_date_name(e.name@) && text_less(e.name@, cutoff)
}

/// Indices, in order, of the expired entries among the first `n`.
pub open spec fn expired_indices(entries: Seq<DirEntryInfo>, cutoff: Seq<char>, n: int) -> Seq<usize>
    decreases n,
{
    if n <= 0 || n > entries.len() {
        seq![]
    } else if is_expired(entries[n - 1], cutoff) {
        expired_indices(entries, cutoff, n - 1).push((n - 1) as usize)
    } else {
        expired_indices(entries, cutoff, n - 1)
    }
}

/// Files held by the expired entries among the first `n`, saturating.
pub open spec fn expired_files(entries: Seq<DirEntryInfo>, cutoff: Seq<char>, n: int) -> u64
    decreases n,
{
    if n <= 0 || n > entries.len() {
        0
    } else if is_expired(entries[n - 1], cutoff) {
        saturating_sum(expired_files(entries, cutoff, n - 1), entries[n - 1].file_count)
    } else {
        expired_files(entries, cutoff, n - 1)
    }
}

/// Which directories a cleanup removes, and how many files go with them.
#[derive(Debug, Clone)]
pub struct CleanupPlan {
    pub remove: Vec<usize>,
    pub files_removed: u64,
}

/// Select the date directories older than `cutoff` (names of another shape,
/// and plain files, are skipped) and count the files they hold.
pub fn plan_cleanup(entries: &Vec<DirEntryInfo>, cutoff: &str) -> (r: CleanupPlan)
    ensures
        r.remove@ == expired_indices(entries@, cutoff@, entries@.len() as int),
        r.files_removed == expired_files(entries@, cutoff@, entries@.len() as int),
{
    let mut remove: Vec<usize> = Vec::new();
    let mut files: u64 = 0;
    let mut i: usize = 0;
    while i < entries.len()
        invariant
            i <= entries@.len(),
            remove@ == expired_indices(entries@, cutoff@, i as int),
            files == expired_files(entries@, cutoff@, i as int),
        decreases entries@.len() - i,
    {
        let e = &entries[i];
        if e.is_dir && is_date_dir_name(e.name.as_str()) && sorts_before(e.name.as_str(), cutoff) {
            remove.push(i);
            files = files.saturating_add(e.file_count);
        }
        i = i + 1;
    }
    CleanupPlan { remove, files_removed: files }
}

/// JPEG-encode a frame at the given quality (1 to 100; the encoder clamps
/// other values); `None` when the encoder refuses the frame.
pub fn encode_jpeg(image: &Raster, quality: u8) -> (r: Option<Vec<u8>>)
    ensures
        r matches Some(b) ==> jpeg_of(image.spec_width(), image.spec_height(), image.bytes(), quality)
            == Some(b@),
        r is None ==> jpeg_of(image.spec_width(), image.spec_height(), image.bytes(), quality) is None,
{
    proof {
        use_type_invariant(image);
    }
    jpeg_bytes(image, quality)
}

/// Where a new frame file goes: its date directory, its identifier and its
/// reference `<dir_name>/<uuid>.jpg` relative to the base directory.
#[derive(Debug, Clone)]
pub struct SavePlan {
    pub dir_name: String,
    pub file_id: u128,
    pub image_ref: String,
}

/// File-system JPEG storage with one directory per UTC date.
#[derive(Debug, Clone)]
pub struct ImageStorage {
    base_path: String,
}

impl ImageStorage {
    pub closed spec fn spec_base_path(&self) -> Seq<char> {
        self.base_path@
    }

    /// Storage rooted at `base_path` (the caller creates the directory).
    pub fn new(base_path: String) -> (r: ImageStorage)
        ensures
            r.spec_base_path() == base_path@,
    {
        ImageStorage { base_path }
    }

    pub fn base_path(&self) -> (r: &String)
        ensures
            r@ == self.spec_base_path(),
    {
        &self.base_path
    }

    /// Choose the date directory and a fresh file name for a frame captured at
    /// `captured_at_millis`. `None` exactly when that instant has no four-digit-year
    /// UTC date.
    pub fn plan_save(&self, captured_at_millis: i64) -> (r: Option<SavePlan>)
        ensures
            r is Some <==> date_dir_text(captured_at_millis) is Some,
            r matches Some(p) ==> date_dir_text(captured_at_millis) == Some(p.dir_name@)
                && p.image_ref@ == p.dir_name@ + seq!['/'] + uuid_text(p.file_id) + jpg_suffix(),
    {
        match utc_date(captured_at_millis) {
            Some((y, m, d)) => {
                if 0 <= y && y <= 9999 {
                    let mut dir_name = String::new();
                    push_date(&mut dir_name, y as u32, m, d);
                    assert(dir_name@ =~= date_text(y as int, m as int, d as int));
                    let file_id = new_v4_id();
                    let image_ref = image_ref_for(y as u32, m, d, file_id);
                    Some(SavePlan { dir_name, file_id, image_ref })
                } else {
                    None
                }
            },
            None => None,
        }
    }

    /// The cutoff date name for a cleanup run now with `retention_days` of retention.
    pub fn cleanup_cutoff_now(&self, retention_days: u32) -> (r: Option<String>)
        ensures
            exists|now: i64|
                {
                    &&& (r is Some <==> cutoff_text(now, retention_days) is Some)
                    &&& (r matches Some(s) ==> cutoff_text(now, retention_days) == Some(s@))
                },
    {
        let now = now_unix_millis();
        cleanup_cutoff(now, retention_days)
    }
}

/// Date partitioning: an image reference starts with the `YYYY-MM-DD` of its
/// capture date and a slash, and ends with `.jpg`.
pub proof fn lemma_image_ref_layout(year: int, month: int, day: int, id: u128)
    ensures
        image_ref_text(year, month, day, id).len() == 51,
        image_ref_text(year, month, day, id).take(10) == date_text(year, month, day),
        image_ref_text(year, month, day, id)[10] == '/',
        image_ref_text(year, month, day, id).skip(47) == jpg_suffix(),
{
    let t = image_ref_text(year, month, day, id);
    assert(t.take(10) =~= date_text(year, month, day));
    assert(t.skip(47) =~= jpg_suffix());
}

/// Position in the hyphenated form of nibble `k`.
pub open spec fn nibble_position(k: int) -> int {
    if k < 8 {
        k
    } else if k < 12 {
        k + 1
    } else if k < 16 {
        k + 2
    } else if k < 20 {
        k + 3
    } else {
        k + 4
    }
}

/// Distinct digits have distinct characters.
proof fn lemma_hex_char_injective(x: int, y: int)
    requires
        0 <= x < 16,
        0 <= y < 16,
        hex_char(x) == hex_char(y),
    ensures
        x == y,
{
    assert(hex_char(x) as int == (if x < 10 { 48 + x } else { 87 + x }));
    assert(hex_char(y) as int == (if y < 10 { 48 + y } else { 87 + y }));
}

/// Identifiers with the same hyphenated form are equal.
pub proof fn lemma_uuid_text_injective(a: u128, b: u128)
    requires
        uuid_text(a) == uuid_text(b),
    ensures
        a == b,
{
    assert forall|k: int| 0 <= k < 32 implies nibble(a, k) == nibble(b, k) by {
        let p = nibble_position(k);
        assert(!is_hyphen_position(p) && nibble_index(p) == k);
        assert(uuid_text(a)[p] == hex_char(nibble(a, k)));
        assert(uuid_text(b)[p] == hex_char(nibble(b, k)));
        let sh = (124 - 4 * k) as u128;
        assert((a >> sh) & 15 < 16 && (b >> sh) & 15 < 16) by (bit_vector);
        lemma_hex_char_injective(nibble(a, k), nibble(b, k));
    }
    assert(nibble(a, 0) == nibble(b, 0));
    assert(nibble(a, 1) == nibble(b, 1));
    assert(nibble(a, 2) == nibble(b, 2));
    assert(nibble(a, 3) == nibble(b, 3));
    assert(nibble(a, 4) == nibble(b, 4));
    assert(nibble(a, 5) == nibble(b, 5));
    assert(nibble(a, 6) == nibble(b, 6));
    assert(nibble(a, 7) == nibble(b, 7));
    assert(nibble(a, 8) == nibble(b, 8));
    assert(nibble(a, 9) == nibble(b, 9));
    assert(nibble(a, 10) == nibble(b, 10));
    assert(nibble(a, 11) == nibble(b, 11));
    assert(nibble(a, 12) == nibble(b, 12));
    assert(nibble(a, 13) == nibble(b, 13));
    assert(nibble(a, 14) == nibble(b, 14));
    assert(nibble(a, 15) == nibble(b, 15));
    assert(nibble(a, 16) == nibble(b, 16));
    assert(nibble(a, 17) == nibble(b, 17));
    assert(nibble(a, 18) == nibble(b, 18));
    assert(nibble(a, 19) == nibble(b, 19));
    assert(nibble(a, 20) == nibble(b, 20));
    assert(nibble(a, 21) == nibble(b, 21));
    assert(nibble(a, 22) == nibble(b, 22));
    assert(nibble(a, 23) == nibble(b, 23));
    assert(nibble(a, 24) == nibble(b, 24));
    assert(nibble(a, 25) == nibble(b, 25));
    assert(nibble(a, 26) == nibble(b, 26));
    assert(nibble(a, 27) == nibble(b, 27));
    assert(nibble(a, 28) == nibble(b, 28));
    assert(nibble(a, 29) == nibble(b, 29));
    assert(nibble(a, 30) == nibble(b, 30));
    assert(nibble(a, 31) == nibble(b, 31));
    assert(a == b) by (bit_vector)
        requires
            (a >> 124u128) & 15 == (b >> 124u128) & 15,
            (a >> 120u128) & 15 == (b >> 120u128) & 15,
            (a >> 116u128) & 15 == (b >> 116u128) & 15,
            (a >> 112u128) & 15 == (b >> 112u128) & 15,
            (a >> 108u128) & 15 == (b >> 108u128) & 15,
            (a >> 104u128) & 15 == (b >> 104u128) & 15,
            (a >> 100u128) & 15 == (b >> 100u128) & 15,
            (a >> 96u128) & 15 == (b >> 96u128) & 15,
            (a >> 92u128) & 15 == (b >> 92u128) & 15,
            (a >> 88u128) & 15 == (b >> 88u128) & 15,
            (a >> 84u128) & 15 == (b >> 84u128) & 15,
            (a >> 80u128) & 15 == (b >> 80u128) & 15,
            (a >> 76u128) & 15 == (b >> 76u128) & 15,
            (a >> 72u128) & 15 == (b >> 72u128) & 15,
            (a >> 68u128) & 15 == (b >> 68u128) & 15,
            (a >> 64u128) & 15 == (b >> 64u128) & 15,
            (a >> 60u128) & 15 == (b >> 60u128) & 15,
            (a >> 56u128) & 15 == (b >> 56u128) & 15,
            (a >> 52u128) & 15 == (b >> 52u128) & 15,
            (a >> 48u128) & 15 == (b >> 48u128) & 15,
            (a >> 44u128) & 15 == (b >> 44u128) & 15,
            (a >> 40u128) & 15 == (b >> 40u128) & 15,
            (a >> 36u128) & 15 == (b >> 36u128) & 15,
            (a >> 32u128) & 15 == (b >> 32u128) & 15,
            (a >> 28u128) & 15 == (b >> 28u128) & 15,
            (a >> 24u128) & 15 == (b >> 24u128) & 15,
            (a >> 20u128) & 15 == (b >> 20u128) & 15,
            (a >> 16u128) & 15 == (b >> 16u128) & 15,
            (a >> 12u128) & 15 == (b >> 12u128) & 15,
            (a >> 8u128) & 15 == (b >> 8u128) & 15,
            (a >> 4u128) & 15 == (b >> 4u128) & 15,
            (a >> 0u128) & 15 == (b >> 0u128) & 15,
    ;
}

/// Unique filenames: frames saved on the same date under different
/// identifiers get different image references.
pub proof fn lemma_image_ref_unique(year: int, month: int, day: int, a: u128, b: u128)
    requires
        a != b,
    ensures
        image_ref_text(year, month, day, a) != image_ref_text(year, month, day, b),
{
    if image_ref_text(year, month, day, a) == image_ref_text(year, month, day, b) {
        assert(image_ref_text(year, month, day, a).subrange(11, 47) =~= uuid_text(a));
        assert(image_ref_text(year, month, day, b).subrange(11, 47) =~= uuid_text(b));
        lemma_uuid_text_injective(a, b);
    }
}

} // verus!
