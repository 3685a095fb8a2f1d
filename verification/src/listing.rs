//! Directory-listing support: the sort keys a listing can be ordered by,
//! the thumbnail classification of one entry, and the textual rendering of
//! entry sizes and counts.

use vstd::prelude::*;
use core::cmp::Ordering;
use crate::text::{spec_decimal, u64_to_decimal};
use crate::thumbnail::{spec_from_extension, Type};
use vstd::string::StrSliceExecFns;
use vstd::string::StringExecFns;

verus! {

/// The column a listing is sorted by.
#[derive(Clone, Copy, Debug, PartialEq, Eq, Structural)]
pub enum SortBy {
    Name,
    Size,
    MTime,
}

impl Default for SortBy {
    /// Listings sort by name unless asked otherwise.
    fn default() -> (r: Self)
        ensures
            r == SortBy::Name,
    {
        SortBy::Name
    }
}

/// The direction a listing is sorted in.
#[derive(Clone, Copy, Debug, PartialEq, Eq, Structural)]
pub enum SortOrder {
    Ascending,
    Descending,
}

impl Default for SortOrder {
    /// Listings sort ascending unless asked otherwise.
    fn default() -> (r: Self)
        ensures
            r == SortOrder::Ascending,
    {
        SortOrder::Ascending
    }
}

/// The opposite direction.
pub open spec fn spec_reverse_order(o: SortOrder) -> SortOrder {
    match o {
        SortOrder::Ascending => SortOrder::Descending,
        SortOrder::Descending => SortOrder::Ascending,
    }
}

impl SortOrder {
    /// The opposite direction; clicking a sorted column's header flips it.
    pub fn reverse(self) -> (r: Self)
        ensures
            r == spec_reverse_order(self),
    {
        match self {
            SortOrder::Ascending => SortOrder::Descending,
            SortOrder::Descending => SortOrder::Ascending,
        }
    }
}

/// How a listing is ordered: a column and a direction.
#[derive(Clone, Copy, Debug, PartialEq, Eq, Structural)]
pub struct Sorting {
    pub by: SortBy,
    pub order: SortOrder,
}

/// An entry's size column: a directory counts its children, a file its
/// bytes. A count orders before any byte size; within a variant the number
/// decides.
#[derive(Clone, Copy, Debug, PartialEq, Eq, Structural)]
pub enum Size {
    Items(u64),
    Bytes(u64),
}

/// The image shown for an entry: one of the fixed icons, or a rich
/// thumbnail generated from the file itself.
#[derive(Clone, Copy, Debug, PartialEq, Eq, Structural)]
pub enum ThumbnailType {
    Directory,
    File,
    Unknown,
    Rich(Type),
}

/// One directory entry as the listing shows it.
#[derive(Clone, Debug)]
pub struct Entry {
    pub name: String,
    pub size: Size,
    pub mtime: i64,
    pub thumbnail: ThumbnailType,
    pub link: bool,
}

/// Lexicographic comparison of two character sequences by code point —
/// the order their UTF-8 renderings compare in byte-wise.
pub open spec fn spec_chars_cmp(a: Seq<char>, b: Seq<char>) -> Ordering
    decreases a.len(),
{
    if a.len() == 0 && b.len() == 0 {
        Ordering::Equal
    } else if a.len() == 0 {
        Ordering::Less
    } else if b.len() == 0 {
        Ordering::Greater
    } else if (a[0] as u32) < (b[0] as u32) {
        Ordering::Less
    } else if (a[0] as u32) > (b[0] as u32) {
        Ordering::Greater
    } else {
        spec_chars_cmp(a.drop_first(), b.drop_first())
    }
}

/// Dropping an equal prefix does not change the comparison.
proof fn lemma_chars_cmp_skip(a: Seq<char>, b: Seq<char>, i: int)
    requires
        0 <= i <= a.len(),
        i <= b.len(),
        forall|j: int| 0 <= j < i ==> a[j] == b[j],
    ensures
        spec_chars_cmp(a, b) == spec_chars_cmp(a.skip(i), b.skip(i)),
    decreases i,
{
    if i > 0 {
        assert(a[0] == b[0]);
        assert(spec_chars_cmp(a, b) == spec_chars_cmp(a.drop_first(), b.drop_first()));
        assert(a.drop_first() =~= a.skip(1));
        assert(b.drop_first() =~= b.skip(1));
        lemma_chars_cmp_skip(a.skip(1), b.skip(1), i - 1);
        assert(a.skip(1).skip(i - 1) =~= a.skip(i));
        assert(b.skip(1).skip(i - 1) =~= b.skip(i));
    } else {
        assert(a.skip(0) =~= a);
        assert(b.skip(0) =~= b);
    }
}

/// Compares two strings by code point.
pub fn chars_cmp(a: &str, b: &str) -> (r: Ordering)
    ensures
        r == spec_chars_cmp(a@, b@),
{
    let a_len = a.unicode_len();
    let b_len = b.unicode_len();
    let mut i: usize = 0;
    loop
        invariant
            i <= a_len,
            i <= b_len,
            a_len == a@.len(),
            b_len == b@.len(),
            forall|j: int| 0 <= j < i ==> a@[j] == b@[j],
        decreases a_len - i,
    {
        proof {
            lemma_chars_cmp_skip(a@, b@, i as int);
        }
        if i >= a_len || i >= b_len {
            return if a_len == b_len {
                Ordering::Equal
            } else if i >= a_len {
                Ordering::Less
            } else {
                Ordering::Greater
            };
        }
        let x = a.get_char(i);
        let y = b.get_char(i);
        if (x as u32) < (y as u32) {
            return Ordering::Less;
        }
        if (x as u32) > (y as u32) {
            return Ordering::Greater;
        }
        proof {
            assert(a@[i as int] == b@[i as int]);
        }
        i += 1;
    }
}

/// Comparison of two numbers.
pub open spec fn spec_u64_cmp(a: u64, b: u64) -> Ordering {
    if a < b {
        Ordering::Less
    } else if a == b {
        Ordering::Equal
    } else {
        Ordering::Greater
    }
}

/// Comparison of two timestamps.
pub open spec fn spec_i64_cmp(a: i64, b: i64) -> Ordering {
    if a < b {
        Ordering::Less
    } else if a == b {
        Ordering::Equal
    } else {
        Ordering::Greater
    }
}

/// Comparison of two size columns: counts before byte sizes, then by
/// number.
pub open spec fn spec_size_cmp(a: Size, b: Size) -> Ordering {
    match (a, b) {
        (Size::Items(x), Size::Items(y)) => spec_u64_cmp(x, y),
        (Size::Items(x), Size::Bytes(y)) => Ordering::Less,
        (Size::Bytes(x), Size::Items(y)) => Ordering::Greater,
        (Size::Bytes(x), Size::Bytes(y)) => spec_u64_cmp(x, y),
    }
}

/// How one column orders two entries.
pub open spec fn spec_compare(by: SortBy, a: Entry, b: Entry) -> Ordering {
    match by {
        SortBy::Name => spec_chars_cmp(a.name@, b.name@),
        SortBy::Size => spec_size_cmp(a.size, b.size),
        SortBy::MTime => spec_i64_cmp(a.mtime, b.mtime),
    }
}

impl SortBy {
    /// Orders two entries by this column.
    pub fn compare(self, a: &Entry, b: &Entry) -> (r: Ordering)
        ensures
            r == spec_compare(self, *a, *b),
    {
        match self {
            SortBy::Name => chars_cmp(a.name.as_str(), b.name.as_str()),
            SortBy::Size => {
                match (a.size, b.size) {
                    (Size::Items(x), Size::Items(y)) => {
                        if x < y { Ordering::Less }
                        else if x == y { Ordering::Equal }
                        else { Ordering::Greater }
                    },
                    (Size::Items(x), Size::Bytes(y)) => Ordering::Less,
                    (Size::Bytes(x), Size::Items(y)) => Ordering::Greater,
                    (Size::Bytes(x), Size::Bytes(y)) => {
                        if x < y { Ordering::Less }
                        else if x == y { Ordering::Equal }
                        else { Ordering::Greater }
                    },
                }
            },
            SortBy::MTime => {
                if a.mtime < b.mtime { Ordering::Less }
                else if a.mtime == b.mtime { Ordering::Equal }
                else { Ordering::Greater }
            },
        }
    }
}

/// The flipped comparison, for descending listings.
pub open spec fn spec_reverse_ordering(o: Ordering) -> Ordering {
    match o {
        Ordering::Less => Ordering::Greater,
        Ordering::Equal => Ordering::Equal,
        Ordering::Greater => Ordering::Less,
    }
}

/// How a whole sorting (column and direction) orders two entries.
pub open spec fn spec_sorting_cmp(s: Sorting, a: Entry, b: Entry) -> Ordering {
    match s.order {
        SortOrder::Ascending => spec_compare(s.by, a, b),
        SortOrder::Descending => spec_reverse_ordering(spec_compare(s.by, a, b)),
    }
}

/// The query-string value naming a column.
pub open spec fn spec_sort_by_name(by: SortBy) -> Seq<char> {
    match by {
        SortBy::Name => "name"@,
        SortBy::Size => "size"@,
        SortBy::MTime => "m_time"@,
    }
}

/// The query-string value naming a direction.
pub open spec fn spec_sort_order_name(o: SortOrder) -> Seq<char> {
    match o {
        SortOrder::Ascending => "ascending"@,
        SortOrder::Descending => "descending"@,
    }
}

/// The sorting a column header links to: that column, flipped if it is
/// already the sorted one, ascending otherwise.
pub open spec fn spec_link_sorting(s: Sorting, for_column: SortBy) -> Sorting {
    Sorting {
        by: for_column,
        order: if s.by == for_column {
            spec_reverse_order(s.order)
        } else {
            SortOrder::Ascending
        },
    }
}

impl Sorting {
    /// Orders two entries under this sorting.
    pub fn compare_entries(&self, a: &Entry, b: &Entry) -> (r: Ordering)
        ensures
            r == spec_sorting_cmp(*self, *a, *b),
    {
        let base = self.by.compare(a, b);
        match self.order {
            SortOrder::Ascending => base,
            SortOrder::Descending => {
                match base {
                    Ordering::Less => Ordering::Greater,
                    Ordering::Equal => Ordering::Equal,
                    Ordering::Greater => Ordering::Less,
                }
            },
        }
    }

    /// The query string a column header links to, flipping the direction
    /// of the column the listing is already sorted by.
    pub fn link_for(self, for_column: SortBy) -> (r: String)
        ensures
            r@ == "?sort_by="@ + spec_sort_by_name(for_column) + "&sort_order="@
                + spec_sort_order_name(spec_link_sorting(self, for_column).order),
    {
        let order = if self.by == for_column {
            self.order.reverse()
        } else {
            SortOrder::Ascending
        };
        let mut out = String::new();
        out.append("?sort_by=");
        match for_column {
            SortBy::Name => out.append("name"),
            SortBy::Size => out.append("size"),
            SortBy::MTime => out.append("m_time"),
        }
        out.append("&sort_order=");
        match order {
            SortOrder::Ascending => out.append("ascending"),
            SortOrder::Descending => out.append("descending"),
        }
        proof {
            assert(out@ =~= "?sort_by="@ + spec_sort_by_name(for_column) + "&sort_order="@
                + spec_sort_order_name(spec_link_sorting(self, for_column).order));
        }
        out
    }

    /// The CSS class a column header carries: the sorted column shows its
    /// direction, the others nothing.
    pub fn class_for(self, for_column: SortBy) -> (r: &'static str)
        ensures
            self.by == for_column && self.order is Ascending ==> r@ == "sort_ascending"@,
            self.by == for_column && self.order is Descending ==> r@ == "sort_descending"@,
            self.by != for_column ==> r@ == ""@,
    {
        if self.by == for_column {
            match self.order {
                SortOrder::Ascending => "sort_ascending",
                SortOrder::Descending => "sort_descending",
            }
        } else {
            ""
        }
    }

    /// The link and the CSS class for one column header.
    pub fn both_for(self, for_column: SortBy) -> (r: (String, &'static str))
        ensures
            r.0@ == "?sort_by="@ + spec_sort_by_name(for_column) + "&sort_order="@
                + spec_sort_order_name(spec_link_sorting(self, for_column).order),
            self.by == for_column && self.order is Ascending ==> r.1@ == "sort_ascending"@,
            self.by == for_column && self.order is Descending ==> r.1@ == "sort_descending"@,
            self.by != for_column ==> r.1@ == ""@,
    {
        (self.link_for(for_column), self.class_for(for_column))
    }
}

/// The thumbnail an entry gets: directories their icon, allowlisted media
/// a rich thumbnail, other regular files the file icon, anything else the
/// unknown icon.
pub open spec fn spec_classify_entry(is_dir: bool, is_file: bool, extension: Option<Seq<char>>)
    -> ThumbnailType {
    if is_dir {
        ThumbnailType::Directory
    } else {
        let rich = match extension {
            Some(e) => spec_from_extension(e),
            None => None,
        };
        match rich {
            Some(t) => ThumbnailType::Rich(t),
            None => if is_file {
                ThumbnailType::File
            } else {
                ThumbnailType::Unknown
            },
        }
    }
}

/// Classifies one directory entry from its file type and extension.
pub fn classify_entry(is_dir: bool, is_file: bool, extension: Option<&str>) -> (r: ThumbnailType)
    ensures
        r == spec_classify_entry(is_dir, is_file, match extension {
            Some(e) => Some(e@),
            None => None,
        }),
{
    if is_dir {
        ThumbnailType::Directory
    } else {
        let rich = match extension {
            Some(e) => Type::from_extension(e),
            None => None,
        };
        match rich {
            Some(t) => ThumbnailType::Rich(t),
            None => if is_file {
                ThumbnailType::File
            } else {
                ThumbnailType::Unknown
            },
        }
    }
}

impl ThumbnailType {
    /// The image URL an entry shows: a fixed icon, or the rich thumbnail
    /// URL the caller resolved for this entry.
    pub fn url(self, rich: String) -> (r: String)
        ensures
            self is Directory ==> r@ == "/static/directory.png"@,
            self is File ==> r@ == "/static/file.png"@,
            self is Unknown ==> r@ == "/static/unknown.png"@,
            self is Rich ==> r@ == rich@,
    {
        match self {
            ThumbnailType::Directory => String::from_str("/static/directory.png"),
            ThumbnailType::File => String::from_str("/static/file.png"),
            ThumbnailType::Unknown => String::from_str("/static/unknown.png"),
            ThumbnailType::Rich(t) => rich,
        }
    }

    /// The alt text for an entry's image.
    pub fn alt(self) -> (r: &'static str)
        ensures
            self is Directory ==> r@ == "directory"@,
            self is File ==> r@ == "file"@,
            self is Unknown ==> r@ == "unknown file type"@,
            self is Rich ==> r@ == "rich thumbnail"@,
    {
        match self {
            ThumbnailType::Directory => "directory",
            ThumbnailType::File => "file",
            ThumbnailType::Unknown => "unknown file type",
            ThumbnailType::Rich(t) => "rich thumbnail",
        }
    }

    /// Whether the entry's thumbnail is generated from the file itself.
    pub fn is_rich(self) -> (r: bool)
        ensures
            r == (self is Rich),
    {
        match self {
            ThumbnailType::Rich(t) => true,
            _ => false,
        }
    }
}

/// The rendering of an item count: the number and the (singular or plural)
/// unit.
pub open spec fn spec_display_items(items: u64) -> Seq<char> {
    spec_decimal(items as nat) + (if items == 1 {
        " item"@
    } else {
        " items"@
    })
}

/// Renders a directory's child count.
pub fn display_items(items: u64) -> (r: String)
    ensures
        r@ == spec_display_items(items),
{
    let mut out = u64_to_decimal(items);
    if items == 1 {
        out.append(" item");
    } else {
        out.append(" items");
    }
    out
}

/// Powers of the SI increment.
pub open spec fn spec_pow1000(m: nat) -> int
    decreases m,
{
    if m == 0 {
        1
    } else {
        1000 * spec_pow1000((m - 1) as nat)
    }
}

/// The SI magnitude of a byte size: the largest power of 1000 not
/// exceeding it.
pub open spec fn spec_magnitude(size: nat) -> nat
    decreases size,
{
    if size < 1000 {
        0
    } else {
        1 + spec_magnitude(size / 1000)
    }
}

/// The SI suffix for a magnitude; a `u64` byte size never gets past
/// exabytes, anything larger has no name here.
pub open spec fn spec_suffix(m: nat) -> Seq<char> {
    if m == 1 { "kB"@ }
    else if m == 2 { "MB"@ }
    else if m == 3 { "GB"@ }
    else if m == 4 { "TB"@ }
    else if m == 5 { "PB"@ }
    else if m == 6 { "EB"@ }
    else { "too big"@ }
}

/// The rendering of a byte size: exact counts up to the increment, then
/// the size scaled to its magnitude with one decimal digit (rounded down)
/// and the SI suffix.
pub open spec fn spec_display_bytes(size: u64) -> Seq<char> {
    if size <= 1000 {
        spec_decimal(size as nat) + " B"@
    } else {
        let m = spec_magnitude(size as nat);
        let p = spec_pow1000(m);
        spec_decimal((size as int / p) as nat) + "."@
            + spec_decimal((size as int % p * 10 / p) as nat) + " "@ + spec_suffix(m)
    }
}

proof fn lemma_pow1000_positive(m: nat)
    ensures
        spec_pow1000(m) >= m + 1,
    decreases m,
{
    if m > 0 {
        lemma_pow1000_positive((m - 1) as nat);
        assert(1000 * spec_pow1000((m - 1) as nat) >= m + 1) by (nonlinear_arith)
            requires (spec_pow1000((m - 1) as nat) >= m) && (m >= 1);
    }
}

proof fn lemma_pow1000_monotone(a: nat, b: nat)
    requires
        a <= b,
    ensures
        spec_pow1000(a) <= spec_pow1000(b),
    decreases b,
{
    if a < b {
        lemma_pow1000_monotone(a, (b - 1) as nat);
        lemma_pow1000_positive((b - 1) as nat);
        assert(spec_pow1000((b - 1) as nat) <= 1000 * spec_pow1000((b - 1) as nat))
            by (nonlinear_arith)
            requires spec_pow1000((b - 1) as nat) >= 1;
    }
}

/// Renders a file's byte size for the listing's size column.
pub fn display_bytes(size: u64) -> (r: String)
    ensures
        r@ == spec_display_bytes(size),
{
    if size <= 1000 {
        let mut out = u64_to_decimal(size);
        out.append(" B");
        return out;
    }
    let mut m: usize = 0;
    let mut q: u64 = size;
    let mut p: u64 = 1;
    while q >= 1000
        invariant
            size > 1000,
            1 <= q,
            1 <= p,
            p == spec_pow1000(m as nat),
            q == size as int / p as int,
            spec_magnitude(size as nat) == m + spec_magnitude(q as nat),
            m <= 6,
            m == 0 ==> q == size,
        decreases q,
    {
        proof {
            // q >= 1000 means size covers a thousand more of p
            vstd::arithmetic::div_mod::lemma_fundamental_div_mod(size as int, p as int);
            assert(size as int >= 1000 * (p as int)) by (nonlinear_arith)
                requires
                    (size as int == p as int * (size as int / p as int) + size as int % p as int)
                        && (size as int % p as int >= 0) && (size as int / p as int >= 1000) && (p
                        as int >= 1);
            vstd::arithmetic::div_mod::lemma_div_denominator(size as int, p as int, 1000);
            // a u64 never covers a thousand sixth powers of 1000
            reveal_with_fuel(spec_pow1000, 8);
            lemma_pow1000_monotone(m as nat, 6);
            assert(spec_pow1000(6) == 1000000000000000000);
            assert(m < 6);
        }
        q = q / 1000;
        p = p * 1000;
        m = m + 1;
    }
    // q == size / p < 1000, so m is exactly the magnitude
    proof {
        assert(spec_magnitude(q as nat) == 0);
        assert(spec_magnitude(size as nat) == m as nat);
        // a u64 never reaches the seventh power of 1000
        reveal_with_fuel(spec_pow1000, 8);
        lemma_pow1000_monotone(m as nat, 6);
        assert(spec_pow1000(6) == 1000000000000000000);
    }
    let rem: u64 = size % p;
    let frac: u64 = rem * 10 / p;
    proof {
        // one decimal digit: the remainder is below p, so scaling by ten
        // and dividing leaves a single digit
        assert(rem < p);
        vstd::arithmetic::div_mod::lemma_fundamental_div_mod(rem as int * 10, p as int);
        assert(((rem as int * 10) / (p as int)) < 10) by (nonlinear_arith)
            requires
                ((rem as int * 10) == (p as int) * ((rem as int * 10) / (p as int)) + ((rem as int
                    * 10) % (p as int))) && (((rem as int * 10) % (p as int)) >= 0) && (rem < p)
                    && (p >= 1);
    }
    let mut out = u64_to_decimal(q);
    out.append(".");
    let frac_digits = u64_to_decimal(frac);
    out.append(frac_digits.as_str());
    out.append(" ");
    if m == 1 {
        out.append("kB");
    } else if m == 2 {
        out.append("MB");
    } else if m == 3 {
        out.append("GB");
    } else if m == 4 {
        out.append("TB");
    } else if m == 5 {
        out.append("PB");
    } else {
        out.append("EB");
    }
    out
}

} // verus!
