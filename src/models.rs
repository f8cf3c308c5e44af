//! The records of the feature database: compiler versions and features.

use vstd::prelude::*;

use core::cmp::Ordering;

verus! {

/// Where a release announcement's path is rooted.
pub const RUST_BLOG_ROOT: &'static str = "https://blog.rust-lang.org/";

/// Versions that have been cut are either stable, beta or nightly.
#[derive(Clone, Copy, Debug, PartialEq, Eq, Structural, PartialOrd, Ord, Hash)]
pub enum Channel {
    Stable,
    Beta,
    Nightly,
}

/// A calendar date, as year, month number (1 to 12) and day of the month.
#[derive(Clone, Copy, Debug, PartialEq, Eq, Structural)]
pub struct Date {
    pub year: i32,
    pub month: u8,
    pub day: u8,
}

/// Rust compiler version info.
#[derive(Clone, Debug, Default)]
pub struct CompilerVersionData {
    /// Rust version number, e.g. "1.0.0"
    pub number: String,
    /// The channel (stable / beta / nightly)
    pub channel: Channel,
    /// Release date, in format "yyyy-mm-dd"
    pub release_date: Option<String>,
    /// Release notes anchor in the compiler's RELEASES.md
    pub release_notes: Option<String>,
    /// Path of the release announcement under the Rust blog
    pub blog_post_path: Option<String>,
    /// GitHub milestone id
    pub gh_milestone_id: Option<u64>,
}

/// Rust "feature" info for some arbitrary definition of feature.
///
/// Not strictly tied to compiler features.
#[derive(Clone, Debug, Default)]
pub struct FeatureData {
    /// Short description to identify the feature
    pub title: String,
    /// Feature flag name, for things that were previously or are still
    /// nightly features with such a flag
    pub flag: Option<String>,
    /// RFC id
    pub rfc_id: Option<u64>,
    /// Implementation PR id, only for small features that were implemented in
    /// one PR
    pub impl_pr_id: Option<u64>,
    /// Tracking issue id
    pub tracking_issue_id: Option<u64>,
    /// Stabilization PR id
    pub stabilization_pr_id: Option<u64>,
    /// Documentation path under doc.rust-lang.org
    pub doc_path: Option<String>,
    /// Edition guide path
    pub edition_guide_path: Option<String>,
    /// Unstable book path
    pub unstable_book_path: Option<String>,
    /// Language items (functions, structs, modules) that are part of this
    /// feature (unless this feature is exactly one item and that item is
    /// already used as the title)
    pub items: Vec<String>,
    /// The version number at which the feature was stabilized.
    pub version_number: Option<String>,
    /// Alternatives to the title
    pub aliases: Vec<String>,
    /// Unique "feature" name for links; the key the feature is stored under.
    pub slug: String,
}

/// Where documentation paths are rooted.
pub const DOCS_ROOT: &'static str = "https://doc.rust-lang.org/";

/// `texts` joined with a line break between each two.
pub open spec fn joined_lines(texts: Seq<String>) -> Seq<char>
    decreases texts.len(),
{
    if texts.len() == 0 {
        Seq::empty()
    } else if texts.len() == 1 {
        texts[0]@
    } else {
        joined_lines(texts.drop_last()) + "\n"@ + texts.last()@
    }
}

/// What `time::Date::parse` makes of `s` with the description
/// `[year repr:full]-[month]-[day]`: year, month number and day, or `None`
/// where `s` is not a valid date written that way.
pub uninterp spec fn parsed_release_date(s: Seq<char>) -> Option<(i32, u8, u8)>;

/// Relies on `time::Date::parse` with the description
/// `[year repr:full]-[month]-[day]` (parsed by
/// `time::format_description::parse_borrowed`): it returns the date written
/// in `s`, taken apart into year, month number and day.
#[verifier::external_body]
fn parse_date(s: &str) -> (r: Option<(i32, u8, u8)>)
    ensures
        r == parsed_release_date(s@),
{
    let format = time::format_description::parse_borrowed::<1>("[year repr:full]-[month]-[day]")
        .ok()?;
    let date = time::Date::parse(s, &format).ok()?;
    Some((date.year(), u8::from(date.month()), date.day()))
}

impl Channel {
    /// Stable ranks lowest, nightly highest.
    pub open spec fn spec_rank(&self) -> int {
        match self {
            Channel::Stable => 0,
            Channel::Beta => 1,
            Channel::Nightly => 2,
        }
    }

    /// The channel's rank: stable 0, beta 1, nightly 2.
    pub fn rank(&self) -> (r: u8)
        ensures
            r as int == self.spec_rank(),
    {
        match self {
            Channel::Stable => 0,
            Channel::Beta => 1,
            Channel::Nightly => 2,
        }
    }

    /// Orders channels by rank.
    pub fn compare(&self, other: &Channel) -> (r: Ordering)
        ensures
            r == cmp_int(self.spec_rank(), other.spec_rank()),
    {
        let a = self.rank();
        let b = other.rank();
        if a < b {
            Ordering::Less
        } else if a > b {
            Ordering::Greater
        } else {
            Ordering::Equal
        }
    }

    /// The channel's lower-case name.
    pub fn name(&self) -> (r: &'static str)
        ensures
            r@ == channel_name(*self),
    {
        match self {
            Channel::Stable => "stable",
            Channel::Beta => "beta",
            Channel::Nightly => "nightly",
        }
    }
}

impl Default for Channel {
    fn default() -> (r: Channel)
        ensures
            r == Channel::Stable,
    {
        Channel::Stable
    }
}

/// The lower-case name of a channel.
pub open spec fn channel_name(c: Channel) -> Seq<char> {
    match c {
        Channel::Stable => "stable"@,
        Channel::Beta => "beta"@,
        Channel::Nightly => "nightly"@,
    }
}

/// How two integers compare.
pub open spec fn cmp_int(a: int, b: int) -> Ordering {
    if a < b {
        Ordering::Less
    } else if a > b {
        Ordering::Greater
    } else {
        Ordering::Equal
    }
}

/// A number that orders dates as the calendar does: by year, then month,
/// then day.
pub open spec fn date_key(d: Date) -> int {
    d.year as int * 65536 + d.month as int * 256 + d.day as int
}

/// The release date of `v`, where it has one that reads as a date.
pub open spec fn release_date_of(v: CompilerVersionData) -> Option<Date> {
    match v.release_date {
        Some(s) => match parsed_release_date(s@) {
            Some((y, m, d)) => Some(Date { year: y, month: m, day: d }),
            None => None,
        },
        None => None,
    }
}

/// Versions order by channel first; within a channel, by release date where
/// both have one, and as equal otherwise.
pub open spec fn recency_order(a: CompilerVersionData, b: CompilerVersionData) -> Ordering {
    if a.channel.spec_rank() != b.channel.spec_rank() {
        cmp_int(a.channel.spec_rank(), b.channel.spec_rank())
    } else {
        match (release_date_of(a), release_date_of(b)) {
            (Some(x), Some(y)) => cmp_int(date_key(x), date_key(y)),
            _ => Ordering::Equal,
        }
    }
}

impl Date {
    /// Orders dates as the calendar does.
    pub fn compare(&self, other: &Date) -> (r: Ordering)
        ensures
            r == cmp_int(date_key(*self), date_key(*other)),
    {
        if self.year != other.year {
            if self.year < other.year {
                Ordering::Less
            } else {
                Ordering::Greater
            }
        } else if self.month != other.month {
            if self.month < other.month {
                Ordering::Less
            } else {
                Ordering::Greater
            }
        } else if self.day < other.day {
            Ordering::Less
        } else if self.day > other.day {
            Ordering::Greater
        } else {
            Ordering::Equal
        }
    }
}

impl CompilerVersionData {
    /// The release date, where one is given and reads as a date.
    pub fn release_date(&self) -> (r: Option<Date>)
        ensures
            r == release_date_of(*self),
    {
        match &self.release_date {
            Some(s) => match parse_date(s.as_str()) {
                Some((year, month, day)) => Some(Date { year, month, day }),
                None => None,
            },
            None => None,
        }
    }

    /// The version's heading: `v`, the number, and the channel in brackets,
    /// as in `v1.0.0 (stable)`.
    pub fn heading(&self) -> (r: String)
        ensures
            r@ == "v"@ + self.number@ + " ("@ + channel_name(self.channel) + ")"@,
    {
        let mut s = String::new();
        s.append("v");
        s.append(self.number.as_str());
        s.append(" (");
        s.append(self.channel.name());
        s.append(")");
        s
    }

    /// The address of the release announcement, where there is one.
    pub fn blog_post_url(&self) -> (r: Option<String>)
        ensures
            r is Some <==> self.blog_post_path is Some,
            r matches Some(url) ==> url@ == RUST_BLOG_ROOT@ + self.blog_post_path->0@,
    {
        match &self.blog_post_path {
            Some(path) => {
                let mut url = String::new();
                url.append(RUST_BLOG_ROOT);
                url.append(path.as_str());
                Some(url)
            },
            None => None,
        }
    }

    /// Orders versions by channel, then by release date where both have one.
    pub fn recency_cmp(&self, other: &CompilerVersionData) -> (r: Ordering)
        ensures
            r == recency_order(*self, *other),
    {
        let by_channel = self.channel.compare(&other.channel);
        if !matches!(by_channel, Ordering::Equal) {
            return by_channel;
        }
        match (self.release_date(), other.release_date()) {
            (Some(a), Some(b)) => a.compare(&b),
            _ => Ordering::Equal,
        }
    }
}

impl FeatureData {
    /// `since v` and the stabilizing version, or `unstable` where there is
    /// none.
    pub fn subtitle(&self) -> (r: String)
        ensures
            r@ == match self.version_number {
                Some(v) => "since v"@ + v@,
                None => "unstable"@,
            },
    {
        let mut s = String::new();
        match &self.version_number {
            Some(v) => {
                s.append("since v");
                s.append(v.as_str());
            },
            None => {
                s.append("unstable");
            },
        }
        s
    }

    /// The feature's page under `base_url`: `<base_url>/features/<slug>`.
    pub fn page_url(&self, base_url: &str) -> (r: String)
        ensures
            r@ == base_url@ + "/features/"@ + self.slug@,
    {
        let mut s = String::new();
        s.append(base_url);
        s.append("/features/");
        s.append(self.slug.as_str());
        s
    }

    /// The address of the feature's documentation, where there is one.
    pub fn doc_url(&self) -> (r: Option<String>)
        ensures
            r is Some <==> self.doc_path is Some,
            r matches Some(url) ==> url@ == DOCS_ROOT@ + self.doc_path->0@,
    {
        match &self.doc_path {
            Some(path) => {
                let mut url = String::new();
                url.append(DOCS_ROOT);
                url.append(path.as_str());
                Some(url)
            },
            None => None,
        }
    }

    /// The text shown enlarged: the items, one per line, or a single space
    /// where there are none.
    pub fn large_text(&self) -> (r: String)
        ensures
            r@ == if self.items@.len() == 0 {
                " "@
            } else {
                joined_lines(self.items@)
            },
    {
        let mut s = String::new();
        if self.items.len() == 0 {
            s.append(" ");
            return s;
        }
        let mut k: usize = 0;
        while k < self.items.len()
            invariant
                k <= self.items@.len(),
                s@ == joined_lines(self.items@.subrange(0, k as int)),
            decreases self.items@.len() - k,
        {
            let ghost sub = self.items@.subrange(0, k + 1);
            assert(sub.drop_last() =~= self.items@.subrange(0, k as int));
            if k > 0 {
                s.append("\n");
            }
            s.append(self.items[k].as_str());
            proof {
                if k == 0 {
                    assert(s@ =~= sub[0]@);
                } else {
                    assert(s@ =~= joined_lines(sub.drop_last()) + "\n"@ + sub.last()@);
                }
            }
            k = k + 1;
        }
        assert(self.items@.subrange(0, self.items@.len() as int) =~= self.items@);
        s
    }
}

} // verus!
