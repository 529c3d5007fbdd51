use vstd::prelude::*;

use crate::dom::{dom_elements, fits_parser, page_fits};
use crate::inspect::{
    any_holds, canonical_text, get_canonical, has_amp, has_google_analytics, has_schema_markup,
    has_search_console, indexed_in, is_indexed, is_responsive, regex_search, analytics_pattern,
    Probe,
};
use crate::links::{
    anchor_hrefs, broken_of, get_broken_links, hrefs_of, links_view, resolve_links, resolved_links,
    strings_view, urls_of,
};
use crate::robots::{is_valid_robots_txt, robots_valid};

verus! {

/// How fast a page loaded.
#[derive(Clone, Copy, Debug, PartialEq, Eq, Structural)]
pub enum LoadBand {
    Good,
    Moderate,
    Poor,
}

/// Under 2000 ms is good, under 4000 ms moderate, anything slower poor.
pub open spec fn band_of(ms: int) -> LoadBand {
    if ms < 2000 {
        LoadBand::Good
    } else if ms < 4000 {
        LoadBand::Moderate
    } else {
        LoadBand::Poor
    }
}

/// The word that reports a band.
pub open spec fn band_label(b: LoadBand) -> Seq<char> {
    match b {
        LoadBand::Good => "Good"@,
        LoadBand::Moderate => "Moderate"@,
        LoadBand::Poor => "Poor"@,
    }
}

/// The letter grade of a band.
pub open spec fn band_grade(b: LoadBand) -> Seq<char> {
    match b {
        LoadBand::Good => "A"@,
        LoadBand::Moderate => "B"@,
        LoadBand::Poor => "C"@,
    }
}

/// The band of a load time of `ms` milliseconds.
pub fn load_band(ms: u128) -> (r: LoadBand)
    ensures
        r == band_of(ms as int),
{
    if ms < 2000 {
        LoadBand::Good
    } else if ms < 4000 {
        LoadBand::Moderate
    } else {
        LoadBand::Poor
    }
}

impl LoadBand {
    /// "Good", "Moderate" or "Poor".
    pub fn label(&self) -> (r: &'static str)
        ensures
            r@ == band_label(*self),
    {
        match self {
            LoadBand::Good => "Good",
            LoadBand::Moderate => "Moderate",
            LoadBand::Poor => "Poor",
        }
    }

    /// "A", "B" or "C".
    pub fn grade(&self) -> (r: &'static str)
        ensures
            r@ == band_grade(*self),
    {
        match self {
            LoadBand::Good => "A",
            LoadBand::Moderate => "B",
            LoadBand::Poor => "C",
        }
    }
}

/// A load time and its band, as reported for one device class.
#[derive(Clone, Copy, Debug, PartialEq, Eq, Structural)]
pub struct DeviceLoad {
    pub millis: u128,
    pub band: LoadBand,
}

/// The load times reported for each device class, and the overall grade.
/// One measurement stands for all three classes.
#[derive(Clone, Copy, Debug, PartialEq, Eq, Structural)]
pub struct LoadTimes {
    pub desktop: DeviceLoad,
    pub mobile: DeviceLoad,
    pub tablet: DeviceLoad,
    pub grade: LoadBand,
}

/// The report of one measured latency of `ms` milliseconds.
pub open spec fn load_times_spec(ms: u128) -> LoadTimes {
    LoadTimes {
        desktop: DeviceLoad { millis: ms, band: band_of(ms as int) },
        mobile: DeviceLoad { millis: ms, band: band_of(ms as int) },
        tablet: DeviceLoad { millis: ms, band: band_of(ms as int) },
        grade: band_of(ms as int),
    }
}

/// Bands one measured latency and gives it to every device class.
pub fn load_times(ms: u128) -> (r: LoadTimes)
    ensures
        r == load_times_spec(ms),
        r.desktop == r.mobile && r.mobile == r.tablet,
{
    let band = load_band(ms);
    let d = DeviceLoad { millis: ms, band };
    LoadTimes { desktop: d, mobile: d, tablet: d, grade: band }
}

/// The state of a site's robots.txt.
#[derive(Clone, Copy, Debug, PartialEq, Eq, Structural)]
pub enum RobotsStatus {
    Valid,
    Invalid,
    NotFound,
}

/// A body that was fetched is valid or invalid; none is not found.
pub open spec fn robots_status_of(body: Option<Seq<char>>) -> RobotsStatus {
    match body {
        Some(b) => if robots_valid(b) {
            RobotsStatus::Valid
        } else {
            RobotsStatus::Invalid
        },
        None => RobotsStatus::NotFound,
    }
}

/// The status of a robots.txt body, or of its absence.
pub fn robots_status(body: &Option<String>) -> (r: RobotsStatus)
    ensures
        r == robots_status_of(
            match body {
                Some(b) => Some(b@),
                None => None,
            },
        ),
{
    match body {
        Some(b) => if is_valid_robots_txt(b.as_str()) {
            RobotsStatus::Valid
        } else {
            RobotsStatus::Invalid
        },
        None => RobotsStatus::NotFound,
    }
}

impl RobotsStatus {
    /// "Valid", "Invalid" or "Not Found".
    pub fn label(&self) -> (r: &'static str)
        ensures
            r@ == (match *self {
                RobotsStatus::Valid => "Valid"@,
                RobotsStatus::Invalid => "Invalid"@,
                RobotsStatus::NotFound => "Not Found"@,
            }),
    {
        match self {
            RobotsStatus::Valid => "Valid",
            RobotsStatus::Invalid => "Invalid",
            RobotsStatus::NotFound => "Not Found",
        }
    }
}

/// "Found" or "Not Found".
pub fn found_label(found: bool) -> (r: &'static str)
    ensures
        r@ == (if found {
            "Found"@
        } else {
            "Not Found"@
        }),
{
    if found {
        "Found"
    } else {
        "Not Found"
    }
}

/// Everything reported of a page that could be fetched.
pub struct SiteReport {
    pub schema_markup: bool,
    pub robots_txt: Option<String>,
    pub robots_status: RobotsStatus,
    pub sitemap_found: bool,
    pub canonical: String,
    pub amp: bool,
    pub responsive: bool,
    pub analytics: bool,
    pub search_console: bool,
    pub broken_links: Vec<String>,
    pub broken_link_pages: Vec<String>,
    /// The page's URL when it may be indexed, else empty.
    pub index_page: String,
    /// The page's URL when it may not be indexed, else empty.
    pub non_index_page: String,
    /// `None` when the latency could not be measured.
    pub load: Option<LoadTimes>,
}

impl SiteReport {
    /// "Present" when a search-console verification tag was found, else "Absent".
    pub fn search_console_status(&self) -> (r: &'static str)
        ensures
            r@ == (if self.search_console {
                "Present"@
            } else {
                "Absent"@
            }),
    {
        if self.search_console {
            "Present"
        } else {
            "Absent"
        }
    }
}

/// The outcome of inspecting a site.
pub enum Analysis {
    /// The page itself could not be fetched; nothing else is reported.
    Failed,
    Details(SiteReport),
}

/// The one message reported when the page could not be fetched.
pub fn error_message() -> (r: &'static str)
    ensures
        r@ == "Failed to retrieve website content"@,
{
    "Failed to retrieve website content"
}

/// What is reported of the page at `url`, with body `html`, given what the
/// other requests brought back.
pub open spec fn report_holds(
    d: SiteReport,
    url: Seq<char>,
    html: Seq<char>,
    robots_txt: Option<String>,
    sitemap_found: bool,
    links: Seq<(Seq<char>, Seq<char>)>,
    reachable: Seq<bool>,
    load_ms: Option<u128>,
) -> bool {
    let els = dom_elements(html);
    &&& d.schema_markup == any_holds(els, Probe::Schema)
    &&& d.robots_txt == robots_txt
    &&& d.robots_status == robots_status_of(
        match robots_txt {
            Some(b) => Some(b@),
            None => None,
        },
    )
    &&& d.sitemap_found == sitemap_found
    &&& d.canonical@ == canonical_text(els)
    &&& d.amp == any_holds(els, Probe::Amp)
    &&& d.responsive == any_holds(els, Probe::Viewport)
    &&& d.analytics == (regex_search(analytics_pattern(), html) == Some(true))
    &&& d.search_console == any_holds(els, Probe::SiteVerification)
    &&& strings_view(d.broken_links@) == urls_of(broken_of(links, reachable))
    &&& strings_view(d.broken_link_pages@) == hrefs_of(broken_of(links, reachable))
    &&& d.index_page@ == (if indexed_in(els) {
        url
    } else {
        Seq::empty()
    })
    &&& d.non_index_page@ == (if indexed_in(els) {
        Seq::empty()
    } else {
        url
    })
    &&& d.load == (match load_ms {
        Some(ms) => Some(load_times_spec(ms)),
        None => None,
    })
}

/// What the analysis of the site at `url` reports, given the fetched `page`
/// and the other requests' outcomes: failure exactly when the page could not be
/// fetched, else the report of that page, whose links are the page's own.
pub open spec fn analysis_holds(
    r: Analysis,
    url: Seq<char>,
    page: Option<Seq<char>>,
    robots_txt: Option<String>,
    sitemap_found: bool,
    reachable: Seq<bool>,
    load_ms: Option<u128>,
) -> bool {
    match r {
        Analysis::Failed => page is None,
        Analysis::Details(d) => page matches Some(html) && report_holds(
            d,
            url,
            html,
            robots_txt,
            sitemap_found,
            resolved_links(url, anchor_hrefs(dom_elements(html))),
            reachable,
            load_ms,
        ),
    }
}

/// The view of an optional page body.
pub open spec fn page_view(page: Option<&str>) -> Option<Seq<char>> {
    match page {
        Some(h) => Some(h@),
        None => None,
    }
}

/// Assembles the report of the site at `url`. `page` is the fetched body of
/// the page, `None` when fetching it failed; `robots_txt` the body of
/// `/robots.txt`, if it could be fetched; `reachable[i]` whether the probe of
/// the page's `i`-th link (see `resolve_links`) got an answer; `load_ms` the
/// measured latency, if any.
pub fn get_website_details(
    url: &str,
    page: Option<&str>,
    robots_txt: Option<String>,
    sitemap_found: bool,
    reachable: &Vec<bool>,
    load_ms: Option<u128>,
) -> (r: Analysis)
    requires
        page matches Some(h) ==> page_fits(h@) && reachable@.len() == anchor_hrefs(
            dom_elements(h@),
        ).len(),
    ensures
        analysis_holds(r, url@, page_view(page), robots_txt, sitemap_found, reachable@, load_ms),
{
    let html = match page {
        Some(h) => h,
        None => {
            return Analysis::Failed;
        },
    };
    let links = resolve_links(html, url);
    assert(links_view(links@).len() == links@.len());
    let status = robots_status(&robots_txt);
    let (broken_links, broken_link_pages) = get_broken_links(&links, reachable);
    let indexed = is_indexed(html);
    let d = SiteReport {
        schema_markup: has_schema_markup(html),
        robots_txt,
        robots_status: status,
        sitemap_found,
        canonical: get_canonical(html),
        amp: has_amp(html),
        responsive: is_responsive(html),
        analytics: has_google_analytics(html),
        search_console: has_search_console(html),
        broken_links,
        broken_link_pages,
        index_page: if indexed {
            String::from_str(url)
        } else {
            String::new()
        },
        non_index_page: if indexed {
            String::new()
        } else {
            String::from_str(url)
        },
        load: match load_ms {
            Some(ms) => Some(load_times(ms)),
            None => None,
        },
    };
    Analysis::Details(d)
}

/// As `get_website_details`, but first tests what it requires: `None` when the
/// page is more than the parser can take (see `page_fits`) or `reachable` does not hold
/// one outcome for each of the page's links.
pub fn checked_website_details(
    url: &str,
    page: Option<&str>,
    robots_txt: Option<String>,
    sitemap_found: bool,
    reachable: &Vec<bool>,
    load_ms: Option<u128>,
) -> (r: Option<Analysis>)
    ensures
        match r {
            None => page matches Some(h) && (!page_fits(h@) || reachable@.len()
                != anchor_hrefs(dom_elements(h@)).len()),
            Some(a) => analysis_holds(
                a,
                url@,
                page_view(page),
                robots_txt,
                sitemap_found,
                reachable@,
                load_ms,
            ),
        },
{
    match page {
        Some(h) => {
            if !fits_parser(h) {
                return None;
            }
            let links = resolve_links(h, url);
            if links.len() != reachable.len() {
                proof {
                    assert(links_view(links@).len() == links@.len());
                }
                return None;
            }
            proof {
                assert(links_view(links@).len() == links@.len());
            }
        },
        None => {},
    }
    Some(get_website_details(url, page, robots_txt, sitemap_found, reachable, load_ms))
}

} // verus!
