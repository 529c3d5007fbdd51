// Inspection of a web page for search-engine signals: structured data,
// robots.txt validity, canonical and AMP markup, viewport, analytics and
// verification tags, indexability, broken links and load-time bands.
pub mod dom;
pub mod inspect;
pub mod links;
pub mod report;
pub mod robots;
pub mod text;
