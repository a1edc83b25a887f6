//! Pages of the dashboard.
use vstd::prelude::*;

verus! {

#[derive(Debug, Clone, Copy, PartialEq, Eq, Structural)]
pub enum ViewPage {
    Overview,
    Processes,
    Network,
    Storage,
}

impl ViewPage {
    /// The page's title.
    pub fn title(&self) -> (r: &'static str)
        ensures
            r@ == match *self {
                ViewPage::Overview => "Overview"@,
                ViewPage::Processes => "Processes"@,
                ViewPage::Network => "Network"@,
                ViewPage::Storage => "Storage"@,
            },
    {
        match self {
            ViewPage::Overview => "Overview",
            ViewPage::Processes => "Processes",
            ViewPage::Network => "Network",
            ViewPage::Storage => "Storage",
        }
    }
}

} // verus!
