use vstd::prelude::*;

verus! {

/// One detected browser installation.
///
/// An empty `driver_path` or `browser_path` means "not found"; `version` is
/// reserved and currently always empty.
#[derive(Clone, Debug, PartialEq, Eq)]
pub struct Browser {
    pub name: String,
    pub driver_path: String,
    pub browser_path: String,
    pub version: String,
}

/// The mathematical value of a [`Browser`]: its four fields as character sequences.
pub ghost struct BrowserView {
    pub name: Seq<char>,
    pub driver_path: Seq<char>,
    pub browser_path: Seq<char>,
    pub version: Seq<char>,
}

impl View for Browser {
    type V = BrowserView;

    open spec fn view(&self) -> BrowserView {
        BrowserView {
            name: self.name@,
            driver_path: self.driver_path@,
            browser_path: self.browser_path@,
            version: self.version@,
        }
    }
}

impl Browser {
    /// Builds a record from its four fields.
    pub fn new(name: String, driver_path: String, browser_path: String, version: String) -> (r:
        Browser)
        ensures
            r@ == (BrowserView {
                name: name@,
                driver_path: driver_path@,
                browser_path: browser_path@,
                version: version@,
            }),
    {
        Browser { name, driver_path, browser_path, version }
    }
}

} // verus!
