use vstd::prelude::*;

verus! {

/// One entry of the catalog; carried through without interpretation.
#[derive(Debug, Clone, PartialEq, Eq)]
pub struct Vulnerability {
    pub cve_id: String,
    pub vendor_project: String,
    pub product: String,
    pub vulnerability_name: String,
    pub date_added: String,
    pub short_description: String,
    pub required_action: String,
    pub due_date: String,
    pub notes: String,
}

/// The catalog document. `date_released` is the sole key that tells one
/// release from another; the other fields are informational.
#[derive(Debug, Clone, PartialEq, Eq)]
pub struct Kev {
    pub title: String,
    pub catalog_version: Option<String>,
    pub date_released: String,
    pub count: Option<i64>,
    pub vulnerabilities: Option<Vec<Vulnerability>>,
}

/// What a catalog entry holds, as mathematical values.
pub struct VulnerabilityView {
    pub cve_id: Seq<char>,
    pub vendor_project: Seq<char>,
    pub product: Seq<char>,
    pub vulnerability_name: Seq<char>,
    pub date_added: Seq<char>,
    pub short_description: Seq<char>,
    pub required_action: Seq<char>,
    pub due_date: Seq<char>,
    pub notes: Seq<char>,
}

impl View for Vulnerability {
    type V = VulnerabilityView;

    open spec fn view(&self) -> VulnerabilityView {
        VulnerabilityView {
            cve_id: self.cve_id@,
            vendor_project: self.vendor_project@,
            product: self.product@,
            vulnerability_name: self.vulnerability_name@,
            date_added: self.date_added@,
            short_description: self.short_description@,
            required_action: self.required_action@,
            due_date: self.due_date@,
            notes: self.notes@,
        }
    }
}

/// The views of a sequence of entries.
pub open spec fn entries_view(v: Seq<Vulnerability>) -> Seq<VulnerabilityView> {
    v.map_values(|e: Vulnerability| e@)
}

/// What a catalog document holds, as mathematical values.
pub struct KevView {
    pub title: Seq<char>,
    pub catalog_version: Option<Seq<char>>,
    pub date_released: Seq<char>,
    pub count: Option<i64>,
    pub vulnerabilities: Option<Seq<VulnerabilityView>>,
}

pub open spec fn opt_str_view(s: Option<String>) -> Option<Seq<char>> {
    match s {
        Some(v) => Some(v@),
        None => None,
    }
}

impl View for Kev {
    type V = KevView;

    open spec fn view(&self) -> KevView {
        KevView {
            title: self.title@,
            catalog_version: opt_str_view(self.catalog_version),
            date_released: self.date_released@,
            count: self.count,
            vulnerabilities: match self.vulnerabilities {
                Some(v) => Some(entries_view(v@)),
                None => None,
            },
        }
    }
}

} // verus!
