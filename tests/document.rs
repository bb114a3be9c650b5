use kev_push::document::ParseError;
use kev_push::model::{Kev, Vulnerability};

fn entry(cve: &str, notes: &str) -> Vulnerability {
    Vulnerability {
        cve_id: cve.to_string(),
        vendor_project: "Acme".to_string(),
        product: "Widget".to_string(),
        vulnerability_name: "Widget Remote Code Execution".to_string(),
        date_added: "2024-02-15".to_string(),
        short_description: "Widget allows remote code execution.".to_string(),
        required_action: "Apply mitigations per vendor instructions.".to_string(),
        due_date: "2024-03-07".to_string(),
        notes: notes.to_string(),
    }
}

const SAMPLE: &str = r#"{
    "title": "CISA Catalog of Known Exploited Vulnerabilities",
    "catalogVersion": "2024.02.15",
    "dateReleased": "2024-02-15T17:00:00.0000Z",
    "count": 1,
    "vulnerabilities": [
        {
            "cveID": "CVE-2024-0001",
            "vendorProject": "Acme",
            "product": "Widget",
            "vulnerabilityName": "Widget Remote Code Execution",
            "dateAdded": "2024-02-15",
            "shortDescription": "Widget allows remote code execution.",
            "requiredAction": "Apply mitigations per vendor instructions.",
            "dueDate": "2024-03-07",
            "notes": "",
            "knownRansomwareCampaignUse": "Unknown"
        }
    ]
}"#;

#[test]
fn parses_catalog_document() {
    let doc = Kev::parse(SAMPLE.as_bytes()).unwrap();
    assert_eq!(doc.title, "CISA Catalog of Known Exploited Vulnerabilities");
    assert_eq!(doc.catalog_version, Some("2024.02.15".to_string()));
    assert_eq!(doc.date_released, "2024-02-15T17:00:00.0000Z");
    assert_eq!(doc.count, Some(1));
    assert_eq!(doc.vulnerabilities, Some(vec![entry("CVE-2024-0001", "")]));
}

#[test]
fn missing_optional_members_are_absent() {
    let doc = Kev::parse(br#"{"title": "T", "dateReleased": "2024-01-01"}"#).unwrap();
    assert_eq!(doc.title, "T");
    assert_eq!(doc.date_released, "2024-01-01");
    assert_eq!(doc.catalog_version, None);
    assert_eq!(doc.count, None);
    assert_eq!(doc.vulnerabilities, None);
}

#[test]
fn null_optional_members_are_absent() {
    let doc = Kev::parse(
        br#"{"title": "T", "catalogVersion": null, "dateReleased": "d", "count": null, "vulnerabilities": null}"#,
    )
    .unwrap();
    assert_eq!(doc.catalog_version, None);
    assert_eq!(doc.count, None);
    assert_eq!(doc.vulnerabilities, None);
}

#[test]
fn empty_optional_members_are_present() {
    let doc = Kev::parse(
        br#"{"title": "", "catalogVersion": "", "dateReleased": "", "count": 0, "vulnerabilities": []}"#,
    )
    .unwrap();
    assert_eq!(doc.title, "");
    assert_eq!(doc.catalog_version, Some(String::new()));
    assert_eq!(doc.count, Some(0));
    assert_eq!(doc.vulnerabilities, Some(vec![]));
}

#[test]
fn malformed_bytes_are_not_json() {
    assert_eq!(Kev::parse(b"{\"title\": "), Err(ParseError::NotJson));
    assert_eq!(Kev::parse(b""), Err(ParseError::NotJson));
}

#[test]
fn missing_required_members_are_rejected() {
    assert_eq!(Kev::parse(br#"{"dateReleased": "d"}"#), Err(ParseError::NotCatalog));
    assert_eq!(Kev::parse(br#"{"title": "T"}"#), Err(ParseError::NotCatalog));
    assert_eq!(Kev::parse(b"[1, 2]"), Err(ParseError::NotCatalog));
}

#[test]
fn members_of_the_wrong_kind_are_rejected() {
    assert_eq!(
        Kev::parse(br#"{"title": "T", "dateReleased": 20240101}"#),
        Err(ParseError::NotCatalog)
    );
    assert_eq!(
        Kev::parse(br#"{"title": "T", "dateReleased": "d", "count": "3"}"#),
        Err(ParseError::NotCatalog)
    );
    assert_eq!(
        Kev::parse(br#"{"title": "T", "dateReleased": "d", "count": 1.5}"#),
        Err(ParseError::NotCatalog)
    );
    assert_eq!(
        Kev::parse(br#"{"title": "T", "dateReleased": "d", "vulnerabilities": [{"cveID": "x"}]}"#),
        Err(ParseError::NotCatalog)
    );
}

#[test]
fn serialized_document_parses_back() {
    let doc = Kev {
        title: "CISA Catalog".to_string(),
        catalog_version: Some(String::new()),
        date_released: "2024-02-15".to_string(),
        count: Some(-3),
        vulnerabilities: Some(vec![entry("CVE-2024-0001", ""), entry("CVE-2024-0002", "n")]),
    };
    let bytes = doc.serialize().unwrap();
    assert_eq!(Kev::parse(&bytes).unwrap(), doc);

    let bare = Kev {
        title: String::new(),
        catalog_version: None,
        date_released: String::new(),
        count: None,
        vulnerabilities: None,
    };
    let bytes = bare.serialize().unwrap();
    assert_eq!(Kev::parse(&bytes).unwrap(), bare);
}

#[test]
fn serialized_document_is_pretty_json_with_catalog_keys() {
    let doc = Kev {
        title: "T".to_string(),
        catalog_version: None,
        date_released: "2024-02-15".to_string(),
        count: Some(7),
        vulnerabilities: None,
    };
    let text = String::from_utf8(doc.serialize().unwrap()).unwrap();
    assert!(text.contains('\n'));
    let value: serde_json::Value = serde_json::from_str(&text).unwrap();
    assert_eq!(value.get("title").and_then(|v| v.as_str()), Some("T"));
    assert_eq!(value.get("dateReleased").and_then(|v| v.as_str()), Some("2024-02-15"));
    assert_eq!(value.get("count").and_then(|v| v.as_i64()), Some(7));
    assert!(value.get("catalogVersion").unwrap().is_null());
    assert!(value.get("vulnerabilities").unwrap().is_null());
}

#[test]
fn serializing_twice_gives_the_same_bytes() {
    let doc = Kev::parse(SAMPLE.as_bytes()).unwrap();
    assert_eq!(doc.serialize(), doc.serialize());
}

#[test]
fn entry_value_reads_back() {
    let e = entry("CVE-2023-9999", "see advisory");
    assert_eq!(Vulnerability::from_value(&e.to_value()), Some(e));
}
