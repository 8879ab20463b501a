use quickemu_catalog::catalog::{Key, ListEntry, ListStatus, Metadata, Value};
use quickemu_catalog::download::{download_redirect, download_redirect_found, DownloadParameters};
use quickemu_catalog::listing::{list, list_found, ListParameters};
use quickemu_catalog::reply::Reply;

/// A store in memory: keys with their metadata and values, in scan order.
struct Store {
    rows: Vec<(Key, Value)>,
}

impl Store {
    fn scan(&self, prefix: &str) -> Vec<Key> {
        self.rows.iter().filter(|(k, _)| k.name.starts_with(prefix)).map(|(k, _)| k.clone()).collect()
    }

    fn get(&self, key: &str) -> Option<Value> {
        self.rows.iter().find(|(k, _)| k.name == key).map(|(_, v)| v.clone())
    }

    fn serve_list(&self, os: Option<&str>) -> Reply {
        let params = os.map(|os| ListParameters { os: String::from(os) });
        match list(params) {
            Ok(scan) => list_found(&scan.os, Some(self.scan(&scan.prefix))),
            Err(reply) => reply,
        }
    }

    fn serve_download(&self, query: Option<(&str, &str)>) -> Reply {
        let params = query
            .map(|(os, denom)| DownloadParameters { os: String::from(os), denom: String::from(denom) });
        match download_redirect(params) {
            Ok(key) => download_redirect_found(self.get(&key)),
            Err(reply) => reply,
        }
    }
}

fn ubuntu(value: Value) -> Store {
    let metadata = Metadata {
        release: String::from("22.04"),
        arch: String::from("x86_64"),
        edition: None,
        filename: Some(String::from("ubuntu.img")),
        checksum: None,
        error: None,
    };
    let key = Key { name: String::from("linux-ubuntu22"), metadata: Some(metadata) };
    Store { rows: vec![(key, value)] }
}

fn ubuntu_success() -> Store {
    ubuntu(Value::Success { url: String::from("https://example.com/ubuntu.img") })
}

fn refused(message: &str) -> Reply {
    Reply::Error { status: 400, message: String::from(message) }
}

#[test]
fn stored_success_lists_and_redirects() {
    let store = ubuntu_success();
    assert_eq!(
        store.serve_list(Some("linux")),
        Reply::Listing {
            entries: vec![ListEntry {
                release: String::from("22.04"),
                edition: None,
                arch: String::from("x86_64"),
                status: ListStatus::Valid {
                    url: String::from("./downloadRedirect?os=linux&denom=ubuntu22"),
                    filename: String::from("ubuntu.img"),
                    checksum: None,
                },
            }],
        }
    );
    assert_eq!(
        store.serve_download(Some(("linux", "ubuntu22"))),
        Reply::Redirect { location: String::from("https://example.com/ubuntu.img") }
    );
}

#[test]
fn stored_failure_is_reported() {
    let store = ubuntu(Value::Failure { error: String::from("mirror unavailable") });
    let reply = store.serve_download(Some(("linux", "ubuntu22")));
    assert_eq!(reply.status(), 400);
    assert_eq!(reply, refused("mirror unavailable"));
}

#[test]
fn other_os_has_no_values() {
    let store = ubuntu_success();
    assert_eq!(store.serve_list(Some("windows")), refused("No values for selected OS"));
    assert_eq!(store.serve_list(Some("lin")), refused("No values for selected OS"));
}

#[test]
fn other_image_has_no_match() {
    let store = ubuntu_success();
    assert_eq!(
        store.serve_download(Some(("linux", "ubuntu24"))),
        refused("Could not find a matching entry")
    );
    assert_eq!(
        store.serve_download(Some(("linux-ubuntu22", "x"))),
        refused("Could not find a matching entry")
    );
}

#[test]
fn missing_query_never_reaches_the_store() {
    let store = ubuntu_success();
    assert_eq!(store.serve_list(None), refused("Bad Request"));
    assert_eq!(store.serve_download(None), refused("Bad Request"));
    assert!(list(None).is_err());
    assert!(download_redirect(None).is_err());
}

#[test]
fn every_listed_link_resolves_to_its_own_value() {
    let meta = |release: &str| Metadata {
        release: String::from(release),
        arch: String::from("x86_64"),
        edition: None,
        filename: None,
        checksum: None,
        error: None,
    };
    let row = |name: &str, release: &str, url: &str| {
        (
            Key { name: String::from(name), metadata: Some(meta(release)) },
            Value::Success { url: String::from(url) },
        )
    };
    let store = Store {
        rows: vec![
            row("linux-ubuntu22", "22.04", "https://example.com/ubuntu22.img"),
            row("linux-ubuntu-24", "24.04", "https://example.com/ubuntu24.img"),
            row("linux-fedora40", "40", "https://example.org/f40.iso"),
        ],
    };
    let entries = match store.serve_list(Some("linux")) {
        Reply::Listing { entries } => entries,
        other => panic!("expected a listing, got {:?}", other),
    };
    assert_eq!(entries.len(), 3);
    for (entry, (_, value)) in entries.iter().zip(store.rows.iter()) {
        let url = match &entry.status {
            ListStatus::Valid { url, .. } => url,
            ListStatus::Error { .. } => panic!("a key without an error is valid"),
        };
        let query = url.strip_prefix("./downloadRedirect?os=").unwrap();
        let (os, denom) = query.split_once("&denom=").unwrap();
        let expected = match value {
            Value::Success { url } => Reply::Redirect { location: url.clone() },
            Value::Failure { error } => refused(error),
        };
        assert_eq!(store.serve_download(Some((os, denom))), expected);
    }
}
