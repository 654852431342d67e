use fift_host::fs::{FileProvider, FsError, Resolver};

struct MapProvider {
    files: Vec<(String, Vec<u8>)>,
    fail_reads: bool,
}

impl MapProvider {
    fn empty() -> Self {
        MapProvider { files: Vec::new(), fail_reads: false }
    }

    fn with(files: &[(&str, &[u8])]) -> Self {
        MapProvider {
            files: files.iter().map(|(n, c)| (n.to_string(), c.to_vec())).collect(),
            fail_reads: false,
        }
    }
}

impl FileProvider for MapProvider {
    fn file_exists(&self, name: &str) -> bool {
        self.files.iter().any(|(n, _)| n == name)
    }

    fn read(&self, name: &str) -> Result<Vec<u8>, String> {
        if self.fail_reads {
            return Err("provider failure".to_string());
        }
        self.files
            .iter()
            .find(|(n, _)| n == name)
            .map(|(_, c)| c.clone())
            .ok_or_else(|| "missing".to_string())
    }
}

#[test]
fn embedded_tier_answers_when_alone() {
    let r = Resolver::new(MapProvider::empty());
    assert!(r.file_exists("Fift.fif"));
    let got = r.read_file("Fift.fif").expect("embedded file resolves");
    let expected = fift_libs::all().get("Fift.fif").expect("base library is embedded");
    assert_eq!(got, expected.as_bytes());
}

#[test]
fn session_tier_wins_over_embedded() {
    let mut r = Resolver::new(MapProvider::empty());
    let embedded = fift_libs::all().get("Fift.fif").unwrap().as_bytes().to_vec();
    assert_eq!(r.read_file("Fift.fif").unwrap(), embedded);
    r.write_file("Fift.fif", b"session wins");
    assert_eq!(r.read_file("Fift.fif").unwrap(), b"session wins");
    assert!(r.file_exists("Fift.fif"));
}

#[test]
fn external_tier_wins_over_embedded() {
    let r = Resolver::new(MapProvider::with(&[("Fift.fif", b"external copy")]));
    assert_eq!(r.read_file("Fift.fif").unwrap(), b"external copy");
}

#[test]
fn session_tier_wins_over_external() {
    let mut r = Resolver::new(MapProvider::with(&[("a.fif", b"external")]));
    r.write_file("a.fif", b"session");
    assert_eq!(r.read_file("a.fif").unwrap(), b"session");
}

#[test]
fn write_then_read_round_trip() {
    let mut r = Resolver::new(MapProvider::empty());
    let bytes: Vec<u8> = vec![0, 1, 2, 250, 255];
    r.write_file("blob.bin", &bytes);
    assert_eq!(r.read_file("blob.bin").unwrap(), bytes);
}

#[test]
fn later_write_supersedes_earlier() {
    let mut r = Resolver::new(MapProvider::empty());
    r.write_file("f", b"one");
    r.write_file("f", b"two");
    assert_eq!(r.read_file("f").unwrap(), b"two");
    r.write_file("g", b"other");
    assert_eq!(r.read_file("f").unwrap(), b"two");
}

#[test]
fn read_missing_name_is_not_found() {
    let r = Resolver::new(MapProvider::empty());
    assert!(!r.file_exists("no-such-file"));
    assert!(matches!(r.read_file("no-such-file"), Err(FsError::NotFound)));
}

#[test]
fn provider_failure_is_wrapped() {
    let mut p = MapProvider::with(&[("ext.fif", b"irrelevant")]);
    p.fail_reads = true;
    let r = Resolver::new(p);
    match r.read_file("ext.fif") {
        Err(FsError::External(m)) => assert_eq!(m, "provider failure"),
        other => panic!("expected a wrapped provider failure, got {other:?}"),
    }
}

#[test]
fn ranged_read_exact_slice() {
    let mut r = Resolver::new(MapProvider::empty());
    r.write_file("f", b"abcdef");
    assert_eq!(r.read_file_part("f", 0, 6).unwrap(), b"abcdef");
    assert_eq!(r.read_file_part("f", 2, 3).unwrap(), b"cde");
    assert_eq!(r.read_file_part("f", 5, 1).unwrap(), b"f");
}

#[test]
fn ranged_read_out_of_range() {
    let mut r = Resolver::new(MapProvider::empty());
    r.write_file("f", b"abcdef");
    assert!(matches!(r.read_file_part("f", 6, 0), Err(FsError::OutOfRange)));
    assert!(matches!(r.read_file_part("f", 6, 1), Err(FsError::OutOfRange)));
    assert!(matches!(r.read_file_part("f", 0, 7), Err(FsError::OutOfRange)));
    assert!(matches!(r.read_file_part("f", 5, 2), Err(FsError::OutOfRange)));
    assert!(matches!(r.read_file_part("f", 100, 0), Err(FsError::OutOfRange)));
}

#[test]
fn ranged_read_missing_name_is_not_found() {
    let r = Resolver::new(MapProvider::empty());
    assert!(matches!(r.read_file_part("absent", 0, 0), Err(FsError::NotFound)));
}

#[test]
fn open_block_unknown_name_is_not_found() {
    let r = Resolver::new(MapProvider::empty());
    match r.open_block("unknown-everywhere") {
        Err(FsError::NotFound) => {}
        Err(FsError::OutOfRange) => panic!("wrong error kind: out of range"),
        Err(FsError::External(m)) => panic!("wrong error kind: external {m}"),
        Ok(_) => panic!("unknown name must not resolve"),
    }
}

#[test]
fn open_block_snapshots_content() {
    let mut r = Resolver::new(MapProvider::empty());
    r.write_file("s.fif", b"first");
    let block = r.open_block("s.fif").unwrap();
    r.write_file("s.fif", b"second");
    assert_eq!(block.name, "s.fif");
    assert_eq!(block.content, b"first");
    assert_eq!(r.read_file("s.fif").unwrap(), b"second");
}

#[test]
fn env_vars_are_never_exposed() {
    let r = Resolver::new(MapProvider::empty());
    assert!(r.get_env("PATH").is_none());
    assert!(r.get_env("HOME").is_none());
    assert!(r.get_env("").is_none());
}

#[test]
fn empty_write_round_trip() {
    let mut r = Resolver::new(MapProvider::empty());
    r.write_file("empty", b"");
    assert!(r.file_exists("empty"));
    assert_eq!(r.read_file("empty").unwrap(), b"");
    // Any ranged read of empty content is out of range.
    assert!(matches!(r.read_file_part("empty", 0, 0), Err(FsError::OutOfRange)));
}

#[test]
fn ranged_reads_exhaustive_over_small_content() {
    let mut r = Resolver::new(MapProvider::empty());
    let content = b"hello";
    r.write_file("f", content);
    for offset in 0..8u64 {
        for len in 0..8u64 {
            let got = r.read_file_part("f", offset, len);
            let in_range = offset < content.len() as u64 && offset + len <= content.len() as u64;
            if in_range {
                let expected = &content[offset as usize..(offset + len) as usize];
                assert_eq!(got.unwrap(), expected, "offset {offset} len {len}");
            } else {
                assert!(
                    matches!(got, Err(FsError::OutOfRange)),
                    "offset {offset} len {len} must be out of range"
                );
            }
        }
    }
}

#[test]
fn ranged_read_of_embedded_content() {
    let r = Resolver::new(MapProvider::empty());
    let embedded = fift_libs::all().get("Lists.fif").unwrap().as_bytes();
    let got = r.read_file_part("Lists.fif", 2, 10).unwrap();
    assert_eq!(got, &embedded[2..12]);
}

#[test]
fn open_block_prefers_session_content() {
    let mut r = Resolver::new(MapProvider::with(&[("s.fif", b"external")]));
    r.write_file("s.fif", b"session");
    let block = r.open_block("s.fif").unwrap();
    assert_eq!(block.name, "s.fif");
    assert_eq!(block.content, b"session");
}

#[test]
fn file_exists_sees_provider_names() {
    let r = Resolver::new(MapProvider::with(&[("only-external", b"x")]));
    assert!(r.file_exists("only-external"));
    assert!(!r.file_exists("nowhere"));
}
