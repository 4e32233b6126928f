use winter_lily::error::Error;
use winter_lily::search::{
    build_search_cache, directive_keyword, expand_glob, is_preloaded_subsystem,
    module_search_paths, module_search_step, parse_config_line, probe_continues, read_config_file,
    split_glob_pattern, subsystem_env_var, subsystem_module_name, ConfigFs, ConfigLine,
    ModuleChoice, ProbeOutcome, SearchStep, CACHE_SEPARATOR,
};

fn b(s: &str) -> Vec<u8> {
    s.as_bytes().to_vec()
}

fn splice_line(path: &str) -> Vec<u8> {
    let mut l = directive_keyword();
    l.extend_from_slice(path.as_bytes());
    l
}

fn fs(files: Vec<(&str, Vec<Vec<u8>>)>) -> ConfigFs {
    let mut paths = Vec::new();
    let mut contents = Vec::new();
    for (p, lines) in files {
        paths.push(b(p));
        contents.push(lines);
    }
    ConfigFs { paths, contents }
}

#[test]
fn search_cache_roundtrip_scenario() {
    // WL_LIBRARY_PATH=/a:/b plus a config file containing /c and a
    // directive pulling in /other.conf (which contains /d) yields the
    // ordered list /a, /b, /c, /d.
    let env = b("/a:/b");
    let f = fs(vec![
        ("/etc/ld-lilium.so.conf", vec![b("/c"), splice_line("/other.conf")]),
        ("/other.conf", vec![b("/d")]),
    ]);
    let cache = build_search_cache(Some(&env), &f, "/etc/ld-lilium.so.conf".as_bytes(), 8).unwrap();
    assert_eq!(cache, vec![b("/a"), b("/b"), b("/c"), b("/d")]);
}

#[test]
fn config_comments_and_blank_lines_skipped() {
    let f = fs(vec![(
        "/c.conf",
        vec![b("# heading"), b(""), b("   "), b("/one # trailing"), b("  /two  ")],
    )]);
    let mut buf = Vec::new();
    read_config_file(&f, "/c.conf".as_bytes(), &mut buf, 4).unwrap();
    assert_eq!(buf, vec![b("/one"), b("/two")]);
}

#[test]
fn config_missing_file_is_object_not_found() {
    let f = fs(vec![("/c.conf", vec![splice_line("/missing.conf")])]);
    let mut buf = Vec::new();
    let e = read_config_file(&f, "/c.conf".as_bytes(), &mut buf, 4).unwrap_err();
    assert_eq!(e, Error::ObjectNotFound);
    let mut buf = Vec::new();
    let e = read_config_file(&f, "/absent.conf".as_bytes(), &mut buf, 4).unwrap_err();
    assert_eq!(e, Error::ObjectNotFound);
}

#[test]
fn config_self_splice_exhausts_budget() {
    let f = fs(vec![("/loop.conf", vec![splice_line("/loop.conf")])]);
    let mut buf = Vec::new();
    let e = read_config_file(&f, "/loop.conf".as_bytes(), &mut buf, 8).unwrap_err();
    assert_eq!(e, Error::LoadError);
}

#[test]
fn config_star_pattern_reads_matching_files_in_order() {
    let f = fs(vec![
        ("/c.conf", vec![splice_line("/conf.d/*.conf")]),
        ("/conf.d/alpha.conf", vec![b("/p")]),
        ("/conf.d/beta.conf", vec![b("/q")]),
        ("/conf.d/readme.txt", vec![b("/never")]),
    ]);
    let mut buf = Vec::new();
    read_config_file(&f, "/c.conf".as_bytes(), &mut buf, 8).unwrap();
    assert_eq!(buf, vec![b("/p"), b("/q")]);
}

#[test]
fn missing_config_file_contributes_nothing() {
    let env = b("/x");
    let f = fs(vec![]);
    let cache = build_search_cache(Some(&env), &f, "/none.conf".as_bytes(), 4).unwrap();
    assert_eq!(cache, vec![b("/x")]);
    let cache = build_search_cache(None, &f, "/none.conf".as_bytes(), 4).unwrap();
    assert_eq!(cache, Vec::<Vec<u8>>::new());
}

#[test]
fn parse_config_line_classifies() {
    assert!(matches!(parse_config_line(b"  # only a comment"), ConfigLine::Empty));
    assert!(matches!(parse_config_line(b""), ConfigLine::Empty));
    match parse_config_line(&splice_line("/x.conf")) {
        ConfigLine::Splice(p) => assert_eq!(p, b("/x.conf")),
        _ => panic!("expected a splice directive"),
    }
    match parse_config_line(b" /lib64  # system") {
        ConfigLine::PathEntry(p) => assert_eq!(p, b("/lib64")),
        _ => panic!("expected a path entry"),
    }
}

#[test]
fn cache_separator_roundtrip() {
    let items = vec![b("/a"), b("/b/c"), b("")];
    let joined = winter_lily::bytes::join_with(&items, CACHE_SEPARATOR);
    let split = winter_lily::bytes::split_ascii(&joined, CACHE_SEPARATOR);
    assert_eq!(split, items);
}

#[test]
fn glob_pattern_split_and_entry_match() {
    let (dir, pfx, sfx) = split_glob_pattern(b"/conf.d/ld-*.conf");
    assert_eq!(dir, b("/conf.d"));
    assert_eq!(pfx, b("ld-"));
    assert_eq!(sfx, b(".conf"));
    let entries = vec![b("ld-a.conf"), b("other.conf"), b("ld-b.conf"), b("ld-c.txt")];
    let matched = expand_glob(&pfx, &sfx, &entries);
    assert_eq!(matched, vec![b("ld-a.conf"), b("ld-b.conf")]);
}

#[test]
fn module_candidates_in_search_order() {
    let list = vec![b("/lib"), b("/usr/lib")];
    let c = module_search_paths(&list, b"libfoo.so");
    assert_eq!(c, vec![b("/lib/libfoo.so"), b("/usr/lib/libfoo.so")]);
}

#[test]
fn probe_disposition() {
    assert!(probe_continues(2));
    assert!(probe_continues(13));
    assert!(!probe_continues(5));
}

#[test]
fn preloaded_subsystems_never_resolved() {
    assert!(is_preloaded_subsystem(b"libusi-base.so"));
    assert!(is_preloaded_subsystem(b"libusi-thread.so"));
    assert!(is_preloaded_subsystem(b"libusi-io.so"));
    assert!(is_preloaded_subsystem(b"libusi-process.so"));
    assert!(is_preloaded_subsystem(b"libusi-debug.so"));
    assert!(is_preloaded_subsystem(b"libusi-kmgmt.so"));
    assert!(!is_preloaded_subsystem(b"libusi-net.so"));
    assert!(!is_preloaded_subsystem(b"libc.so"));
}

#[test]
fn subsystem_module_resolution() {
    match subsystem_module_name(b"io", Some(&b("/opt/custom.so"))) {
        ModuleChoice::OverridePath(p) => assert_eq!(p, b("/opt/custom.so")),
        _ => panic!("expected a path override"),
    }
    match subsystem_module_name(b"io", Some(&b("libalt.so"))) {
        ModuleChoice::OverrideName(p) => assert_eq!(p, b("libalt.so")),
        _ => panic!("expected a name override"),
    }
    match subsystem_module_name(b"io", None) {
        ModuleChoice::DefaultName(p) => assert_eq!(p, b("libwl-lilium-io.so")),
        _ => panic!("expected the default name"),
    }
    assert_eq!(subsystem_env_var(b"IO"), b("WL_SUBSYS_IO"));
}

#[test]
fn module_search_steps() {
    assert_eq!(module_search_step(ProbeOutcome::Matched), SearchStep::TakeThis);
    assert_eq!(module_search_step(ProbeOutcome::BadClass), SearchStep::TryNext);
    assert_eq!(module_search_step(ProbeOutcome::BadMachine), SearchStep::TryNext);
    assert_eq!(module_search_step(ProbeOutcome::ShortRead), SearchStep::TryNext);
    // A missing or unreadable candidate moves on; any other open failure
    // aborts with the translated host error.
    assert_eq!(module_search_step(ProbeOutcome::OpenFailed(2)), SearchStep::TryNext);
    assert_eq!(module_search_step(ProbeOutcome::OpenFailed(13)), SearchStep::TryNext);
    assert_eq!(
        module_search_step(ProbeOutcome::OpenFailed(4)),
        SearchStep::Fail(Error::Interrupted)
    );
    assert_eq!(
        module_search_step(ProbeOutcome::OpenFailed(99)),
        SearchStep::Fail(Error::Unknown)
    );
}

#[test]
fn glob_pattern_edge_shapes() {
    // No slash in the prefix: the whole prefix is the entry pattern.
    let (dir, pfx, sfx) = split_glob_pattern(b"ld-*.conf");
    assert_eq!(dir, Vec::<u8>::new());
    assert_eq!(pfx, b("ld-"));
    assert_eq!(sfx, b(".conf"));
    // No star: everything before the last slash is the directory and no
    // suffix constrains the match.
    let (dir, pfx, sfx) = split_glob_pattern(b"/etc/conf");
    assert_eq!(dir, b("/etc"));
    assert_eq!(pfx, b("conf"));
    assert_eq!(sfx, Vec::<u8>::new());
}

#[test]
fn directive_keyword_shape() {
    let kw = directive_keyword();
    assert_eq!(kw.len(), 8);
    assert_eq!(kw[7], 0x20);
    assert_eq!(String::from_utf8(kw[..7].to_vec()).unwrap().len(), 7);
}
