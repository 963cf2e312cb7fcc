use anyserver::detect::{
    dotnet_installations, dotnet_runtimes_found, first_occurrences, java_runtimes_found,
    runtimes_from_listing,
};
use anyserver::java::java_runtime_from_probe;
use anyserver::sorting::stable_sort;
use anyserver::types::system::{DotnetRuntime, JavaRuntime};
use anyserver::version::str_order;
use std::cmp::Ordering;

fn java(path: &str, major: u32) -> JavaRuntime {
    JavaRuntime {
        path: path.to_string(),
        java_home: String::new(),
        version: format!("{}.0.1", major),
        major_version: major,
        runtime_name: "OpenJDK Runtime Environment".to_string(),
        is_default: false,
    }
}

fn dotnet(name: &str, version: &str, is_default: bool) -> DotnetRuntime {
    DotnetRuntime {
        runtime_name: name.to_string(),
        version: version.to_string(),
        major_version: 0,
        runtime_path: String::new(),
        installation_root: "/usr/share/dotnet".to_string(),
        is_default,
    }
}

#[test]
fn str_order_is_lexicographic() {
    assert_eq!(str_order("abc", "abd"), Ordering::Less);
    assert_eq!(str_order("abc", "ab"), Ordering::Greater);
    assert_eq!(str_order("", ""), Ordering::Equal);
    assert_eq!(str_order("Z", "a"), Ordering::Less);
    assert_eq!(str_order("ab", "ab"), Ordering::Equal);
}

#[test]
fn first_occurrences_skip_missing_and_repeated_keys() {
    let keys = vec![
        Some("/usr/lib/jvm/a/bin/java".to_string()),
        None,
        Some("/usr/lib/jvm/b/bin/java".to_string()),
        Some("/usr/lib/jvm/a/bin/java".to_string()),
        Some("/usr/lib/jvm/c/bin/java".to_string()),
        Some("/usr/lib/jvm/b/bin/java".to_string()),
    ];
    assert_eq!(first_occurrences(&keys), vec![0, 2, 4]);
    assert_eq!(first_occurrences(&Vec::new()), Vec::<usize>::new());
    assert_eq!(first_occurrences(&vec![None, None]), Vec::<usize>::new());
}

#[test]
fn java_runtimes_newest_first_then_path() {
    let found = vec![
        ("/c/java".to_string(), Some(java("/c/java", 17))),
        ("/a/java".to_string(), Some(java("/a/java", 21))),
        ("/x/java".to_string(), None),
        ("/b/java".to_string(), Some(java("/b/java", 17))),
        ("/d/java".to_string(), Some(java("/d/java", 8))),
    ];
    let sorted = java_runtimes_found(found, Some("/c/java".to_string()));
    let paths: Vec<&str> = sorted.iter().map(|r| r.path.as_str()).collect();
    assert_eq!(paths, vec!["/a/java", "/b/java", "/c/java", "/d/java"]);
    let defaults: Vec<bool> = sorted.iter().map(|r| r.is_default).collect();
    assert_eq!(defaults, vec![false, false, true, false]);
}

#[test]
fn default_java_17_comes_after_java_21() {
    let found = vec![
        ("/usr/lib/jvm/17/bin/java".to_string(), Some(java("/usr/lib/jvm/17/bin/java", 17))),
        ("/usr/lib/jvm/21/bin/java".to_string(), Some(java("/usr/lib/jvm/21/bin/java", 21))),
    ];
    let sorted = java_runtimes_found(found, Some("/usr/lib/jvm/17/bin/java".to_string()));
    let majors: Vec<u32> = sorted.iter().map(|r| r.major_version).collect();
    assert_eq!(majors, vec![21, 17]);
    assert!(sorted[1].is_default);
}

#[test]
fn java_runtimes_without_default_keep_equal_ones_in_order() {
    let found = vec![
        ("/same".to_string(), Some(java("/p", 11))),
        ("/other".to_string(), Some(java("/p", 11))),
    ];
    let sorted = java_runtimes_found(found, None);
    assert_eq!(sorted.len(), 2);
    assert!(sorted.iter().all(|r| !r.is_default));
}

#[test]
fn java_probe_prefers_standard_error() {
    let stderr = b"openjdk version \"21.0.2\" 2024-01-16\nOpenJDK Runtime Environment (build 21.0.2+13)\n";
    let rt = java_runtime_from_probe(stderr, b"ignored", "/usr/lib/jvm/java-21/bin/java").unwrap();
    assert_eq!(rt.version, "21.0.2");
    assert_eq!(rt.major_version, 21);
    assert_eq!(rt.java_home, "/usr/lib/jvm/java-21");
    assert!(!rt.is_default);
    let from_stdout =
        java_runtime_from_probe(b"", b"java version \"1.8.0_392\"\n", "/opt/jdk8/bin/java").unwrap();
    assert_eq!(from_stdout.major_version, 8);
    assert_eq!(from_stdout.runtime_name, "Unknown Java Runtime");
    assert!(java_runtime_from_probe(b"", b"", "/bin/java").is_none());
}

#[test]
fn listing_yields_one_runtime_per_line() {
    let out = b"Microsoft.AspNetCore.App 8.0.23 [/usr/share/dotnet/shared/Microsoft.AspNetCore.App]\r\n\nMicrosoft.NETCore.App 6.0.36 [/usr/share/dotnet/shared/Microsoft.NETCore.App]\n";
    let rts = runtimes_from_listing(true, out, "/usr/share/dotnet", true).unwrap();
    assert_eq!(rts.len(), 2);
    assert_eq!(rts[0].runtime_name, "Microsoft.AspNetCore.App");
    assert_eq!(rts[0].runtime_path, "/usr/share/dotnet/shared/Microsoft.AspNetCore.App");
    assert_eq!(rts[1].version, "6.0.36");
    assert_eq!(rts[1].major_version, 6);
    assert!(rts.iter().all(|r| r.is_default && r.installation_root == "/usr/share/dotnet"));
}

#[test]
fn listing_of_failed_or_empty_probe_is_none() {
    let out = b"Microsoft.NETCore.App 6.0.36 [/x]\n";
    assert!(runtimes_from_listing(false, out, "/x", false).is_none());
    assert!(runtimes_from_listing(true, b"", "/x", false).is_none());
    assert!(runtimes_from_listing(true, b"garbage\n\n", "/x", false).is_none());
}

#[test]
fn installations_one_per_root() {
    let canonical = vec![
        Some("/usr/share/dotnet/dotnet".to_string()),
        None,
        Some("/usr/share/dotnet/dotnet".to_string()),
        Some("/opt/dotnet/dotnet".to_string()),
        Some("/".to_string()),
    ];
    let picks = dotnet_installations(&canonical, Some("/opt/dotnet/dotnet".to_string()));
    assert_eq!(
        picks,
        vec![
            (0, "/usr/share/dotnet".to_string(), false),
            (3, "/opt/dotnet".to_string(), true),
        ]
    );
}

#[test]
fn dotnet_runtimes_default_first_then_name_then_newest() {
    let probes = vec![
        Some(vec![dotnet("Microsoft.NETCore.App", "6.0.36", false), dotnet("Microsoft.AspNetCore.App", "8.0.23", false)]),
        None,
        Some(vec![dotnet("Microsoft.NETCore.App", "8.0.23", false), dotnet("Microsoft.NETCore.App", "9.0.0", true)]),
    ];
    let sorted = dotnet_runtimes_found(probes);
    let keys: Vec<(bool, &str, &str)> = sorted
        .iter()
        .map(|r| (r.is_default, r.runtime_name.as_str(), r.version.as_str()))
        .collect();
    assert_eq!(
        keys,
        vec![
            (true, "Microsoft.NETCore.App", "9.0.0"),
            (false, "Microsoft.AspNetCore.App", "8.0.23"),
            (false, "Microsoft.NETCore.App", "8.0.23"),
            (false, "Microsoft.NETCore.App", "6.0.36"),
        ]
    );
}

#[test]
fn stable_sort_keeps_equivalent_items_in_order() {
    let mut a = java("/p", 17);
    a.java_home = "first".to_string();
    let mut b = java("/p", 17);
    b.java_home = "second".to_string();
    let c = java("/q", 21);
    let sorted = stable_sort(vec![a, b, c]);
    let homes: Vec<&str> = sorted.iter().map(|r| r.java_home.as_str()).collect();
    assert_eq!(homes, vec!["", "first", "second"]);
}
