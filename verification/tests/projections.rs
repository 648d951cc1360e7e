use winrt_nostd::activation::FactoryRegistry;
use winrt_nostd::projections::{
    Color, Colors, DateTime, HostName, HostNameType, StorageFile, StorageFolder, TimeSpan, Uri,
    EPOCH_DIFF_SECONDS, TICKS_PER_SECOND,
};

fn parts(u: &Uri) -> (String, String, i32, String, String) {
    (u.scheme.clone(), u.host.clone(), u.port, u.path.clone(), u.query.clone())
}

fn p(scheme: &str, host: &str, port: i32, path: &str, query: &str) -> (String, String, i32, String, String) {
    (String::from(scheme), String::from(host), port, String::from(path), String::from(query))
}

#[test]
fn uri_full() {
    let u = Uri::parse(0, "https://example.com:8080/path/to?x=1&y=2");
    assert_eq!(parts(&u), p("https", "example.com", 8080, "/path/to", "x=1&y=2"));
    assert_eq!(u.raw_uri, "https://example.com:8080/path/to?x=1&y=2");
}

#[test]
fn uri_without_scheme() {
    let u = Uri::parse(0, "example.com");
    assert_eq!(parts(&u), p("", "example.com", -1, "/", ""));
}

#[test]
fn uri_ports() {
    assert_eq!(Uri::parse(0, "http://host:abc/").port, -1);
    assert_eq!(Uri::parse(0, "http://host:/").port, -1);
    assert_eq!(Uri::parse(0, "http://host:-5/x").port, -5);
    assert_eq!(Uri::parse(0, "http://host:+7/x").port, 7);
    assert_eq!(Uri::parse(0, "http://host:2147483647/").port, 2147483647);
    assert_eq!(Uri::parse(0, "http://host:2147483648/").port, -1);
    assert_eq!(Uri::parse(0, "http://host:-2147483648/").port, -2147483648);
    assert_eq!(Uri::parse(0, "http://host:99999999999/").port, -1);
    assert_eq!(Uri::parse(0, "http://host: 80/").port, -1);
}

#[test]
fn uri_odd_shapes() {
    assert_eq!(parts(&Uri::parse(0, "http://h?q")), p("http", "h?q", -1, "/", ""));
    assert_eq!(parts(&Uri::parse(0, "file:///C:/dir")), p("file", "", -1, "/C:/dir", ""));
    assert_eq!(parts(&Uri::parse(0, "a://b://c")), p("a", "b", -1, "//c", ""));
    assert_eq!(parts(&Uri::parse(0, "")), p("", "", -1, "/", ""));
    assert_eq!(parts(&Uri::parse(0, "x:/y?a?b")), p("", "x", -1, "/y", "a?b"));
}

#[test]
fn uri_to_string_gives_input() {
    let u = Uri::parse(4, "https://example.com/");
    assert_eq!(u.to_string(), "https://example.com/");
    assert_eq!(u.absolute_uri(), "https://example.com/");
    assert_eq!(u.handle, 4);
}

#[test]
fn uri_create_activates_object() {
    let mut reg = FactoryRegistry::new();
    let mut next: u64 = 1;
    let u = Uri::create(&mut reg, &mut next, "http://a/b").unwrap();
    assert_eq!(u.handle, 0);
    assert_eq!(next, 1);
    reg.register_default("Windows.Foundation.Uri");
    let u2 = Uri::create(&mut reg, &mut next, "http://a/b").unwrap();
    assert_eq!(u2.handle, 1);
    assert_eq!(reg.get_object(1).unwrap().class_name, "Windows.Foundation.Uri");
    assert_eq!(u2.host, "a");
}

#[test]
fn datetime_unix_timestamp() {
    assert_eq!(DateTime::from_universal_time(116_444_736_000_000_000).to_unix_timestamp(), 0);
    assert_eq!(DateTime::from_universal_time(116_444_736_010_000_000).to_unix_timestamp(), 1);
    assert_eq!(DateTime::now().universal_time, 0);
    assert_eq!(DateTime::now().to_unix_timestamp(), -11_644_473_600);
    assert_eq!(DateTime::from_universal_time(-1).to_unix_timestamp(), -EPOCH_DIFF_SECONDS);
    assert_eq!(
        DateTime::from_universal_time(-15_000_000).to_unix_timestamp(),
        -1 - EPOCH_DIFF_SECONDS
    );
    assert_eq!(DateTime::from_universal_time(i64::MIN).to_unix_timestamp(), i64::MIN / TICKS_PER_SECOND - EPOCH_DIFF_SECONDS);
    assert_eq!(DateTime::from_universal_time(i64::MAX).to_unix_timestamp(), i64::MAX / TICKS_PER_SECOND - EPOCH_DIFF_SECONDS);
}

#[test]
fn timespan_from_ticks() {
    assert_eq!(TimeSpan::from_ticks(12345).duration, 12345);
    assert_eq!(TimeSpan::from_ticks(-3).duration, -3);
}

#[test]
fn storage_file_from_path() {
    let f = StorageFile::from_path("/home/user/notes.txt");
    assert_eq!(f.name, "notes.txt");
    assert_eq!(f.file_type, ".txt");
    assert_eq!(f.path, "/home/user/notes.txt");
    assert_eq!(f.handle, 0);
    assert!(f.content.is_empty());
    let w = StorageFile::from_path("C:\\dir\\file.doc");
    assert_eq!(w.name, "file.doc");
    assert_eq!(w.file_type, ".doc");
    let a = StorageFile::from_path("C:\\docs\\a.txt");
    assert_eq!((a.name.as_str(), a.file_type.as_str()), ("a.txt", ".txt"));
    let mixed = StorageFile::from_path("C:\\dir/sub\\x.rs");
    assert_eq!(mixed.name, "x.rs");
    assert_eq!(StorageFile::from_path("README").file_type, "");
    let r = StorageFile::from_path("/tmp/README");
    assert_eq!((r.name.as_str(), r.file_type.as_str()), ("README", ""));
    let d = StorageFile::from_path("dir/");
    assert_eq!(d.name, "");
    assert_eq!(d.file_type, "");
    assert_eq!(StorageFile::from_path(".bashrc").file_type, ".bashrc");
    assert_eq!(StorageFile::from_path("archive.tar.gz").file_type, ".gz");
}

#[test]
fn storage_folder_from_path() {
    let f = StorageFolder::from_path("/a/b/c");
    assert_eq!(f.name, "c");
    assert_eq!(f.path, "/a/b/c");
    assert_eq!(StorageFolder::from_path("top").name, "top");
    assert_eq!(StorageFolder::from_path("C:\\Users\\me").name, "me");
}

#[test]
fn colors_and_argb() {
    assert_eq!(Colors::cornflower_blue().to_argb(), 0xFF6495ED);
    assert_eq!(Colors::black().to_argb(), 0xFF000000);
    assert_eq!(Colors::white().to_argb(), 0xFFFFFFFF);
    assert_eq!(Colors::transparent().to_argb(), 0x00FFFFFF);
    assert_eq!(Colors::red(), Color::from_argb(255, 255, 0, 0));
    assert_eq!(Colors::green(), Color::from_argb(255, 0, 128, 0));
    assert_eq!(Colors::blue().to_argb(), 0xFF0000FF);
    assert_eq!(Colors::yellow().to_argb(), 0xFFFFFF00);
    assert_eq!(Colors::cyan().to_argb(), 0xFF00FFFF);
    assert_eq!(Colors::magenta().to_argb(), 0xFFFF00FF);
    assert_eq!(Colors::gray().to_argb(), 0xFF808080);
    assert_eq!(Colors::orange().to_argb(), 0xFFFFA500);
    assert_eq!(Colors::purple().to_argb(), 0xFF800080);
    assert_eq!(Color::from_argb(1, 2, 3, 4).to_argb(), 0x01020304);
}

#[test]
fn hostname_kinds() {
    assert_eq!(HostName::create("192.168.0.1").host_type, HostNameType::Ipv4);
    assert_eq!(HostName::create("::1").host_type, HostNameType::Ipv6);
    assert_eq!(HostName::create("fe80::1%eth0").host_type, HostNameType::Ipv6);
    assert_eq!(HostName::create("example.com").host_type, HostNameType::DomainName);
    assert_eq!(HostName::create("1.2.3.a").host_type, HostNameType::DomainName);
    assert_eq!(HostName::create("").host_type, HostNameType::Ipv4);
    let h = HostName::create("host");
    assert_eq!(h.display_name, "host");
    assert_eq!(h.raw_name, "host");
    assert_eq!(h.to_string(), "host");
    assert_eq!(h.handle, 0);
}
