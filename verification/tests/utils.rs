use std::path::{Path, PathBuf};

use termscp::filetransfer::pex::{decode_permissions, file_mode, mode_pex};
use termscp::filetransfer::{FileTransferError, FileTransferErrorType};
use termscp::system::sshkey_storage::{SshKey, SshKeyStorage};
use termscp::utils::parser::year_of;
use termscp::utils::parser::parse_lstime;
use termscp::utils::path::{extension_of, final_component, join_paths, parent_of};
use termscp::utils::text::{
    chars_of, find_text, lower, lower_all, parse_u32, parse_u64, parse_usize, split_lines, trim,
    whitespace,
};

fn text(s: &str) -> Vec<char> {
    s.chars().collect()
}

fn name(s: &str) -> Option<String> {
    final_component(&text(s)).map(|v| v.into_iter().collect())
}

fn ext(s: &str) -> Option<String> {
    extension_of(&text(s)).map(|v| v.into_iter().collect())
}

fn dir(s: &str) -> Option<String> {
    parent_of(&text(s)).map(|v| v.into_iter().collect())
}

fn joined(a: &str, b: &str) -> String {
    join_paths(&text(a), &text(b)).into_iter().collect()
}

#[test]
fn strings_are_taken_character_by_character() {
    assert_eq!(chars_of("a-é✓"), vec!['a', '-', 'é', '✓']);
    assert_eq!(chars_of(""), Vec::<char>::new());
}

#[test]
fn trimming_drops_white_space_at_both_ends() {
    assert_eq!(trim(&text(" \t0\r\n")), text("0"));
    assert_eq!(trim(&text("a b")), text("a b"));
    assert_eq!(trim(&text("\u{a0}\u{3000}x y\u{2028}")), text("x y"));
    assert_eq!(trim(&text(" \n ")), text(""));
    assert_eq!(trim(&text("")), text(""));
    assert!(whitespace('\u{85}'));
    assert!(!whitespace('\u{200b}'));
    assert!(!whitespace('_'));
}

#[test]
fn lines_end_at_line_feeds() {
    assert_eq!(split_lines(&text("")), Vec::<Vec<char>>::new());
    assert_eq!(split_lines(&text("a")), vec![text("a")]);
    assert_eq!(split_lines(&text("a\n")), vec![text("a")]);
    assert_eq!(split_lines(&text("a\r\nb\n\nc")), vec![text("a"), text("b"), text(""), text("c")]);
    assert_eq!(split_lines(&text("\n")), vec![text("")]);
    assert_eq!(split_lines(&text("a\rb\r")), vec![text("a\rb\r")]);
    assert_eq!(split_lines(&text("a\r\r\n")), vec![text("a\r")]);
    let std_lines: Vec<Vec<char>> = "x\r\ny\n\rz\r".lines().map(text).collect();
    assert_eq!(split_lines(&text("x\r\ny\n\rz\r")), std_lines);
}

#[test]
fn texts_are_found_where_they_first_stand() {
    assert_eq!(find_text(&text("a -> b -> c"), &text(" -> ")), Some(1));
    assert_eq!(find_text(&text("a ->b"), &text(" -> ")), None);
    assert_eq!(find_text(&text("ab"), &text("")), Some(0));
    assert_eq!(find_text(&text(""), &text("a")), None);
    assert_eq!(find_text(&text("aab"), &text("ab")), Some(1));
}

#[test]
fn numbers_are_read_in_base_ten() {
    assert_eq!(parse_u64(&text("0")), Some(0));
    assert_eq!(parse_u64(&text("+42")), Some(42));
    assert_eq!(parse_u64(&text("007")), Some(7));
    assert_eq!(parse_u64(&text("18446744073709551615")), Some(u64::MAX));
    assert_eq!(parse_u64(&text("18446744073709551616")), None);
    assert_eq!(parse_u64(&text("184467440737095516150")), None);
    assert_eq!(parse_u64(&text("")), None);
    assert_eq!(parse_u64(&text("+")), None);
    assert_eq!(parse_u64(&text("-1")), None);
    assert_eq!(parse_u64(&text("1 ")), None);
    assert_eq!(parse_u64(&text("١٢")), None);
    assert_eq!(parse_u32(&text("4294967295")), Some(u32::MAX));
    assert_eq!(parse_u32(&text("4294967296")), None);
    assert_eq!(parse_u32(&text("root")), None);
    assert_eq!(parse_usize(&text("8192")), Some(8192));
    assert_eq!(parse_usize(&text("99999999999999999999999")), None);
}

#[test]
fn paths_are_joined_like_directories() {
    assert_eq!(joined("/tmp", "a"), "/tmp/a");
    assert_eq!(joined("/tmp/", "a"), "/tmp/a");
    assert_eq!(joined("/tmp", "/a"), "/a");
    assert_eq!(joined("", "a"), "a");
    assert_eq!(joined("/", "a"), "/a");
    assert_eq!(joined(".", "pub/"), "./pub/");
    assert_eq!(joined("/tmp", ""), "/tmp/");
}

#[test]
fn the_final_component_names_the_entry() {
    assert_eq!(name("/tmp/a.txt").as_deref(), Some("a.txt"));
    assert_eq!(name("a.txt").as_deref(), Some("a.txt"));
    assert_eq!(name("/tmp/dir///").as_deref(), Some("dir"));
    assert_eq!(name("/"), None);
    assert_eq!(name(""), None);
    assert_eq!(name("/tmp/.."), None);
    assert_eq!(name("/tmp/."), None);
    assert_eq!(name("/tmp/...").as_deref(), Some("..."));
    assert_eq!(name(".bashrc").as_deref(), Some(".bashrc"));
}

#[test]
fn the_extension_follows_the_last_dot() {
    assert_eq!(ext("/tmp/a.tar.gz").as_deref(), Some("gz"));
    assert_eq!(ext("/tmp/a"), None);
    assert_eq!(ext("/tmp/.bashrc"), None);
    assert_eq!(ext("/tmp/.bashrc.bak").as_deref(), Some("bak"));
    assert_eq!(ext("/tmp/a.").as_deref(), Some(""));
    assert_eq!(ext("/tmp.d/a"), None);
    assert_eq!(ext("/"), None);
    assert_eq!(lower_all(&text("TxT-É")), text("txt-É"));
}

#[test]
fn the_parent_is_the_path_without_its_final_component() {
    assert_eq!(dir("/readme.txt").as_deref(), Some("/"));
    assert_eq!(dir("/a/b/c").as_deref(), Some("/a/b"));
    assert_eq!(dir("/a/b/").as_deref(), Some("/a"));
    assert_eq!(dir("/a//b").as_deref(), Some("/a"));
    assert_eq!(dir("a").as_deref(), Some(""));
    assert_eq!(dir("a/b").as_deref(), Some("a"));
    assert_eq!(dir("/"), None);
    assert_eq!(dir("///"), None);
    assert_eq!(dir(""), None);
}

#[test]
fn times_with_a_year_are_midnight() {
    assert_eq!(parse_lstime("Jan  1  1970", 2021), Some(0));
    assert_eq!(parse_lstime("Jan 2 1970", 2021), Some(86400));
    assert_eq!(parse_lstime("Nov 5 2018", 2021), Some(1541376000));
    assert_eq!(parse_lstime("nov 05 2018", 2021), Some(1541376000));
    assert_eq!(parse_lstime("Feb 29 2020", 2021), Some(1582934400));
    assert_eq!(parse_lstime("Mar  1 2000", 2021), Some(951868800));
    assert_eq!(parse_lstime("Dec 31 9999", 2021), Some(253402214400));
    assert_eq!(parse_lstime("Mar 1 2100", 2021), Some(4107542400));
}

#[test]
fn times_with_a_clock_are_of_this_year() {
    assert_eq!(parse_lstime("Nov  5 13:46", 2020), Some(1604583960));
    assert_eq!(parse_lstime("Nov 5 13:46", 2021), Some(1636119960));
    assert_eq!(parse_lstime("Jan 1 0:0", 1970), Some(0));
    assert_eq!(parse_lstime("Feb 29 23:59", 2020), Some(1583020740));
    assert_eq!(parse_lstime("Feb 29 23:59", 2021), None);
}

#[test]
fn days_before_1970_are_the_epoch() {
    assert_eq!(parse_lstime("Dec 31 1969", 2021), Some(0));
    assert_eq!(parse_lstime("Jan 1 0001", 2021), Some(0));
    assert_eq!(parse_lstime("Jun 1 12:00", 1900), Some(0));
}

#[test]
fn what_is_no_time_is_refused() {
    assert_eq!(parse_lstime("", 2021), None);
    assert_eq!(parse_lstime("Nov 5", 2021), None);
    assert_eq!(parse_lstime("Nov 5 2018 x", 2021), None);
    assert_eq!(parse_lstime(" Nov 5 2018", 2021), None);
    assert_eq!(parse_lstime("Nov 5 2018 ", 2021), None);
    assert_eq!(parse_lstime("Foo 5 2018", 2021), None);
    assert_eq!(parse_lstime("Nov 0 2018", 2021), None);
    assert_eq!(parse_lstime("Nov 31 2018", 2021), None);
    assert_eq!(parse_lstime("Feb 29 2019", 2021), None);
    assert_eq!(parse_lstime("Feb 29 1900", 2021), None);
    assert_eq!(parse_lstime("Nov 5 24:00", 2021), None);
    assert_eq!(parse_lstime("Nov 5 12:60", 2021), None);
    assert_eq!(parse_lstime("Nov 5 12:", 2021), None);
    assert_eq!(parse_lstime("Nov 5 123", 2021), None);
    assert_eq!(parse_lstime("Nov 005 2018", 2021), None);
    assert_eq!(parse_lstime("November 5 2018", 2021), None);
}

#[test]
fn permissions_are_read_off_nine_characters() {
    assert_eq!(decode_permissions("rwxr-xr--"), Some((7, 5, 4)));
    assert_eq!(decode_permissions("---------"), Some((0, 0, 0)));
    assert_eq!(decode_permissions("rwsr-Sr-t"), Some((7, 5, 5)));
    assert_eq!(decode_permissions("--x-w-r--"), Some((1, 2, 4)));
    assert_eq!(decode_permissions("?????????"), Some((7, 7, 7)));
    assert_eq!(decode_permissions("rwxr-xr--+"), Some((7, 5, 4)));
    assert_eq!(decode_permissions("rwxr-xr-"), None);
    assert_eq!(decode_permissions(""), None);
    let once = decode_permissions("rw-r-----");
    assert_eq!(decode_permissions("rw-r-----"), once);
}

#[test]
fn modes_pack_the_three_digits() {
    assert_eq!(file_mode(None), 0o644);
    assert_eq!(file_mode(Some((7, 5, 4))), 0o754);
    assert_eq!(file_mode(Some((0, 0, 0))), 0);
    assert_eq!(file_mode(Some((6, 4, 4))), 0o644);
    assert_eq!(mode_pex(0o100644), (6, 4, 4));
    assert_eq!(mode_pex(0o040755), (7, 5, 5));
    assert_eq!(mode_pex(0), (0, 0, 0));
    for owner in 0..8u8 {
        for group in 0..8u8 {
            for others in 0..8u8 {
                let mode = file_mode(Some((owner, group, others)));
                assert_eq!(mode, ((owner as i32) << 6) | ((group as i32) << 3) | (others as i32));
                assert_eq!(mode_pex(mode as u32), (owner, group, others));
            }
        }
    }
}

#[test]
fn the_year_of_a_time() {
    assert_eq!(year_of(0), 1970);
    assert_eq!(year_of(31535999), 1970);
    assert_eq!(year_of(31536000), 1971);
    assert_eq!(year_of(951868800), 2000);
    assert_eq!(year_of(1609459199), 2020);
    assert_eq!(year_of(1609459200), 2021);
    assert_eq!(year_of(253402214400), 9999);
    assert_eq!(year_of(u64::MAX), u32::MAX);
}

#[test]
fn failures_in_words() {
    let kinds = [
        (FileTransferErrorType::AuthenticationFailed, "Authentication failed"),
        (FileTransferErrorType::BadAddress, "Bad address syntax"),
        (FileTransferErrorType::ConnectionError, "Connection error"),
        (FileTransferErrorType::DirStatFailed, "Could not stat directory"),
        (FileTransferErrorType::FileCreateDenied, "Failed to create file"),
        (FileTransferErrorType::NoSuchFileOrDirectory, "No such file or directory"),
        (FileTransferErrorType::PexError, "Not enough permissions"),
        (FileTransferErrorType::ProtocolError, "Protocol error"),
        (FileTransferErrorType::UninitializedSession, "Uninitialized session"),
        (FileTransferErrorType::UnsupportedFeature, "Unsupported feature"),
    ];
    for (kind, words) in kinds.iter() {
        assert_eq!(kind.text(), *words);
        assert_eq!(FileTransferError::new(*kind).message(), *words);
        assert_eq!(FileTransferError::new(*kind).kind(), *kind);
        assert_eq!(
            FileTransferError::new_ex(*kind, String::from("why")).message(),
            format!("{} (why)", words)
        );
    }
}

#[test]
fn keys_are_found_by_host_and_user() {
    let key = |host: &str, user: &str, path: &str| SshKey {
        host: String::from(host),
        username: String::from(user),
        path: String::from(path),
    };
    let keys = SshKeyStorage::new(vec![
        key("a", "u", "/k/1"),
        key("b", "u", "/k/2"),
        key("a", "v", "/k/3"),
        key("a", "u", "/k/4"),
    ]);
    assert_eq!(keys.resolve("a", "u").as_deref(), Some("/k/1"));
    assert_eq!(keys.resolve("a", "v").as_deref(), Some("/k/3"));
    assert_eq!(keys.resolve("b", "u").as_deref(), Some("/k/2"));
    assert_eq!(keys.resolve("b", "v"), None);
    assert_eq!(keys.resolve("", ""), None);
    assert_eq!(SshKeyStorage::empty().resolve("a", "u"), None);
}

#[test]
fn white_space_is_what_the_standard_library_says() {
    for code in 0..=0x10ffffu32 {
        if let Some(c) = char::from_u32(code) {
            assert_eq!(whitespace(c), c.is_whitespace(), "U+{:04X}", code);
            assert_eq!(lower(c), c.to_ascii_lowercase(), "U+{:04X}", code);
        }
    }
}

#[test]
fn trimming_is_what_the_standard_library_does() {
    for s in ["", " ", "a", " a ", "\t0\n", "\u{2003}x\u{85}", "a \u{200b} ", "\r\n\r\n", " é "] {
        assert_eq!(trim(&text(s)), text(s.trim()), "{:?}", s);
    }
}

#[test]
fn plain_paths_are_cut_like_those_of_the_standard_library() {
    for p in [
        "/", "", "a", "/a", "/a/b.txt", "a/b/c", "/a/b/", "/a//b", ".bashrc", "/x/.bashrc.bak",
        "a.", "/tmp.d/a", "/a/b.tar.gz", "a b/c d.e f", "/é/ü.ö", "..", "/a/..", "...", "/.",
    ] {
        assert_eq!(name(p), Path::new(p).file_name().map(|s| s.to_string_lossy().into_owned()), "name of {:?}", p);
        assert_eq!(ext(p), Path::new(p).extension().map(|s| s.to_string_lossy().into_owned()), "extension of {:?}", p);
    }
    for p in ["/", "", "a", "/a", "/a/b.txt", "a/b/c", "/a/b/", "/a//b", "a b/c d", "///"] {
        let parent = Path::new(p).parent().map(|d| d.to_string_lossy().into_owned());
        assert_eq!(dir(p), parent, "parent of {:?}", p);
    }
    for (a, b) in [
        ("/tmp", "a"), ("/tmp/", "a"), ("/tmp", "/a"), ("", "a"), ("/", "a"), (".", "pub/"),
        ("/tmp", ""), ("a", "b/c"), ("", ""), ("/", "/"),
    ] {
        let mut joined_by_std = PathBuf::from(a);
        joined_by_std.push(b);
        assert_eq!(joined(a, b), joined_by_std.to_string_lossy(), "{:?} with {:?}", a, b);
    }
}
