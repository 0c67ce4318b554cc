use wxrs::paths::{file_extension, file_name, file_stem, join, parent};

#[test]
fn extension_follows_the_last_dot() {
    assert_eq!(file_extension("main.cpp"), "cpp");
    assert_eq!(file_extension("archive.tar.gz"), "gz");
    assert_eq!(file_extension("wxbase31u.lib"), "lib");
}

#[test]
fn names_without_an_extension() {
    assert_eq!(file_extension("Makefile"), "");
    assert_eq!(file_extension(".gitignore"), "");
    assert_eq!(file_extension("trailing."), "");
    assert_eq!(file_extension(""), "");
}

#[test]
fn stem_precedes_the_last_dot() {
    assert_eq!(file_stem("main.cpp"), "main");
    assert_eq!(file_stem("archive.tar.gz"), "archive.tar");
    assert_eq!(file_stem("Makefile"), "Makefile");
    assert_eq!(file_stem(".a"), ".a");
    assert_eq!(file_stem("trailing."), "trailing");
    assert_eq!(file_stem(""), "");
}

#[test]
fn names_as_the_standard_library_reads_them() {
    for name in ["main.cpp", "a.b.c", "noext", ".hidden", ".hidden.txt", "x.", "wxmsw31ud_core.lib"] {
        let path = std::path::Path::new(name);
        let extension = path.extension().and_then(|e| e.to_str()).unwrap_or("");
        let stem = path.file_stem().and_then(|s| s.to_str()).unwrap_or("");
        assert_eq!(file_extension(name), extension);
        assert_eq!(file_stem(name), stem);
    }
}

#[test]
fn last_component_and_its_directory() {
    assert_eq!(file_name("/usr/local/lib/libz.a"), "libz.a");
    assert_eq!(parent("/usr/local/lib/libz.a"), "/usr/local/lib");
    assert_eq!(file_name("libz.a"), "libz.a");
    assert_eq!(parent("libz.a"), "");
    assert_eq!(file_name("/libz.a"), "libz.a");
    assert_eq!(parent("/libz.a"), "/");
    assert_eq!(file_name("dir/"), "dir");
    assert_eq!(parent("dir/"), "");
    assert_eq!(file_name("a/b/./"), "b");
    assert_eq!(file_name("a/.."), "");
    assert_eq!(file_name("/"), "");
    assert_eq!(file_name("."), "");
    assert_eq!(parent("a/b/"), "a");
}

#[test]
fn directory_is_given_without_what_says_nothing() {
    assert_eq!(parent("a//b.a"), "a");
    assert_eq!(parent("a/./b.a"), "a");
    assert_eq!(parent("a/.//./b.a"), "a");
    assert_eq!(parent("/a//b.a"), "/a");
    assert_eq!(parent("//b.a"), "/");
    assert_eq!(parent("/./b.a"), "/");
    assert_eq!(parent("./b.a"), ".");
    assert_eq!(parent("././b.a"), ".");
    assert_eq!(parent("a/../b.a"), "a/..");
    assert_eq!(parent("../b.a"), "..");
    assert_eq!(parent(".a/b.a"), ".a");
    assert_eq!(parent("a./b.a"), "a.");
    assert_eq!(parent("/"), "/");
    assert_eq!(parent("."), "");
    assert_eq!(parent(""), "");
}

#[test]
fn child_inside_a_directory() {
    assert_eq!(join("/out", "start.cpp"), "/out/start.cpp");
    assert_eq!(join("/out/", "start.cpp"), "/out/start.cpp");
    assert_eq!(join("", "start.cpp"), "start.cpp");
    assert_eq!(join("C:\\wx", "include"), "C:\\wx/include");
    assert_eq!(join("/", "lib"), "/lib");
}
