use rs_img::command::compress_output_folder;
use rs_img::command::webp_output_folder;
use rs_img::paths::file_extension;
use rs_img::paths::file_stem;
use rs_img::paths::join_path;
use rs_img::paths::webp_file_name;
use rs_img::paths::webp_target_path;
use rs_img::text::trim_nuls;

#[test]
fn stem_before_last_dot() {
    assert_eq!(file_stem("photo.jpg"), "photo");
    assert_eq!(file_stem("archive.tar.gz"), "archive.tar");
}

#[test]
fn stem_of_name_without_dot_is_itself() {
    assert_eq!(file_stem("noext"), "noext");
}

#[test]
fn leading_dot_does_not_begin_an_extension() {
    assert_eq!(file_stem(".bashrc"), ".bashrc");
    assert_eq!(file_extension(".bashrc"), "");
}

#[test]
fn stem_of_name_with_trailing_dot() {
    assert_eq!(file_stem("a."), "a");
    assert_eq!(file_extension("a."), "");
}

#[test]
fn extension_after_last_dot() {
    assert_eq!(file_extension("photo.jpg"), "jpg");
    assert_eq!(file_extension("archive.tar.gz"), "gz");
    assert_eq!(file_extension("noext"), "");
}

#[test]
fn join_inserts_separator() {
    assert_eq!(join_path("a/b", "c.txt"), "a/b/c.txt");
}

#[test]
fn join_keeps_existing_separator() {
    assert_eq!(join_path("a/b/", "c.txt"), "a/b/c.txt");
}

#[test]
fn join_with_empty_folder_is_the_name() {
    assert_eq!(join_path("", "c.txt"), "c.txt");
}

#[test]
fn webp_name_replaces_extension() {
    assert_eq!(webp_file_name("photo.jpg"), "photo.webp");
}

#[test]
fn webp_name_appends_when_no_extension() {
    assert_eq!(webp_file_name("noext"), "noext.webp");
    assert_eq!(webp_file_name(".bashrc"), ".bashrc.webp");
}

#[test]
fn webp_target_joins_folder_and_converted_name() {
    assert_eq!(webp_target_path("out", "img.jpg"), "out/img.webp");
    assert_eq!(webp_target_path("out/", "img.jpg"), "out/img.webp");
    assert_eq!(webp_target_path("", "img.jpg"), "img.webp");
}

#[test]
fn compressed_images_go_under_comp() {
    assert_eq!(compress_output_folder("/home/u/Pictures"), "/home/u/Pictures/comp");
}

#[test]
fn converted_images_go_under_webps() {
    assert_eq!(webp_output_folder("/home/u/Pictures"), "/home/u/Pictures/webps");
}

#[test]
fn trim_removes_leading_and_trailing_nuls() {
    assert_eq!(trim_nuls("\0\0abc\0"), "abc");
}

#[test]
fn trim_of_only_nuls_is_empty() {
    assert_eq!(trim_nuls("\0\0"), "");
}

#[test]
fn trim_keeps_inner_nuls() {
    assert_eq!(trim_nuls("a\0b"), "a\0b");
}

#[test]
fn trim_without_nuls_is_identity() {
    assert_eq!(trim_nuls("abc"), "abc");
}
