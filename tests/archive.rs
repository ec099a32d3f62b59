use zarc::archive::{build_command, determine_archive_type, Archive, ArchiveType, ZIP_DEFAULT_FOLDER};
use zarc::cli::{command_line, log_level, LogLevel};
use zarc::errors::ArchiveError;

fn strings(v: &[&str]) -> Vec<String> {
    v.iter().map(|s| s.to_string()).collect()
}

fn cmd_for(raw: &str, resolved: &str) -> Vec<String> {
    Archive::from_user_path(raw, Some(resolved.to_string())).unwrap().extract_cmd()
}

#[test]
fn gzip_tarball_suffixes() {
    assert_eq!(determine_archive_type("/a/b.tar.gz"), Some(ArchiveType::GzipTarball));
    assert_eq!(determine_archive_type("/a/b.tgz"), Some(ArchiveType::GzipTarball));
}

#[test]
fn plain_gzip_suffixes() {
    assert_eq!(determine_archive_type("/a/b.gz"), Some(ArchiveType::Gzip));
    assert_eq!(determine_archive_type("/a/tar.gz"), Some(ArchiveType::Gzip));
    assert_eq!(determine_archive_type("/a/b.Z"), Some(ArchiveType::Gzip));
    assert_eq!(determine_archive_type("/a/b.z"), None);
}

#[test]
fn every_rule() {
    assert_eq!(determine_archive_type("/a/b.tar.bz2"), Some(ArchiveType::BzipTarball));
    assert_eq!(determine_archive_type("/a/b.tbz2"), Some(ArchiveType::BzipTarball));
    assert_eq!(determine_archive_type("/a/b.bz2"), Some(ArchiveType::Bzip));
    assert_eq!(determine_archive_type("/a/b.rar"), Some(ArchiveType::Rar));
    assert_eq!(determine_archive_type("/a/b.tar"), Some(ArchiveType::Tarball));
    assert_eq!(determine_archive_type("/a/b.zip"), Some(ArchiveType::Zip));
    assert_eq!(determine_archive_type("/a/b.7z"), Some(ArchiveType::Zip7));
    assert_eq!(determine_archive_type("/a/b.xz"), Some(ArchiveType::XZip));
}

#[test]
fn suffix_dots_are_literal() {
    assert_eq!(determine_archive_type("/a/b.tarxbz2"), None);
    assert_eq!(determine_archive_type("/a/bxgz"), None);
    assert_eq!(determine_archive_type("/a/b.tar.gz.bak"), None);
}

#[test]
fn unrecognized_suffix_carries_resolved_path() {
    let r = Archive::from_user_path("b.foo", Some("/a/b.foo".to_string()));
    assert_eq!(r.unwrap_err(), ArchiveError::UnrecognizedArchive("/a/b.foo".to_string()));
    assert_eq!(determine_archive_type(""), None);
}

#[test]
fn unresolved_path_is_unknown_input() {
    let r = Archive::from_user_path("missing.tar", None);
    assert_eq!(r.unwrap_err(), ArchiveError::UnknownInputFile("missing.tar".to_string()));
}

#[test]
fn archive_keeps_resolved_path_and_type() {
    let a = Archive::from_user_path("y.tar", Some("/x/y.tar".to_string())).unwrap();
    assert_eq!(a.path(), "/x/y.tar");
    assert_eq!(a.archive_type(), ArchiveType::Tarball);
}

#[test]
fn classification_is_repeatable() {
    let first = determine_archive_type("/a/b.tar.bz2");
    let second = determine_archive_type("/a/b.tar.bz2");
    assert_eq!(first, second);
    assert_eq!(first, Some(ArchiveType::BzipTarball));
}

#[test]
fn zip_command_uses_stem() {
    assert_eq!(
        cmd_for("archive.zip", "/data/archive.zip"),
        strings(&["unzip", "-d", "archive", "/data/archive.zip"])
    );
    assert_eq!(
        cmd_for("a.b.zip", "/data/a.b.zip"),
        strings(&["unzip", "-d", "a.b", "/data/a.b.zip"])
    );
}

#[test]
fn zip_command_falls_back_without_stem() {
    assert_eq!(
        build_command(ArchiveType::Zip, "/".to_string(), None),
        strings(&["unzip", "-d", ZIP_DEFAULT_FOLDER, "/"])
    );
    assert_eq!(ZIP_DEFAULT_FOLDER, "zarc_zip_extracted");
    assert_eq!(
        build_command(ArchiveType::Zip, "/data/archive.zip".to_string(), Some("archive".to_string())),
        strings(&["unzip", "-d", "archive", "/data/archive.zip"])
    );
}

#[test]
fn tarball_command() {
    assert_eq!(cmd_for("y.tar", "/x/y.tar"), strings(&["tar", "xvf", "/x/y.tar"]));
}

#[test]
fn other_commands() {
    assert_eq!(cmd_for("a", "/x/a.tar.gz"), strings(&["tar", "xzvf", "/x/a.tar.gz"]));
    assert_eq!(cmd_for("a", "/x/a.tbz2"), strings(&["tar", "xjvf", "/x/a.tbz2"]));
    assert_eq!(cmd_for("a", "/x/a.bz2"), strings(&["bunzip2", "/x/a.bz2"]));
    assert_eq!(cmd_for("a", "/x/a.gz"), strings(&["gzip", "-dk", "/x/a.gz"]));
    assert_eq!(cmd_for("a", "/x/a.Z"), strings(&["gzip", "-dk", "/x/a.Z"]));
    assert_eq!(cmd_for("a", "/x/a.rar"), strings(&["unrar", "x", "/x/a.rar"]));
    assert_eq!(cmd_for("a", "/x/a.7z"), strings(&["7z", "x", "/x/a.7z"]));
    assert_eq!(cmd_for("a", "/x/a.xz"), strings(&["xz", "-dk", "/x/a.xz"]));
}

#[test]
fn dry_run_line_for_bzip() {
    let cmd = cmd_for("f.bz2", "/p/f.bz2");
    assert_eq!(command_line(&cmd), "bunzip2 /p/f.bz2 ");
    assert_eq!(command_line(&Vec::new()), "");
}

#[test]
fn verbosity_levels() {
    assert_eq!(log_level(0), LogLevel::Warn);
    assert_eq!(log_level(1), LogLevel::Info);
    assert_eq!(log_level(2), LogLevel::Debug);
    assert_eq!(log_level(3), LogLevel::Trace);
    assert_eq!(log_level(u64::MAX), LogLevel::Trace);
}
