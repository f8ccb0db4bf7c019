use std::path::PathBuf;
use ytrss::Output;

fn output_for(path: &PathBuf) -> PathBuf {
    PathBuf::from(Output::generate_output_filename(path.to_str().unwrap()))
}

#[test]
fn test_generate_output_filename_with_extension() {
    let path = PathBuf::from("/path/to/input.txt");
    let result = output_for(&path);
    assert_eq!(result, PathBuf::from("/path/to/input_parsed.txt"));
}

#[test]
fn test_generate_output_filename_without_extension() {
    let path = PathBuf::from("/path/to/inputfile");
    let result = output_for(&path);
    assert_eq!(result, PathBuf::from("/path/to/inputfile_parsed"));
}

#[test]
fn test_generate_output_filename_just_filename() {
    let path = PathBuf::from("data.csv");
    let result = output_for(&path);
    assert_eq!(result, PathBuf::from("data_parsed.csv"));
}

#[test]
fn test_generate_output_filename_with_multiple_dots() {
    let path = PathBuf::from("archive.tar.gz");
    let result = output_for(&path);
    assert_eq!(result, PathBuf::from("archive.tar_parsed.gz"));
}

#[test]
fn output_name_from_parts() {
    assert_eq!(Output::output_name(Some("a"), Some("txt")), "a_parsed.txt");
    assert_eq!(Output::output_name(Some("a"), None), "a_parsed");
    assert_eq!(Output::output_name(None, None), "output_parsed");
}

#[test]
fn empty_path_falls_back_to_default_stem() {
    assert_eq!(Output::generate_output_filename(""), "output_parsed");
}
