use clear_file_preserve_meta::filter::FileFilter;
use std::path::PathBuf;

const NON_EX_PATH_01: &str = "./tests/please/dont/create/such.file";
const NON_EX_PATH_02: &str = "./tests/please/dont/create/tmp_test_ff_99.txt";
const NON_EX_PATH_03: &str = "./tests/please/dont/create/tmp_test_ff_99_v_02.txt";
const NON_EX_PATHS: &[&str] = &[NON_EX_PATH_01, NON_EX_PATH_02, NON_EX_PATH_03];

const EX_PATH_01: &str = "./tests/tmp_test_ff_01.txt";
const EX_PATH_02: &str = "./tests/tmp_test_ff_02.txt";
const EX_PATH_03: &str = "./tests/tmp_test_ff_03.lib";
const EX_PATH_04: &str = "./tests/tmp_test_ff_04.txt";
const EX_PATH_05: &str = "./tests/tmp_xtest_ff_05.txt";
const EX_PATHS: &[&str] = &[EX_PATH_01, EX_PATH_02, EX_PATH_03, EX_PATH_04, EX_PATH_05];

// The paths of the first list stand for files that exist, those of the second
// for paths that do not: the filter is told which is which.
const EXISTS: bool = true;
const MISSING: bool = false;

fn path(text: &str) -> PathBuf {
    PathBuf::from(text)
}

#[test]
fn test_ff_01_empty() {
    let filter = FileFilter::new(None, None).unwrap();

    assert_eq!(Some(true), filter.is_allowed_unchecked(&path(EX_PATH_01)));
    assert_eq!(Some(false), filter.is_denied_unchecked(&path(EX_PATH_01)));
    assert_eq!(Some(true), filter.is_allowed(&path(EX_PATH_01), EXISTS));
    assert_eq!(Some(false), filter.is_denied(&path(EX_PATH_01), EXISTS));

    assert_eq!(Some(true), filter.is_allowed_unchecked(&path(NON_EX_PATH_01)));
    assert_eq!(Some(false), filter.is_denied_unchecked(&path(NON_EX_PATH_01)));
    assert_eq!(None, filter.is_allowed(&path(NON_EX_PATH_01), MISSING));
    assert_eq!(None, filter.is_denied(&path(NON_EX_PATH_01), MISSING));
}

#[test]
fn test_ff_02_whitelist() {
    let filter = FileFilter::new(Some(r"tmp_test_.*\.txt"), None).unwrap();

    let non_ex_allow = [false, true, true];
    let ex_allow = [true, true, false, true, false];

    for (i, non_ex_path) in NON_EX_PATHS.iter().enumerate() {
        assert_eq!(Some(non_ex_allow[i]), filter.is_allowed_unchecked(&path(non_ex_path)));
        assert_eq!(Some(!non_ex_allow[i]), filter.is_denied_unchecked(&path(non_ex_path)));
        assert_eq!(None, filter.is_allowed(&path(non_ex_path), MISSING));
        assert_eq!(None, filter.is_denied(&path(non_ex_path), MISSING));
    }

    for (i, ex_path) in EX_PATHS.iter().enumerate() {
        assert_eq!(Some(ex_allow[i]), filter.is_allowed_unchecked(&path(ex_path)));
        assert_eq!(Some(!ex_allow[i]), filter.is_denied_unchecked(&path(ex_path)));
        assert_eq!(Some(ex_allow[i]), filter.is_allowed(&path(ex_path), EXISTS));
        assert_eq!(Some(!ex_allow[i]), filter.is_denied(&path(ex_path), EXISTS));
    }
}

#[test]
fn test_ff_03_blacklist() {
    let filter = FileFilter::new(None, Some(r"tmp_test_.*\.txt")).unwrap();

    let non_ex_allow = [true, false, false];
    let ex_allow = [false, false, true, false, true];

    for (i, non_ex_path) in NON_EX_PATHS.iter().enumerate() {
        assert_eq!(Some(non_ex_allow[i]), filter.is_allowed_unchecked(&path(non_ex_path)));
        assert_eq!(Some(!non_ex_allow[i]), filter.is_denied_unchecked(&path(non_ex_path)));
        assert_eq!(None, filter.is_allowed(&path(non_ex_path), MISSING));
        assert_eq!(None, filter.is_denied(&path(non_ex_path), MISSING));
    }

    for (i, ex_path) in EX_PATHS.iter().enumerate() {
        assert_eq!(Some(ex_allow[i]), filter.is_allowed_unchecked(&path(ex_path)));
        assert_eq!(Some(!ex_allow[i]), filter.is_denied_unchecked(&path(ex_path)));
        assert_eq!(Some(ex_allow[i]), filter.is_allowed(&path(ex_path), EXISTS));
        assert_eq!(Some(!ex_allow[i]), filter.is_denied(&path(ex_path), EXISTS));
    }
}

#[test]
fn test_ff_04_wb_list() {
    let filter = FileFilter::new(Some(r"tmp_test_.*\.txt"), Some(r".*_02.*")).unwrap();

    let non_ex_allow = [false, true, false];
    let ex_allow = [true, false, false, true, false];

    for (i, non_ex_path) in NON_EX_PATHS.iter().enumerate() {
        assert_eq!(Some(non_ex_allow[i]), filter.is_allowed_unchecked(&path(non_ex_path)));
        assert_eq!(Some(!non_ex_allow[i]), filter.is_denied_unchecked(&path(non_ex_path)));
        assert_eq!(None, filter.is_allowed(&path(non_ex_path), MISSING));
        assert_eq!(None, filter.is_denied(&path(non_ex_path), MISSING));
    }

    for (i, ex_path) in EX_PATHS.iter().enumerate() {
        assert_eq!(Some(ex_allow[i]), filter.is_allowed_unchecked(&path(ex_path)));
        assert_eq!(Some(!ex_allow[i]), filter.is_denied_unchecked(&path(ex_path)));
        assert_eq!(Some(ex_allow[i]), filter.is_allowed(&path(ex_path), EXISTS));
        assert_eq!(Some(!ex_allow[i]), filter.is_denied(&path(ex_path), EXISTS));
    }
}
