use tesseract_cmd::error::TessError;
use tesseract_cmd::locator::{
    candidate_paths, executable_name, require_executable, select_candidate, Candidate, Platform,
};

fn linux_candidates() -> Vec<String> {
    candidate_paths(
        &Platform::Linux,
        &Some("/work".to_string()),
        &Some("/opt/app/bin".to_string()),
        &Some("/home/user".to_string()),
    )
}

fn probed(paths: &[String], file_at: Option<usize>) -> Vec<Candidate> {
    paths
        .iter()
        .enumerate()
        .map(|(i, p)| Candidate {
            path: p.clone(),
            is_file: file_at == Some(i),
        })
        .collect()
}

#[test]
fn executable_name_by_platform() {
    assert_eq!(executable_name(&Platform::Linux), "tesseract");
    assert_eq!(executable_name(&Platform::MacOs), "tesseract");
    assert_eq!(executable_name(&Platform::Other), "tesseract");
    assert_eq!(executable_name(&Platform::Windows), "tesseract.exe");
}

#[test]
fn candidates_follow_the_search_order() {
    assert_eq!(
        linux_candidates(),
        vec![
            "/work/tesseract",
            "/opt/app/bin/tesseract",
            "/opt/app/bin/lib/tesseract",
            "/home/user/.local/bin/tesseract",
        ]
    );
}

#[test]
fn candidates_on_macos_use_resources_dir() {
    let paths = candidate_paths(
        &Platform::MacOs,
        &None,
        &Some("/Applications/App.app/Contents/MacOS".to_string()),
        &None,
    );
    assert_eq!(
        paths,
        vec![
            "/Applications/App.app/Contents/MacOS/tesseract",
            "/Applications/App.app/Contents/MacOS/../Resources/tesseract",
        ]
    );
}

#[test]
fn candidates_on_windows_have_no_auxiliary_dir() {
    let paths = candidate_paths(
        &Platform::Windows,
        &Some("C:/work".to_string()),
        &Some("C:/app".to_string()),
        &None,
    );
    assert_eq!(paths, vec!["C:/work/tesseract.exe", "C:/app/tesseract.exe"]);
}

#[test]
fn unknown_directories_contribute_no_candidates() {
    let paths = candidate_paths(&Platform::Linux, &None, &None, &None);
    assert_eq!(paths, Vec::<String>::new());
}

#[test]
fn path_hit_wins_over_everything() {
    let paths = linux_candidates();
    let cands = probed(&paths, Some(0));
    let r = select_candidate(Some("/usr/bin/tesseract".to_string()), &cands);
    assert_eq!(r.unwrap(), "/usr/bin/tesseract");
}

#[test]
fn each_location_wins_when_earlier_ones_miss() {
    let paths = linux_candidates();
    for k in 0..paths.len() {
        let cands = probed(&paths, Some(k));
        let r = select_candidate(None, &cands);
        assert_eq!(r.unwrap(), paths[k]);
    }
}

#[test]
fn first_match_wins_over_later_ones() {
    let paths = linux_candidates();
    let cands: Vec<Candidate> = paths
        .iter()
        .map(|p| Candidate {
            path: p.clone(),
            is_file: true,
        })
        .collect();
    let r = select_candidate(None, &cands);
    assert_eq!(r.unwrap(), paths[0]);
}

#[test]
fn no_location_means_not_found() {
    let paths = linux_candidates();
    let cands = probed(&paths, None);
    assert_eq!(select_candidate(None, &cands), None);
}

#[test]
fn missing_executable_becomes_typed_error() {
    assert_eq!(
        require_executable(None),
        Err(TessError::TesseractNotFoundError)
    );
    assert_eq!(
        require_executable(Some("/usr/bin/tesseract".to_string())),
        Ok("/usr/bin/tesseract".to_string())
    );
}
