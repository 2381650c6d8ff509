use tesseract_cmd::command::{create_tesseract_command, list_langs_command, version_command, Args};
use tesseract_cmd::text::u32_to_decimal;

fn options(
    lang: &str,
    dpi: Option<u32>,
    psm: Option<u32>,
    oem: Option<u32>,
    params: Vec<(&str, &str)>,
) -> Args {
    Args {
        lang: lang.to_string(),
        dpi,
        psm,
        oem,
        config_variables: params
            .into_iter()
            .map(|(k, v)| (k.to_string(), v.to_string()))
            .collect(),
    }
}

#[test]
fn builds_minimal_args() {
    let args = options("eng", None, None, None, vec![]);
    let c = create_tesseract_command(
        &"/usr/bin/tesseract".to_string(),
        &"img.png".to_string(),
        &args,
    );
    assert_eq!(c.program, "/usr/bin/tesseract");
    assert_eq!(c.args, vec!["img.png", "stdout", "-l", "eng"]);
}

#[test]
fn builds_dpi_and_config_args() {
    let args = options(
        "eng",
        Some(300),
        None,
        None,
        vec![("tessedit_char_whitelist", "0123456789")],
    );
    let c = create_tesseract_command(
        &"tesseract".to_string(),
        &"img.png".to_string(),
        &args,
    );
    assert_eq!(c.args[0..4], ["img.png", "stdout", "-l", "eng"]);
    assert_eq!(c.args[4..6], ["--dpi", "300"]);
    let n = c.args.len();
    assert_eq!(c.args[n - 2..], ["-c", "tessedit_char_whitelist=0123456789"]);
}

#[test]
fn builds_mode_flags_in_order() {
    let args = options("deu", Some(70), Some(6), Some(1), vec![]);
    let c = create_tesseract_command(
        &"tesseract".to_string(),
        &"scan.tiff".to_string(),
        &args,
    );
    assert_eq!(
        c.args,
        vec!["scan.tiff", "stdout", "-l", "deu", "--dpi", "70", "--psm", "6", "--oem", "1"]
    );
}

#[test]
fn builds_config_args_in_supplied_order() {
    let args = options(
        "eng",
        None,
        None,
        None,
        vec![("b_key", "2"), ("a_key", "1")],
    );
    let c = create_tesseract_command(
        &"tesseract".to_string(),
        &"img.png".to_string(),
        &args,
    );
    assert_eq!(
        c.args,
        vec!["img.png", "stdout", "-l", "eng", "-c", "b_key=2", "-c", "a_key=1"]
    );
}

#[test]
fn build_is_deterministic() {
    let args = options(
        "eng",
        Some(300),
        Some(3),
        None,
        vec![("tessedit_char_whitelist", "0123456789")],
    );
    let exec = "tesseract".to_string();
    let image = "img.png".to_string();
    let first = create_tesseract_command(&exec, &image, &args);
    let second = create_tesseract_command(&exec, &image, &args);
    assert_eq!(first.program, second.program);
    assert_eq!(first.args, second.args);
}

#[test]
fn builds_version_command() {
    let c = version_command(&"/opt/tesseract".to_string());
    assert_eq!(c.program, "/opt/tesseract");
    assert_eq!(c.args, vec!["--version"]);
}

#[test]
fn builds_list_langs_command() {
    let c = list_langs_command(&"tesseract".to_string());
    assert_eq!(c.program, "tesseract");
    assert_eq!(c.args, vec!["--list-langs"]);
}

#[test]
fn renders_decimal() {
    assert_eq!(u32_to_decimal(0), "0");
    assert_eq!(u32_to_decimal(7), "7");
    assert_eq!(u32_to_decimal(300), "300");
    assert_eq!(u32_to_decimal(4294967295), "4294967295");
}
