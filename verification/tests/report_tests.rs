use kv_bench_core::report::{find_first, merge_reports, placeholder};

const MARKER: &str = "<!-- __DATA__ -->";

fn wrap(data: &str) -> String {
    format!("<script type=\"data\" compressed=\"false\">\n{}\n</script>\n", data)
}

#[test]
fn placeholder_is_the_data_comment() {
    assert_eq!(placeholder(), MARKER);
}

#[test]
fn merge_embeds_each_file_verbatim_in_order() {
    // Two input files: the merged output holds exactly two data blocks, in
    // input order, each reproducing its file's bytes, with the placeholder
    // kept behind them.
    let template: Vec<u8> = format!("<html>{}</html>", MARKER).into_bytes();
    let a = b"{\"x\":1}\n[1,2]".to_vec();
    let b = b"line one\nline two".to_vec();
    let merged = merge_reports(&template, &vec![a.clone(), b.clone()]);
    let expected = format!(
        "<html>{}{}{}</html>",
        wrap("{\"x\":1}\n[1,2]"),
        wrap("line one\nline two"),
        MARKER,
    );
    assert_eq!(String::from_utf8(merged).unwrap(), expected);
}

#[test]
fn merge_with_no_inputs_keeps_template_shape() {
    let template: Vec<u8> = format!("a{}b", MARKER).into_bytes();
    let merged = merge_reports(&template, &Vec::new());
    assert_eq!(merged, template);
}

#[test]
fn merge_without_placeholder_returns_template_unchanged() {
    let template = b"<html>no slot here</html>".to_vec();
    let data = b"ignored".to_vec();
    let merged = merge_reports(&template, &vec![data]);
    assert_eq!(merged, template);
}

#[test]
fn merge_can_be_repeated_for_more_files() {
    // The placeholder survives a merge, so a second merge appends after the
    // first file's block.
    let template: Vec<u8> = format!("[{}]", MARKER).into_bytes();
    let first = merge_reports(&template, &vec![b"one".to_vec()]);
    let second = merge_reports(&first, &vec![b"two".to_vec()]);
    let expected = format!("[{}{}{}]", wrap("one"), wrap("two"), MARKER);
    assert_eq!(String::from_utf8(second).unwrap(), expected);
}

#[test]
fn find_first_reports_the_first_occurrence() {
    let hay = b"xxabyabz".to_vec();
    assert_eq!(find_first(&hay, &b"ab".to_vec()), Some(2));
    assert_eq!(find_first(&hay, &b"z".to_vec()), Some(7));
    assert_eq!(find_first(&hay, &b"ba".to_vec()), None);
    assert_eq!(find_first(&hay, &b"xxabyabzz".to_vec()), None);
    assert_eq!(find_first(&hay, &Vec::new()), Some(0));
}
