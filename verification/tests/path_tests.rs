use gendoc::paths::replace_extension;

#[test]
fn swaps_the_final_extension() {
    assert_eq!(replace_extension("report.xyz", "md"), "report.md");
    assert_eq!(replace_extension("a/b/report.docx", "pdf"), "a/b/report.pdf");
}

#[test]
fn appends_when_there_is_no_extension() {
    assert_eq!(replace_extension("report", "pdf"), "report.pdf");
    assert_eq!(replace_extension("dir.v1/report", "pdf"), "dir.v1/report.pdf");
    assert_eq!(replace_extension("", "pdf"), ".pdf");
}

#[test]
fn a_leading_dot_names_a_hidden_file_not_an_extension() {
    assert_eq!(replace_extension(".config", "pdf"), ".config.pdf");
    assert_eq!(replace_extension("a/.config", "pdf"), "a/.config.pdf");
}

#[test]
fn only_the_last_extension_is_swapped() {
    assert_eq!(replace_extension("report.tex.md", "docx"), "report.tex.docx");
}

#[test]
fn backslash_separators_bound_the_final_component() {
    assert_eq!(replace_extension("C:\\docs\\r.docx", "pdf"), "C:\\docs\\r.pdf");
    assert_eq!(replace_extension("C:\\docs.v2\\r", "pdf"), "C:\\docs.v2\\r.pdf");
}

#[test]
fn stage_chain_derives_sibling_paths() {
    let md = replace_extension("report.xyz", "md");
    assert_eq!(md, "report.md");
    let docx = replace_extension(&md, "docx");
    assert_eq!(docx, "report.docx");
    let pdf = replace_extension(&docx, "pdf");
    assert_eq!(pdf, "report.pdf");
}
