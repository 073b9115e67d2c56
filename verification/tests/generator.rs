use repr_c::generator::{
    assertions, can_merge, compilers, mapped_name, merge_lines, merge_two, try_merge_two,
    Assertions, Compilers,
};
use repr_c::layout::TypeLayout;
use repr_c::target::Target;

fn merged(c: &str, m: &str) -> (String, bool) {
    let mut out = String::new();
    let done = try_merge_two(c.to_string(), m.to_string(), &mut out);
    if done {
        let mut again = String::new();
        merge_two(c.to_string(), m.to_string(), &mut again);
        assert_eq!(again, out);
    }
    (out, done)
}

#[test]
fn merge_of_equal_texts() {
    assert_eq!(merged("a\nb\nc\n", "a\nb\nc\n"), ("a\nb\nc\n".to_string(), true));
    assert_eq!(merged("", ""), (String::new(), true));
    assert_eq!(merged("a\n", ""), (String::new(), true));
    assert_eq!(merged("", "a\n"), (String::new(), true));
}

#[test]
fn merge_of_one_differing_line() {
    assert_eq!(
        merged("a\nb\nc\n", "a\nB\nc\n"),
        ("a\n#ifdef MSVC\nB\n#else\nb\n#endif\nc\n".to_string(), true)
    );
}

#[test]
fn merge_of_runs_of_differing_lines() {
    assert_eq!(
        merged("int a;\nlong b;\nlong c;\nint d;\nint e;\nint f;\n", "int a;\nint b;\nint c;\nint d;\nlong e;\nint f;\n"),
        (
            "int a;\n#ifdef MSVC\nint b;\nint c;\n#else\nlong b;\nlong c;\n#endif\nint d;\n\
             #ifdef MSVC\nlong e;\n#else\nint e;\n#endif\nint f;\n"
                .to_string(),
            true
        )
    );
}

#[test]
fn merge_leaves_last_block_open() {
    assert_eq!(merged("a\nb\n", "a\nX\n"), ("a\n#ifdef MSVC\nX\n".to_string(), true));
}

#[test]
fn merge_stops_at_end_of_shorter_text() {
    assert_eq!(merged("a\nb\nc\n", "a\n"), ("a\n".to_string(), true));
    assert_eq!(merged("a\n", "a\nb\nc\n"), ("a\n".to_string(), true));
}

#[test]
fn merge_without_line_to_compare_is_not_made() {
    assert_eq!(merged("a\n", "x\ny\n"), (String::new(), false));
    assert_eq!(merged("a\nb\n", "a\nx\ny\nz\n"), (String::new(), false));
    assert_eq!(merged("a", "b\nc"), (String::new(), false));
    let mut out = String::from("// head\n");
    assert!(!try_merge_two("a".to_string(), "b\nc".to_string(), &mut out));
    assert_eq!(out, "// head\n");
}

fn text_lines(s: &str) -> Vec<String> {
    s.lines().map(|l| l.to_string()).collect()
}

#[test]
fn merge_can_be_made_where_last_lines_agree() {
    let texts = ["", "a", "a\nb", "b\na", "a\nb\nc", "x\ny\nc", "x\ny\nz\nw", "a\nb\nc\nd\ne"];
    for c in texts {
        for m in texts {
            let (cv, mv) = (text_lines(c), text_lines(m));
            let expected =
                cv.is_empty() || mv.len() <= cv.len() || cv[cv.len() - 1] == mv[cv.len() - 1];
            assert_eq!(can_merge(&cv, &mv), expected);
            let mut out = String::new();
            assert_eq!(try_merge_two(c.to_string(), m.to_string(), &mut out), expected);
        }
    }
    assert!(can_merge(&text_lines("a\nb"), &text_lines("x\nb\nc\nd")));
    assert!(!can_merge(&text_lines("a\nb"), &text_lines("a\nx\nc")));
}

#[test]
fn merge_splits_lines_as_std_does() {
    // Carriage returns before line feeds are no part of a line; the last
    // line needs no line feed.
    assert_eq!(merged("a\r\nb", "a\nb\n"), ("a\nb\n".to_string(), true));
    // A carriage return elsewhere is part of the line.
    assert_eq!(
        merged("a\rb\nc\r", "a\rb\nc\n"),
        ("a\rb\n#ifdef MSVC\nc\n".to_string(), true)
    );
    // Empty lines are lines.
    assert_eq!(merged("\n\na\n", "\n\na"), ("\n\na\n".to_string(), true));
    assert_eq!(
        merged("a\n\nb\n", "a\nb\nb\n"),
        ("a\n#ifdef MSVC\nb\n#else\n\n#endif\nb\n".to_string(), true)
    );
}

#[test]
fn merge_appends() {
    let mut out = String::from("// head\n");
    merge_two("x\n".to_string(), "x\n".to_string(), &mut out);
    assert_eq!(out, "// head\nx\n");
    assert!(try_merge_two("y\n".to_string(), "y\n".to_string(), &mut out));
    assert_eq!(out, "// head\nx\ny\n");
}

#[test]
fn merge_of_lines() {
    let c = vec!["a".to_string(), "b\n".to_string()];
    let m = vec!["a".to_string(), "b".to_string()];
    assert!(can_merge(&c, &m));
    let mut out = String::new();
    merge_lines(&c, &m, &mut out);
    assert_eq!(out, "a\n#ifdef MSVC\nb\n");
}

#[test]
fn compilers_of_targets() {
    let none = Compilers { gcc: false, clang: false, msvc: false };
    assert_eq!(compilers(&vec![]), none);
    assert_eq!(
        compilers(&vec![Target::X86_64UnknownLinuxGnu, Target::I686PcWindowsGnu]),
        Compilers { gcc: true, ..none }
    );
    assert_eq!(
        compilers(&vec![Target::X86_64UnknownLinuxGnu, Target::X86_64AppleMacosx]),
        Compilers { clang: true, ..none }
    );
    assert_eq!(
        compilers(&vec![
            Target::X86_64PcWindowsMsvc,
            Target::X86_64AppleMacosx,
            Target::X86_64UnknownLinuxGnu,
            Target::I686PcWindowsMsvc,
        ]),
        Compilers { clang: true, msvc: true, ..none }
    );
    assert_eq!(
        compilers(&vec![Target::X86_64PcWindowsMsvc, Target::X86_64UnknownLinuxGnu]),
        Compilers { gcc: true, msvc: true, ..none }
    );
}

#[test]
fn mapped_names() {
    let ours = "x86_64-linux-gnu".to_string();
    let windows = "x86_64-windows-gnu".to_string();
    let uefi = "x86_64-uefi-msvc".to_string();
    let rust = "from-rust".to_string();
    assert_eq!(mapped_name(None, None), None);
    assert_eq!(mapped_name(Some(&ours), None), Some(ours.clone()));
    assert_eq!(mapped_name(Some(&windows), None), Some(windows.clone()));
    assert_eq!(mapped_name(None, Some(&rust)), Some(rust.clone()));
    assert_eq!(mapped_name(Some(&ours), Some(&rust)), Some(ours.clone()));
    assert_eq!(mapped_name(Some(&windows), Some(&rust)), Some(rust.clone()));
    assert_eq!(mapped_name(Some(&uefi), Some(&rust)), Some(rust.clone()));
    assert_eq!(mapped_name(Some(&rust), Some(&windows)), Some(rust.clone()));
    let almost = "x86_64-window-s".to_string();
    assert_eq!(mapped_name(Some(&almost), Some(&rust)), Some(almost.clone()));
}

#[test]
fn asserted_numbers() {
    let of = |size_bits, field_alignment_bits| {
        assertions(&TypeLayout { size_bits, field_alignment_bits, required_alignment_bits: 8 })
    };
    assert_eq!(
        of(96, 32),
        Assertions {
            size: 12,
            alignment: 4,
            extra_alignment_size: 16,
            extra_required_alignment_size: 13,
            extra_size: 14,
        }
    );
    assert_eq!(
        of(40, 32),
        Assertions {
            size: 5,
            alignment: 4,
            extra_alignment_size: 12,
            extra_required_alignment_size: 6,
            extra_size: 7,
        }
    );
    assert_eq!(
        of(0, 64),
        Assertions {
            size: 0,
            alignment: 8,
            extra_alignment_size: 8,
            extra_required_alignment_size: 1,
            extra_size: 2,
        }
    );
    assert_eq!(
        of(8, 8),
        Assertions {
            size: 1,
            alignment: 1,
            extra_alignment_size: 2,
            extra_required_alignment_size: 2,
            extra_size: 3,
        }
    );
}
