use duchess::files::File;

fn file(contents: &str) -> File {
    File { path: "src/lib.rs".to_string(), contents: contents.to_string() }
}

#[test]
fn slug_names_line_and_column() {
    let f = file("fn a() {}\nfn b() {}\n");
    assert_eq!(f.slug(0), "src/lib.rs:0:1:");
    assert_eq!(f.slug(3), "src/lib.rs:1:4:");
    assert_eq!(f.slug(9), "src/lib.rs:1:10:");
    assert_eq!(f.slug(10), "src/lib.rs:1:1:");
    assert_eq!(f.slug(13), "src/lib.rs:2:4:");
    assert_eq!(f.slug(20), "src/lib.rs:2:1:");
}

#[test]
fn slug_agrees_with_the_standard_library() {
    let contents = "one\r\ntwo\n\nfour\u{e9}x\n  five";
    let f = file(contents);
    for offset in 0..=contents.len() {
        if !contents.is_char_boundary(offset) {
            continue;
        }
        let before = &contents[..offset];
        let line = before.lines().count();
        let column = 1 + before.rfind('\n').map_or(offset, |i| offset - i - 1);
        assert_eq!(f.slug(offset), format!("src/lib.rs:{line}:{column}:"));
    }
}

#[test]
fn slice_ends_at_the_bracket_that_closes_its_group() {
    let f = file("foo!(a, (b), [c]{d}) rest");
    assert_eq!(f.rust_slice_from(5), "a, (b), [c]{d}");
    assert_eq!(f.rust_slice_from(9), "b");
    assert_eq!(f.rust_slice_from(19), "");
}

#[test]
fn slice_runs_to_the_end_where_nothing_closes_it() {
    let f = file("impl A for B { fn f(&self) {} }");
    assert_eq!(f.rust_slice_from(0), "impl A for B { fn f(&self) {} }");
    assert_eq!(f.rust_slice_from(31), "");
    let open = file("a (b [c");
    assert_eq!(open.rust_slice_from(2), "(b [c");
}

#[test]
fn slice_counts_every_kind_of_bracket_alike() {
    // a closing bracket of another kind closes the group all the same
    let f = file("x (a] b) c");
    assert_eq!(f.rust_slice_from(0), "x (a] b");
    assert_eq!(file("a ] b").rust_slice_from(0), "a ");
    assert_eq!(file("a } b").rust_slice_from(0), "a ");
}

#[test]
fn slice_keeps_characters_of_several_bytes_whole() {
    let f = file("\u{e9}(\u{1F600})\u{4e2d}}y");
    assert_eq!(f.rust_slice_from(0), "\u{e9}(\u{1F600})\u{4e2d}");
    assert_eq!(f.rust_slice_from(2), "(\u{1F600})\u{4e2d}");
}
